use std::cell::RefCell;
use std::rc::Rc;

use rust_book::smart_pointers::{
    quota_message, LimitTracker, List2, Messenger, MyBox, OVER_QUOTA, URGENT_WARNING, WARNING,
};

struct MockMessenger {
    sent_messages: RefCell<Vec<String>>,
}

impl MockMessenger {
    fn new() -> MockMessenger {
        MockMessenger {
            sent_messages: RefCell::new(vec![]),
        }
    }
}

impl Messenger for MockMessenger {
    fn send(&self, message: &str) {
        self.sent_messages.borrow_mut().push(String::from(message));
    }
}

#[test]
fn send_an_over_75_percent_warning_message() {
    let mock_messenger = MockMessenger::new();
    let mut limit_tracker = LimitTracker::new(&mock_messenger, 100);

    limit_tracker.set_value(80);

    assert_eq!(mock_messenger.sent_messages.borrow().len(), 1);
    assert_eq!(mock_messenger.sent_messages.borrow()[0], WARNING);
}

#[test]
fn quota_messages_at_each_threshold() {
    assert_eq!(quota_message(74, 100), None);
    assert_eq!(quota_message(75, 100), Some(WARNING));
    assert_eq!(quota_message(89, 100), Some(WARNING));
    assert_eq!(quota_message(90, 100), Some(URGENT_WARNING));
    assert_eq!(quota_message(99, 100), Some(URGENT_WARNING));
    assert_eq!(quota_message(100, 100), Some(OVER_QUOTA));
    assert_eq!(quota_message(250, 100), Some(OVER_QUOTA));
    assert_eq!(quota_message(0, 0), None);
    assert_eq!(quota_message(1, 0), Some(OVER_QUOTA));
    assert_eq!(quota_message(usize::MAX - 1, usize::MAX), Some(URGENT_WARNING));
}

#[test]
fn tracker_sends_nothing_below_warning() {
    let mock_messenger = MockMessenger::new();
    let mut limit_tracker = LimitTracker::new(&mock_messenger, 100);
    limit_tracker.set_value(10);
    limit_tracker.set_value(100);
    assert_eq!(*mock_messenger.sent_messages.borrow(), vec![OVER_QUOTA.to_string()]);
}

#[test]
fn my_box_holds_its_value() {
    let x = 5;
    let y = MyBox::new(5);
    assert_eq!(*y.value(), x);
    assert_eq!(*y, x);
    let m = MyBox::new(String::from("Rust"));
    assert_eq!(&(*m)[..], "Rust");
}

#[test]
fn shared_list_heads() {
    let a = Rc::new(List2::Cons2(5, Rc::new(List2::Cons2(10, Rc::new(List2::Nil2)))));
    let mut b = List2::Cons2(3, Rc::clone(&a));
    assert_eq!(a.head_value(), Some(5));
    assert_eq!(b.head_value(), Some(3));
    assert_eq!(b.head_list().unwrap().head_value(), Some(5));
    b.modify_head_value(222);
    assert_eq!(b.head_value(), Some(222));
    assert_eq!(List2::Nil2.head_value(), None);
    assert!(List2::Nil2.head_list().is_none());
}
