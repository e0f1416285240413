use rust_book::collections::{median, pig_latin, pig_latin_word};
use rust_book::concurrency::{serve, ClientMessage, ServerAction};

#[test]
fn median_of_sample() {
    let array = [5, 7, 3, 5, 6, 4, 4, 2, 0, 5, 1, 8, 7, 2, -1];
    assert_eq!(median(&array), 4);
    assert_eq!(median(&[3]), 3);
    assert_eq!(median(&[4, 1]), 4);
}

#[test]
fn pig_latin_words() {
    assert_eq!(pig_latin("  First Second "), Some("irst-fay".to_string()));
    assert_eq!(pig_latin("ApPle"), Some("apple-hay".to_string()));
    assert_eq!(pig_latin("  first  \n "), Some("irst-fay".to_string()));
    assert_eq!(pig_latin("   "), None);
    assert_eq!(pig_latin("élan"), None);
    assert_eq!(pig_latin_word("x"), "-xay");
}

#[test]
fn counter_server_steps() {
    let (n, a) = serve(0, ClientMessage::Incr);
    assert_eq!((n, a), (1, ServerAction::Continue));
    assert_eq!(serve(n, ClientMessage::Get), (1, ServerAction::Reply(1)));
    assert_eq!(serve(n, ClientMessage::Quit), (1, ServerAction::Stop));
}
