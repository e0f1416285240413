use rust_book::structs::{area, area2, Rectangle};

#[test]
fn rectangle_methods() {
    let r1 = Rectangle { width: 10, height: 20 };
    let r2 = Rectangle { width: 11, height: 20 };
    assert_eq!(area(&r1), 200);
    assert_eq!(r1.area(), 200);
    assert_eq!(r1.width(), 10);
    assert!(r1.is_width_positive());
    assert!(!r1.can_hold(&r2));
    assert!(r2.can_hold(&r1));
    let mut square = Rectangle::square(12);
    assert_eq!(square.area(), 144);
    square.set_width(20);
    assert_eq!(square.area(), 240);
    assert_eq!(area2(square), 240);
    assert!(!Rectangle::square(0).is_width_positive());
}
