use rust_book::advanced::{
    add_one, do_twice, initialize_enums, returns_closure1, Animal, Counter, Dog, Human, Meters,
    Millimeters, Pilot, Point, SimpleIterator, Status, Wizard, Wrapper,
};
use rust_book::aggregator::{read_more, returns_summarizable, some_function1, some_function2, NewsArticle, Pair, Summary, Tweet};
use rust_book::enums::{plus_one, value_in_cents, Coin, UsState};
use rust_book::gui::{Button, Draw, Screen, ScreenGeneric};
use rust_book::hello_macro::{Crepes, HelloMacro};
use rust_book::patterns::{background_color, increment, updated_setting, Background};
use rust_book::restaurant::{self, point};
use rust_book::shirt_company::{make_a_cloner, make_a_cloner2, shoes_in_size, Inventory, Shoe, ShirtColor};

#[test]
fn counter_stops_at_five() {
    let mut counter = Counter::new();
    let mut seen = vec![];
    for _ in 0..10 {
        seen.push(counter.next());
    }
    assert_eq!(counter.count, 5);
    assert_eq!(seen[0], Some(1));
    assert_eq!(seen[4], Some(5));
    assert_eq!(seen[5], None);
}

#[test]
fn test_point_add() {
    assert_eq!(
        Point { x: -5, y: 3 }.plus(Point { x: 17, y: -10 }),
        Point { x: 12, y: -7 }
    );
}

#[test]
fn test_add_meters_to_mm() {
    assert_eq!(Millimeters(321).plus_meters(Meters(4)), Millimeters(4321));
}

#[test]
fn test_fly() {
    let person = Human;
    assert_eq!(person.fly(), "*waving arms furiously*");
    assert_eq!(Pilot::fly(&person), "This is your captain speaking.");
    assert_eq!(Wizard::fly(&person), "Up!");
}

#[test]
fn test_animal() {
    assert_eq!(Dog::baby_name(), "Džeki");
    assert_eq!(<Dog as Animal>::baby_name(), "puppy");
}

#[test]
fn test_wrapper() {
    let w = Wrapper(vec![String::from("Hello"), String::from("world!")]);
    assert_eq!(w.to_display_string(), "[Hello, world!]");
    assert_eq!(Wrapper(vec![]).to_display_string(), "[]");
    assert_eq!(Wrapper(vec![String::from("a")]).to_display_string(), "[a]");
}

#[test]
fn test_do_twice() {
    assert_eq!(20, do_twice(add_one, 9));
}

#[test]
fn test_returns_closure1() {
    let f = returns_closure1();
    assert_eq!(8, f(7));
}

#[test]
fn initialize_enums_counts_up() {
    let statuses = initialize_enums();
    assert_eq!(statuses.len(), 20);
    assert_eq!(statuses[0], Status::Value(0));
    assert_eq!(statuses[19], Status::Value(19));
}

#[test]
fn summaries() {
    let tweet = Tweet {
        username: String::from("my_username"),
        content: String::from("Demo content"),
        reply: false,
        retweet: false,
    };
    assert_eq!(tweet.summarize_author(), "@my_username");
    assert_eq!(tweet.summarize(), "\"Demo content\", by @my_username");
    let article = NewsArticle {
        headline: String::from("A team won a championship!"),
        location: String::from("Europe"),
        author: String::from("Name Lastname"),
        content: String::from("The team once again are the best team in the league."),
    };
    assert_eq!(article.summarize(), "(Read more from Name Lastname...)");
    assert_eq!(read_more("x"), "(Read more from x...)");
    let t = returns_summarizable();
    assert!(t.reply);
    assert_eq!(t.summarize_author(), "@my_username2");
}

#[test]
fn sums_of_clones_and_pairs() {
    assert_eq!(some_function1(&5, &7), 12);
    assert_eq!(some_function2(&5, &-7), -2);
    assert_eq!(Pair::new(2, 3).largest_member(), (false, &3));
    assert_eq!(Pair::new(3, 3).largest_member(), (true, &3));
    assert_eq!(Pair::new('z', 'a').largest_member(), (true, &'z'));
}

#[test]
fn coins_and_options() {
    assert_eq!(value_in_cents(&Coin::Penny), 1);
    assert_eq!(value_in_cents(&Coin::Nickel), 5);
    assert_eq!(value_in_cents(&Coin::Dime), 10);
    assert_eq!(value_in_cents(&Coin::Quarter(UsState::Alaska)), 25);
    assert_eq!(plus_one(Some(5)), Some(6));
    assert_eq!(plus_one(None), None);
    assert_eq!(increment(Some(-8)), Some(-7));
    assert_eq!(increment(None), None);
}

#[test]
fn screens_draw_each_component() {
    let screen = Screen {
        components: vec![
            Box::new(String::from("Yes")),
            Box::new(Button { x: 0, y: 0, width: 50, height: 10, label: String::from("OK") }),
        ],
    };
    assert_eq!(screen.run(), vec!["Draw String: \"Yes\"".to_string(), "Draw Button".to_string()]);
    let generic = ScreenGeneric { components: vec![String::from("a"), String::from("b")] };
    assert_eq!(generic.run(), vec!["Draw String: \"a\"", "Draw String: \"b\""]);
    let b = Button { x: 1, y: 2, width: 3, height: 4, label: String::from("L") };
    assert_eq!(b.draw(), "Draw Button");
    assert_eq!(b.on_click(), "Click Button");
}

#[test]
fn hello_macro_by_hand() {
    assert_eq!(Crepes::hello_macro(), "Hello, Macro! My name is Crepes!");
}

#[test]
fn background_rules() {
    assert_eq!(background_color(true, true, Some(40)), Background::Favorite);
    assert_eq!(background_color(false, true, Some(40)), Background::Green);
    assert_eq!(background_color(false, false, Some(34)), Background::Orange);
    assert_eq!(background_color(false, false, Some(30)), Background::Purple);
    assert_eq!(background_color(false, false, None), Background::Blue);
    assert_eq!(updated_setting(Some(5), Some(10)), Some(5));
    assert_eq!(updated_setting(None, Some(10)), Some(10));
    assert_eq!(updated_setting(Some(5), None), None);
}

#[test]
fn restaurant_orders() {
    let meal = restaurant::eat_at_restaurant();
    assert_eq!(meal.toast, "wheat");
    let summer = restaurant::Breakfast::summer("rye");
    assert_eq!(summer.toast, "rye");
    let map = restaurant::play_with_hashmap();
    assert_eq!(map.get(&1), Some(&2));
    assert_eq!(map.len(), 1);
    let p = point::Point::origin();
    assert_eq!(p.0, 0);
    assert_eq!(point::play_with_point().0, 1);
    assert!(restaurant::function1().is_ok());
    restaurant::customer::eat_at_restaurant();
    restaurant::customer::eat2();
    restaurant::re_exporting::eat_at_restaurant();
    rust_book::restaurant_split::eat_at_restaurant();
    rust_book::restaurant_split::prepare_meal();
}

#[test]
fn test_filters_by_size() {
    let shoes = vec![
        Shoe { size: 10, style: String::from("sneaker") },
        Shoe { size: 13, style: String::from("sandal") },
        Shoe { size: 10, style: String::from("boot") },
    ];

    let in_my_size = shoes_in_size(shoes, 10);

    assert_eq!(
        in_my_size,
        vec![
            Shoe { size: 10, style: String::from("sneaker") },
            Shoe { size: 10, style: String::from("boot") },
        ]
    );
}

#[test]
fn giveaway_sequence() {
    let mut store = Inventory {
        shirts: vec![(ShirtColor::Red, 1), (ShirtColor::Blue, 2), (ShirtColor::Yellow, 0)],
    };
    assert_eq!(store.giveaway(&Some(ShirtColor::Yellow)), None);
    assert_eq!(store.giveaway(&Some(ShirtColor::Red)), Some(ShirtColor::Red));
    assert_eq!(store.giveaway(&Some(ShirtColor::Red)), None);
    assert_eq!(store.giveaway(&None), Some(ShirtColor::Blue));
    assert_eq!(store.giveaway(&None), Some(ShirtColor::Blue));
    assert_eq!(store.most_stocked(), ShirtColor::Yellow);
    assert_eq!(store.giveaway(&None), None);
    assert_eq!(store.shirts, vec![(ShirtColor::Red, 0), (ShirtColor::Blue, 0), (ShirtColor::Yellow, 0)]);
}

#[test]
fn cloners_copy_the_borrowed_string() {
    let s_own = String::from("Hello, world!");
    let cloner = make_a_cloner(&s_own);
    assert_eq!(cloner(), "Hello, world!");
    let cloner2 = make_a_cloner2(&s_own);
    assert_eq!(cloner2(), "Hello, world!");
}

#[test]
fn split_at_mut_parts_write_back() {
    let mut vector = vec![1, 2, 3, 4, 5, 6];
    let (a, b) = rust_book::advanced::my_split_at_mut(&mut vector, 3);
    assert_eq!(a, &mut [1, 2, 3]);
    assert_eq!(b, &mut [4, 5, 6]);
    a[0] = 10;
    b[2] = 60;
    assert_eq!(vector, vec![10, 2, 3, 4, 5, 60]);
}

#[test]
fn test_supertrait() {
    let lines = rust_book::advanced::outline_lines("(1, 3)");
    assert_eq!(
        lines,
        vec!["**********", "*        *", "* (1, 3) *", "*        *", "**********"]
    );
}
