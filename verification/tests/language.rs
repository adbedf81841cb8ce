use shared_cells::boxes::{test_box_memory, test_deref, test_main, MyBox};
use shared_cells::closures::{
    exec1, exec2, exec3, exec5, fn_once, test_closure, test_factory, workout, Cacher, Workout,
};
use shared_cells::combinators::{
    character_count, test_and_then, test_map, test_ok_or, test_ok_or_else,
};
use shared_cells::enums::{
    at_binding, ignore, match_destructure, match_guard, plus_one, poker_card, test_match,
    test_plus_one, value, value_in_cents, Coin, Direction, Found, Guarded, Message, Place, Point,
    PokerSuit, UsState,
};
use shared_cells::functions::{
    add, add_with_extra, bit_operation, checked_add, clear, int_over, parity, plus_or_minus,
    shadowing,
};
use shared_cells::generic::{largest, largest_char, test_largest};
use shared_cells::iter::{shoes_in_size, sum_alternate, test_counter, Counter, Iterator, Shoe};
use shared_cells::ops::{test_fly, test_point_add, Human, Meters, Millimeters, Pilot, Twenty, Wizard};
use shared_cells::text::{
    build_user, calculate_length, change, first_word, foo, get_person, gives_ownership, longest,
    longest1, measure, no_dangle, takes_and_gives_back, test_baby_name, Animal, Dog,
    ImportantExcerpt, Person,
};
use shared_cells::tally::{word_counts, Tally};
use shared_cells::vectors::{add_ten, test_vec, test_vec_fn};
use std::cell::Cell;

#[test]
fn sums() {
    assert_eq!(add(2, 3), 5);
    assert_eq!(add(-2, 2), 0);
    assert_eq!(checked_add(i32::MAX, 1), None);
    assert_eq!(checked_add(i32::MIN, -1), None);
    assert_eq!(checked_add(40, 2), Some(42));
    assert_eq!(add_with_extra(1, 1), 8);
}

#[test]
fn plus_or_minus_five() {
    assert_eq!(plus_or_minus(5), 10);
    assert_eq!(plus_or_minus(6), 1);
    assert_eq!(plus_or_minus(-5), 0);
    assert_eq!(plus_or_minus(i32::MAX), i32::MAX - 5);
}

#[test]
fn cleared_text_is_empty() {
    let mut s = String::from("text");
    clear(&mut s);
    assert_eq!(s, "");
}

#[test]
fn parity_of_numbers() {
    assert_eq!(parity(1), "odd");
    assert_eq!(parity(2), "even");
    assert_eq!(parity(0), "even");
    assert_eq!(parity(-1), "even");
}

#[test]
fn byte_plus_twenty_wraps() {
    assert_eq!(int_over(255), 19);
    assert_eq!(int_over(0), 20);
    assert_eq!(int_over(236), 0);
}

#[test]
fn bits_and_scopes() {
    assert_eq!(bit_operation(), (2, 3, 1, -4, 16, 0));
    assert_eq!(shadowing(), (12, 6));
    assert_eq!(value(), [1, 2, 1, 4, 5]);
}

#[test]
fn cards_and_coins() {
    let (c1, c2) = poker_card();
    assert_eq!((c1.suit, c1.value), (PokerSuit::Clubs, 1));
    assert_eq!((c2.suit, c2.value), (PokerSuit::Diamonds, 12));
    assert_eq!(value_in_cents(Coin::Penny), 1);
    assert_eq!(value_in_cents(Coin::Nickel), 5);
    assert_eq!(value_in_cents(Coin::Dime), 10);
    assert_eq!(value_in_cents(Coin::Quarter(UsState::Alaska)), 25);
    assert_eq!(value_in_cents(Coin::Quarter(UsState::Alabama)), 25);
}

#[test]
fn options_plus_one() {
    assert_eq!(plus_one(Some(5)), Some(6));
    assert_eq!(plus_one(None), None);
    assert_eq!(plus_one(Some(-1)), Some(0));
    assert_eq!(test_plus_one(), (Some(6), None));
}

#[test]
fn matches() {
    assert_eq!(test_match(Direction::South), "North or South");
    assert_eq!(test_match(Direction::North), "North or South");
    assert_eq!(test_match(Direction::East), "East");
    assert_eq!(test_match(Direction::West), "West");
    assert_eq!(match_destructure(Point { x: 0, y: 7 }), Place::OnY(7));
    assert_eq!(match_destructure(Point { x: 3, y: 0 }), Place::OnX(3));
    assert_eq!(match_destructure(Point { x: 0, y: 0 }), Place::OnX(0));
    assert_eq!(match_destructure(Point { x: 1, y: 2 }), Place::Off(1, 2));
    assert_eq!(match_guard(Some(4)), Guarded::LessThanFive(4));
    assert_eq!(match_guard(Some(5)), Guarded::Other(5));
    assert_eq!(match_guard(None), Guarded::Nothing);
    assert_eq!(at_binding(Message::Hello { id: 5 }), Found::InRange(5));
    assert_eq!(at_binding(Message::Hello { id: 3 }), Found::InRange(3));
    assert_eq!(at_binding(Message::Hello { id: 7 }), Found::InRange(7));
    assert_eq!(at_binding(Message::Hello { id: 8 }), Found::Other(8));
    assert_eq!(at_binding(Message::Hello { id: 10 }), Found::InAnotherRange);
    assert_eq!(at_binding(Message::Hello { id: 13 }), Found::Other(13));
    assert_eq!(ignore(Some(5), Some(10)), Some(5));
    assert_eq!(ignore(None, Some(10)), Some(10));
    assert_eq!(ignore(Some(5), None), None);
    assert_eq!(ignore(None, None), None);
}

#[test]
fn largest_of_a_list() {
    assert_eq!(*largest(&[34, 50, 25, 100, 65]), 100);
    assert_eq!(*largest(&[-3]), -3);
    assert_eq!(*largest(&[7, 7, 1]), 7);
    assert_eq!(*largest_char(&['y', 'm', 'a', 'q']), 'y');
    assert_eq!(test_largest(), (100, 'y'));
}

#[test]
fn mixed_points() {
    let p1 = shared_cells::generic::Point { x: 5, y: 10.4 };
    let p2 = shared_cells::generic::Point { x: "Hello", y: 'c' };
    let p3 = p1.mixup(p2);
    assert_eq!(p3.x, 5);
    assert_eq!(p3.y, 'c');
}

#[test]
fn cacher_keeps_the_first_answer() {
    let calls = Cell::new(0);
    let mut cacher = Cacher::new(|x: u32| {
        calls.set(calls.get() + 1);
        x * 2
    });
    assert_eq!(cacher.value(4), 8);
    assert_eq!(cacher.value(5), 8);
    assert_eq!(cacher.value(4), 8);
    assert_eq!(calls.get(), 1);
}

#[test]
fn workout_plans() {
    assert_eq!(workout(10, 7), Workout::Strength { pushups: 10, bench: 10 });
    assert_eq!(workout(24, 3), Workout::Strength { pushups: 24, bench: 24 });
    assert_eq!(workout(25, 3), Workout::Rest);
    assert_eq!(workout(30, 7), Workout::Run { minutes: 30 });
}

#[test]
fn calling_functions_that_are_values() {
    let hits = Cell::new(0);
    exec2(|| hits.set(hits.get() + 1));
    exec3(|| hits.set(hits.get() + 1));
    exec5(|| hits.set(hits.get() + 1));
    assert_eq!(hits.get(), 3);
    let said = Cell::new("");
    exec1(|s| said.set(s));
    assert_eq!(said.get(), "hello");
    assert_eq!(fn_once(|z| z == 3), (true, false));
    assert_eq!(test_closure(), (3, true));
    assert_eq!(test_factory(2, 1), 6);
    assert_eq!(test_factory(1, 1), -4);
}

#[test]
fn chains_of_options_and_results() {
    assert_eq!(character_count("abcde"), 5);
    assert_eq!(character_count("中国人"), 3);
    assert_eq!(test_and_then(), (Some("some2"), None, None, None));
    assert_eq!(test_map(), (Some(5), None, Ok(5), Err("abcde")));
    assert_eq!(test_ok_or(), (Ok("abcde"), Err("error message")));
    assert_eq!(test_ok_or_else(), (Ok("abcde"), Err("error message")));
}

#[test]
fn counter_counts_to_five() {
    let mut counter = Counter::new();
    assert_eq!(counter.next(), Some(1));
    assert_eq!(counter.next(), Some(2));
    assert_eq!(counter.next(), Some(3));
    assert_eq!(counter.next(), Some(4));
    assert_eq!(counter.next(), Some(5));
    assert_eq!(counter.next(), None);
    assert_eq!(counter.next(), None);
    assert_eq!(test_counter(), (vec![1, 2, 3, 4, 5], None));
    let mut c = Twenty { name: 50 };
    assert_eq!(c.next(), Some(20));
    assert_eq!(c.next(), Some(20));
}

#[test]
fn every_other_element_is_summed() {
    assert_eq!(sum_alternate(&vec![1, 2, 3, 4, 5, 6]), Some(9));
    assert_eq!(sum_alternate(&vec![]), Some(0));
    assert_eq!(sum_alternate(&vec![7]), Some(7));
    assert_eq!(sum_alternate(&vec![u64::MAX, 1, 1]), None);
    assert_eq!(sum_alternate(&vec![u64::MAX, 1]), Some(u64::MAX));
}

#[test]
fn shoes_of_one_size() {
    let shoes = vec![
        Shoe { size: 10, style: String::from("sneaker") },
        Shoe { size: 13, style: String::from("sandal") },
        Shoe { size: 10, style: String::from("boot") },
    ];
    let fitting = shoes_in_size(shoes, 10);
    let styles: Vec<&str> = fitting.iter().map(|s| s.style.as_str()).collect();
    assert_eq!(styles, vec!["sneaker", "boot"]);
    assert!(shoes_in_size(Vec::new(), 1).is_empty());
}

#[test]
fn operators_and_namesakes() {
    let sum = shared_cells::ops::Point { x: 1, y: 0 } + shared_cells::ops::Point { x: 2, y: 3 };
    assert_eq!(sum, shared_cells::ops::Point { x: 3, y: 3 });
    assert_eq!(test_point_add(), shared_cells::ops::Point { x: 3, y: 3 });
    assert_eq!((Millimeters(500) + Meters(2)).0, 2500);
    let person = Human;
    assert_eq!(person.fly(), "*waving arms furiously*");
    assert_eq!(Pilot::fly(&person), "This is your captain speaking.");
    assert_eq!(Wizard::fly(&person), "Up!");
    assert_eq!(
        test_fly(),
        ("*waving arms furiously*", "This is your captain speaking.", "Up!")
    );
}

#[test]
fn strings_borrowed_and_owned() {
    assert_eq!(calculate_length(&String::from("hello")), 5);
    assert_eq!(calculate_length(&String::from("中国人")), 9);
    let mut s = String::from("hello");
    assert_eq!(change(&mut s), "hello, world");
    assert_eq!(s, "hello, world");
    assert_eq!(no_dangle(), "hello");
    assert_eq!(gives_ownership(), "hello");
    assert_eq!(takes_and_gives_back(String::from("mine")), "mine");
    assert_eq!(measure(String::from("hello")), (String::from("hello"), 5));
    assert_eq!(foo("world"), "Hello, world");
    assert_eq!(get_person(), "sunface");
    assert_eq!(shared_cells::text::add(), "hello,world!");
}

#[test]
fn longest_of_two() {
    assert_eq!(longest("abcd", "xyz"), "abcd");
    assert_eq!(longest("long string is long", "xyz"), "long string is long");
    assert_eq!(longest("abc", "xyz"), "xyz");
    assert_eq!(longest1("not", "important"), "really long string");
}

#[test]
fn first_word_of_a_text() {
    assert_eq!(first_word("hello world"), "hello");
    assert_eq!(first_word("hello"), "hello");
    assert_eq!(first_word(" hello"), "");
    assert_eq!(first_word(""), "");
    assert_eq!(first_word("中国 人"), "中国");
}

#[test]
fn people_and_animals() {
    let user = build_user(String::from("a@example.com"), String::from("someone"));
    assert!(user.active);
    assert_eq!(user.sign_in_count, 1);
    assert_eq!(user.email, "a@example.com");
    assert_eq!(user.username, "someone");
    let p = Person::new(String::from("Ann"), 30);
    assert_eq!((p.name.as_str(), p.age), ("Ann", 30));
    assert_eq!(Dog::baby_name(), "Spot");
    assert_eq!(<Dog as Animal>::baby_name(), "puppy");
    assert_eq!(test_baby_name(), (String::from("Spot"), String::from("puppy")));
    let i = ImportantExcerpt { part: "Call me Ishmael" };
    assert_eq!(i.level(), 3);
    assert_eq!(i.announce_and_return_part("listen"), "Call me Ishmael");
}

#[test]
fn boxes_of_all_kinds() {
    assert_eq!(test_box_memory(), 3);
    assert_eq!(test_deref(), (5, 2, 5));
    assert_eq!(*test_main(), "hello, world");
    let mut b = MyBox::new(1);
    *b.deref_mut() = 2;
    assert_eq!(*b, 2);
}

#[test]
fn vectors_grow_and_shrink() {
    let (inserted, taken, cut, (middle_out, stayed), middle) = test_vec_fn();
    assert_eq!(inserted, vec![1, 2, 3]);
    assert_eq!(taken, (2, Some(3), Some(1), None));
    assert_eq!(cut, vec![11]);
    assert_eq!(middle_out, vec![22, 33, 44]);
    assert_eq!(stayed, vec![11, 55]);
    assert_eq!(middle, vec![22, 33, 44]);
    assert_eq!(test_vec(), (3, Some(3), None));
    let mut v = vec![1, 2, 3];
    add_ten(&mut v);
    assert_eq!(v, vec![11, 12, 13]);
}

#[test]
fn words_are_counted() {
    let words: Vec<String> =
        "hello world wonderful world".split_whitespace().map(String::from).collect();
    let tally = word_counts(words);
    assert_eq!(tally.get(&String::from("world")), 2);
    assert_eq!(tally.get(&String::from("hello")), 1);
    assert_eq!(tally.get(&String::from("absent")), 0);
    assert_eq!(
        tally.into_entries(),
        vec![
            (String::from("hello"), 1),
            (String::from("world"), 2),
            (String::from("wonderful"), 1),
        ]
    );
    let mut empty = Tally::new();
    assert_eq!(empty.get(&String::new()), 0);
    empty.add(String::new());
    empty.add(String::new());
    assert_eq!(empty.get(&String::new()), 2);
    assert!(word_counts(Vec::new()).into_entries().is_empty());
}
