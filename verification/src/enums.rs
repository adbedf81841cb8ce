//! Values that are one of several things, and what matching on them yields.
use vstd::prelude::*;

verus! {

/// The suit of a playing card.
#[derive(Clone, Copy, Debug, PartialEq, Eq, Structural)]
pub enum PokerSuit {
    Clubs,
    Spades,
    Diamonds,
    Hearts,
}

/// A playing card.
pub struct PokerCard {
    pub suit: PokerSuit,
    pub value: u8,
}

/// The ace of clubs and the queen of diamonds.
pub fn poker_card() -> (cards: (PokerCard, PokerCard))
    ensures
        cards.0.suit == PokerSuit::Clubs && cards.0.value == 1,
        cards.1.suit == PokerSuit::Diamonds && cards.1.value == 12,
{
    let c1 = PokerCard { suit: PokerSuit::Clubs, value: 1 };
    let c2 = PokerCard { suit: PokerSuit::Diamonds, value: 12 };
    (c1, c2)
}

/// One more than the number, if there is a number.
pub fn plus_one(x: Option<i32>) -> (r: Option<i32>)
    requires
        x matches Some(i) ==> i < i32::MAX,
    ensures
        r == match x {
            None => None,
            Some(i) => Some((i + 1) as i32),
        },
{
    match x {
        None => None,
        Some(i) => Some(i + 1),
    }
}

/// Five plus one, and nothing plus one.
pub fn test_plus_one() -> (r: (Option<i32>, Option<i32>))
    ensures
        r == (Some(6i32), None::<i32>),
{
    let five = Some(5);
    let six = plus_one(five);
    let none = plus_one(None);
    (six, none)
}

/// A state of the union that has its own quarter.
#[derive(Clone, Copy, Debug, PartialEq, Eq, Structural)]
pub enum UsState {
    Alabama,
    Alaska,
}

/// A coin.
#[derive(Clone, Copy, Debug, PartialEq, Eq, Structural)]
pub enum Coin {
    Penny,
    Nickel,
    Dime,
    Quarter(UsState),
}

/// What a coin is worth, in cents.
pub fn value_in_cents(coin: Coin) -> (cents: u8)
    ensures
        cents == match coin {
            Coin::Penny => 1u8,
            Coin::Nickel => 5u8,
            Coin::Dime => 10u8,
            Coin::Quarter(_) => 25u8,
        },
{
    match coin {
        Coin::Penny => 1,
        Coin::Nickel => 5,
        Coin::Dime => 10,
        Coin::Quarter(state) => 25,
    }
}

/// A point of the compass.
#[derive(Clone, Copy, Debug, PartialEq, Eq, Structural)]
pub enum Direction {
    East,
    West,
    North,
    South,
}

/// How a direction is announced: the north and the south share a line, and
/// what is not east is west.
pub fn test_match(dire: Direction) -> (line: &'static str)
    ensures
        line@ == match dire {
            Direction::East => "East"@,
            Direction::North | Direction::South => "North or South"@,
            Direction::West => "West"@,
        },
{
    match dire {
        Direction::East => "East",
        Direction::North | Direction::South => "North or South",
        _ => "West",
    }
}

/// A point in the plane.
#[derive(Clone, Copy, Debug, PartialEq, Eq, Structural)]
pub struct Point {
    pub x: i32,
    pub y: i32,
}

/// Where a point lies with respect to the axes.
#[derive(Clone, Copy, Debug, PartialEq, Eq, Structural)]
pub enum Place {
    /// On the x axis, at this x.
    OnX(i32),
    /// On the y axis, at this y, and not at the origin.
    OnY(i32),
    /// On neither axis.
    Off(i32, i32),
}

/// Where a point lies with respect to the axes. The origin counts as lying
/// on the x axis.
pub fn match_destructure(p: Point) -> (place: Place)
    ensures
        place == if p.y == 0 {
            Place::OnX(p.x)
        } else if p.x == 0 {
            Place::OnY(p.y)
        } else {
            Place::Off(p.x, p.y)
        },
{
    match p {
        Point { x, y: 0 } => Place::OnX(x),
        Point { x: 0, y } => Place::OnY(y),
        Point { x, y } => Place::Off(x, y),
    }
}

/// What is known of a number after a match with a guard.
#[derive(Clone, Copy, Debug, PartialEq, Eq, Structural)]
pub enum Guarded {
    /// A number below five.
    LessThanFive(i32),
    /// Any other number.
    Other(i32),
    /// No number.
    Nothing,
}

/// Tells the numbers below five from the others.
pub fn match_guard(num: Option<i32>) -> (r: Guarded)
    ensures
        r == match num {
            Some(x) => if x < 5 {
                Guarded::LessThanFive(x)
            } else {
                Guarded::Other(x)
            },
            None => Guarded::Nothing,
        },
{
    match num {
        Some(x) if x < 5 => Guarded::LessThanFive(x),
        Some(x) => Guarded::Other(x),
        None => Guarded::Nothing,
    }
}

/// A greeting that carries a number.
pub enum Message {
    Hello { id: i32 },
}

/// What a match on ranges finds of a number.
#[derive(Clone, Copy, Debug, PartialEq, Eq, Structural)]
pub enum Found {
    /// A number from three to seven.
    InRange(i32),
    /// A number from ten to twelve.
    InAnotherRange,
    /// Any other number.
    Other(i32),
}

/// Sorts the number of a greeting into the range from three to seven, the
/// range from ten to twelve, or neither.
pub fn at_binding(msg: Message) -> (r: Found)
    ensures
        r == match msg {
            Message::Hello { id } => if 3 <= id <= 7 {
                Found::InRange(id)
            } else if 10 <= id <= 12 {
                Found::InAnotherRange
            } else {
                Found::Other(id)
            },
        },
{
    match msg {
        Message::Hello { id } => {
            if 3 <= id && id <= 7 {
                Found::InRange(id)
            } else if 10 <= id && id <= 12 {
                Found::InAnotherRange
            } else {
                Found::Other(id)
            }
        },
    }
}

/// A setting is only written where none was customised before. Returns the
/// setting after the attempt.
pub fn ignore(setting_value: Option<i32>, new_setting_value: Option<i32>) -> (r: Option<i32>)
    ensures
        r == if setting_value is Some && new_setting_value is Some {
            setting_value
        } else {
            new_setting_value
        },
{
    let mut setting_value = setting_value;
    match (setting_value, new_setting_value) {
        (Some(_), Some(_)) => {},
        _ => {
            setting_value = new_setting_value;
        },
    }
    setting_value
}

/// The values that a row of destructuring assignments binds.
pub fn value() -> (bound: [i32; 5])
    ensures
        bound@ == seq![1i32, 2, 1, 4, 5],
{
    let (a, b): (i32, i32) = (1, 2);
    let row: [i32; 5] = [1, 2, 3, 4, 5];
    let c: i32 = row[0];
    let d: i32 = row[3];
    let e: i32 = 5;
    [a, b, c, d, e]
}

} // verus!
