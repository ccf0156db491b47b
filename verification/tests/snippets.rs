use rust_begin::examples::enums::{value_in_cents, Coin, IpAddrKind, Message, UsState};
use rust_begin::examples::functions;
use rust_begin::examples::generics::{largest, largest_char, largest_i32, Point};
use rust_begin::examples::lifetimes::{first_word, longest};
use rust_begin::examples::strings;
use rust_begin::examples::structs::{area, build_user, Rectangle};

#[test]
fn coins_are_worth_their_denomination() {
    assert_eq!(value_in_cents(Coin::Penny), 1);
    assert_eq!(value_in_cents(Coin::Nickel), 5);
    assert_eq!(value_in_cents(Coin::Dime), 10);
    assert_eq!(value_in_cents(Coin::Quarter(UsState::Alaska)), 25);
    assert_eq!(value_in_cents(Coin::Quarter(UsState::Alabama)), 25);
}

#[test]
fn route_accepts_both_kinds() {
    rust_begin::examples::enums::route(IpAddrKind::V4);
    rust_begin::examples::enums::route(IpAddrKind::V6);
}

#[test]
fn call_accepts_every_message() {
    Message::Quit.call();
    Message::Move { x: 1, y: 2 }.call();
    Message::Write(String::from("hello")).call();
    Message::ChangeColor(0, 0, 0).call();
}

#[test]
fn plus_one_on_options() {
    let five = Some(5);
    assert_eq!(rust_begin::examples::enums::plus_one(five), Some(6));
    assert_eq!(rust_begin::examples::enums::plus_one(None), None);
}

#[test]
fn plus_one_on_integers() {
    assert_eq!(functions::plus_one(5), 6);
    assert_eq!(functions::plus_one(-1), 0);
}

#[test]
fn plus_two_applies_its_function_twice() {
    assert_eq!(functions::plus_two(functions::plus_one, 5), 7);
}

#[test]
fn largest_of_numbers_and_chars() {
    assert_eq!(largest(&[34, 50, 25, 100, 65]), 100);
    assert_eq!(largest(&[102, 34, 6000, 89, 54, 2, 43, 8]), 6000);
    assert_eq!(largest_i32(&[34, 50, 25, 100, 65]), 100);
    assert_eq!(largest_char(&['y', 'm', 'a', 'q']), 'y');
}

#[test]
fn point_accessor_and_mixup() {
    let p = Point { x: 5, y: 10 };
    assert_eq!(*p.x(), 5);
    let p1 = Point { x: 5, y: 10.4 };
    let p2 = Point { x: "Hello", y: 'c' };
    let p3 = p1.mixup(p2);
    assert_eq!(p3.x, 5);
    assert_eq!(p3.y, 'c');
}

#[test]
fn longest_picks_the_longer_string() {
    assert_eq!(longest("long string is long", "xyz"), "long string is long");
    assert_eq!(longest("ab", "xyz"), "xyz");
    assert_eq!(longest("tie", "toe"), "toe");
}

#[test]
fn first_word_stops_at_the_first_space() {
    assert_eq!(first_word("hello world"), "hello");
    assert_eq!(first_word("hello"), "hello");
    assert_eq!(first_word(" leading"), "");
    assert_eq!(first_word(""), "");
}

#[test]
fn add_concatenates() {
    let s1 = String::from("Hello, ");
    let s3 = strings::add(s1, "world!");
    assert_eq!(s3, "Hello, world!");
}

#[test]
fn build_user_fills_the_defaults() {
    let user = build_user(
        String::from("someone@example.com"),
        String::from("someusername123"),
    );
    assert_eq!(user.email, "someone@example.com");
    assert_eq!(user.username, "someusername123");
    assert!(user.active);
    assert_eq!(user.sign_in_count, 1);
}

#[test]
fn rectangle_area_and_can_hold() {
    let rect1 = Rectangle { width: 30, height: 50 };
    assert_eq!(area(&rect1), 1500);
    assert_eq!(rect1.area(), 1500);
    let rect2 = Rectangle { width: 10, height: 40 };
    let rect3 = Rectangle { width: 60, height: 45 };
    assert!(rect1.can_hold(&rect2));
    assert!(!rect1.can_hold(&rect3));
    let sq = Rectangle::square(3);
    assert_eq!(sq.width, 3);
    assert_eq!(sq.height, 3);
    assert_eq!(sq.area(), 9);
}
