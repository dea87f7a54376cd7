use enum_basics::addr::IpAddr;
use enum_basics::coin::Coin;
use enum_basics::coin::UsState;
use enum_basics::coin::announcement;
use enum_basics::coin::value_in_cents;
use enum_basics::message::Message;
use enum_basics::run::entry_lines;
use enum_basics::text::i32_dec;
use enum_basics::text::u32_dec;

#[test]
fn dispatch_returns_literal_values() {
    assert_eq!(value_in_cents(Coin::Penny), 1);
    assert_eq!(value_in_cents(Coin::Nickel), 5);
    assert_eq!(value_in_cents(Coin::Dime), 10);
    assert_eq!(value_in_cents(Coin::Quarter(UsState::Alabama)), 25);
    assert_eq!(value_in_cents(Coin::Quarter(UsState::Alaska)), 25);
    assert_eq!(value_in_cents(Coin::Quarter(UsState::Arizona)), 25);
    assert_eq!(value_in_cents(Coin::Quarter(UsState::Arkansas)), 25);
    assert_eq!(value_in_cents(Coin::Quarter(UsState::More)), 25);
}

#[test]
fn v4_construction_preserves_components() {
    let home = IpAddr::v4(127, 0, 0, 1);
    match home {
        IpAddr::V4(a, b, c, d) => {
            assert_eq!(a, 127);
            assert_eq!(b, 0);
            assert_eq!(c, 0);
            assert_eq!(d, 1);
        }
        IpAddr::V6(_) => panic!("constructed V4, inspected V6"),
    }
}

#[test]
fn v6_construction_preserves_string() {
    let work = IpAddr::v6(String::from("::1"));
    match work {
        IpAddr::V6(s) => assert_eq!(s, "::1"),
        IpAddr::V4(..) => panic!("constructed V6, inspected V4"),
    }
}

#[test]
fn write_render_contains_payload() {
    let m = Message::Write(String::from("hello"));
    let text = m.render();
    assert!(text.contains("hello"));
    assert_eq!(text.as_str(), "Write(\"hello\")");
}

#[test]
fn every_message_variant_constructible_and_distinct() {
    let all = vec![
        Message::Quit,
        Message::Move { x: 3, y: -4 },
        Message::Write(String::from("w")),
        Message::ChangeColor(1, 2, 3),
    ];
    assert!(matches!(all[0], Message::Quit));
    assert!(matches!(all[1], Message::Move { x: 3, y: -4 }));
    assert!(matches!(all[2], Message::Write(ref s) if s == "w"));
    assert!(matches!(all[3], Message::ChangeColor(1, 2, 3)));
    for i in 0..all.len() {
        for j in 0..all.len() {
            if i != j {
                assert_ne!(all[i].render(), all[j].render());
            }
        }
    }
}

#[test]
fn every_coin_variant_constructible_and_distinct() {
    let all = vec![
        Coin::Penny,
        Coin::Nickel,
        Coin::Dime,
        Coin::Quarter(UsState::Arizona),
    ];
    assert!(matches!(all[0], Coin::Penny));
    assert!(matches!(all[1], Coin::Nickel));
    assert!(matches!(all[2], Coin::Dime));
    assert!(matches!(all[3], Coin::Quarter(UsState::Arizona)));
    for i in 0..all.len() {
        for j in 0..all.len() {
            if i != j {
                assert_ne!(all[i], all[j]);
            }
        }
    }
}

#[test]
fn entry_lines_in_order() {
    let lines = entry_lines();
    assert_eq!(lines.len(), 3);
    assert_eq!(lines[0].as_str(), "Write(\"hello\")");
    assert_eq!(lines[1].as_str(), "State quarter from Alaska.");
    assert_eq!(lines[2].as_str(), "coin_value is 25 cents.");
}

#[test]
fn render_of_each_variant() {
    assert_eq!(Message::Quit.render().as_str(), "Quit");
    assert_eq!(
        Message::Move { x: 10, y: -5 }.render().as_str(),
        "Move { x: 10, y: -5 }"
    );
    assert_eq!(
        Message::ChangeColor(0, 255, -1).render().as_str(),
        "ChangeColor(0, 255, -1)"
    );
    assert_eq!(
        Message::Write(String::new()).render().as_str(),
        "Write(\"\")"
    );
}

#[test]
fn announcement_only_for_quarters() {
    assert_eq!(
        announcement(Coin::Quarter(UsState::Alaska)),
        Some(String::from("State quarter from Alaska."))
    );
    assert_eq!(
        announcement(Coin::Quarter(UsState::More)),
        Some(String::from("State quarter from More."))
    );
    assert_eq!(announcement(Coin::Penny), None);
    assert_eq!(announcement(Coin::Nickel), None);
    assert_eq!(announcement(Coin::Dime), None);
}

#[test]
fn state_names() {
    assert_eq!(UsState::Alabama.name(), "Alabama");
    assert_eq!(UsState::Alaska.name(), "Alaska");
    assert_eq!(UsState::Arizona.name(), "Arizona");
    assert_eq!(UsState::Arkansas.name(), "Arkansas");
    assert_eq!(UsState::More.name(), "More");
}

#[test]
fn decimal_rendering() {
    assert_eq!(u32_dec(0).as_str(), "0");
    assert_eq!(u32_dec(7).as_str(), "7");
    assert_eq!(u32_dec(10).as_str(), "10");
    assert_eq!(u32_dec(255).as_str(), "255");
    assert_eq!(u32_dec(4294967295).as_str(), "4294967295");
    assert_eq!(i32_dec(0).as_str(), "0");
    assert_eq!(i32_dec(-1).as_str(), "-1");
    assert_eq!(i32_dec(-123).as_str(), "-123");
    assert_eq!(i32_dec(2147483647).as_str(), "2147483647");
    assert_eq!(i32_dec(-2147483648).as_str(), "-2147483648");
}
