use pulse_server::helpers::{comes_first, generate_deterministic_chat_id, hex16_text};
use std::collections::hash_map::DefaultHasher;
use std::hash::{Hash, Hasher};

fn expected(user_id_1: &str, user_id_2: &str) -> String {
    let mut ids = vec![user_id_1.to_string(), user_id_2.to_string()];
    ids.sort();
    let chat_id = format!("chat_{}_{}", ids[0], ids[1]);

    let mut hasher = DefaultHasher::new();
    chat_id.hash(&mut hasher);
    format!("{:016x}", hasher.finish())
}

#[test]
fn chat_id_is_the_hash_of_the_ordered_pair() {
    for (a, b) in [
        ("alice", "bob"),
        ("bob", "alice"),
        ("a", "a"),
        ("", ""),
        ("", "x"),
        ("ab", "abc"),
        ("user-1", "user_1"),
        ("Zed", "alice"),
        ("é", "z"),
        ("😀", "\u{ffff}"),
        ("550e8400-e29b-41d4-a716-446655440000", "a1b2c3d4-5e6f-7890-abcd-ef1234567890"),
    ] {
        assert_eq!(generate_deterministic_chat_id(a, b), expected(a, b), "{:?} {:?}", a, b);
    }
}

#[test]
fn chat_id_is_the_same_from_both_sides() {
    for (a, b) in [("alice", "bob"), ("x", ""), ("ab", "abc"), ("é", "e"), ("B", "a")] {
        let id = generate_deterministic_chat_id(a, b);
        assert_eq!(id, generate_deterministic_chat_id(b, a));
        assert_eq!(id.len(), 16);
        assert!(id.chars().all(|c| c.is_ascii_digit() || ('a'..='f').contains(&c)));
    }
    assert_ne!(generate_deterministic_chat_id("alice", "bob"), generate_deterministic_chat_id("alice", "carol"));
}

#[test]
fn comes_first_is_the_order_of_strings() {
    let texts = ["", "a", "A", "ab", "abc", "b", "é", "z", "\u{ffff}", "😀", "a😀", "_", "-"];
    for left in texts {
        for right in texts {
            assert_eq!(comes_first(left, right), left <= right, "{:?} {:?}", left, right);
        }
    }
}

#[test]
fn hex16_text_pads_with_zeros() {
    assert_eq!(hex16_text(0), "0000000000000000");
    assert_eq!(hex16_text(0xabc), "0000000000000abc");
    assert_eq!(hex16_text(u64::MAX), "ffffffffffffffff");
    assert_eq!(hex16_text(0x0123456789abcdef), "0123456789abcdef");
    assert_eq!(hex16_text(0xfedcba9876543210), "fedcba9876543210");
}
