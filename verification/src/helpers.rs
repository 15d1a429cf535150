//! The name of the chat between two users, which both of them arrive at.

use crate::text::{chars_of, push_char};
use std::collections::hash_map::DefaultHasher;
use std::hash::Hasher;
use vstd::prelude::*;
use vstd::string::StringExecFns;
use vstd::std_specs::hash::DefaultHasherAdditionalSpecFns;
use vstd::utf8::encode_utf8;

verus! {

/// Whether a text comes before another, or is the same: the order of
/// dictionaries, character by character, by the characters' code points.
pub open spec fn precedes(left: Seq<char>, right: Seq<char>) -> bool
    decreases left.len(),
{
    if left.len() == 0 {
        true
    } else if right.len() == 0 {
        false
    } else if left[0] != right[0] {
        left[0] < right[0]
    } else {
        precedes(left.skip(1), right.skip(1))
    }
}

/// The key of a chat: the two user IDs in their order, the lesser one first.
pub open spec fn chat_key(user_id_1: Seq<char>, user_id_2: Seq<char>) -> Seq<char> {
    if precedes(user_id_1, user_id_2) {
        "chat_"@ + user_id_1 + "_"@ + user_id_2
    } else {
        "chat_"@ + user_id_2 + "_"@ + user_id_1
    }
}

/// The hexadecimal digit of a value below sixteen, in lower case.
pub open spec fn hex_digit(value: u64) -> char {
    if value < 10 {
        (value + 48) as char
    } else {
        (value + 87) as char
    }
}

/// A number in sixteen hexadecimal digits, the most significant first.
pub open spec fn hex16(value: u64) -> Seq<char> {
    Seq::new(16, |i: int| hex_digit((value >> ((60 - 4 * i) as u64)) & 0xf))
}

/// What is fed to the hasher for a text: its bytes, and one byte that ends it.
pub open spec fn hashed_writes(text: Seq<char>) -> Seq<Seq<u8>> {
    seq![encode_utf8(text), seq![0xffu8]]
}

/// The ID of the chat between two users.
pub open spec fn chat_id_spec(user_id_1: Seq<char>, user_id_2: Seq<char>) -> Seq<char> {
    hex16(DefaultHasher::spec_finish(hashed_writes(chat_key(user_id_1, user_id_2))))
}

/// Of two texts one comes before the other, and two that come before one
/// another are the same text.
pub proof fn lemma_precedes_is_total(left: Seq<char>, right: Seq<char>)
    ensures
        precedes(left, right) || precedes(right, left),
        precedes(left, right) && precedes(right, left) ==> left == right,
    decreases left.len(),
{
    if left.len() > 0 && right.len() > 0 && left[0] == right[0] {
        lemma_precedes_is_total(left.skip(1), right.skip(1));
        if precedes(left, right) && precedes(right, left) {
            assert(left =~= seq![left[0]] + left.skip(1));
            assert(right =~= seq![right[0]] + right.skip(1));
        }
    } else if left.len() == 0 && right.len() == 0 {
        assert(left =~= right);
    }
}

/// Both users arrive at the same chat ID, whoever of them starts the chat.
pub proof fn lemma_chat_id_is_symmetric(user_id_1: Seq<char>, user_id_2: Seq<char>)
    ensures
        chat_key(user_id_1, user_id_2) == chat_key(user_id_2, user_id_1),
        chat_id_spec(user_id_1, user_id_2) == chat_id_spec(user_id_2, user_id_1),
{
    lemma_precedes_is_total(user_id_1, user_id_2);
}

/// Whether a text comes before another, or is the same.
pub fn comes_first(left: &str, right: &str) -> (first: bool)
    ensures
        first == precedes(left@, right@),
{
    let left_chars = chars_of(left);
    let right_chars = chars_of(right);
    proof {
        assert(left@.skip(0) == left@);
        assert(right@.skip(0) == right@);
    }
    let mut i: usize = 0;
    while i < left_chars.len() && i < right_chars.len()
        invariant
            i <= left_chars@.len(),
            i <= right_chars@.len(),
            left_chars@ == left@,
            right_chars@ == right@,
            precedes(left@, right@) == precedes(left@.skip(i as int), right@.skip(i as int)),
        decreases left_chars@.len() - i,
    {
        let l = left_chars[i];
        let r = right_chars[i];
        proof {
            assert(left@.skip(i as int)[0] == l);
            assert(right@.skip(i as int)[0] == r);
            assert(left@.skip(i as int).skip(1) == left@.skip(i + 1));
            assert(right@.skip(i as int).skip(1) == right@.skip(i + 1));
        }
        if l != r {
            return l < r;
        }
        i += 1;
    }
    i == left_chars.len()
}

/// Writes a number in sixteen hexadecimal digits, in lower case.
pub fn hex16_text(value: u64) -> (text: String)
    ensures
        text@ == hex16(value),
{
    let mut text = String::new();
    let mut i: u64 = 0;
    while i < 16
        invariant
            i <= 16,
            text@.len() == i,
            forall|j: int| 0 <= j < i ==> text@[j] == hex16(value)[j],
        decreases 16 - i,
    {
        let shift: u64 = 60 - 4 * i;
        let nibble: u64 = (value >> shift) & 0xf;
        assert(nibble < 16) by (bit_vector)
            requires
                nibble == (value >> shift) & 0xf,
        ;
        let c: char = if nibble < 10 {
            (nibble as u8 + 48u8) as char
        } else {
            (nibble as u8 + 87u8) as char
        };
        assert(c == hex_digit(nibble));
        push_char(&mut text, c);
        i += 1;
    }
    proof {
        assert(text@ =~= hex16(value));
    }
    text
}

/// Generate a deterministic chat ID from two user IDs.
///
/// The two IDs are put in order, so that both users have the same chat ID
/// regardless of who initiates; the ID is the hash of `chat_`, the lesser ID,
/// `_` and the greater ID, in sixteen hexadecimal digits.
pub fn generate_deterministic_chat_id(user_id_1: &str, user_id_2: &str) -> (chat_id: String)
    ensures
        chat_id@ == chat_id_spec(user_id_1@, user_id_2@),
        chat_id@ == chat_id_spec(user_id_2@, user_id_1@),
        chat_id@.len() == 16,
{
    let mut key = "chat_".to_owned();
    if comes_first(user_id_1, user_id_2) {
        key.append(user_id_1);
        key.append("_");
        key.append(user_id_2);
    } else {
        key.append(user_id_2);
        key.append("_");
        key.append(user_id_1);
    }
    assert(key@ == chat_key(user_id_1@, user_id_2@));
    let mut end: Vec<u8> = Vec::new();
    end.push(0xff);
    let mut hasher = DefaultHasher::new();
    hasher.write(key.as_str().as_bytes());
    hasher.write(end.as_slice());
    proof {
        lemma_chat_id_is_symmetric(user_id_1@, user_id_2@);
        assert(end@ =~= seq![0xffu8]);
        assert(hasher@ =~= hashed_writes(chat_key(user_id_1@, user_id_2@)));
    }
    hex16_text(hasher.finish())
}

} // verus!
