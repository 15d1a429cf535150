//! Session tokens: the token that an instance of the client makes for
//! itself, and the tokens of the peers that it trusts.

use crate::helpers::hex_digit;
use crate::text::{push_char, str_eq, texts};
use rand::Rng;
use vstd::prelude::*;

verus! {

/// The number of random bytes that a session token is made of.
pub const SESSION_TOKEN_BYTES: usize = 32;

/// `rand::rng` and its `fill_bytes`: 32 bytes from the thread's generator.
/// Which bytes they are is left to chance, so only their number is promised.
/// The generator gives up only on a system without a source of randomness.
#[verifier::external_body]
fn random_bytes() -> (bytes: Vec<u8>)
    ensures
        bytes@.len() == SESSION_TOKEN_BYTES,
{
    let mut bytes = vec![0u8; SESSION_TOKEN_BYTES];
    rand::rng().fill_bytes(&mut bytes);
    bytes
}

/// Bytes in hexadecimal: two digits for each byte, in lower case.
pub open spec fn hex_of(bytes: Seq<u8>) -> Seq<char>
    decreases bytes.len(),
{
    if bytes.len() == 0 {
        Seq::empty()
    } else {
        hex_of(bytes.drop_last()) + seq![
            hex_digit((bytes.last() >> 4) as u64),
            hex_digit((bytes.last() & 0xf) as u64),
        ]
    }
}

/// Hexadecimal text is twice as long as the bytes that it stands for.
pub proof fn lemma_hex_of_len(bytes: Seq<u8>)
    ensures
        hex_of(bytes).len() == 2 * bytes.len(),
    decreases bytes.len(),
{
    if bytes.len() > 0 {
        lemma_hex_of_len(bytes.drop_last());
    }
}

/// Writes bytes in hexadecimal, in lower case.
pub fn hex_encode(bytes: &Vec<u8>) -> (text: String)
    ensures
        text@ == hex_of(bytes@),
{
    let mut text = String::new();
    let mut i: usize = 0;
    while i < bytes.len()
        invariant
            i <= bytes@.len(),
            text@ == hex_of(bytes@.take(i as int)),
        decreases bytes@.len() - i,
    {
        let byte = bytes[i];
        let high: u8 = byte >> 4;
        let low: u8 = byte & 0xf;
        assert(high < 16 && low < 16) by (bit_vector)
            requires
                high == byte >> 4,
                low == byte & 0xf,
        ;
        let first: char = if high < 10 {
            (high + 48u8) as char
        } else {
            (high + 87u8) as char
        };
        let second: char = if low < 10 {
            (low + 48u8) as char
        } else {
            (low + 87u8) as char
        };
        proof {
            assert(bytes@.take(i + 1).drop_last() == bytes@.take(i as int));
            assert(bytes@.take(i + 1).last() == byte);
            assert(first == hex_digit(high as u64));
            assert(second == hex_digit(low as u64));
            assert(text@.push(first).push(second) == text@ + seq![first, second]);
        }
        push_char(&mut text, first);
        push_char(&mut text, second);
        i += 1;
    }
    proof {
        assert(bytes@.take(bytes@.len() as int) == bytes@);
    }
    text
}

/// The session token of an instance and the tokens that it accepts.
pub struct TokenRegistry {
    session_token: Option<String>,
    valid_tokens: Vec<String>,
}

impl TokenRegistry {
    /// The session token, once one was made.
    pub closed spec fn session(&self) -> Option<Seq<char>> {
        match self.session_token {
            Some(token) => Some(token@),
            None => None,
        }
    }

    /// The tokens that are accepted.
    pub closed spec fn valid(&self) -> Set<Seq<char>> {
        texts(self.valid_tokens@).to_set()
    }

    /// A registry without a session token, which accepts no token.
    pub fn new() -> (registry: Self)
        ensures
            registry.session() is None,
            registry.valid() == Set::<Seq<char>>::empty(),
    {
        let registry = Self { session_token: None, valid_tokens: Vec::new() };
        proof {
            assert(texts(registry.valid_tokens@).to_set() =~= Set::<Seq<char>>::empty());
        }
        registry
    }

    /// Get the set of valid tokens, each of them once.
    pub fn get_valid_tokens(&self) -> (tokens: &Vec<String>)
        ensures
            texts(tokens@).to_set() == self.valid(),
    {
        &self.valid_tokens
    }

    /// Validate an authentication token: whether it is one of the accepted ones.
    pub fn validate_token(&self, token: &str) -> (valid: bool)
        ensures
            valid == self.valid().contains(token@),
    {
        let mut i: usize = 0;
        while i < self.valid_tokens.len()
            invariant
                i <= self.valid_tokens@.len(),
                forall|j: int| 0 <= j < i ==> texts(self.valid_tokens@)[j] != token@,
            decreases self.valid_tokens@.len() - i,
        {
            if str_eq(self.valid_tokens[i].as_str(), token) {
                proof {
                    assert(texts(self.valid_tokens@)[i as int] == token@);
                }
                return true;
            }
            i += 1;
        }
        false
    }

    /// Add a trusted peer token (e.g., after key exchange).
    pub fn add_trusted_token(&mut self, token: &str)
        ensures
            final(self).valid() == old(self).valid().insert(token@),
            final(self).session() == old(self).session(),
    {
        if !self.validate_token(token) {
            let ghost before = self.valid_tokens@;
            let mut tokens: Vec<String> = Vec::new();
            tokens.push(token.to_owned());
            self.valid_tokens.append(&mut tokens);
            proof {
                let known = texts(before);
                let pushed = known.push(token@);
                assert(texts(self.valid_tokens@) =~= pushed);
                assert forall|other: Seq<char>| pushed.to_set().contains(other) <==> known.to_set().insert(
                    token@,
                ).contains(other) by {
                    if pushed.contains(other) {
                        let i = choose|i: int| 0 <= i < pushed.len() && pushed[i] == other;
                        if i < known.len() {
                            assert(known[i] == other);
                        }
                    }
                    if known.contains(other) {
                        let i = choose|i: int| 0 <= i < known.len() && known[i] == other;
                        assert(pushed[i] == other);
                    }
                    if other == token@ {
                        assert(pushed[pushed.len() - 1] == other);
                    }
                }
                assert(pushed.to_set() =~= known.to_set().insert(token@));
            }
        } else {
            proof {
                assert(self.valid() =~= old(self).valid().insert(token@));
            }
        }
    }

    /// The session token where there is one, and else the token that the
    /// given fresh bytes make, which from now on is the session token. Either
    /// way the token is accepted afterwards.
    pub fn session_token_from(&mut self, fresh: &Vec<u8>) -> (token: String)
        ensures
            token@ == match old(self).session() {
                Some(existing) => existing,
                None => hex_of(fresh@),
            },
            final(self).session() == Some(token@),
            final(self).valid() == old(self).valid().insert(token@),
    {
        let token = match &self.session_token {
            Some(existing) => existing.clone(),
            None => hex_encode(fresh),
        };
        self.session_token = Some(token.clone());
        self.add_trusted_token(token.as_str());
        token
    }

    /// Get the session token for this app instance.
    ///
    /// The first call makes the token, from 32 random bytes in hexadecimal;
    /// every later call gives the same one. The token is accepted afterwards.
    pub fn get_session_token(&mut self) -> (token: String)
        ensures
            old(self).session() is Some ==> token@ == old(self).session()->0,
            old(self).session() is None ==> exists|fresh: Seq<u8>|
                fresh.len() == SESSION_TOKEN_BYTES && token@ == #[trigger] hex_of(fresh),
            final(self).session() == Some(token@),
            final(self).valid() == old(self).valid().insert(token@),
    {
        let fresh = if self.session_token.is_some() {
            Vec::new()
        } else {
            random_bytes()
        };
        self.session_token_from(&fresh)
    }
}

} // verus!
