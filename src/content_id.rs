//! Content-derived message identifiers.
//!
//! A message is identified by a 64-bit hash of its payload bytes, written
//! out in decimal. Two payloads with the same bytes always share one
//! identifier on nodes built alike (one build, one target): std's hash is
//! not portable across platforms or compiler versions. That shared
//! identifier is what lets every node drop a message it has already seen,
//! whichever path it came by.
use vstd::prelude::*;
use vstd::string::*;
use std::hash::Hash;
use std::hash::Hasher;

verus! {

/// The 64-bit hash that std's default hasher gives a byte vector.
pub uninterp spec fn content_hash_of(data: Seq<u8>) -> u64;

/// The decimal digit for `d < 10`.
pub open spec fn digit_char(d: nat) -> char {
    if d == 0 { '0' }
    else if d == 1 { '1' }
    else if d == 2 { '2' }
    else if d == 3 { '3' }
    else if d == 4 { '4' }
    else if d == 5 { '5' }
    else if d == 6 { '6' }
    else if d == 7 { '7' }
    else if d == 8 { '8' }
    else { '9' }
}

/// `n` written in decimal, most significant digit first, no leading zeros.
pub open spec fn decimal_of(n: nat) -> Seq<char>
    decreases n,
{
    if n < 10 {
        seq![digit_char(n)]
    } else {
        decimal_of(n / 10).push(digit_char(n % 10))
    }
}

/// The identifier of a message whose payload is `data`.
pub open spec fn message_id_of(data: Seq<u8>) -> Seq<char> {
    decimal_of(content_hash_of(data) as nat)
}

/// Relies on `std::collections::hash_map::DefaultHasher`: a fresh hasher fed
/// the vector through `Hash` and finished. Every `DefaultHasher::new` is the
/// same hasher, so within one build and target the result depends on the
/// bytes alone.
#[verifier::external_body]
fn content_hash(data: &Vec<u8>) -> (r: u64)
    ensures
        r == content_hash_of(data@),
{
    let mut s = std::collections::hash_map::DefaultHasher::new();
    data.hash(&mut s);
    s.finish()
}

/// The one-character text of the digit `d`.
fn digit_text(d: u64) -> (r: &'static str)
    requires
        d < 10,
    ensures
        r@ == seq![digit_char(d as nat)],
{
    if d == 0 {
        proof {
            reveal_strlit("0");
        }
        "0"
    } else if d == 1 {
        proof {
            reveal_strlit("1");
        }
        "1"
    } else if d == 2 {
        proof {
            reveal_strlit("2");
        }
        "2"
    } else if d == 3 {
        proof {
            reveal_strlit("3");
        }
        "3"
    } else if d == 4 {
        proof {
            reveal_strlit("4");
        }
        "4"
    } else if d == 5 {
        proof {
            reveal_strlit("5");
        }
        "5"
    } else if d == 6 {
        proof {
            reveal_strlit("6");
        }
        "6"
    } else if d == 7 {
        proof {
            reveal_strlit("7");
        }
        "7"
    } else if d == 8 {
        proof {
            reveal_strlit("8");
        }
        "8"
    } else {
        proof {
            reveal_strlit("9");
        }
        "9"
    }
}

/// `n` in decimal.
fn decimal_text(n: u64) -> (r: String)
    ensures
        r@ == decimal_of(n as nat),
    decreases n,
{
    if n < 10 {
        String::from_str(digit_text(n))
    } else {
        let mut r = decimal_text(n / 10);
        r.append(digit_text(n % 10));
        r
    }
}

/// The identifier of a message with payload `data`: the decimal text of the
/// payload's hash.
pub fn message_id(data: &Vec<u8>) -> (r: String)
    ensures
        r@ == message_id_of(data@),
        r@.len() > 0,
        forall|i: int| 0 <= i < r@.len() ==> '0' <= #[trigger] r@[i] <= '9',
{
    let h = content_hash(data);
    proof {
        lemma_decimal_digits(h as nat);
    }
    decimal_text(h)
}

/// A decimal rendering is a non-empty string of digits.
pub proof fn lemma_decimal_digits(n: nat)
    ensures
        decimal_of(n).len() > 0,
        forall|i: int| 0 <= i < decimal_of(n).len() ==> '0' <= #[trigger] decimal_of(n)[i] <= '9',
    decreases n,
{
    if n >= 10 {
        lemma_decimal_digits(n / 10);
    }
}

} // verus!
