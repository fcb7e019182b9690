//! User identifiers: sixteen random bytes, written as thirty-two hex digits.

use vstd::prelude::*;
use vstd::string::StringExecFns;
use crate::password::fresh_bytes;

verus! {

/// Number of random bytes behind a user identifier.
pub const USER_ID_BYTES: usize = 16;

/// The lower-case hex digit of a value below sixteen.
pub open spec fn hex_digit(n: int) -> char {
    if n == 0 {
        '0'
    } else if n == 1 {
        '1'
    } else if n == 2 {
        '2'
    } else if n == 3 {
        '3'
    } else if n == 4 {
        '4'
    } else if n == 5 {
        '5'
    } else if n == 6 {
        '6'
    } else if n == 7 {
        '7'
    } else if n == 8 {
        '8'
    } else if n == 9 {
        '9'
    } else if n == 10 {
        'a'
    } else if n == 11 {
        'b'
    } else if n == 12 {
        'c'
    } else if n == 13 {
        'd'
    } else if n == 14 {
        'e'
    } else {
        'f'
    }
}

/// The hex digit at position `k` of the encoding of `bytes`: the high half of
/// a byte comes before its low half.
pub open spec fn hex_at(bytes: Seq<u8>, k: int) -> char {
    if k % 2 == 0 {
        hex_digit(bytes[k / 2] as int / 16)
    } else {
        hex_digit(bytes[k / 2] as int % 16)
    }
}

/// The lower-case hex encoding of a byte sequence, two digits per byte.
pub open spec fn hex_of(bytes: Seq<u8>) -> Seq<char> {
    Seq::new(2 * bytes.len(), |k: int| hex_at(bytes, k))
}

/// Whether `id` is the hex encoding of `USER_ID_BYTES` bytes.
pub open spec fn is_user_id(id: Seq<char>) -> bool {
    exists|bytes: Seq<u8>| bytes.len() == USER_ID_BYTES && id == #[trigger] hex_of(bytes)
}

/// The one-character string of a hex digit.
fn hex_digit_str(n: u8) -> (s: &'static str)
    requires
        n < 16,
    ensures
        s@ == seq![hex_digit(n as int)],
{
    proof {
        reveal_strlit("0");
        reveal_strlit("1");
        reveal_strlit("2");
        reveal_strlit("3");
        reveal_strlit("4");
        reveal_strlit("5");
        reveal_strlit("6");
        reveal_strlit("7");
        reveal_strlit("8");
        reveal_strlit("9");
        reveal_strlit("a");
        reveal_strlit("b");
        reveal_strlit("c");
        reveal_strlit("d");
        reveal_strlit("e");
        reveal_strlit("f");
    }
    let s = match n {
        0 => "0",
        1 => "1",
        2 => "2",
        3 => "3",
        4 => "4",
        5 => "5",
        6 => "6",
        7 => "7",
        8 => "8",
        9 => "9",
        10 => "a",
        11 => "b",
        12 => "c",
        13 => "d",
        14 => "e",
        _ => "f",
    };
    assert(s@ =~= seq![hex_digit(n as int)]);
    s
}

/// Writes bytes as lower-case hex, two digits per byte.
pub fn hex_encode(bytes: &[u8]) -> (out: String)
    ensures
        out@ == hex_of(bytes@),
{
    let mut out = String::new();
    let mut i: usize = 0;
    while i < bytes.len()
        invariant
            i <= bytes.len(),
            out@.len() == 2 * i,
            forall|k: int| 0 <= k < 2 * i ==> out@[k] == hex_at(bytes@, k),
        decreases bytes.len() - i,
    {
        let byte: u8 = bytes[i];
        let ghost before = out@;
        out.append(hex_digit_str(byte / 16));
        out.append(hex_digit_str(byte % 16));
        proof {
            assert(out@ =~= before + seq![hex_digit(byte as int / 16)] + seq![
                hex_digit(byte as int % 16),
            ]);
            assert forall|k: int| 0 <= k < 2 * (i + 1) implies out@[k] == hex_at(bytes@, k) by {
                if k == 2 * i {
                    assert(k / 2 == i && k % 2 == 0);
                } else if k == 2 * i + 1 {
                    assert(k / 2 == i && k % 2 == 1);
                }
            }
        }
        i += 1;
    }
    assert(out@ =~= hex_of(bytes@));
    out
}

/// A fresh user identifier, or `None` where the entropy source failed.
/// Whatever bytes were drawn, the identifier is their hex encoding.
pub fn new_user_id() -> (r: Option<String>)
    ensures
        r matches Some(id) ==> is_user_id(id@) && id@.len() == 2 * USER_ID_BYTES,
{
    match fresh_bytes(USER_ID_BYTES) {
        Some(bytes) => {
            Some(hex_encode(bytes.as_slice()))
        },
        None => None,
    }
}

} // verus!
