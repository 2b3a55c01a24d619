//! Small verified text helpers: decimal rendering of counters and
//! case-insensitive matching of language tags.

use vstd::prelude::*;
use vstd::string::StringExecFns;
use vstd::string::StringSliceAdditionalSpecFns;

verus! {

/// The decimal digit character for a value below ten.
pub open spec fn dec_digit(d: int) -> char {
    if d == 0 {
        '0'
    } else if d == 1 {
        '1'
    } else if d == 2 {
        '2'
    } else if d == 3 {
        '3'
    } else if d == 4 {
        '4'
    } else if d == 5 {
        '5'
    } else if d == 6 {
        '6'
    } else if d == 7 {
        '7'
    } else if d == 8 {
        '8'
    } else {
        '9'
    }
}

/// The decimal rendering of a natural number, most significant digit first.
pub open spec fn dec_digits(n: nat) -> Seq<char>
    decreases n,
{
    if n < 10 {
        seq![dec_digit(n as int)]
    } else {
        dec_digits(n / 10).push(dec_digit((n % 10) as int))
    }
}

fn digit_str(d: u64) -> (res: &'static str)
    requires
        d < 10,
    ensures
        res@ =~= seq![dec_digit(d as int)],
{
    proof {
        reveal_strlit("0");
        reveal_strlit("1");
        reveal_strlit("2");
        reveal_strlit("3");
        reveal_strlit("4");
        reveal_strlit("5");
        reveal_strlit("6");
        reveal_strlit("7");
        reveal_strlit("8");
        reveal_strlit("9");
    }
    if d == 0 {
        "0"
    } else if d == 1 {
        "1"
    } else if d == 2 {
        "2"
    } else if d == 3 {
        "3"
    } else if d == 4 {
        "4"
    } else if d == 5 {
        "5"
    } else if d == 6 {
        "6"
    } else if d == 7 {
        "7"
    } else if d == 8 {
        "8"
    } else {
        "9"
    }
}

/// Render a number in decimal.
pub fn u64_to_dec(n: u64) -> (res: String)
    ensures
        res@ == dec_digits(n as nat),
    decreases n,
{
    let d = digit_str(n % 10);
    if n < 10 {
        d.to_owned()
    } else {
        let prefix = u64_to_dec(n / 10);
        prefix.concat(d)
    }
}

/// A byte with any ASCII upper-case letter folded to lower case.
pub open spec fn lower_byte(b: u8) -> u8 {
    if 65 <= b <= 90 {
        (b + 32) as u8
    } else {
        b
    }
}

/// The UTF-8 bytes of a string with ASCII letters folded to lower case.
pub open spec fn lower_bytes(s: Seq<u8>) -> Seq<u8> {
    Seq::new(s.len(), |i: int| lower_byte(s[i]))
}

/// Whether `tag`, folded to ASCII lower case, equals `key` byte for byte.
pub fn matches_ignore_ascii_case(tag: &str, key: &str) -> (res: bool)
    ensures
        res == (lower_bytes(tag.spec_bytes()) == key.spec_bytes()),
{
    let tb = tag.as_bytes();
    let kb = key.as_bytes();
    if tb.len() != kb.len() {
        assert(lower_bytes(tag.spec_bytes()).len() != key.spec_bytes().len());
        return false;
    }
    let n = tb.len();
    let mut i: usize = 0;
    while i < n
        invariant
            tb@ == tag.spec_bytes(),
            kb@ == key.spec_bytes(),
            n == tb@.len() == kb@.len(),
            0 <= i <= n,
            forall|j: int| 0 <= j < i ==> lower_byte(tb@[j]) == kb@[j],
        decreases n - i,
    {
        let t = tb[i];
        let lowered = if 65 <= t && t <= 90 {
            t + 32
        } else {
            t
        };
        if lowered != kb[i] {
            assert(lower_bytes(tag.spec_bytes())[i as int] != key.spec_bytes()[i as int]);
            return false;
        }
        i = i + 1;
    }
    assert(lower_bytes(tag.spec_bytes()) =~= key.spec_bytes());
    true
}

} // verus!
