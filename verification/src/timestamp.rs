//! Logical-clock timestamps at the boundary.
//!
//! A timestamp decomposes into a 64-bit logical counter and a node
//! identifier rendered as text.  The identifier's grammar is that of the
//! hybrid-logical-clock crate the native runtime uses: a non-empty
//! hexadecimal numeral, optionally preceded by a plus sign, not starting
//! with a zero digit, whose value is non-zero and fits 128 bits.
//! Reconstruction of a native timestamp must fail with a `Deserialization`
//! error when the identifier text does not satisfy that grammar.

use vstd::arithmetic::div_mod::lemma_div_is_ordered_by_denominator;
use vstd::prelude::*;
use vstd::string::StrSliceExecFns;
use vstd::string::StringExecFns;

verus! {

/// Whether `c` is a hexadecimal digit.
pub open spec fn is_hex_digit(c: char) -> bool {
    (0x30 <= c as u32 <= 0x39) || (0x61 <= c as u32 <= 0x66) || (0x41 <= c as u32 <= 0x46)
}

/// The numeric value of a hexadecimal digit.
pub open spec fn hex_digit_value(c: char) -> nat {
    if 0x30 <= c as u32 <= 0x39 {
        (c as u32 - 0x30) as nat
    } else if 0x61 <= c as u32 <= 0x66 {
        (c as u32 - 0x61 + 10) as nat
    } else if 0x41 <= c as u32 <= 0x46 {
        (c as u32 - 0x41 + 10) as nat
    } else {
        0
    }
}

/// The value of a hexadecimal numeral, most significant digit first.
pub open spec fn hex_value(s: Seq<char>) -> nat
    decreases s.len(),
{
    if s.len() == 0 {
        0
    } else {
        hex_value(s.drop_last()) * 16 + hex_digit_value(s.last())
    }
}

/// One beyond the largest identifier value: identifiers are 128-bit.
pub open spec fn id_value_bound() -> nat {
    0x1_0000_0000_0000_0000_0000_0000_0000_0000nat
}

/// The digit part of an identifier text: everything after a leading plus
/// sign, or the whole text when there is none.
pub open spec fn id_digits(s: Seq<char>) -> Seq<char> {
    if s.len() > 0 && s[0] == '+' {
        s.skip(1)
    } else {
        s
    }
}

/// Whether `s` is a valid clock-identifier text: non-empty, not starting
/// with a zero digit, a plus sign at most first, the rest hexadecimal
/// digits, and a non-zero value that fits 128 bits.
pub open spec fn valid_id_text(s: Seq<char>) -> bool {
    &&& s.len() > 0
    &&& s[0] != '0'
    &&& id_digits(s).len() > 0
    &&& forall|i: int| 0 <= i < id_digits(s).len() ==> is_hex_digit(#[trigger] id_digits(s)[i])
    &&& hex_value(id_digits(s)) != 0
    &&& hex_value(id_digits(s)) < id_value_bound()
}

/// Decides the identifier grammar on text.
pub fn check_id_text(s: &str) -> (r: bool)
    ensures
        r == valid_id_text(s@),
{
    let n = s.unicode_len();
    if n == 0 {
        return false;
    }
    let first = s.get_char(0);
    if first == '0' {
        return false;
    }
    let start: usize = if first == '+' {
        1
    } else {
        0
    };
    if n == start {
        return false;
    }
    let ghost digits = id_digits(s@);
    let mut value: u128 = 0;
    let mut over: bool = false;
    let mut i: usize = start;
    while i < n
        invariant
            s@.len() == n,
            s@.len() > 0,
            start <= i <= n,
            start == 1 ==> s@[0] == '+',
            start == 0 ==> s@[0] != '+',
            start <= 1,
            digits == id_digits(s@),
            forall|k: int| start <= k < i ==> is_hex_digit(#[trigger] s@[k]),
            !over ==> value == hex_value(s@.subrange(start as int, i as int)),
            over ==> hex_value(s@.subrange(start as int, i as int)) >= id_value_bound(),
        decreases n - i,
    {
        let c = s.get_char(i);
        let v = c as u32;
        let d: u32;
        if 0x30 <= v && v <= 0x39 {
            d = v - 0x30;
        } else if 0x61 <= v && v <= 0x66 {
            d = v - 0x61 + 10;
        } else if 0x41 <= v && v <= 0x46 {
            d = v - 0x41 + 10;
        } else {
            proof {
                let k = i - start;
                if s@[0] == '+' {
                    assert(digits =~= s@.skip(1));
                    assert(digits[k] == s@[k + 1]);
                } else {
                    assert(digits[k] == s@[i as int]);
                }
                assert(!is_hex_digit(id_digits(s@)[k]));
                assert(!valid_id_text(s@));
            }
            return false;
        }
        proof {
            let prefix = s@.subrange(start as int, i as int);
            let longer = s@.subrange(start as int, i + 1int);
            assert(longer.drop_last() =~= prefix);
            assert(longer.last() == s@[i as int]);
            assert(hex_digit_value(s@[i as int]) == d as nat);
        }
        if !over {
            if value >= 0x1000_0000_0000_0000_0000_0000_0000_0000u128 {
                over = true;
            } else {
                value = value * 16 + d as u128;
            }
        }
        i = i + 1;
    }
    proof {
        assert(s@.subrange(start as int, n as int) =~= digits);
        assert(forall|k: int|
            0 <= k < digits.len() ==> is_hex_digit(#[trigger] digits[k]) == is_hex_digit(
                s@[k + start],
            ));
    }
    !over && value != 0
}

/// The character of a decimal digit.
pub open spec fn dec_digit(d: nat) -> char {
    if d == 0 {
        '0'
    } else if d == 1 {
        '1'
    } else if d == 2 {
        '2'
    } else if d == 3 {
        '3'
    } else if d == 4 {
        '4'
    } else if d == 5 {
        '5'
    } else if d == 6 {
        '6'
    } else if d == 7 {
        '7'
    } else if d == 8 {
        '8'
    } else {
        '9'
    }
}

/// The decimal rendering of a natural number, most significant digit first.
pub open spec fn dec_text(n: nat) -> Seq<char>
    decreases n,
{
    if n < 10 {
        seq![dec_digit(n)]
    } else {
        dec_text(n / 10) + seq![dec_digit(n % 10)]
    }
}

/// One decimal digit as text.
fn digit_text(d: u64) -> (r: &'static str)
    requires
        d < 10,
    ensures
        r@ == seq![dec_digit(d as nat)],
{
    let r: &'static str = if d == 0 {
        "0"
    } else if d == 1 {
        "1"
    } else if d == 2 {
        "2"
    } else if d == 3 {
        "3"
    } else if d == 4 {
        "4"
    } else if d == 5 {
        "5"
    } else if d == 6 {
        "6"
    } else if d == 7 {
        "7"
    } else if d == 8 {
        "8"
    } else {
        "9"
    };
    proof {
        reveal_strlit("0");
        reveal_strlit("1");
        reveal_strlit("2");
        reveal_strlit("3");
        reveal_strlit("4");
        reveal_strlit("5");
        reveal_strlit("6");
        reveal_strlit("7");
        reveal_strlit("8");
        reveal_strlit("9");
        assert(r@ =~= seq![dec_digit(d as nat)]);
    }
    r
}

/// Renders a 64-bit counter in decimal.
pub fn decimal_text(n: u64) -> (r: String)
    ensures
        r@ == dec_text(n as nat),
    decreases n,
{
    if n < 10 {
        String::from_str(digit_text(n))
    } else {
        proof {
            lemma_div_is_ordered_by_denominator(n as int, 1, 10);
        }
        let prefix = decimal_text(n / 10);
        prefix.concat(digit_text(n % 10))
    }
}

/// A boundary timestamp: a 64-bit logical counter and the clock identifier
/// of the node that produced it, as text.
pub struct TimestampRepr {
    /// The logical counter.
    pub time: u64,
    /// The producing clock's identifier text.
    pub id: String,
}

impl TimestampRepr {
    /// Whether the identifier text satisfies the clock-identifier grammar.
    pub open spec fn wf(&self) -> bool {
        valid_id_text(self.id@)
    }

    /// Builds a timestamp from its parts.
    pub fn new(time: u64, id: String) -> (r: TimestampRepr)
        ensures
            r.time == time,
            r.id@ == id@,
    {
        TimestampRepr { time, id }
    }

    /// The logical counter.
    pub fn time(&self) -> (r: u64)
        ensures
            r == self.time,
    {
        self.time
    }

    /// The identifier text.
    pub fn id(&self) -> (r: &String)
        ensures
            r@ == self.id@,
    {
        &self.id
    }

    /// The canonical rendering: the counter in decimal, a separating slash,
    /// the identifier.
    pub fn to_text(&self) -> (r: String)
        ensures
            r@ == dec_text(self.time as nat) + "/"@ + self.id@,
    {
        decimal_text(self.time).concat("/").concat(self.id.as_str())
    }

    /// Structural copy.
    pub fn duplicate(&self) -> (r: TimestampRepr)
        ensures
            r.time == self.time,
            r.id@ == self.id@,
    {
        TimestampRepr { time: self.time, id: self.id.clone() }
    }
}

} // verus!
