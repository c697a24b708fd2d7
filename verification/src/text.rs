//! Character-level helpers: copying a string into characters, comparing
//! strings, and the decimal and hexadecimal number formats used by the device.
use vstd::prelude::*;

verus! {

/// The characters of `s`, in order.
pub fn chars_of(s: &str) -> (v: Vec<char>)
    ensures
        v@ == s@,
{
    let mut v: Vec<char> = Vec::new();
    for c in it: s.chars()
        invariant
            v@ == it.seq().take(it.index() as int),
    {
        v.push(c);
    }
    v
}


/// Whether `a` and `b` hold the same characters.
pub fn chars_eq(a: &[char], b: &[char]) -> (r: bool)
    ensures
        r == (a@ == b@),
{
    if a.len() != b.len() {
        return false;
    }
    let n = a.len();
    for i in 0..n
        invariant
            n == a@.len(),
            n == b@.len(),
            forall|j: int| 0 <= j < i ==> a@[j] == b@[j],
    {
        if a[i] != b[i] {
            return false;
        }
    }
    assert(a@ =~= b@);
    true
}

/// Whether the characters `a` spell the string `b`.
pub fn chars_eq_str(a: &[char], b: &str) -> (r: bool)
    ensures
        r == (a@ == b@),
{
    let bc = chars_of(b);
    chars_eq(a, bc.as_slice())
}

/// Whether the two strings are equal.
pub fn str_eq(a: &str, b: &str) -> (r: bool)
    ensures
        r == (a@ == b@),
{
    let ac = chars_of(a);
    chars_eq_str(ac.as_slice(), b)
}

// ---------------------------------------------------------------------------
// Decimal integers, in the syntax of Rust's `FromStr` for integer types:
// an optional `+` (or, for a signed type, `-`) followed by one or more ASCII
// digits, with no other character, and a value within the type's range.

pub open spec fn is_digit(c: char) -> bool {
    '0' <= c && c <= '9'
}

pub open spec fn digit_value(c: char) -> int {
    c as int - '0' as int
}

pub open spec fn all_digits(s: Seq<char>) -> bool {
    forall|i: int| 0 <= i < s.len() ==> is_digit(#[trigger] s[i])
}

/// The number that the digit string `s` spells (most significant first).
pub open spec fn digits_value(s: Seq<char>) -> int
    decreases s.len(),
{
    if s.len() == 0 {
        0
    } else {
        digits_value(s.drop_last()) * 10 + digit_value(s.last())
    }
}

/// The integer that `s` denotes, whatever its size, or `None` where `s` is
/// not a decimal integer; a leading `-` is accepted only when `signed`.
pub open spec fn decimal_value(s: Seq<char>, signed: bool) -> Option<int> {
    if s.len() == 0 {
        None
    } else if s[0] == '+' || (signed && s[0] == '-') {
        let d = s.drop_first();
        if d.len() > 0 && all_digits(d) {
            if s[0] == '-' {
                Some(-digits_value(d))
            } else {
                Some(digits_value(d))
            }
        } else {
            None
        }
    } else if all_digits(s) {
        Some(digits_value(s))
    } else {
        None
    }
}

/// The value of `s` as an integer between `lo` and `hi`, or `None`.
pub open spec fn decimal_in_range(s: Seq<char>, signed: bool, lo: int, hi: int) -> Option<int> {
    match decimal_value(s, signed) {
        Some(x) => if lo <= x && x <= hi { Some(x) } else { None },
        None => None,
    }
}

pub proof fn lemma_digits_value_nonneg(s: Seq<char>)
    requires
        all_digits(s),
    ensures
        digits_value(s) >= 0,
    decreases s.len(),
{
    if s.len() > 0 {
        lemma_digits_value_nonneg(s.drop_last());
    }
}

/// A longer digit string never has a smaller value than its prefix.
proof fn lemma_digits_value_prefix(s: Seq<char>, i: int)
    requires
        all_digits(s),
        0 <= i <= s.len(),
    ensures
        digits_value(s.take(i)) <= digits_value(s),
    decreases s.len() - i,
{
    if i < s.len() {
        lemma_digits_value_prefix(s, i + 1);
        let t = s.take(i + 1);
        assert(t.drop_last() =~= s.take(i));
        lemma_digits_value_nonneg(s.take(i));
    } else {
        assert(s.take(i) =~= s);
    }
}

/// The value of the digits `d`, if it does not exceed `bound`.
fn digits_up_to(d: &[char], bound: u128) -> (r: Option<u128>)
    requires
        bound < 0x1_0000_0000_0000_0000_0000_0000,
    ensures
        match r {
            Some(v) => all_digits(d@) && v == digits_value(d@) && v <= bound,
            None => !all_digits(d@) || digits_value(d@) > bound,
        },
{
    let mut acc: u128 = 0;
    let n = d.len();
    let mut i: usize = 0;
    while i < n
        invariant
            n == d@.len(),
            i <= n,
            bound < 0x1_0000_0000_0000_0000_0000_0000,
            forall|j: int| 0 <= j < i ==> is_digit(#[trigger] d@[j]),
            acc == digits_value(d@.take(i as int)),
            acc <= bound,
        decreases n - i,
    {
        let c = d[i];
        if !('0' <= c && c <= '9') {
            return None;
        }
        let dv: u128 = (c as u32 - '0' as u32) as u128;
        proof {
            let t = d@.take(i + 1);
            assert(t.drop_last() =~= d@.take(i as int));
            assert(t.last() == c);
        }
        acc = acc * 10 + dv;
        i = i + 1;
        if acc > bound {
            proof {
                if all_digits(d@) {
                    lemma_digits_value_prefix(d@, i as int);
                }
            }
            return None;
        }
    }
    assert(d@.take(n as int) =~= d@);
    Some(acc)
}

/// Parses `s` as a decimal integer between `lo` and `hi`.
fn parse_decimal(s: &str, signed: bool, lo: i128, hi: i128) -> (r: Option<i128>)
    requires
        -0x1_0000_0000_0000_0000_0000 <= lo <= 0,
        0 <= hi <= 0x1_0000_0000_0000_0000_0000,
    ensures
        match r {
            Some(v) => decimal_in_range(s@, signed, lo as int, hi as int) == Some(v as int),
            None => decimal_in_range(s@, signed, lo as int, hi as int) is None,
        },
{
    let c = chars_of(s);
    let n = c.len();
    if n == 0 {
        return None;
    }
    let first = c[0];
    if first == '+' || (signed && first == '-') {
        let d = c.as_slice().split_at(1).1;
        assert(d@ =~= s@.drop_first());
        if d.len() == 0 {
            return None;
        }
        if first == '-' {
            match digits_up_to(d, (0 - lo) as u128) {
                Some(v) => Some(0 - (v as i128)),
                None => None,
            }
        } else {
            match digits_up_to(d, hi as u128) {
                Some(v) => Some(v as i128),
                None => None,
            }
        }
    } else {
        match digits_up_to(c.as_slice(), hi as u128) {
            Some(v) => Some(v as i128),
            None => {
                proof {
                    if all_digits(s@) {
                        lemma_digits_value_nonneg(s@);
                    }
                }
                None
            },
        }
    }
}


/// `s.parse::<isize>()`, as an `Option`.
pub fn parse_isize(s: &str) -> (r: Option<isize>)
    ensures
        match r {
            Some(v) => decimal_in_range(s@, true, isize::MIN as int, isize::MAX as int) == Some(v as int),
            None => decimal_in_range(s@, true, isize::MIN as int, isize::MAX as int) is None,
        },
{
    match parse_decimal(s, true, isize::MIN as i128, isize::MAX as i128) {
        Some(v) => Some(v as isize),
        None => None,
    }
}

/// `s.parse::<usize>()`, as an `Option`.
pub fn parse_usize(s: &str) -> (r: Option<usize>)
    ensures
        match r {
            Some(v) => decimal_in_range(s@, false, 0, usize::MAX as int) == Some(v as int),
            None => decimal_in_range(s@, false, 0, usize::MAX as int) is None,
        },
{
    match parse_decimal(s, false, 0, usize::MAX as i128) {
        Some(v) => Some(v as usize),
        None => None,
    }
}

/// `s.parse::<u64>()`, as an `Option`.
pub fn parse_u64(s: &str) -> (r: Option<u64>)
    ensures
        match r {
            Some(v) => decimal_in_range(s@, false, 0, u64::MAX as int) == Some(v as int),
            None => decimal_in_range(s@, false, 0, u64::MAX as int) is None,
        },
{
    match parse_decimal(s, false, 0, u64::MAX as i128) {
        Some(v) => Some(v as u64),
        None => None,
    }
}

/// `s.parse::<u16>()`, as an `Option`.
pub fn parse_u16(s: &str) -> (r: Option<u16>)
    ensures
        match r {
            Some(v) => decimal_in_range(s@, false, 0, u16::MAX as int) == Some(v as int),
            None => decimal_in_range(s@, false, 0, u16::MAX as int) is None,
        },
{
    match parse_decimal(s, false, 0, u16::MAX as i128) {
        Some(v) => Some(v as u16),
        None => None,
    }
}

/// `s.parse::<u8>()`, as an `Option`.
pub fn parse_u8(s: &str) -> (r: Option<u8>)
    ensures
        match r {
            Some(v) => decimal_in_range(s@, false, 0, u8::MAX as int) == Some(v as int),
            None => decimal_in_range(s@, false, 0, u8::MAX as int) is None,
        },
{
    match parse_decimal(s, false, 0, u8::MAX as i128) {
        Some(v) => Some(v as u8),
        None => None,
    }
}


// ---------------------------------------------------------------------------
// Upper-case hexadecimal, as `format!("{:X}", n)` writes it: the digits
// `0`-`9`, `A`-`F`, most significant first, without leading zeros.

pub open spec fn hex_digits() -> Seq<char> {
    seq!['0', '1', '2', '3', '4', '5', '6', '7', '8', '9', 'A', 'B', 'C', 'D', 'E', 'F']
}

/// The upper-case hexadecimal rendering of `n`.
pub open spec fn hex_upper(n: nat) -> Seq<char>
    decreases n,
{
    if n < 16 {
        seq![hex_digits()[n as int]]
    } else {
        hex_upper(n / 16).push(hex_digits()[(n % 16) as int])
    }
}

/// The value of one hexadecimal digit character (upper case).
pub open spec fn hex_digit_value(c: char) -> int {
    if '0' <= c && c <= '9' {
        c as int - '0' as int
    } else {
        c as int - 'A' as int + 10
    }
}

/// The number that a string of hexadecimal digits spells.
pub open spec fn hex_value(s: Seq<char>) -> int
    decreases s.len(),
{
    if s.len() == 0 {
        0
    } else {
        hex_value(s.drop_last()) * 16 + hex_digit_value(s.last())
    }
}

proof fn lemma_hex_digit(d: int)
    requires
        0 <= d < 16,
    ensures
        hex_digit_value(hex_digits()[d]) == d,
{
    let h = hex_digits();
    assert(h[0] == '0' && h[1] == '1' && h[2] == '2' && h[3] == '3');
    assert(h[4] == '4' && h[5] == '5' && h[6] == '6' && h[7] == '7');
    assert(h[8] == '8' && h[9] == '9' && h[10] == 'A' && h[11] == 'B');
    assert(h[12] == 'C' && h[13] == 'D' && h[14] == 'E' && h[15] == 'F');
}

/// Reading back the hexadecimal rendering of `n` gives `n`; it holds only
/// hexadecimal digits and, unless `n` is zero, does not start with `0`.
pub proof fn lemma_hex_upper_roundtrip(n: nat)
    ensures
        hex_value(hex_upper(n)) == n,
        hex_upper(n).len() >= 1,
        forall|i: int| 0 <= i < hex_upper(n).len() ==> hex_digits().contains(#[trigger] hex_upper(n)[i]),
        n != 0 ==> hex_upper(n)[0] != '0',
    decreases n,
{
    let h = hex_upper(n);
    if n < 16 {
        assert(h.drop_last() =~= Seq::<char>::empty());
        assert(hex_digits()[n as int] == h[0]);
        lemma_hex_digit(n as int);
        assert(hex_value(h.drop_last()) == 0);
        assert(h.last() == h[0]);
        assert(hex_digits().contains(h[0]));
    } else {
        lemma_hex_upper_roundtrip(n / 16);
        let d = (n % 16) as int;
        assert(h.drop_last() =~= hex_upper(n / 16));
        lemma_hex_digit(d);
        assert(h.last() == hex_digits()[d]);
        assert(hex_value(h) == hex_value(hex_upper(n / 16)) * 16 + d);
        assert forall|i: int| 0 <= i < h.len() implies hex_digits().contains(#[trigger] h[i]) by {
            if i < h.len() - 1 {
                assert(h[i] == hex_upper(n / 16)[i]);
            } else {
                assert(h[i] == hex_digits()[d]);
            }
        }
        assert(h[0] == hex_upper(n / 16)[0]);
    }
}

/// The one-character string of hexadecimal digit `d`.
fn hex_digit_str(d: u64) -> (r: &'static str)
    requires
        d < 16,
    ensures
        r@ == seq![hex_digits()[d as int]],
{
    proof {
        reveal_strlit("0");
        reveal_strlit("1");
        reveal_strlit("2");
        reveal_strlit("3");
        reveal_strlit("4");
        reveal_strlit("5");
        reveal_strlit("6");
        reveal_strlit("7");
        reveal_strlit("8");
        reveal_strlit("9");
        reveal_strlit("A");
        reveal_strlit("B");
        reveal_strlit("C");
        reveal_strlit("D");
        reveal_strlit("E");
        reveal_strlit("F");
    }
    if d == 0 { "0" } else if d == 1 { "1" } else if d == 2 { "2" } else if d == 3 { "3" }
    else if d == 4 { "4" } else if d == 5 { "5" } else if d == 6 { "6" } else if d == 7 { "7" }
    else if d == 8 { "8" } else if d == 9 { "9" } else if d == 10 { "A" } else if d == 11 { "B" }
    else if d == 12 { "C" } else if d == 13 { "D" } else if d == 14 { "E" } else { "F" }
}

/// Appends the upper-case hexadecimal rendering of `n` to `out`.
pub fn push_hex_upper(out: &mut String, n: u64)
    ensures
        final(out)@ == old(out)@ + hex_upper(n as nat),
    decreases n,
{
    if n >= 16 {
        push_hex_upper(out, n / 16);
    }
    out.append(hex_digit_str(n % 16));
    proof {
        if n >= 16 {
            assert(hex_upper(n as nat) == hex_upper((n / 16) as nat).push(hex_digits()[(n % 16) as int]));
        }
    }
    assert(final(out)@ =~= old(out)@ + hex_upper(n as nat));
}

} // verus!
