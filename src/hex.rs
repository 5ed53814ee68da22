use vstd::prelude::*;

verus! {

/// A hexadecimal digit: `0`-`9`, `a`-`f` or `A`-`F`.
pub open spec fn is_hex_digit(c: char) -> bool {
    ('0' <= c && c <= '9') || ('a' <= c && c <= 'f') || ('A' <= c && c <= 'F')
}

/// Every character of `s` is a hexadecimal digit.
pub open spec fn all_hex_digits(s: Seq<char>) -> bool {
    forall|i: int| 0 <= i < s.len() ==> #[trigger] is_hex_digit(s[i])
}

/// The value of one hexadecimal digit.
pub open spec fn hex_digit_value(c: char) -> nat {
    if '0' <= c && c <= '9' {
        (c as u32 - '0' as u32) as nat
    } else if 'a' <= c && c <= 'f' {
        (c as u32 - 'a' as u32 + 10) as nat
    } else {
        (c as u32 - 'A' as u32 + 10) as nat
    }
}

/// The number that a string of hexadecimal digits spells, most significant
/// digit first.
pub open spec fn hex_value(s: Seq<char>) -> nat
    decreases s.len(),
{
    if s.len() == 0 {
        0
    } else {
        hex_value(s.drop_last()) * 16 + hex_digit_value(s.last())
    }
}

/// `16` to the power `n`.
pub open spec fn pow16(n: nat) -> nat
    decreases n,
{
    if n == 0 {
        1
    } else {
        16 * pow16((n - 1) as nat)
    }
}

/// The upper-case digit for a value below 16.
pub open spec fn hex_digit_char(d: nat) -> char {
    if d < 10 {
        ('0' as u32 + d) as char
    } else {
        ('A' as u32 + d - 10) as char
    }
}

/// `v` written with exactly `width` upper-case hexadecimal digits, padded with
/// leading zeros (only the low `width` digits are kept).
pub open spec fn hex_string(v: nat, width: nat) -> Seq<char>
    decreases width,
{
    if width == 0 {
        Seq::empty()
    } else {
        hex_string(v / 16, (width - 1) as nat).push(hex_digit_char(v % 16))
    }
}

/// The powers of 16 that bound a byte and a 64-bit word.
pub proof fn lemma_pow16_values()
    ensures
        pow16(2) == 0x100,
        pow16(16) == 0x1_0000_0000_0000_0000,
{
    reveal_with_fuel(pow16, 17);
}

/// Writing a value with enough digits and reading the digits back gives the
/// value again.
pub proof fn lemma_hex_string_round_trip(v: nat, width: nat)
    requires
        v < pow16(width),
    ensures
        hex_string(v, width).len() == width,
        all_hex_digits(hex_string(v, width)),
        hex_value(hex_string(v, width)) == v,
    decreases width,
{
    if width > 0 {
        let q = pow16((width - 1) as nat);
        assert(v / 16 < q) by (nonlinear_arith)
            requires
                v < 16 * q,
        ;
        lemma_hex_string_round_trip(v / 16, (width - 1) as nat);
        let p = hex_string(v / 16, (width - 1) as nat);
        let s = hex_string(v, width);
        assert(s.drop_last() =~= p);
        assert forall|i: int| 0 <= i < s.len() implies #[trigger] is_hex_digit(s[i]) by {
            if i < p.len() {
                assert(s[i] == p[i]);
            }
        }
    }
}

/// Whether `c` is a hexadecimal digit, in either case.
pub fn is_hex_char(c: char) -> (r: bool)
    ensures
        r == is_hex_digit(c),
{
    ('0' <= c && c <= '9') || ('a' <= c && c <= 'f') || ('A' <= c && c <= 'F')
}

/// The one-character string of the upper-case digit for `d`.
fn hex_digit_str(d: u64) -> (r: &'static str)
    requires
        d < 16,
    ensures
        r@ == seq![hex_digit_char(d as nat)],
{
    let digits = "0123456789ABCDEF";
    proof {
        reveal_strlit("0123456789ABCDEF");
    }
    let r = digits.substring_char(d as usize, d as usize + 1);
    assert(r@ =~= seq![hex_digit_char(d as nat)]);
    r
}

/// `v` as exactly `width` upper-case hexadecimal digits.
pub fn to_hex_string(v: u64, width: usize) -> (r: String)
    ensures
        r@ == hex_string(v as nat, width as nat),
    decreases width,
{
    if width == 0 {
        String::new()
    } else {
        let mut s = to_hex_string(v / 16, width - 1);
        s.append(hex_digit_str(v % 16));
        s
    }
}

/// Whether the characters of `s` at positions `start` up to `end` are all
/// hexadecimal digits.
pub fn is_hex_run(s: &str, start: usize, end: usize) -> (r: bool)
    requires
        start <= end <= s@.len(),
    ensures
        r == all_hex_digits(s@.subrange(start as int, end as int)),
{
    let mut i: usize = start;
    while i < end
        invariant
            start <= i <= end,
            end <= s@.len(),
            forall|j: int| start <= j < i ==> #[trigger] is_hex_digit(s@[j]),
        decreases end - i,
    {
        if !is_hex_char(s.get_char(i)) {
            assert(s@.subrange(start as int, end as int)[i - start] == s@[i as int]);
            return false;
        }
        i += 1;
    }
    assert forall|j: int| 0 <= j < end - start implies #[trigger] is_hex_digit(
        s@.subrange(start as int, end as int)[j],
    ) by {
        assert(s@.subrange(start as int, end as int)[j] == s@[start + j]);
    }
    true
}

/// Relies on `u64::from_str_radix` in base 16: one to sixteen hexadecimal
/// digits, in either case, are read as the number they spell.
#[verifier::external_body]
pub(crate) fn u64_from_hex(s: &str) -> (r: Result<u64, std::num::ParseIntError>)
    ensures
        1 <= s@.len() <= 16 && all_hex_digits(s@) ==> r is Ok && r->Ok_0 == hex_value(s@) as u64,
{
    u64::from_str_radix(s, 16)
}

/// Relies on `u8::from_str_radix` in base 16: one or two hexadecimal digits,
/// in either case, are read as the number they spell.
#[verifier::external_body]
pub(crate) fn u8_from_hex(s: &str) -> (r: Result<u8, std::num::ParseIntError>)
    ensures
        1 <= s@.len() <= 2 && all_hex_digits(s@) ==> r is Ok && r->Ok_0 == hex_value(s@) as u8,
{
    u8::from_str_radix(s, 16)
}

} // verus!
