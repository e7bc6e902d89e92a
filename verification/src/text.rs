//! Text helpers for the header generator: comparing names, appending single
//! characters and writing numbers in hexadecimal and decimal.

use vstd::prelude::*;
use vstd::string::*;

verus! {

/// Appends `c` to `s`.
///
/// Trusted: calls `String::push`, which std documents as appending the given
/// char to the end of the string.
#[verifier::external_body]
pub fn push_char(s: &mut String, c: char)
    ensures
        final(s)@ == old(s)@.push(c),
{
    s.push(c);
}

/// Whether two strings hold the same characters.
pub fn str_equals(a: &str, b: &str) -> (r: bool)
    ensures
        r == (a@ == b@),
{
    let n = a.unicode_len();
    let m = b.unicode_len();
    if n != m {
        return false;
    }
    let mut i: usize = 0;
    while i < n
        invariant
            n == a@.len(),
            m == b@.len(),
            n == m,
            i <= n,
            forall|j: int| 0 <= j < i ==> a@[j] == b@[j],
        decreases n - i,
    {
        if a.get_char(i) != b.get_char(i) {
            return false;
        }
        i = i + 1;
    }
    assert(a@ =~= b@);
    true
}

/// Whether `s` begins with an underscore.
pub fn starts_with_underscore(s: &str) -> (r: bool)
    ensures
        r == (s@.len() > 0 && s@[0] == '_'),
{
    if s.unicode_len() == 0 {
        false
    } else {
        s.get_char(0) == '_'
    }
}

/// The upper-case hexadecimal digit of `d`, for `d < 16`.
pub open spec fn hex_digit(d: int) -> char {
    if d < 10 {
        (d + 48) as char
    } else {
        (d + 55) as char
    }
}

/// The upper-case hexadecimal text of `n`, without leading zeros ("0" for zero).
pub open spec fn hex_text(n: nat) -> Seq<char>
    decreases n,
{
    if n < 16 {
        seq![hex_digit(n as int)]
    } else {
        hex_text(n / 16) + seq![hex_digit((n % 16) as int)]
    }
}

/// The decimal digit of `d`, for `d < 10`.
pub open spec fn dec_digit(d: int) -> char {
    (d + 48) as char
}

/// The decimal text of `n`, without leading zeros ("0" for zero).
pub open spec fn dec_text(n: nat) -> Seq<char>
    decreases n,
{
    if n < 10 {
        seq![dec_digit(n as int)]
    } else {
        dec_text(n / 10) + seq![dec_digit((n % 10) as int)]
    }
}

fn hex_char(d: u64) -> (c: char)
    requires
        d < 16,
    ensures
        c == hex_digit(d as int),
{
    let b: u8 = d as u8;
    if b < 10 {
        (b + 48) as char
    } else {
        (b + 55) as char
    }
}

fn dec_char(d: u32) -> (c: char)
    requires
        d < 10,
    ensures
        c == dec_digit(d as int),
{
    let b: u8 = d as u8;
    (b + 48) as char
}

/// Appends the upper-case hexadecimal text of `v`.
pub fn push_hex(out: &mut String, v: u64)
    ensures
        final(out)@ == old(out)@ + hex_text(v as nat),
{
    let mut digits: Vec<char> = Vec::new();
    let mut x: u64 = v;
    loop
        invariant_except_break
            hex_text(v as nat) == hex_text(x as nat) + digits@,
        ensures
            hex_text(v as nat) == digits@,
        decreases x,
    {
        if x < 16 {
            let c = hex_char(x);
            let ghost old_digits = digits@;
            digits.insert(0, c);
            assert(digits@ =~= seq![c] + old_digits);
            break;
        }
        let c = hex_char(x % 16);
        let ghost old_digits = digits@;
        digits.insert(0, c);
        assert(hex_text(x as nat) == hex_text((x / 16) as nat) + seq![c]);
        assert(digits@ =~= seq![c] + old_digits);
        assert(hex_text((x / 16) as nat) + seq![c] + old_digits =~= hex_text((x / 16) as nat) + digits@);
        x = x / 16;
    }
    let mut i: usize = 0;
    let ghost start = out@;
    while i < digits.len()
        invariant
            i <= digits@.len(),
            out@ == start + digits@.take(i as int),
        decreases digits@.len() - i,
    {
        push_char(out, digits[i]);
        assert(digits@.take(i + 1) =~= digits@.take(i as int).push(digits@[i as int]));
        i = i + 1;
    }
    assert(digits@.take(digits@.len() as int) =~= digits@);
}

/// Appends the decimal text of `v`.
pub fn push_dec(out: &mut String, v: u32)
    ensures
        final(out)@ == old(out)@ + dec_text(v as nat),
{
    let mut digits: Vec<char> = Vec::new();
    let mut x: u32 = v;
    loop
        invariant_except_break
            dec_text(v as nat) == dec_text(x as nat) + digits@,
        ensures
            dec_text(v as nat) == digits@,
        decreases x,
    {
        if x < 10 {
            let c = dec_char(x);
            let ghost old_digits = digits@;
            digits.insert(0, c);
            assert(digits@ =~= seq![c] + old_digits);
            break;
        }
        let c = dec_char(x % 10);
        let ghost old_digits = digits@;
        digits.insert(0, c);
        assert(dec_text(x as nat) == dec_text((x / 10) as nat) + seq![c]);
        assert(digits@ =~= seq![c] + old_digits);
        assert(dec_text((x / 10) as nat) + seq![c] + old_digits =~= dec_text((x / 10) as nat) + digits@);
        x = x / 10;
    }
    let mut i: usize = 0;
    let ghost start = out@;
    while i < digits.len()
        invariant
            i <= digits@.len(),
            out@ == start + digits@.take(i as int),
        decreases digits@.len() - i,
    {
        push_char(out, digits[i]);
        assert(digits@.take(i + 1) =~= digits@.take(i as int).push(digits@[i as int]));
        i = i + 1;
    }
    assert(digits@.take(digits@.len() as int) =~= digits@);
}

/// Whether `s` is a decimal numeral: one or more of the digits `0` to `9`.
pub open spec fn is_decimal_numeral(s: Seq<char>) -> bool {
    s.len() > 0 && forall|i: int| 0 <= i < s.len() ==> 48 <= (#[trigger] s[i]) as int <= 57
}

/// The number a decimal numeral denotes, its first digit the most significant.
pub open spec fn decimal_value(s: Seq<char>) -> int
    decreases s.len(),
{
    if s.len() == 0 {
        0
    } else {
        decimal_value(s.drop_last()) * 10 + (s.last() as int - 48)
    }
}

/// Whether `s` is an upper-case hexadecimal numeral: one or more of the
/// digits `0` to `9` and `A` to `F`.
pub open spec fn is_hex_numeral(s: Seq<char>) -> bool {
    s.len() > 0 && forall|i: int|
        0 <= i < s.len() ==> (48 <= (#[trigger] s[i]) as int <= 57 || 65 <= s[i] as int <= 70)
}

/// The value of one hexadecimal digit.
pub open spec fn hex_digit_value(c: char) -> int {
    if c as int <= 57 {
        c as int - 48
    } else {
        c as int - 55
    }
}

/// The number a hexadecimal numeral denotes, its first digit the most
/// significant.
pub open spec fn hex_value(s: Seq<char>) -> int
    decreases s.len(),
{
    if s.len() == 0 {
        0
    } else {
        hex_value(s.drop_last()) * 16 + hex_digit_value(s.last())
    }
}

/// The decimal text of `n` is a decimal numeral that reads back as `n`.
pub proof fn lemma_dec_text_reads_back(n: nat)
    ensures
        is_decimal_numeral(dec_text(n)),
        decimal_value(dec_text(n)) == n,
    decreases n,
{
    if n < 10 {
        assert(dec_text(n)[0] as int == n + 48);
        assert(dec_text(n).drop_last() =~= Seq::<char>::empty());
        assert(decimal_value(Seq::<char>::empty()) == 0);
    } else {
        lemma_dec_text_reads_back(n / 10);
        let s = dec_text(n);
        let t = dec_text(n / 10);
        assert(s.drop_last() =~= t);
        assert(s.last() as int == n % 10 + 48);
        assert(decimal_value(s) == decimal_value(t) * 10 + (n % 10));
        assert((n / 10) * 10 + n % 10 == n) by (nonlinear_arith);
        assert forall|i: int| 0 <= i < s.len() implies 48 <= (#[trigger] s[i]) as int <= 57 by {
            if i < t.len() {
                assert(s[i] == t[i]);
            }
        }
    }
}

/// The hexadecimal text of `n` is a hexadecimal numeral that reads back as
/// `n`.
pub proof fn lemma_hex_text_reads_back(n: nat)
    ensures
        is_hex_numeral(hex_text(n)),
        hex_value(hex_text(n)) == n,
    decreases n,
{
    if n < 16 {
        assert(hex_text(n).drop_last() =~= Seq::<char>::empty());
        assert(hex_value(Seq::<char>::empty()) == 0);
        if n < 10 {
            assert(hex_text(n)[0] as int == n + 48);
        } else {
            assert(hex_text(n)[0] as int == n + 55);
        }
    } else {
        lemma_hex_text_reads_back(n / 16);
        let s = hex_text(n);
        let t = hex_text(n / 16);
        assert(s.drop_last() =~= t);
        if n % 16 < 10 {
            assert(s.last() as int == n % 16 + 48);
        } else {
            assert(s.last() as int == n % 16 + 55);
        }
        assert(hex_value(s) == hex_value(t) * 16 + (n % 16));
        assert((n / 16) * 16 + n % 16 == n) by (nonlinear_arith);
        assert forall|i: int|
            0 <= i < s.len() implies (48 <= (#[trigger] s[i]) as int <= 57 || 65 <= s[i] as int <= 70) by {
            if i < t.len() {
                assert(s[i] == t[i]);
            }
        }
    }
}

} // verus!
