//! Text helpers: trusted, thin wrappers around the standard library's
//! string operations, and verified decimal formatting.

use vstd::prelude::*;

verus! {

/// Relies on `String::push_str`: appends the given slice onto the end
/// of the string.
#[verifier::external_body]
pub(crate) fn push_str(s: &mut String, t: &str)
    ensures
        final(s)@ == old(s)@ + t@,
{
    s.push_str(t)
}

/// Relies on `String::push`: appends the given character onto the end
/// of the string.
#[verifier::external_body]
pub(crate) fn push_char(s: &mut String, c: char)
    ensures
        final(s)@ == old(s)@.push(c),
{
    s.push(c)
}

/// Whether `needle` occurs as a contiguous run inside `hay`.
pub open spec fn seq_contains_sub(hay: Seq<char>, needle: Seq<char>) -> bool {
    exists|i: int|
        0 <= i <= hay.len() - needle.len() && #[trigger] hay.subrange(i, i + needle.len() as int)
            == needle
}

/// Relies on `str::contains`: whether `needle` occurs as a substring of
/// `hay` (an empty needle always does).
#[verifier::external_body]
pub(crate) fn contains_sub(hay: &str, needle: &str) -> (r: bool)
    ensures
        r == seq_contains_sub(hay@, needle@),
{
    hay.contains(needle)
}

/// The Unicode-lowercased form of a character sequence, as
/// `str::to_lowercase` computes it from the characters alone.
pub uninterp spec fn lower_of(s: Seq<char>) -> Seq<char>;

/// Relies on `str::to_lowercase`: the result depends only on the
/// characters of the input.
#[verifier::external_body]
pub(crate) fn to_lowercase(s: &str) -> (r: String)
    ensures
        r@ == lower_of(s@),
{
    s.to_lowercase()
}

/// The decimal digit character for a value below ten.
pub open spec fn digit_char(d: int) -> char {
    ((48 + d) as u8) as char
}

/// The decimal numeral of `n`, most significant digit first, with no
/// leading zeros (the numeral of zero is "0").
pub open spec fn dec_str(n: nat) -> Seq<char>
    decreases n,
{
    if n < 10 {
        seq![digit_char(n as int)]
    } else {
        dec_str(n / 10) + seq![digit_char((n % 10) as int)]
    }
}

/// Renders `n` in decimal.
pub fn u64_to_string(n: u64) -> (s: String)
    ensures
        s@ == dec_str(n as nat),
{
    let mut digits: Vec<u8> = Vec::new();
    if n == 0 {
        digits.push(0);
        proof {
            assert(dec_str(0) =~= rev_digit_chars(digits@));
        }
    }
    let mut m: u64 = n;
    proof {
        if n > 0 {
            assert(dec_str(n as nat) =~= dec_str(m as nat) + rev_digit_chars(digits@));
        }
    }
    while m > 0
        invariant
            forall|j: int| 0 <= j < digits@.len() ==> #[trigger] digits@[j] < 10,
            m == 0 ==> digits@.len() > 0 && dec_str(n as nat) == rev_digit_chars(digits@),
            m > 0 ==> dec_str(n as nat) == dec_str(m as nat) + rev_digit_chars(digits@),
        decreases m,
    {
        let ghost old_digits = digits@;
        let ghost old_m = m as nat;
        digits.push((m % 10) as u8);
        m = m / 10;
        proof {
            lemma_dec_str_step(n as nat, old_m, old_digits, digits@);
        }
    }
    let mut s = String::new();
    let k = digits.len();
    let mut i: usize = 0;
    while i < k
        invariant
            k == digits@.len(),
            0 <= i <= k,
            forall|j: int| 0 <= j < k ==> #[trigger] digits@[j] < 10,
            dec_str(n as nat) == rev_digit_chars(digits@),
            s@ == rev_digit_chars(digits@).subrange(0, i as int),
        decreases k - i,
    {
        let d = digits[k - 1 - i];
        push_char(&mut s, (48 + d) as char);
        proof {
            assert(s@ =~= rev_digit_chars(digits@).subrange(0, i as int + 1));
        }
        i = i + 1;
    }
    proof {
        assert(s@ =~= dec_str(n as nat));
    }
    s
}

/// The characters of the digit values `ds`, least significant first,
/// read back in display order.
pub open spec fn rev_digit_chars(ds: Seq<u8>) -> Seq<char> {
    Seq::new(ds.len(), |i: int| digit_char(ds[ds.len() - 1 - i] as int))
}

proof fn lemma_dec_str_step(n: nat, m: nat, ds: Seq<u8>, ds2: Seq<u8>)
    requires
        m > 0,
        ds2 == ds.push((m % 10) as u8),
        dec_str(n) == dec_str(m) + rev_digit_chars(ds),
    ensures
        m / 10 == 0 ==> dec_str(n) == rev_digit_chars(ds2),
        m / 10 > 0 ==> dec_str(n) == dec_str(m / 10) + rev_digit_chars(ds2),
{
    assert(rev_digit_chars(ds2) =~= seq![digit_char((m % 10) as int)] + rev_digit_chars(ds));
    if m < 10 {
        assert(dec_str(m) == seq![digit_char(m as int)]);
        assert(m % 10 == m);
        assert(dec_str(n) =~= rev_digit_chars(ds2));
    } else {
        assert(dec_str(m) == dec_str(m / 10) + seq![digit_char((m % 10) as int)]);
        assert(dec_str(n) =~= dec_str(m / 10) + rev_digit_chars(ds2));
    }
}

/// The human-readable rendering of a duration in hours: plain hours
/// below one day, else days with the leftover hours.
pub open spec fn duration_text(hours: nat) -> Seq<char> {
    if hours < 24 {
        dec_str(hours) + " hours"@
    } else if hours % 24 == 0 {
        dec_str(hours / 24) + " days"@
    } else {
        dec_str(hours / 24) + " days, "@ + dec_str(hours % 24) + " hours"@
    }
}

/// Renders a duration given in hours as text.
pub fn format_duration_string(hours: u64) -> (r: String)
    ensures
        r@ == duration_text(hours as nat),
{
    if hours < 24 {
        let mut s = u64_to_string(hours);
        push_str(&mut s, " hours");
        s
    } else {
        let days = hours / 24;
        let remaining_hours = hours % 24;
        if remaining_hours == 0 {
            let mut s = u64_to_string(days);
            push_str(&mut s, " days");
            s
        } else {
            let mut s = u64_to_string(days);
            push_str(&mut s, " days, ");
            let h = u64_to_string(remaining_hours);
            push_str(&mut s, h.as_str());
            push_str(&mut s, " hours");
            s
        }
    }
}

} // verus!
