//! Content hashing for audit records: a 64-bit FNV-1a digest rendered in
//! lowercase hexadecimal.

use vstd::prelude::*;
use vstd::string::StringSliceAdditionalSpecFns;
use vstd::wrapping::u64_specs;
use crate::text::push_char;

verus! {

/// The FNV-1a offset basis for 64-bit digests.
pub const FNV_OFFSET_BASIS: u64 = 0xcbf29ce484222325;

/// The FNV-1a prime for 64-bit digests.
pub const FNV_PRIME: u64 = 0x100000001b3;

/// The 64-bit FNV-1a digest of a byte sequence.
pub open spec fn fnv1a(s: Seq<u8>) -> u64
    decreases s.len(),
{
    if s.len() == 0 {
        FNV_OFFSET_BASIS
    } else {
        u64_specs::wrapping_mul(fnv1a(s.drop_last()) ^ (s.last() as u64), FNV_PRIME)
    }
}

/// The hexadecimal digit character for a value below sixteen, in lower
/// case.
pub open spec fn hex_digit_char(d: int) -> char {
    if d < 10 {
        ((48 + d) as u8) as char
    } else {
        ((87 + d) as u8) as char
    }
}

/// The hexadecimal numeral of `n`, most significant digit first, with
/// no leading zeros (the numeral of zero is "0").
pub open spec fn hex_str(n: nat) -> Seq<char>
    decreases n,
{
    if n < 16 {
        seq![hex_digit_char(n as int)]
    } else {
        hex_str(n / 16) + seq![hex_digit_char((n % 16) as int)]
    }
}

/// The characters of the hex digit values `ds`, least significant
/// first, read back in display order.
pub open spec fn rev_hex_chars(ds: Seq<u8>) -> Seq<char> {
    Seq::new(ds.len(), |i: int| hex_digit_char(ds[ds.len() - 1 - i] as int))
}

proof fn lemma_hex_str_step(n: nat, m: nat, ds: Seq<u8>, ds2: Seq<u8>)
    requires
        m > 0,
        ds2 == ds.push((m % 16) as u8),
        hex_str(n) == hex_str(m) + rev_hex_chars(ds),
    ensures
        m / 16 == 0 ==> hex_str(n) == rev_hex_chars(ds2),
        m / 16 > 0 ==> hex_str(n) == hex_str(m / 16) + rev_hex_chars(ds2),
{
    assert(rev_hex_chars(ds2) =~= seq![hex_digit_char((m % 16) as int)] + rev_hex_chars(ds));
    if m < 16 {
        assert(hex_str(m) == seq![hex_digit_char(m as int)]);
        assert(m % 16 == m);
        assert(hex_str(n) =~= rev_hex_chars(ds2));
    } else {
        assert(hex_str(m) == hex_str(m / 16) + seq![hex_digit_char((m % 16) as int)]);
        assert(hex_str(n) =~= hex_str(m / 16) + rev_hex_chars(ds2));
    }
}

/// Renders `n` in lowercase hexadecimal.
pub fn u64_to_hex_string(n: u64) -> (s: String)
    ensures
        s@ == hex_str(n as nat),
{
    let mut digits: Vec<u8> = Vec::new();
    if n == 0 {
        digits.push(0);
        proof {
            assert(hex_str(0) =~= rev_hex_chars(digits@));
        }
    }
    let mut m: u64 = n;
    proof {
        if n > 0 {
            assert(hex_str(n as nat) =~= hex_str(m as nat) + rev_hex_chars(digits@));
        }
    }
    while m > 0
        invariant
            forall|j: int| 0 <= j < digits@.len() ==> #[trigger] digits@[j] < 16,
            m == 0 ==> digits@.len() > 0 && hex_str(n as nat) == rev_hex_chars(digits@),
            m > 0 ==> hex_str(n as nat) == hex_str(m as nat) + rev_hex_chars(digits@),
        decreases m,
    {
        let ghost old_digits = digits@;
        let ghost old_m = m as nat;
        digits.push((m % 16) as u8);
        m = m / 16;
        proof {
            lemma_hex_str_step(n as nat, old_m, old_digits, digits@);
        }
    }
    let mut s = String::new();
    let k = digits.len();
    let mut i: usize = 0;
    proof {
        assert(s@ =~= rev_hex_chars(digits@).subrange(0, 0));
    }
    while i < k
        invariant
            k == digits@.len(),
            0 <= i <= k,
            forall|j: int| 0 <= j < k ==> #[trigger] digits@[j] < 16,
            hex_str(n as nat) == rev_hex_chars(digits@),
            s@ == rev_hex_chars(digits@).subrange(0, i as int),
        decreases k - i,
    {
        let d = digits[k - 1 - i];
        let c: char = if d < 10 {
            (48 + d) as char
        } else {
            (87 + d) as char
        };
        push_char(&mut s, c);
        proof {
            assert(s@ =~= rev_hex_chars(digits@).subrange(0, i as int + 1));
        }
        i = i + 1;
    }
    proof {
        assert(s@ =~= hex_str(n as nat));
    }
    s
}

/// Digests a byte sequence with FNV-1a and renders the digest in
/// lowercase hexadecimal.
pub fn hash_bytes(data: &[u8]) -> (r: String)
    ensures
        r@ == hex_str(fnv1a(data@) as nat),
{
    let n = data.len();
    let mut h: u64 = FNV_OFFSET_BASIS;
    let mut i: usize = 0;
    proof {
        assert(data@.subrange(0, 0) =~= Seq::<u8>::empty());
    }
    while i < n
        invariant
            n == data@.len(),
            0 <= i <= n,
            h == fnv1a(data@.subrange(0, i as int)),
        decreases n - i,
    {
        let b = data[i];
        h = (h ^ (b as u64)).wrapping_mul(FNV_PRIME);
        proof {
            let pre = data@.subrange(0, i as int);
            let cur = data@.subrange(0, i as int + 1);
            assert(cur.drop_last() =~= pre);
            assert(cur.last() == b);
        }
        i = i + 1;
    }
    proof {
        assert(data@.subrange(0, n as int) =~= data@);
    }
    u64_to_hex_string(h)
}

/// The digest text of a string's bytes.
pub open spec fn hash_text(s: Seq<u8>) -> Seq<char> {
    hex_str(fnv1a(s) as nat)
}

/// Digests the bytes of a text with FNV-1a, rendered in lowercase
/// hexadecimal.
pub fn create_hash(data: &str) -> (r: String)
    ensures
        r@ == hash_text(data.spec_bytes()),
{
    hash_bytes(data.as_bytes())
}

} // verus!
