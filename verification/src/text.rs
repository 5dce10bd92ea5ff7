//! Verified helpers on byte strings: substring search, equality,
//! concatenation, and decimal rendering of integers.
use vstd::prelude::*;

verus! {

/// True when `needle` occurs in `hay` starting at position `i`.
pub open spec fn matches_at(hay: Seq<u8>, needle: Seq<u8>, i: int) -> bool {
    &&& 0 <= i
    &&& i + needle.len() <= hay.len()
    &&& hay.subrange(i, i + needle.len() as int) == needle
}

/// True when `needle` occurs as a contiguous substring of `hay`.
pub open spec fn is_substring(hay: Seq<u8>, needle: Seq<u8>) -> bool {
    exists|i: int| #[trigger] matches_at(hay, needle, i)
}

/// Decides whether `needle` occurs in `hay` at position `i`.
fn match_at(hay: &Vec<u8>, needle: &Vec<u8>, i: usize) -> (r: bool)
    requires
        i + needle@.len() <= hay@.len(),
    ensures
        r == matches_at(hay@, needle@, i as int),
{
    let n = needle.len();
    let hn = hay.len();
    let mut j: usize = 0;
    while j < n
        invariant
            n == needle@.len(),
            hn == hay@.len(),
            i + n <= hay@.len(),
            j <= n,
            forall|k: int| 0 <= k < j ==> hay@[i + k] == needle@[k],
        decreases n - j,
    {
        if hay[i + j] != needle[j] {
            assert(hay@.subrange(i as int, i + needle@.len() as int)[j as int] == hay@[i + j]);
            return false;
        }
        j += 1;
    }
    assert(hay@.subrange(i as int, i + needle@.len() as int) =~= needle@);
    true
}

/// Decides whether `needle` occurs anywhere in `hay`.
pub fn contains_bytes(hay: &Vec<u8>, needle: &Vec<u8>) -> (r: bool)
    ensures
        r == is_substring(hay@, needle@),
{
    if needle.len() > hay.len() {
        assert(forall|i: int| !matches_at(hay@, needle@, i));
        return false;
    }
    if needle.len() == 0 {
        assert(hay@.subrange(0, 0) =~= needle@);
        assert(matches_at(hay@, needle@, 0));
        return true;
    }
    let end = hay.len() - needle.len();
    let mut i: usize = 0;
    while i <= end
        invariant
            1 <= needle@.len() <= hay@.len(),
            hay@.len() <= usize::MAX,
            end == hay@.len() - needle@.len(),
            i <= end + 1,
            forall|k: int| 0 <= k < i ==> !matches_at(hay@, needle@, k),
        decreases end + 1 - i,
    {
        if match_at(hay, needle, i) {
            assert(matches_at(hay@, needle@, i as int));
            return true;
        }
        i += 1;
    }
    assert(forall|k: int| !matches_at(hay@, needle@, k));
    false
}

/// Decides equality of two byte strings.
pub fn bytes_eq(a: &Vec<u8>, b: &Vec<u8>) -> (r: bool)
    ensures
        r == (a@ == b@),
{
    if a.len() != b.len() {
        return false;
    }
    let n = a.len();
    let mut i: usize = 0;
    while i < n
        invariant
            n == a@.len(),
            a@.len() == b@.len(),
            i <= n,
            forall|k: int| 0 <= k < i ==> a@[k] == b@[k],
        decreases n - i,
    {
        if a[i] != b[i] {
            return false;
        }
        i += 1;
    }
    assert(a@ =~= b@);
    true
}

/// Copies a byte string.
pub fn bytes_copy(a: &Vec<u8>) -> (r: Vec<u8>)
    ensures
        r@ == a@,
{
    let mut r: Vec<u8> = Vec::new();
    let n = a.len();
    let mut i: usize = 0;
    while i < n
        invariant
            n == a@.len(),
            i <= n,
            r@ == a@.subrange(0, i as int),
        decreases n - i,
    {
        r.push(a[i]);
        assert(r@ =~= a@.subrange(0, i + 1));
        i += 1;
    }
    assert(r@ =~= a@);
    r
}

/// Appends a copy of `b` to `a`.
pub fn bytes_push_all(a: &mut Vec<u8>, b: &Vec<u8>)
    ensures
        final(a)@ == old(a)@ + b@,
{
    let n = b.len();
    let mut i: usize = 0;
    while i < n
        invariant
            n == b@.len(),
            i <= n,
            a@ == old(a)@ + b@.subrange(0, i as int),
        decreases n - i,
    {
        a.push(b[i]);
        assert(a@ =~= old(a)@ + b@.subrange(0, i + 1));
        i += 1;
    }
    assert(a@ =~= old(a)@ + b@);
}

/// The ASCII digit for `d`.
pub open spec fn decimal_digit(d: int) -> u8 {
    (48 + d) as u8
}

/// The decimal digits of a non-negative integer, most significant first.
pub open spec fn decimal_of(n: int) -> Seq<u8>
    recommends
        n >= 0,
    decreases n,
{
    if n < 10 {
        seq![decimal_digit(n)]
    } else {
        decimal_of(n / 10).push(decimal_digit(n % 10))
    }
}

/// A decimal rendering is never empty.
pub proof fn lemma_decimal_nonempty(n: int)
    ensures
        decimal_of(n).len() >= 1,
        signed_decimal_of(n).len() >= 1,
{
    if n < 10 {
    } else {
    }
}

/// The decimal rendering of an integer, with a leading minus sign when negative.
pub open spec fn signed_decimal_of(n: int) -> Seq<u8> {
    if n < 0 {
        seq![45u8] + decimal_of(-n)
    } else {
        decimal_of(n)
    }
}

/// Renders an unsigned integer in decimal.
pub fn u64_decimal(n: u64) -> (r: Vec<u8>)
    ensures
        r@ == decimal_of(n as int),
{
    let mut digits: Vec<u8> = Vec::new();
    let mut m: u64 = n;
    proof {
        assert(decimal_of(n as int) =~= decimal_of(n as int) + digits@);
    }
    while m >= 10
        invariant
            decimal_of(n as int) == decimal_of(m as int) + digits@,
        decreases m,
    {
        let d: u8 = 48 + (m % 10) as u8;
        let ghost m0 = m as int;
        let ghost pre = digits@;
        digits.insert(0, d);
        m = m / 10;
        proof {
            assert(d == decimal_digit(m0 % 10));
            assert(decimal_of(m0) == decimal_of(m0 / 10).push(decimal_digit(m0 % 10)));
            assert(digits@ =~= seq![d] + pre);
            assert(decimal_of(m0 / 10) + digits@ =~= decimal_of(m0 / 10).push(d) + pre);
            assert(decimal_of(m as int) + digits@ =~= decimal_of(n as int));
        }
    }
    let d: u8 = 48 + (m % 10) as u8;
    let ghost pre = digits@;
    proof {
        assert(m < 10);
        assert(m as int % 10 == m as int);
        assert(d == decimal_digit(m as int));
        assert(decimal_of(m as int) =~= seq![d]);
    }
    digits.insert(0, d);
    proof {
        assert(digits@ =~= seq![d] + pre);
        assert(digits@ =~= decimal_of(n as int));
    }
    digits
}

/// Renders a signed integer in decimal, as its text form.
pub fn i64_decimal(n: i64) -> (r: Vec<u8>)
    ensures
        r@ == signed_decimal_of(n as int),
{
    if n >= 0 {
        let r = u64_decimal(n as u64);
        r
    } else {
        let mag: u64 = ((-(n + 1)) as u64) + 1;
        assert(mag as int == -(n as int));
        let mut r = u64_decimal(mag);
        r.insert(0, 45);
        assert(r@ =~= seq![45u8] + decimal_of(mag as int));
        r
    }
}

} // verus!
