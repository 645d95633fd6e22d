//! Random slugs for short urls: `base62(SHA256(long_url + random32))[..8]`,
//! where the 32-byte digest is read as one big-endian number.

use vstd::prelude::*;
use vstd::utf8::encode_utf8;
use sha2::Digest;

verus! {

/// The SHA-256 digest of `data`.
pub uninterp spec fn sha256(data: Seq<u8>) -> Seq<u8>;

/// Hashes `data` with SHA-256.
///
/// Calls `sha2::Sha256::digest` (from `digest::Digest`), which hashes `data`
/// in one go; the digest is named `sha256` and is 32 bytes long, the output
/// size of `Sha256`. Feeding the same bytes in several `update` calls gives
/// the same digest, so this stands for the hasher that the slug is made with.
#[verifier::external_body]
pub(crate) fn sha256_digest(data: &[u8]) -> (r: Vec<u8>)
    ensures
        r@ == sha256(data@),
        r@.len() == 32,
{
    sha2::Sha256::digest(data).to_vec()
}

/// Four random bytes.
///
/// Calls `rand::random::<[u8; 4]>`; which bytes come back is chance, so only
/// their number is stated.
#[verifier::external_body]
pub(crate) fn random_bytes() -> (r: Vec<u8>)
    ensures
        r@.len() == 4,
{
    rand::random::<[u8; 4]>().to_vec()
}

/// The base62 digit for `d < 62`: `0-9`, then `A-Z`, then `a-z`.
pub open spec fn base62_digit(d: nat) -> char {
    if d < 10 {
        ('0' as nat + d) as char
    } else if d < 36 {
        ('A' as nat + (d - 10)) as char
    } else {
        ('a' as nat + (d - 36)) as char
    }
}

/// The base62 representation of `n`, most significant digit first, without
/// leading zeros (`0` is `"0"`).
pub open spec fn base62(n: nat) -> Seq<char>
    decreases n,
{
    if n < 62 {
        seq![base62_digit(n)]
    } else {
        base62(n / 62).push(base62_digit(n % 62))
    }
}

/// Encodes a number in base62.
///
/// Calls `base62::encode` (version 0.3), which writes `num` in base 62 with
/// the alphabet `0-9A-Za-z`, most significant digit first, and `"0"` for 0.
#[verifier::external_body]
pub(crate) fn base62_encode(num: u64) -> (r: String)
    ensures
        r@ == base62(num as nat),
{
    base62::encode(num)
}

/// A fresh ULID, as its 128-bit value.
///
/// Calls `ulid::Ulid::new`, which draws on the clock and on chance; nothing
/// is stated of the value.
#[verifier::external_body]
pub(crate) fn new_ulid() -> (r: u128) {
    ulid::Ulid::new().0
}

/// The number that `bytes` denote, big-endian.
pub open spec fn be_value(bytes: Seq<u8>) -> nat
    decreases bytes.len(),
{
    if bytes.len() == 0 {
        0
    } else {
        be_value(bytes.drop_last()) * 256 + bytes.last() as nat
    }
}

/// At most the first eight characters of `s`.
pub open spec fn first_eight(s: Seq<char>) -> Seq<char> {
    if s.len() <= 8 {
        s
    } else {
        s.take(8)
    }
}

/// The slug made from a long url and four random bytes: the long url's
/// UTF-8 bytes followed by the random bytes are hashed with SHA-256, the
/// whole digest is read as a big-endian number, and the slug is the first
/// eight characters of that number in base62.
pub open spec fn slug_for(long_url: Seq<char>, salt: Seq<u8>) -> Seq<char> {
    first_eight(base62(be_value(sha256(encode_utf8(long_url) + salt))))
}

/// Whether `slug` is one that `make_random_short_url` can give for
/// `long_url`: the slug for some four random bytes.
pub open spec fn is_random_slug_for(long_url: Seq<char>, slug: Seq<char>) -> bool {
    exists|salt: Seq<u8>| salt.len() == 4 && slug == #[trigger] slug_for(long_url, salt)
}

proof fn lemma_be_value_step(s: Seq<u8>, b: u8)
    ensures
        be_value(s.push(b)) == be_value(s) * 256 + b as nat,
{
    assert(s.push(b).drop_last() =~= s);
}

/// The number that the eight bytes of `bytes` from `start` on denote,
/// big-endian.
fn be_u64_at(bytes: &Vec<u8>, start: usize) -> (r: u64)
    requires
        start + 8 <= bytes@.len(),
    ensures
        r as nat == be_value(bytes@.subrange(start as int, start + 8)),
{
    let mut acc: u64 = 0;
    let mut i: usize = 0;
    while i < 8
        invariant
            i <= 8,
            start + 8 <= bytes.len(),
            acc as nat == be_value(bytes@.subrange(start as int, start + i)),
            (acc as nat) < pow256(i as nat),
        decreases 8 - i,
    {
        let b = bytes[start + i];
        proof {
            lemma_be_value_step(bytes@.subrange(start as int, start + i), b);
            assert(bytes@.subrange(start as int, start + i + 1) =~= bytes@.subrange(
                start as int,
                start + i,
            ).push(b));
            lemma_pow256_step(i as nat);
            assert((acc as nat) * 256 + b < pow256(i as nat) * 256) by (nonlinear_arith)
                requires
                    (acc as nat) < pow256(i as nat),
                    b < 256,
            ;
            lemma_pow256_bound(i as nat + 1);
        }
        acc = acc * 256 + b as u64;
        i = i + 1;
    }
    acc
}

proof fn lemma_be_value_concat(a: Seq<u8>, b: Seq<u8>)
    ensures
        be_value(a + b) == be_value(a) * pow256(b.len()) + be_value(b),
    decreases b.len(),
{
    if b.len() == 0 {
        assert(a + b =~= a);
        assert(be_value(b) == 0);
        assert(pow256(0) == 1);
        assert(be_value(a + b) == be_value(a));
    } else {
        let b0 = b.drop_last();
        lemma_be_value_concat(a, b0);
        assert((a + b).drop_last() =~= a + b0);
        assert((a + b).last() == b.last());
        lemma_pow256_step(b0.len());
        assert(be_value(a + b) == be_value(a + b0) * 256 + b.last());
        assert(be_value(b) == be_value(b0) * 256 + b.last());
        assert(pow256(b.len()) == pow256(b0.len()) * 256);
        let x = be_value(a);
        let p = pow256(b0.len());
        assert((x * p + be_value(b0)) * 256 + b.last() == x * (p * 256) + (be_value(b0) * 256
            + b.last())) by (nonlinear_arith);
        assert(be_value(a + b0) == x * p + be_value(b0));
        assert(be_value(a + b) == x * (p * 256) + be_value(b));
    }
}

proof fn lemma_be_value_split(s: Seq<u8>, k: int)
    requires
        0 <= k <= s.len(),
    ensures
        be_value(s) == be_value(s.take(k)) * pow256((s.len() - k) as nat) + be_value(
            s.subrange(k, s.len() as int),
        ),
{
    assert(s =~= s.take(k) + s.subrange(k, s.len() as int));
    lemma_be_value_concat(s.take(k), s.subrange(k, s.len() as int));
}

/// Whether the first `end` bytes of `bytes` are all zero, that is, whether
/// the number they denote is zero.
fn leading_bytes_zero(bytes: &Vec<u8>, end: usize) -> (r: bool)
    requires
        end <= bytes@.len(),
    ensures
        r == (be_value(bytes@.take(end as int)) == 0),
{
    let mut zero = true;
    let mut i: usize = 0;
    while i < end
        invariant
            i <= end,
            end <= bytes@.len(),
            zero == (be_value(bytes@.take(i as int)) == 0),
        decreases end - i,
    {
        let b = bytes[i];
        proof {
            lemma_be_value_step(bytes@.take(i as int), b);
            assert(bytes@.take(i + 1) =~= bytes@.take(i as int).push(b));
        }
        zero = zero && b == 0;
        i = i + 1;
    }
    zero
}

/// Divides the big-endian number in `bytes` by 62: the quotient, in as many
/// bytes, and the remainder.
fn div62(bytes: &Vec<u8>) -> (r: (Vec<u8>, u8))
    ensures
        r.0@.len() == bytes@.len(),
        r.1 < 62,
        be_value(bytes@) == be_value(r.0@) * 62 + r.1,
{
    let mut quotient: Vec<u8> = Vec::new();
    let mut rem: u32 = 0;
    let mut i: usize = 0;
    while i < bytes.len()
        invariant
            i <= bytes@.len(),
            quotient@.len() == i,
            rem < 62,
            be_value(bytes@.take(i as int)) == be_value(quotient@) * 62 + rem,
        decreases bytes@.len() - i,
    {
        let b = bytes[i];
        let acc: u32 = rem * 256 + b as u32;
        let q: u32 = acc / 62;
        let new_rem: u32 = acc % 62;
        assert(q < 256 && acc == q * 62 + new_rem) by (nonlinear_arith)
            requires
                acc == rem * 256 + b,
                rem < 62,
                b < 256,
                q == acc / 62,
                new_rem == acc % 62,
        ;
        proof {
            lemma_be_value_step(bytes@.take(i as int), b);
            assert(bytes@.take(i + 1) =~= bytes@.take(i as int).push(b));
            lemma_be_value_step(quotient@, q as u8);
            let qv = be_value(quotient@);
            assert((qv * 62 + rem) * 256 + b == (qv * 256 + q) * 62 + new_rem) by (nonlinear_arith)
                requires
                    acc == rem * 256 + b,
                    acc == q * 62 + new_rem,
            ;
        }
        quotient.push(q as u8);
        rem = new_rem;
        i = i + 1;
    }
    assert(bytes@.take(bytes@.len() as int) =~= bytes@);
    (quotient, rem as u8)
}

/// The base62 representation of the big-endian number in `bytes`.
///
/// The number is divided by 62 until it fits in a `u64`, each remainder
/// giving the next digit from the right; what is left is encoded by
/// `base62::encode` and the digits follow it.
fn base62_big_endian(bytes: Vec<u8>) -> (r: String)
    requires
        bytes@.len() >= 8,
    ensures
        r@ == base62(be_value(bytes@)),
{
    let n = bytes.len();
    let ghost total = be_value(bytes@);
    let mut cur = bytes;
    let mut suffix = String::new();
    let mut high = !leading_bytes_zero(&cur, n - 8);
    proof {
        assert(base62(total) =~= base62(be_value(cur@)) + suffix@);
    }
    while high
        invariant
            n >= 8,
            cur@.len() == n,
            high == (be_value(cur@.take(n - 8)) != 0),
            base62(total) == base62(be_value(cur@)) + suffix@,
        decreases be_value(cur@),
    {
        let ghost v = be_value(cur@);
        proof {
            lemma_be_value_split(cur@, n - 8);
            reveal_with_fuel(pow256, 9);
            let h = be_value(cur@.take(n - 8));
            assert(v >= 62) by (nonlinear_arith)
                requires
                    v == h * pow256(8) + be_value(cur@.subrange(n - 8, n as int)),
                    h >= 1,
                    pow256(8) == 0x1_0000_0000_0000_0000,
            ;
        }
        let (q, d) = div62(&cur);
        let ghost qv = be_value(q@);
        proof {
            assert(v / 62 == qv && v % 62 == d) by (nonlinear_arith)
                requires
                    v == qv * 62 + d,
                    d < 62,
            ;
            assert(base62(v) == base62(qv).push(base62_digit(d as nat)));
            assert(base62(d as nat) == seq![base62_digit(d as nat)]);
        }
        let mut digit = base62_encode(d as u64);
        digit.append(suffix.as_str());
        proof {
            assert(base62(total) =~= base62(qv) + digit@);
        }
        suffix = digit;
        cur = q;
        high = !leading_bytes_zero(&cur, n - 8);
    }
    proof {
        lemma_be_value_split(cur@, n - 8);
    }
    let low = be_u64_at(&cur, n - 8);
    let mut head = base62_encode(low);
    head.append(suffix.as_str());
    head
}

/// 256 to the power `n`.
pub open spec fn pow256(n: nat) -> nat
    decreases n,
{
    if n == 0 {
        1
    } else {
        pow256((n - 1) as nat) * 256
    }
}

proof fn lemma_pow256_step(n: nat)
    ensures
        pow256(n + 1) == pow256(n) * 256,
{
}

proof fn lemma_pow256_bound(n: nat)
    requires
        n <= 8,
    ensures
        pow256(n) <= 0x1_0000_0000_0000_0000,
    decreases 8 - n,
{
    if n < 8 {
        lemma_pow256_bound(n + 1);
        assert(pow256(n + 1) == pow256(n) * 256);
    } else {
        reveal_with_fuel(pow256, 9);
    }
}

/// The slug for `long_url` and the four bytes `salt`:
/// `base62(SHA256(long_url + salt))`, the digest read as one big-endian
/// number, cut to eight characters.
pub fn slug_from_salt(long_url: &str, salt: Vec<u8>) -> (r: String)
    ensures
        r@ == slug_for(long_url@, salt@),
{
    let ghost salt_view = salt@;
    let mut salt = salt;
    let mut data = long_url.as_bytes_vec();
    data.append(&mut salt);
    let hash = sha256_digest(data.as_slice());
    let based = base62_big_endian(hash);
    let len = based.unicode_len();
    let end: usize = if len <= 8 { len } else { 8 };
    let r = String::from_str(based.as_str().substring_char(0, end));
    assert(r@ =~= first_eight(based@));
    r
}

/// Makes a random slug for `long_url`:
/// `base62(SHA256(long_url + random32))`, the digest read as one big-endian
/// number, cut to eight characters.
pub fn make_random_short_url(long_url: &str) -> (r: String)
    ensures
        is_random_slug_for(long_url@, r@),
{
    let salt = random_bytes();
    let ghost salt_view = salt@;
    let r = slug_from_salt(long_url, salt);
    assert(r@ == slug_for(long_url@, salt_view));
    r
}

/// Whether `c` is an ASCII letter or digit, the alphabet of base62.
pub open spec fn is_base62_char(c: char) -> bool {
    ('0' <= c <= '9') || ('A' <= c <= 'Z') || ('a' <= c <= 'z')
}

/// 62 to the power `n`.
pub open spec fn pow62(n: nat) -> nat
    decreases n,
{
    if n == 0 {
        1
    } else {
        pow62((n - 1) as nat) * 62
    }
}

proof fn lemma_base62_chars(n: nat)
    ensures
        base62(n).len() >= 1,
        forall|i: int| 0 <= i < base62(n).len() ==> is_base62_char(#[trigger] base62(n)[i]),
    decreases n,
{
    if n >= 62 {
        lemma_base62_chars(n / 62);
    }
}

proof fn lemma_base62_len(n: nat, k: nat)
    requires
        n >= pow62(k),
    ensures
        base62(n).len() >= k + 1,
    decreases k,
{
    if k > 0 {
        let p = pow62((k - 1) as nat);
        assert(p >= 1) by {
            lemma_pow62_positive((k - 1) as nat);
        }
        assert(n / 62 >= p) by (nonlinear_arith)
            requires
                n >= p * 62,
        ;
        assert(n >= 62) by (nonlinear_arith)
            requires
                n >= p * 62,
                p >= 1,
        ;
        lemma_base62_len(n / 62, (k - 1) as nat);
    }
}

proof fn lemma_pow62_positive(k: nat)
    ensures
        pow62(k) >= 1,
    decreases k,
{
    if k > 0 {
        lemma_pow62_positive((k - 1) as nat);
    }
}

/// A random slug has at most eight characters, each an ASCII letter or
/// digit; it has exactly eight unless the number read from the digest is
/// below 62 to the seventh power.
pub proof fn law_random_slug_shape(long_url: Seq<char>, salt: Seq<u8>)
    ensures
        slug_for(long_url, salt).len() <= 8,
        slug_for(long_url, salt).len() >= 1,
        forall|i: int|
            0 <= i < slug_for(long_url, salt).len() ==> is_base62_char(
                #[trigger] slug_for(long_url, salt)[i],
            ),
        be_value(sha256(encode_utf8(long_url) + salt)) >= pow62(7) ==> slug_for(long_url, salt).len()
            == 8,
{
    let n = be_value(sha256(encode_utf8(long_url) + salt));
    lemma_base62_chars(n);
    if n >= pow62(7) {
        lemma_base62_len(n, 7);
    }
    let b = base62(n);
    assert forall|i: int| 0 <= i < slug_for(long_url, salt).len() implies is_base62_char(
        #[trigger] slug_for(long_url, salt)[i],
    ) by {
        assert(slug_for(long_url, salt)[i] == b[i]);
    }
}

} // verus!
