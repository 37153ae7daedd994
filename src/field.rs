//! Little-endian byte strings as natural numbers, their decimal rendering, and
//! the two prime moduli of the BN254 curve.
use vstd::prelude::*;
use vstd::arithmetic::power;

verus! {

/// The natural number that a little-endian byte string denotes.
pub open spec fn le_nat(s: Seq<u8>) -> nat
    decreases s.len(),
{
    if s.len() == 0 {
        0
    } else {
        s[0] as nat + 256 * le_nat(s.drop_first())
    }
}

/// The character of a decimal digit.
pub open spec fn digit_char(d: nat) -> char {
    if d == 0 { '0' }
    else if d == 1 { '1' }
    else if d == 2 { '2' }
    else if d == 3 { '3' }
    else if d == 4 { '4' }
    else if d == 5 { '5' }
    else if d == 6 { '6' }
    else if d == 7 { '7' }
    else if d == 8 { '8' }
    else { '9' }
}

/// The decimal rendering of `n`: most significant digit first, no leading
/// zeros, and "0" for zero.
pub open spec fn decimal(n: nat) -> Seq<char>
    decreases n,
{
    if n < 10 {
        seq![digit_char(n)]
    } else {
        decimal(n / 10).push(digit_char(n % 10))
    }
}

/// Little-endian bytes of the BN254 base field modulus.
pub open spec fn fq_modulus_seq() -> Seq<u8> {
    seq![
        0x47u8, 0xfd, 0x7c, 0xd8, 0x16, 0x8c, 0x20, 0x3c, 0x8d, 0xca, 0x71, 0x68, 0x91, 0x6a, 0x81,
        0x97, 0x5d, 0x58, 0x81, 0x81, 0xb6, 0x45, 0x50, 0xb8, 0x29, 0xa0, 0x31, 0xe1, 0x72, 0x4e,
        0x64, 0x30,
    ]
}

/// Little-endian bytes of the BN254 scalar field modulus.
pub open spec fn fr_modulus_seq() -> Seq<u8> {
    seq![
        0x01u8, 0x00, 0x00, 0xf0, 0x93, 0xf5, 0xe1, 0x43, 0x91, 0x70, 0xb9, 0x79, 0x48, 0xe8, 0x33,
        0x28, 0x5d, 0x58, 0x81, 0x81, 0xb6, 0x45, 0x50, 0xb8, 0x29, 0xa0, 0x31, 0xe1, 0x72, 0x4e,
        0x64, 0x30,
    ]
}

/// The base field modulus p of BN254, over which curve coordinates live.
pub open spec fn fq_modulus() -> nat {
    le_nat(fq_modulus_seq())
}

/// The scalar field modulus r of BN254.
pub open spec fn fr_modulus() -> nat {
    le_nat(fr_modulus_seq())
}

/// A serialized base field element: 32 little-endian bytes of a value below p.
pub open spec fn is_fq(s: Seq<u8>) -> bool {
    s.len() == 32 && le_nat(s) < fq_modulus()
}

/// Negation in the base field.
pub open spec fn fq_neg(v: nat) -> nat {
    if v == 0 { 0 } else { (fq_modulus() - v) as nat }
}

pub fn fq_modulus_bytes() -> (r: Vec<u8>)
    ensures
        r@ == fq_modulus_seq(),
{
    let r: Vec<u8> = vec![
        0x47u8, 0xfd, 0x7c, 0xd8, 0x16, 0x8c, 0x20, 0x3c, 0x8d, 0xca, 0x71, 0x68, 0x91, 0x6a, 0x81,
        0x97, 0x5d, 0x58, 0x81, 0x81, 0xb6, 0x45, 0x50, 0xb8, 0x29, 0xa0, 0x31, 0xe1, 0x72, 0x4e,
        0x64, 0x30,
    ];
    proof {
        assert(r@ =~= fq_modulus_seq());
    }
    r
}

pub fn fr_modulus_bytes() -> (r: Vec<u8>)
    ensures
        r@ == fr_modulus_seq(),
{
    let r: Vec<u8> = vec![
        0x01u8, 0x00, 0x00, 0xf0, 0x93, 0xf5, 0xe1, 0x43, 0x91, 0x70, 0xb9, 0x79, 0x48, 0xe8, 0x33,
        0x28, 0x5d, 0x58, 0x81, 0x81, 0xb6, 0x45, 0x50, 0xb8, 0x29, 0xa0, 0x31, 0xe1, 0x72, 0x4e,
        0x64, 0x30,
    ];
    proof {
        assert(r@ =~= fr_modulus_seq());
    }
    r
}

/// Relies on num_bigint::BigUint::from_bytes_le and BigUint::to_str_radix(10):
/// the decimal rendering of the little-endian integer, "0" for zero.
#[verifier::external_body]
pub(crate) fn le_to_decimal(b: &[u8]) -> (r: String)
    ensures
        r@ == decimal(le_nat(b@)),
{
    num_bigint::BigUint::from_bytes_le(b).to_str_radix(10)
}

/// Relies on num_bigint::BigUint's `%` (which panics on a zero divisor) and
/// BigUint::to_bytes_le: the remainder, as little-endian bytes.
#[verifier::external_body]
pub(crate) fn le_mod(b: &[u8], m: &[u8]) -> (r: Vec<u8>)
    requires
        le_nat(m@) > 0,
    ensures
        le_nat(r@) == le_nat(b@) % le_nat(m@),
{
    (num_bigint::BigUint::from_bytes_le(b) % num_bigint::BigUint::from_bytes_le(m)).to_bytes_le()
}

/// Appending a byte adds it at the next power of 256.
pub proof fn lemma_le_nat_push(s: Seq<u8>, b: u8)
    ensures
        le_nat(s.push(b)) == le_nat(s) + b as nat * power::pow(256, s.len()),
    decreases s.len(),
{
    power::lemma_pow0(256);
    if s.len() == 0 {
        assert(s.push(b).drop_first() =~= Seq::<u8>::empty());
        assert(le_nat(Seq::<u8>::empty()) == 0);
        assert(s.push(b)[0] == b);
        assert(le_nat(s) == 0);
    } else {
        assert(s.push(b).drop_first() =~= s.drop_first().push(b));
        lemma_le_nat_push(s.drop_first(), b);
        power::lemma_pow_adds(256, 1, (s.len() - 1) as nat);
        power::lemma_pow1(256);
        let p = power::pow(256, (s.len() - 1) as nat);
        assert(power::pow(256, s.len()) == 256 * p);
        assert(s.push(b)[0] == s[0]);
        assert(le_nat(s.push(b)) == s[0] as nat + 256 * le_nat(s.drop_first().push(b)));
        assert(256 * (le_nat(s.drop_first()) + b as nat * p) == 256 * le_nat(s.drop_first()) + b as nat * (256 * p)) by (nonlinear_arith);
    }
}

/// A byte string of length n denotes a number below 256^n.
pub proof fn lemma_le_nat_bound(s: Seq<u8>)
    ensures
        le_nat(s) < power::pow(256, s.len()),
    decreases s.len(),
{
    power::lemma_pow0(256);
    if s.len() > 0 {
        lemma_le_nat_bound(s.drop_first());
        power::lemma_pow_adds(256, 1, (s.len() - 1) as nat);
        power::lemma_pow1(256);
        let p = power::pow(256, (s.len() - 1) as nat);
        let t = le_nat(s.drop_first());
        let h = s[0] as nat;
        assert(h + 256 * t < 256 * p) by (nonlinear_arith)
            requires t < p, h < 256;
    }
}

/// A byte string denotes zero exactly when each of its bytes is zero.
pub proof fn lemma_le_nat_zero(s: Seq<u8>)
    ensures
        le_nat(s) == 0 <==> forall|i: int| 0 <= i < s.len() ==> s[i] == 0,
    decreases s.len(),
{
    if s.len() > 0 {
        lemma_le_nat_zero(s.drop_first());
        if le_nat(s) == 0 {
            assert forall|i: int| 0 <= i < s.len() implies s[i] == 0 by {
                if i > 0 {
                    assert(s[i] == s.drop_first()[i - 1]);
                }
            }
        }
        if forall|i: int| 0 <= i < s.len() ==> s[i] == 0 {
            assert forall|i: int| 0 <= i < s.drop_first().len() implies s.drop_first()[i] == 0 by {
                assert(s.drop_first()[i] == s[i + 1]);
            }
        }
    }
}

/// `n` zero bytes.
fn zero_bytes(n: usize) -> (r: Vec<u8>)
    ensures
        r@.len() == n,
        le_nat(r@) == 0,
{
    let mut r: Vec<u8> = Vec::new();
    let mut i: usize = 0;
    while i < n
        invariant
            i <= n,
            r@.len() == i,
            forall|j: int| 0 <= j < i ==> r@[j] == 0,
        decreases n - i,
    {
        r.push(0);
        i += 1;
    }
    proof {
        lemma_le_nat_zero(r@);
    }
    r
}

/// Whether every byte is zero, that is whether the number denoted is zero.
fn is_zero_bytes(c: &Vec<u8>) -> (r: bool)
    ensures
        r == (le_nat(c@) == 0),
{
    proof {
        lemma_le_nat_zero(c@);
    }
    let mut i: usize = 0;
    while i < c.len()
        invariant
            i <= c.len(),
            forall|j: int| 0 <= j < i ==> c@[j] == 0,
        decreases c.len() - i,
    {
        if c[i] != 0 {
            proof {
                lemma_le_nat_zero(c@);
                assert(c@[i as int] != 0);
            }
            return false;
        }
        i += 1;
    }
    true
}

/// Difference of two little-endian numbers of one width, the first no smaller.
pub fn sub_le(a: &Vec<u8>, b: &Vec<u8>) -> (r: Vec<u8>)
    requires
        a@.len() == b@.len(),
        le_nat(b@) <= le_nat(a@),
    ensures
        r@.len() == a@.len(),
        le_nat(r@) + le_nat(b@) == le_nat(a@),
{
    let mut r: Vec<u8> = Vec::new();
    let mut borrow: u8 = 0;
    let mut i: usize = 0;
    proof {
        power::lemma_pow0(256);
        assert(a@.subrange(0, 0) =~= Seq::<u8>::empty());
        assert(b@.subrange(0, 0) =~= Seq::<u8>::empty());
    }
    while i < a.len()
        invariant
            i <= a@.len(),
            a@.len() == b@.len(),
            r@.len() == i,
            borrow <= 1,
            le_nat(a@.subrange(0, i as int)) + borrow as nat * power::pow(256, i as nat)
                == le_nat(b@.subrange(0, i as int)) + le_nat(r@),
        decreases a@.len() - i,
    {
        let ai: u8 = a[i];
        let bi: u8 = b[i];
        let d: u8;
        let nb: u8;
        if (ai as u16) >= (bi as u16) + (borrow as u16) {
            d = ai - bi - borrow;
            nb = 0;
        } else {
            d = ((ai as u16) + 256 - (bi as u16) - (borrow as u16)) as u8;
            nb = 1;
        }
        proof {
            let ii = i as int;
            assert(a@.subrange(0, ii + 1) =~= a@.subrange(0, ii).push(ai));
            assert(b@.subrange(0, ii + 1) =~= b@.subrange(0, ii).push(bi));
            lemma_sub_step(a@.subrange(0, ii), b@.subrange(0, ii), r@, ai, bi, d, borrow, nb);
        }
        r.push(d);
        borrow = nb;
        i += 1;
    }
    proof {
        assert(a@.subrange(0, a@.len() as int) =~= a@);
        assert(b@.subrange(0, b@.len() as int) =~= b@);
        lemma_le_nat_bound(r@);
        if borrow == 1 {
            assert(le_nat(a@) + power::pow(256, r@.len()) == le_nat(b@) + le_nat(r@));
            assert(false);
        }
    }
    r
}

/// One digit of a subtraction with borrow keeps the running identity.
proof fn lemma_sub_step(a: Seq<u8>, b: Seq<u8>, r: Seq<u8>, ai: u8, bi: u8, d: u8, borrow: u8, nb: u8)
    requires
        a.len() == b.len(),
        r.len() == a.len(),
        le_nat(a) + borrow as nat * power::pow(256, a.len()) == le_nat(b) + le_nat(r),
        ai as int + 256 * nb as int == bi as int + d as int + borrow as int,
    ensures
        le_nat(a.push(ai)) + nb as nat * power::pow(256, a.len() + 1) == le_nat(b.push(bi)) + le_nat(r.push(d)),
{
    lemma_le_nat_push(a, ai);
    lemma_le_nat_push(b, bi);
    lemma_le_nat_push(r, d);
    power::lemma_pow_adds(256, a.len(), 1);
    power::lemma_pow1(256);
    let p = power::pow(256, a.len());
    assert(power::pow(256, a.len() + 1) == p * 256);
    assert(ai as int * p + nb as int * (p * 256) == bi as int * p + d as int * p + borrow as int * p) by (nonlinear_arith)
        requires ai as int + 256 * nb as int == bi as int + d as int + borrow as int;
}

/// Negation in the base field, on the 32-byte serialization.
pub fn fq_neg_bytes(c: &Vec<u8>) -> (r: Vec<u8>)
    requires
        is_fq(c@),
    ensures
        is_fq(r@),
        le_nat(r@) == fq_neg(le_nat(c@)),
{
    if is_zero_bytes(c) {
        let r = zero_bytes(32);
        proof {
            lemma_le_nat_zero(r@);
        }
        r
    } else {
        let m = fq_modulus_bytes();
        sub_le(&m, c)
    }
}

} // verus!
