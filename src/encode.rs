//! Curve points in the coordinate encoding of the EVM pairing precompile.
//!
//! A base field element is held as its native serialization, 32 little-endian
//! bytes. An element of the quadratic extension is 64 bytes: the first
//! component's 32 bytes, then the second's. The precompile takes the two
//! components in the opposite order, so the encoder swaps the halves.
use vstd::prelude::*;
use crate::field;
use crate::field::{fq_neg_bytes, le_to_decimal};

verus! {

/// A point of the base curve group G1, in affine coordinates.
#[derive(Clone, Debug)]
pub enum G1Point {
    Identity,
    Affine { x: Vec<u8>, y: Vec<u8> },
}

/// A point of the extension-field group G2, in affine coordinates; each
/// coordinate is the 64-byte native serialization of an extension element.
#[derive(Clone, Debug)]
pub enum G2Point {
    Identity,
    Affine { x: Vec<u8>, y: Vec<u8> },
}

/// Both components of a serialized extension element are base field elements.
pub open spec fn is_fq2(s: Seq<u8>) -> bool {
    s.len() == 64 && field::is_fq(s.subrange(0, 32)) && field::is_fq(s.subrange(32, 64))
}

impl G1Point {
    pub open spec fn wf(&self) -> bool {
        match *self {
            G1Point::Identity => true,
            G1Point::Affine { x, y } => field::is_fq(x@) && field::is_fq(y@),
        }
    }
}

impl G2Point {
    pub open spec fn wf(&self) -> bool {
        match *self {
            G2Point::Identity => true,
            G2Point::Affine { x, y } => is_fq2(x@) && is_fq2(y@),
        }
    }
}

/// A G1 point as two decimal integers.
#[derive(Clone, Debug)]
pub struct G1Encoding {
    pub x: String,
    pub y: String,
}

/// A G2 point as four decimal integers, in the precompile's order.
#[derive(Clone, Debug)]
pub struct G2Encoding {
    pub x0: String,
    pub x1: String,
    pub y0: String,
    pub y1: String,
}

#[derive(Clone, Copy, Debug, PartialEq, Eq, Structural)]
pub enum EncodeError {
    /// The point at infinity has no affine coordinates to encode.
    PointAtInfinity,
}

/// The halves of a serialized extension element in the precompile's order:
/// the second 32 bytes, then the first.
pub open spec fn evm_halves(s: Seq<u8>) -> (Seq<u8>, Seq<u8>) {
    (s.subrange(32, 64), s.subrange(0, 32))
}

/// The native serialization back from the precompile's two halves.
pub open spec fn native_of_evm(h0: Seq<u8>, h1: Seq<u8>) -> Seq<u8> {
    h1 + h0
}

/// The decimal pair of a G1 point's coordinates.
pub open spec fn g1_encodes(x: Seq<u8>, y: Seq<u8>, e: G1Encoding) -> bool {
    e.x@ == field::decimal(field::le_nat(x)) && e.y@ == field::decimal(field::le_nat(y))
}

/// The four decimals of a G2 point's coordinates, halves swapped.
pub open spec fn g2_encodes(x: Seq<u8>, y: Seq<u8>, e: G2Encoding) -> bool {
    &&& e.x0@ == field::decimal(field::le_nat(evm_halves(x).0))
    &&& e.x1@ == field::decimal(field::le_nat(evm_halves(x).1))
    &&& e.y0@ == field::decimal(field::le_nat(evm_halves(y).0))
    &&& e.y1@ == field::decimal(field::le_nat(evm_halves(y).1))
}

/// The bytes `s[lo..hi]`.
pub fn copy_range(s: &Vec<u8>, lo: usize, hi: usize) -> (r: Vec<u8>)
    requires
        lo <= hi <= s@.len(),
    ensures
        r@ == s@.subrange(lo as int, hi as int),
{
    let mut r: Vec<u8> = Vec::new();
    let mut i: usize = lo;
    while i < hi
        invariant
            lo <= i <= hi <= s@.len(),
            r@ == s@.subrange(lo as int, i as int),
        decreases hi - i,
    {
        r.push(s[i]);
        i += 1;
        assert(r@ =~= s@.subrange(lo as int, i as int));
    }
    r
}

/// Splits a serialized extension element into the precompile's order.
pub fn g2_evm_halves(s: &Vec<u8>) -> (r: (Vec<u8>, Vec<u8>))
    requires
        s@.len() == 64,
    ensures
        (r.0@, r.1@) == evm_halves(s@),
{
    (copy_range(s, 32, 64), copy_range(s, 0, 32))
}

/// Joins the precompile's two halves back into the native serialization.
pub fn g2_native_of_evm(h0: &Vec<u8>, h1: &Vec<u8>) -> (r: Vec<u8>)
    ensures
        r@ == native_of_evm(h0@, h1@),
{
    let mut r: Vec<u8> = Vec::new();
    let mut i: usize = 0;
    while i < h1.len()
        invariant
            i <= h1@.len(),
            r@ == h1@.subrange(0, i as int),
        decreases h1@.len() - i,
    {
        r.push(h1[i]);
        i += 1;
        assert(r@ =~= h1@.subrange(0, i as int));
    }
    let mut j: usize = 0;
    while j < h0.len()
        invariant
            j <= h0@.len(),
            r@ == h1@ + h0@.subrange(0, j as int),
        decreases h0@.len() - j,
    {
        r.push(h0[j]);
        j += 1;
        assert(r@ =~= h1@ + h0@.subrange(0, j as int));
    }
    assert(h0@.subrange(0, h0@.len() as int) =~= h0@);
    assert(h1@.subrange(0, h1@.len() as int) =~= h1@);
    r
}

/// Putting the precompile's halves back in native order gives the serialized
/// element that they came from.
pub proof fn lemma_evm_round_trip(s: Seq<u8>)
    requires
        s.len() == 64,
    ensures
        native_of_evm(evm_halves(s).0, evm_halves(s).1) == s,
{
    assert(s.subrange(0, 32) + s.subrange(32, 64) =~= s);
}

/// Encodes a G1 point as the decimals of its two coordinates.
pub fn encode_g1(p: &G1Point) -> (r: Result<G1Encoding, EncodeError>)
    ensures
        match *p {
            G1Point::Identity => r == Err::<G1Encoding, EncodeError>(EncodeError::PointAtInfinity),
            G1Point::Affine { x, y } => r is Ok && g1_encodes(x@, y@, r->Ok_0),
        },
{
    match p {
        G1Point::Identity => Err(EncodeError::PointAtInfinity),
        G1Point::Affine { x, y } => Ok(
            G1Encoding { x: le_to_decimal(x.as_slice()), y: le_to_decimal(y.as_slice()) },
        ),
    }
}

/// Encodes a G2 point as four decimals: for each coordinate, the second half
/// of its serialization, then the first.
pub fn encode_g2(p: &G2Point) -> (r: Result<G2Encoding, EncodeError>)
    requires
        p.wf(),
    ensures
        match *p {
            G2Point::Identity => r == Err::<G2Encoding, EncodeError>(EncodeError::PointAtInfinity),
            G2Point::Affine { x, y } => r is Ok && g2_encodes(x@, y@, r->Ok_0),
        },
{
    match p {
        G2Point::Identity => Err(EncodeError::PointAtInfinity),
        G2Point::Affine { x, y } => {
            let (x0, x1) = g2_evm_halves(x);
            let (y0, y1) = g2_evm_halves(y);
            Ok(
                G2Encoding {
                    x0: le_to_decimal(x0.as_slice()),
                    x1: le_to_decimal(x1.as_slice()),
                    y0: le_to_decimal(y0.as_slice()),
                    y1: le_to_decimal(y1.as_slice()),
                },
            )
        },
    }
}

/// `r` is the extension element `y` negated, component by component.
pub open spec fn is_fq2_neg(y: Seq<u8>, r: Seq<u8>) -> bool {
    &&& is_fq2(r)
    &&& field::le_nat(r.subrange(0, 32)) == field::fq_neg(field::le_nat(y.subrange(0, 32)))
    &&& field::le_nat(r.subrange(32, 64)) == field::fq_neg(field::le_nat(y.subrange(32, 64)))
}

/// The negated point: the same `x`, and `y` negated.
pub fn neg_g2(p: &G2Point) -> (r: G2Point)
    requires
        p.wf(),
    ensures
        r.wf(),
        match (*p, r) {
            (G2Point::Identity, G2Point::Identity) => true,
            (G2Point::Affine { x, y }, G2Point::Affine { x: rx, y: ry }) => rx@ == x@
                && is_fq2_neg(y@, ry@),
            _ => false,
        },
{
    match p {
        G2Point::Identity => G2Point::Identity,
        G2Point::Affine { x, y } => {
            let c0 = fq_neg_bytes(&copy_range(y, 0, 32));
            let c1 = fq_neg_bytes(&copy_range(y, 32, 64));
            let ny = g2_native_of_evm(&c1, &c0);
            assert(ny@.subrange(0, 32) =~= c0@);
            assert(ny@.subrange(32, 64) =~= c1@);
            let nx = copy_range(x, 0, 64);
            assert(nx@ =~= x@);
            G2Point::Affine { x: nx, y: ny }
        },
    }
}

/// The four decimals of the negated G2 point `(x, y)`: `x` as it is, each
/// component of `y` negated, halves swapped.
pub open spec fn g2_neg_encodes(x: Seq<u8>, y: Seq<u8>, e: G2Encoding) -> bool {
    &&& e.x0@ == field::decimal(field::le_nat(x.subrange(32, 64)))
    &&& e.x1@ == field::decimal(field::le_nat(x.subrange(0, 32)))
    &&& e.y0@ == field::decimal(field::fq_neg(field::le_nat(y.subrange(32, 64))))
    &&& e.y1@ == field::decimal(field::fq_neg(field::le_nat(y.subrange(0, 32))))
}

/// Encodes the negation of a G2 point.
pub fn encode_neg_g2(p: &G2Point) -> (r: Result<G2Encoding, EncodeError>)
    requires
        p.wf(),
    ensures
        match *p {
            G2Point::Identity => r == Err::<G2Encoding, EncodeError>(EncodeError::PointAtInfinity),
            G2Point::Affine { x, y } => r is Ok && g2_neg_encodes(x@, y@, r->Ok_0),
        },
{
    let n = neg_g2(p);
    encode_g2(&n)
}

/// Every point of the list has affine coordinates.
pub open spec fn all_affine(ps: Seq<G1Point>) -> bool {
    forall|i: int| 0 <= i < ps.len() ==> ps[i] is Affine
}

/// `es` holds, in order, the encodings of the points of `ps`.
pub open spec fn g1_list_encodes(ps: Seq<G1Point>, es: Seq<G1Encoding>) -> bool {
    &&& es.len() == ps.len()
    &&& forall|i: int| #![trigger es[i]] 0 <= i < ps.len() ==> match ps[i] {
        G1Point::Affine { x, y } => g1_encodes(x@, y@, es[i]),
        G1Point::Identity => false,
    }
}

/// Encodes a list of G1 points, in order; fails if any is the identity.
pub fn encode_g1_list(ps: &Vec<G1Point>) -> (r: Result<Vec<G1Encoding>, EncodeError>)
    ensures
        all_affine(ps@) ==> r is Ok && g1_list_encodes(ps@, r->Ok_0@),
        !all_affine(ps@) ==> r == Err::<Vec<G1Encoding>, EncodeError>(EncodeError::PointAtInfinity),
{
    let mut out: Vec<G1Encoding> = Vec::new();
    let mut i: usize = 0;
    while i < ps.len()
        invariant
            i <= ps@.len(),
            all_affine(ps@.subrange(0, i as int)),
            g1_list_encodes(ps@.subrange(0, i as int), out@),
        decreases ps@.len() - i,
    {
        match encode_g1(&ps[i]) {
            Ok(e) => {
                out.push(e);
            },
            Err(e) => {
                assert(!(ps@[i as int] is Affine));
                return Err(e);
            },
        }
        i += 1;
        assert(g1_list_encodes(ps@.subrange(0, i as int), out@)) by {
            assert forall|k: int| 0 <= k < i implies ps@.subrange(0, i as int)[k] == ps@[k] by {}
        }
        assert(all_affine(ps@.subrange(0, i as int))) by {
            assert forall|k: int| 0 <= k < i implies ps@.subrange(0, i as int)[k] == ps@[k] by {}
        }
    }
    assert(ps@.subrange(0, ps@.len() as int) =~= ps@);
    Ok(out)
}

} // verus!
