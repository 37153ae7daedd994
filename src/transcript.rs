//! The Fiat–Shamir transcript that the verification algorithm reads, with a
//! null variant of fixed placeholder values and a selector that forwards to
//! either a real proof-reading transcript or the null one.
//!
//! The null variant lets the same verification algorithm run without a proof,
//! only to list the transcript operations that a circuit's verification makes.
use vstd::prelude::*;
use crate::encode::G1Point;

verus! {

/// A failure of a transcript operation, such as reading past the end of the
/// proof bytes.
#[derive(Clone, Copy, Debug, PartialEq, Eq, Structural)]
pub enum TranscriptError {
    ProofExhausted,
    Malformed,
}

/// The view of a G1 point: `None` for the identity, else its two coordinates.
pub open spec fn point_view(p: G1Point) -> Option<(Seq<u8>, Seq<u8>)> {
    match p {
        G1Point::Identity => None,
        G1Point::Affine { x, y } => Some((x@, y@)),
    }
}

/// The view of a read point.
pub open spec fn point_result_view(r: Result<G1Point, TranscriptError>) -> Result<
    Option<(Seq<u8>, Seq<u8>)>,
    TranscriptError,
> {
    match r {
        Ok(p) => Ok(point_view(p)),
        Err(e) => Err(e),
    }
}

/// The view of a read scalar.
pub open spec fn bytes_result_view(r: Result<Vec<u8>, TranscriptError>) -> Result<
    Seq<u8>,
    TranscriptError,
> {
    match r {
        Ok(b) => Ok(b@),
        Err(e) => Err(e),
    }
}

/// The operations of a transcript. A scalar is 32 little-endian bytes of the
/// scalar field, and so is a challenge. Each operation is described by a spec
/// function from the view of the state before it to the view of the state
/// after it and the view of what it returns.
pub trait SolidityTranscript: View + Sized {
    spec fn spec_read_point(s: Self::V) -> (Self::V, Result<Option<(Seq<u8>, Seq<u8>)>, TranscriptError>);

    spec fn spec_read_scalar(s: Self::V) -> (Self::V, Result<Seq<u8>, TranscriptError>);

    spec fn spec_squeeze_challenge(s: Self::V) -> (Self::V, Seq<u8>);

    spec fn spec_common_point(s: Self::V, point: Option<(Seq<u8>, Seq<u8>)>) -> (Self::V, Result<(), TranscriptError>);

    spec fn spec_common_scalar(s: Self::V, scalar: Seq<u8>) -> (Self::V, Result<(), TranscriptError>);

    /// Reads a point of the proof and absorbs it.
    fn read_point(&mut self) -> (r: Result<G1Point, TranscriptError>)
        ensures
            (final(self)@, point_result_view(r)) == Self::spec_read_point(old(self)@),
    ;

    /// Reads a scalar of the proof and absorbs it.
    fn read_scalar(&mut self) -> (r: Result<Vec<u8>, TranscriptError>)
        ensures
            (final(self)@, bytes_result_view(r)) == Self::spec_read_scalar(old(self)@),
    ;

    /// Draws a challenge from what was absorbed.
    fn squeeze_challenge(&mut self) -> (r: Vec<u8>)
        ensures
            (final(self)@, r@) == Self::spec_squeeze_challenge(old(self)@),
    ;

    /// Absorbs a point known to both sides.
    fn common_point(&mut self, point: G1Point) -> (r: Result<(), TranscriptError>)
        ensures
            (final(self)@, r) == Self::spec_common_point(old(self)@, point_view(point)),
    ;

    /// Absorbs a scalar known to both sides.
    fn common_scalar(&mut self, scalar: Vec<u8>) -> (r: Result<(), TranscriptError>)
        ensures
            (final(self)@, r) == Self::spec_common_scalar(old(self)@, scalar@),
    ;
}

/// Little-endian bytes of the principal 2^28-th root of unity of the BN254
/// scalar field.
pub open spec fn root_of_unity_seq() -> Seq<u8> {
    seq![
        0x9cu8, 0x7c, 0xc3, 0x60, 0xd9, 0x1e, 0x4f, 0xd3, 0xc8, 0x29, 0x93, 0xd3, 0x6d, 0xcf, 0x15,
        0x32, 0x74, 0x1f, 0xd3, 0x3d, 0xa9, 0x5e, 0x86, 0x98, 0xb7, 0x18, 0x6d, 0x16, 0xf5, 0xb9,
        0xdd, 0x03,
    ]
}

/// The null challenge: 32 zero bytes.
pub open spec fn zero_challenge_seq() -> Seq<u8> {
    Seq::new(32, |i: int| 0u8)
}

pub fn root_of_unity_bytes() -> (r: Vec<u8>)
    ensures
        r@ == root_of_unity_seq(),
{
    let r: Vec<u8> = vec![
        0x9cu8, 0x7c, 0xc3, 0x60, 0xd9, 0x1e, 0x4f, 0xd3, 0xc8, 0x29, 0x93, 0xd3, 0x6d, 0xcf, 0x15,
        0x32, 0x74, 0x1f, 0xd3, 0x3d, 0xa9, 0x5e, 0x86, 0x98, 0xb7, 0x18, 0x6d, 0x16, 0xf5, 0xb9,
        0xdd, 0x03,
    ];
    proof {
        assert(r@ =~= root_of_unity_seq());
    }
    r
}

pub fn zero_challenge() -> (r: Vec<u8>)
    ensures
        r@ == zero_challenge_seq(),
{
    let mut r: Vec<u8> = Vec::new();
    let mut i: usize = 0;
    while i < 32
        invariant
            i <= 32,
            r@ == Seq::new(i as nat, |j: int| 0u8),
        decreases 32 - i,
    {
        r.push(0);
        i += 1;
        assert(r@ =~= Seq::new(i as nat, |j: int| 0u8));
    }
    r
}

/// The null transcript: it holds no state, reads nothing, and returns the
/// same placeholder values on every call.
#[derive(Clone, Copy, Debug, PartialEq, Eq, Structural)]
pub struct SolidityShaRead {}

impl SolidityShaRead {
    pub fn init() -> (r: Self) {
        SolidityShaRead {  }
    }
}

impl View for SolidityShaRead {
    type V = ();

    open spec fn view(&self) -> () {
        ()
    }
}

impl SolidityTranscript for SolidityShaRead {
    open spec fn spec_read_point(s: ()) -> ((), Result<Option<(Seq<u8>, Seq<u8>)>, TranscriptError>) {
        ((), Ok(None))
    }

    open spec fn spec_read_scalar(s: ()) -> ((), Result<Seq<u8>, TranscriptError>) {
        ((), Ok(root_of_unity_seq()))
    }

    open spec fn spec_squeeze_challenge(s: ()) -> ((), Seq<u8>) {
        ((), zero_challenge_seq())
    }

    open spec fn spec_common_point(s: (), point: Option<(Seq<u8>, Seq<u8>)>) -> ((), Result<(), TranscriptError>) {
        ((), Ok(()))
    }

    open spec fn spec_common_scalar(s: (), scalar: Seq<u8>) -> ((), Result<(), TranscriptError>) {
        ((), Ok(()))
    }

    fn read_point(&mut self) -> (r: Result<G1Point, TranscriptError>) {
        Ok(G1Point::Identity)
    }

    fn read_scalar(&mut self) -> (r: Result<Vec<u8>, TranscriptError>) {
        Ok(root_of_unity_bytes())
    }

    fn squeeze_challenge(&mut self) -> (r: Vec<u8>) {
        zero_challenge()
    }

    fn common_point(&mut self, point: G1Point) -> (r: Result<(), TranscriptError>) {
        Ok(())
    }

    fn common_scalar(&mut self, scalar: Vec<u8>) -> (r: Result<(), TranscriptError>) {
        Ok(())
    }
}

/// A choice, made at construction, between a real transcript over proof bytes
/// and the null transcript. Each operation goes to the chosen one.
pub enum SolidityShaSelector<R: SolidityTranscript> {
    ShaRead(R),
    SolidityShaRead(SolidityShaRead),
}

/// The view of a selector: which variant, with the real one's view.
pub enum SelectorView<V> {
    ShaRead(V),
    SolidityShaRead,
}

impl<R: SolidityTranscript> View for SolidityShaSelector<R> {
    type V = SelectorView<R::V>;

    open spec fn view(&self) -> SelectorView<R::V> {
        match *self {
            SolidityShaSelector::ShaRead(r) => SelectorView::ShaRead(r@),
            SolidityShaSelector::SolidityShaRead(_) => SelectorView::SolidityShaRead,
        }
    }
}

impl<R: SolidityTranscript> SolidityTranscript for SolidityShaSelector<R> {
    open spec fn spec_read_point(s: SelectorView<R::V>) -> (SelectorView<R::V>, Result<Option<(Seq<u8>, Seq<u8>)>, TranscriptError>) {
        match s {
            SelectorView::ShaRead(v) => (SelectorView::ShaRead(R::spec_read_point(v).0), R::spec_read_point(v).1),
            SelectorView::SolidityShaRead => (s, SolidityShaRead::spec_read_point(()).1),
        }
    }

    open spec fn spec_read_scalar(s: SelectorView<R::V>) -> (SelectorView<R::V>, Result<Seq<u8>, TranscriptError>) {
        match s {
            SelectorView::ShaRead(v) => (SelectorView::ShaRead(R::spec_read_scalar(v).0), R::spec_read_scalar(v).1),
            SelectorView::SolidityShaRead => (s, SolidityShaRead::spec_read_scalar(()).1),
        }
    }

    open spec fn spec_squeeze_challenge(s: SelectorView<R::V>) -> (SelectorView<R::V>, Seq<u8>) {
        match s {
            SelectorView::ShaRead(v) => (SelectorView::ShaRead(R::spec_squeeze_challenge(v).0), R::spec_squeeze_challenge(v).1),
            SelectorView::SolidityShaRead => (s, SolidityShaRead::spec_squeeze_challenge(()).1),
        }
    }

    open spec fn spec_common_point(s: SelectorView<R::V>, point: Option<(Seq<u8>, Seq<u8>)>) -> (SelectorView<R::V>, Result<(), TranscriptError>) {
        match s {
            SelectorView::ShaRead(v) => (SelectorView::ShaRead(R::spec_common_point(v, point).0), R::spec_common_point(v, point).1),
            SelectorView::SolidityShaRead => (s, SolidityShaRead::spec_common_point((), point).1),
        }
    }

    open spec fn spec_common_scalar(s: SelectorView<R::V>, scalar: Seq<u8>) -> (SelectorView<R::V>, Result<(), TranscriptError>) {
        match s {
            SelectorView::ShaRead(v) => (SelectorView::ShaRead(R::spec_common_scalar(v, scalar).0), R::spec_common_scalar(v, scalar).1),
            SelectorView::SolidityShaRead => (s, SolidityShaRead::spec_common_scalar((), scalar).1),
        }
    }

    fn read_point(&mut self) -> (r: Result<G1Point, TranscriptError>) {
        match self {
            SolidityShaSelector::ShaRead(hasher) => hasher.read_point(),
            SolidityShaSelector::SolidityShaRead(hasher) => hasher.read_point(),
        }
    }

    fn read_scalar(&mut self) -> (r: Result<Vec<u8>, TranscriptError>) {
        match self {
            SolidityShaSelector::ShaRead(hasher) => hasher.read_scalar(),
            SolidityShaSelector::SolidityShaRead(hasher) => hasher.read_scalar(),
        }
    }

    fn squeeze_challenge(&mut self) -> (r: Vec<u8>) {
        match self {
            SolidityShaSelector::ShaRead(hasher) => hasher.squeeze_challenge(),
            SolidityShaSelector::SolidityShaRead(hasher) => hasher.squeeze_challenge(),
        }
    }

    fn common_point(&mut self, point: G1Point) -> (r: Result<(), TranscriptError>) {
        match self {
            SolidityShaSelector::ShaRead(hasher) => hasher.common_point(point),
            SolidityShaSelector::SolidityShaRead(hasher) => hasher.common_point(point),
        }
    }

    fn common_scalar(&mut self, scalar: Vec<u8>) -> (r: Result<(), TranscriptError>) {
        match self {
            SolidityShaSelector::ShaRead(hasher) => hasher.common_scalar(scalar),
            SolidityShaSelector::SolidityShaRead(hasher) => hasher.common_scalar(scalar),
        }
    }
}

/// One transcript operation, with the view of its argument.
pub enum TranscriptOp {
    ReadPoint,
    ReadScalar,
    SqueezeChallenge,
    CommonPoint(Option<(Seq<u8>, Seq<u8>)>),
    CommonScalar(Seq<u8>),
}

/// The view of what one transcript operation returns.
pub enum TranscriptValue {
    Point(Option<(Seq<u8>, Seq<u8>)>),
    Scalar(Seq<u8>),
    Challenge(Seq<u8>),
    Absorbed,
}

/// One operation on a transcript in state `s`: the next state and the result.
pub open spec fn step<T: SolidityTranscript>(s: T::V, op: TranscriptOp) -> (T::V, Result<TranscriptValue, TranscriptError>) {
    match op {
        TranscriptOp::ReadPoint => {
            let (n, r) = T::spec_read_point(s);
            (n, match r { Ok(p) => Ok(TranscriptValue::Point(p)), Err(e) => Err(e) })
        },
        TranscriptOp::ReadScalar => {
            let (n, r) = T::spec_read_scalar(s);
            (n, match r { Ok(b) => Ok(TranscriptValue::Scalar(b)), Err(e) => Err(e) })
        },
        TranscriptOp::SqueezeChallenge => {
            let (n, c) = T::spec_squeeze_challenge(s);
            (n, Ok(TranscriptValue::Challenge(c)))
        },
        TranscriptOp::CommonPoint(p) => {
            let (n, r) = T::spec_common_point(s, p);
            (n, match r { Ok(_) => Ok(TranscriptValue::Absorbed), Err(e) => Err(e) })
        },
        TranscriptOp::CommonScalar(b) => {
            let (n, r) = T::spec_common_scalar(s, b);
            (n, match r { Ok(_) => Ok(TranscriptValue::Absorbed), Err(e) => Err(e) })
        },
    }
}

/// The results of a sequence of operations run in order from state `s`.
pub open spec fn replay<T: SolidityTranscript>(s: T::V, ops: Seq<TranscriptOp>) -> Seq<Result<TranscriptValue, TranscriptError>>
    decreases ops.len(),
{
    if ops.len() == 0 {
        Seq::empty()
    } else {
        let (n, r) = step::<T>(s, ops[0]);
        seq![r] + replay::<T>(n, ops.drop_first())
    }
}

/// What the null transcript returns for an operation.
pub open spec fn null_result(op: TranscriptOp) -> Result<TranscriptValue, TranscriptError> {
    match op {
        TranscriptOp::ReadPoint => Ok(TranscriptValue::Point(None)),
        TranscriptOp::ReadScalar => Ok(TranscriptValue::Scalar(root_of_unity_seq())),
        TranscriptOp::SqueezeChallenge => Ok(TranscriptValue::Challenge(zero_challenge_seq())),
        TranscriptOp::CommonPoint(_) => Ok(TranscriptValue::Absorbed),
        TranscriptOp::CommonScalar(_) => Ok(TranscriptValue::Absorbed),
    }
}

/// Any run of operations on the null transcript succeeds throughout, and each
/// operation returns its fixed value, whatever came before it.
pub proof fn lemma_null_transcript_total(ops: Seq<TranscriptOp>)
    ensures
        replay::<SolidityShaRead>((), ops) == ops.map_values(|op: TranscriptOp| null_result(op)),
    decreases ops.len(),
{
    if ops.len() > 0 {
        lemma_null_transcript_total(ops.drop_first());
        assert(replay::<SolidityShaRead>((), ops) =~= ops.map_values(|op: TranscriptOp| null_result(op)));
    } else {
        assert(replay::<SolidityShaRead>((), ops) =~= ops.map_values(|op: TranscriptOp| null_result(op)));
    }
}

/// A selector made over a real transcript returns, for any run of operations,
/// what the real transcript returns on its own.
pub proof fn lemma_selector_forwards_real<R: SolidityTranscript>(v: R::V, ops: Seq<TranscriptOp>)
    ensures
        replay::<SolidityShaSelector<R>>(SelectorView::ShaRead(v), ops) == replay::<R>(v, ops),
    decreases ops.len(),
{
    if ops.len() > 0 {
        let n = step::<R>(v, ops[0]).0;
        assert(step::<SolidityShaSelector<R>>(SelectorView::ShaRead(v), ops[0]) == (SelectorView::<R::V>::ShaRead(n), step::<R>(v, ops[0]).1));
        lemma_selector_forwards_real::<R>(n, ops.drop_first());
    }
}

/// A selector made over the null transcript returns what the null transcript
/// returns.
pub proof fn lemma_selector_forwards_null<R: SolidityTranscript>(ops: Seq<TranscriptOp>)
    ensures
        replay::<SolidityShaSelector<R>>(SelectorView::SolidityShaRead, ops) == replay::<SolidityShaRead>((), ops),
    decreases ops.len(),
{
    if ops.len() > 0 {
        assert(step::<SolidityShaSelector<R>>(SelectorView::SolidityShaRead, ops[0]) == (SelectorView::<R::V>::SolidityShaRead, step::<SolidityShaRead>((), ops[0]).1));
        lemma_selector_forwards_null::<R>(ops.drop_first());
    }
}

} // verus!
