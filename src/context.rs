//! The values that the verifier contract template is filled with, computed
//! from the SRS parameters of the two circuits and the verifying key.
use vstd::prelude::*;
use crate::encode;
use crate::encode::{
    encode_g1_list, encode_g2, encode_neg_g2, EncodeError, G1Encoding, G1Point, G2Encoding, G2Point,
};
use crate::seed;
use crate::seed::init_scalar;
use crate::shape::{structural_counts, ShapeError, VkShape};

verus! {

/// What the export reads of a circuit's SRS parameters.
#[derive(Clone, Debug)]
pub struct VerifierParams {
    /// The G2 generator.
    pub g2: G2Point,
    /// The G2 generator multiplied by the secret.
    pub s_g2: G2Point,
    /// The G1 commitments to the Lagrange basis, one per row of the domain.
    pub g_lagrange: Vec<G1Point>,
}

impl VerifierParams {
    pub open spec fn wf(&self) -> bool {
        self.g2.wf() && self.s_g2.wf()
    }

    /// Every point that the export encodes has affine coordinates.
    pub open spec fn encodable(&self) -> bool {
        self.g2 is Affine && self.s_g2 is Affine && encode::all_affine(self.g_lagrange@)
    }
}

/// The template's values before the proof-derived ones are added.
#[derive(Clone, Debug)]
pub struct VerifierContext {
    pub target_circuit_s_g2: G2Encoding,
    pub target_circuit_n_g2: G2Encoding,
    pub verify_circuit_s_g2: G2Encoding,
    pub verify_circuit_n_g2: G2Encoding,
    pub verify_circuit_lagrange_commitments: Vec<G1Encoding>,
    pub target_circuit_lagrange_commitments: Vec<G1Encoding>,
    pub init_scalar: String,
    pub n_advice: usize,
    pub lookups: usize,
    pub permutation_products: usize,
    pub degree: usize,
    pub evals: usize,
}

#[derive(Clone, Copy, Debug, PartialEq, Eq, Structural)]
pub enum ExportError {
    Encode(EncodeError),
    Shape(ShapeError),
}

/// `e` encodes the affine G2 point `p`.
pub open spec fn g2_point_encodes(p: G2Point, e: G2Encoding) -> bool {
    match p {
        G2Point::Affine { x, y } => encode::g2_encodes(x@, y@, e),
        G2Point::Identity => false,
    }
}

/// `e` encodes the negation of the affine G2 point `p`.
pub open spec fn g2_point_neg_encodes(p: G2Point, e: G2Encoding) -> bool {
    match p {
        G2Point::Affine { x, y } => encode::g2_neg_encodes(x@, y@, e),
        G2Point::Identity => false,
    }
}

/// The points of one circuit's parameters are encoded in `c` under the
/// names of that circuit.
pub open spec fn params_encoded(
    p: VerifierParams,
    s_g2: G2Encoding,
    n_g2: G2Encoding,
    lagrange: Seq<G1Encoding>,
) -> bool {
    &&& g2_point_encodes(p.s_g2, s_g2)
    &&& g2_point_neg_encodes(p.g2, n_g2)
    &&& encode::g1_list_encodes(p.g_lagrange@, lagrange)
}

/// Encodes the points of one circuit's parameters: the shifted generator, the
/// negated generator and the Lagrange commitments.
fn encode_params(p: &VerifierParams) -> (r: Result<(G2Encoding, G2Encoding, Vec<G1Encoding>), EncodeError>)
    requires
        p.wf(),
    ensures
        p.encodable() ==> r is Ok && params_encoded(*p, r->Ok_0.0, r->Ok_0.1, r->Ok_0.2@),
        !p.encodable() ==> r == Err::<(G2Encoding, G2Encoding, Vec<G1Encoding>), EncodeError>(
            EncodeError::PointAtInfinity,
        ),
{
    let s_g2 = match encode_g2(&p.s_g2) {
        Ok(e) => e,
        Err(e) => {
            return Err(e);
        },
    };
    let n_g2 = match encode_neg_g2(&p.g2) {
        Ok(e) => e,
        Err(e) => {
            return Err(e);
        },
    };
    let lagrange = match encode_g1_list(&p.g_lagrange) {
        Ok(l) => l,
        Err(e) => {
            return Err(e);
        },
    };
    Ok((s_g2, n_g2, lagrange))
}

/// Builds the template's values for a verifier of the verify circuit that
/// also checks the target circuit: the encoded points of both circuits'
/// parameters, the Fiat–Shamir seed and the structural counts of the key.
///
/// It fails when a point to encode is the identity, or when the key's counts
/// are not defined or do not fit.
pub fn build_verifier_context(
    target: &VerifierParams,
    verify: &VerifierParams,
    vk: &VkShape,
) -> (r: Result<VerifierContext, ExportError>)
    requires
        target.wf(),
        verify.wf(),
    ensures
        !(target.encodable() && verify.encodable()) ==> r == Err::<VerifierContext, ExportError>(
            ExportError::Encode(EncodeError::PointAtInfinity),
        ),
        target.encodable() && verify.encodable() && !vk.has_counts() ==> r == Err::<
            VerifierContext,
            ExportError,
        >(ExportError::Shape(ShapeError::DegreeTooSmall)),
        target.encodable() && verify.encodable() && vk.has_counts() && vk.spec_evals()
            > usize::MAX ==> r == Err::<VerifierContext, ExportError>(
            ExportError::Shape(ShapeError::Overflow),
        ),
        target.encodable() && verify.encodable() && vk.has_counts() && vk.spec_evals()
            <= usize::MAX ==> r is Ok && ({
            let c = r->Ok_0;
            &&& params_encoded(
                *target,
                c.target_circuit_s_g2,
                c.target_circuit_n_g2,
                c.target_circuit_lagrange_commitments@,
            )
            &&& params_encoded(
                *verify,
                c.verify_circuit_s_g2,
                c.verify_circuit_n_g2,
                c.verify_circuit_lagrange_commitments@,
            )
            &&& c.init_scalar@ == seed::seed_of_pinned(vk.pinned@)
            &&& c.n_advice == vk.num_advice_columns
            &&& c.lookups == vk.lookups
            &&& c.permutation_products == vk.spec_permutation_products()
            &&& c.degree == vk.quotient_poly_degree
            &&& c.evals == vk.spec_evals()
        }),
{
    let (t_s_g2, t_n_g2, t_lagrange) = match encode_params(target) {
        Ok(t) => t,
        Err(e) => {
            return Err(ExportError::Encode(e));
        },
    };
    let (v_s_g2, v_n_g2, v_lagrange) = match encode_params(verify) {
        Ok(t) => t,
        Err(e) => {
            return Err(ExportError::Encode(e));
        },
    };
    let seed = init_scalar(vk);
    let counts = match structural_counts(vk) {
        Ok(c) => c,
        Err(e) => {
            return Err(ExportError::Shape(e));
        },
    };
    Ok(
        VerifierContext {
            target_circuit_s_g2: t_s_g2,
            target_circuit_n_g2: t_n_g2,
            verify_circuit_s_g2: v_s_g2,
            verify_circuit_n_g2: v_n_g2,
            verify_circuit_lagrange_commitments: v_lagrange,
            target_circuit_lagrange_commitments: t_lagrange,
            init_scalar: seed,
            n_advice: counts.n_advice,
            lookups: counts.lookups,
            permutation_products: counts.permutation_products,
            degree: counts.degree,
            evals: counts.evals,
        },
    )
}

} // verus!
