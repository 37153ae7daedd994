//! The structural counts of a verifying key that size the loops and arrays of
//! the generated verifier contract.
use vstd::prelude::*;

verus! {

/// What the export reads of a circuit's verifying key.
#[derive(Clone, Debug)]
pub struct VkShape {
    /// Number of advice columns.
    pub num_advice_columns: usize,
    /// Number of lookup arguments.
    pub lookups: usize,
    /// Number of columns that the permutation argument spans.
    pub permutation_columns: usize,
    /// The constraint system's polynomial degree bound.
    pub cs_degree: usize,
    /// The degree of the quotient polynomial, as the key's domain gives it.
    pub quotient_poly_degree: usize,
    /// Number of instance column queries.
    pub instance_queries: usize,
    /// Number of advice column queries.
    pub advice_queries: usize,
    /// Number of fixed column queries.
    pub fixed_queries: usize,
    /// Number of commitments of the permutation argument in the key.
    pub permutation_commitments: usize,
    /// The key's pinned description, rendered as text: the input of the seed.
    pub pinned: String,
}

/// The counts handed to the contract template.
#[derive(Clone, Copy, Debug, PartialEq, Eq, Structural)]
pub struct StructuralCounts {
    pub n_advice: usize,
    pub lookups: usize,
    pub permutation_products: usize,
    pub degree: usize,
    pub evals: usize,
}

#[derive(Clone, Copy, Debug, PartialEq, Eq, Structural)]
pub enum ShapeError {
    /// The degree bound is below 3, so the permutation chunk size `degree - 2`
    /// is not positive.
    DegreeTooSmall,
    /// The evaluation count does not fit in `usize`.
    Overflow,
}

/// Number of chunks of size `k` that `n` items fall into: the ceiling of n / k.
pub open spec fn chunk_count(n: nat, k: nat) -> nat
    recommends
        k > 0,
{
    if n % k == 0 {
        n / k
    } else {
        n / k + 1
    }
}

/// Number of permutation products: the permutation columns in chunks of
/// `degree - 2`.
pub open spec fn permutation_product_count(columns: nat, degree: nat) -> nat {
    chunk_count(columns, (degree - 2) as nat)
}

/// Number of opening evaluations that the verifier reads.
pub open spec fn eval_count(
    instance_queries: nat,
    advice_queries: nat,
    fixed_queries: nat,
    permutation_commitments: nat,
    permutation_products: nat,
    lookups: nat,
) -> int {
    instance_queries + advice_queries + fixed_queries + 1 + permutation_commitments + 3
        * permutation_products - 1 + 5 * lookups
}

impl VkShape {
    /// The permutation product count of this key.
    pub open spec fn spec_permutation_products(&self) -> nat {
        permutation_product_count(self.permutation_columns as nat, self.cs_degree as nat)
    }

    /// The evaluation count of this key.
    pub open spec fn spec_evals(&self) -> int {
        eval_count(
            self.instance_queries as nat,
            self.advice_queries as nat,
            self.fixed_queries as nat,
            self.permutation_commitments as nat,
            self.spec_permutation_products(),
            self.lookups as nat,
        )
    }

    /// The counts are defined: the degree bound leaves a positive chunk size.
    pub open spec fn has_counts(&self) -> bool {
        self.cs_degree >= 3
    }
}

/// The ceiling of `n / k`, the number of chunks of size `k` in `n` items.
pub fn chunk_count_exec(n: usize, k: usize) -> (r: usize)
    requires
        k > 0,
    ensures
        r == chunk_count(n as nat, k as nat),
{
    if n % k == 0 {
        n / k
    } else {
        proof {
            vstd::arithmetic::div_mod::lemma_fundamental_div_mod(n as int, k as int);
            assert(n / k < n) by {
                if n / k >= n {
                    assert(k * (n / k) >= n) by (nonlinear_arith)
                        requires k >= 1, n / k >= n;
                }
            }
        }
        n / k + 1
    }
}

/// The structural counts of a verifying key: advice columns, lookups,
/// permutation products, quotient polynomial degree and evaluations.
pub fn structural_counts(vk: &VkShape) -> (r: Result<StructuralCounts, ShapeError>)
    ensures
        !vk.has_counts() ==> r == Err::<StructuralCounts, ShapeError>(ShapeError::DegreeTooSmall),
        vk.has_counts() && vk.spec_evals() > usize::MAX ==> r == Err::<StructuralCounts, ShapeError>(
            ShapeError::Overflow,
        ),
        vk.has_counts() && vk.spec_evals() <= usize::MAX ==> r == Ok::<StructuralCounts, ShapeError>(
            StructuralCounts {
                n_advice: vk.num_advice_columns,
                lookups: vk.lookups,
                permutation_products: vk.spec_permutation_products() as usize,
                degree: vk.quotient_poly_degree,
                evals: vk.spec_evals() as usize,
            },
        ),
{
    if vk.cs_degree < 3 {
        return Err(ShapeError::DegreeTooSmall);
    }
    let products = chunk_count_exec(vk.permutation_columns, vk.cs_degree - 2);
    let total: u128 = vk.instance_queries as u128 + vk.advice_queries as u128
        + vk.fixed_queries as u128 + 1 + vk.permutation_commitments as u128 + 3 * (products as u128)
        - 1 + 5 * (vk.lookups as u128);
    if total > usize::MAX as u128 {
        return Err(ShapeError::Overflow);
    }
    Ok(
        StructuralCounts {
            n_advice: vk.num_advice_columns,
            lookups: vk.lookups,
            permutation_products: products,
            degree: vk.quotient_poly_degree,
            evals: total as usize,
        },
    )
}

} // verus!
