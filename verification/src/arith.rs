//! Small nonlinear arithmetic lemmas shared by the whole kernel: products of
//! bounded factors stay bounded, squares are nonnegative, and the Lagrange
//! identity that ties the barycentric denominator to the squared cross
//! product.

use vstd::prelude::*;

verus! {

/// A product of bounded factors is bounded by the product of the bounds.
pub proof fn lemma_mul_bound(a: int, b: int, m: int, n: int)
    by (nonlinear_arith)
    requires
        -m <= a <= m,
        -n <= b <= n,
    ensures
        -(m * n) <= a * b <= m * n,
{
}

/// A product of strictly positive factors is strictly positive.
pub proof fn lemma_mul_pos(a: int, b: int)
    by (nonlinear_arith)
    requires
        a > 0,
        b > 0,
    ensures
        a * b > 0,
{
}

/// A product with a factor known to be zero vanishes.
pub proof fn lemma_mul_by_zero(a: int, b: int)
    by (nonlinear_arith)
    requires
        b == 0,
    ensures
        a * b == 0,
{
}

/// A product with a factor known to be one is the other factor.
pub proof fn lemma_mul_by_one(a: int, b: int)
    by (nonlinear_arith)
    requires
        a == 1,
    ensures
        a * b == b,
{
}

/// A square is nonnegative, and strictly positive off zero.
pub proof fn lemma_square_sign(a: int)
    by (nonlinear_arith)
    ensures
        a * a >= 0,
        a != 0 ==> a * a > 0,
{
}

/// Lagrange's identity in three dimensions: the Gram determinant of two
/// vectors equals the squared magnitude of their cross product.
pub proof fn lemma_lagrange(x1: int, y1: int, z1: int, x2: int, y2: int, z2: int)
    ensures
        (x1 * x1 + y1 * y1 + z1 * z1) * (x2 * x2 + y2 * y2 + z2 * z2) - (x1 * x2 + y1 * y2 + z1
            * z2) * (x1 * x2 + y1 * y2 + z1 * z2) == (y1 * z2 - z1 * y2) * (y1 * z2 - z1 * y2) + (
        z1 * x2 - x1 * z2) * (z1 * x2 - x1 * z2) + (x1 * y2 - y1 * x2) * (x1 * y2 - y1 * x2),
{
    // Expand both sides into a common set of canonical monomials, one tiny
    // ring identity at a time, and let linear arithmetic assemble them.
    lemma_mul_sums3(x1 * x1, y1 * y1, z1 * z1, x2 * x2, y2 * y2, z2 * z2);
    lemma_mul_sums3(x1 * x2, y1 * y2, z1 * z2, x1 * x2, y1 * y2, z1 * z2);
    lemma_mul_rearrange(x1, x2, x1, x2);
    lemma_mul_rearrange(y1, y2, y1, y2);
    lemma_mul_rearrange(z1, z2, z1, z2);
    lemma_mul_comm(y1 * y2, x1 * x2);
    lemma_mul_comm(z1 * z2, x1 * x2);
    lemma_mul_comm(z1 * z2, y1 * y2);
    lemma_sq_diff(y1, z2, z1, y2);
    lemma_sq_diff(z1, x2, x1, z2);
    lemma_sq_diff(x1, y2, y1, x2);
}

/// Multiplication commutes.
pub proof fn lemma_mul_comm(p: int, q: int)
    by (nonlinear_arith)
    ensures
        p * q == q * p,
{
}

/// The square of a binomial.
pub proof fn lemma_binomial(p: int, q: int)
    by (nonlinear_arith)
    ensures
        (p - q) * (p - q) == p * p - 2 * (p * q) + q * q,
{
}

/// Factors of a product of products can be regrouped.
pub proof fn lemma_mul_rearrange(a: int, b: int, c: int, d: int)
    by (nonlinear_arith)
    ensures
        (a * b) * (c * d) == (a * c) * (b * d),
        (a * b) * (c * d) == (a * d) * (c * b),
{
}

/// Distribution of a product of two three-term sums.
pub proof fn lemma_mul_sums3(a1: int, a2: int, a3: int, b1: int, b2: int, b3: int)
    by (nonlinear_arith)
    ensures
        (a1 + a2 + a3) * (b1 + b2 + b3) == a1 * b1 + a1 * b2 + a1 * b3 + a2 * b1 + a2 * b2 + a2
            * b3 + a3 * b1 + a3 * b2 + a3 * b3,
{
}

/// The square of the difference of two products, over canonical monomials.
pub proof fn lemma_sq_diff(a: int, b: int, c: int, d: int)
    ensures
        (a * b - c * d) * (a * b - c * d) == (a * a) * (b * b) - 2 * ((a * d) * (c * b)) + (c * c)
            * (d * d),
{
    lemma_binomial(a * b, c * d);
    lemma_mul_rearrange(a, b, a, b);
    lemma_mul_rearrange(a, b, c, d);
    lemma_mul_rearrange(c, d, c, d);
}

} // verus!
