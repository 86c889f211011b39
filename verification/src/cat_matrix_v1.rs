//! Integer 2x2 matrices and their action on pairs, reduced modulo a positive
//! modulus: the algebra behind the cat map `[[1, 1], [1, 2]]`, its inverse
//! `[[2, -1], [-1, 1]]`, and square-and-multiply powers.

use vstd::arithmetic::div_mod::{lemma_add_mod_noop, lemma_mod_twice, lemma_mul_mod_noop};
use vstd::arithmetic::mul::{
    lemma_mul_is_associative, lemma_mul_is_distributive_add,
    lemma_mul_is_distributive_add_other_way,
};
use vstd::prelude::*;

verus! {

/// A matrix `[[a11, a12], [a21, a22]]` of integers.
pub type Mat2 = (int, int, int, int);

/// A pair of integers.
pub type Vec2 = (int, int);

pub open spec fn mat_identity() -> Mat2 {
    (1, 0, 0, 1)
}

/// The cat map `[[1, 1], [1, 2]]`.
pub open spec fn cat_matrix() -> Mat2 {
    (1, 1, 1, 2)
}

/// Its inverse over the integers, `[[2, -1], [-1, 1]]`.
pub open spec fn cat_inverse_matrix() -> Mat2 {
    (2, -1, -1, 1)
}

pub open spec fn mat_mul(a: Mat2, b: Mat2) -> Mat2 {
    (
        a.0 * b.0 + a.1 * b.2,
        a.0 * b.1 + a.1 * b.3,
        a.2 * b.0 + a.3 * b.2,
        a.2 * b.1 + a.3 * b.3,
    )
}

pub open spec fn mat_mod(a: Mat2, m: int) -> Mat2 {
    (a.0 % m, a.1 % m, a.2 % m, a.3 % m)
}

/// `a^n` over the integers.
pub open spec fn mat_pow(a: Mat2, n: nat) -> Mat2
    decreases n,
{
    if n == 0 {
        mat_identity()
    } else {
        mat_mul(a, mat_pow(a, (n - 1) as nat))
    }
}

pub open spec fn mat_apply(a: Mat2, v: Vec2) -> Vec2 {
    (a.0 * v.0 + a.1 * v.1, a.2 * v.0 + a.3 * v.1)
}

pub open spec fn vec_mod(v: Vec2, m: int) -> Vec2 {
    (v.0 % m, v.1 % m)
}

/// One cat-map step modulo `m`.
pub open spec fn cat_step(v: Vec2, m: int) -> Vec2 {
    vec_mod(mat_apply(cat_matrix(), v), m)
}

/// One inverse step modulo `m`.
pub open spec fn cat_back_step(v: Vec2, m: int) -> Vec2 {
    vec_mod(mat_apply(cat_inverse_matrix(), v), m)
}

/// `n` cat-map steps from `v`.
pub open spec fn cat_iterate(v: Vec2, n: nat, m: int) -> Vec2
    decreases n,
{
    if n == 0 {
        v
    } else {
        cat_step(cat_iterate(v, (n - 1) as nat, m), m)
    }
}

/// `n` inverse steps from `v`.
pub open spec fn cat_back_iterate(v: Vec2, n: nat, m: int) -> Vec2
    decreases n,
{
    if n == 0 {
        v
    } else {
        cat_back_step(cat_back_iterate(v, (n - 1) as nat, m), m)
    }
}

/// Both coordinates in `[0, m)`.
pub open spec fn vec_reduced(v: Vec2, m: int) -> bool {
    0 <= v.0 < m && 0 <= v.1 < m
}

/// One entry of a triple product, either way round.
proof fn lemma_entry_assoc(p: int, q: int, r: int, s: int, t: int, u: int, w: int, z: int)
    ensures
        (p * q + r * s) * t + (p * u + r * w) * z == p * (q * t + u * z) + r * (s * t + w * z),
{
    lemma_mul_is_distributive_add_other_way(t, p * q, r * s);
    lemma_mul_is_distributive_add_other_way(z, p * u, r * w);
    lemma_mul_is_distributive_add(p, q * t, u * z);
    lemma_mul_is_distributive_add(r, s * t, w * z);
    lemma_mul_is_associative(p, q, t);
    lemma_mul_is_associative(r, s, t);
    lemma_mul_is_associative(p, u, z);
    lemma_mul_is_associative(r, w, z);
}

pub proof fn lemma_mat_mul_assoc(a: Mat2, b: Mat2, c: Mat2)
    ensures
        mat_mul(mat_mul(a, b), c) == mat_mul(a, mat_mul(b, c)),
{
    lemma_entry_assoc(a.0, b.0, a.1, b.2, c.0, b.1, b.3, c.2);
    lemma_entry_assoc(a.0, b.0, a.1, b.2, c.1, b.1, b.3, c.3);
    lemma_entry_assoc(a.2, b.0, a.3, b.2, c.0, b.1, b.3, c.2);
    lemma_entry_assoc(a.2, b.0, a.3, b.2, c.1, b.1, b.3, c.3);
}

pub proof fn lemma_mat_mul_identity(a: Mat2)
    ensures
        mat_mul(mat_identity(), a) == a,
        mat_mul(a, mat_identity()) == a,
{
}

/// Reduction of one entry of a product: `(p q + r s) mod m` only depends on
/// the factors modulo `m`.
pub proof fn lemma_dot_mod(p: int, q: int, r: int, s: int, m: int)
    requires
        m > 0,
    ensures
        ((p % m) * (q % m) + (r % m) * (s % m)) % m == (p * q + r * s) % m,
{
    lemma_mul_mod_noop(p, q, m);
    lemma_mul_mod_noop(r, s, m);
    lemma_add_mod_noop((p % m) * (q % m), (r % m) * (s % m), m);
    lemma_add_mod_noop(p * q, r * s, m);
    lemma_mod_twice((p % m) * (q % m), m);
    lemma_mod_twice((r % m) * (s % m), m);
}

/// A product modulo `m` only depends on the factors modulo `m`.
pub proof fn lemma_mat_mul_mod(a: Mat2, b: Mat2, m: int)
    requires
        m > 0,
    ensures
        mat_mod(mat_mul(mat_mod(a, m), mat_mod(b, m)), m) == mat_mod(mat_mul(a, b), m),
{
    lemma_dot_mod(a.0, b.0, a.1, b.2, m);
    lemma_dot_mod(a.0, b.1, a.1, b.3, m);
    lemma_dot_mod(a.2, b.0, a.3, b.2, m);
    lemma_dot_mod(a.2, b.1, a.3, b.3, m);
}

/// Reducing twice is reducing once.
pub proof fn lemma_mat_mod_idem(a: Mat2, m: int)
    requires
        m > 0,
    ensures
        mat_mod(mat_mod(a, m), m) == mat_mod(a, m),
{
    lemma_mod_twice(a.0, m);
    lemma_mod_twice(a.1, m);
    lemma_mod_twice(a.2, m);
    lemma_mod_twice(a.3, m);
}

/// Congruent matrices have congruent powers.
pub proof fn lemma_mat_pow_congruent(a: Mat2, b: Mat2, n: nat, m: int)
    requires
        m > 0,
        mat_mod(a, m) == mat_mod(b, m),
    ensures
        mat_mod(mat_pow(a, n), m) == mat_mod(mat_pow(b, n), m),
    decreases n,
{
    if n > 0 {
        let k = (n - 1) as nat;
        lemma_mat_pow_congruent(a, b, k, m);
        lemma_mat_mul_mod(a, mat_pow(a, k), m);
        lemma_mat_mul_mod(b, mat_pow(b, k), m);
    }
}

/// `a^(i + j) = a^i a^j`.
pub proof fn lemma_mat_pow_add(a: Mat2, i: nat, j: nat)
    ensures
        mat_pow(a, i + j) == mat_mul(mat_pow(a, i), mat_pow(a, j)),
    decreases i,
{
    if i == 0 {
        lemma_mat_mul_identity(mat_pow(a, j));
    } else {
        let k = (i - 1) as nat;
        lemma_mat_pow_add(a, k, j);
        assert(mat_pow(a, i + j) == mat_mul(a, mat_pow(a, (k + j) as nat)));
        lemma_mat_mul_assoc(a, mat_pow(a, k), mat_pow(a, j));
    }
}

/// `(a a)^k = a^(2k)`.
pub proof fn lemma_mat_pow_square(a: Mat2, k: nat)
    ensures
        mat_pow(mat_mul(a, a), k) == mat_pow(a, 2 * k),
    decreases k,
{
    if k > 0 {
        let j = (k - 1) as nat;
        lemma_mat_pow_square(a, j);
        assert(mat_pow(a, 2 * k) == mat_mul(a, mat_pow(a, (2 * j + 1) as nat)));
        assert(mat_pow(a, (2 * j + 1) as nat) == mat_mul(a, mat_pow(a, 2 * j)));
        lemma_mat_mul_assoc(a, a, mat_pow(a, 2 * j));
    }
}

/// One square-and-multiply step keeps `result * base^power` modulo `m`.
pub proof fn lemma_square_multiply_step(result: Mat2, base: Mat2, power: nat, m: int)
    requires
        m > 0,
    ensures
        power % 2 == 1 ==> mat_mod(
            mat_mul(
                mat_mod(mat_mul(result, base), m),
                mat_pow(mat_mod(mat_mul(base, base), m), power / 2),
            ),
            m,
        ) == mat_mod(mat_mul(result, mat_pow(base, power)), m),
        power % 2 == 0 ==> mat_mod(
            mat_mul(result, mat_pow(mat_mod(mat_mul(base, base), m), power / 2)),
            m,
        ) == mat_mod(mat_mul(result, mat_pow(base, power)), m),
{
    let half = power / 2;
    let bb = mat_mul(base, base);
    let rbb = mat_mod(bb, m);
    lemma_mat_mod_idem(bb, m);
    lemma_mat_pow_congruent(rbb, bb, half, m);
    lemma_mat_pow_square(base, half);
    if power % 2 == 1 {
        let rb = mat_mul(result, base);
        lemma_mat_mul_mod(mat_mod(rb, m), mat_pow(rbb, half), m);
        lemma_mat_mod_idem(rb, m);
        lemma_mat_mul_mod(rb, mat_pow(bb, half), m);
        lemma_mat_mul_assoc(result, base, mat_pow(bb, half));
        assert(mat_pow(base, power) == mat_mul(base, mat_pow(base, 2 * half)));
    } else {
        lemma_mat_mul_mod(result, mat_pow(rbb, half), m);
        lemma_mat_mul_mod(result, mat_pow(bb, half), m);
        assert(power == 2 * half);
    }
}

/// Applying a product is applying its factors in turn.
pub proof fn lemma_mat_apply_mul(a: Mat2, b: Mat2, v: Vec2)
    ensures
        mat_apply(mat_mul(a, b), v) == mat_apply(a, mat_apply(b, v)),
{
    lemma_entry_assoc(a.0, b.0, a.1, b.2, v.0, b.1, b.3, v.1);
    lemma_entry_assoc(a.2, b.0, a.3, b.2, v.0, b.1, b.3, v.1);
}

/// An application modulo `m` only depends on the matrix and the pair modulo
/// `m`.
pub proof fn lemma_mat_apply_mod(a: Mat2, v: Vec2, m: int)
    requires
        m > 0,
    ensures
        vec_mod(mat_apply(mat_mod(a, m), vec_mod(v, m)), m) == vec_mod(mat_apply(a, v), m),
{
    lemma_dot_mod(a.0, v.0, a.1, v.1, m);
    lemma_dot_mod(a.2, v.0, a.3, v.1, m);
}

/// `n` cat-map steps are one application of the `n`-th power, for a reduced
/// starting pair.
pub proof fn lemma_cat_iterate_is_power(v: Vec2, n: nat, m: int)
    requires
        m > 0,
        vec_reduced(v, m),
    ensures
        cat_iterate(v, n, m) == vec_mod(mat_apply(mat_pow(cat_matrix(), n), v), m),
    decreases n,
{
    lemma_iterate_is_power_general(cat_matrix(), v, n, m);
}

/// `n` inverse steps are one application of the `n`-th power of the inverse,
/// for a reduced starting pair.
pub proof fn lemma_cat_back_iterate_is_power(v: Vec2, n: nat, m: int)
    requires
        m > 0,
        vec_reduced(v, m),
    ensures
        cat_back_iterate(v, n, m) == vec_mod(mat_apply(mat_pow(cat_inverse_matrix(), n), v), m),
    decreases n,
{
    lemma_iterate_is_power_general(cat_inverse_matrix(), v, n, m);
}

/// `n` steps of `v -> a v mod m`.
pub open spec fn mat_iterate(a: Mat2, v: Vec2, n: nat, m: int) -> Vec2
    decreases n,
{
    if n == 0 {
        v
    } else {
        vec_mod(mat_apply(a, mat_iterate(a, v, (n - 1) as nat, m)), m)
    }
}

proof fn lemma_iterate_is_power_general(a: Mat2, v: Vec2, n: nat, m: int)
    requires
        m > 0,
        vec_reduced(v, m),
    ensures
        mat_iterate(a, v, n, m) == vec_mod(mat_apply(mat_pow(a, n), v), m),
        a == cat_matrix() ==> cat_iterate(v, n, m) == mat_iterate(a, v, n, m),
        a == cat_inverse_matrix() ==> cat_back_iterate(v, n, m) == mat_iterate(a, v, n, m),
    decreases n,
{
    if n == 0 {
        vstd::arithmetic::div_mod::lemma_small_mod(v.0 as nat, m as nat);
        vstd::arithmetic::div_mod::lemma_small_mod(v.1 as nat, m as nat);
        assert(mat_apply(mat_identity(), v) == v);
    } else {
        let k = (n - 1) as nat;
        lemma_iterate_is_power_general(a, v, k, m);
        let w = mat_apply(mat_pow(a, k), v);
        let wm = vec_mod(w, m);
        assert(mat_iterate(a, v, n, m) == vec_mod(mat_apply(a, wm), m));
        lemma_mat_apply_mod(a, w, m);
        lemma_mat_apply_mod(a, wm, m);
        lemma_vec_mod_idem(w, m);
        assert(vec_mod(mat_apply(a, wm), m) == vec_mod(mat_apply(a, w), m));
        lemma_mat_apply_mul(a, mat_pow(a, k), v);
        assert(mat_apply(a, w) == mat_apply(mat_pow(a, n), v));
    }
}

pub proof fn lemma_vec_mod_idem(v: Vec2, m: int)
    requires
        m > 0,
    ensures
        vec_mod(vec_mod(v, m), m) == vec_mod(v, m),
{
    lemma_mod_twice(v.0, m);
    lemma_mod_twice(v.1, m);
}

/// Congruent matrices act alike modulo `m`.
pub proof fn lemma_mat_apply_mod_matrix(a: Mat2, b: Mat2, v: Vec2, m: int)
    requires
        m > 0,
        mat_mod(a, m) == mat_mod(b, m),
    ensures
        vec_mod(mat_apply(a, v), m) == vec_mod(mat_apply(b, v), m),
{
    lemma_mat_apply_mod(a, v, m);
    lemma_mat_apply_mod(b, v, m);
}

/// A reduced pair has coordinates below the modulus and is its own
/// reduction.
pub proof fn lemma_vec_reduced_mod(v: Vec2, m: int)
    requires
        m > 0,
    ensures
        vec_reduced(vec_mod(v, m), m),
        vec_reduced(v, m) ==> vec_mod(v, m) == v,
{
    if vec_reduced(v, m) {
        vstd::arithmetic::div_mod::lemma_small_mod(v.0 as nat, m as nat);
        vstd::arithmetic::div_mod::lemma_small_mod(v.1 as nat, m as nat);
    }
}

/// The inverse step undoes the step, and the step undoes the inverse step,
/// on reduced pairs.
pub proof fn lemma_cat_step_inverse(v: Vec2, m: int)
    requires
        m > 0,
        vec_reduced(v, m),
    ensures
        cat_back_step(cat_step(v, m), m) == v,
        cat_step(cat_back_step(v, m), m) == v,
{
    let c = cat_matrix();
    let ci = cat_inverse_matrix();
    lemma_mat_apply_mod(ci, mat_apply(c, v), m);
    lemma_mat_apply_mod(ci, vec_mod(mat_apply(c, v), m), m);
    lemma_vec_mod_idem(mat_apply(c, v), m);
    lemma_mat_apply_mul(ci, c, v);
    lemma_mat_apply_mod(c, mat_apply(ci, v), m);
    lemma_mat_apply_mod(c, vec_mod(mat_apply(ci, v), m), m);
    lemma_vec_mod_idem(mat_apply(ci, v), m);
    lemma_mat_apply_mul(c, ci, v);
    lemma_mat_mod_idem(c, m);
    lemma_mat_mod_idem(ci, m);
    assert(mat_mul(ci, c) == mat_identity());
    assert(mat_mul(c, ci) == mat_identity());
    lemma_vec_reduced_mod(v, m);
}

/// The cat map and its inverse on a pair, written out.
pub proof fn lemma_cat_apply(v: Vec2)
    ensures
        mat_apply(cat_matrix(), v) == (v.0 + v.1, v.0 + 2 * v.1),
        mat_apply(cat_inverse_matrix(), v) == (2 * v.0 - v.1, v.1 - v.0),
{
    let (x, y) = v;
    assert(1 * x + 1 * y == x + y) by (nonlinear_arith);
    assert(1 * x + 2 * y == x + 2 * y) by (nonlinear_arith);
    assert(2 * x + (-1) * y == 2 * x - y) by (nonlinear_arith);
    assert((-1) * x + 1 * y == y - x) by (nonlinear_arith);
}


/// One cat-map step sends `(x, y)` to `(x + y, x + 2y)` and one inverse step
/// sends it to `(2x - y, y - x)`, both reduced modulo `m`.
pub proof fn lemma_cat_step_written_out(v: Vec2, m: int)
    ensures
        cat_step(v, m) == ((v.0 + v.1) % m, (v.0 + 2 * v.1) % m),
        cat_back_step(v, m) == ((2 * v.0 - v.1) % m, (v.1 - v.0) % m),
{
    lemma_cat_apply(v);
}

} // verus!
