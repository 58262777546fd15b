use vstd::arithmetic::div_mod::{lemma_add_mod_noop, lemma_mod_twice, lemma_mul_mod_noop_general};
use vstd::prelude::*;

verus! {

/// Modulus of the permutation ring: a little more than 17 * 17.
pub const RING: i64 = 289;

/// The permutation polynomial `((x * 34 + 1) * x) mod 289`.
pub open spec fn permute_spec(x: int) -> int {
    ((x * 34 + 1) * x) % 289
}

/// The polynomial only depends on `x` through its residue modulo 289.
pub proof fn lemma_permute_residue(x: int)
    ensures
        permute_spec(x) == permute_spec(x % 289),
{
    let r = x % 289;
    lemma_mul_mod_noop_general(x * 34 + 1, x, 289);
    lemma_mul_mod_noop_general(r * 34 + 1, r, 289);
    lemma_mul_mod_noop_general(x, 34, 289);
    lemma_mul_mod_noop_general(r, 34, 289);
    lemma_add_mod_noop(x * 34, 1, 289);
    lemma_add_mod_noop(r * 34, 1, 289);
    lemma_mod_twice(x, 289);
}

/// Values congruent modulo 289 hash alike.
pub proof fn lemma_permute_congruent(x: int, y: int)
    requires
        x % 289 == y % 289,
    ensures
        permute_spec(x) == permute_spec(y),
{
    lemma_permute_residue(x);
    lemma_permute_residue(y);
}

/// Shifting by a whole number of rings leaves the hash unchanged.
pub proof fn lemma_permute_periodic(x: int, k: int)
    ensures
        permute_spec(x + 289 * k) == permute_spec(x),
{
    vstd::arithmetic::div_mod::lemma_mod_multiples_vanish(k, x, 289);
    lemma_permute_congruent(x + 289 * k, x);
}

/// The non-negative remainder of `x` divided by `m`.
pub fn euclid_rem(x: i64, m: i64) -> (r: i64)
    requires
        m > 0,
    ensures
        r == x % m,
        0 <= r < m,
{
    if x >= 0 {
        x % m
    } else {
        let y: i64 = -(x + 1);
        let t: i64 = y % m;
        proof {
            let q = y as int / m as int;
            vstd::arithmetic::div_mod::lemma_fundamental_div_mod(y as int, m as int);
            assert(x == (-(q + 1)) * m + (m - 1 - t)) by (nonlinear_arith)
                requires
                    y == m * q + t,
                    x == -(y + 1),
            ;
            vstd::arithmetic::div_mod::lemma_fundamental_div_mod_converse_mod(
                x as int,
                m as int,
                -(q + 1),
                m - 1 - t,
            );
        }
        m - 1 - t
    }
}

/// Hashes one lattice value: `((x * 34 + 1) * x) mod 289`, in `[0, 289)`.
pub fn permute(x: i64) -> (r: i64)
    ensures
        r == permute_spec(x as int),
        0 <= r < RING,
{
    let m: i64 = euclid_rem(x, RING);
    proof {
        lemma_permute_residue(x as int);
        assert(0 <= (m * 34 + 1) * m <= 290 * 34 * 290) by (nonlinear_arith)
            requires
                0 <= m < 289,
        ;
    }
    let p: i64 = (m * 34 + 1) * m;
    p % RING
}

/// Hashes `x + y` for any two values: both are first reduced modulo 289,
/// which leaves the hash unchanged and keeps the sum small.
pub fn permute_sum(x: i64, y: i64) -> (r: i64)
    ensures
        r == permute_spec(x + y),
        0 <= r < RING,
{
    let a: i64 = euclid_rem(x, RING);
    let b: i64 = euclid_rem(y, RING);
    proof {
        lemma_add_mod_noop(x as int, y as int, 289);
        lemma_add_mod_noop(a as int, b as int, 289);
        lemma_mod_twice(x as int, 289);
        lemma_mod_twice(y as int, 289);
        lemma_permute_congruent(x + y, a + b);
    }
    permute(a + b)
}

} // verus!
