//! Arithmetic primitives of the scheme: greatest common divisor, modular
//! inverse, and modular product and difference helpers that cannot overflow.

use vstd::arithmetic::div_mod::{
    lemma_fundamental_div_mod, lemma_mod_multiples_vanish, lemma_mod_self_0,
    lemma_mul_mod_noop_general, lemma_mul_mod_noop_left, lemma_mul_mod_noop_right,
    lemma_small_mod, lemma_sub_mod_noop,
};
use vstd::arithmetic::mul::{lemma_mul_is_distributive_sub, lemma_mul_upper_bound};
use vstd::prelude::*;

verus! {

/// Failure of an arithmetic primitive.
#[derive(Clone, Copy, Debug, PartialEq, Eq, Structural)]
pub enum ArithError {
    /// The operand shares a factor with the modulus, so no inverse exists.
    NotInvertible,
}

/// Greatest common divisor of two naturals, by the Euclidean recurrence.
pub open spec fn spec_gcd(a: nat, b: nat) -> nat
    decreases b,
{
    if b == 0 {
        a
    } else {
        spec_gcd(b, a % b)
    }
}

/// The Euclidean recurrence itself, stated of every pair of naturals:
/// `gcd(a, b) == gcd(b, a % b)` whenever `b != 0`, and `gcd(a, 0) == a`.
pub proof fn lemma_gcd_recurrence(a: nat, b: nat)
    ensures
        b != 0 ==> spec_gcd(a, b) == spec_gcd(b, a % b),
        spec_gcd(a, 0) == a,
{
}

/// Greatest common divisor, computed iteratively so that arbitrarily large
/// inputs never deepen the stack.
pub fn gcd(a: u64, b: u64) -> (g: u64)
    ensures
        g == spec_gcd(a as nat, b as nat),
{
    let mut x = a;
    let mut y = b;
    while y != 0
        invariant
            spec_gcd(x as nat, y as nat) == spec_gcd(a as nat, b as nat),
        decreases y,
    {
        let r = x % y;
        assert(spec_gcd(x as nat, y as nat) == spec_gcd(y as nat, r as nat));
        x = y;
        y = r;
    }
    x
}

/// The product of `x` and `y` reduced modulo `n`, computed through 128-bit
/// intermediates so that no input can overflow.
pub fn mul_mod(x: u64, y: u64, n: u64) -> (r: u64)
    requires
        1 <= n,
    ensures
        r < n,
        r == (x as int * y as int) % (n as int),
{
    proof {
        lemma_mul_upper_bound(x as int, u64::MAX as int, y as int, u64::MAX as int);
    }
    let wide: u128 = (x as u128) * (y as u128);
    let red: u128 = wide % (n as u128);
    red as u64
}

/// The difference of two residues modulo `n`, lifted back into `[0, n)`.
pub(crate) fn sub_mod(x: u64, y: u64, n: u64) -> (r: u64)
    requires
        1 <= n,
        x < n,
        y < n,
    ensures
        r < n,
        r == (x as int - y as int) % (n as int),
{
    proof {
        lemma_mod_multiples_vanish(1, x as int - y as int, n as int);
    }
    let wide: u128 = (x as u128) + (n as u128) - (y as u128);
    let red: u128 = wide % (n as u128);
    red as u64
}

/// For a unit `u` with inverse `v` modulo `n`, masking any `x` by `v` and
/// unmasking by `u` restores `x`: `(u * ((x * v) % n)) % n == x % n`.
pub proof fn lemma_mul_inverse_cancels(x: int, u: int, v: int, n: int)
    requires
        0 < n,
        (u * v) % n == 1,
    ensures
        (u * ((x * v) % n)) % n == x % n,
{
    lemma_mul_mod_noop_right(u, x * v, n);
    assert(u * (x * v) == x * (u * v)) by (nonlinear_arith);
    lemma_mul_mod_noop_right(x, u * v, n);
    assert((x * ((u * v) % n)) % n == (x * 1) % n);
}

/// The product of two squares reduced modulo `n` equals the square of the
/// reduced product: `((u^2 % n) * (v^2 % n)) % n == (((u*v) % n)^2) % n`.
pub proof fn lemma_square_product(u: int, v: int, n: int)
    requires
        0 < n,
    ensures
        (((u * u) % n) * ((v * v) % n)) % n == ((((u * v) % n) * ((u * v) % n))) % n,
{
    lemma_mul_mod_noop_general(u * u, v * v, n);
    assert((u * u) * (v * v) == (u * v) * (u * v)) by (nonlinear_arith);
    lemma_mul_mod_noop_general(u * v, u * v, n);
}

/// Among residues in `[0, n)` the modular inverse is unique, so the
/// contract of `mod_inverse` admits exactly one result.
pub proof fn lemma_inverse_unique(a: int, r1: int, r2: int, n: int)
    requires
        0 < n,
        0 <= r1 < n,
        0 <= r2 < n,
        (a * r1) % n == 1,
        (a * r2) % n == 1,
    ensures
        r1 == r2,
{
    lemma_small_mod(r1 as nat, n as nat);
    lemma_small_mod(r2 as nat, n as nat);
    lemma_mul_mod_noop_right(r1, a * r2, n);
    assert(r1 * (a * r2) == (a * r1) * r2) by (nonlinear_arith);
    lemma_mul_mod_noop_left(a * r1, r2, n);
}

/// Modular inverse by the iterative extended Euclidean algorithm. The
/// Bezout coefficient is kept reduced into `[0, n)` throughout, so the
/// result needs no final normalisation and no signed arithmetic.
pub fn mod_inverse(a: u64, n: u64) -> (r: Result<u64, ArithError>)
    requires
        2 <= n,
    ensures
        match r {
            Ok(inv) => {
                &&& inv < n
                &&& (a as int * inv as int) % (n as int) == 1
                &&& spec_gcd(a as nat, n as nat) == 1
            },
            Err(e) => {
                &&& e == ArithError::NotInvertible
                &&& spec_gcd(a as nat, n as nat) != 1
            },
        },
{
    let a0 = a % n;
    let mut t: u64 = 0;
    let mut newt: u64 = 1;
    let mut r: u64 = n;
    let mut newr: u64 = a0;

    proof {
        assert(spec_gcd(a as nat, n as nat) == spec_gcd(n as nat, a0 as nat));
        lemma_mod_self_0(n as int);
        lemma_small_mod(0, n as nat);
    }

    while newr != 0
        invariant
            2 <= n,
            t < n,
            newt < n,
            1 <= r <= n,
            newr < n,
            a0 < n,
            a0 == a as int % n as int,
            (a0 as int * t as int) % (n as int) == (r as int) % (n as int),
            (a0 as int * newt as int) % (n as int) == (newr as int) % (n as int),
            spec_gcd(r as nat, newr as nat) == spec_gcd(a as nat, n as nat),
        decreases newr,
    {
        let q = r / newr;
        let prod = mul_mod(q % n, newt, n);
        let tnext = sub_mod(t, prod, n);
        let rnext = r % newr;
        proof {
            let aa = a0 as int;
            let tt = t as int;
            let nt = newt as int;
            let rr = r as int;
            let nr = newr as int;
            let qq = q as int;
            let nn = n as int;
            // rnext == rr - nr * qq
            lemma_fundamental_div_mod(rr, nr);
            // prod == (qq * nt) % nn
            lemma_mul_mod_noop_left(qq, nt, nn);
            assert(prod == (qq * nt) % nn);
            // (aa * prod) % nn == (nr * qq) % nn
            lemma_mul_mod_noop_right(aa, qq * nt, nn);
            assert(aa * (qq * nt) == (aa * nt) * qq) by (nonlinear_arith);
            lemma_mul_mod_noop_left(aa * nt, qq, nn);
            lemma_mul_mod_noop_left(nr, qq, nn);
            assert((aa * prod) % nn == (nr * qq) % nn);
            // (aa * tnext) % nn == (rr - nr * qq) % nn
            lemma_mul_mod_noop_right(aa, tt - prod, nn);
            lemma_mul_is_distributive_sub(aa, tt, prod as int);
            lemma_sub_mod_noop(aa * tt, aa * (prod as int), nn);
            lemma_sub_mod_noop(rr, nr * qq, nn);
            assert((aa * (tnext as int)) % nn == (rr - nr * qq) % nn);
            lemma_small_mod(rnext as nat, n as nat);
            // the gcd chain is preserved
            assert(spec_gcd(rr as nat, nr as nat) == spec_gcd(nr as nat, rnext as nat));
        }
        t = newt;
        newt = tnext;
        r = newr;
        newr = rnext;
    }

    if r != 1 {
        return Err(ArithError::NotInvertible);
    }

    proof {
        lemma_small_mod(1, n as nat);
        lemma_mul_mod_noop_left(a as int, t as int, n as int);
    }
    Ok(t)
}

} // verus!
