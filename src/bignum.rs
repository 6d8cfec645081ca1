//! Natural numbers of any size, as little-endian 32-bit limbs, with the
//! few operations that exact backoff delays need: multiplying and dividing
//! by a single limb, and reading the value back with a cap.

use vstd::prelude::*;

verus! {

/// The base of a limb.
pub open spec fn base() -> nat {
    0x1_0000_0000
}

/// `b` to the power `e`.
pub open spec fn power(b: nat, e: nat) -> nat
    decreases e,
{
    if e == 0 {
        1
    } else {
        b * power(b, (e - 1) as nat)
    }
}

/// The value of little-endian limbs.
pub open spec fn value_of(s: Seq<u32>) -> nat
    decreases s.len(),
{
    if s.len() == 0 {
        0
    } else {
        s[0] as nat + base() * value_of(s.drop_first())
    }
}

proof fn lemma_value_empty(s: Seq<u32>)
    requires
        s.len() == 0,
    ensures
        value_of(s) == 0,
{
}

proof fn lemma_value_cons(s: Seq<u32>)
    requires
        s.len() > 0,
    ensures
        value_of(s) == s[0] as nat + base() * value_of(s.drop_first()),
{
}

proof fn lemma_power_two()
    ensures
        power(base(), 2) == base() * base(),
{
    assert(power(base(), 0) == 1);
    assert(power(base(), 1) == base() * power(base(), 0));
    assert(power(base(), 2) == base() * power(base(), 1));
}

pub proof fn lemma_power_positive(b: nat, e: nat)
    requires
        b > 0,
    ensures
        power(b, e) > 0,
    decreases e,
{
    if e > 0 {
        lemma_power_positive(b, (e - 1) as nat);
        assert(b * power(b, (e - 1) as nat) > 0) by (nonlinear_arith)
            requires
                b > 0,
                power(b, (e - 1) as nat) > 0,
        ;
    }
}

/// The low `i` limbs and the rest make up the value.
proof fn lemma_split(s: Seq<u32>, i: int)
    requires
        0 <= i <= s.len(),
    ensures
        value_of(s) == value_of(s.subrange(0, i)) + power(base(), i as nat) * value_of(
            s.subrange(i, s.len() as int),
        ),
    decreases i,
{
    if i == 0 {
        lemma_value_empty(s.subrange(0, 0));
        assert(s.subrange(0, s.len() as int) =~= s);
        assert(power(base(), 0) == 1);
        assert(value_of(s) == 0 + 1 * value_of(s)) by (nonlinear_arith);
    } else {
        let t = s.drop_first();
        lemma_split(t, i - 1);
        lemma_value_cons(s);
        lemma_value_cons(s.subrange(0, i));
        assert(power(base(), i as nat) == base() * power(base(), (i - 1) as nat));
        assert(s.subrange(0, i).drop_first() =~= t.subrange(0, i - 1));
        assert(t.subrange(i - 1, t.len() as int) =~= s.subrange(i, s.len() as int));
        let lo = value_of(t.subrange(0, i - 1));
        let hi = value_of(s.subrange(i, s.len() as int));
        let p = power(base(), (i - 1) as nat);
        let s0 = s[0] as nat;
        assert(s.subrange(0, i)[0] == s[0]);
        assert(value_of(t) == lo + p * hi);
        assert(value_of(s) == s0 + base() * value_of(t));
        assert(value_of(s.subrange(0, i)) == s0 + base() * lo);
        assert(s0 + base() * (lo + p * hi) == (s0 + base() * lo) + (base() * p) * hi) by (nonlinear_arith);
    }
}

proof fn lemma_push(s: Seq<u32>, x: u32)
    ensures
        value_of(s.push(x)) == value_of(s) + power(base(), s.len()) * x,
{
    let t = s.push(x);
    lemma_split(t, s.len() as int);
    assert(t.subrange(0, s.len() as int) =~= s);
    let last = t.subrange(s.len() as int, t.len() as int);
    lemma_value_cons(last);
    lemma_value_empty(last.drop_first());
    assert(value_of(last) == x as nat);
}

proof fn lemma_zero_limbs(s: Seq<u32>)
    requires
        forall|j: int| 0 <= j < s.len() ==> s[j] == 0,
    ensures
        value_of(s) == 0,
    decreases s.len(),
{
    if s.len() > 0 {
        lemma_zero_limbs(s.drop_first());
    }
}

proof fn lemma_some_limb(s: Seq<u32>, j: int)
    requires
        0 <= j < s.len(),
        s[j] != 0,
    ensures
        value_of(s) >= 1,
    decreases s.len(),
{
    if j > 0 {
        lemma_some_limb(s.drop_first(), j - 1);
    }
}

/// The limbs of a 64-bit number.
pub fn from_u64(x: u64) -> (r: Vec<u32>)
    ensures
        value_of(r@) == x,
{
    let lo = (x % 0x1_0000_0000) as u32;
    let hi = (x / 0x1_0000_0000) as u32;
    let r = vec![lo, hi];
    proof {
        lemma_value_cons(r@);
        lemma_value_cons(r@.drop_first());
        lemma_value_empty(r@.drop_first().drop_first());
        assert(r@.drop_first()[0] == hi);
    }
    r
}

/// `a` times the limb `m`.
pub fn mul_limb(a: &Vec<u32>, m: u32) -> (r: Vec<u32>)
    ensures
        value_of(r@) == value_of(a@) * m,
{
    let n = a.len();
    let mut out: Vec<u32> = Vec::new();
    let mut carry: u64 = 0;
    let mut i: usize = 0;
    proof {
        assert(a@.subrange(0, n as int) =~= a@);
        lemma_value_empty(out@);
        assert(power(base(), 0) == 1);
        assert(value_of(a@) * m == 0 + 1 * (0 + m * value_of(a@))) by (nonlinear_arith);
    }
    while i < n
        invariant
            n == a@.len(),
            i <= n,
            out@.len() == i,
            carry < 0x1_0000_0000,
            value_of(a@) * m == value_of(out@) + power(base(), i as nat) * (carry + m * value_of(
                a@.subrange(i as int, n as int),
            )),
        decreases n - i,
    {
        let ai = a[i];
        assert((m as u64) * (ai as u64) <= 0xffff_ffffu64 * 0xffff_ffffu64) by (nonlinear_arith)
            requires
                m <= 0xffff_ffffu32,
                ai <= 0xffff_ffffu32,
        ;
        let t: u64 = carry + (m as u64) * (ai as u64);
        let low = (t % 0x1_0000_0000) as u32;
        let ghost before = out@;
        out.push(low);
        let next_carry = t / 0x1_0000_0000;
        proof {
            lemma_push(before, low);
            let rest = a@.subrange(i as int, n as int);
            assert(rest.drop_first() =~= a@.subrange(i + 1, n as int));
            let r2 = value_of(a@.subrange(i + 1, n as int));
            let p = power(base(), i as nat);
            lemma_value_cons(rest);
            assert(value_of(rest) == ai as nat + base() * r2);
            assert(power(base(), (i + 1) as nat) == base() * p);
            assert(t as nat == low as nat + base() * (next_carry as nat));
            assert(p * (low as nat) + (base() * p) * (next_carry + m * r2) == p * (carry + m * (ai
                as nat + base() * r2))) by (nonlinear_arith)
                requires
                    t as nat == low as nat + base() * (next_carry as nat),
                    t as nat == carry as nat + (m as nat) * (ai as nat),
            ;
        }
        carry = next_carry;
        i += 1;
    }
    proof {
        lemma_value_empty(a@.subrange(n as int, n as int));
        lemma_push(out@, carry as u32);
        let p = power(base(), n as nat);
        assert(p * (carry + m * 0) == p * carry) by (nonlinear_arith);
    }
    let ghost before = out@;
    out.push(carry as u32);
    assert(value_of(out@) == value_of(before) + power(base(), n as nat) * carry);
    out
}

/// `a` divided by the limb `d`, rounded down.
pub fn div_limb(a: &Vec<u32>, d: u32) -> (r: Vec<u32>)
    requires
        d > 0,
    ensures
        value_of(r@) == value_of(a@) / (d as nat),
{
    let n = a.len();
    let mut q: Vec<u32> = Vec::new();
    let mut k: usize = 0;
    while k < n
        invariant
            k <= n,
            q@.len() == k,
        decreases n - k,
    {
        q.push(0);
        k += 1;
    }
    let mut rem: u64 = 0;
    let mut i: usize = n;
    proof {
        lemma_value_empty(a@.subrange(n as int, n as int));
        lemma_value_empty(q@.subrange(n as int, n as int));
    }
    while i > 0
        invariant
            n == a@.len(),
            q@.len() == n,
            i <= n,
            rem < d,
            value_of(a@.subrange(i as int, n as int)) == value_of(q@.subrange(i as int, n as int)) * (d as nat)
                + rem,
        decreases i,
    {
        let ai = a[i - 1];
        assert((rem as nat) * base() + (ai as nat) < (d as nat) * base()) by (nonlinear_arith)
            requires
                rem < d,
                ai < base(),
        ;
        let t: u64 = rem * 0x1_0000_0000 + ai as u64;
        let digit = t / (d as u64);
        assert(digit < 0x1_0000_0000) by (nonlinear_arith)
            requires
                digit == t / (d as u64),
                (t as nat) < (d as nat) * base(),
                d > 0,
        ;
        let ghost old_q = q@;
        q.set(i - 1, digit as u32);
        proof {
            let sa = a@.subrange(i - 1, n as int);
            assert(sa.drop_first() =~= a@.subrange(i as int, n as int));
            let sq = q@.subrange(i - 1, n as int);
            assert(sq.drop_first() =~= old_q.subrange(i as int, n as int));
            let qv = value_of(old_q.subrange(i as int, n as int));
            let nr = t % (d as u64);
            vstd::arithmetic::div_mod::lemma_fundamental_div_mod(t as int, d as int);
            lemma_value_cons(sa);
            lemma_value_cons(sq);
            assert(t as nat == (digit as nat) * (d as nat) + nr as nat);
            assert((ai as nat) + base() * (qv * (d as nat) + rem) == ((digit as nat) + base() * qv) * (d as nat)
                + nr as nat) by (nonlinear_arith)
                requires
                    t as nat == (digit as nat) * (d as nat) + nr as nat,
                    t as nat == (rem as nat) * base() + ai as nat,
            ;
        }
        rem = t % (d as u64);
        i -= 1;
    }
    proof {
        assert(a@.subrange(0, n as int) =~= a@);
        assert(q@.subrange(0, n as int) =~= q@);
        vstd::arithmetic::div_mod::lemma_fundamental_div_mod_converse(
            value_of(a@) as int,
            d as int,
            value_of(q@) as int,
            rem as int,
        );
    }
    q
}

/// The value of `a`, or `cap` where the value exceeds it.
pub fn value_capped(a: &Vec<u32>, cap: u64) -> (r: u64)
    ensures
        r == (if value_of(a@) <= cap { value_of(a@) } else { cap as nat }),
{
    let n = a.len();
    let mut j: usize = 2;
    while j < n
        invariant
            2 <= j,
            n == a@.len(),
            forall|t: int| 2 <= t < j && t < n ==> a@[t] == 0,
        decreases n - j,
    {
        if a[j] != 0 {
            proof {
                lemma_split(a@, 2);
                let hi = a@.subrange(2, n as int);
                lemma_some_limb(hi, j - 2);
                lemma_power_two();
                assert(power(base(), 2) * value_of(hi) >= base() * base()) by (nonlinear_arith)
                    requires
                        value_of(hi) >= 1,
                        power(base(), 2) == base() * base(),
                ;
            }
            return cap;
        }
        j += 1;
    }
    let lo: u64 = if n > 0 { a[0] as u64 } else { 0 };
    let hi: u64 = if n > 1 { a[1] as u64 } else { 0 };
    proof {
        if n >= 2 {
            lemma_split(a@, 2);
            lemma_zero_limbs(a@.subrange(2, n as int));
            let two = a@.subrange(0, 2);
            lemma_value_cons(two);
            lemma_value_cons(two.drop_first());
            lemma_value_empty(two.drop_first().drop_first());
            assert(two.drop_first()[0] == a@[1]);
            lemma_power_two();
        } else if n == 1 {
            lemma_value_cons(a@);
            lemma_value_empty(a@.drop_first());
        } else {
            lemma_value_empty(a@);
        }
    }
    assert(hi * 0x1_0000_0000 + lo <= u64::MAX) by (nonlinear_arith)
        requires
            hi < 0x1_0000_0000,
            lo < 0x1_0000_0000,
    ;
    let v: u64 = hi * 0x1_0000_0000 + lo;
    if v <= cap {
        v
    } else {
        cap
    }
}

} // verus!
