//! Decimal number text (the JSON number grammar: `-12.5e-3`) read as a
//! confidence in millionths (rounded to nearest), clamped to `0..=1_000_000`.
//!
//! The text is read by a small scanner whose state keeps the exact mantissa
//! (all digits, as one integer), the number of fraction digits and the exponent;
//! the value of the text is `mantissa * 10^(exponent - fraction digits)`.

use vstd::prelude::*;
use crate::text::chars_of;

verus! {

/// Where the scanner stands.
#[derive(Clone, Copy, Debug, PartialEq, Eq, Structural)]
pub enum Phase {
    Start,
    Sign,
    Int,
    Dot,
    Frac,
    ExpStart,
    ExpSign,
    Exp,
    Bad,
}

/// Scanner state with exact values.
pub struct Scan {
    pub phase: Phase,
    pub neg: bool,
    pub mant: nat,
    pub frac_len: nat,
    pub exp_neg: bool,
    pub exp: nat,
}

pub open spec fn is_digit(c: char) -> bool {
    '0' <= c && c <= '9'
}

pub open spec fn digit_value(c: char) -> nat {
    (c as u32 - '0' as u32) as nat
}

/// `10^n`.
pub open spec fn pow10(n: nat) -> nat
    decreases n,
{
    if n == 0 {
        1
    } else {
        10 * pow10((n - 1) as nat)
    }
}

pub open spec fn scan_start() -> Scan {
    Scan { phase: Phase::Start, neg: false, mant: 0, frac_len: 0, exp_neg: false, exp: 0 }
}

/// One char of the JSON number grammar: an optional `-`, integer digits, an
/// optional `.` with fraction digits, an optional `e`/`E` with an optional sign
/// and exponent digits. Anything else makes the text unreadable.
pub open spec fn step(s: Scan, c: char) -> Scan {
    let bad = Scan { phase: Phase::Bad, ..s };
    let mant_digit = Scan { mant: s.mant * 10 + digit_value(c), ..s };
    match s.phase {
        Phase::Start => if c == '-' {
            Scan { phase: Phase::Sign, neg: true, ..s }
        } else if is_digit(c) {
            Scan { phase: Phase::Int, ..mant_digit }
        } else {
            bad
        },
        Phase::Sign => if is_digit(c) {
            Scan { phase: Phase::Int, ..mant_digit }
        } else {
            bad
        },
        Phase::Int => if is_digit(c) {
            mant_digit
        } else if c == '.' {
            Scan { phase: Phase::Dot, ..s }
        } else if c == 'e' || c == 'E' {
            Scan { phase: Phase::ExpStart, ..s }
        } else {
            bad
        },
        Phase::Dot | Phase::Frac => if is_digit(c) {
            Scan { phase: Phase::Frac, frac_len: s.frac_len + 1, ..mant_digit }
        } else if s.phase == Phase::Frac && (c == 'e' || c == 'E') {
            Scan { phase: Phase::ExpStart, ..s }
        } else {
            bad
        },
        Phase::ExpStart => if c == '-' {
            Scan { phase: Phase::ExpSign, exp_neg: true, ..s }
        } else if c == '+' {
            Scan { phase: Phase::ExpSign, ..s }
        } else if is_digit(c) {
            Scan { phase: Phase::Exp, exp: digit_value(c), ..s }
        } else {
            bad
        },
        Phase::ExpSign | Phase::Exp => if is_digit(c) {
            Scan { phase: Phase::Exp, exp: s.exp * 10 + digit_value(c), ..s }
        } else {
            bad
        },
        Phase::Bad => s,
    }
}

/// The scanner state after reading all of `t`.
pub open spec fn scan(t: Seq<char>) -> Scan
    decreases t.len(),
{
    if t.len() == 0 {
        scan_start()
    } else {
        step(scan(t.drop_last()), t.last())
    }
}

/// `floor(m * 10^s)`.
pub open spec fn scaled(m: nat, s: int) -> nat {
    if s >= 0 {
        m * pow10(s as nat)
    } else {
        m / pow10((-s) as nat)
    }
}

/// The decimal exponent that turns the mantissa into ten-millionths.
pub open spec fn shift(s: Scan) -> int {
    (if s.exp_neg { -(s.exp as int) } else { s.exp as int }) - s.frac_len + 7
}

/// The number a finished scan read, in millionths rounded to nearest (halves
/// up, from the value cut to ten-millionths), clamped to `0..=1_000_000`; `None`
/// when the text was not a number.
pub open spec fn millionths_of(s: Scan) -> Option<nat> {
    if !(s.phase == Phase::Int || s.phase == Phase::Frac || s.phase == Phase::Exp) {
        None
    } else if s.neg {
        Some(0)
    } else {
        let v = scaled(s.mant, shift(s));
        let r = (v + 5) / 10;
        Some(if r > 1_000_000 { 1_000_000 } else { r })
    }
}

/// The number `t` denotes, in millionths rounded to nearest, clamped to
/// `0..=1_000_000`; `None` when `t` is not a number.
pub open spec fn number_millionths(t: Seq<char>) -> Option<nat> {
    millionths_of(scan(t))
}

proof fn lemma_pow10_pos(n: nat)
    ensures
        pow10(n) >= 1,
    decreases n,
{
    if n > 0 {
        lemma_pow10_pos((n - 1) as nat);
    }
}

proof fn lemma_pow10_add(a: nat, b: nat)
    ensures
        pow10(a + b) == pow10(a) * pow10(b),
    decreases a,
{
    if a > 0 {
        lemma_pow10_add((a - 1) as nat, b);
        assert(pow10(a + b) == 10 * pow10((a - 1 + b) as nat));
        let x = pow10((a - 1) as nat);
        let y = pow10(b);
        assert(10 * (x * y) == (10 * x) * y) by (nonlinear_arith);
    } else {
        assert(pow10(a) == 1);
        assert(a + b == b);
    }
}

proof fn lemma_pow10_mono(a: nat, b: nat)
    requires
        a <= b,
    ensures
        pow10(a) <= pow10(b),
    decreases b,
{
    if a < b {
        lemma_pow10_mono(a, (b - 1) as nat);
        lemma_pow10_pos((b - 1) as nat);
    }
}

proof fn lemma_div_shift(m: nat, k: nat, d: nat)
    requires
        k > 0,
        d < 10,
    ensures
        (10 * m + d) / (10 * k) == m / k,
{
    let q = m / k;
    let r = m % k;
    vstd::arithmetic::div_mod::lemma_fundamental_div_mod(m as int, k as int);
    assert(0 <= r < k);
    assert(10 * m + d == (10 * k) * q + (10 * r + d)) by (nonlinear_arith)
        requires
            m == k * q + r,
    ;
    vstd::arithmetic::div_mod::lemma_div_multiples_vanish_fancy(q as int, (10 * r + d) as int, (10 * k) as int);
}

/// How many leading significant digits the reader keeps.
pub open spec fn kept(sig: nat) -> nat {
    if sig < 7 {
        sig
    } else {
        7
    }
}

/// Exponents at or above this bound give the same result as the bound itself.
pub const EXP_CAP: u128 = 73786976294838206464;

/// Reader state: the exact scan, with the mantissa kept as its count of
/// significant digits and its first seven of them, and the exponent saturated.
#[derive(Clone, Copy)]
pub struct ScanState {
    pub phase: Phase,
    pub neg: bool,
    pub sig: usize,
    pub top: u64,
    pub frac_len: usize,
    pub exp_neg: bool,
    pub exp: u128,
}

/// `m` has `sig` significant digits, of which `top` holds the first (at most seven).
pub open spec fn mant_tracked(sig: nat, top: nat, m: nat) -> bool {
    &&& (sig == 0 <==> m == 0)
    &&& m < pow10(sig)
    &&& (sig > 0 ==> pow10((sig - 1) as nat) <= m)
    &&& top == m / pow10((sig - kept(sig)) as nat)
    &&& top < 10_000_000
}

/// `x` is a faithful summary of the exact scan `s`.
pub open spec fn tracks(x: ScanState, s: Scan) -> bool {
    &&& x.phase == s.phase
    &&& x.neg == s.neg
    &&& x.exp_neg == s.exp_neg
    &&& x.frac_len == s.frac_len
    &&& x.exp == (if s.exp >= EXP_CAP { EXP_CAP as nat } else { s.exp })
    &&& mant_tracked(x.sig as nat, x.top as nat, s.mant)
}

proof fn lemma_pow10_small()
    ensures
        pow10(7) == 10_000_000,
        pow10(6) == 1_000_000,
        pow10(1) == 10,
        pow10(0) == 1,
{
    reveal_with_fuel(pow10, 8);
}

/// Append digit `d` to a tracked mantissa.
fn push_digit(sig: usize, top: u64, d: u64, Ghost(m): Ghost<nat>) -> (r: (usize, u64))
    requires
        mant_tracked(sig as nat, top as nat, m),
        d < 10,
        sig < usize::MAX,
    ensures
        mant_tracked(r.0 as nat, r.1 as nat, m * 10 + d as nat),
        r.0 <= sig + 1,
{
    proof {
        lemma_pow10_small();
    }
    if sig == 0 {
        if d == 0 {
            assert(0nat / 1 == 0);
            (0, 0)
        } else {
            assert(kept(1) == 1);
            assert(d as nat / pow10(0) == d);
            (1, d)
        }
    } else if sig < 7 {
        proof {
            assert(pow10((sig + 1) as nat) == 10 * pow10(sig as nat));
            assert(pow10(sig as nat) == 10 * pow10((sig - 1) as nat));
            lemma_pow10_mono((sig + 1) as nat, 7);
            assert((sig - kept(sig as nat)) as nat == 0);
            assert(((sig + 1) - kept((sig + 1) as nat)) as nat == 0);
            assert(m / 1 == m);
            assert(top == m);
            let m2 = m * 10 + d as nat;
            assert(m2 / 1 == m2);
        }
        (sig + 1, top * 10 + d)
    } else {
        proof {
            let k = pow10((sig - 7) as nat);
            lemma_pow10_pos((sig - 7) as nat);
            assert(pow10((sig + 1 - 7) as nat) == 10 * k);
            lemma_div_shift(m, k, d as nat);
            assert(pow10((sig + 1) as nat) == 10 * pow10(sig as nat));
            assert(pow10(sig as nat) == 10 * pow10((sig - 1) as nat));
            assert(kept((sig + 1) as nat) == 7);
            assert(((sig + 1) as nat - 7) as nat == (sig + 1 - 7) as nat);
            assert(top == m / k);
            assert((m * 10 + (d as nat)) / (10 * k) == m / k);
            assert(m * 10 + (d as nat) < pow10((sig + 1) as nat));
            assert(pow10(sig as nat) <= m * 10 + d as nat);
        }
        (sig + 1, top)
    }
}

/// Saturating `10 * e + d`.
fn push_exp_digit(e: u128, d: u128, Ghost(exact): Ghost<nat>) -> (r: u128)
    requires
        e == (if exact >= EXP_CAP { EXP_CAP as nat } else { exact }),
        d < 10,
    ensures
        r == (if exact * 10 + d as nat >= EXP_CAP { EXP_CAP as nat } else { exact * 10 + d as nat }),
{
    if e >= EXP_CAP {
        EXP_CAP
    } else {
        let v = e * 10 + d;
        if v >= EXP_CAP {
            EXP_CAP
        } else {
            v
        }
    }
}

/// One char read by the scanner.
fn step_exec(x: ScanState, c: char, Ghost(s): Ghost<Scan>) -> (r: ScanState)
    requires
        tracks(x, s),
        x.sig < usize::MAX,
        x.frac_len < usize::MAX,
    ensures
        tracks(r, step(s, c)),
        r.sig <= x.sig + 1,
        r.frac_len <= x.frac_len + 1,
{
    let is_d = '0' <= c && c <= '9';
    let d: u64 = if is_d {
        (c as u32 - '0' as u32) as u64
    } else {
        0
    };
    let bad = ScanState { phase: Phase::Bad, ..x };
    match x.phase {
        Phase::Start => if c == '-' {
            ScanState { phase: Phase::Sign, neg: true, ..x }
        } else if is_d {
            let (sig, top) = push_digit(x.sig, x.top, d, Ghost(s.mant));
            ScanState { phase: Phase::Int, sig, top, ..x }
        } else {
            bad
        },
        Phase::Sign => if is_d {
            let (sig, top) = push_digit(x.sig, x.top, d, Ghost(s.mant));
            ScanState { phase: Phase::Int, sig, top, ..x }
        } else {
            bad
        },
        Phase::Int => if is_d {
            let (sig, top) = push_digit(x.sig, x.top, d, Ghost(s.mant));
            ScanState { sig, top, ..x }
        } else if c == '.' {
            ScanState { phase: Phase::Dot, ..x }
        } else if c == 'e' || c == 'E' {
            ScanState { phase: Phase::ExpStart, ..x }
        } else {
            bad
        },
        Phase::Dot | Phase::Frac => if is_d {
            let (sig, top) = push_digit(x.sig, x.top, d, Ghost(s.mant));
            ScanState { phase: Phase::Frac, sig, top, frac_len: x.frac_len + 1, ..x }
        } else if x.phase == Phase::Frac && (c == 'e' || c == 'E') {
            ScanState { phase: Phase::ExpStart, ..x }
        } else {
            bad
        },
        Phase::ExpStart => if c == '-' {
            ScanState { phase: Phase::ExpSign, exp_neg: true, ..x }
        } else if c == '+' {
            ScanState { phase: Phase::ExpSign, ..x }
        } else if is_d {
            ScanState { phase: Phase::Exp, exp: d as u128, ..x }
        } else {
            bad
        },
        Phase::ExpSign | Phase::Exp => if is_d {
            let e = push_exp_digit(x.exp, d as u128, Ghost(s.exp));
            ScanState { phase: Phase::Exp, exp: e, ..x }
        } else {
            bad
        },
        Phase::Bad => x,
    }
}

/// `10^n` for small `n`.
fn pow10_exec(n: usize) -> (r: u64)
    requires
        n <= 7,
    ensures
        r == pow10(n as nat),
        1 <= r <= 10_000_000,
{
    proof {
        reveal_with_fuel(pow10, 8);
    }
    match n {
        0 => 1,
        1 => 10,
        2 => 100,
        3 => 1_000,
        4 => 10_000,
        5 => 100_000,
        6 => 1_000_000,
        _ => 10_000_000,
    }
}

proof fn lemma_scaled_zero(sh: int)
    ensures
        scaled(0, sh) == 0,
{
    if sh < 0 {
        lemma_pow10_pos((-sh) as nat);
        vstd::arithmetic::div_mod::lemma_basic_div(0, pow10((-sh) as nat) as int);
    }
}

/// A mantissa of `l` significant digits shifted by `sh` with `l + sh >= 8` is at least ten million.
proof fn lemma_scaled_big(m: nat, l: nat, sh: int)
    requires
        l >= 1,
        pow10((l - 1) as nat) <= m,
        l + sh >= 8,
    ensures
        scaled(m, sh) >= 10_000_000,
{
    lemma_pow10_small();
    if sh >= 0 {
        let a = (l - 1) as nat;
        let b = sh as nat;
        lemma_pow10_add(a, b);
        lemma_pow10_mono(7, a + b);
        let p = pow10(b);
        let q = pow10(a);
        assert(q * p <= m * p) by (nonlinear_arith)
            requires
                q <= m,
                p >= 0,
        ;
    } else {
        let b = (-sh) as nat;
        let a = (l - 1 + sh) as nat;
        lemma_pow10_add(a, b);
        assert(a + b == l - 1);
        lemma_pow10_pos(b);
        lemma_pow10_mono(7, a);
        vstd::arithmetic::div_mod::lemma_div_is_ordered(pow10((l - 1) as nat) as int, m as int, pow10(b) as int);
        vstd::arithmetic::div_mod::lemma_div_multiples_vanish(pow10(a) as int, pow10(b) as int);
        assert(pow10(b) * pow10(a) == pow10(a) * pow10(b)) by (nonlinear_arith);
    }
}

/// A mantissa below `10^l` shifted by `sh` with `l + sh <= 0` rounds to zero.
proof fn lemma_scaled_small(m: nat, l: nat, sh: int)
    requires
        m < pow10(l),
        l + sh <= 0,
    ensures
        scaled(m, sh) == 0,
{
    if sh == 0 {
        assert(l == 0);
        assert(m == 0);
        lemma_scaled_zero(sh);
    } else {
        let b = (-sh) as nat;
        lemma_pow10_mono(l, b);
        vstd::arithmetic::div_mod::lemma_basic_div(m as int, pow10(b) as int);
    }
}

/// In the window `1 <= l + sh <= 7`, the first kept digits give the scaled value.
proof fn lemma_scaled_window(m: nat, l: nat, top: nat, sh: int)
    requires
        l >= 1,
        mant_tracked(l, top, m),
        1 <= l + sh <= 7,
    ensures
        sh <= 0 ==> scaled(m, sh) == top / pow10((kept(l) - (l + sh)) as nat),
        sh > 0 ==> l < 7 && scaled(m, sh) == top * pow10(sh as nat),
{
    let j = l + sh;
    let w = kept(l);
    lemma_pow10_small();
    if sh <= 0 {
        assert(w >= j);
        let c = pow10((l - w) as nat);
        let d = pow10((w - j) as nat);
        lemma_pow10_pos((l - w) as nat);
        lemma_pow10_pos((w - j) as nat);
        lemma_pow10_add((l - w) as nat, (w - j) as nat);
        assert(((l - w) + (w - j)) as nat == (-sh) as nat);
        vstd::arithmetic::div_mod::lemma_div_denominator(m as int, c as int, d as int);
        if sh == 0 {
            assert(w == l);
            assert(m / 1 == m);
            assert(m * 1 == m);
        }
    } else {
        assert(w == l);
        assert(m / 1 == m);
    }
}

/// Turn a finished scan into millionths.
fn finish_exec(x: ScanState, Ghost(s): Ghost<Scan>) -> (r: Option<u32>)
    requires
        tracks(x, s),
    ensures
        match r {
            Some(v) => millionths_of(s) == Some(v as nat),
            None => millionths_of(s) is None,
        },
{
    if !(x.phase == Phase::Int || x.phase == Phase::Frac || x.phase == Phase::Exp) {
        return None;
    }
    if x.neg {
        return Some(0);
    }
    if x.sig == 0 {
        proof {
            lemma_scaled_zero(shift(s));
        }
        return Some(0);
    }
    let e: i128 = if x.exp_neg {
        -(x.exp as i128)
    } else {
        x.exp as i128
    };
    let j: i128 = x.sig as i128 + e - x.frac_len as i128 + 7;
    let ghost big_j: int = x.sig + shift(s);
    proof {
        if s.exp < EXP_CAP {
            assert(j == big_j);
        } else if s.exp_neg {
            assert(j <= 0);
            assert(big_j <= j);
        } else {
            assert(j >= 8);
            assert(big_j >= j);
        }
    }
    if j >= 8 {
        proof {
            lemma_scaled_big(s.mant, x.sig as nat, shift(s));
        }
        return Some(1_000_000);
    }
    if j <= 0 {
        proof {
            lemma_scaled_small(s.mant, x.sig as nat, shift(s));
        }
        return Some(0);
    }
    proof {
        lemma_scaled_window(s.mant, x.sig as nat, x.top as nat, shift(s));
    }
    let w: usize = if x.sig < 7 {
        x.sig
    } else {
        7
    };
    let jj: usize = j as usize;
    let v: u64 = if jj <= x.sig {
        x.top / pow10_exec(w - jj)
    } else {
        let p = pow10_exec(jj - x.sig);
        assert(x.top * p <= 10_000_000 * 10_000_000) by (nonlinear_arith)
            requires
                x.top < 10_000_000,
                p <= 10_000_000,
        ;
        x.top * p
    };
    let r: u64 = (v + 5) / 10;
    if r > 1_000_000 {
        Some(1_000_000)
    } else {
        Some(r as u32)
    }
}

/// The decimal number text `t` as millionths clamped to `0..=1_000_000`
/// (`None` when `t` is not a number).
pub fn number_text_millionths(t: &str) -> (r: Option<u32>)
    ensures
        match r {
            Some(v) => number_millionths(t@) == Some(v as nat),
            None => number_millionths(t@) is None,
        },
{
    let v = chars_of(t);
    let mut x = ScanState {
        phase: Phase::Start,
        neg: false,
        sig: 0,
        top: 0,
        frac_len: 0,
        exp_neg: false,
        exp: 0,
    };
    proof {
        lemma_pow10_small();
        assert(0nat / 1 == 0);
        assert(v@.take(0) =~= Seq::<char>::empty());
    }
    let mut i: usize = 0;
    while i < v.len()
        invariant
            i <= v.len(),
            tracks(x, scan(v@.take(i as int))),
            x.sig <= i,
            x.frac_len <= i,
        decreases v.len() - i,
    {
        assert(v@.take(i + 1).drop_last() =~= v@.take(i as int));
        x = step_exec(x, v[i], Ghost(scan(v@.take(i as int))));
        i = i + 1;
    }
    assert(v@.take(v.len() as int) =~= v@);
    finish_exec(x, Ghost(scan(v@)))
}

} // verus!
