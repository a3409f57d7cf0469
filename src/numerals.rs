use vstd::prelude::*;
use vstd::string::StringExecFns;

verus! {

/// Relies on `String::push`: appends the character at the end.
#[verifier::external_body]
pub(crate) fn push_char(s: &mut String, c: char)
    ensures
        final(s)@ == old(s)@.push(c),
{
    s.push(c)
}

/// The digits of `n` in the positional system whose digits are `sym`,
/// most significant first.
pub open spec fn numeric_spec(sym: Seq<char>, n: nat) -> Seq<char>
    decreases n via numeric_spec_decreases
{
    if sym.len() < 2 || n < sym.len() {
        seq![sym[n as int]]
    } else {
        numeric_spec(sym, n / sym.len()) + seq![sym[(n % sym.len()) as int]]
    }
}

#[via_fn]
proof fn numeric_spec_decreases(sym: Seq<char>, n: nat) {
    if !(sym.len() < 2 || n < sym.len()) {
        let k = sym.len();
        assert(n / k < n) by (nonlinear_arith)
            requires
                k >= 2,
                n >= k,
        ;
    }
}

/// The digits of `n` in the positional system without zero whose digits
/// are `sym` (1 is the first symbol, `sym.len() + 1` the first symbol twice).
pub open spec fn bijective_spec(sym: Seq<char>, n: nat) -> Seq<char>
    decreases n,
{
    if n == 0 || sym.len() == 0 {
        Seq::empty()
    } else {
        bijective_spec(sym, ((n - 1) as nat) / sym.len()) + seq![sym[((n - 1) as nat % sym.len()) as int]]
    }
}

/// `s` repeated `k` times.
pub open spec fn repeat_spec(s: Seq<char>, k: nat) -> Seq<char>
    decreases k,
{
    if k == 0 {
        Seq::empty()
    } else {
        repeat_spec(s, (k - 1) as nat) + s
    }
}

/// Writes `n` with the digits `sym`, which number at least two, zero
/// first.
fn numeric_into(sym: &[char], n: u64, out: &mut String)
    requires
        sym@.len() >= 2,
    ensures
        final(out)@ == old(out)@ + numeric_spec(sym@, n as nat),
    decreases n,
{
    let k = sym.len() as u64;
    if n < k {
        push_char(out, sym[n as usize]);
    } else {
        assert(n / k < n) by (nonlinear_arith)
            requires
                k >= 2,
                n >= k,
        ;
        assert(n % k < k) by (nonlinear_arith)
            requires
                k >= 2,
        ;
        let ghost before = out@;
        numeric_into(sym, n / k, out);
        push_char(out, sym[(n % k) as usize]);
        assert(out@ =~= before + numeric_spec(sym@, n as nat));
    }
}

/// `n` in the positional system with the digits `sym`, which number at
/// least two, zero first.
pub fn numeric(sym: &[char], n: u64) -> (r: String)
    requires
        sym@.len() >= 2,
    ensures
        r@ == numeric_spec(sym@, n as nat),
{
    let mut out = String::new();
    numeric_into(sym, n, &mut out);
    assert(out@ =~= numeric_spec(sym@, n as nat));
    out
}

/// Writes `n` with the digits `sym` of a positional system without zero.
fn bijective_into(sym: &[char], n: u64, out: &mut String)
    requires
        sym@.len() >= 1,
    ensures
        final(out)@ == old(out)@ + bijective_spec(sym@, n as nat),
    decreases n,
{
    if n == 0 {
        assert(out@ =~= out@ + Seq::<char>::empty());
        return;
    }
    let k = sym.len() as u64;
    let m = n - 1;
    assert(m / k <= m) by (nonlinear_arith)
        requires
            k >= 1,
    ;
    assert(m % k < k) by (nonlinear_arith)
        requires
            k >= 1,
    ;
    let ghost before = out@;
    bijective_into(sym, m / k, out);
    push_char(out, sym[(m % k) as usize]);
    assert(out@ =~= before + bijective_spec(sym@, n as nat));
}

/// `n` in the positional system without zero whose digits are `sym`; a
/// dash for zero. With the letters of the alphabet, this counts a, ..., z,
/// aa, ab, and so on.
pub open spec fn alphabetic_spec(sym: Seq<char>, n: nat) -> Seq<char> {
    if n == 0 {
        seq!['-']
    } else {
        bijective_spec(sym, n)
    }
}

/// `n` in the positional system without zero whose digits are `sym`; a
/// dash for zero.
pub fn alphabetic(sym: &[char], n: u64) -> (r: String)
    requires
        sym@.len() >= 1,
    ensures
        r@ == alphabetic_spec(sym@, n as nat),
{
    let mut out = String::new();
    if n == 0 {
        push_char(&mut out, '-');
        assert(out@ =~= seq!['-']);
        return out;
    }
    bijective_into(sym, n, &mut out);
    assert(out@ =~= bijective_spec(sym@, n as nat));
    out
}

/// `n` as one symbol repeated: the symbols in turn, once each, then twice
/// each, and so on; a dash for zero.
pub open spec fn symbolic_spec(sym: Seq<char>, n: nat) -> Seq<char> {
    if n == 0 || sym.len() == 0 {
        seq!['-']
    } else {
        Seq::new(((n - 1) as nat / sym.len()) + 1, |_i: int| sym[((n - 1) as nat % sym.len()) as int])
    }
}

/// `n` as one symbol repeated: the symbols in turn, once each, then twice
/// each, and so on; a dash for zero.
pub fn symbolic(sym: &[char], n: u64) -> (r: String)
    requires
        sym@.len() >= 1,
    ensures
        r@ == symbolic_spec(sym@, n as nat),
{
    let mut out = String::new();
    if n == 0 {
        push_char(&mut out, '-');
        assert(out@ =~= seq!['-']);
        return out;
    }
    let k = sym.len() as u64;
    let m = n - 1;
    assert(m % k < k) by (nonlinear_arith)
        requires
            k >= 1,
    ;
    let c = sym[(m % k) as usize];
    let count = m / k + 1;
    assert(m / k <= m) by (nonlinear_arith)
        requires
            k >= 1,
    ;
    let mut i: u64 = 0;
    while i < count
        invariant
            i <= count,
            count == m / k + 1,
            out@ == Seq::new(i as nat, |_j: int| c),
        decreases count - i,
    {
        push_char(&mut out, c);
        i = i + 1;
        assert(out@ =~= Seq::new(i as nat, |_j: int| c));
    }
    assert(out@ =~= symbolic_spec(sym@, n as nat));
    out
}

/// The decimal digits.
pub open spec fn decimal_digits() -> Seq<char> {
    seq!['0', '1', '2', '3', '4', '5', '6', '7', '8', '9']
}

/// The symbol for `n` where there is one, else `n` in decimal.
pub open spec fn fixed_spec(sym: Seq<char>, n: nat) -> Seq<char> {
    if n < sym.len() {
        seq![sym[n as int]]
    } else {
        numeric_spec(decimal_digits(), n)
    }
}

/// The symbol for `n` where there is one, else `n` in decimal.
pub fn fixed(sym: &[char], n: u64) -> (r: String)
    ensures
        r@ == fixed_spec(sym@, n as nat),
{
    if n < sym.len() as u64 {
        let mut out = String::new();
        push_char(&mut out, sym[n as usize]);
        assert(out@ =~= seq![sym@[n as int]]);
        out
    } else {
        let digits: [char; 10] = ['0', '1', '2', '3', '4', '5', '6', '7', '8', '9'];
        assert(digits@ =~= decimal_digits());
        numeric(&digits, n)
    }
}

/// `n` written additively from weighted symbols, starting at symbol `i`:
/// each symbol as often as its weight fits into what is left, heaviest
/// first.
pub open spec fn additive_from(syms: Seq<(&'static str, u64)>, i: int, n: nat) -> Seq<char>
    decreases syms.len() - i,
{
    if i < 0 || i >= syms.len() || n == 0 {
        Seq::empty()
    } else if syms[i].1 == 0 || syms[i].1 > n {
        additive_from(syms, i + 1, n)
    } else {
        repeat_spec(syms[i].0@, n / (syms[i].1 as nat)) + additive_from(
            syms,
            i + 1,
            n % (syms[i].1 as nat),
        )
    }
}

/// `n` written additively from weighted symbols, heaviest first. Zero is
/// the last symbol where its weight is zero, else the digit zero.
pub open spec fn additive_spec(syms: Seq<(&'static str, u64)>, n: nat) -> Seq<char> {
    if n == 0 {
        if syms.len() > 0 && syms.last().1 == 0 {
            syms.last().0@
        } else {
            seq!['0']
        }
    } else {
        additive_from(syms, 0, n)
    }
}

/// `n` written additively from weighted symbols, heaviest first.
pub fn additive(syms: &[(&'static str, u64)], n: u64) -> (r: String)
    ensures
        r@ == additive_spec(syms@, n as nat),
{
    let mut out = String::new();
    if n == 0 {
        let len = syms.len();
        if len > 0 && syms[len - 1].1 == 0 {
            out.append(syms[len - 1].0);
            assert(out@ =~= syms@.last().0@);
        } else {
            push_char(&mut out, '0');
            assert(out@ =~= seq!['0']);
        }
        return out;
    }
    let mut m: u64 = n;
    let mut i: usize = 0;
    while i < syms.len()
        invariant
            n > 0,
            i <= syms@.len(),
            out@ + additive_from(syms@, i as int, m as nat) == additive_from(syms@, 0, n as nat),
        decreases syms@.len() - i,
    {
        let (sym, w) = syms[i];
        if m == 0 {
            assert(additive_from(syms@, i as int, 0) == Seq::<char>::empty());
            assert(out@ =~= additive_from(syms@, 0, n as nat));
            return out;
        }
        if w == 0 || w > m {
            i = i + 1;
        } else {
            let reps = m / w;
            let ghost start = out@;
            let mut j: u64 = 0;
            while j < reps
                invariant
                    j <= reps,
                    out@ == start + repeat_spec(sym@, j as nat),
                decreases reps - j,
            {
                out.append(sym);
                j = j + 1;
                assert(out@ =~= start + repeat_spec(sym@, j as nat));
            }
            assert(out@ + additive_from(syms@, i + 1, (m % w) as nat) =~= start + additive_from(
                syms@,
                i as int,
                m as nat,
            ));
            m = m % w;
            i = i + 1;
        }
    }
    assert(additive_from(syms@, i as int, m as nat) == Seq::<char>::empty());
    assert(out@ =~= additive_from(syms@, 0, n as nat));
    out
}

} // verus!
