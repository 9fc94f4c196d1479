//! Laws of the angle algebra, proved once for all values.
//!
//! Every conversion, normalization and decomposition contract in this crate
//! is stated over the exact rational model, so the algebraic properties of
//! the library hold without any floating tolerance: they are proved here
//! for every well-formed value and every positive period.

use vstd::prelude::*;

use crate::deg::fraction_in_minutes;
use crate::deg::minutes_as_deg;
use crate::deg::rest_seconds;
use crate::deg::seconds_as_deg;
use crate::deg::whole_deg;
use crate::deg::whole_minutes;
use crate::rational::Rat;

verus! {

/// Round trip: rescaling a value from a unit with period `pa` into a unit
/// with period `pb` and back returns the original value exactly.
pub proof fn lemma_convert_round_trip(v: Rat, pa: Rat, pb: Rat)
    requires
        v.wf(),
        pa.wf(),
        pb.wf(),
        pa.num > 0,
        pb.num > 0,
    ensures
        v.convert(pa, pb).convert(pb, pa).eqv(v),
{
    let once = v.convert(pa, pb);
    let back = once.convert(pb, pa);
    assert(back.num * v.den == v.num * back.den) by (nonlinear_arith)
        requires
            back.num == v.num * pb.num * pa.den * pa.num * pb.den,
            back.den == v.den * pb.den * pa.num * pa.den * pb.num,
    ;
}

/// Reflexivity: rescaling a value into its own unit is the identity.
pub proof fn lemma_convert_identity(v: Rat, p: Rat)
    requires
        v.wf(),
        p.wf(),
        p.num > 0,
    ensures
        v.convert(p, p).eqv(v),
{
    let c = v.convert(p, p);
    assert(c.num * v.den == v.num * c.den) by (nonlinear_arith)
        requires
            c.num == v.num * p.num * p.den,
            c.den == v.den * p.den * p.num,
    ;
}

/// Composability: chaining a rescale through an intermediate unit agrees
/// with the direct rescale, because every conversion is the same linear
/// formula.
#[verifier::rlimit(100)]
pub proof fn lemma_convert_transitive(v: Rat, pa: Rat, pb: Rat, pc: Rat)
    requires
        v.wf(),
        pa.wf(),
        pb.wf(),
        pc.wf(),
        pa.num > 0,
        pb.num > 0,
        pc.num > 0,
    ensures
        v.convert(pa, pb).convert(pb, pc).eqv(v.convert(pa, pc)),
{
    let chained = v.convert(pa, pb).convert(pb, pc);
    let direct = v.convert(pa, pc);
    let shared = pb.num * pb.den;
    assert(chained.num == direct.num * shared) by (nonlinear_arith)
        requires
            chained.num == v.num * pb.num * pa.den * pc.num * pb.den,
            direct.num == v.num * pc.num * pa.den,
            shared == pb.num * pb.den,
    ;
    assert(chained.den == direct.den * shared) by (nonlinear_arith)
        requires
            chained.den == v.den * pb.den * pa.num * pc.den * pb.num,
            direct.den == v.den * pc.den * pa.num,
            shared == pb.num * pb.den,
    ;
    assert(chained.num * direct.den == direct.num * chained.den) by (nonlinear_arith)
        requires
            chained.num == direct.num * shared,
            chained.den == direct.den * shared,
    ;
}

/// Normalization lands in the standard domain: for every value and every
/// positive period the normalized value lies in `[0, period)`.
pub proof fn lemma_normalize_in_range(v: Rat, p: Rat)
    requires
        v.wf(),
        p.wf(),
        p.num > 0,
    ensures
        v.norm(p).wf(),
        v.norm(p).in_range(p),
{
    if v.in_range(p) {
    } else {
        let x = v.num * p.den;
        let y = p.num * v.den;
        assert(y >= 1 && v.den * p.den >= 1) by (nonlinear_arith)
            requires
                y == p.num * v.den,
                p.num >= 1,
                v.den >= 1,
                p.den >= 1,
        ;
        vstd::arithmetic::div_mod::lemma_mod_division_less_than_divisor(x, y);
        assert(0 <= x % y);
        let r = v.norm(p);
        assert(r.num * p.den < p.num * r.den) by (nonlinear_arith)
            requires
                r.num < p.num * v.den,
                r.den == v.den * p.den,
                p.den >= 1,
                p.num >= 1,
                v.den >= 1,
        ;
    }
}

/// Normalization is idempotent: normalizing a normalized value returns the
/// very same value.
pub proof fn lemma_normalize_idempotent(v: Rat, p: Rat)
    requires
        v.wf(),
        p.wf(),
        p.num > 0,
    ensures
        v.norm(p).norm(p) == v.norm(p),
{
    lemma_normalize_in_range(v, p);
}

/// Recomposition: adding the three parts of the sexagesimal decomposition
/// of a degree value, each rescaled into degrees, returns the original
/// value exactly.
pub proof fn lemma_decompose_recompose(x: Rat)
    requires
        x.wf(),
    ensures
        whole_deg(x).add(minutes_as_deg(whole_minutes(x))).add(
            seconds_as_deg(rest_seconds(x)),
        ).eqv(x),
{
    let n = x.num;
    let d = x.den;
    let f = whole_deg(x).num;
    let g = whole_minutes(x).num;
    let fim = fraction_in_minutes(x);
    let rs = rest_seconds(x);
    let mad = minutes_as_deg(whole_minutes(x));
    let sad = seconds_as_deg(rs);
    let sum1 = whole_deg(x).add(mad);
    let total = sum1.add(sad);
    assert(total.num * d == n * total.den) by (nonlinear_arith)
        requires
            fim.num == (n * 1 - f * d) * 60,
            fim.den == (d * 1) * 1,
            rs.num == (fim.num * 1 - g * fim.den) * 60,
            rs.den == (fim.den * 1) * 1,
            sad.num == (rs.num * 360) * 1,
            sad.den == (rs.den * 1) * 1296000,
            mad.num == (g * 360) * 1,
            mad.den == (1 * 1) * 21600,
            sum1.num == f * mad.den + mad.num * 1,
            sum1.den == 1 * mad.den,
            total.num == sum1.num * sad.den + sad.num * sum1.den,
            total.den == sum1.den * sad.den,
    ;
    assert(total.eqv(x));
}

} // verus!
