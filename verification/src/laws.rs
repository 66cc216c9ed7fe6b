//! What holds of the parameter model for every parameter set.

use vstd::prelude::*;
use crate::params::Value;
use crate::ratio::Q;
use crate::uniforms::{
    default_optics, OpticalUniforms, dioptres_of, hyperopia_near_point, myopia_far_point, on_dial, optics_of,
    presbyopia_dial, presbyopia_optics, presbyopia_stage, refraction_dial,
};

verus! {

/// Whether the switch called `name` is on in `m`.
pub open spec fn switched_on(m: Map<Seq<char>, Value>, name: Seq<char>) -> bool {
    m.contains_key(name) && m[name] == Value::Bool(true)
}

/// With both switches off the result is the pass-through state, whatever
/// else the parameter set holds.
pub proof fn lemma_switches_off(m: Map<Seq<char>, Value>)
    requires
        !switched_on(m, "presbyopia_onoff"@),
        !switched_on(m, "myopiahyperopia_onoff"@),
    ensures
        optics_of(m) == default_optics(),
        !optics_of(m).active,
        optics_of(m).near_point.is_frac(0, 1),
        optics_of(m).far_point is None,
        optics_of(m).near_vision_factor.is_frac(0, 1),
        optics_of(m).far_vision_factor.is_frac(0, 1),
{
}

/// With presbyopia on at dial `p` the simulation is active, and the
/// presbyopia stage puts the near point at ten times the dial and the near
/// blur factor at one. Where myopia and hyperopia are left off, that is the
/// result.
pub proof fn lemma_presbyopia(m: Map<Seq<char>, Value>, p: int)
    requires
        presbyopia_dial(m) == Some(p),
    ensures
        optics_of(m).active,
        presbyopia_stage(m).near_point.is_frac(p * 10, 1000),
        presbyopia_stage(m).near_vision_factor.is_frac(1, 1),
        presbyopia_stage(m).far_point is None,
        refraction_dial(m) is None ==> optics_of(m) == presbyopia_optics(p),
{
}

/// Myopia: with the dial below 50 the dioptres are negative, the far point
/// is `-1000 / d`, and the near point does not lie beyond it.
pub proof fn lemma_myopia(m: Map<Seq<char>, Value>, mnh: int)
    requires
        refraction_dial(m) == Some(mnh),
        mnh < 50_000,
    ensures
        dioptres_of(mnh).num < 0,
        dioptres_of(mnh).den > 0,
        optics_of(m).active,
        optics_of(m).far_point == Some(myopia_far_point(dioptres_of(mnh))),
        myopia_far_point(dioptres_of(mnh)).den > 0,
        myopia_far_point(dioptres_of(mnh)).num * dioptres_of(mnh).num == -1000
            * myopia_far_point(dioptres_of(mnh)).den * dioptres_of(mnh).den,
        optics_of(m).near_point.le(optics_of(m).far_point->0),
{
    let d = dioptres_of(mnh);
    let far = myopia_far_point(d);
    assert(far.le(far));
    assert(far.num * d.num == -1000 * far.den * d.den) by (nonlinear_arith)
        requires
            far.num == 1000 * d.den,
            far.den == -d.num,
    ;
}

/// Hyperopia: with the dial above 50 the dioptres are positive, and the near
/// point is the larger of the one that the presbyopia stage left and
/// `1000 / (4.4 - d)`.
pub proof fn lemma_hyperopia(m: Map<Seq<char>, Value>, mnh: int)
    requires
        refraction_dial(m) == Some(mnh),
        mnh > 50_000,
    ensures
        dioptres_of(mnh).num > 0,
        dioptres_of(mnh).den > 0,
        optics_of(m).active,
        optics_of(m).near_point == presbyopia_stage(m).near_point.max(
            hyperopia_near_point(dioptres_of(mnh)),
        ),
        optics_of(m).far_point is None,
        hyperopia_near_point(dioptres_of(mnh)).den > 0,
        hyperopia_near_point(dioptres_of(mnh)).num * (44 * dioptres_of(mnh).den - 10
            * dioptres_of(mnh).num) == 10_000 * dioptres_of(mnh).den * hyperopia_near_point(
            dioptres_of(mnh),
        ).den,
{
    let d = dioptres_of(mnh);
    let h = hyperopia_near_point(d);
    let e = 44 * d.den - 10 * d.num;
    assert(h.num * e == 10_000 * d.den * h.den) by (nonlinear_arith)
        requires
            (h.num == 10_000 * d.den && h.den == e) || (h.num == -10_000 * d.den && h.den == -e),
    ;
}

/// The result depends on the four known names alone: parameter sets that
/// agree on them give the same uniforms.
pub proof fn lemma_known_names_decide(a: Map<Seq<char>, Value>, b: Map<Seq<char>, Value>)
    requires
        agree_on(a, b, "presbyopia_onoff"@),
        agree_on(a, b, "presbyopia_near_point"@),
        agree_on(a, b, "myopiahyperopia_onoff"@),
        agree_on(a, b, "myopiahyperopia_mnh"@),
    ensures
        optics_of(a) == optics_of(b),
{
}

/// Whether `a` and `b` bind `name` alike.
pub open spec fn agree_on(a: Map<Seq<char>, Value>, b: Map<Seq<char>, Value>, name: Seq<char>)
    -> bool {
    a.contains_key(name) == b.contains_key(name) && (a.contains_key(name) ==> a[name] == b[name])
}

/// After every computation the near point does not lie beyond the far point,
/// and with the myopia/hyperopia dial between 0 and 100 both blur factors
/// lie between 0 and 2.
pub proof fn lemma_uniforms_invariant(m: Map<Seq<char>, Value>)
    ensures
        optics_of(m).near_within_far(),
        (refraction_dial(m) matches Some(mnh) ==> on_dial(mnh)) ==> optics_of(
            m,
        ).factors_in_range(),
{
    match refraction_dial(m) {
        Some(mnh) => {
            if mnh < 50_000 {
                let far = myopia_far_point(dioptres_of(mnh));
                assert(far.le(far));
            }
        },
        None => {},
    }
}

/// Computing twice from the same parameters gives the same uniforms, field
/// for field: two results that stand for the optics of one parameter set
/// are equal.
pub proof fn lemma_same_parameters_same_uniforms(
    first: OpticalUniforms,
    second: OpticalUniforms,
    m: Map<Seq<char>, Value>,
)
    requires
        first@ == optics_of(m),
        second@ == optics_of(m),
    ensures
        first == second,
{
    assert(first.depth_min@ == second.depth_min@);
    assert(first.depth_max@ == second.depth_max@);
    assert(first.near_point@ == second.near_point@);
    assert(first.far_point@ == second.far_point@);
    assert(first.near_vision_factor@ == second.near_vision_factor@);
    assert(first.far_vision_factor@ == second.far_vision_factor@);
}

} // verus!
