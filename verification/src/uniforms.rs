//! The optical uniforms of the lens pass and the formulas that derive them
//! from the clinical dials.

use vstd::prelude::*;
use crate::params::{Value, ValueMap, DIOPTRES_SCALING_DEN, DIOPTRES_SCALING_NUM};
use crate::ratio::{Q, Ratio};

verus! {

/// A focus distance in millimetres, possibly unbounded.
#[derive(Clone, Copy, Debug, PartialEq, Eq)]
pub enum Distance {
    Finite(Ratio),
    Infinite,
}

impl View for Distance {
    type V = Option<Q>;

    open spec fn view(&self) -> Option<Q> {
        match *self {
            Distance::Finite(r) => Some(r@),
            Distance::Infinite => None,
        }
    }
}

/// The mathematical content of [`OpticalUniforms`]. A far point of `None`
/// is infinitely far away.
pub struct Optics {
    pub stereo: bool,
    pub active: bool,
    pub depth_min: Q,
    pub depth_max: Q,
    pub near_point: Q,
    pub far_point: Option<Q>,
    pub near_vision_factor: Q,
    pub far_vision_factor: Q,
}

/// The values handed to the lens shader.
#[derive(Clone, Copy, Debug, PartialEq, Eq)]
pub struct OpticalUniforms {
    pub stereo: bool,
    pub active: bool,
    /// Nearest depth of the scene, in millimetres.
    pub depth_min: Ratio,
    /// Farthest depth of the scene, in millimetres.
    pub depth_max: Ratio,
    /// Smallest distance on which the eye can focus, in millimetres.
    pub near_point: Ratio,
    /// Largest distance on which the eye can focus, in millimetres.
    pub far_point: Distance,
    /// Blur of what is too close to focus, between 0 and 2.
    pub near_vision_factor: Ratio,
    /// Blur of what is too far to focus, between 0 and 2.
    pub far_vision_factor: Ratio,
}

impl View for OpticalUniforms {
    type V = Optics;

    open spec fn view(&self) -> Optics {
        Optics {
            stereo: self.stereo,
            active: self.active,
            depth_min: self.depth_min@,
            depth_max: self.depth_max@,
            near_point: self.near_point@,
            far_point: self.far_point@,
            near_vision_factor: self.near_vision_factor@,
            far_vision_factor: self.far_vision_factor@,
        }
    }
}

impl Optics {
    /// The near point does not lie beyond the far point.
    pub open spec fn near_within_far(self) -> bool {
        match self.far_point {
            Some(far) => self.near_point.le(far),
            None => true,
        }
    }

    /// Both blur factors lie between 0 and 2.
    pub open spec fn factors_in_range(self) -> bool {
        &&& self.near_vision_factor.num >= 0
        &&& self.near_vision_factor.num <= 2 * self.near_vision_factor.den
        &&& self.far_vision_factor.num >= 0
        &&& self.far_vision_factor.num <= 2 * self.far_vision_factor.den
    }
}

impl OpticalUniforms {
    /// Every denominator is positive, the focus points can be compared in
    /// machine integers, and the near point does not lie beyond the far point.
    pub open spec fn wf(&self) -> bool {
        &&& self.depth_min.wf()
        &&& self.depth_max.wf()
        &&& self.near_point.fits()
        &&& match self.far_point {
            Distance::Finite(far) => far.fits(),
            Distance::Infinite => true,
        }
        &&& self.near_vision_factor.wf()
        &&& self.far_vision_factor.wf()
        &&& self@.near_within_far()
    }
}

/// The pass-through state: nothing is simulated.
pub open spec fn default_optics() -> Optics {
    Optics {
        stereo: false,
        active: false,
        depth_min: Q { num: 200, den: 1 },
        depth_max: Q { num: 5000, den: 1 },
        near_point: Q { num: 0, den: 1 },
        far_point: None,
        near_vision_factor: Q { num: 0, den: 1 },
        far_vision_factor: Q { num: 0, den: 1 },
    }
}

/// The refractive error in dioptres of a dial at `mnh` thousandths:
/// `(mnh / 50 - 1) * 3`, with the dial taken in whole steps.
pub open spec fn dioptres_of(mnh: int) -> Q {
    Q { num: 3 * (mnh - 50_000), den: 50_000 }
}

/// The far point of a myopic eye of `d < 0` dioptres: `-1000 / d`.
pub open spec fn myopia_far_point(d: Q) -> Q {
    Q { num: 1000 * d.den, den: -d.num }
}

/// The near point of a hyperopic eye of `d` dioptres: `1000 / (4.4 - d)`,
/// written with a positive denominator.
pub open spec fn hyperopia_near_point(d: Q) -> Q {
    let e = 44 * d.den - 10 * d.num;
    if e > 0 {
        Q { num: 10_000 * d.den, den: e }
    } else {
        Q { num: -10_000 * d.den, den: -e }
    }
}

/// The blur factor of an eye that is `d` dioptres off: `1 + |d| * K`.
pub open spec fn vision_factor(d: Q) -> Q {
    let excess = if d.num < 0 {
        -d.num
    } else {
        d.num
    };
    Q {
        num: d.den * DIOPTRES_SCALING_DEN + excess * DIOPTRES_SCALING_NUM,
        den: d.den * DIOPTRES_SCALING_DEN,
    }
}

/// The near-point dial, where presbyopia is switched on and the dial is set.
pub open spec fn presbyopia_dial(m: Map<Seq<char>, Value>) -> Option<int> {
    if m.contains_key("presbyopia_onoff"@) && m["presbyopia_onoff"@] == Value::Bool(true)
        && m.contains_key("presbyopia_near_point"@) {
        match m["presbyopia_near_point"@] {
            Value::Number(p) => Some(p as int),
            Value::Bool(_) => None,
        }
    } else {
        None
    }
}

/// The myopia/hyperopia dial, where that simulation is switched on and the
/// dial is set.
pub open spec fn refraction_dial(m: Map<Seq<char>, Value>) -> Option<int> {
    if m.contains_key("myopiahyperopia_onoff"@) && m["myopiahyperopia_onoff"@] == Value::Bool(
        true,
    ) && m.contains_key("myopiahyperopia_mnh"@) {
        match m["myopiahyperopia_mnh"@] {
            Value::Number(mnh) => Some(mnh as int),
            Value::Bool(_) => None,
        }
    } else {
        None
    }
}

/// Presbyopia with the near-point dial at `p` thousandths, on the
/// pass-through state: the near point is ten times the dial, in millimetres.
pub open spec fn presbyopia_optics(p: int) -> Optics {
    Optics {
        active: true,
        near_point: Q { num: p, den: 100 },
        near_vision_factor: Q { num: 1, den: 1 },
        ..default_optics()
    }
}

/// Myopia or hyperopia with the dial at `mnh` thousandths, on top of `u`.
pub open spec fn refraction_optics(u: Optics, mnh: int) -> Optics {
    let d = dioptres_of(mnh);
    if d.num < 0 {
        let far = myopia_far_point(d);
        Optics {
            active: true,
            far_point: Some(far),
            near_point: u.near_point.min(far),
            far_vision_factor: u.far_vision_factor.max(vision_factor(d)),
            ..u
        }
    } else if d.num > 0 {
        Optics {
            active: true,
            near_point: u.near_point.max(hyperopia_near_point(d)),
            near_vision_factor: u.near_vision_factor.max(vision_factor(d)),
            ..u
        }
    } else {
        Optics { active: true, ..u }
    }
}

/// The state after the presbyopia stage alone.
pub open spec fn presbyopia_stage(m: Map<Seq<char>, Value>) -> Optics {
    match presbyopia_dial(m) {
        Some(p) => presbyopia_optics(p),
        None => default_optics(),
    }
}

/// The optical uniforms that a parameter set stands for.
pub open spec fn optics_of(m: Map<Seq<char>, Value>) -> Optics {
    match refraction_dial(m) {
        Some(mnh) => refraction_optics(presbyopia_stage(m), mnh),
        None => presbyopia_stage(m),
    }
}

/// Whether a dial value lies on the dial, between 0 and 100 steps.
pub open spec fn on_dial(v: int) -> bool {
    0 <= v <= 100_000
}

impl OpticalUniforms {
    /// The pass-through state.
    pub fn pass_through() -> (r: OpticalUniforms)
        ensures
            r@ == default_optics(),
            r.wf(),
    {
        OpticalUniforms {
            stereo: false,
            active: false,
            depth_min: Ratio { num: 200, den: 1 },
            depth_max: Ratio { num: 5000, den: 1 },
            near_point: Ratio { num: 0, den: 1 },
            far_point: Distance::Infinite,
            near_vision_factor: Ratio { num: 0, den: 1 },
            far_vision_factor: Ratio { num: 0, den: 1 },
        }
    }
}

/// The refractive error in dioptres for a dial at `mnh` thousandths.
pub fn dioptres(mnh: i32) -> (d: Ratio)
    ensures
        d@ == dioptres_of(mnh as int),
        d.wf(),
{
    Ratio { num: 3 * (mnh as i128 - 50_000), den: 50_000 }
}

/// The blur factor for `d = dioptres(mnh)`.
fn blur_factor(mnh: i32) -> (f: Ratio)
    ensures
        f@ == vision_factor(dioptres_of(mnh as int)),
        f.wf(),
        f.num >= f.den,
{
    let d: i128 = 3 * (mnh as i128 - 50_000);
    let excess: i128 = if d < 0 {
        -d
    } else {
        d
    };
    Ratio {
        num: 50_000 * DIOPTRES_SCALING_DEN + excess * DIOPTRES_SCALING_NUM,
        den: 50_000 * DIOPTRES_SCALING_DEN,
    }
}

/// Presbyopia alone, with the near-point dial at `p` thousandths.
fn with_presbyopia(p: i32) -> (r: OpticalUniforms)
    ensures
        r@ == presbyopia_optics(p as int),
        r.wf(),
        r.far_point == Distance::Infinite,
        r.near_vision_factor.den == 1,
        r.far_vision_factor.den == 1,
        0 <= r.near_vision_factor.num <= 1,
        r.far_vision_factor.num == 0,
{
    OpticalUniforms {
        active: true,
        near_point: Ratio { num: p as i128, den: 100 },
        near_vision_factor: Ratio { num: 1, den: 1 },
        ..OpticalUniforms::pass_through()
    }
}

/// Myopia or hyperopia with the dial at `mnh` thousandths, on top of `u`.
fn with_refraction(u: OpticalUniforms, mnh: i32) -> (r: OpticalUniforms)
    requires
        u.wf(),
        u.far_point == Distance::Infinite,
        u.near_vision_factor.den == 1,
        u.far_vision_factor.den == 1,
        0 <= u.near_vision_factor.num <= 1,
        u.far_vision_factor.num == 0,
    ensures
        r@ == refraction_optics(u@, mnh as int),
        r.wf(),
{
    let d = dioptres(mnh);
    let factor = blur_factor(mnh);
    if d.num < 0 {
        let far = Ratio { num: 50_000_000, den: 3 * (50_000 - mnh as i128) };
        let near = if u.near_point.le(&far) {
            u.near_point
        } else {
            far
        };
        proof {
            assert(u.far_vision_factor@.le(factor@));
            assert(near@.le(far@)) by (nonlinear_arith)
                requires
                    near == far || (near == u.near_point && u.near_point@.le(far@)),
            ;
        }
        OpticalUniforms {
            active: true,
            far_point: Distance::Finite(far),
            near_point: near,
            far_vision_factor: factor,
            ..u
        }
    } else if d.num > 0 {
        let e: i128 = 3_700_000 - 30 * (mnh as i128);
        let hyper = if e > 0 {
            Ratio { num: 500_000_000, den: e }
        } else {
            Ratio { num: -500_000_000, den: -e }
        };
        let near = if u.near_point.le(&hyper) {
            hyper
        } else {
            u.near_point
        };
        proof {
            assert(u.near_vision_factor@.le(factor@)) by {
                if u.near_vision_factor.num == 0 {
                    assert(0 * factor.den == 0);
                } else {
                    assert(1 * factor.den == factor.den);
                }
            }
        }
        OpticalUniforms { active: true, near_point: near, near_vision_factor: factor, ..u }
    } else {
        OpticalUniforms { active: true, ..u }
    }
}

/// Derives the optical uniforms from the parameters of a frame. Names that
/// the model does not know are ignored; a missing name leaves its part of
/// the simulation off.
pub fn compute_uniforms(params: &ValueMap) -> (r: OpticalUniforms)
    ensures
        r@ == optics_of(params@),
        r.wf(),
{
    let mut u = OpticalUniforms::pass_through();
    if let Some(Value::Bool(true)) = params.get("presbyopia_onoff") {
        if let Some(Value::Number(p)) = params.get("presbyopia_near_point") {
            u = with_presbyopia(p);
        }
    }
    if let Some(Value::Bool(true)) = params.get("myopiahyperopia_onoff") {
        if let Some(Value::Number(mnh)) = params.get("myopiahyperopia_mnh") {
            u = with_refraction(u, mnh);
        }
    }
    u
}

} // verus!
