use vss::params::{Value, ValueMap};
use vss::ratio::Ratio;
use vss::uniforms::{compute_uniforms, dioptres, Distance, OpticalUniforms};

fn value(r: Ratio) -> f64 {
    r.num as f64 / r.den as f64
}

fn close(a: f64, b: f64) -> bool {
    (a - b).abs() < 1e-6
}

fn dials(presbyopia: Option<i32>, refraction: Option<i32>) -> ValueMap {
    let mut m = ValueMap::new();
    if let Some(p) = presbyopia {
        m.insert("presbyopia_onoff", Value::Bool(true));
        m.insert("presbyopia_near_point", Value::Number(p));
    }
    if let Some(mnh) = refraction {
        m.insert("myopiahyperopia_onoff", Value::Bool(true));
        m.insert("myopiahyperopia_mnh", Value::Number(mnh));
    }
    m
}

#[test]
fn value_map_get_and_replace() {
    let mut m = ValueMap::new();
    assert_eq!(m.get("a"), None);
    m.insert("a", Value::Number(1));
    m.insert("b", Value::Bool(false));
    assert_eq!(m.get("a"), Some(Value::Number(1)));
    assert_eq!(m.get("b"), Some(Value::Bool(false)));
    m.insert("a", Value::Number(7));
    assert_eq!(m.get("a"), Some(Value::Number(7)));
    assert_eq!(m.get("c"), None);
}

#[test]
fn ratio_order() {
    let third = Ratio { num: 1, den: 3 };
    let half = Ratio { num: 1, den: 2 };
    assert!(third.le(&half));
    assert!(!half.le(&third));
    assert!(half.le(&Ratio { num: 2, den: 4 }));
    assert!(Ratio { num: -1, den: 2 }.le(&third));
}

#[test]
fn switches_off_give_pass_through() {
    let mut m = ValueMap::new();
    m.insert("presbyopia_onoff", Value::Bool(false));
    m.insert("presbyopia_near_point", Value::Number(50_000));
    m.insert("myopiahyperopia_onoff", Value::Bool(false));
    m.insert("myopiahyperopia_mnh", Value::Number(0));
    let u = compute_uniforms(&m);
    assert_eq!(u, OpticalUniforms::pass_through());
    assert!(!u.active);
    assert!(!u.stereo);
    assert_eq!(value(u.near_point), 0.0);
    assert_eq!(u.far_point, Distance::Infinite);
    assert_eq!(value(u.near_vision_factor), 0.0);
    assert_eq!(value(u.far_vision_factor), 0.0);
    assert_eq!(value(u.depth_min), 200.0);
    assert_eq!(value(u.depth_max), 5000.0);
    assert_eq!(compute_uniforms(&ValueMap::new()), OpticalUniforms::pass_through());
}

#[test]
fn switch_without_dial_is_off() {
    let mut m = ValueMap::new();
    m.insert("presbyopia_onoff", Value::Bool(true));
    m.insert("myopiahyperopia_onoff", Value::Bool(true));
    assert_eq!(compute_uniforms(&m), OpticalUniforms::pass_through());
}

#[test]
fn wrongly_typed_values_are_off() {
    let mut m = ValueMap::new();
    m.insert("presbyopia_onoff", Value::Number(1));
    m.insert("presbyopia_near_point", Value::Number(50_000));
    m.insert("myopiahyperopia_onoff", Value::Bool(true));
    m.insert("myopiahyperopia_mnh", Value::Bool(true));
    assert_eq!(compute_uniforms(&m), OpticalUniforms::pass_through());
}

#[test]
fn unknown_names_are_ignored() {
    let mut m = dials(Some(50_000), None);
    let plain = compute_uniforms(&m);
    m.insert("glaucoma_onoff", Value::Bool(true));
    m.insert("brightness", Value::Number(12_000));
    assert_eq!(compute_uniforms(&m), plain);
}

#[test]
fn presbyopia_alone() {
    let u = compute_uniforms(&dials(Some(50_000), None));
    assert!(u.active);
    assert_eq!(value(u.near_point), 500.0);
    assert_eq!(value(u.near_vision_factor), 1.0);
    assert_eq!(u.far_point, Distance::Infinite);
    assert_eq!(value(u.far_vision_factor), 0.0);
}

#[test]
fn presbyopia_scales_dial_by_ten() {
    let u = compute_uniforms(&dials(Some(12_500), None));
    assert_eq!(u.near_point.num * 1000, 12_500 * 10 * u.near_point.den);
    assert_eq!(value(u.near_point), 125.0);
    let v = compute_uniforms(&dials(Some(100_000), None));
    assert_eq!(value(v.near_point), 1000.0);
    let w = compute_uniforms(&dials(Some(0), None));
    assert_eq!(value(w.near_point), 0.0);
    assert!(w.active);
}

#[test]
fn dioptres_of_the_dial() {
    assert_eq!(value(dioptres(0)), -3.0);
    assert_eq!(value(dioptres(50_000)), 0.0);
    assert_eq!(value(dioptres(100_000)), 3.0);
    assert_eq!(value(dioptres(25_000)), -1.5);
    assert_eq!(dioptres(75_000), Ratio { num: 75_000, den: 50_000 });
}

#[test]
fn pure_myopia() {
    let u = compute_uniforms(&dials(None, Some(0)));
    assert!(u.active);
    let far = match u.far_point {
        Distance::Finite(f) => f,
        Distance::Infinite => panic!("a myopic eye has a far point"),
    };
    assert_eq!(far.num * 3, 1000 * far.den);
    assert!(close(value(far), 333.333_333_333));
    assert!(close(value(u.far_vision_factor), 1.998_290_108_252_569));
    assert_eq!(value(u.near_point), 0.0);
    assert_eq!(value(u.near_vision_factor), 0.0);
}

#[test]
fn pure_hyperopia() {
    let u = compute_uniforms(&dials(None, Some(100_000)));
    assert!(u.active);
    assert_eq!(u.near_point.num * 14, 10_000 * u.near_point.den);
    assert!(close(value(u.near_point), 714.285_714_285_7));
    assert!(close(value(u.near_vision_factor), 1.998_290_108_252_569));
    assert_eq!(u.far_point, Distance::Infinite);
    assert_eq!(value(u.far_vision_factor), 0.0);
}

#[test]
fn emmetropic_dial_changes_nothing_but_active() {
    let u = compute_uniforms(&dials(None, Some(50_000)));
    assert_eq!(u, OpticalUniforms { active: true, ..OpticalUniforms::pass_through() });
}

#[test]
fn myopia_clamps_the_near_point() {
    let u = compute_uniforms(&dials(Some(50_000), Some(0)));
    let far = match u.far_point {
        Distance::Finite(f) => f,
        Distance::Infinite => panic!("a myopic eye has a far point"),
    };
    assert!(close(value(far), 333.333_333_333));
    assert!(close(value(u.near_point), 333.333_333_333));
    assert_eq!(value(u.near_vision_factor), 1.0);
    let v = compute_uniforms(&dials(Some(10_000), Some(0)));
    assert_eq!(value(v.near_point), 100.0);
}

#[test]
fn hyperopia_takes_the_larger_near_point() {
    let u = compute_uniforms(&dials(Some(50_000), Some(100_000)));
    assert!(close(value(u.near_point), 714.285_714_285_7));
    assert!(close(value(u.near_vision_factor), 1.998_290_108_252_569));
    let v = compute_uniforms(&dials(Some(80_000), Some(100_000)));
    assert_eq!(value(v.near_point), 800.0);
    assert!(close(value(v.near_vision_factor), 1.998_290_108_252_569));
}

#[test]
fn mild_refraction_errors() {
    let u = compute_uniforms(&dials(None, Some(25_000)));
    let far = match u.far_point {
        Distance::Finite(f) => f,
        Distance::Infinite => panic!("a myopic eye has a far point"),
    };
    assert!(close(value(far), 1000.0 / 1.5));
    assert!(close(value(u.far_vision_factor), 1.0 + 1.5 * 0.332_763_369_417_523));
    let v = compute_uniforms(&dials(None, Some(75_000)));
    assert!(close(value(v.near_point), 1000.0 / (4.4 - 1.5)));
    assert!(close(value(v.near_vision_factor), 1.0 + 1.5 * 0.332_763_369_417_523));
}

#[test]
fn near_point_never_beyond_far_point() {
    let mut p: i32 = 0;
    while p <= 100_000 {
        let mut mnh: i32 = 0;
        while mnh <= 100_000 {
            let u = compute_uniforms(&dials(Some(p), Some(mnh)));
            if let Distance::Finite(far) = u.far_point {
                assert!(u.near_point.le(&far));
            }
            assert!(value(u.near_vision_factor) >= 0.0 && value(u.near_vision_factor) <= 2.0);
            assert!(value(u.far_vision_factor) >= 0.0 && value(u.far_vision_factor) <= 2.0);
            mnh += 12_500;
        }
        p += 12_500;
    }
}

#[test]
fn computing_twice_gives_the_same() {
    let m = dials(Some(30_000), Some(20_000));
    assert_eq!(compute_uniforms(&m), compute_uniforms(&m));
    let again = dials(Some(30_000), Some(20_000));
    assert_eq!(compute_uniforms(&m), compute_uniforms(&again));
}

#[test]
fn dial_beyond_its_range_does_not_fail() {
    let u = compute_uniforms(&dials(None, Some(200_000)));
    assert!(value(u.near_point) == 0.0);
    let v = compute_uniforms(&dials(Some(i32::MAX), Some(i32::MIN)));
    assert!(v.active);
    let w = compute_uniforms(&dials(Some(i32::MIN), Some(i32::MAX)));
    assert!(w.active);
}
