use std::cmp::Ordering;

use cssparser::{CowRcStr, Parser, ParserInput, ToCss, Token};
use css_angle::{
    compact_leading_zero, float_eq, float_partial_cmp, is_calc_function, is_negative_bits,
    is_zero_bits, Angle, AngleUnit, Calc,
};

fn bits(v: f32) -> u32 {
    v.to_bits()
}

/// Reads one dimension token with the real tokenizer and turns it into an angle.
fn parse_dimension(text: &str) -> Option<Angle> {
    let mut input = ParserInput::new(text);
    let mut parser = Parser::new(&mut input);
    let token = parser.next().unwrap().clone();
    match token {
        Token::Dimension { value, ref unit, .. } => Angle::from_dimension(value.to_bits(), unit),
        _ => None,
    }
}

/// Degree equivalent of a radian magnitude, when it is whole at five decimals.
fn rad_in_degrees(a: &Angle) -> Option<u32> {
    match a {
        Angle::Rad(v) => {
            let deg = f32::from_bits(*v) * (180.0 / std::f32::consts::PI);
            let rounded = (deg * 100000.0).round() / 100000.0;
            if rounded.fract() == 0.0 {
                Some(rounded.to_bits())
            } else {
                None
            }
        }
        _ => None,
    }
}

fn write_literal(a: &Angle) -> String {
    let (b, unit) = a.dimension_form(rad_in_degrees(a)).unwrap();
    let value = f32::from_bits(b);
    let token = Token::Dimension {
        has_sign: value < 0.0,
        value,
        int_value: if value.fract() == 0.0 { Some(value as i32) } else { None },
        unit: CowRcStr::from(unit.as_str()),
    };
    let mut s = String::new();
    token.to_css(&mut s).unwrap();
    compact_leading_zero(&s, b)
}

#[test]
fn forty_five_degrees_round_trips() {
    let a = parse_dimension("45deg").unwrap();
    assert_eq!(a, Angle::Deg(bits(45.0)));
    assert_eq!(write_literal(&a), "45deg");
}

#[test]
fn half_degree_loses_leading_zero() {
    let a = parse_dimension("0.5deg").unwrap();
    assert_eq!(a, Angle::Deg(bits(0.5)));
    assert_eq!(write_literal(&a), ".5deg");
}

#[test]
fn negative_quarter_turn_keeps_sign() {
    let a = parse_dimension("-0.25turn").unwrap();
    assert_eq!(a, Angle::Turn(bits(-0.25)));
    assert_eq!(write_literal(&a), "-.25turn");
}

#[test]
fn pi_radians_written_in_degrees() {
    let a = parse_dimension("3.14159265rad").unwrap();
    assert_eq!(a, Angle::Rad(bits(3.14159265)));
    assert_eq!(write_literal(&a), "180deg");
}

#[test]
fn one_radian_stays_in_radians() {
    let a = parse_dimension("1rad").unwrap();
    assert_eq!(a, Angle::Rad(bits(1.0)));
    assert_eq!(write_literal(&a), "1rad");
}

#[test]
fn resolved_calc_collapses_to_its_leaf() {
    let c = Calc::Value(Box::new(Angle::Deg(bits(45.0))));
    let a = Angle::from_calc(c);
    assert_eq!(a, Angle::Deg(bits(45.0)));
    assert_eq!(write_literal(&a), "45deg");
}

#[test]
fn unresolved_calc_stays_an_expression() {
    let c = Calc::Sum(
        Box::new(Calc::Value(Box::new(Angle::Deg(bits(30.0))))),
        Box::new(Calc::Value(Box::new(Angle::Rad(bits(1.0))))),
    );
    let a = Angle::from_calc(c);
    assert!(a.is_expression());
    assert_eq!(a.dimension_form(None), None);
}

#[test]
fn unknown_unit_is_rejected() {
    assert_eq!(parse_dimension("10foo"), None);
    assert_eq!(Angle::from_dimension(bits(10.0), "foo"), None);
    assert_eq!(Angle::from_dimension(bits(10.0), "degs"), None);
    assert_eq!(Angle::from_dimension(bits(10.0), ""), None);
}

#[test]
fn units_match_without_ascii_case() {
    assert_eq!(AngleUnit::from_name("DEG"), Some(AngleUnit::Deg));
    assert_eq!(AngleUnit::from_name("Grad"), Some(AngleUnit::Grad));
    assert_eq!(AngleUnit::from_name("rAd"), Some(AngleUnit::Rad));
    assert_eq!(AngleUnit::from_name("TURN"), Some(AngleUnit::Turn));
    assert_eq!(AngleUnit::from_name("gra"), None);
    assert_eq!(parse_dimension("90DEG"), Some(Angle::Deg(bits(90.0))));
}

#[test]
fn unit_names_read_back() {
    for u in [AngleUnit::Deg, AngleUnit::Grad, AngleUnit::Rad, AngleUnit::Turn] {
        assert_eq!(AngleUnit::from_name(u.as_str()), Some(u));
    }
    assert_eq!(AngleUnit::Grad.as_str(), "grad");
}

#[test]
fn calc_function_name() {
    assert!(is_calc_function("calc"));
    assert!(is_calc_function("CaLc"));
    assert!(!is_calc_function("calcx"));
    assert!(!is_calc_function("min"));
}

#[test]
fn zero_in_every_unit() {
    assert!(Angle::Deg(bits(0.0)).is_zero());
    assert!(Angle::Grad(bits(0.0)).is_zero());
    assert!(Angle::Rad(bits(-0.0)).is_zero());
    assert!(Angle::Turn(bits(0.0)).is_zero());
    assert!(!Angle::Turn(bits(1e-7)).is_zero());
    assert!(!Angle::Deg(bits(-3.0)).is_zero());
    let c = Angle::Calc(Calc::Value(Box::new(Angle::Deg(bits(0.0)))));
    assert!(!c.is_zero());
}

#[test]
fn scalar_equality_ignores_units() {
    assert!(Angle::Rad(bits(1.0)).eq_scalar(bits(1.0)));
    assert!(Angle::Turn(bits(0.0)).eq_scalar(bits(-0.0)));
    assert!(!Angle::Deg(bits(1.0)).eq_scalar(bits(2.0)));
    assert!(!Angle::Deg(f32::NAN.to_bits()).eq_scalar(f32::NAN.to_bits()));
    let c = Angle::Calc(Calc::Value(Box::new(Angle::Deg(bits(1.0)))));
    assert!(!c.eq_scalar(bits(1.0)));
}

#[test]
fn scalar_ordering_ignores_units() {
    assert_eq!(Angle::Deg(bits(2.0)).partial_cmp_scalar(bits(3.0)), Some(Ordering::Less));
    assert_eq!(Angle::Grad(bits(-1.0)).partial_cmp_scalar(bits(0.0)), Some(Ordering::Less));
    assert_eq!(Angle::Turn(bits(-1.0)).partial_cmp_scalar(bits(-2.0)), Some(Ordering::Greater));
    assert_eq!(Angle::Rad(bits(-0.0)).partial_cmp_scalar(bits(0.0)), Some(Ordering::Equal));
    assert_eq!(Angle::Rad(bits(4.0)).partial_cmp_scalar(f32::NAN.to_bits()), None);
    let c = Angle::Calc(Calc::Value(Box::new(Angle::Deg(bits(1.0)))));
    assert_eq!(c.partial_cmp_scalar(bits(1.0)), None);
}

#[test]
fn float_comparisons_agree_with_std() {
    let values = [0.0f32, -0.0, 1.0, -1.0, 0.5, -2.5, f32::INFINITY, f32::NEG_INFINITY, f32::NAN, 1e-40];
    for a in values {
        for b in values {
            assert_eq!(float_eq(a.to_bits(), b.to_bits()), a == b);
            assert_eq!(float_partial_cmp(a.to_bits(), b.to_bits()), a.partial_cmp(&b));
        }
        assert_eq!(is_zero_bits(a.to_bits()), a == 0.0);
        assert_eq!(is_negative_bits(a.to_bits()), a < 0.0);
    }
}

#[test]
fn adding_to_an_expression_stays_symbolic() {
    let leaf = || Calc::Value(Box::new(Angle::Deg(bits(1.0))));
    let r = Angle::Calc(leaf()).add_symbolic(Angle::Grad(bits(2.0)));
    assert_eq!(r, Angle::Calc(Calc::Sum(Box::new(leaf()), Box::new(Calc::Value(Box::new(Angle::Grad(bits(2.0))))))));
    let r = Angle::Turn(bits(3.0)).add_symbolic(Angle::Calc(leaf()));
    assert_eq!(r, Angle::Calc(Calc::Sum(Box::new(Calc::Value(Box::new(Angle::Turn(bits(3.0))))), Box::new(leaf()))));
    let r = Angle::Calc(leaf()).add_symbolic(Angle::Calc(leaf()));
    assert_eq!(r, Angle::Calc(Calc::Sum(Box::new(leaf()), Box::new(leaf()))));
}

#[test]
fn scaling_an_expression_stays_symbolic() {
    let leaf = || Calc::Value(Box::new(Angle::Rad(bits(1.0))));
    let r = Angle::Calc(leaf()).scale_symbolic(bits(2.0));
    assert_eq!(r, Angle::Calc(Calc::Product(bits(2.0), Box::new(leaf()))));
}

#[test]
fn dimension_form_keeps_units() {
    assert_eq!(Angle::Grad(bits(50.0)).dimension_form(Some(bits(9.0))), Some((bits(50.0), AngleUnit::Grad)));
    assert_eq!(Angle::Turn(bits(0.5)).dimension_form(None), Some((bits(0.5), AngleUnit::Turn)));
    assert_eq!(Angle::Rad(bits(2.0)).dimension_form(None), Some((bits(2.0), AngleUnit::Rad)));
    assert_eq!(Angle::Rad(bits(2.0)).dimension_form(Some(bits(90.0))), Some((bits(90.0), AngleUnit::Deg)));
    assert_eq!(Angle::new(AngleUnit::Grad, bits(7.0)), Angle::Grad(bits(7.0)));
    assert_eq!(Angle::Turn(bits(7.0)).magnitude(), Some(bits(7.0)));
    assert_eq!(Angle::Turn(bits(7.0)).unit(), Some(AngleUnit::Turn));
}

#[test]
fn compaction_edges() {
    assert_eq!(compact_leading_zero("0deg", bits(0.0)), "0deg");
    assert_eq!(compact_leading_zero("-0deg", bits(-0.0)), "-0deg");
    assert_eq!(compact_leading_zero("1.5grad", bits(1.5)), "1.5grad");
    assert_eq!(compact_leading_zero("-1turn", bits(-1.0)), "-1turn");
    assert_eq!(compact_leading_zero("0.125rad", bits(0.125)), ".125rad");
    assert_eq!(compact_leading_zero("-0.75deg", bits(-0.75)), "-.75deg");
    assert_eq!(compact_leading_zero("1e-7deg", bits(1e-7)), "1e-7deg");
}

#[test]
fn calc_tree_builders() {
    let a = Calc::Value(Box::new(Angle::Deg(bits(1.0))));
    assert!(a.is_value());
    let s = Calc::Value(Box::new(Angle::Deg(bits(1.0)))).sum(Calc::Value(Box::new(Angle::Deg(bits(2.0)))));
    assert!(!s.is_value());
    let p = s.scaled(bits(3.0));
    assert!(matches!(p, Calc::Product(f, _) if f == bits(3.0)));
}
