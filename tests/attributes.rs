use openenc::attrs::{eq_ignore_ascii_case, field_value_to_json, AttrValue, Attrs};
use openenc::colors::{parse_colours, Colour};
use openenc::depth::Real;
use openenc::features::{depare_style, lights_style, lndare_style, soundg_style};
use openenc::numtext::parse_i64;

fn exact(m: i64, e: i32) -> Real {
    Real { mantissa: m, exponent: e }
}

fn attrs(entries: Vec<(&str, AttrValue)>) -> Attrs {
    let mut a = Attrs::new();
    for (k, v) in entries {
        a.insert(k.to_string(), v);
    }
    a
}

#[test]
fn colour_codes() {
    assert_eq!(Colour::from_i64(1), Some(Colour::White));
    assert_eq!(Colour::from_i64(3), Some(Colour::Red));
    assert_eq!(Colour::from_i64(13), Some(Colour::Pink));
    assert_eq!(Colour::from_i64(0), None);
    assert_eq!(Colour::from_i64(14), None);
    assert_eq!(Colour::from_i64(-3), None);
}

#[test]
fn parse_colours_forms() {
    let a = attrs(vec![("COLOUR", AttrValue::IntList(vec![3, 99, 4]))]);
    assert_eq!(parse_colours(&a), vec![Colour::Red, Colour::Green]);
    let a = attrs(vec![("COLOUR", AttrValue::TextList(vec!["6".to_string(), "x".to_string(), "+1".to_string()]))]);
    assert_eq!(parse_colours(&a), vec![Colour::Yellow, Colour::White]);
    let a = attrs(vec![("COLOUR", AttrValue::Int(4))]);
    assert_eq!(parse_colours(&a), vec![Colour::Green]);
    let a = attrs(vec![("COLOUR", AttrValue::Text("11".to_string()))]);
    assert_eq!(parse_colours(&a), vec![Colour::Orange]);
    let a = attrs(vec![("COLOUR", AttrValue::Real(exact(3, 0)))]);
    assert_eq!(parse_colours(&a), vec![]);
    let a = attrs(vec![]);
    assert_eq!(parse_colours(&a), vec![]);
}

#[test]
fn integer_text_parsing() {
    assert_eq!(parse_i64("42"), Some(42));
    assert_eq!(parse_i64("+7"), Some(7));
    assert_eq!(parse_i64("-12"), Some(-12));
    assert_eq!(parse_i64(""), None);
    assert_eq!(parse_i64("-"), None);
    assert_eq!(parse_i64("1 2"), None);
    assert_eq!(parse_i64("9223372036854775807"), Some(i64::MAX));
    assert_eq!(parse_i64("9223372036854775808"), None);
    assert_eq!(parse_i64("-9223372036854775808"), Some(i64::MIN));
    assert_eq!(parse_i64("99999999999999999999999"), None);
}

#[test]
fn exact_comparisons() {
    // 3.0 as a binary double: 6755399441055744 * 2^-51
    let three = exact(6755399441055744, -51);
    assert_eq!(three.cmp_int(3), 0);
    assert!(three.le_int(3));
    assert!(!three.lt_int(3));
    let three_and_half = exact(7, -1);
    assert_eq!(three_and_half.cmp_int(3), 1);
    assert_eq!(exact(-1, 0).cmp_int(0), -1);
    assert_eq!(exact(1, 100).cmp_int(9), 1);
    assert_eq!(exact(-1, 100).cmp_int(9), -1);
    assert_eq!(exact(i64::MAX, -200).cmp_int(1), -1);
    assert_eq!(exact(0, -200).cmp_int(0), 0);
    assert_eq!(Real::from_int(9).cmp_int(9), 0);
    assert_eq!(exact(1, 62).cmp_int(i64::MAX), -1);
    assert_eq!(exact(1, 63).cmp_int(i64::MAX), 1);
    assert_eq!(exact(-1, 63).cmp_int(i64::MIN), 0);
    assert_eq!(exact(-1, 64).cmp_int(i64::MIN), -1);
    assert_eq!(exact(i64::MAX, -1).cmp_int(i64::MAX / 2), 1);
    assert_eq!(exact(i64::MIN, -63).cmp_int(-1), 0);
    assert_eq!(exact(3, -70).cmp_int(i64::MIN), 1);
}

#[test]
fn attribute_map_insert_replaces() {
    let mut a = Attrs::new();
    a.insert("A".to_string(), AttrValue::Int(1));
    a.insert("B".to_string(), AttrValue::Int(2));
    a.insert("A".to_string(), AttrValue::Int(3));
    assert_eq!(a.len(), 2);
    assert!(matches!(a.get("A"), Some(AttrValue::Int(3))));
    assert!(matches!(a.get("B"), Some(AttrValue::Int(2))));
    assert!(a.get("a").is_none());
}

#[test]
fn case_insensitive_names() {
    assert!(eq_ignore_ascii_case("Depare", "DEPARE"));
    assert!(!eq_ignore_ascii_case("DEPARE", "DEPARES"));
    assert!(!eq_ignore_ascii_case("M_COVR", "M-COVR"));
}

#[test]
fn dates_become_text() {
    let v = field_value_to_json(&AttrValue::Stamp("2020-01-02".to_string())).unwrap();
    assert!(matches!(v, AttrValue::Text(ref s) if s == "2020-01-02"));
    let v = field_value_to_json(&AttrValue::IntList(vec![1, 2])).unwrap();
    assert!(matches!(v, AttrValue::IntList(ref l) if l == &vec![1, 2]));
}

#[test]
fn depth_area_bands() {
    let ac = |d1: Option<Real>, d2: Option<Real>| {
        let mut e = vec![];
        if let Some(x) = d1 {
            e.push(("DRVAL1", AttrValue::Real(x)));
        }
        if let Some(x) = d2 {
            e.push(("DRVAL2", AttrValue::Real(x)));
        }
        depare_style(&attrs(e)).ac.unwrap()
    };
    assert_eq!(ac(Some(exact(-2, 0)), Some(exact(0, 0))), "DEPIT");
    assert_eq!(ac(Some(exact(-2, 0)), Some(exact(1, 0))), "DEPVS");
    assert_eq!(ac(Some(exact(3, 0)), None), "DEPVS");
    assert_eq!(ac(Some(exact(7, -1)), None), "DEPMS");
    assert_eq!(ac(Some(exact(6, 0)), None), "DEPMS");
    assert_eq!(ac(Some(exact(9, 0)), None), "DEPMD");
    assert_eq!(ac(Some(exact(19, -1)), None), "DEPDW");
    assert_eq!(ac(None, None), "DEPDW");
    let s = depare_style(&attrs(vec![("DRVAL1", AttrValue::Int(5))]));
    assert_eq!(s.ac.as_deref(), Some("DEPMS"));
    assert_eq!(s.lc.as_deref(), Some("CHGRD"));
    assert_eq!(s.sy, None);
}

#[test]
fn light_symbols() {
    let sy = |catlit: Option<i64>, colour: Vec<&str>| {
        let mut e = vec![("COLOUR", AttrValue::TextList(colour.iter().map(|c| c.to_string()).collect()))];
        if let Some(c) = catlit {
            e.push(("CATLIT", AttrValue::Int(c)));
        }
        lights_style(&attrs(e)).sy.unwrap()
    };
    assert_eq!(sy(Some(8), vec!["3"]), "LIGHTS81");
    assert_eq!(sy(Some(8), vec!["4"]), "LIGHTS82");
    assert_eq!(sy(None, vec!["3", "4"]), "LIGHTS11");
    assert_eq!(sy(Some(1), vec!["4"]), "LIGHTS12");
    assert_eq!(sy(None, vec!["6"]), "LIGHTS13");
    assert_eq!(sy(None, vec!["1"]), "LITDEF11");
    assert_eq!(sy(None, vec![]), "LITDEF11");
    let s = lights_style(&attrs(vec![]));
    assert_eq!(s.ac, None);
    assert_eq!(s.lc, None);
}

#[test]
fn land_and_sounding_styles() {
    let s = lndare_style(&attrs(vec![]));
    assert_eq!(s.ac.as_deref(), Some("LANDA"));
    assert_eq!(s.lc.as_deref(), Some("CSTLN"));
    assert_eq!(s.sy.as_deref(), Some("LNDARE01"));
    let shallow = soundg_style(&attrs(vec![("DEPTH", AttrValue::Real(exact(17, -1)))]));
    assert_eq!(shallow.ac.as_deref(), Some("SNDG2"));
    let deep = soundg_style(&attrs(vec![("DEPTH", AttrValue::Real(exact(9, 0)))]));
    assert_eq!(deep.ac.as_deref(), Some("SNDG1"));
    let none = soundg_style(&attrs(vec![]));
    assert_eq!(none.ac, None);
}
