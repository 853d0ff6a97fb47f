use hwgen::builder::{
    record_c_define, record_c_enum_typedef, record_c_enum_value, record_hw_define,
    record_hw_enum_value,
};
use hwgen::classify::classify_tokens;
use hwgen::ir::{CTypes, HWDefine, HWDefineType};

fn toks(words: &[&str]) -> Vec<String> {
    words.iter().map(|w| w.to_string()).collect()
}

#[test]
fn classify_two_tokens_is_scalar() {
    let r = classify_tokens(&toks(&["X_VAL", "3"]));
    assert_eq!(r, Some(vec!["3".to_string()]));
}

#[test]
fn classify_parenthesized_scalar() {
    let r = classify_tokens(&toks(&["X_VAL", "(", "3", ")"]));
    assert_eq!(r, Some(vec!["3".to_string()]));
}

#[test]
fn classify_range_pair() {
    let r = classify_tokens(&toks(&["X_RANGE", "1", ":", "7"]));
    assert_eq!(r, Some(vec!["1".to_string(), "7".to_string()]));
}

#[test]
fn classify_shifted_value() {
    let r = classify_tokens(&toks(&["X_SHIFT", "(", "1", "<<", "5", ")"]));
    assert_eq!(r, Some(vec!["1<<5".to_string()]));
}

#[test]
fn classify_shifted_scaled_value() {
    let r = classify_tokens(&toks(&["X_BIG", "(", "(", "1", "<<", "2", ")", "*", "3", ")"]));
    assert_eq!(r, Some(vec!["(1<<2)*3".to_string()]));
}

#[test]
fn classify_rejects_other_lengths() {
    assert_eq!(classify_tokens(&toks(&["X"])), None);
    assert_eq!(classify_tokens(&toks(&["X", "a", "b"])), None);
    assert_eq!(classify_tokens(&toks(&["X", "a", "b", "c", "d"])), None);
    assert_eq!(classify_tokens(&toks(&["X", "a", "b", "c", "d", "e", "f"])), None);
    assert_eq!(
        classify_tokens(&toks(&["X", "a", "b", "c", "d", "e", "f", "g", "h"])),
        None
    );
}

#[test]
fn classify_rejects_nonmatching_shapes() {
    assert_eq!(classify_tokens(&toks(&["X", "a", "b", "c"])), None);
    assert_eq!(classify_tokens(&toks(&["X", "(", "1", "+", "5", ")"])), None);
    assert_eq!(
        classify_tokens(&toks(&["X", "(", "(", "1", ">>", "2", ")", "*", "3", ")"])),
        None
    );
}

#[test]
fn record_define_inserts_classified_macro() {
    let mut defines: Vec<(String, HWDefine)> = Vec::new();
    record_hw_define(&mut defines, "X_VAL".to_string(), &toks(&["X_VAL", "(", "3", ")"]));
    assert_eq!(defines.len(), 1);
    assert_eq!(defines[0].0, "X_VAL");
    assert!(matches!(defines[0].1.hwtype, HWDefineType::Value));
    assert_eq!(defines[0].1.vals, vec!["3".to_string()]);
}

#[test]
fn record_define_drops_unclassifiable_macro() {
    let mut defines: Vec<(String, HWDefine)> = Vec::new();
    record_hw_define(&mut defines, "X_FN".to_string(), &toks(&["X_FN", "a", "b"]));
    assert!(defines.is_empty());
}

#[test]
fn record_define_skips_reserved_names() {
    let mut defines: Vec<(String, HWDefine)> = Vec::new();
    record_hw_define(&mut defines, "__GUARD".to_string(), &toks(&["__GUARD", "1"]));
    assert!(defines.is_empty());
}

#[test]
fn record_define_overwrites_last_write_wins() {
    let mut defines: Vec<(String, HWDefine)> = Vec::new();
    record_hw_define(&mut defines, "X".to_string(), &toks(&["X", "1"]));
    record_hw_define(&mut defines, "X".to_string(), &toks(&["X", "2"]));
    assert_eq!(defines.len(), 1);
    assert_eq!(defines[0].1.vals, vec!["2".to_string()]);
}

#[test]
fn record_enum_value_skips_packed() {
    let mut defines: Vec<(String, HWDefine)> = Vec::new();
    record_hw_enum_value(&mut defines, "packed".to_string(), "1".to_string());
    assert!(defines.is_empty());
    record_hw_enum_value(&mut defines, "E_ONE".to_string(), "1".to_string());
    assert_eq!(defines.len(), 1);
    assert_eq!(defines[0].1.vals, vec!["1".to_string()]);
}

#[test]
fn record_c_define_and_enum() {
    let mut types: Vec<(String, CTypes)> = Vec::new();
    record_c_define(&mut types, "X_VAL".to_string(), &toks(&["X_VAL", "3"]));
    record_c_enum_value(&mut types, "E_A".to_string(), "4".to_string());
    record_c_enum_typedef(&mut types, "MY_ENUM".to_string());
    assert_eq!(types.len(), 3);
    assert_eq!(types[0].1.vals, vec!["3".to_string()]);
    assert_eq!(types[1].1.vals, vec!["4".to_string()]);
    assert_eq!(types[2].1.vals, vec!["u32".to_string()]);
}
