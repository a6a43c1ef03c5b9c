use live_activity::progress::normalize_progress;
use live_activity::state_map::StateMap;

fn state(pairs: &[(&str, &str)]) -> StateMap {
    let mut m = StateMap::new();
    for (k, v) in pairs {
        m.insert((*k).to_string(), (*v).to_string());
    }
    m
}

#[test]
fn progress_fraction_is_used_directly() {
    let p = normalize_progress(&state(&[("progress", "0.25")]));
    assert_eq!(p.scaled, 25000);
    assert_eq!(p.text, "25.0%");
}

#[test]
fn percent_is_scaled_down() {
    let p = normalize_progress(&state(&[("percent", "80")]));
    assert_eq!(p.scaled, 80000);
    assert_eq!(p.text, "80%");
}

#[test]
fn progress_wins_over_percent() {
    let p = normalize_progress(&state(&[("progress", "0.25"), ("percent", "80")]));
    assert_eq!(p.scaled, 25000);
    // the percent literal still owns the display text
    assert_eq!(p.text, "80%");
}

#[test]
fn unparsable_progress_falls_back_to_percent() {
    let p = normalize_progress(&state(&[("progress", "abc"), ("percent", "40")]));
    assert_eq!(p.scaled, 40000);
    assert_eq!(p.text, "40%");
}

#[test]
fn unparsable_input_falls_back_to_zero() {
    let p = normalize_progress(&state(&[("progress", "abc")]));
    assert_eq!(p.scaled, 0);
    assert_eq!(p.text, "0.0%");
}

#[test]
fn missing_keys_give_zero() {
    let p = normalize_progress(&state(&[]));
    assert_eq!(p.scaled, 0);
    assert_eq!(p.text, "0.0%");
}

#[test]
fn negative_progress_clamps_to_zero() {
    let p = normalize_progress(&state(&[("progress", "-0.5")]));
    assert_eq!(p.scaled, 0);
    assert_eq!(p.text, "0.0%");
}

#[test]
fn negative_percent_clamps_to_zero() {
    let p = normalize_progress(&state(&[("percent", "-12")]));
    assert_eq!(p.scaled, 0);
    assert_eq!(p.text, "-12%");
}

#[test]
fn overlarge_progress_clamps_to_one() {
    let p = normalize_progress(&state(&[("progress", "1.5")]));
    assert_eq!(p.scaled, 100000);
    assert_eq!(p.text, "100.0%");
}

#[test]
fn overlarge_percent_clamps_fraction_but_keeps_text() {
    let p = normalize_progress(&state(&[("percent", "250")]));
    assert_eq!(p.scaled, 100000);
    assert_eq!(p.text, "250%");
}

#[test]
fn percent_literal_is_kept_even_unparsable() {
    let p = normalize_progress(&state(&[("percent", "abc")]));
    assert_eq!(p.scaled, 0);
    assert_eq!(p.text, "abc%");
}

#[test]
fn percent_with_decimals_keeps_caller_precision() {
    let p = normalize_progress(&state(&[("percent", "80.5")]));
    assert_eq!(p.scaled, 80500);
    assert_eq!(p.text, "80.5%");
}

#[test]
fn fraction_formats_with_one_decimal_digit() {
    let p = normalize_progress(&state(&[("progress", "0.333")]));
    assert_eq!(p.scaled, 33300);
    assert_eq!(p.text, "33.3%");
}

#[test]
fn display_rounds_half_up() {
    let p = normalize_progress(&state(&[("progress", "0.0005")]));
    assert_eq!(p.scaled, 50);
    assert_eq!(p.text, "0.1%");
}

#[test]
fn just_below_one_is_not_whole() {
    let p = normalize_progress(&state(&[("progress", "0.99999")]));
    assert_eq!(p.scaled, 99999);
}

#[test]
fn leading_point_parses() {
    let p = normalize_progress(&state(&[("progress", ".5")]));
    assert_eq!(p.scaled, 50000);
    assert_eq!(p.text, "50.0%");
}

#[test]
fn trailing_point_parses() {
    let p = normalize_progress(&state(&[("progress", "5.")]));
    assert_eq!(p.scaled, 100000);
}

#[test]
fn plus_sign_parses() {
    let p = normalize_progress(&state(&[("progress", "+0.5")]));
    assert_eq!(p.scaled, 50000);
}

#[test]
fn lone_point_is_not_a_literal() {
    let p = normalize_progress(&state(&[("progress", ".")]));
    assert_eq!(p.scaled, 0);
}

#[test]
fn exponent_form_is_not_a_literal() {
    let p = normalize_progress(&state(&[("progress", "1e-1")]));
    assert_eq!(p.scaled, 0);
}

#[test]
fn fraction_digits_beyond_the_seventh_truncate() {
    let p = normalize_progress(&state(&[("progress", "0.123456789")]));
    assert_eq!(p.scaled, 12345);
}

#[test]
fn huge_magnitudes_saturate_and_clamp() {
    let p = normalize_progress(&state(&[("percent", "99999999999999999999999")]));
    assert_eq!(p.scaled, 100000);
}

#[test]
fn last_write_wins_inside_the_state_blob() {
    let mut m = StateMap::new();
    m.insert("progress".to_string(), "0.2".to_string());
    m.insert("progress".to_string(), "0.4".to_string());
    let p = normalize_progress(&m);
    assert_eq!(p.scaled, 40000);
}

#[test]
fn state_blob_lookup_reads_latest_value() {
    let mut m = StateMap::new();
    m.insert("percent".to_string(), "10".to_string());
    m.insert("other".to_string(), "x".to_string());
    m.insert("percent".to_string(), "30".to_string());
    assert_eq!(m.get("percent").unwrap(), "30");
    assert_eq!(m.get("other").unwrap(), "x");
    assert!(m.get("missing").is_none());
}
