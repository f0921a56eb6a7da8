use lead_reconciler::similarity::{
    is_match, is_similar, reaches_threshold, IDENTITY_BITS, THRESHOLD_BITS,
};

const SAMPLES: [&str; 12] = [
    "",
    "a",
    "acme corp",
    "acme corp.",
    "acme corporation",
    "acme",
    "zebra holdings",
    "martha",
    "marhta",
    "dixon",
    "dicksonx",
    "jellyfish",
];

#[test]
fn threshold_is_nine_tenths() {
    assert_eq!(THRESHOLD_BITS, 0.9_f64.to_bits());
    assert_eq!(IDENTITY_BITS, 1.0_f64.to_bits());
}

#[test]
fn self_score_is_one() {
    for sample in SAMPLES {
        assert_eq!(strsim::jaro_winkler(sample, sample), 1.0);
        assert!(is_similar(sample, sample));
    }
}

#[test]
fn score_is_symmetric_on_samples() {
    for a in SAMPLES {
        for b in SAMPLES {
            assert_eq!(strsim::jaro_winkler(a, b), strsim::jaro_winkler(b, a));
            assert_eq!(is_similar(a, b), is_similar(b, a));
        }
    }
}

#[test]
fn is_similar_agrees_with_the_score() {
    for a in SAMPLES {
        for b in SAMPLES {
            assert_eq!(is_similar(a, b), strsim::jaro_winkler(a, b) >= 0.9);
        }
    }
}

#[test]
fn known_scores_around_the_threshold() {
    // martha / marhta scores 0.961, dixon / dicksonx 0.813.
    assert!(is_similar("martha", "marhta"));
    assert!(!is_similar("dixon", "dicksonx"));
    assert!((strsim::jaro_winkler("martha", "marhta") - 0.9611).abs() < 0.0001);
    assert!((strsim::jaro_winkler("dixon", "dicksonx") - 0.8133).abs() < 0.0001);
}

#[test]
fn empty_against_text_does_not_match() {
    assert!(!is_similar("", "a"));
    assert!(!is_similar("a", ""));
    assert!(is_similar("", ""));
}

#[test]
fn names_differing_by_case_and_whitespace_match() {
    assert!(is_match("ACME CORP", "Acme Corp"));
    assert!(is_match("  acme corp\n", "Acme Corp"));
    assert!(is_match("Acme Corp", "\tACME corp  "));
}

#[test]
fn inner_whitespace_counts() {
    assert!(!is_similar("ab", "xy"));
    assert_eq!(is_match("a c m e", "acme"), strsim::jaro_winkler("a c m e", "acme") >= 0.9);
}

#[test]
fn dissimilar_names_do_not_match() {
    assert!(!is_match("Acme Corp", "Zebra Holdings"));
    assert!(!is_match("Acme Corp", ""));
}

#[test]
fn close_names_match() {
    assert!(is_match("Acme Corp.", "acme corp"));
    assert!(is_match("Acme Corporation", "Acme Corp"));
}

#[test]
fn the_threshold_is_inclusive() {
    assert!(reaches_threshold(0.9_f64.to_bits()));
    assert!(reaches_threshold(1.0_f64.to_bits()));
    assert!(reaches_threshold(0.9000000000000001_f64.to_bits()));
    assert!(!reaches_threshold(0.8999999999999999_f64.to_bits()));
    assert!(!reaches_threshold(0.0_f64.to_bits()));
    assert!(!reaches_threshold(0.5_f64.to_bits()));
}

#[test]
fn bit_order_is_score_order_between_zero_and_one() {
    let scores = [0.0_f64, 1e-300, 0.1, 0.5, 0.7, 0.89, 0.9, 0.95, 1.0];
    for x in scores {
        for y in scores {
            assert_eq!(x >= y, x.to_bits() >= y.to_bits());
        }
        assert_eq!(reaches_threshold(x.to_bits()), x >= 0.9);
    }
}
