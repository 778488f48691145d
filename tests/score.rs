use sentimentoor::{median_index, normalize_score, score_key, score_post, sorted_keys};

fn median(means: &[f64]) -> Option<f64> {
    let keys: Vec<u64> = means.iter().map(|m| score_key(normalize_score(m.to_bits()))).collect();
    median_index(&keys).map(|i| means[i])
}

#[test]
fn nan_score_becomes_zero() {
    let r = normalize_score(f64::NAN.to_bits());
    assert_eq!(r, 0);
    assert_eq!(f64::from_bits(r), 0.0);
    let other_nan = f64::from_bits(0xfff8_0000_0000_0001);
    assert!(other_nan.is_nan());
    assert_eq!(normalize_score(other_nan.to_bits()), 0);
}

#[test]
fn finite_scores_are_kept() {
    for v in [0.0f64, -0.0, 0.5, -0.75, 1.0, -1.0, 3.5, f64::MAX, f64::MIN_POSITIVE] {
        assert_eq!(normalize_score(v.to_bits()), v.to_bits());
    }
}

#[test]
fn infinite_score_becomes_zero() {
    assert_eq!(normalize_score(f64::INFINITY.to_bits()), 0);
    assert_eq!(normalize_score(f64::NEG_INFINITY.to_bits()), 0);
    assert_eq!(f64::from_bits(normalize_score(f64::NEG_INFINITY.to_bits())), 0.0);
}

#[test]
fn keys_order_like_scores() {
    let values = [-1.0f64, -0.5, -0.0, 0.0, 0.1, 0.5, 1.0];
    for w in values.windows(2) {
        assert!(score_key(w[0].to_bits()) < score_key(w[1].to_bits()));
    }
    assert_eq!(score_key(0.0f64.to_bits()), 0x8000_0000_0000_0000);
    assert_eq!(score_key((-0.0f64).to_bits()), 0x7fff_ffff_ffff_ffff);
}

#[test]
fn median_even_count_takes_upper_middle() {
    assert_eq!(median(&[0.1, 0.5, 0.2, 0.8]), Some(0.5));
}

#[test]
fn median_odd_count() {
    assert_eq!(median(&[0.3, 0.9, 0.1]), Some(0.3));
}

#[test]
fn median_with_negative_scores() {
    assert_eq!(median(&[-0.5, 0.25, -1.0]), Some(-0.5));
    assert_eq!(median(&[0.25, -0.5]), Some(0.25));
}

#[test]
fn median_of_one_and_of_equal_values() {
    assert_eq!(median(&[0.7]), Some(0.7));
    assert_eq!(median(&[0.2, 0.2, 0.2, 0.2]), Some(0.2));
}

#[test]
fn median_of_nothing_is_none() {
    assert_eq!(median(&[]), None);
    assert_eq!(median_index(&Vec::new()), None);
}

#[test]
fn median_index_points_into_input() {
    assert_eq!(median_index(&vec![5, 1, 9, 3]), Some(0));
    assert_eq!(median_index(&vec![4, 4, 1]), Some(0));
}

#[test]
fn sorted_copy_is_ascending() {
    assert_eq!(sorted_keys(&vec![3, 1, 2, 1, 9, 0]), vec![0, 1, 1, 2, 3, 9]);
    assert_eq!(sorted_keys(&Vec::new()), Vec::<u64>::new());
}

#[test]
fn positive_post_scores_above_zero() {
    let score = f64::from_bits(score_post("I love this, it is great!"));
    assert!(score > 0.5 && score <= 1.0);
}

#[test]
fn negative_post_scores_below_zero() {
    let score = f64::from_bits(score_post("This is terrible and awful."));
    assert!(score < -0.5 && score >= -1.0);
}

#[test]
fn post_without_sentiment_scores_zero() {
    assert_eq!(f64::from_bits(score_post("")), 0.0);
    assert_eq!(f64::from_bits(score_post("the table")), 0.0);
}
