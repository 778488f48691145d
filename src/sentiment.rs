use vstd::prelude::*;
use vader_sentiment::SentimentIntensityAnalyzer;
use crate::score::{is_finite_bits, is_nan_bits, is_unit_bits, normalize_score};

verus! {

/// Relies on vader_sentiment's `SentimentIntensityAnalyzer::polarity_scores`:
/// its result always holds a "compound" entry, which is 0.0 or the clamped
/// normalisation of the summed valences, so either not-a-number or a value
/// in [-1, 1]. Which value comes out may differ between processes: the
/// analyser walks hash maps whose order each process seeds.
#[verifier::external_body]
fn compound_bits(text: &str) -> (r: u64)
    ensures
        is_nan_bits(r) || is_unit_bits(r),
{
    let analyzer = SentimentIntensityAnalyzer::new();
    analyzer.polarity_scores(text)["compound"].to_bits()
}

/// The score of a post: the bit pattern of VADER's compound polarity of its
/// text, with a non-finite polarity replaced by the neutral `+0.0`. It is
/// always a finite double in [-1, 1].
pub fn score_post(text: &str) -> (r: u64)
    ensures
        is_finite_bits(r),
        is_unit_bits(r),
{
    normalize_score(compound_bits(text))
}

} // verus!
