//! Sentiment survey of the members of a curated social-media list.
//!
//! The library holds the logic of a run: the cursor-paginated fetch protocol
//! (as a state machine that the caller drives with the pages it received),
//! the construction of the request URLs, the reading of the configured log
//! level, the scoring of posts and the score handling (normalisation of
//! not-a-number scores, median selection) carried out on IEEE-754 bit
//! patterns, and the survey that visits the members of a list in turn.
pub mod model;
pub mod pagination;
pub mod query;
pub mod score;
pub mod sentiment;
pub mod survey;

pub use model::{APIResponse, APIResponseMeta, Config, LogLevel, Tweet, TwitterUser};
pub use pagination::{
    next_page_url, url_has_query, FetchError, FetchFailure, PageStep, Paginator,
};
pub use score::{median_index, normalize_score, score_key, sorted_keys};
pub use query::{list_members_url, user_day_posts_url, user_follows_url};
pub use survey::{Survey, SurveyFailure};
pub use sentiment::score_post;
