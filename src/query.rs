use vstd::prelude::*;

verus! {

/// The endpoint that lists the members of list `list_id`.
pub open spec fn list_members_path(list_id: Seq<char>) -> Seq<char> {
    "https://api.twitter.com/2/lists/"@ + list_id + "/members"@
}

/// The endpoint that lists the accounts that user `user_id` follows.
pub open spec fn user_follows_path(user_id: Seq<char>) -> Seq<char> {
    "https://api.twitter.com/2/users/"@ + user_id + "/following"@
}

/// The endpoint that lists the posts of user `user_id` on day `date`
/// (`YYYY-MM-DD`), from midnight to half past eleven in the evening, UTC.
pub open spec fn user_day_posts_path(user_id: Seq<char>, date: Seq<char>) -> Seq<char> {
    "https://api.twitter.com/2/users/"@ + user_id + "/tweets?start_time="@ + date
        + "T00:00:00.000Z&end_time="@ + date + "T23:30:00.000Z"@
}

/// The first request of a fetch of the members of a list.
pub fn list_members_url(list_id: &str) -> (r: String)
    ensures
        r@ == list_members_path(list_id@),
{
    let mut r = String::from_str("https://api.twitter.com/2/lists/");
    r.append(list_id);
    r.append("/members");
    r
}

/// The first request of a fetch of the accounts that a user follows.
pub fn user_follows_url(user_id: &str) -> (r: String)
    ensures
        r@ == user_follows_path(user_id@),
{
    let mut r = String::from_str("https://api.twitter.com/2/users/");
    r.append(user_id);
    r.append("/following");
    r
}

/// The first request of a fetch of a user's posts on one day.
pub fn user_day_posts_url(user_id: &str, date: &str) -> (r: String)
    ensures
        r@ == user_day_posts_path(user_id@, date@),
{
    let mut r = String::from_str("https://api.twitter.com/2/users/");
    r.append(user_id);
    r.append("/tweets?start_time=");
    r.append(date);
    r.append("T00:00:00.000Z&end_time=");
    r.append(date);
    r.append("T23:30:00.000Z");
    r
}

} // verus!
