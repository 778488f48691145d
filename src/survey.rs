use vstd::prelude::*;
use crate::model::TwitterUser;
use crate::pagination::FetchError;
use crate::query::{user_day_posts_path, user_day_posts_url};

verus! {

/// A survey of the members of a list on one day: the members are visited in
/// the order in which they were fetched, and each one's posts are fetched in
/// turn. The caller fetches and scores; the survey keeps the count.
pub struct Survey {
    members: Vec<TwitterUser>,
    date: String,
    next: usize,
    post_counts: Vec<usize>,
    total_posts: u64,
}

/// What a `Survey` stands for: the members, the day, how many members
/// are done, how many posts each of those had, and how many in all.
pub struct SurveyView {
    pub members: Seq<TwitterUser>,
    pub date: Seq<char>,
    pub next: nat,
    pub post_counts: Seq<usize>,
    pub total_posts: nat,
}

impl View for Survey {
    type V = SurveyView;

    closed spec fn view(&self) -> SurveyView {
        SurveyView {
            members: self.members@,
            date: self.date@,
            next: self.next as nat,
            post_counts: self.post_counts@,
            total_posts: self.total_posts as nat,
        }
    }
}

impl SurveyView {
    pub open spec fn wf(&self) -> bool {
        &&& self.next <= self.members.len()
        &&& self.post_counts.len() == self.next
    }

    /// Every member has been visited.
    pub open spec fn is_done(&self) -> bool {
        self.next >= self.members.len()
    }
}

/// A survey that stopped: the id of the member whose posts could not be
/// fetched, and the failed fetch.
#[derive(Debug, Clone)]
pub struct SurveyFailure {
    pub member_id: String,
    pub error: FetchError,
}

/// The total after adding `n` posts to `total`, held at the largest `u64`.
pub open spec fn add_posts(total: nat, n: nat) -> nat {
    if total + n > u64::MAX {
        u64::MAX as nat
    } else {
        total + n
    }
}

impl Survey {
    /// Starts a survey of `members` on day `date` (`YYYY-MM-DD`).
    pub fn new(members: Vec<TwitterUser>, date: String) -> (r: Survey)
        ensures
            r@ == (SurveyView {
                members: members@,
                date: date@,
                next: 0,
                post_counts: seq![],
                total_posts: 0,
            }),
            r@.wf(),
    {
        Survey { members, date, next: 0, post_counts: Vec::new(), total_posts: 0 }
    }

    /// Whether every member has been visited.
    pub fn is_done(&self) -> (r: bool)
        requires
            self@.wf(),
        ensures
            r == self@.is_done(),
    {
        self.next >= self.members.len()
    }

    /// The member whose posts are to be fetched next.
    pub fn current_member(&self) -> (r: &TwitterUser)
        requires
            self@.wf(),
            !self@.is_done(),
        ensures
            *r == self@.members[self@.next as int],
    {
        &self.members[self.next]
    }

    /// The first request of the fetch of the next member's posts.
    pub fn posts_url(&self) -> (r: String)
        requires
            self@.wf(),
            !self@.is_done(),
        ensures
            r@ == user_day_posts_path(self@.members[self@.next as int].id@, self@.date),
    {
        user_day_posts_url(self.members[self.next].id.as_str(), self.date.as_str())
    }

    /// Takes the outcome of the fetch of the next member's posts: the
    /// number of posts fetched, or the failure. A failure stops the survey.
    pub fn record(self, outcome: Result<usize, FetchError>) -> (r: Result<Survey, SurveyFailure>)
        requires
            self@.wf(),
            !self@.is_done(),
        ensures
            outcome is Err <==> r is Err,
            r matches Ok(s) ==> s@ == (SurveyView {
                next: self@.next + 1,
                post_counts: self@.post_counts.push(outcome->Ok_0),
                total_posts: add_posts(self@.total_posts, outcome->Ok_0 as nat),
                ..self@
            }) && s@.wf(),
            r matches Err(f) ==> f.member_id@ == self@.members[self@.next as int].id@
                && f.error == outcome->Err_0,
    {
        match outcome {
            Err(error) => {
                let member_id = self.members[self.next].id.clone();
                Err(SurveyFailure { member_id, error })
            },
            Ok(n) => {
                let count = self.members.len();
                assert(self.next < count);
                let total_posts = self.total_posts.saturating_add(n as u64);
                let mut post_counts = self.post_counts;
                post_counts.push(n);
                Ok(
                    Survey {
                        members: self.members,
                        date: self.date,
                        next: self.next + 1,
                        post_counts,
                        total_posts,
                    },
                )
            },
        }
    }

    /// Whether visited member `i` had no posts on the day; such a member's
    /// mean score is taken as 0.0.
    pub fn has_no_posts(&self, i: usize) -> (r: bool)
        requires
            self@.wf(),
            i < self@.next,
        ensures
            r == (self@.post_counts[i as int] == 0),
    {
        self.post_counts[i] == 0
    }

    /// The number of members of the list.
    pub fn member_count(&self) -> (r: usize)
        ensures
            r == self@.members.len(),
    {
        self.members.len()
    }

    /// The number of posts of the members visited so far.
    pub fn total_posts(&self) -> (r: u64)
        ensures
            r == self@.total_posts,
    {
        self.total_posts
    }

    /// The whole number of posts per member, or `None` for a list without
    /// members.
    pub fn posts_per_member(&self) -> (r: Option<u64>)
        ensures
            r is None <==> self@.members.len() == 0,
            r matches Some(q) ==> q == self@.total_posts / self@.members.len(),
    {
        if self.members.len() == 0 {
            None
        } else {
            Some(self.total_posts / (self.members.len() as u64))
        }
    }
}

} // verus!
