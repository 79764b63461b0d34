use crate::clock::now;
use crate::review::{Review, ReviewView};
use chrono::NaiveDateTime;
use vstd::prelude::*;

verus! {

/// A pull request under observation, with the reviews last seen for it.
#[derive(Debug)]
pub struct PullRequest {
    /// Address of the pull request's page, quoted in notifications.
    pub html_url: String,
    /// Address of the pull request in the hosting service's API.
    pub url: String,
    /// Name of the branch the pull request comes from.
    pub branch: String,
    /// The reviews as last fetched, in the order of the fetch.
    pub reviews: Vec<Review>,
    /// UTC time at which `reviews` was last set.
    pub update_timestamp: NaiveDateTime,
    /// Whether the request for a first review has been sent.
    pub posted: bool,
}

/// The mathematical value of a [`PullRequest`].
pub struct PullRequestView {
    pub html_url: Seq<char>,
    pub url: Seq<char>,
    pub branch: Seq<char>,
    pub reviews: Seq<ReviewView>,
    pub update_timestamp: NaiveDateTime,
    pub posted: bool,
}

impl PullRequestView {
    /// A pull request as it is first recorded at time `now`: nothing has been posted for it.
    pub open spec fn created(
        html_url: Seq<char>,
        url: Seq<char>,
        branch: Seq<char>,
        reviews: Seq<ReviewView>,
        now: NaiveDateTime,
    ) -> PullRequestView {
        PullRequestView { html_url, url, branch, reviews, update_timestamp: now, posted: false }
    }

    /// The pull request after its reviews were replaced wholesale at time `now`.
    pub open spec fn updated(
        self,
        reviews: Seq<ReviewView>,
        now: NaiveDateTime,
    ) -> PullRequestView {
        PullRequestView { reviews, update_timestamp: now, ..self }
    }

    /// The pull request after the request for a first review was sent.
    pub open spec fn marked_posted(self) -> PullRequestView {
        PullRequestView { posted: true, ..self }
    }

    /// Nobody has reviewed the pull request and nobody has been asked to yet.
    pub open spec fn needs_first_review(self) -> bool {
        !self.posted && self.reviews.len() == 0
    }
}

impl View for PullRequest {
    type V = PullRequestView;

    open spec fn view(&self) -> PullRequestView {
        PullRequestView {
            html_url: self.html_url@,
            url: self.url@,
            branch: self.branch@,
            reviews: self.reviews.deep_view(),
            update_timestamp: self.update_timestamp,
            posted: self.posted,
        }
    }
}

impl DeepView for PullRequest {
    type V = PullRequestView;

    open spec fn deep_view(&self) -> PullRequestView {
        self@
    }
}

impl PullRequest {
    /// Records a pull request at the current time.
    pub fn new(html_url: String, url: String, branch: String, reviews: Vec<Review>) -> (pr:
        PullRequest)
        ensures
            pr@ == PullRequestView::created(
                html_url@,
                url@,
                branch@,
                reviews.deep_view(),
                pr.update_timestamp,
            ),
    {
        PullRequest::new_at(html_url, url, branch, reviews, now())
    }

    /// Records a pull request at the given time.
    pub fn new_at(
        html_url: String,
        url: String,
        branch: String,
        reviews: Vec<Review>,
        now: NaiveDateTime,
    ) -> (pr: PullRequest)
        ensures
            pr@ == PullRequestView::created(html_url@, url@, branch@, reviews.deep_view(), now),
    {
        PullRequest { html_url, url, branch, reviews, update_timestamp: now, posted: false }
    }

    /// Replaces the reviews and stamps the pull request with the current time.
    pub fn update(&mut self, reviews: Vec<Review>)
        ensures
            final(self)@ == old(self)@.updated(reviews.deep_view(), final(self).update_timestamp),
    {
        self.update_at(reviews, now());
    }

    /// Replaces the reviews and stamps the pull request with the given time.
    pub fn update_at(&mut self, reviews: Vec<Review>, now: NaiveDateTime)
        ensures
            final(self)@ == old(self)@.updated(reviews.deep_view(), now),
    {
        self.update_timestamp = now;
        self.reviews = reviews;
    }

    /// Notes that the request for a first review has been sent.
    pub fn was_posted(&mut self)
        ensures
            final(self)@ == old(self)@.marked_posted(),
    {
        self.posted = true;
    }

    /// Whether a first review still has to be asked for.
    pub fn needs_first_review(&self) -> (needed: bool)
        ensures
            needed == self@.needs_first_review(),
    {
        !self.posted && self.reviews.is_empty()
    }
}

/// Noting twice that the request was sent is the same as noting it once, and it leaves the
/// flag set.
pub proof fn lemma_marked_posted_idempotent(pr: PullRequestView)
    ensures
        pr.marked_posted().marked_posted() == pr.marked_posted(),
        pr.marked_posted().posted,
{
}

} // verus!
