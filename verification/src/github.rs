use crate::config::{Config, GITHUB_URL};
use crate::pull_request::{PullRequest, PullRequestView};
use crate::review::{Review, ReviewStates, ReviewView};
use crate::text::{replace, replaced};
use vstd::prelude::*;

verus! {

/// The branch a pull request comes from, as the hosting service reports it.
#[derive(Debug)]
pub struct PullRequestHead {
    pub branch: String,
}

/// A pull request as the hosting service lists it.
#[derive(Debug)]
pub struct PullRequestResponse {
    pub head: PullRequestHead,
    pub html_url: String,
    pub url: String,
}

/// A repository as the hosting service lists it.
#[derive(Debug)]
pub struct RepoResponse {
    /// Template of the address of the repository's pull requests; a placeholder for a pull
    /// request's number stands at its end.
    pub pulls_url: String,
}

/// The author of a review as the hosting service reports them.
#[derive(Debug)]
pub struct UserResponse {
    pub login: String,
}

/// A review as the hosting service lists it.
#[derive(Debug)]
pub struct ReviewResponse {
    pub state: ReviewStates,
    pub user: UserResponse,
}

impl View for ReviewResponse {
    type V = ReviewView;

    /// The review that the response describes.
    open spec fn view(&self) -> ReviewView {
        ReviewView { state: self.state, user: self.user.login@ }
    }
}

impl DeepView for ReviewResponse {
    type V = ReviewView;

    open spec fn deep_view(&self) -> ReviewView {
        self@
    }
}

impl PullRequestResponse {
    /// Starts tracking the listed pull request with the reviews fetched for it.
    pub fn to_pull_request(self, reviews: Vec<Review>) -> (pr: PullRequest)
        ensures
            pr@ == PullRequestView::created(
                self.html_url@,
                self.url@,
                self.head.branch@,
                reviews.deep_view(),
                pr.update_timestamp,
            ),
    {
        PullRequest::new(self.html_url, self.url, self.head.branch, reviews)
    }
}

impl ReviewResponse {
    /// The review that the response describes.
    pub fn to_review(self) -> (review: Review)
        ensures
            review@ == self@,
    {
        Review { state: self.state, user: self.user.login }
    }
}

/// Converts listed reviews one by one, keeping their order.
pub fn to_reviews(responses: Vec<ReviewResponse>) -> (reviews: Vec<Review>)
    ensures
        reviews.deep_view() == responses.deep_view(),
{
    let ghost all = responses@;
    let mut reviews: Vec<Review> = Vec::new();
    for response in it: responses
        invariant
            it.seq() == all,
            reviews.len() == it.index(),
            forall|i: int| 0 <= i < it.index() ==> (#[trigger] reviews@[i])@ == all[i]@,
    {
        reviews.push(response.to_review());
    }
    assert(reviews.deep_view() =~= responses.deep_view());
    reviews
}

/// Address under which the repositories of an organisation are listed.
pub open spec fn repos_url_of(organisation: Seq<char>) -> Seq<char> {
    GITHUB_URL@ + "/orgs/"@ + organisation + "/repos"@
}

/// Address under which the reviews of a pull request are listed.
pub open spec fn reviews_url_of(pull_request_url: Seq<char>) -> Seq<char> {
    pull_request_url + "/reviews"@
}

/// Address under which a repository's pull requests are listed: the template with the
/// placeholder for a number taken out.
pub open spec fn pulls_url_of(template: Seq<char>) -> Seq<char> {
    replaced(template, "{/number}"@, ""@)
}

/// Address under which the repositories of the configured organisation are listed.
pub fn repos_url(config: &Config) -> (url: String)
    ensures
        url@ == repos_url_of(config.organisation@),
{
    String::from_str(GITHUB_URL).concat("/orgs/").concat(config.organisation.as_str()).concat(
        "/repos",
    )
}

/// Address under which the reviews of the pull request at `pull_request_url` are listed.
pub fn reviews_url(pull_request_url: &str) -> (url: String)
    ensures
        url@ == reviews_url_of(pull_request_url@),
{
    String::from_str(pull_request_url).concat("/reviews")
}

/// Addresses under which the pull requests of the listed repositories are found, in the order
/// of the listing.
pub fn pull_request_urls(repos: Vec<RepoResponse>) -> (urls: Vec<String>)
    ensures
        urls.len() == repos.len(),
        forall|i: int|
            0 <= i < repos.len() ==> (#[trigger] urls[i])@ == pulls_url_of(repos[i].pulls_url@),
{
    let ghost all = repos@;
    let mut urls: Vec<String> = Vec::new();
    for repo in it: repos
        invariant
            it.seq() == all,
            urls.len() == it.index(),
            forall|i: int|
                0 <= i < it.index() ==> (#[trigger] urls[i])@ == pulls_url_of(
                    all[i].pulls_url@,
                ),
    {
        urls.push(replace(repo.pulls_url.as_str(), "{/number}", ""));
    }
    urls
}

} // verus!
