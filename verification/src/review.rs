use crate::diff::sequences_differ;
use vstd::prelude::*;
use vstd::std_specs::cmp::PartialEqSpec;

pub mod laws;

verus! {

/// The verdict that a review gives on a pull request.
#[allow(non_camel_case_types)]
#[derive(Debug, Clone, Copy, PartialEq, Eq, Structural)]
pub enum ReviewStates {
    APPROVED,
    CHANGES_REQUESTED,
    COMMENTED,
    DISMISSED,
}

/// One user's verdict on a pull request.
#[derive(Debug)]
pub struct Review {
    pub state: ReviewStates,
    pub user: String,
}

/// The mathematical value of a [`Review`]: its verdict and the characters of its author's name.
pub struct ReviewView {
    pub state: ReviewStates,
    pub user: Seq<char>,
}

impl View for Review {
    type V = ReviewView;

    open spec fn view(&self) -> ReviewView {
        ReviewView { state: self.state, user: self.user@ }
    }
}

impl DeepView for Review {
    type V = ReviewView;

    open spec fn deep_view(&self) -> ReviewView {
        self@
    }
}

impl PartialEq for Review {
    fn eq(&self, other: &Review) -> (equal: bool) {
        self.state == other.state && self.user == other.user
    }
}

impl vstd::std_specs::cmp::PartialEqSpecImpl for Review {
    open spec fn obeys_eq_spec() -> bool {
        true
    }

    open spec fn eq_spec(&self, other: &Review) -> bool {
        self.state == other.state && self.user@ == other.user@
    }
}

/// Two reviews compare equal exactly when their values are the same.
pub proof fn lemma_review_eq_is_view_eq(a: Review, b: Review)
    ensures
        a.eq_spec(&b) <==> a@ == b@,
{
}

/// Lists of reviews differ, entry by entry and in order, exactly when their values are not the
/// same sequence.
pub proof fn lemma_reviews_differ(a: &Vec<Review>, b: &Vec<Review>)
    ensures
        sequences_differ(a@, b@) <==> a.deep_view() != b.deep_view(),
{
    if sequences_differ(a@, b@) {
        if a@.len() == b@.len() {
            let i = choose|i: int| 0 <= i < a@.len() && !(#[trigger] a@[i]).eq_spec(&b@[i]);
            assert(a.deep_view()[i] != b.deep_view()[i]);
        } else {
            assert(a.deep_view().len() != b.deep_view().len());
        }
    } else {
        assert(a.deep_view() =~= b.deep_view());
    }
}

/// The predicate "this review carries the verdict `state`".
pub open spec fn has_state(state: ReviewStates) -> spec_fn(ReviewView) -> bool {
    |review: ReviewView| review.state == state
}

/// How many entries of `reviews` carry the verdict `state`. Every entry counts, also several
/// by one user.
pub open spec fn count_state(reviews: Seq<ReviewView>, state: ReviewStates) -> nat {
    reviews.filter(has_state(state)).len()
}

/// Full approval: at least two approving reviews and no outstanding change request.
pub open spec fn full_approval(reviews: Seq<ReviewView>) -> bool {
    &&& count_state(reviews, ReviewStates::APPROVED) >= 2
    &&& count_state(reviews, ReviewStates::CHANGES_REQUESTED) == 0
}

/// Half approval: at least one approving review and no outstanding change request.
pub open spec fn half_approval(reviews: Seq<ReviewView>) -> bool {
    &&& count_state(reviews, ReviewStates::APPROVED) >= 1
    &&& count_state(reviews, ReviewStates::CHANGES_REQUESTED) == 0
}

/// Counts the reviews that carry the verdict `state`.
pub fn count_reviews(reviews: &Vec<Review>, state: ReviewStates) -> (n: usize)
    ensures
        n == count_state(reviews.deep_view(), state),
{
    let ghost all = reviews.deep_view();
    let mut n: usize = 0;
    let mut i: usize = 0;
    while i < reviews.len()
        invariant
            all == reviews.deep_view(),
            i <= reviews.len(),
            n <= i,
            n == count_state(all.take(i as int), state),
        decreases reviews.len() - i,
    {
        proof {
            assert(all.take(i + 1) =~= all.take(i as int).push(all[i as int]));
            all.take(i as int).lemma_filter_len_push(has_state(state), all[i as int]);
        }
        if reviews[i].state == state {
            n += 1;
        }
        i += 1;
    }
    proof {
        assert(all.take(i as int) =~= all);
    }
    n
}

/// The approval status of a collection of reviews.
pub trait ReviewAnalysis {
    /// The reviews that the collection holds, in its order.
    spec fn reviews(&self) -> Seq<ReviewView>;

    /// Whether the reviews amount to full approval.
    fn approved(&self) -> (yes: bool)
        ensures
            yes == full_approval(self.reviews()),
    ;

    /// Whether the reviews amount to at least half approval.
    fn half_approved(&self) -> (yes: bool)
        ensures
            yes == half_approval(self.reviews()),
    ;
}

impl ReviewAnalysis for Vec<Review> {
    open spec fn reviews(&self) -> Seq<ReviewView> {
        self.deep_view()
    }

    fn approved(&self) -> (yes: bool) {
        let two_approvals = count_reviews(self, ReviewStates::APPROVED) >= 2;
        let no_changes_requested = count_reviews(self, ReviewStates::CHANGES_REQUESTED) == 0;
        two_approvals && no_changes_requested
    }

    fn half_approved(&self) -> (yes: bool) {
        let one_approval = count_reviews(self, ReviewStates::APPROVED) >= 1;
        let no_changes_requested = count_reviews(self, ReviewStates::CHANGES_REQUESTED) == 0;
        one_approval && no_changes_requested
    }
}

} // verus!
