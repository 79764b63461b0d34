use crate::review::{count_state, full_approval, half_approval, has_state, ReviewStates, ReviewView};
use vstd::prelude::*;

verus! {

/// Two or more approving reviews and no change request give full approval.
pub proof fn lemma_two_approvals_without_change_request(reviews: Seq<ReviewView>)
    requires
        count_state(reviews, ReviewStates::APPROVED) >= 2,
        count_state(reviews, ReviewStates::CHANGES_REQUESTED) == 0,
    ensures
        full_approval(reviews),
{
}

/// A change request anywhere among the reviews rules out full and half approval, however many
/// approvals stand beside it.
pub proof fn lemma_change_request_blocks_approval(reviews: Seq<ReviewView>, at: int)
    requires
        0 <= at < reviews.len(),
        reviews[at].state == ReviewStates::CHANGES_REQUESTED,
    ensures
        !full_approval(reviews),
        !half_approval(reviews),
{
    reviews.lemma_filter_contains(has_state(ReviewStates::CHANGES_REQUESTED), at);
}

/// Adding a change request at any position makes the reviews unapproved, whatever they were
/// before.
pub proof fn lemma_added_change_request_blocks_approval(
    reviews: Seq<ReviewView>,
    at: int,
    review: ReviewView,
)
    requires
        0 <= at <= reviews.len(),
        review.state == ReviewStates::CHANGES_REQUESTED,
    ensures
        !full_approval(reviews.insert(at, review)),
        !half_approval(reviews.insert(at, review)),
{
    lemma_change_request_blocks_approval(reviews.insert(at, review), at);
}

/// Half approval holds with exactly one approval and no change request, and with two or more;
/// so full approval implies half approval.
pub proof fn lemma_half_approval(reviews: Seq<ReviewView>)
    ensures
        count_state(reviews, ReviewStates::APPROVED) == 1 && count_state(
            reviews,
            ReviewStates::CHANGES_REQUESTED,
        ) == 0 ==> half_approval(reviews) && !full_approval(reviews),
        count_state(reviews, ReviewStates::APPROVED) >= 2 && count_state(
            reviews,
            ReviewStates::CHANGES_REQUESTED,
        ) == 0 ==> half_approval(reviews),
        full_approval(reviews) ==> half_approval(reviews),
{
}

/// The approval status is a function of the two counts alone: neither the order of the reviews
/// nor who wrote them matters.
pub proof fn lemma_approval_depends_on_counts(a: Seq<ReviewView>, b: Seq<ReviewView>)
    requires
        count_state(a, ReviewStates::APPROVED) == count_state(b, ReviewStates::APPROVED),
        count_state(a, ReviewStates::CHANGES_REQUESTED) == count_state(
            b,
            ReviewStates::CHANGES_REQUESTED,
        ),
    ensures
        full_approval(a) == full_approval(b),
        half_approval(a) == half_approval(b),
{
}

/// Taking one entry out of a sequence lowers the count of its verdict by one and leaves the
/// other counts as they are.
proof fn lemma_count_remove(reviews: Seq<ReviewView>, at: int, state: ReviewStates)
    requires
        0 <= at < reviews.len(),
    ensures
        count_state(reviews, state) == count_state(reviews.remove(at), state) + if reviews[at].state
            == state {
            1int
        } else {
            0int
        },
{
    let front = reviews.take(at);
    let back = reviews.skip(at + 1);
    assert(reviews =~= front.push(reviews[at]) + back);
    assert(reviews.remove(at) =~= front + back);
    Seq::filter_distributes_over_add(front.push(reviews[at]), back, has_state(state));
    Seq::filter_distributes_over_add(front, back, has_state(state));
    front.lemma_filter_len_push(has_state(state), reviews[at]);
}

/// The counts do not depend on the order of the reviews: two sequences that hold the same
/// reviews, each as often as the other, have the same counts.
pub proof fn lemma_count_ignores_order(a: Seq<ReviewView>, b: Seq<ReviewView>, state: ReviewStates)
    requires
        a.to_multiset() == b.to_multiset(),
    ensures
        count_state(a, state) == count_state(b, state),
    decreases a.len(),
{
    broadcast use vstd::seq_lib::group_to_multiset_ensures;

    a.to_multiset_ensures();
    b.to_multiset_ensures();
    if a.len() == 0 {
        assert(a =~= b);
    } else {
        let last = a.last();
        assert(a.contains(last));
        assert(b.to_multiset().count(last) > 0);
        assert(b.contains(last));
        let at = choose|at: int| 0 <= at < b.len() && b[at] == last;
        assert(a.remove(a.len() - 1) =~= a.drop_last());
        assert(a.drop_last().to_multiset() == b.remove(at).to_multiset());
        lemma_count_ignores_order(a.drop_last(), b.remove(at), state);
        lemma_count_remove(a, a.len() - 1, state);
        lemma_count_remove(b, at, state);
    }
}

/// The counts do not depend on who wrote the reviews: two sequences with the same verdicts
/// in the same places have the same counts.
pub proof fn lemma_count_ignores_users(a: Seq<ReviewView>, b: Seq<ReviewView>, state: ReviewStates)
    requires
        a.len() == b.len(),
        forall|i: int| 0 <= i < a.len() ==> (#[trigger] a[i]).state == b[i].state,
    ensures
        count_state(a, state) == count_state(b, state),
    decreases a.len(),
{
    if a.len() == 0 {
        assert(a =~= b);
    } else {
        lemma_count_ignores_users(a.drop_last(), b.drop_last(), state);
        lemma_count_remove(a, a.len() - 1, state);
        lemma_count_remove(b, b.len() - 1, state);
        assert(a.remove(a.len() - 1) =~= a.drop_last());
        assert(b.remove(b.len() - 1) =~= b.drop_last());
    }
}

/// The approval status depends neither on the order of the reviews nor on who wrote them.
pub proof fn lemma_approval_ignores_order_and_users(a: Seq<ReviewView>, b: Seq<ReviewView>)
    requires
        a.to_multiset() == b.to_multiset() || (a.len() == b.len() && forall|i: int|
            0 <= i < a.len() ==> (#[trigger] a[i]).state == b[i].state),
    ensures
        full_approval(a) == full_approval(b),
        half_approval(a) == half_approval(b),
{
    if a.to_multiset() == b.to_multiset() {
        lemma_count_ignores_order(a, b, ReviewStates::APPROVED);
        lemma_count_ignores_order(a, b, ReviewStates::CHANGES_REQUESTED);
    } else {
        lemma_count_ignores_users(a, b, ReviewStates::APPROVED);
        lemma_count_ignores_users(a, b, ReviewStates::CHANGES_REQUESTED);
    }
}

} // verus!
