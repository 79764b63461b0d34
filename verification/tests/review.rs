use zulip_helper::diff::vec_inequality;
use zulip_helper::review::{count_reviews, Review, ReviewAnalysis, ReviewStates};

fn review(state: ReviewStates, user: &str) -> Review {
    Review { state, user: user.to_string() }
}

fn approved_by(user: &str) -> Review {
    review(ReviewStates::APPROVED, user)
}

fn changes_requested_by(user: &str) -> Review {
    review(ReviewStates::CHANGES_REQUESTED, user)
}

#[test]
fn no_reviews_are_neither_approved_nor_half_approved() {
    let reviews: Vec<Review> = Vec::new();
    assert!(!reviews.approved());
    assert!(!reviews.half_approved());
}

#[test]
fn one_approval_is_half_approved_only() {
    let reviews = vec![approved_by("alice")];
    assert!(!reviews.approved());
    assert!(reviews.half_approved());
}

#[test]
fn two_approvals_are_approved_and_half_approved() {
    let reviews = vec![approved_by("alice"), approved_by("bob")];
    assert!(reviews.approved());
    assert!(reviews.half_approved());
}

#[test]
fn three_approvals_are_approved() {
    let reviews = vec![approved_by("alice"), approved_by("bob"), approved_by("carol")];
    assert!(reviews.approved());
    assert!(reviews.half_approved());
}

#[test]
fn a_change_request_blocks_approval_whatever_the_number_of_approvals() {
    let reviews = vec![
        approved_by("alice"),
        approved_by("bob"),
        approved_by("carol"),
        changes_requested_by("dave"),
    ];
    assert!(!reviews.approved());
    assert!(!reviews.half_approved());
}

#[test]
fn a_change_request_blocks_approval_wherever_it_stands() {
    let first = vec![changes_requested_by("dave"), approved_by("alice"), approved_by("bob")];
    let middle = vec![approved_by("alice"), changes_requested_by("dave"), approved_by("bob")];
    let last = vec![approved_by("alice"), approved_by("bob"), changes_requested_by("dave")];
    assert!(!first.approved());
    assert!(!middle.approved());
    assert!(!last.approved());
    assert!(!first.half_approved());
    assert!(!middle.half_approved());
    assert!(!last.half_approved());
}

#[test]
fn a_change_request_alone_is_not_half_approved() {
    let reviews = vec![changes_requested_by("dave")];
    assert!(!reviews.approved());
    assert!(!reviews.half_approved());
}

#[test]
fn two_approvals_by_one_user_count_twice() {
    let reviews = vec![approved_by("alice"), approved_by("alice")];
    assert!(reviews.approved());
    assert_eq!(count_reviews(&reviews, ReviewStates::APPROVED), 2);
}

#[test]
fn comments_and_dismissals_count_for_nothing() {
    let reviews = vec![
        review(ReviewStates::COMMENTED, "alice"),
        review(ReviewStates::DISMISSED, "bob"),
        review(ReviewStates::COMMENTED, "carol"),
    ];
    assert!(!reviews.approved());
    assert!(!reviews.half_approved());
    let with_approvals = vec![
        review(ReviewStates::COMMENTED, "alice"),
        approved_by("bob"),
        review(ReviewStates::DISMISSED, "carol"),
        approved_by("dave"),
    ];
    assert!(with_approvals.approved());
    assert!(with_approvals.half_approved());
}

#[test]
fn approval_does_not_depend_on_order_or_names() {
    let one =
        vec![approved_by("alice"), review(ReviewStates::COMMENTED, "bob"), approved_by("carol")];
    let other = vec![approved_by("x"), approved_by("y"), review(ReviewStates::COMMENTED, "z")];
    assert_eq!(one.approved(), other.approved());
    assert_eq!(one.half_approved(), other.half_approved());
    assert!(one.approved());
}

#[test]
fn count_reviews_counts_each_state() {
    let reviews = vec![
        approved_by("alice"),
        changes_requested_by("bob"),
        review(ReviewStates::COMMENTED, "carol"),
        approved_by("dave"),
        review(ReviewStates::DISMISSED, "erin"),
        approved_by("frank"),
    ];
    assert_eq!(count_reviews(&reviews, ReviewStates::APPROVED), 3);
    assert_eq!(count_reviews(&reviews, ReviewStates::CHANGES_REQUESTED), 1);
    assert_eq!(count_reviews(&reviews, ReviewStates::COMMENTED), 1);
    assert_eq!(count_reviews(&reviews, ReviewStates::DISMISSED), 1);
    assert_eq!(count_reviews(&Vec::new(), ReviewStates::APPROVED), 0);
}

#[test]
fn reviews_are_equal_when_state_and_user_are() {
    assert!(approved_by("alice") == approved_by("alice"));
    assert!(approved_by("alice") != approved_by("bob"));
    assert!(approved_by("alice") != changes_requested_by("alice"));
}

#[test]
fn equal_sequences_do_not_differ() {
    let a = vec![approved_by("alice"), changes_requested_by("bob")];
    let b = vec![approved_by("alice"), changes_requested_by("bob")];
    assert!(!vec_inequality(&a, &b));
    let empty: Vec<Review> = Vec::new();
    assert!(!vec_inequality(&empty, &Vec::new()));
}

#[test]
fn sequences_of_different_length_differ() {
    let a = vec![approved_by("alice")];
    let b = vec![approved_by("alice"), approved_by("bob")];
    assert!(vec_inequality(&a, &b));
    assert!(vec_inequality(&b, &a));
    assert!(vec_inequality(&a, &Vec::new()));
}

#[test]
fn sequences_with_different_users_differ() {
    let a = vec![approved_by("alice")];
    let b = vec![approved_by("bob")];
    assert!(a.half_approved() && b.half_approved());
    assert!(vec_inequality(&a, &b));
}

#[test]
fn sequences_in_different_order_differ() {
    let a = vec![approved_by("alice"), approved_by("bob")];
    let b = vec![approved_by("bob"), approved_by("alice")];
    assert!(vec_inequality(&a, &b));
}

#[test]
fn sequences_that_differ_in_the_last_entry_differ() {
    let a = vec![approved_by("alice"), approved_by("bob"), approved_by("carol")];
    let b = vec![approved_by("alice"), approved_by("bob"), changes_requested_by("carol")];
    assert!(vec_inequality(&a, &b));
}

#[test]
fn vec_inequality_works_on_other_types() {
    assert!(!vec_inequality(&[1u32, 2, 3], &[1u32, 2, 3]));
    assert!(vec_inequality(&[1u32, 2, 3], &[1u32, 3, 2]));
    assert!(vec_inequality(&["a"], &["a", "b"]));
}
