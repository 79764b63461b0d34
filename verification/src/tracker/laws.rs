use crate::pull_request::PullRequestView;
use crate::review::{full_approval, half_approval, ReviewView};
use crate::tracker::model::{
    all_approved, all_visited, calls_for_second_review, cycle_actions, fetch, first_notice,
    is_unapproved, second_notice, unapproved, visit_actions, visited, ActionView, EventView,
    PhaseView, TrackerView,
};
use chrono::NaiveDateTime;
use vstd::prelude::*;

verus! {

/// No pull request is left once the approved ones are dropped exactly when every one is
/// approved; and dropping the approved ones a second time drops nothing more.
pub proof fn lemma_unapproved(pull_requests: Seq<PullRequestView>)
    ensures
        unapproved(pull_requests).len() == 0 <==> all_approved(pull_requests),
        unapproved(unapproved(pull_requests)) == unapproved(pull_requests),
    decreases pull_requests.len(),
{
    reveal(Seq::filter);
    if pull_requests.len() > 0 {
        let front = pull_requests.drop_last();
        lemma_unapproved(front);
        front.lemma_filter_push(pull_requests.last(), is_unapproved());
        assert(front.push(pull_requests.last()) =~= pull_requests);
        unapproved(front).lemma_filter_push(pull_requests.last(), is_unapproved());
        if all_approved(pull_requests) {
            assert forall|i: int| 0 <= i < front.len() implies full_approval(
                #[trigger] front[i].reviews,
            ) by {
                assert(front[i] == pull_requests[i]);
            }
        }
        if unapproved(pull_requests).len() == 0 {
            assert forall|i: int| 0 <= i < pull_requests.len() implies full_approval(
                #[trigger] pull_requests[i].reviews,
            ) by {
                if i < front.len() {
                    assert(front[i] == pull_requests[i]);
                }
            }
        }
    }
}

/// A tracker starts in one of the states it can be in.
pub proof fn lemma_initial_wf(pull_requests: Seq<PullRequestView>, feature_id: Seq<char>)
    ensures
        TrackerView::initial(pull_requests, feature_id).wf(),
{
}

/// Whatever is reported to it, and whenever, a tracker stays in one of the states it can be
/// in.
pub proof fn lemma_step_wf(tracker: TrackerView, event: EventView, now: NaiveDateTime)
    requires
        tracker.wf(),
    ensures
        tracker.step(event, now).wf(),
{
    match tracker.phase {
        PhaseView::Reviews { index } => {
            if let EventView::Reviews(fetched) = event {
                lemma_unapproved(tracker.pull_requests);
                lemma_unapproved(tracker.stored(index, fetched, now));
            }
        },
        PhaseView::SecondNotice { index, fetched } => {
            lemma_unapproved(tracker.stored(index, fetched, now));
        },
        _ => {},
    }
}

/// A tracker starts out done exactly when every pull request it is given is approved. With
/// no pull request at all it is done at once, and asks for nothing.
pub proof fn lemma_initially_done_iff_all_approved(
    pull_requests: Seq<PullRequestView>,
    feature_id: Seq<char>,
)
    ensures
        TrackerView::initial(pull_requests, feature_id).phase is Done <==> all_approved(
            pull_requests,
        ),
        pull_requests.len() == 0 ==> TrackerView::initial(pull_requests, feature_id).action()
            == ActionView::Done,
{
}

/// A cycle ends with the tracker done exactly when every pull request of the working set is
/// approved by then; the working set that remains is then empty. Otherwise the tracker rests,
/// and the working set holds the unapproved pull requests.
pub proof fn lemma_cycle_ends_done_iff_all_approved(
    feature_id: Seq<char>,
    pull_requests: Seq<PullRequestView>,
)
    ensures
        ({
            let end = TrackerView::at_cycle_end(feature_id, pull_requests);
            &&& end.phase is Done <==> all_approved(pull_requests)
            &&& end.phase is Done ==> end.pull_requests.len() == 0
            &&& end.phase is Done || end.phase is Sleeping
            &&& end.pull_requests == unapproved(pull_requests)
        }),
{
    lemma_unapproved(pull_requests);
}

/// Between two cycles, the tracker is done exactly when every pull request of the working
/// set is approved.
pub proof fn lemma_done_iff_all_approved(tracker: TrackerView)
    requires
        tracker.wf(),
        tracker.phase is Done || tracker.phase is Sleeping,
    ensures
        tracker.phase is Done <==> all_approved(tracker.pull_requests),
{
    lemma_unapproved(tracker.pull_requests);
}

/// A tracker that is done asks for nothing more, and stays as it is whatever is reported.
pub proof fn lemma_done_is_final(tracker: TrackerView, event: EventView, now: NaiveDateTime)
    requires
        tracker.phase is Done,
    ensures
        tracker.action() == ActionView::Done,
        tracker.step(event, now) == tracker,
{
}

/// A first review is asked for only where none was asked for before, and when the request
/// is out the pull request is marked and its reviews are fetched.
pub proof fn lemma_first_notice_marks(tracker: TrackerView, now: NaiveDateTime)
    requires
        tracker.wf(),
        tracker.phase is FirstNotice,
    ensures
        ({
            let index = tracker.phase->FirstNotice_index;
            let pr = tracker.pull_requests[index as int];
            let next = tracker.step(EventView::Notified, now);
            &&& !pr.posted
            &&& next.pull_requests == tracker.pull_requests.update(
                index as int,
                pr.marked_posted(),
            )
            &&& next.phase == PhaseView::Reviews { index }
        }),
{
}

/// For a pull request that is marked no first review is asked for again: a visit to it
/// begins with the fetch, and leaves it marked.
pub proof fn lemma_marked_is_not_asked_again(
    feature_id: Seq<char>,
    pull_requests: Seq<PullRequestView>,
    index: nat,
    fetched: Seq<ReviewView>,
    now: NaiveDateTime,
)
    requires
        index < pull_requests.len(),
        pull_requests[index as int].posted,
    ensures
        TrackerView::at_entry(feature_id, pull_requests, index).phase == (PhaseView::Reviews {
            index,
        }),
        visit_actions(feature_id, pull_requests[index as int], fetched)[0] == fetch(
            pull_requests[index as int],
        ),
        visited(pull_requests[index as int], fetched, now).posted,
{
}

/// `later` is the pull request `earlier` at a later time: it is found at the same addresses
/// and on the same branch, and the note that a first review was asked for has not been taken
/// back.
pub open spec fn follows(later: PullRequestView, earlier: PullRequestView) -> bool {
    &&& later.html_url == earlier.html_url
    &&& later.url == earlier.url
    &&& later.branch == earlier.branch
    &&& earlier.posted ==> later.posted
}

/// Nothing enters the working set, no pull request in it changes its addresses or its
/// branch, and for none is the note taken back that a first review was asked for. The note
/// is made for a pull request only when the tracker hears that the request for its first
/// review is out.
pub proof fn lemma_step_follows(
    tracker: TrackerView,
    event: EventView,
    now: NaiveDateTime,
    j: int,
)
    requires
        tracker.wf(),
        0 <= j < tracker.step(event, now).pull_requests.len(),
    ensures
        exists|i: int|
            {
                let later = tracker.step(event, now).pull_requests[j];
                let earlier = #[trigger] tracker.pull_requests[i];
                &&& 0 <= i < tracker.pull_requests.len()
                &&& follows(later, earlier)
                &&& later.posted && !earlier.posted ==> tracker.phase == (PhaseView::FirstNotice {
                    index: i as nat,
                }) && event == EventView::Notified
            },
{
    let next = tracker.step(event, now).pull_requests;
    // The working set as the event leaves it, before any pull request is dropped.
    let handled = match (tracker.phase, event) {
        (PhaseView::FirstNotice { index }, EventView::Notified) => next,
        (PhaseView::Reviews { index }, EventView::Reviews(fetched)) => {
            if fetched == tracker.pull_requests[index as int].reviews || calls_for_second_review(
                tracker.pull_requests[index as int],
                fetched,
            ) {
                tracker.pull_requests
            } else {
                tracker.stored(index, fetched, now)
            }
        },
        (PhaseView::SecondNotice { index, fetched }, EventView::Notified) => tracker.stored(
            index,
            fetched,
            now,
        ),
        _ => tracker.pull_requests,
    };
    assert(handled.len() == tracker.pull_requests.len());
    assert forall|i: int| 0 <= i < handled.len() implies {
        let later = #[trigger] handled[i];
        let earlier = tracker.pull_requests[i];
        &&& follows(later, earlier)
        &&& later.posted && !earlier.posted ==> tracker.phase == (PhaseView::FirstNotice {
            index: i as nat,
        }) && event == EventView::Notified
    } by {}
    assert(next == handled || next == unapproved(handled));
    let i = if next == handled {
        j
    } else {
        assert(unapproved(handled).contains(next[j]));
        handled.lemma_filter_contains_rev(is_unapproved(), next[j]);
        choose|i: int| 0 <= i < handled.len() && handled[i] == next[j]
    };
    assert(handled[i] == next[j]);
    assert(follows(next[j], tracker.pull_requests[i]));
}

/// One visit to a pull request does what the three steps of the cycle say. From the state
/// in which an entry is taken up, with every action performed and `fetched` brought back, the
/// tracker asks for exactly the actions of a visit, the pull request is as a visit leaves it,
/// and the tracker goes on to the next entry or to the end of the cycle.
pub proof fn lemma_visit(
    feature_id: Seq<char>,
    pull_requests: Seq<PullRequestView>,
    index: nat,
    fetched: Seq<ReviewView>,
    now: NaiveDateTime,
)
    requires
        index < pull_requests.len(),
    ensures
        ({
            let tracker = TrackerView::at_entry(feature_id, pull_requests, index);
            let pr = pull_requests[index as int];
            &&& tracker.visit(fetched, now) == TrackerView::past_entry(
                feature_id,
                pull_requests.update(index as int, visited(pr, fetched, now)),
                index,
            )
            &&& tracker.visit_asks(fetched, now) == visit_actions(feature_id, pr, fetched)
        }),
{
    let tracker = TrackerView::at_entry(feature_id, pull_requests, index);
    let pr = pull_requests[index as int];
    let fetching = if tracker.phase is FirstNotice {
        tracker.step(EventView::Notified, now)
    } else {
        tracker
    };
    let after = pull_requests.update(index as int, visited(pr, fetched, now));
    if fetched == pr.reviews {
        assert(fetching.pull_requests =~= after);
    } else {
        assert(fetching.stored(index, fetched, now) =~= after);
    }
    assert(tracker.visit_asks(fetched, now) =~= visit_actions(feature_id, pr, fetched));
}

/// The working set in the middle of a cycle: the entries before `from` have been visited, the
/// others not yet.
spec fn visited_before(
    pull_requests: Seq<PullRequestView>,
    fetched: Seq<Seq<ReviewView>>,
    now: NaiveDateTime,
    from: nat,
) -> Seq<PullRequestView> {
    Seq::new(
        pull_requests.len(),
        |i: int|
            if i < from {
                visited(pull_requests[i], fetched[i], now)
            } else {
                pull_requests[i]
            },
    )
}

/// The rest of a cycle, from the entry `from` on.
proof fn lemma_cycle_from(
    feature_id: Seq<char>,
    pull_requests: Seq<PullRequestView>,
    fetched: Seq<Seq<ReviewView>>,
    now: NaiveDateTime,
    from: nat,
)
    requires
        from < pull_requests.len(),
        fetched.len() == pull_requests.len(),
    ensures
        ({
            let tracker = TrackerView::at_entry(
                feature_id,
                visited_before(pull_requests, fetched, now, from),
                from,
            );
            &&& tracker.visits(fetched.skip(from as int), now) == TrackerView::at_cycle_end(
                feature_id,
                all_visited(pull_requests, fetched, now),
            )
            &&& tracker.visits_ask(fetched.skip(from as int), now) == cycle_actions(
                feature_id,
                pull_requests,
                fetched,
                from,
            )
        }),
    decreases pull_requests.len() - from,
{
    let current = visited_before(pull_requests, fetched, now, from);
    let next = visited_before(pull_requests, fetched, now, from + 1);
    let rest = fetched.skip(from as int);
    let tracker = TrackerView::at_entry(feature_id, current, from);
    let after = tracker.visit(rest[0], now);
    let asked = visit_actions(feature_id, pull_requests[from as int], fetched[from as int]);
    let later = cycle_actions(feature_id, pull_requests, fetched, from + 1);

    lemma_visit(feature_id, current, from, fetched[from as int], now);
    assert(current.update(
        from as int,
        visited(current[from as int], fetched[from as int], now),
    ) =~= next);
    assert(after == TrackerView::past_entry(feature_id, next, from));
    assert(tracker.visit_asks(rest[0], now) == asked);
    assert(rest.skip(1) =~= fetched.skip(from as int + 1));
    assert(tracker.visits(rest, now) == after.visits(rest.skip(1), now));
    assert(tracker.visits_ask(rest, now) == asked + after.visits_ask(rest.skip(1), now));
    assert(cycle_actions(feature_id, pull_requests, fetched, from) == asked + later);
    if from + 1 < pull_requests.len() {
        lemma_cycle_from(feature_id, pull_requests, fetched, now, from + 1);
    } else {
        assert(next =~= all_visited(pull_requests, fetched, now));
        assert(after.visits(rest.skip(1), now) == after);
        assert(after.visits_ask(rest.skip(1), now) == later);
    }
}

/// A whole cycle does what the algorithm says: every pull request of the working set is
/// visited once, in order, and then the approved ones leave. Where `fetched[i]` is what the
/// fetch for entry `i` brings back, the tracker asks for the actions of the visits one after
/// another, and ends the cycle with the visited pull requests that are not approved, done if
/// there is none and resting otherwise.
pub proof fn lemma_cycle(
    feature_id: Seq<char>,
    pull_requests: Seq<PullRequestView>,
    fetched: Seq<Seq<ReviewView>>,
    now: NaiveDateTime,
)
    requires
        pull_requests.len() > 0,
        fetched.len() == pull_requests.len(),
    ensures
        ({
            let start = TrackerView::at_entry(feature_id, pull_requests, 0);
            &&& start.visits(fetched, now) == TrackerView::at_cycle_end(
                feature_id,
                all_visited(pull_requests, fetched, now),
            )
            &&& start.visits_ask(fetched, now) == cycle_actions(
                feature_id,
                pull_requests,
                fetched,
                0,
            )
        }),
{
    lemma_cycle_from(feature_id, pull_requests, fetched, now, 0);
    assert(visited_before(pull_requests, fetched, now, 0) =~= pull_requests);
    assert(fetched.skip(0) =~= fetched);
}

/// A pull request without reviews is announced once. The visit that finds it so asks for a
/// first review and marks it; while it stays without reviews, later visits only fetch and
/// change nothing.
pub proof fn lemma_unreviewed_is_announced_once(
    feature_id: Seq<char>,
    pr: PullRequestView,
    now: NaiveDateTime,
    later: NaiveDateTime,
)
    requires
        pr.needs_first_review(),
    ensures
        ({
            let none = Seq::<ReviewView>::empty();
            let marked = visited(pr, none, now);
            &&& visit_actions(feature_id, pr, none) == seq![first_notice(feature_id, pr), fetch(pr)]
            &&& marked == pr.marked_posted()
            &&& visit_actions(feature_id, marked, none) == seq![fetch(pr)]
            &&& visited(marked, none, later) == marked
        }),
{
    let none = Seq::<ReviewView>::empty();
    let marked = visited(pr, none, now);
    assert(pr.reviews =~= none);
    assert(visit_actions(feature_id, pr, none) =~= seq![first_notice(feature_id, pr), fetch(pr)]);
    assert(visit_actions(feature_id, marked, none) =~= seq![fetch(pr)]);
}

/// Reviews that have changed and amount to half approval, not to full approval, are
/// announced: the visit ends by asking for a second review, and the reviews are stored with
/// the time of the visit. Whether a first review was asked for, and what was announced
/// before, makes no difference.
pub proof fn lemma_half_approval_is_announced(
    feature_id: Seq<char>,
    pr: PullRequestView,
    fetched: Seq<ReviewView>,
    now: NaiveDateTime,
)
    requires
        calls_for_second_review(pr, fetched),
    ensures
        visit_actions(feature_id, pr, fetched).last() == second_notice(feature_id, pr),
        visited(pr, fetched, now).reviews == fetched,
        visited(pr, fetched, now).update_timestamp == now,
{
}

/// Full approval ends the tracking of a pull request without a word: the visit that finds
/// it asks for no second review and stores the reviews, and at the end of the cycle the pull
/// request is not in the working set any more.
pub proof fn lemma_full_approval_is_silent(
    feature_id: Seq<char>,
    pull_requests: Seq<PullRequestView>,
    index: nat,
    fetched: Seq<ReviewView>,
    now: NaiveDateTime,
)
    requires
        index < pull_requests.len(),
        full_approval(fetched),
    ensures
        ({
            let pr = pull_requests[index as int];
            let seen = visited(pr, fetched, now);
            let end = TrackerView::at_cycle_end(
                feature_id,
                pull_requests.update(index as int, seen),
            );
            &&& !calls_for_second_review(pr, fetched)
            &&& visit_actions(feature_id, pr, fetched).last() == fetch(pr)
            &&& seen.reviews == fetched
            &&& !end.pull_requests.contains(seen)
        }),
{
    let pr = pull_requests[index as int];
    let seen = visited(pr, fetched, now);
    let rest = unapproved(pull_requests.update(index as int, seen));
    if rest.contains(seen) {
        let at = choose|at: int| 0 <= at < rest.len() && rest[at] == seen;
        pull_requests.update(index as int, seen).lemma_filter_pred(is_unapproved(), at);
    }
}

/// Every return to half approval is announced anew. Let a pull request be seen with reviews
/// `half` that amount to half approval and no more, then with any other reviews, then with
/// `half` again: the last visit asks for a second review, whatever the first announced.
pub proof fn lemma_return_to_half_approval_is_announced(
    feature_id: Seq<char>,
    pr: PullRequestView,
    half: Seq<ReviewView>,
    other: Seq<ReviewView>,
    now: NaiveDateTime,
)
    requires
        half_approval(half),
        !full_approval(half),
        other != half,
    ensures
        ({
            let between = visited(visited(pr, half, now), other, now);
            &&& calls_for_second_review(between, half)
            &&& visit_actions(feature_id, between, half).last() == second_notice(feature_id, pr)
        }),
{
}

} // verus!
