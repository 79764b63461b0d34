use crate::pull_request::PullRequestView;
use crate::review::{full_approval, half_approval, ReviewView};
use crate::text::has_substring;
use crate::tracker::{POLL_INTERVAL_MILLIS, STREAM};
use chrono::NaiveDateTime;
use vstd::prelude::*;

verus! {

/// The mathematical value of an [`Action`].
pub enum ActionView {
    Notify { stream: Seq<char>, topic: Seq<char>, message: Seq<char> },
    FetchReviews { url: Seq<char> },
    Sleep { millis: u64 },
    Done,
}

/// The mathematical value of an [`Event`].
pub enum EventView {
    Notified,
    Reviews(Seq<ReviewView>),
    Slept,
}

/// What the tracker is waiting for.
pub enum PhaseView {
    /// The request for a first review of entry `index` is being posted.
    FirstNotice { index: nat },
    /// The current reviews of entry `index` are being fetched.
    Reviews { index: nat },
    /// The request for a second review of entry `index` is being posted; `fetched` will be
    /// stored once it is out.
    SecondNotice { index: nat, fetched: Seq<ReviewView> },
    /// A cycle is over and the next has not begun.
    Sleeping,
    /// Every pull request is approved.
    Done,
}

/// The mathematical value of a [`Tracker`].
pub struct TrackerView {
    /// The feature whose pull requests are tracked; notifications go to the topic of this
    /// name.
    pub feature_id: Seq<char>,
    /// The working set, in its fixed order.
    pub pull_requests: Seq<PullRequestView>,
    pub phase: PhaseView,
}

/// The message that asks for a first review.
pub open spec fn first_review_request_of(html_url: Seq<char>) -> Seq<char> {
    "Can someone review "@ + html_url
}

/// The message that asks for a second review.
pub open spec fn second_review_request_of(html_url: Seq<char>) -> Seq<char> {
    "Can someone do the second review for "@ + html_url
}

/// The request to post the message that asks for a first review of `pr`.
pub open spec fn first_notice(feature_id: Seq<char>, pr: PullRequestView) -> ActionView {
    ActionView::Notify {
        stream: STREAM@,
        topic: feature_id,
        message: first_review_request_of(pr.html_url),
    }
}

/// The request to post the message that asks for a second review of `pr`.
pub open spec fn second_notice(feature_id: Seq<char>, pr: PullRequestView) -> ActionView {
    ActionView::Notify {
        stream: STREAM@,
        topic: feature_id,
        message: second_review_request_of(pr.html_url),
    }
}

/// The request to fetch the current reviews of `pr`.
pub open spec fn fetch(pr: PullRequestView) -> ActionView {
    ActionView::FetchReviews { url: pr.url }
}

/// Whether reviews fetched for a pull request call for a second review: they are not the
/// reviews stored for it, and they amount to half approval and not to full approval.
pub open spec fn calls_for_second_review(pr: PullRequestView, fetched: Seq<ReviewView>) -> bool {
    &&& fetched != pr.reviews
    &&& half_approval(fetched)
    &&& !full_approval(fetched)
}

/// The predicate "this pull request is not fully approved".
pub open spec fn is_unapproved() -> spec_fn(PullRequestView) -> bool {
    |pr: PullRequestView| !full_approval(pr.reviews)
}

/// The pull requests that are not fully approved, in their order.
pub open spec fn unapproved(pull_requests: Seq<PullRequestView>) -> Seq<PullRequestView> {
    pull_requests.filter(is_unapproved())
}

/// Every pull request is fully approved.
pub open spec fn all_approved(pull_requests: Seq<PullRequestView>) -> bool {
    forall|i: int|
        0 <= i < pull_requests.len() ==> full_approval(#[trigger] pull_requests[i].reviews)
}

/// The predicate "the name of this pull request's branch contains `feature_id`".
pub open spec fn is_of_feature(feature_id: Seq<char>) -> spec_fn(PullRequestView) -> bool {
    |pr: PullRequestView| has_substring(pr.branch, feature_id)
}

/// The pull requests whose branch name contains `feature_id`, in their order.
pub open spec fn of_feature(pull_requests: Seq<PullRequestView>, feature_id: Seq<char>) -> Seq<
    PullRequestView,
> {
    pull_requests.filter(is_of_feature(feature_id))
}

impl TrackerView {
    /// The state in which entry `index` is taken up: a first review is asked for where none
    /// was given or asked for yet, and the reviews are fetched otherwise.
    pub open spec fn at_entry(
        feature_id: Seq<char>,
        pull_requests: Seq<PullRequestView>,
        index: nat,
    ) -> TrackerView {
        TrackerView {
            feature_id,
            pull_requests,
            phase: if pull_requests[index as int].needs_first_review() {
                PhaseView::FirstNotice { index }
            } else {
                PhaseView::Reviews { index }
            },
        }
    }

    /// The state at the end of a cycle: the approved pull requests leave the working set, and
    /// the tracker is done if none is left.
    pub open spec fn at_cycle_end(
        feature_id: Seq<char>,
        pull_requests: Seq<PullRequestView>,
    ) -> TrackerView {
        let rest = unapproved(pull_requests);
        TrackerView {
            feature_id,
            pull_requests: rest,
            phase: if rest.len() == 0 {
                PhaseView::Done
            } else {
                PhaseView::Sleeping
            },
        }
    }

    /// The state once entry `index` has been dealt with: the next entry is taken up, or the
    /// cycle ends.
    pub open spec fn past_entry(
        feature_id: Seq<char>,
        pull_requests: Seq<PullRequestView>,
        index: nat,
    ) -> TrackerView {
        if index + 1 < pull_requests.len() {
            TrackerView::at_entry(feature_id, pull_requests, index + 1)
        } else {
            TrackerView::at_cycle_end(feature_id, pull_requests)
        }
    }

    /// The state a tracker starts in: done where every pull request is approved already (so
    /// also where there is none), at the first entry otherwise.
    pub open spec fn initial(
        pull_requests: Seq<PullRequestView>,
        feature_id: Seq<char>,
    ) -> TrackerView {
        if all_approved(pull_requests) {
            TrackerView { feature_id, pull_requests, phase: PhaseView::Done }
        } else {
            TrackerView::at_entry(feature_id, pull_requests, 0)
        }
    }

    /// The working set with the reviews of entry `index` replaced at time `now`.
    pub open spec fn stored(self, index: nat, fetched: Seq<ReviewView>, now: NaiveDateTime) -> Seq<
        PullRequestView,
    > {
        self.pull_requests.update(
            index as int,
            self.pull_requests[index as int].updated(fetched, now),
        )
    }

    /// The state after `event`, where `now` is the time at which it is handled. An event that
    /// does not answer what the tracker is waiting for changes nothing.
    pub open spec fn step(self, event: EventView, now: NaiveDateTime) -> TrackerView {
        match (self.phase, event) {
            (PhaseView::FirstNotice { index }, EventView::Notified) => TrackerView {
                pull_requests: self.pull_requests.update(
                    index as int,
                    self.pull_requests[index as int].marked_posted(),
                ),
                phase: PhaseView::Reviews { index },
                ..self
            },
            (PhaseView::Reviews { index }, EventView::Reviews(fetched)) => {
                if fetched == self.pull_requests[index as int].reviews {
                    TrackerView::past_entry(self.feature_id, self.pull_requests, index)
                } else if calls_for_second_review(self.pull_requests[index as int], fetched) {
                    TrackerView { phase: PhaseView::SecondNotice { index, fetched }, ..self }
                } else {
                    TrackerView::past_entry(
                        self.feature_id,
                        self.stored(index, fetched, now),
                        index,
                    )
                }
            },
            (PhaseView::SecondNotice { index, fetched }, EventView::Notified) => {
                TrackerView::past_entry(self.feature_id, self.stored(index, fetched, now), index)
            },
            (PhaseView::Sleeping, EventView::Slept) => TrackerView::at_entry(
                self.feature_id,
                self.pull_requests,
                0,
            ),
            _ => self,
        }
    }

    /// What a tracker in this state wants done.
    pub open spec fn action(self) -> ActionView {
        match self.phase {
            PhaseView::FirstNotice { index } => first_notice(
                self.feature_id,
                self.pull_requests[index as int],
            ),
            PhaseView::Reviews { index } => fetch(self.pull_requests[index as int]),
            PhaseView::SecondNotice { index, .. } => second_notice(
                self.feature_id,
                self.pull_requests[index as int],
            ),
            PhaseView::Sleeping => ActionView::Sleep { millis: POLL_INTERVAL_MILLIS },
            PhaseView::Done => ActionView::Done,
        }
    }

    /// The states a tracker can be in.
    pub open spec fn wf(self) -> bool {
        match self.phase {
            PhaseView::FirstNotice { index } => {
                &&& index < self.pull_requests.len()
                &&& self.pull_requests[index as int].needs_first_review()
            },
            PhaseView::Reviews { index } => index < self.pull_requests.len(),
            PhaseView::SecondNotice { index, fetched } => {
                &&& index < self.pull_requests.len()
                &&& calls_for_second_review(self.pull_requests[index as int], fetched)
            },
            PhaseView::Sleeping => {
                &&& self.pull_requests.len() > 0
                &&& unapproved(self.pull_requests) == self.pull_requests
            },
            PhaseView::Done => all_approved(self.pull_requests),
        }
    }
}

/// A pull request after one visit in which `fetched` came back at time `now`: it is marked
/// where a first review was asked for, and its reviews are replaced where they have changed.
pub open spec fn visited(
    pr: PullRequestView,
    fetched: Seq<ReviewView>,
    now: NaiveDateTime,
) -> PullRequestView {
    let asked = if pr.needs_first_review() {
        pr.marked_posted()
    } else {
        pr
    };
    if fetched == pr.reviews {
        asked
    } else {
        asked.updated(fetched, now)
    }
}

/// What is asked for, in order, during one visit to a pull request in which `fetched` comes
/// back: a first review where none was given or asked for, the current reviews, and a second
/// review where the change in reviews calls for one.
pub open spec fn visit_actions(
    feature_id: Seq<char>,
    pr: PullRequestView,
    fetched: Seq<ReviewView>,
) -> Seq<ActionView> {
    let first = if pr.needs_first_review() {
        seq![first_notice(feature_id, pr)]
    } else {
        Seq::empty()
    };
    let second = if calls_for_second_review(pr, fetched) {
        seq![second_notice(feature_id, pr)]
    } else {
        Seq::empty()
    };
    first + seq![fetch(pr)] + second
}

/// The working set after a cycle in which `fetched[i]` came back for entry `i`, before the
/// approved pull requests leave it.
pub open spec fn all_visited(
    pull_requests: Seq<PullRequestView>,
    fetched: Seq<Seq<ReviewView>>,
    now: NaiveDateTime,
) -> Seq<PullRequestView> {
    Seq::new(pull_requests.len(), |i: int| visited(pull_requests[i], fetched[i], now))
}

/// What is asked for, in order, during the visits to the entries from `from` on, where
/// `fetched[i]` comes back for entry `i`.
pub open spec fn cycle_actions(
    feature_id: Seq<char>,
    pull_requests: Seq<PullRequestView>,
    fetched: Seq<Seq<ReviewView>>,
    from: nat,
) -> Seq<ActionView>
    decreases pull_requests.len() - from,
{
    if from >= pull_requests.len() {
        Seq::empty()
    } else {
        visit_actions(feature_id, pull_requests[from as int], fetched[from as int])
            + cycle_actions(feature_id, pull_requests, fetched, from + 1)
    }
}

impl TrackerView {
    /// A tracker that has taken up an entry, after every action it asks for on this entry was
    /// performed at time `now` and the fetch brought back `fetched`.
    pub open spec fn visit(self, fetched: Seq<ReviewView>, now: NaiveDateTime) -> TrackerView {
        let fetching = if self.phase is FirstNotice {
            self.step(EventView::Notified, now)
        } else {
            self
        };
        let answered = fetching.step(EventView::Reviews(fetched), now);
        if answered.phase is SecondNotice {
            answered.step(EventView::Notified, now)
        } else {
            answered
        }
    }

    /// What the tracker asks for on the way from `self` to `self.visit(fetched, now)`.
    pub open spec fn visit_asks(self, fetched: Seq<ReviewView>, now: NaiveDateTime) -> Seq<
        ActionView,
    > {
        let (first, fetching) = if self.phase is FirstNotice {
            (seq![self.action()], self.step(EventView::Notified, now))
        } else {
            (Seq::empty(), self)
        };
        let answered = fetching.step(EventView::Reviews(fetched), now);
        let second = if answered.phase is SecondNotice {
            seq![answered.action()]
        } else {
            Seq::empty()
        };
        first + seq![fetching.action()] + second
    }

    /// The tracker after one visit for each list of reviews in `fetched`, in order.
    pub open spec fn visits(self, fetched: Seq<Seq<ReviewView>>, now: NaiveDateTime) -> TrackerView
        decreases fetched.len(),
    {
        if fetched.len() == 0 {
            self
        } else {
            self.visit(fetched[0], now).visits(fetched.skip(1), now)
        }
    }

    /// What the tracker asks for on the way from `self` to `self.visits(fetched, now)`.
    pub open spec fn visits_ask(self, fetched: Seq<Seq<ReviewView>>, now: NaiveDateTime) -> Seq<
        ActionView,
    >
        decreases fetched.len(),
    {
        if fetched.len() == 0 {
            Seq::empty()
        } else {
            self.visit_asks(fetched[0], now) + self.visit(fetched[0], now).visits_ask(
                fetched.skip(1),
                now,
            )
        }
    }
}

} // verus!
