use crate::clock;
use crate::diff::vec_inequality;
use crate::pull_request::PullRequest;
use crate::review::{full_approval, lemma_reviews_differ, Review, ReviewAnalysis};
use crate::text::contains;
use crate::tracker::laws::lemma_unapproved;
use crate::tracker::model::{
    all_approved, first_review_request_of, is_of_feature, is_unapproved, of_feature,
    second_review_request_of, unapproved, ActionView, EventView, PhaseView, TrackerView,
};
use chrono::NaiveDateTime;
use vstd::prelude::*;

pub mod laws;
pub mod model;

verus! {

/// The stream that notifications are posted to.
pub const STREAM: &'static str = "Pull Requests";

/// How long the tracker rests between two cycles, in milliseconds.
pub const POLL_INTERVAL_MILLIS: u64 = 1000;

/// What the tracker wants done next. Whoever drives the tracker performs it and reports back
/// with the matching [`Event`].
#[derive(Debug, PartialEq, Eq)]
pub enum Action {
    /// Post `message` to `topic` of `stream`; answered by [`Event::Notified`].
    Notify { stream: String, topic: String, message: String },
    /// Fetch the current reviews of the pull request at `url`; answered by
    /// [`Event::Reviews`].
    FetchReviews { url: String },
    /// Rest for `millis` milliseconds; answered by [`Event::Slept`].
    Sleep { millis: u64 },
    /// Nothing is left to do: every pull request is approved.
    Done,
}

impl View for Action {
    type V = ActionView;

    open spec fn view(&self) -> ActionView {
        match self {
            Action::Notify { stream, topic, message } => ActionView::Notify {
                stream: stream@,
                topic: topic@,
                message: message@,
            },
            Action::FetchReviews { url } => ActionView::FetchReviews { url: url@ },
            Action::Sleep { millis } => ActionView::Sleep { millis: *millis },
            Action::Done => ActionView::Done,
        }
    }
}

/// What happened since the tracker last asked for something.
#[derive(Debug)]
pub enum Event {
    /// The message was posted.
    Notified,
    /// The reviews were fetched, and these are they, in the order of the fetch.
    Reviews(Vec<Review>),
    /// The rest is over.
    Slept,
}

impl View for Event {
    type V = EventView;

    open spec fn view(&self) -> EventView {
        match self {
            Event::Notified => EventView::Notified,
            Event::Reviews(reviews) => EventView::Reviews(reviews.deep_view()),
            Event::Slept => EventView::Slept,
        }
    }
}

/// What a running tracker is waiting for.
enum Phase {
    FirstNotice { index: usize },
    Reviews { index: usize },
    SecondNotice { index: usize, fetched: Vec<Review> },
    Sleeping,
    Done,
}

impl View for Phase {
    type V = PhaseView;

    closed spec fn view(&self) -> PhaseView {
        match self {
            Phase::FirstNotice { index } => PhaseView::FirstNotice { index: *index as nat },
            Phase::Reviews { index } => PhaseView::Reviews { index: *index as nat },
            Phase::SecondNotice { index, fetched } => PhaseView::SecondNotice {
                index: *index as nat,
                fetched: fetched.deep_view(),
            },
            Phase::Sleeping => PhaseView::Sleeping,
            Phase::Done => PhaseView::Done,
        }
    }
}

/// Follows the pull requests of one feature until all of them are approved. The tracker only
/// decides: it says what is to be done next ([`Tracker::action`]) and takes in what came of it
/// ([`Tracker::step`]).
pub struct Tracker {
    feature_id: String,
    pull_requests: Vec<PullRequest>,
    phase: Phase,
}

impl View for Tracker {
    type V = TrackerView;

    closed spec fn view(&self) -> TrackerView {
        TrackerView {
            feature_id: self.feature_id@,
            pull_requests: self.pull_requests.deep_view(),
            phase: self.phase@,
        }
    }
}

/// The message that asks for a first review of the pull request shown at `html_url`.
pub fn first_review_request(html_url: &str) -> (message: String)
    ensures
        message@ == first_review_request_of(html_url@),
{
    String::from_str("Can someone review ").concat(html_url)
}

/// The message that asks for a second review of the pull request shown at `html_url`.
pub fn second_review_request(html_url: &str) -> (message: String)
    ensures
        message@ == second_review_request_of(html_url@),
{
    String::from_str("Can someone do the second review for ").concat(html_url)
}

/// Keeps the pull requests whose branch name contains `feature_id`, in their order.
pub fn select_feature(pull_requests: Vec<PullRequest>, feature_id: &str) -> (selected: Vec<
    PullRequest,
>)
    ensures
        selected.deep_view() == of_feature(pull_requests.deep_view(), feature_id@),
{
    let ghost all = pull_requests.deep_view();
    let mut selected: Vec<PullRequest> = Vec::new();
    for pr in it: pull_requests
        invariant
            it.seq().len() == all.len(),
            forall|i: int| 0 <= i < all.len() ==> (#[trigger] it.seq()[i])@ == all[i],
            selected.deep_view() == of_feature(all.take(it.index() as int), feature_id@),
    {
        proof {
            assert(all.take(it.index() + 1) =~= all.take(it.index() as int).push(pr@));
            all.take(it.index() as int).lemma_filter_push(pr@, is_of_feature(feature_id@));
        }
        let ghost before = selected.deep_view();
        if contains(pr.branch.as_str(), feature_id) {
            selected.push(pr);
            assert(selected.deep_view() =~= before.push(pr@));
        }
    }
    proof {
        assert(all.take(all.len() as int) =~= all);
    }
    selected
}

/// Whether every pull request is fully approved.
fn each_approved(pull_requests: &Vec<PullRequest>) -> (yes: bool)
    ensures
        yes == all_approved(pull_requests.deep_view()),
{
    let mut i: usize = 0;
    while i < pull_requests.len()
        invariant
            i <= pull_requests.len(),
            forall|j: int|
                0 <= j < i ==> full_approval(#[trigger] pull_requests.deep_view()[j].reviews),
        decreases pull_requests.len() - i,
    {
        if !pull_requests[i].reviews.approved() {
            assert(!full_approval(pull_requests.deep_view()[i as int].reviews));
            return false;
        }
        i += 1;
    }
    true
}

/// Drops the fully approved pull requests and keeps the others in their order.
fn retain_unapproved(pull_requests: Vec<PullRequest>) -> (rest: Vec<PullRequest>)
    ensures
        rest.deep_view() == unapproved(pull_requests.deep_view()),
{
    let ghost all = pull_requests.deep_view();
    let mut rest: Vec<PullRequest> = Vec::new();
    for pr in it: pull_requests
        invariant
            it.seq().len() == all.len(),
            forall|i: int| 0 <= i < all.len() ==> (#[trigger] it.seq()[i])@ == all[i],
            rest.deep_view() == unapproved(all.take(it.index() as int)),
    {
        proof {
            assert(all.take(it.index() + 1) =~= all.take(it.index() as int).push(pr@));
            all.take(it.index() as int).lemma_filter_push(pr@, is_unapproved());
        }
        let ghost before = rest.deep_view();
        if !pr.reviews.approved() {
            rest.push(pr);
            assert(rest.deep_view() =~= before.push(pr@));
        }
    }
    proof {
        assert(all.take(all.len() as int) =~= all);
    }
    rest
}

impl Tracker {
    #[verifier::type_invariant]
    spec fn well_formed(self) -> bool {
        self@.wf()
    }

    /// A tracker for the given pull requests; notifications will go to the topic
    /// `feature_id`.
    pub fn new(pull_requests: Vec<PullRequest>, feature_id: String) -> (tracker: Tracker)
        ensures
            tracker@ == TrackerView::initial(pull_requests.deep_view(), feature_id@),
            tracker@.wf(),
    {
        if each_approved(&pull_requests) {
            Tracker { feature_id, pull_requests, phase: Phase::Done }
        } else {
            Tracker::at_entry(feature_id, pull_requests, 0)
        }
    }

    /// Takes up entry `index`.
    fn at_entry(feature_id: String, pull_requests: Vec<PullRequest>, index: usize) -> (tracker:
        Tracker)
        requires
            index < pull_requests.len(),
        ensures
            tracker@ == TrackerView::at_entry(
                feature_id@,
                pull_requests.deep_view(),
                index as nat,
            ),
            tracker@.wf(),
    {
        let phase = if pull_requests[index].needs_first_review() {
            Phase::FirstNotice { index }
        } else {
            Phase::Reviews { index }
        };
        Tracker { feature_id, pull_requests, phase }
    }

    /// Leaves entry `index` behind: takes up the next, or closes the cycle.
    fn past_entry(feature_id: String, pull_requests: Vec<PullRequest>, index: usize) -> (tracker:
        Tracker)
        requires
            index < pull_requests.len(),
        ensures
            tracker@ == TrackerView::past_entry(
                feature_id@,
                pull_requests.deep_view(),
                index as nat,
            ),
            tracker@.wf(),
    {
        if index + 1 < pull_requests.len() {
            Tracker::at_entry(feature_id, pull_requests, index + 1)
        } else {
            proof {
                lemma_unapproved(pull_requests.deep_view());
            }
            let rest = retain_unapproved(pull_requests);
            let phase = if rest.len() == 0 {
                Phase::Done
            } else {
                Phase::Sleeping
            };
            Tracker { feature_id, pull_requests: rest, phase }
        }
    }

    /// What the tracker wants done next.
    pub fn action(&self) -> (action: Action)
        ensures
            action@ == self@.action(),
    {
        proof {
            use_type_invariant(self);
        }
        match &self.phase {
            Phase::FirstNotice { index } => Action::Notify {
                stream: String::from_str(STREAM),
                topic: self.feature_id.clone(),
                message: first_review_request(self.pull_requests[*index].html_url.as_str()),
            },
            Phase::Reviews { index } => Action::FetchReviews {
                url: self.pull_requests[*index].url.clone(),
            },
            Phase::SecondNotice { index, .. } => Action::Notify {
                stream: String::from_str(STREAM),
                topic: self.feature_id.clone(),
                message: second_review_request(self.pull_requests[*index].html_url.as_str()),
            },
            Phase::Sleeping => Action::Sleep { millis: POLL_INTERVAL_MILLIS },
            Phase::Done => Action::Done,
        }
    }

    /// Takes in `event` at the current time. An event that does not answer the action the
    /// tracker is waiting for changes nothing.
    pub fn step(self, event: Event) -> (next: Tracker)
        ensures
            exists|now: NaiveDateTime| next@ == #[trigger] self@.step(event@, now),
            next@.wf(),
    {
        let now = clock::now();
        self.step_at(event, now)
    }

    /// Takes in `event` at the time `now`: reviews that are stored on this occasion are
    /// stamped with it.
    pub fn step_at(self, event: Event, now: NaiveDateTime) -> (next: Tracker)
        ensures
            next@ == self@.step(event@, now),
            next@.wf(),
    {
        proof {
            use_type_invariant(&self);
        }
        let ghost before = self@;
        let Tracker { feature_id, mut pull_requests, phase } = self;
        match (phase, event) {
            (Phase::FirstNotice { index }, Event::Notified) => {
                pull_requests[index].was_posted();
                assert(pull_requests.deep_view() =~= before.pull_requests.update(
                    index as int,
                    before.pull_requests[index as int].marked_posted(),
                ));
                Tracker { feature_id, pull_requests, phase: Phase::Reviews { index } }
            },
            (Phase::Reviews { index }, Event::Reviews(fetched)) => {
                let differ = vec_inequality(
                    fetched.as_slice(),
                    pull_requests[index].reviews.as_slice(),
                );
                proof {
                    lemma_reviews_differ(&fetched, &pull_requests[index as int].reviews);
                }
                if !differ {
                    Tracker::past_entry(feature_id, pull_requests, index)
                } else if fetched.half_approved() && !fetched.approved() {
                    Tracker {
                        feature_id,
                        pull_requests,
                        phase: Phase::SecondNotice { index, fetched },
                    }
                } else {
                    pull_requests[index].update_at(fetched, now);
                    assert(pull_requests.deep_view() =~= before.stored(
                        index as nat,
                        fetched.deep_view(),
                        now,
                    ));
                    Tracker::past_entry(feature_id, pull_requests, index)
                }
            },
            (Phase::SecondNotice { index, fetched }, Event::Notified) => {
                pull_requests[index].update_at(fetched, now);
                assert(pull_requests.deep_view() =~= before.stored(
                    index as nat,
                    fetched.deep_view(),
                    now,
                ));
                Tracker::past_entry(feature_id, pull_requests, index)
            },
            (Phase::Sleeping, Event::Slept) => Tracker::at_entry(feature_id, pull_requests, 0),
            (phase, _) => Tracker { feature_id, pull_requests, phase },
        }
    }

    /// Whether every pull request is approved, so that nothing is left to do.
    pub fn is_done(&self) -> (done: bool)
        ensures
            done == (self@.phase is Done),
    {
        match &self.phase {
            Phase::Done => true,
            _ => false,
        }
    }

    /// The working set.
    pub fn pull_requests(&self) -> (pull_requests: &Vec<PullRequest>)
        ensures
            pull_requests.deep_view() == self@.pull_requests,
    {
        &self.pull_requests
    }

    /// Gives up the tracker for its working set.
    pub fn into_pull_requests(self) -> (pull_requests: Vec<PullRequest>)
        ensures
            pull_requests.deep_view() == self@.pull_requests,
    {
        self.pull_requests
    }
}

} // verus!
