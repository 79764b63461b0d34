//! Decides when to ask in a chat for reviews of the pull requests of one feature.
//!
//! The library holds the rules and leaves the talking to its user. [`review`] judges a list
//! of reviews, [`pull_request`] keeps what is known of one pull request, and [`tracker`] goes
//! round the pull requests until every one of them is approved: it names the next thing to
//! do, and is told what came of it. [`github`] and [`zulip`] build the addresses and messages
//! for the two services and read their answers.

pub mod clock;
pub mod config;
pub mod diff;
pub mod github;
pub mod pull_request;
pub mod review;
pub mod text;
pub mod tracker;
pub mod zulip;
