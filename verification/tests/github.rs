use zulip_helper::config::{Config, GITHUB_URL, ZULIP_URL};
use zulip_helper::github::{
    pull_request_urls, repos_url, reviews_url, to_reviews, PullRequestHead, PullRequestResponse,
    RepoResponse, ReviewResponse, UserResponse,
};
use zulip_helper::review::{Review, ReviewStates};

fn response(state: ReviewStates, login: &str) -> ReviewResponse {
    ReviewResponse { state, user: UserResponse { login: login.to_string() } }
}

fn config(organisation: &str) -> Config {
    Config {
        zulip_user: "bot@example.org".to_string(),
        zulip_token: "token".to_string(),
        github_user: "octo".to_string(),
        github_password: "password".to_string(),
        organisation: organisation.to_string(),
    }
}

#[test]
fn service_addresses() {
    assert_eq!(GITHUB_URL, "https://api.github.com");
    assert_eq!(ZULIP_URL, "https://zulip.patagona.de");
}

#[test]
fn to_review_keeps_state_and_login() {
    let review = response(ReviewStates::CHANGES_REQUESTED, "alice").to_review();
    assert_eq!(review.state, ReviewStates::CHANGES_REQUESTED);
    assert_eq!(review.user, "alice");
    let review = response(ReviewStates::APPROVED, "").to_review();
    assert_eq!(review.state, ReviewStates::APPROVED);
    assert_eq!(review.user, "");
}

#[test]
fn to_reviews_keeps_the_order() {
    let reviews = to_reviews(vec![
        response(ReviewStates::COMMENTED, "alice"),
        response(ReviewStates::APPROVED, "bob"),
        response(ReviewStates::DISMISSED, "carol"),
    ]);
    let expected = vec![
        Review { state: ReviewStates::COMMENTED, user: "alice".to_string() },
        Review { state: ReviewStates::APPROVED, user: "bob".to_string() },
        Review { state: ReviewStates::DISMISSED, user: "carol".to_string() },
    ];
    assert!(reviews == expected);
    assert!(to_reviews(Vec::new()).is_empty());
}

#[test]
fn to_pull_request_starts_unposted_with_the_given_reviews() {
    let listed = PullRequestResponse {
        head: PullRequestHead { branch: "feature/ABC-1-gears".to_string() },
        html_url: "https://github.com/acme/widgets/pull/7".to_string(),
        url: "https://api.github.com/repos/acme/widgets/pulls/7".to_string(),
    };
    let reviews = vec![Review { state: ReviewStates::APPROVED, user: "alice".to_string() }];
    let pr = listed.to_pull_request(reviews);
    assert_eq!(pr.html_url, "https://github.com/acme/widgets/pull/7");
    assert_eq!(pr.url, "https://api.github.com/repos/acme/widgets/pulls/7");
    assert_eq!(pr.branch, "feature/ABC-1-gears");
    let expected = vec![Review { state: ReviewStates::APPROVED, user: "alice".to_string() }];
    assert!(pr.reviews == expected);
    assert!(!pr.posted);
}

#[test]
fn repos_url_names_the_organisation() {
    assert_eq!(repos_url(&config("acme")), "https://api.github.com/orgs/acme/repos");
    assert_eq!(repos_url(&config("")), "https://api.github.com/orgs//repos");
}

#[test]
fn reviews_url_appends_the_listing() {
    assert_eq!(
        reviews_url("https://api.github.com/repos/acme/widgets/pulls/7"),
        "https://api.github.com/repos/acme/widgets/pulls/7/reviews"
    );
    assert_eq!(reviews_url(""), "/reviews");
}

#[test]
fn pull_request_urls_drop_the_placeholder() {
    let urls = pull_request_urls(vec![
        RepoResponse {
            pulls_url: "https://api.github.com/repos/acme/widgets/pulls{/number}".to_string(),
        },
        RepoResponse {
            pulls_url: "https://api.github.com/repos/acme/gears/pulls{/number}".to_string(),
        },
        RepoResponse { pulls_url: "https://api.github.com/repos/acme/plain/pulls".to_string() },
    ]);
    assert_eq!(
        urls,
        vec![
            "https://api.github.com/repos/acme/widgets/pulls".to_string(),
            "https://api.github.com/repos/acme/gears/pulls".to_string(),
            "https://api.github.com/repos/acme/plain/pulls".to_string(),
        ]
    );
    assert!(pull_request_urls(Vec::new()).is_empty());
}

#[test]
fn pull_request_urls_drop_every_placeholder() {
    let urls = pull_request_urls(vec![
        RepoResponse { pulls_url: "{/number}a{/number}b{/number}".to_string() },
        RepoResponse { pulls_url: "{/number".to_string() },
        RepoResponse { pulls_url: "".to_string() },
    ]);
    assert_eq!(urls, vec!["ab".to_string(), "{/number".to_string(), "".to_string()]);
}
