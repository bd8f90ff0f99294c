use potd_wallpaper::cache::{CacheModel, State};
use potd_wallpaper::tasks::{
    display_step, pick_random_url, refresher_step, DisplayDecision, CACHE_POLL_DELAY_SECS,
    REFRESH_RETRY_DELAY_SECS, REFRESH_SUCCESS_DELAY_SECS,
};
use potd_wallpaper::Config;

fn two_urls() -> Vec<String> {
    vec!["http://a/x.jpg".to_string(), "http://b/y.jpg".to_string()]
}

#[test]
fn default_config_matches_the_documented_values() {
    let c = Config::default();
    assert_eq!(c.wallpaper_interval, 600);
    assert_eq!(c.screen_resolution, (1920, 1080));
}

#[test]
fn successful_fetch_publishes_and_rests_long() {
    let state = State::new(Config::default());
    let (published, delay) = refresher_step(&state, Some(two_urls()));
    assert!(published);
    assert_eq!(delay, REFRESH_SUCCESS_DELAY_SECS);
    assert_eq!(state.current_urls(), two_urls());
}

#[test]
fn failed_fetch_leaves_the_cache_and_retries_soon() {
    let state = State::new(Config::default());
    let (published, delay) = refresher_step(&state, None);
    assert!(!published);
    assert_eq!(delay, REFRESH_RETRY_DELAY_SECS);
    assert!(state.current_urls().is_empty());

    // A failure after a publication keeps the last published list.
    refresher_step(&state, Some(two_urls()));
    let (published, delay) = refresher_step(&state, None);
    assert!(!published);
    assert_eq!(delay, REFRESH_RETRY_DELAY_SECS);
    assert_eq!(state.current_urls(), two_urls());
}

#[test]
fn empty_fetch_counts_as_a_failure() {
    let state = State::new(Config::default());
    let (published, delay) = refresher_step(&state, Some(Vec::new()));
    assert!(!published);
    assert_eq!(delay, REFRESH_RETRY_DELAY_SECS);
    assert!(state.current_urls().is_empty());
}

#[test]
fn cache_holds_exactly_the_last_published_list() {
    let mut m = CacheModel::new();
    assert!(m.snapshot().is_empty());
    m.publish(vec!["http://a/1.jpg".to_string()]);
    assert_eq!(m.snapshot(), vec!["http://a/1.jpg".to_string()]);
    m.publish(two_urls());
    // The second publication replaces the list wholesale: no entry of
    // the first publication survives next to the new ones.
    assert_eq!(m.snapshot(), two_urls());
}

#[test]
fn empty_snapshot_waits_one_polling_period() {
    // With an empty cache the display task never reaches the provider:
    // it sleeps a fixed polling period between looks.
    let state = State::new(Config::default());
    for _ in 0..5 {
        refresher_step(&state, Some(Vec::new()));
        match display_step(&state.current_urls()) {
            DisplayDecision::Wait(delay) => assert_eq!(delay, CACHE_POLL_DELAY_SECS),
            DisplayDecision::Apply(u) => panic!("applied {} from an empty cache", u),
        }
    }
}

#[test]
fn populated_cache_applies_each_iteration() {
    // Three display iterations against a pre-populated cache of two
    // URLs: every iteration applies, each time one of the two.
    let state = State::new(Config::default());
    state.set_urls(two_urls());
    let mut applies = 0;
    for _ in 0..3 {
        let snapshot = state.current_urls();
        match display_step(&snapshot) {
            DisplayDecision::Apply(u) => {
                applies += 1;
                assert!(u == "http://a/x.jpg" || u == "http://b/y.jpg");
            }
            DisplayDecision::Wait(_) => panic!("waited despite a populated cache"),
        }
    }
    assert!(applies >= 2);
}

#[test]
fn pick_returns_none_only_for_an_empty_list() {
    let empty: Vec<String> = Vec::new();
    assert_eq!(pick_random_url(&empty), None);
    let urls = two_urls();
    for _ in 0..50 {
        let u = pick_random_url(&urls).unwrap();
        assert!(urls.contains(&u));
    }
}

#[test]
fn random_selection_is_close_to_uniform() {
    let urls: Vec<String> = vec![
        "http://u/0".to_string(),
        "http://u/1".to_string(),
        "http://u/2".to_string(),
        "http://u/3".to_string(),
    ];
    let trials = 20000;
    let mut counts = [0u32; 4];
    for _ in 0..trials {
        let u = pick_random_url(&urls).unwrap();
        let i = urls.iter().position(|x| *x == u).unwrap();
        counts[i] += 1;
    }
    let expected = trials / 4;
    for &c in counts.iter() {
        // Ten standard deviations of slack around 1/N.
        assert!(c > expected - 650 && c < expected + 650, "counts: {:?}", counts);
    }
}
