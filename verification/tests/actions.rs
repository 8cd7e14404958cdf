//! Tests of the erasure action's ordering and failure handling, and of
//! the retention predicate's boundary.

use twitter_privacy::api::{APIError, ApiCall, Post, TestAPI};
use twitter_privacy::{default_maintenance_action, is_erasable, Errors};

const NOW: i64 = 86400 * 1000;

fn sample_post(days_ago: i64) -> Post {
    Post {
        id: 1,
        created_at: NOW - days_ago * 86400,
        text: String::from("a sample tweet"),
        favorited: false,
        retweeted: false,
        user_id: None,
    }
}

#[test]
fn propagates_unlike_api_errors() {
    let err = APIError::ErasureError(String::from("Unexpected error"));
    let mut api = TestAPI {
        unlike_tweet_answer: Err(err.clone()),
        ..Default::default()
    };

    let mut tweet = sample_post(1);
    tweet.favorited = true;

    assert_eq!(
        default_maintenance_action(&mut api, &tweet),
        Err(Errors::APIErrors(err))
    );
}

#[test]
fn propagates_unretweet_api_errors() {
    let err = APIError::ErasureError(String::from("Unexpected error"));
    let mut api = TestAPI {
        unretweet_tweet_answer: Err(err.clone()),
        ..Default::default()
    };

    let mut tweet = sample_post(1);
    tweet.retweeted = true;

    assert_eq!(
        default_maintenance_action(&mut api, &tweet),
        Err(Errors::APIErrors(err))
    );
}

#[test]
fn propagates_erase_api_errors() {
    let err = APIError::ErasureError(String::from("Unexpected error"));
    let mut api = TestAPI {
        erase_tweet_answer: Err(err.clone()),
        ..Default::default()
    };

    assert_eq!(
        default_maintenance_action(&mut api, &sample_post(1)),
        Err(Errors::APIErrors(err))
    );
}

#[test]
fn calls_expected_methods_if_liked() {
    let mut api = TestAPI {
        ..Default::default()
    };

    let mut tweet = sample_post(1);
    tweet.favorited = true;

    default_maintenance_action(&mut api, &tweet).unwrap();

    let expected = vec![ApiCall::UnlikeTweet, ApiCall::EraseTweet];
    assert_eq!(api.methods_called_in_order, expected);
}

#[test]
fn calls_expected_methods_if_retweeted() {
    let mut api = TestAPI {
        ..Default::default()
    };

    let mut tweet = sample_post(1);
    tweet.retweeted = true;

    default_maintenance_action(&mut api, &tweet).unwrap();

    let expected = vec![ApiCall::UnretweetTweet, ApiCall::EraseTweet];
    assert_eq!(api.methods_called_in_order, expected);
}

#[test]
fn calls_expected_methods_if_all() {
    let mut api = TestAPI {
        ..Default::default()
    };

    let mut tweet = sample_post(1);
    tweet.favorited = true;
    tweet.retweeted = true;

    default_maintenance_action(&mut api, &tweet).unwrap();

    let expected = vec![
        ApiCall::UnlikeTweet,
        ApiCall::UnretweetTweet,
        ApiCall::EraseTweet,
    ];
    assert_eq!(api.methods_called_in_order, expected);
}

#[test]
fn failed_unlike_skips_remaining_steps() {
    let err = APIError::ErasureError(String::from("still liked"));
    let mut api = TestAPI {
        unlike_tweet_answer: Err(err.clone()),
        ..Default::default()
    };

    let mut tweet = sample_post(1);
    tweet.favorited = true;
    tweet.retweeted = true;

    assert_eq!(
        default_maintenance_action(&mut api, &tweet),
        Err(Errors::APIErrors(err))
    );
    assert_eq!(api.methods_called_in_order, vec![ApiCall::UnlikeTweet]);
}

#[test]
fn delete_applies_only_to_owned_posts() {
    let mut post = sample_post(1);
    assert!(post.is_owned_by(7));
    post.user_id = Some(7);
    assert!(post.is_owned_by(7));
    post.user_id = Some(8);
    assert!(!post.is_owned_by(7));
}

#[test]
fn preserves_post_created_exactly_at_threshold() {
    for d in [0i64, 1, 7, 30, 365] {
        assert!(!is_erasable(NOW - d * 86400, d, NOW));
        assert!(is_erasable(NOW - (d + 1) * 86400, d, NOW));
    }
}

#[test]
fn erases_post_one_second_past_threshold() {
    let d = 7i64;
    assert!(!is_erasable(NOW - d * 86400 + 1, d, NOW));
    assert!(is_erasable(NOW - d * 86400 - 1, d, NOW));
}

#[test]
fn boundary_over_a_range_of_thresholds() {
    let bounded = 10i64;
    let date = NOW - bounded * 86400 - 1;

    for i in 0..=bounded {
        assert!(is_erasable(date, i, NOW));
    }
    for i in (bounded + 1)..(bounded + 365) {
        assert!(!is_erasable(date, i, NOW));
    }
}
