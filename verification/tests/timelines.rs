//! Tests of the pagination walker and the full cleanup run, driven by the
//! scripted gateway stub.

use twitter_privacy::api::{APIError, ApiCall, Post, TestAPI};
use twitter_privacy::{clear_user_timelines, process_timeline, Errors, Feed};

const NOW: i64 = 86400 * 1000;

fn sample_post(days_ago: i64) -> Post {
    Post {
        id: 1,
        created_at: NOW - days_ago * 86400,
        text: String::from("a sample tweet"),
        favorited: false,
        retweeted: false,
        user_id: None,
    }
}

fn erase_count(api: &TestAPI) -> usize {
    api.methods_called_in_order
        .iter()
        .filter(|c| **c == ApiCall::EraseTweet)
        .count()
}

#[test]
fn propagates_errors_from_user_tl() {
    let err = APIError::TimelineError(String::from("bad answer"));
    let mut api = TestAPI {
        user_timeline_next_page_answers: vec![Err(err.clone())],
        ..Default::default()
    };

    assert_eq!(
        clear_user_timelines(&mut api, 10, NOW),
        Err(Errors::APIErrors(err))
    );
}

#[test]
fn propagates_errors_from_likes_tl() {
    let err = APIError::TimelineError(String::from("bad answer"));
    let mut api = TestAPI {
        likes_timeline_next_page_answers: vec![Err(err.clone())],
        ..Default::default()
    };

    assert_eq!(
        clear_user_timelines(&mut api, 10, NOW),
        Err(Errors::APIErrors(err))
    );
}

#[test]
fn calls_expected_methods_in_api() {
    let mut api = TestAPI {
        ..Default::default()
    };

    clear_user_timelines(&mut api, 10, NOW).unwrap();

    let expected_calls = vec![ApiCall::UserTimelineNextPage, ApiCall::LikesTimelineNextPage];

    assert_eq!(api.methods_called_in_order, expected_calls);
}

#[test]
fn propagates_dataset_errors() {
    let err = APIError::TimelineError(String::from("Unexpected error"));
    let mut api = TestAPI {
        user_timeline_next_page_answers: vec![Err(err.clone())],
        ..Default::default()
    };

    assert_eq!(
        process_timeline(&mut api, Feed::User, 1, NOW),
        Err(Errors::APIErrors(err))
    );
}

#[test]
fn propagates_action_errors() {
    let err = APIError::ErasureError(String::from("Unexpected error"));
    let mut api = TestAPI {
        user_timeline_next_page_answers: vec![Ok(vec![sample_post(5)])],
        erase_tweet_answer: Err(err.clone()),
        ..Default::default()
    };

    assert_eq!(
        process_timeline(&mut api, Feed::User, 1, NOW),
        Err(Errors::APIErrors(err))
    );
}

#[test]
fn returns_ok_on_empty_dataset() {
    let mut api = TestAPI {
        ..Default::default()
    };

    assert_eq!(process_timeline(&mut api, Feed::User, 1, NOW), Ok(()));
}

#[test]
fn consumes_full_dataset() {
    let pages: Vec<Result<Vec<Post>, APIError>> =
        (0..4).map(|_| Ok(vec![sample_post(5)])).collect();
    let mut api = TestAPI {
        user_timeline_next_page_answers: pages,
        ..Default::default()
    };

    process_timeline(&mut api, Feed::User, 1, NOW).unwrap();

    assert_eq!(erase_count(&api), 4);
}

#[test]
fn only_calls_action_for_tweets_within_expected_time_window() {
    let mut pages: Vec<Result<Vec<Post>, APIError>> = Vec::new();
    for _ in 0..3 {
        pages.push(Ok(vec![sample_post(5)]));
    }
    for _ in 0..2 {
        pages.push(Ok(vec![sample_post(2)]));
    }
    let mut api = TestAPI {
        user_timeline_next_page_answers: pages,
        ..Default::default()
    };

    process_timeline(&mut api, Feed::User, 4, NOW).unwrap();

    assert_eq!(erase_count(&api), 3);
}

#[test]
fn walker_erases_eligible_items_in_page_order() {
    let page1 = vec![sample_post(30), sample_post(2), sample_post(20)];
    let page2 = vec![sample_post(40)];
    let mut api = TestAPI {
        user_timeline_next_page_answers: vec![Ok(page1), Ok(page2)],
        ..Default::default()
    };

    assert_eq!(process_timeline(&mut api, Feed::User, 7, NOW), Ok(()));

    let expected = vec![
        ApiCall::UserTimelineNextPage,
        ApiCall::EraseTweet,
        ApiCall::EraseTweet,
        ApiCall::UserTimelineNextPage,
        ApiCall::EraseTweet,
        ApiCall::UserTimelineNextPage,
    ];
    assert_eq!(api.methods_called_in_order, expected);
}

#[test]
fn walker_stops_at_failed_page() {
    let err = APIError::TimelineError(String::from("gone"));
    let page1 = vec![sample_post(30), sample_post(20)];
    let mut api = TestAPI {
        user_timeline_next_page_answers: vec![Ok(page1), Err(err.clone())],
        ..Default::default()
    };

    assert_eq!(
        process_timeline(&mut api, Feed::User, 7, NOW),
        Err(Errors::APIErrors(err))
    );

    let expected = vec![
        ApiCall::UserTimelineNextPage,
        ApiCall::EraseTweet,
        ApiCall::EraseTweet,
        ApiCall::UserTimelineNextPage,
    ];
    assert_eq!(api.methods_called_in_order, expected);
}

#[test]
fn end_to_end_erases_only_posts_past_threshold() {
    let page = vec![sample_post(2), sample_post(10), sample_post(40)];
    let mut api = TestAPI {
        user_timeline_next_page_answers: vec![Ok(page)],
        ..Default::default()
    };

    assert_eq!(clear_user_timelines(&mut api, 7, NOW), Ok(()));

    assert_eq!(erase_count(&api), 2);
    let expected = vec![
        ApiCall::UserTimelineNextPage,
        ApiCall::EraseTweet,
        ApiCall::EraseTweet,
        ApiCall::UserTimelineNextPage,
        ApiCall::LikesTimelineNextPage,
    ];
    assert_eq!(api.methods_called_in_order, expected);
}

#[test]
fn failure_in_user_feed_prevents_likes_walk() {
    let err = APIError::TimelineError(String::from("bad answer"));
    let mut api = TestAPI {
        user_timeline_next_page_answers: vec![Err(err.clone())],
        likes_timeline_next_page_answers: vec![Ok(vec![sample_post(50)])],
        ..Default::default()
    };

    assert_eq!(
        clear_user_timelines(&mut api, 10, NOW),
        Err(Errors::APIErrors(err))
    );
    assert_eq!(
        api.methods_called_in_order,
        vec![ApiCall::UserTimelineNextPage]
    );
    assert_eq!(api.likes_timeline_next_page_answers.len(), 1);
}
