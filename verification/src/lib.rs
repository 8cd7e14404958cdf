//! Retention engine for a user's social-media history.
//!
//! The library walks the two server-paginated feeds of one account (the
//! posts the user published or reposted, and the posts the user liked),
//! decides for every post whether it has outlived the configured retention
//! window, and retires each post that has: undoing the like or repost
//! relationship first and deleting the post last.  All interaction with the
//! remote service goes through the [`api::TwitterAPI`] capability trait, so
//! the whole engine is verified against the trait's contracts and can be
//! exercised with the scripted stub [`api::TestAPI`].

pub mod api;
pub mod config;
pub mod laws;

use vstd::prelude::*;

verus! {

use crate::api::{APIError, ActionAnswers, ApiCall, FetchAnswer, Post, TwitterAPI};
use crate::api::{action_answers, fixed_answers_preserved, scripts_preserved};

/// Failures the library reports to its caller: a gateway failure, a
/// configuration value that could not be read, and any other engine
/// failure.
#[derive(PartialEq, Eq, Debug)]
pub enum Errors {
    APIErrors(APIError),
    EnvValueErrors(String),
    LibErrors(String),
}

impl Clone for Errors {
    fn clone(&self) -> (r: Self)
        ensures
            r == *self,
    {
        match self {
            Errors::APIErrors(e) => Errors::APIErrors(e.clone()),
            Errors::EnvValueErrors(s) => Errors::EnvValueErrors(s.clone()),
            Errors::LibErrors(s) => Errors::LibErrors(s.clone()),
        }
    }
}

/// The two feeds of one account that a cleanup run drains.
#[derive(Clone, Copy, PartialEq, Eq, Debug, Structural)]
pub enum Feed {
    User,
    Likes,
}

/// A post is eligible for removal when it is strictly older than
/// `preserve_days` days, measured in whole seconds.  A post created exactly
/// `preserve_days` days ago is preserved.
pub open spec fn erasable(created_at: int, preserve_days: int, now: int) -> bool {
    now - created_at > preserve_days * 86400
}

/// Returns true when the post created at `created_at` (seconds since the
/// epoch) is strictly older than `preserve_days` days at time `now`.
pub fn is_erasable(created_at: i64, preserve_days: i64, now: i64) -> (r: bool)
    ensures
        r == erasable(created_at as int, preserve_days as int, now as int),
{
    let age: i128 = now as i128 - created_at as i128;
    let threshold: i128 = preserve_days as i128 * 86400i128;
    age > threshold
}

/// Maps a gateway failure into the library's error type, leaving a success
/// unchanged.
pub open spec fn gateway_err(r: Result<(), APIError>) -> Result<(), Errors> {
    match r {
        Ok(u) => Ok(u),
        Err(e) => Err(Errors::APIErrors(e)),
    }
}

/// The gateway operations the erasure action performs on one post, in
/// order: undo the like if the post is liked, then undo the repost if the
/// post is reposted, then always attempt the deletion — except that the
/// first failing step ends the sequence.
pub open spec fn action_calls(post: Post, acts: ActionAnswers) -> Seq<ApiCall> {
    if post.favorited && acts.unlike is Err {
        seq![ApiCall::UnlikeTweet]
    } else {
        let unlike_part = if post.favorited {
            seq![ApiCall::UnlikeTweet]
        } else {
            Seq::<ApiCall>::empty()
        };
        if post.retweeted && acts.unretweet is Err {
            unlike_part.push(ApiCall::UnretweetTweet)
        } else {
            let undo_part = if post.retweeted {
                unlike_part.push(ApiCall::UnretweetTweet)
            } else {
                unlike_part
            };
            undo_part.push(ApiCall::EraseTweet)
        }
    }
}

/// The outcome of the erasure action on one post: the failure of the first
/// failing step, or success when every attempted step succeeds.
pub open spec fn action_result(post: Post, acts: ActionAnswers) -> Result<(), Errors> {
    if post.favorited && acts.unlike is Err {
        gateway_err(acts.unlike)
    } else if post.retweeted && acts.unretweet is Err {
        gateway_err(acts.unretweet)
    } else {
        gateway_err(acts.erase)
    }
}

/// Retires one post through the gateway: undoes the like relationship if
/// the post is liked, then the repost relationship if it is reposted, and
/// finally requests deletion.  The first failing step aborts the action
/// and its failure is returned; later steps are not attempted.
pub fn default_maintenance_action<A: TwitterAPI>(api: &mut A, tweet: &Post) -> (r: Result<
    (),
    Errors,
>)
    ensures
        scripts_preserved(*old(api), *final(api)),
        fixed_answers_preserved(*old(api), *final(api)),
        final(api).calls() == old(api).calls() + action_calls(*tweet, action_answers(*old(api))),
        r == action_result(*tweet, action_answers(*old(api))),
{
    let ghost acts = action_answers(*old(api));
    if tweet.favorited {
        match api.unlike_tweet(tweet) {
            Ok(_) => {}
            Err(e) => {
                proof {
                    assert(api.calls() =~= old(api).calls() + action_calls(*tweet, acts));
                }
                return Err(Errors::APIErrors(e));
            }
        }
    }
    if tweet.retweeted {
        match api.unretweet_tweet(tweet) {
            Ok(_) => {}
            Err(e) => {
                proof {
                    assert(api.calls() =~= old(api).calls() + action_calls(*tweet, acts));
                }
                return Err(Errors::APIErrors(e));
            }
        }
    }
    let r = api.erase_tweet(tweet);
    proof {
        assert(api.calls() =~= old(api).calls() + action_calls(*tweet, acts));
    }
    match r {
        Ok(_) => Ok(()),
        Err(e) => Err(Errors::APIErrors(e)),
    }
}

/// The gateway operations the walker performs while draining one page, in
/// page order: the erasure action of every eligible item, stopping after
/// the first item whose action fails.
pub open spec fn page_calls(items: Seq<Post>, acts: ActionAnswers, preserve_days: int, now: int) -> Seq<
    ApiCall,
>
    decreases items.len(),
{
    if items.len() == 0 {
        Seq::<ApiCall>::empty()
    } else if erasable(items[0].created_at as int, preserve_days, now) {
        if action_result(items[0], acts) is Err {
            action_calls(items[0], acts)
        } else {
            action_calls(items[0], acts) + page_calls(items.skip(1), acts, preserve_days, now)
        }
    } else {
        page_calls(items.skip(1), acts, preserve_days, now)
    }
}

/// The outcome of draining one page: the failure of the first eligible
/// item whose erasure action fails, or success when every eligible item is
/// retired.
pub open spec fn page_result(items: Seq<Post>, acts: ActionAnswers, preserve_days: int, now: int) -> Result<
    (),
    Errors,
>
    decreases items.len(),
{
    if items.len() == 0 {
        Ok(())
    } else if erasable(items[0].created_at as int, preserve_days, now) && action_result(
        items[0],
        acts,
    ) is Err {
        action_result(items[0], acts)
    } else {
        page_result(items.skip(1), acts, preserve_days, now)
    }
}

/// The page-fetch operation that drains the given feed.
pub open spec fn fetch_call(feed: Feed) -> ApiCall {
    match feed {
        Feed::User => ApiCall::UserTimelineNextPage,
        Feed::Likes => ApiCall::LikesTimelineNextPage,
    }
}

/// The remaining answers of the feed the walker drains.
pub open spec fn feed_script<A: TwitterAPI>(api: A, feed: Feed) -> Seq<FetchAnswer> {
    match feed {
        Feed::User => api.user_answers(),
        Feed::Likes => api.likes_answers(),
    }
}

/// The remaining answers of the feed the walker leaves alone.
pub open spec fn other_script<A: TwitterAPI>(api: A, feed: Feed) -> Seq<FetchAnswer> {
    match feed {
        Feed::User => api.likes_answers(),
        Feed::Likes => api.user_answers(),
    }
}

/// Every gateway operation a walk over one feed performs, given the
/// answers the gateway will return: one fetch per page, each non-empty
/// page's erasure actions in page order, ending at the first empty page,
/// the first fetch failure, or the first failing action.
pub open spec fn walk_calls(
    answers: Seq<FetchAnswer>,
    acts: ActionAnswers,
    preserve_days: int,
    now: int,
    fetch: ApiCall,
) -> Seq<ApiCall>
    decreases answers.len(),
{
    if answers.len() == 0 {
        seq![fetch]
    } else {
        match answers[0] {
            Err(_) => seq![fetch],
            Ok(page) => if page@.len() == 0 {
                seq![fetch]
            } else if page_result(page@, acts, preserve_days, now) is Err {
                seq![fetch] + page_calls(page@, acts, preserve_days, now)
            } else {
                seq![fetch] + page_calls(page@, acts, preserve_days, now) + walk_calls(
                    answers.skip(1),
                    acts,
                    preserve_days,
                    now,
                    fetch,
                )
            },
        }
    }
}

/// The outcome of a walk over one feed: success once a page comes back
/// empty (or the feed's answers are exhausted), the fetch failure if a
/// page fetch fails, and the action failure if an erasure action fails.
pub open spec fn walk_result(
    answers: Seq<FetchAnswer>,
    acts: ActionAnswers,
    preserve_days: int,
    now: int,
) -> Result<(), Errors>
    decreases answers.len(),
{
    if answers.len() == 0 {
        Ok(())
    } else {
        match answers[0] {
            Err(e) => Err(Errors::APIErrors(e)),
            Ok(page) => if page@.len() == 0 {
                Ok(())
            } else if page_result(page@, acts, preserve_days, now) is Err {
                page_result(page@, acts, preserve_days, now)
            } else {
                walk_result(answers.skip(1), acts, preserve_days, now)
            },
        }
    }
}

/// The feed answers still pending after a walk over the feed ends.
pub open spec fn walk_leftover(
    answers: Seq<FetchAnswer>,
    acts: ActionAnswers,
    preserve_days: int,
    now: int,
) -> Seq<FetchAnswer>
    decreases answers.len(),
{
    if answers.len() == 0 {
        answers
    } else {
        match answers[0] {
            Err(_) => answers.skip(1),
            Ok(page) => if page@.len() == 0 {
                answers.skip(1)
            } else if page_result(page@, acts, preserve_days, now) is Err {
                answers.skip(1)
            } else {
                walk_leftover(answers.skip(1), acts, preserve_days, now)
            },
        }
    }
}

/// Drains one feed: requests page after page from the gateway, runs the
/// erasure action on every item of every page that is strictly older than
/// `preserve_days` days at time `now`, and stops with success at the first
/// empty page.  The first failure anywhere — fetching a page or retiring a
/// post — ends the walk and is returned unchanged.  Items are processed in
/// the order the gateway returns them and the other feed is never touched.
#[verifier::loop_isolation(false)]
pub fn process_timeline<A: TwitterAPI>(
    api: &mut A,
    feed: Feed,
    preserve_days: i64,
    now: i64,
) -> (r: Result<(), Errors>)
    ensures
        fixed_answers_preserved(*old(api), *final(api)),
        other_script(*final(api), feed) == other_script(*old(api), feed),
        final(api).calls() == old(api).calls() + walk_calls(
            feed_script(*old(api), feed),
            action_answers(*old(api)),
            preserve_days as int,
            now as int,
            fetch_call(feed),
        ),
        r == walk_result(
            feed_script(*old(api), feed),
            action_answers(*old(api)),
            preserve_days as int,
            now as int,
        ),
        feed_script(*final(api), feed) == walk_leftover(
            feed_script(*old(api), feed),
            action_answers(*old(api)),
            preserve_days as int,
            now as int,
        ),
{
    let ghost orig = feed_script(*old(api), feed);
    let ghost acts = action_answers(*old(api));
    let ghost d = preserve_days as int;
    let ghost n = now as int;
    let ghost fc = fetch_call(feed);
    let ghost mut done: Seq<ApiCall> = Seq::<ApiCall>::empty();
    let ghost mut remaining: Seq<FetchAnswer> = orig;
    proof {
        assert(old(api).calls() + done =~= old(api).calls());
    }
    loop
        invariant
            fixed_answers_preserved(*old(api), *api),
            other_script(*api, feed) == other_script(*old(api), feed),
            feed_script(*api, feed) == remaining,
            api.calls() == old(api).calls() + done,
            walk_calls(orig, acts, d, n, fc) == done + walk_calls(remaining, acts, d, n, fc),
            walk_result(orig, acts, d, n) == walk_result(remaining, acts, d, n),
            walk_leftover(orig, acts, d, n) == walk_leftover(remaining, acts, d, n),
        decreases remaining.len(),
    {
        let page_res = match feed {
            Feed::User => api.user_timeline_next_page(),
            Feed::Likes => api.likes_timeline_next_page(),
        };
        proof {
            assert(api.calls() =~= old(api).calls() + done.push(fc));
            if remaining.len() > 0 {
                assert(feed_script(*api, feed) == remaining.skip(1));
                assert(page_res == remaining[0]);
            }
        }
        match page_res {
            Err(e) => {
                proof {
                    assert(remaining.len() > 0 && remaining[0] == FetchAnswer::Err(e));
                    assert(walk_calls(remaining, acts, d, n, fc) == seq![fc]);
                    assert(done + seq![fc] =~= done.push(fc));
                }
                return Err(Errors::APIErrors(e));
            }
            Ok(page) => {
                if page.len() == 0 {
                    proof {
                        if remaining.len() > 0 {
                            assert(walk_calls(remaining, acts, d, n, fc) == seq![fc]);
                        }
                        assert(done + seq![fc] =~= done.push(fc));
                    }
                    return Ok(());
                }
                let ghost page_seq = page@;
                let ghost after_fetch = feed_script(*api, feed);
                let ghost calls_after_fetch = api.calls();
                let ghost mut page_done: Seq<ApiCall> = Seq::<ApiCall>::empty();
                proof {
                    assert(calls_after_fetch + page_done =~= calls_after_fetch);
                    assert(page_seq.skip(0) =~= page_seq);
                }
                let mut i: usize = 0;
                while i < page.len()
                    invariant
                        0 <= i <= page.len(),
                        fixed_answers_preserved(*old(api), *api),
                        other_script(*api, feed) == other_script(*old(api), feed),
                        feed_script(*api, feed) == after_fetch,
                        api.calls() == calls_after_fetch + page_done,
                        page_calls(page_seq, acts, d, n) == page_done + page_calls(
                            page_seq.skip(i as int),
                            acts,
                            d,
                            n,
                        ),
                        page_result(page_seq, acts, d, n) == page_result(
                            page_seq.skip(i as int),
                            acts,
                            d,
                            n,
                        ),
                    decreases page.len() - i,
                {
                    let ghost rest = page_seq.skip(i as int);
                    proof {
                        assert(rest.len() > 0);
                        assert(rest[0] == page_seq[i as int]);
                        assert(rest.skip(1) =~= page_seq.skip(i as int + 1));
                    }
                    let tweet = &page[i];
                    if is_erasable(tweet.created_at, preserve_days, now) {
                        match default_maintenance_action(api, tweet) {
                            Ok(_) => {
                                proof {
                                    page_done = page_done + action_calls(page_seq[i as int], acts);
                                    assert(calls_after_fetch + page_done =~= api.calls());
                                    assert(page_calls(page_seq, acts, d, n) =~= page_done
                                        + page_calls(page_seq.skip(i as int + 1), acts, d, n));
                                }
                            }
                            Err(e) => {
                                proof {
                                    assert(page_result(rest, acts, d, n) == action_result(
                                        page_seq[i as int],
                                        acts,
                                    ));
                                    assert(page_calls(rest, acts, d, n) == action_calls(
                                        page_seq[i as int],
                                        acts,
                                    ));
                                    assert(walk_calls(remaining, acts, d, n, fc) == seq![fc]
                                        + page_calls(page_seq, acts, d, n));
                                    assert(api.calls() =~= old(api).calls() + walk_calls(
                                        orig,
                                        acts,
                                        d,
                                        n,
                                        fc,
                                    ));
                                    assert(walk_leftover(remaining, acts, d, n) == remaining.skip(
                                        1,
                                    ));
                                }
                                return Err(e);
                            }
                        }
                    } else {
                        proof {
                            assert(page_calls(rest, acts, d, n) == page_calls(
                                page_seq.skip(i as int + 1),
                                acts,
                                d,
                                n,
                            ));
                        }
                    }
                    i = i + 1;
                }
                proof {
                    assert(page_seq.skip(page_seq.len() as int) =~= Seq::<Post>::empty());
                    assert(page_calls(page_seq, acts, d, n) =~= page_done);
                    assert(page_result(page_seq, acts, d, n) == Result::<(), Errors>::Ok(()));
                    assert(walk_calls(remaining, acts, d, n, fc) == seq![fc] + page_calls(
                        page_seq,
                        acts,
                        d,
                        n,
                    ) + walk_calls(remaining.skip(1), acts, d, n, fc));
                    assert(walk_result(remaining, acts, d, n) == walk_result(
                        remaining.skip(1),
                        acts,
                        d,
                        n,
                    ));
                    assert(walk_leftover(remaining, acts, d, n) == walk_leftover(
                        remaining.skip(1),
                        acts,
                        d,
                        n,
                    ));
                    done = done + seq![fc] + page_calls(page_seq, acts, d, n);
                    remaining = remaining.skip(1);
                    assert(api.calls() =~= old(api).calls() + done);
                    assert(walk_calls(orig, acts, d, n, fc) =~= done + walk_calls(
                        remaining,
                        acts,
                        d,
                        n,
                        fc,
                    ));
                }
            }
        }
    }
}

/// Every gateway operation one full cleanup run performs: the walk of the
/// user feed, followed — only when that walk succeeds — by the walk of the
/// likes feed.
pub open spec fn run_calls(
    user: Seq<FetchAnswer>,
    likes: Seq<FetchAnswer>,
    acts: ActionAnswers,
    preserve_days: int,
    now: int,
) -> Seq<ApiCall> {
    let user_calls = walk_calls(user, acts, preserve_days, now, ApiCall::UserTimelineNextPage);
    if walk_result(user, acts, preserve_days, now) is Err {
        user_calls
    } else {
        user_calls + walk_calls(likes, acts, preserve_days, now, ApiCall::LikesTimelineNextPage)
    }
}

/// The outcome of one full cleanup run: the first failure of either walk,
/// in feed order, or success when both feeds were drained.
pub open spec fn run_result(
    user: Seq<FetchAnswer>,
    likes: Seq<FetchAnswer>,
    acts: ActionAnswers,
    preserve_days: int,
    now: int,
) -> Result<(), Errors> {
    match walk_result(user, acts, preserve_days, now) {
        Err(e) => Err(e),
        Ok(_) => walk_result(likes, acts, preserve_days, now),
    }
}

/// Runs one full cleanup pass over the account: drains the feed of posts
/// the user published or reposted, then the feed of posts the user liked,
/// erasing every post strictly older than `preserve_days` days at time
/// `now`.  A failure in the first walk prevents the second from starting
/// and is returned unchanged.
pub fn clear_user_timelines<A: TwitterAPI>(api: &mut A, preserve_days: i64, now: i64) -> (r:
    Result<(), Errors>)
    ensures
        fixed_answers_preserved(*old(api), *final(api)),
        final(api).calls() == old(api).calls() + run_calls(
            old(api).user_answers(),
            old(api).likes_answers(),
            action_answers(*old(api)),
            preserve_days as int,
            now as int,
        ),
        r == run_result(
            old(api).user_answers(),
            old(api).likes_answers(),
            action_answers(*old(api)),
            preserve_days as int,
            now as int,
        ),
        final(api).user_answers() == walk_leftover(
            old(api).user_answers(),
            action_answers(*old(api)),
            preserve_days as int,
            now as int,
        ),
        final(api).likes_answers() == (if walk_result(
            old(api).user_answers(),
            action_answers(*old(api)),
            preserve_days as int,
            now as int,
        ) is Ok {
            walk_leftover(
                old(api).likes_answers(),
                action_answers(*old(api)),
                preserve_days as int,
                now as int,
            )
        } else {
            old(api).likes_answers()
        }),
{
    let ghost acts = action_answers(*old(api));
    let ghost d = preserve_days as int;
    let ghost n = now as int;
    match process_timeline(api, Feed::User, preserve_days, now) {
        Err(e) => {
            return Err(e);
        }
        Ok(_) => {}
    }
    let r = process_timeline(api, Feed::Likes, preserve_days, now);
    proof {
        assert(api.calls() =~= old(api).calls() + run_calls(
            old(api).user_answers(),
            old(api).likes_answers(),
            acts,
            d,
            n,
        ));
    }
    r
}

} // verus!
