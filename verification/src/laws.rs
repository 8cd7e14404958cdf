//! The library's laws: proof functions stating what the retention engine
//! guarantees, over the same spec functions its contracts are written in.

use vstd::prelude::*;

verus! {

use crate::api::{APIError, ActionAnswers, ApiCall, FetchAnswer, Post};
use crate::{action_calls, action_result, erasable, page_calls, page_result, walk_calls,
    walk_result, Errors};

/// True when none of the gateway's side-effecting operations would fail.
pub open spec fn all_actions_succeed(acts: ActionAnswers) -> bool {
    &&& acts.unlike is Ok
    &&& acts.unretweet is Ok
    &&& acts.erase is Ok
}

/// The calls the erasure action performs on one post when no step fails:
/// the undo of the like if the post is liked, the undo of the repost if it
/// is reposted, and the deletion.
pub open spec fn success_action_calls(post: Post) -> Seq<ApiCall> {
    (if post.favorited {
        seq![ApiCall::UnlikeTweet]
    } else {
        Seq::<ApiCall>::empty()
    }) + (if post.retweeted {
        seq![ApiCall::UnretweetTweet]
    } else {
        Seq::<ApiCall>::empty()
    }) + seq![ApiCall::EraseTweet]
}

/// One full, successful erasure action per eligible item of a page, in
/// page order.
pub open spec fn eligible_calls(items: Seq<Post>, preserve_days: int, now: int) -> Seq<ApiCall>
    decreases items.len(),
{
    if items.len() == 0 {
        Seq::<ApiCall>::empty()
    } else if erasable(items[0].created_at as int, preserve_days, now) {
        success_action_calls(items[0]) + eligible_calls(items.skip(1), preserve_days, now)
    } else {
        eligible_calls(items.skip(1), preserve_days, now)
    }
}

/// The feed answers of a gateway that serves the given pages in order and
/// then reports the feed exhausted.
pub open spec fn ok_script(pages: Seq<Vec<Post>>) -> Seq<FetchAnswer> {
    pages.map_values(|p: Vec<Post>| FetchAnswer::Ok(p))
}

/// The calls of a walk in which nothing fails: one fetch per page, each
/// page's eligible items erased in page-then-item order, and the one final
/// fetch that comes back empty.
pub open spec fn success_walk_calls(
    pages: Seq<Vec<Post>>,
    preserve_days: int,
    now: int,
    fetch: ApiCall,
) -> Seq<ApiCall>
    decreases pages.len(),
{
    if pages.len() == 0 {
        seq![fetch]
    } else {
        seq![fetch] + eligible_calls(pages[0]@, preserve_days, now) + success_walk_calls(
            pages.skip(1),
            preserve_days,
            now,
            fetch,
        )
    }
}

/// A post created exactly at the retention boundary is preserved, and a
/// post one day older is eligible: for every threshold of `d >= 0` days,
/// a post created `d` days ago is not erasable while a post created
/// `d + 1` days ago is.
pub proof fn lemma_retention_boundary(now: int, d: int)
    requires
        d >= 0,
    ensures
        !erasable(now - d * 86400, d, now),
        erasable(now - (d + 1) * 86400, d, now),
{
}

/// When no gateway action fails, the erasure action of one post performs
/// exactly its applicable steps and succeeds.
pub proof fn lemma_action_all_ok(post: Post, acts: ActionAnswers)
    requires
        all_actions_succeed(acts),
    ensures
        action_result(post, acts) is Ok,
        action_calls(post, acts) == success_action_calls(post),
{
    assert(action_calls(post, acts) =~= success_action_calls(post));
}

/// When no gateway action fails, draining one page performs exactly one
/// full erasure action per eligible item, in page order, and succeeds.
pub proof fn lemma_page_all_ok(items: Seq<Post>, acts: ActionAnswers, preserve_days: int, now: int)
    requires
        all_actions_succeed(acts),
    ensures
        page_result(items, acts, preserve_days, now) is Ok,
        page_calls(items, acts, preserve_days, now) == eligible_calls(items, preserve_days, now),
    decreases items.len(),
{
    if items.len() == 0 {
    } else {
        lemma_action_all_ok(items[0], acts);
        lemma_page_all_ok(items.skip(1), acts, preserve_days, now);
    }
}

/// For every sequence of non-empty pages served by the gateway, a walk in
/// which nothing fails invokes the erasure action exactly once per
/// eligible item, in page-then-item order, and terminates with success
/// after the fetch that finds the feed exhausted.
pub proof fn lemma_walker_erases_each_eligible_item_once(
    pages: Seq<Vec<Post>>,
    acts: ActionAnswers,
    preserve_days: int,
    now: int,
    fetch: ApiCall,
)
    requires
        all_actions_succeed(acts),
        forall|i: int| 0 <= i < pages.len() ==> #[trigger] pages[i]@.len() > 0,
    ensures
        walk_result(ok_script(pages), acts, preserve_days, now) is Ok,
        walk_calls(ok_script(pages), acts, preserve_days, now, fetch) == success_walk_calls(
            pages,
            preserve_days,
            now,
            fetch,
        ),
    decreases pages.len(),
{
    let script = ok_script(pages);
    if pages.len() == 0 {
    } else {
        assert(script[0] == FetchAnswer::Ok(pages[0]));
        lemma_page_all_ok(pages[0]@, acts, preserve_days, now);
        lemma_walker_erases_each_eligible_item_once(
            pages.skip(1),
            acts,
            preserve_days,
            now,
            fetch,
        );
        assert(ok_script(pages.skip(1)) =~= script.skip(1));
        assert(walk_calls(script, acts, preserve_days, now, fetch) =~= success_walk_calls(
            pages,
            preserve_days,
            now,
            fetch,
        ));
    }
}

/// If the gateway serves non-empty pages and then fails on the next page
/// fetch, the walk performs the erasure actions of the served pages only
/// — exactly as in a walk in which nothing fails — and returns the fetch
/// failure unchanged.
pub proof fn lemma_walker_stops_at_failed_page(
    pages: Seq<Vec<Post>>,
    e: APIError,
    acts: ActionAnswers,
    preserve_days: int,
    now: int,
    fetch: ApiCall,
)
    requires
        all_actions_succeed(acts),
        forall|i: int| 0 <= i < pages.len() ==> #[trigger] pages[i]@.len() > 0,
    ensures
        walk_result(ok_script(pages).push(FetchAnswer::Err(e)), acts, preserve_days, now)
            == Result::<(), Errors>::Err(Errors::APIErrors(e)),
        walk_calls(ok_script(pages).push(FetchAnswer::Err(e)), acts, preserve_days, now, fetch)
            == success_walk_calls(pages, preserve_days, now, fetch),
    decreases pages.len(),
{
    let script = ok_script(pages).push(FetchAnswer::Err(e));
    if pages.len() == 0 {
        assert(script[0] == FetchAnswer::Err(e));
    } else {
        assert(script[0] == FetchAnswer::Ok(pages[0]));
        lemma_page_all_ok(pages[0]@, acts, preserve_days, now);
        lemma_walker_stops_at_failed_page(pages.skip(1), e, acts, preserve_days, now, fetch);
        assert(ok_script(pages.skip(1)).push(FetchAnswer::Err(e)) =~= script.skip(1));
        assert(walk_calls(script, acts, preserve_days, now, fetch) =~= success_walk_calls(
            pages,
            preserve_days,
            now,
            fetch,
        ));
    }
}

/// On a post that is liked but not reposted, the erasure action never
/// requests an undo of a repost, and when the undo of the like succeeds it
/// performs exactly the undo of the like followed by the deletion.
pub proof fn lemma_action_order_liked_only(post: Post, acts: ActionAnswers)
    requires
        post.favorited,
        !post.retweeted,
    ensures
        !action_calls(post, acts).contains(ApiCall::UnretweetTweet),
        acts.unlike is Ok ==> action_calls(post, acts) == seq![
            ApiCall::UnlikeTweet,
            ApiCall::EraseTweet,
        ],
{
    let calls = action_calls(post, acts);
    assert forall|i: int| 0 <= i < calls.len() implies calls[i] != ApiCall::UnretweetTweet by {
        if acts.unlike is Err {
            assert(calls =~= seq![ApiCall::UnlikeTweet]);
        } else {
            assert(calls =~= seq![ApiCall::UnlikeTweet, ApiCall::EraseTweet]);
        }
    }
    if acts.unlike is Ok {
        assert(calls =~= seq![ApiCall::UnlikeTweet, ApiCall::EraseTweet]);
    }
}

/// On a post that is both liked and reposted, when both undo steps
/// succeed, the erasure action performs exactly the undo of the like, the
/// undo of the repost, and the deletion, in that order.
pub proof fn lemma_action_order_liked_and_reposted(post: Post, acts: ActionAnswers)
    requires
        post.favorited,
        post.retweeted,
        acts.unlike is Ok,
        acts.unretweet is Ok,
    ensures
        action_calls(post, acts) == seq![
            ApiCall::UnlikeTweet,
            ApiCall::UnretweetTweet,
            ApiCall::EraseTweet,
        ],
{
    assert(action_calls(post, acts) =~= seq![
        ApiCall::UnlikeTweet,
        ApiCall::UnretweetTweet,
        ApiCall::EraseTweet,
    ]);
}

/// When the undo of the like fails on a liked post, the erasure action
/// performs that one step only — it never requests the undo of the repost
/// or the deletion — and its result is that failure.
pub proof fn lemma_failed_unlike_stops_action(post: Post, e: APIError, acts: ActionAnswers)
    requires
        post.favorited,
        acts.unlike == Result::<(), APIError>::Err(e),
    ensures
        action_calls(post, acts) == seq![ApiCall::UnlikeTweet],
        action_result(post, acts) == Result::<(), Errors>::Err(Errors::APIErrors(e)),
{
}

/// When the undo of the like fails on the first post of a page and that
/// post is eligible, the whole walk ends at that step and its result is
/// that failure: nothing further is requested for the post, and no later
/// page is fetched.
pub proof fn lemma_failed_unlike_stops_run(
    answers: Seq<FetchAnswer>,
    page: Vec<Post>,
    e: APIError,
    acts: ActionAnswers,
    preserve_days: int,
    now: int,
    fetch: ApiCall,
)
    requires
        acts.unlike == Result::<(), APIError>::Err(e),
        answers.len() > 0,
        answers[0] == FetchAnswer::Ok(page),
        page@.len() > 0,
        page@[0].favorited,
        erasable(page@[0].created_at as int, preserve_days, now),
    ensures
        walk_result(answers, acts, preserve_days, now) == Result::<(), Errors>::Err(
            Errors::APIErrors(e),
        ),
        walk_calls(answers, acts, preserve_days, now, fetch) == seq![fetch, ApiCall::UnlikeTweet],
{
    lemma_failed_unlike_stops_action(page@[0], e, acts);
    assert(page_result(page@, acts, preserve_days, now) == action_result(page@[0], acts));
    assert(walk_calls(answers, acts, preserve_days, now, fetch) =~= seq![
        fetch,
        ApiCall::UnlikeTweet,
    ]);
}

} // verus!
