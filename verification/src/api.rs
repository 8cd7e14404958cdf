//! The capability boundary between the retention engine and the remote
//! service.
//!
//! [`TwitterAPI`] abstracts every remote operation the engine performs:
//! fetching the next page of either feed, undoing a like or a repost,
//! deleting a post, validating the credential and resolving the account's
//! numeric identifier.  The trait carries a ghost model: spec functions
//! that give the sequence of answers the gateway will return for each feed,
//! the fixed answer of each side-effecting operation, and the log of
//! operations invoked so far.  Contracts over this model let the engine be
//! verified without any live connection; [`TestAPI`] is the scripted,
//! fully verified implementation the test suite drives.

use vstd::prelude::*;

verus! {

/// One entry of the gateway call log: which operation was invoked.
#[derive(Clone, Copy, PartialEq, Eq, Debug, Structural)]
pub enum ApiCall {
    UserTimelineNextPage,
    LikesTimelineNextPage,
    UnlikeTweet,
    UnretweetTweet,
    EraseTweet,
    ValidateToken,
    GetUserId,
}

/// A post of the remote feed, reduced to the plain values the engine
/// reads: the identifier, the creation time in seconds since the epoch,
/// the body text, whether the acting account currently likes or reposts
/// it, and the identifier of the account that published it (`None` when
/// the feed did not attach an author, which the engine treats as the
/// acting account's own post).
#[derive(PartialEq, Eq, Debug)]
pub struct Post {
    pub id: u64,
    pub created_at: i64,
    pub text: String,
    pub favorited: bool,
    pub retweeted: bool,
    pub user_id: Option<u64>,
}

impl Post {
    /// True when the acting account with the given identifier owns this
    /// post: the feed either attached no author, or attached the acting
    /// account itself.  A gateway deletes a post only when this holds;
    /// anything else is a no-op success.
    pub fn is_owned_by(&self, user_id: u64) -> (r: bool)
        ensures
            r == (self.user_id is None || self.user_id == Some(user_id)),
    {
        match self.user_id {
            Some(owner) => owner == user_id,
            None => true,
        }
    }
}

impl Clone for Post {
    fn clone(&self) -> (r: Self)
        ensures
            r == *self,
    {
        Post {
            id: self.id,
            created_at: self.created_at,
            text: self.text.clone(),
            favorited: self.favorited,
            retweeted: self.retweeted,
            user_id: self.user_id,
        }
    }
}

/// Failures the gateway can report, one variant per kind: a credential the
/// service rejects, a feed page that could not be fetched, a failure while
/// resolving the account, and a failure while severing a relationship or
/// deleting a post.
#[derive(PartialEq, Eq, Debug)]
pub enum APIError {
    InvalidToken,
    TimelineError(String),
    UserDetailsError(String),
    ErasureError(String),
}

impl Clone for APIError {
    fn clone(&self) -> (r: Self)
        ensures
            r == *self,
    {
        match self {
            APIError::InvalidToken => APIError::InvalidToken,
            APIError::TimelineError(s) => APIError::TimelineError(s.clone()),
            APIError::UserDetailsError(s) => APIError::UserDetailsError(s.clone()),
            APIError::ErasureError(s) => APIError::ErasureError(s.clone()),
        }
    }
}

/// The credential material the gateway signs requests with, as plain
/// values: the consumer key pair and the access key pair.
#[derive(PartialEq, Eq, Debug)]
pub struct Token {
    pub consumer_key: String,
    pub consumer_secret: String,
    pub access_key: String,
    pub access_secret: String,
}

/// What one page-fetch operation answers: a page of posts, or a failure.
/// An empty page is the feed's exhaustion signal, not an error.
pub type FetchAnswer = Result<Vec<Post>, APIError>;

/// The fixed answers of the gateway's side-effecting operations, bundled
/// for use in contracts.
pub struct ActionAnswers {
    pub unlike: Result<(), APIError>,
    pub unretweet: Result<(), APIError>,
    pub erase: Result<(), APIError>,
}

/// True when the two gateway states answer every non-paging operation the
/// same way: none of the page-fetch operations changes what an undo, a
/// delete, a credential check or an account lookup would answer.
pub open spec fn fixed_answers_preserved<A: TwitterAPI>(pre: A, post: A) -> bool {
    &&& post.unlike_answer() == pre.unlike_answer()
    &&& post.unretweet_answer() == pre.unretweet_answer()
    &&& post.erase_answer() == pre.erase_answer()
    &&& post.validate_answer() == pre.validate_answer()
    &&& post.user_id_answer() == pre.user_id_answer()
}

/// True when the two gateway states hold the same remaining answers for
/// both feeds.
pub open spec fn scripts_preserved<A: TwitterAPI>(pre: A, post: A) -> bool {
    &&& post.user_answers() == pre.user_answers()
    &&& post.likes_answers() == pre.likes_answers()
}

/// The bundle of fixed action answers of a gateway state.
pub open spec fn action_answers<A: TwitterAPI>(api: A) -> ActionAnswers {
    ActionAnswers {
        unlike: api.unlike_answer(),
        unretweet: api.unretweet_answer(),
        erase: api.erase_answer(),
    }
}

/// The operations the engine needs from the remote service.
///
/// The ghost model: `user_answers` and `likes_answers` are the remaining
/// answers the gateway will give to the two page-fetch operations, oldest
/// pending answer first; once a feed's answers run out, further fetches of
/// that feed return an empty page and leave the model unchanged.  The
/// `*_answer` functions give the answer each side-effecting operation
/// returns while in the current state; the page-fetch contracts say that
/// fetching never changes them.  `calls` is the log of operations invoked
/// so far, which the engine's contracts are stated over.  For the scripted
/// [`TestAPI`] the model is literally its configuration; for a live
/// implementation it abstracts the answers the remote service would give.
/// Each model function has an unspecified default value, so an
/// implementation outside the verified world need not provide one.
pub trait TwitterAPI: Sized {
    /// The remaining answers of the feed of posts the account published or
    /// reposted.
    open spec fn user_answers(&self) -> Seq<FetchAnswer> {
        vstd::pervasive::arbitrary()
    }

    /// The remaining answers of the feed of posts the account liked.
    open spec fn likes_answers(&self) -> Seq<FetchAnswer> {
        vstd::pervasive::arbitrary()
    }

    /// The answer an undo-like request would receive.
    open spec fn unlike_answer(&self) -> Result<(), APIError> {
        vstd::pervasive::arbitrary()
    }

    /// The answer an undo-repost request would receive.
    open spec fn unretweet_answer(&self) -> Result<(), APIError> {
        vstd::pervasive::arbitrary()
    }

    /// The answer a delete request would receive.
    open spec fn erase_answer(&self) -> Result<(), APIError> {
        vstd::pervasive::arbitrary()
    }

    /// The answer a credential validation would receive.
    open spec fn validate_answer(&self) -> Result<(), APIError> {
        vstd::pervasive::arbitrary()
    }

    /// The answer an account-identifier lookup would receive.
    open spec fn user_id_answer(&self) -> Result<u64, APIError> {
        vstd::pervasive::arbitrary()
    }

    /// The operations invoked on this gateway so far, in call order.
    open spec fn calls(&self) -> Seq<ApiCall> {
        vstd::pervasive::arbitrary()
    }

    /// Returns the next page of the feed of posts published or reposted by
    /// the account.  An empty page means the feed is exhausted.
    fn user_timeline_next_page(&mut self) -> (r: Result<Vec<Post>, APIError>)
        ensures
            final(self).calls() == old(self).calls().push(ApiCall::UserTimelineNextPage),
            final(self).likes_answers() == old(self).likes_answers(),
            ({
                &&& final(self).unlike_answer() == old(self).unlike_answer()
                &&& final(self).unretweet_answer() == old(self).unretweet_answer()
                &&& final(self).erase_answer() == old(self).erase_answer()
                &&& final(self).validate_answer() == old(self).validate_answer()
                &&& final(self).user_id_answer() == old(self).user_id_answer()
            }),
            old(self).user_answers().len() > 0 ==> {
                &&& final(self).user_answers() == old(self).user_answers().skip(1)
                &&& r == old(self).user_answers()[0]
            },
            old(self).user_answers().len() == 0 ==> {
                &&& final(self).user_answers() == old(self).user_answers()
                &&& r matches Ok(page) && page@.len() == 0
            },
    ;

    /// Returns the next page of the feed of posts liked by the account.
    /// An empty page means the feed is exhausted.
    fn likes_timeline_next_page(&mut self) -> (r: Result<Vec<Post>, APIError>)
        ensures
            final(self).calls() == old(self).calls().push(ApiCall::LikesTimelineNextPage),
            final(self).user_answers() == old(self).user_answers(),
            ({
                &&& final(self).unlike_answer() == old(self).unlike_answer()
                &&& final(self).unretweet_answer() == old(self).unretweet_answer()
                &&& final(self).erase_answer() == old(self).erase_answer()
                &&& final(self).validate_answer() == old(self).validate_answer()
                &&& final(self).user_id_answer() == old(self).user_id_answer()
            }),
            old(self).likes_answers().len() > 0 ==> {
                &&& final(self).likes_answers() == old(self).likes_answers().skip(1)
                &&& r == old(self).likes_answers()[0]
            },
            old(self).likes_answers().len() == 0 ==> {
                &&& final(self).likes_answers() == old(self).likes_answers()
                &&& r matches Ok(page) && page@.len() == 0
            },
    ;

    /// Requests removal of the like relationship between the account and
    /// the given post.
    fn unlike_tweet(&mut self, tweet: &Post) -> (r: Result<(), APIError>)
        ensures
            final(self).calls() == old(self).calls().push(ApiCall::UnlikeTweet),
            ({
                &&& final(self).user_answers() == old(self).user_answers()
                &&& final(self).likes_answers() == old(self).likes_answers()
            }),
            ({
                &&& final(self).unlike_answer() == old(self).unlike_answer()
                &&& final(self).unretweet_answer() == old(self).unretweet_answer()
                &&& final(self).erase_answer() == old(self).erase_answer()
                &&& final(self).validate_answer() == old(self).validate_answer()
                &&& final(self).user_id_answer() == old(self).user_id_answer()
            }),
            r == old(self).unlike_answer(),
    ;

    /// Requests removal of the repost relationship between the account and
    /// the given post.
    fn unretweet_tweet(&mut self, tweet: &Post) -> (r: Result<(), APIError>)
        ensures
            final(self).calls() == old(self).calls().push(ApiCall::UnretweetTweet),
            ({
                &&& final(self).user_answers() == old(self).user_answers()
                &&& final(self).likes_answers() == old(self).likes_answers()
            }),
            ({
                &&& final(self).unlike_answer() == old(self).unlike_answer()
                &&& final(self).unretweet_answer() == old(self).unretweet_answer()
                &&& final(self).erase_answer() == old(self).erase_answer()
                &&& final(self).validate_answer() == old(self).validate_answer()
                &&& final(self).user_id_answer() == old(self).user_id_answer()
            }),
            r == old(self).unretweet_answer(),
    ;

    /// Requests deletion of the given post.  A gateway deletes only posts
    /// the acting account owns and treats anything else as a no-op
    /// success.
    fn erase_tweet(&mut self, tweet: &Post) -> (r: Result<(), APIError>)
        ensures
            final(self).calls() == old(self).calls().push(ApiCall::EraseTweet),
            ({
                &&& final(self).user_answers() == old(self).user_answers()
                &&& final(self).likes_answers() == old(self).likes_answers()
            }),
            ({
                &&& final(self).unlike_answer() == old(self).unlike_answer()
                &&& final(self).unretweet_answer() == old(self).unretweet_answer()
                &&& final(self).erase_answer() == old(self).erase_answer()
                &&& final(self).validate_answer() == old(self).validate_answer()
                &&& final(self).user_id_answer() == old(self).user_id_answer()
            }),
            r == old(self).erase_answer(),
    ;

    /// Checks the credential against the remote service.
    fn validate_token(&mut self, token: &Token) -> (r: Result<(), APIError>)
        ensures
            final(self).calls() == old(self).calls().push(ApiCall::ValidateToken),
            ({
                &&& final(self).user_answers() == old(self).user_answers()
                &&& final(self).likes_answers() == old(self).likes_answers()
            }),
            ({
                &&& final(self).unlike_answer() == old(self).unlike_answer()
                &&& final(self).unretweet_answer() == old(self).unretweet_answer()
                &&& final(self).erase_answer() == old(self).erase_answer()
                &&& final(self).validate_answer() == old(self).validate_answer()
                &&& final(self).user_id_answer() == old(self).user_id_answer()
            }),
            r == old(self).validate_answer(),
    ;

    /// Resolves the account's numeric identifier from its public handle.
    fn get_user_id(&mut self, screen_name: &str, token: &Token) -> (r: Result<u64, APIError>)
        ensures
            final(self).calls() == old(self).calls().push(ApiCall::GetUserId),
            ({
                &&& final(self).user_answers() == old(self).user_answers()
                &&& final(self).likes_answers() == old(self).likes_answers()
            }),
            ({
                &&& final(self).unlike_answer() == old(self).unlike_answer()
                &&& final(self).unretweet_answer() == old(self).unretweet_answer()
                &&& final(self).erase_answer() == old(self).erase_answer()
                &&& final(self).validate_answer() == old(self).validate_answer()
                &&& final(self).user_id_answer() == old(self).user_id_answer()
            }),
            r == old(self).user_id_answer(),
    ;
}

/// The deterministic, scripted gateway used by the test suite.
///
/// Each page-fetch operation consumes the front of its answer script and,
/// once the script is exhausted, keeps answering an empty page.  Every
/// other operation returns a copy of its configured answer, unchanged from
/// call to call.  Every invocation is recorded in `methods_called_in_order`
/// so tests can assert both outcomes and call sequencing.
#[derive(Debug)]
pub struct TestAPI {
    pub user_timeline_next_page_answers: Vec<FetchAnswer>,
    pub likes_timeline_next_page_answers: Vec<FetchAnswer>,
    pub unlike_tweet_answer: Result<(), APIError>,
    pub unretweet_tweet_answer: Result<(), APIError>,
    pub erase_tweet_answer: Result<(), APIError>,
    pub validate_token_answer: Result<(), APIError>,
    pub get_user_id_answer: Result<u64, APIError>,
    pub methods_called_in_order: Vec<ApiCall>,
}

impl Default for TestAPI {
    /// A stub whose feeds are exhausted at once and whose every operation
    /// succeeds, with user identifier 0.
    fn default() -> (r: Self)
        ensures
            r.user_answers() == Seq::<FetchAnswer>::empty(),
            r.likes_answers() == Seq::<FetchAnswer>::empty(),
            r.unlike_answer() == Result::<(), APIError>::Ok(()),
            r.unretweet_answer() == Result::<(), APIError>::Ok(()),
            r.erase_answer() == Result::<(), APIError>::Ok(()),
            r.validate_answer() == Result::<(), APIError>::Ok(()),
            r.user_id_answer() == Result::<u64, APIError>::Ok(0u64),
            r.calls() == Seq::<ApiCall>::empty(),
    {
        TestAPI {
            user_timeline_next_page_answers: Vec::new(),
            likes_timeline_next_page_answers: Vec::new(),
            unlike_tweet_answer: Ok(()),
            unretweet_tweet_answer: Ok(()),
            erase_tweet_answer: Ok(()),
            validate_token_answer: Ok(()),
            get_user_id_answer: Ok(0),
            methods_called_in_order: Vec::new(),
        }
    }
}

impl TwitterAPI for TestAPI {
    open spec fn user_answers(&self) -> Seq<FetchAnswer> {
        self.user_timeline_next_page_answers@
    }

    open spec fn likes_answers(&self) -> Seq<FetchAnswer> {
        self.likes_timeline_next_page_answers@
    }

    open spec fn unlike_answer(&self) -> Result<(), APIError> {
        self.unlike_tweet_answer
    }

    open spec fn unretweet_answer(&self) -> Result<(), APIError> {
        self.unretweet_tweet_answer
    }

    open spec fn erase_answer(&self) -> Result<(), APIError> {
        self.erase_tweet_answer
    }

    open spec fn validate_answer(&self) -> Result<(), APIError> {
        self.validate_token_answer
    }

    open spec fn user_id_answer(&self) -> Result<u64, APIError> {
        self.get_user_id_answer
    }

    open spec fn calls(&self) -> Seq<ApiCall> {
        self.methods_called_in_order@
    }

    fn user_timeline_next_page(&mut self) -> (r: Result<Vec<Post>, APIError>) {
        self.methods_called_in_order.push(ApiCall::UserTimelineNextPage);
        if self.user_timeline_next_page_answers.len() > 0 {
            let answer = self.user_timeline_next_page_answers.remove(0);
            proof {
                assert(old(self).user_answers().remove(0) =~= old(self).user_answers().skip(1));
            }
            answer
        } else {
            Ok(Vec::new())
        }
    }

    fn likes_timeline_next_page(&mut self) -> (r: Result<Vec<Post>, APIError>) {
        self.methods_called_in_order.push(ApiCall::LikesTimelineNextPage);
        if self.likes_timeline_next_page_answers.len() > 0 {
            let answer = self.likes_timeline_next_page_answers.remove(0);
            proof {
                assert(old(self).likes_answers().remove(0) =~= old(self).likes_answers().skip(1));
            }
            answer
        } else {
            Ok(Vec::new())
        }
    }

    fn unlike_tweet(&mut self, _tweet: &Post) -> (r: Result<(), APIError>) {
        self.methods_called_in_order.push(ApiCall::UnlikeTweet);
        match &self.unlike_tweet_answer {
            Ok(u) => Ok(*u),
            Err(e) => Err(e.clone()),
        }
    }

    fn unretweet_tweet(&mut self, _tweet: &Post) -> (r: Result<(), APIError>) {
        self.methods_called_in_order.push(ApiCall::UnretweetTweet);
        match &self.unretweet_tweet_answer {
            Ok(u) => Ok(*u),
            Err(e) => Err(e.clone()),
        }
    }

    fn erase_tweet(&mut self, _tweet: &Post) -> (r: Result<(), APIError>) {
        self.methods_called_in_order.push(ApiCall::EraseTweet);
        match &self.erase_tweet_answer {
            Ok(u) => Ok(*u),
            Err(e) => Err(e.clone()),
        }
    }

    fn validate_token(&mut self, _token: &Token) -> (r: Result<(), APIError>) {
        self.methods_called_in_order.push(ApiCall::ValidateToken);
        match &self.validate_token_answer {
            Ok(u) => Ok(*u),
            Err(e) => Err(e.clone()),
        }
    }

    fn get_user_id(&mut self, _screen_name: &str, _token: &Token) -> (r: Result<u64, APIError>) {
        self.methods_called_in_order.push(ApiCall::GetUserId);
        match &self.get_user_id_answer {
            Ok(id) => Ok(*id),
            Err(e) => Err(e.clone()),
        }
    }
}

} // verus!
