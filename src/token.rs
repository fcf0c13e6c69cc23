use vstd::prelude::*;

use crate::error::{ApiError, AuthError};

verus! {

/// What a caller holding the cache's lock does next.
pub enum TokenStep {
    /// A token is cached: use it.
    Ready(String),
    /// No token is cached: run the authentication exchange, then hand its
    /// outcome to [`TokenCache::finish`] before releasing the lock.
    Authenticate,
}

/// The session token shared by all fetches. Absent at start, set by the first
/// successful authentication, and kept from then on.
///
/// Callers hold one lock around the whole of [`TokenCache::begin`], the
/// exchange it may ask for, and [`TokenCache::finish`]: that makes the
/// check and the store one step, so at most one exchange is in flight.
///
/// A token is never dropped: where the device later refuses it, fetches fail
/// with `ApiError::Unauthorized` and the cache keeps it.
pub struct TokenCache {
    token: Option<String>,
}

impl View for TokenCache {
    type V = Option<Seq<char>>;

    closed spec fn view(&self) -> Option<Seq<char>> {
        match self.token {
            Some(t) => Some(t@),
            None => None,
        }
    }
}

/// Whether a caller finding `cache` must authenticate.
pub open spec fn needs_authentication(cache: Option<Seq<char>>) -> bool {
    cache is None
}

/// The cache once an exchange has ended with `outcome`: a token obtained is
/// stored, a failure leaves the cache as it was.
pub open spec fn after_authentication(
    cache: Option<Seq<char>>,
    outcome: Result<Seq<char>, AuthError>,
) -> Option<Seq<char>> {
    match outcome {
        Ok(t) => Some(t),
        Err(_) => cache,
    }
}

/// One caller's turn under the lock, where an exchange, if the caller runs
/// one, obtains `issued`.
pub open spec fn turn(cache: Option<Seq<char>>, issued: Seq<char>) -> Option<Seq<char>> {
    if needs_authentication(cache) {
        after_authentication(cache, Ok(issued))
    } else {
        cache
    }
}

/// The cache after callers take their turns one after another, caller `i`
/// obtaining `issued[i]` should it authenticate.
pub open spec fn after_turns(cache: Option<Seq<char>>, issued: Seq<Seq<char>>) -> Option<
    Seq<char>,
>
    decreases issued.len(),
{
    if issued.len() == 0 {
        cache
    } else {
        turn(after_turns(cache, issued.drop_last()), issued.last())
    }
}

/// How many of those callers ran an authentication exchange.
pub open spec fn authentications(cache: Option<Seq<char>>, issued: Seq<Seq<char>>) -> nat
    decreases issued.len(),
{
    if issued.len() == 0 {
        0
    } else {
        authentications(cache, issued.drop_last()) + if needs_authentication(
            after_turns(cache, issued.drop_last()),
        ) {
            1nat
        } else {
            0nat
        }
    }
}

impl TokenCache {
    /// An empty cache.
    pub fn new() -> (r: Self)
        ensures
            r@ is None,
    {
        TokenCache { token: None }
    }

    /// The cached token, if any; the cache is left as it is.
    pub fn cached(&self) -> (r: Option<String>)
        ensures
            r is Some <==> self@ is Some,
            r is Some ==> self@ == Some(r->Some_0@),
    {
        match &self.token {
            Some(t) => Some(t.clone()),
            None => None,
        }
    }

    /// The first step of a caller holding the lock.
    pub fn begin(&self) -> (r: TokenStep)
        ensures
            r is Authenticate <==> needs_authentication(self@),
            r is Ready ==> self@ == Some(r->Ready_0@),
    {
        match &self.token {
            Some(t) => TokenStep::Ready(t.clone()),
            None => TokenStep::Authenticate,
        }
    }

    /// The last step of a caller that authenticated: stores the token it
    /// obtained and hands it back, or passes the failure on.
    pub fn finish(&mut self, outcome: Result<String, AuthError>) -> (r: Result<String, ApiError>)
        ensures
            final(self)@ == after_authentication(
                old(self)@,
                match outcome {
                    Ok(t) => Ok(t@),
                    Err(e) => Err(e),
                },
            ),
            outcome is Ok ==> r == Ok::<String, ApiError>(outcome->Ok_0),
            outcome is Err ==> r == Err::<String, ApiError>(ApiError::Auth(outcome->Err_0)),
    {
        match outcome {
            Ok(t) => {
                self.token = Some(t.clone());
                Ok(t)
            },
            Err(e) => Err(ApiError::Auth(e)),
        }
    }
}

/// On a fresh cache the first fetch authenticates once, and a second fetch
/// right after it authenticates no more: it finds the first one's token.
pub proof fn lemma_first_fetch_authenticates_once(first: Seq<char>, second: Seq<char>)
    ensures
        needs_authentication(None),
        authentications(None, seq![first]) == 1,
        after_turns(None, seq![first]) == Some(first),
        !needs_authentication(after_turns(None, seq![first])),
        authentications(None, seq![first, second]) == 1,
        after_turns(None, seq![first, second]) == Some(first),
{
    lemma_queued_fetches_share_first_token(seq![first]);
    lemma_queued_fetches_share_first_token(seq![first, second]);
}

/// Callers that queue on the lock of a fresh cache end in one consistent
/// token: only the first authenticates, the token it obtained is what the
/// cache holds after every turn, and so it is what every caller is handed.
pub proof fn lemma_queued_fetches_share_first_token(issued: Seq<Seq<char>>)
    requires
        issued.len() > 0,
    ensures
        after_turns(None, issued) == Some(issued[0]),
        authentications(None, issued) == 1,
        forall|i: int|
            0 <= i < issued.len() ==> #[trigger] after_turns(None, issued.take(i + 1)) == Some(
                issued[0],
            ),
    decreases issued.len(),
{
    if issued.len() == 1 {
        assert(issued.drop_last() =~= Seq::<Seq<char>>::empty());
        assert(authentications(None, issued.drop_last()) == 0);
        assert(after_turns(None, issued.drop_last()) is None);
    } else {
        lemma_queued_fetches_share_first_token(issued.drop_last());
    }
    assert forall|i: int| 0 <= i < issued.len() implies #[trigger] after_turns(
        None,
        issued.take(i + 1),
    ) == Some(issued[0]) by {
        if i + 1 == issued.len() {
            assert(issued.take(i + 1) =~= issued);
        } else {
            lemma_queued_fetches_share_first_token(issued.take(i + 1));
        }
    }
}

} // verus!
