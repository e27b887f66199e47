//! The connection: the `New` -> `Request` -> `Response` phase machine, the
//! single event-handler slot, and the header-fetch-and-redirect loop.
//!
//! The native engine is an external collaborator.  What it reports during
//! one blocking header fetch -- the primitive's return value, the status
//! code, the header events it fired and its content-length accessor -- is
//! handed in as one [`EngineResponse`] value, and every decision the
//! connection takes from those values is verified.

use vstd::prelude::*;
use vstd::string::StringExecFns;
use crate::config::{follow_redirects_for, Configuration, FollowRedirectsPolicy, Method};
use crate::error::EspError;
use crate::headers::{store_from, HeaderStore};
use crate::text::{
    dec_seq, fmt_u64, is_content_length, is_content_length_name, lower_seq, parse_u64,
    parse_u64_spec,
};

verus! {

/// The connection's position in its request/response lifecycle.
#[derive(Clone, Copy, Debug, PartialEq, Eq, Structural)]
pub enum Phase {
    New,
    Request,
    Response,
}

/// What the native engine reported for one blocking header-fetch attempt.
pub struct EngineResponse {
    /// Return value of the fetch primitive: negative on failure.
    pub fetch_result: i32,
    /// The session's status code after the fetch.
    pub status: u16,
    /// The header events the fetch fired, in delivery order.
    pub headers: Vec<(String, String)>,
    /// The engine's content-length accessor after the fetch; negative means
    /// unknown.
    pub content_length: i64,
}

/// How the fetch loop goes on after one attempt.
#[derive(Clone, Copy, Debug, PartialEq, Eq, Structural)]
pub enum FetchOutcome {
    /// The response's headers are in; enter the Response phase.
    Complete,
    /// A followable redirect: prepare the session and fetch again.
    FollowRedirect,
    /// The fetch primitive failed; propagate its code.
    Failed(EspError),
}

/// Handler token for the completion-bridge subscription registered while
/// the open primitive is in flight.
pub const COMPLETION_HANDLER: u64 = 1;

/// Handler token for the header-collection subscription registered during
/// one fetch attempt.
pub const HEADER_HANDLER: u64 = 2;

/// The redirect class that is followed: 3xx, except 304 Not Modified,
/// which carries no location to re-fetch.
pub open spec fn is_followable_redirect(status: u16) -> bool {
    300 <= status < 400 && status != 304
}

/// Whether the fetch loop stops at attempt `a` when the effective
/// follow-redirects flag is `follow`: on failure, or on anything that is
/// not a followed redirect.
pub open spec fn attempt_terminal(follow: bool, a: EngineResponse) -> bool {
    a.fetch_result < 0 || !(follow && is_followable_redirect(a.status))
}

/// The index of the attempt at which the fetch loop stops.
pub open spec fn first_terminal(follow: bool, rs: Seq<EngineResponse>) -> int
    decreases rs.len(),
{
    if rs.len() == 0 {
        0
    } else if attempt_terminal(follow, rs[0]) {
        0
    } else {
        1 + first_terminal(follow, rs.subrange(1, rs.len() as int))
    }
}

/// The loop's outcome for one attempt.
pub open spec fn fetch_outcome_of(follow: bool, a: EngineResponse) -> FetchOutcome {
    if a.fetch_result < 0 {
        FetchOutcome::Failed(EspError { code: a.fetch_result })
    } else if follow && is_followable_redirect(a.status) {
        FetchOutcome::FollowRedirect
    } else {
        FetchOutcome::Complete
    }
}

/// The header value surfaced for `Content-Length`, from the engine's length
/// accessor: absent when the engine does not know the length.
pub open spec fn content_len_text(n: i64) -> Option<Seq<char>> {
    if n >= 0 {
        Some(dec_seq(n as int))
    } else {
        None
    }
}

/// The declared request body length: the value of the last `Content-Length`
/// request header that parses as a `u64`, if any.
pub open spec fn request_len_opt(hs: Seq<(String, String)>) -> Option<u64>
    decreases hs.len(),
{
    if hs.len() == 0 {
        None
    } else {
        match (if is_content_length_name(hs.last().0@) {
            parse_u64_spec(hs.last().1@)
        } else {
            None
        }) {
            Some(v) => Some(v),
            None => request_len_opt(hs.drop_last()),
        }
    }
}

/// The declared request body length, defaulting to 0 when no
/// `Content-Length` request header parses.
pub open spec fn request_len_of(hs: Seq<(String, String)>) -> u64 {
    match request_len_opt(hs) {
        Some(v) => v,
        None => 0,
    }
}

/// Ghost image of a connection.
pub struct ConnView {
    pub phase: Phase,
    pub policy: FollowRedirectsPolicy,
    pub follow_redirects: bool,
    pub request_content_len: u64,
    pub headers: Map<Seq<int>, Seq<char>>,
    pub status: u16,
    pub native_content_len: i64,
    pub content_len_cache: Option<Option<Seq<char>>>,
    pub event_handler: Option<u64>,
}

/// The cache state after one query for `name`: a `Content-Length` query
/// fills the cache if it was empty; any other query leaves it alone.
pub open spec fn cl_cache_after(s: ConnView, name: Seq<char>) -> Option<Option<Seq<char>>> {
    if is_content_length_name(name) {
        match s.content_len_cache {
            Some(c) => Some(c),
            None => Some(content_len_text(s.native_content_len)),
        }
    } else {
        s.content_len_cache
    }
}

/// The value a header query for `name` returns: for `Content-Length` the
/// cached (or freshly computed) engine length, for any other name the
/// store's latest value.
pub open spec fn header_value_of(s: ConnView, name: Seq<char>) -> Option<Seq<char>> {
    if is_content_length_name(name) {
        match s.content_len_cache {
            Some(c) => c,
            None => content_len_text(s.native_content_len),
        }
    } else if s.headers.contains_key(lower_seq(name)) {
        Some(s.headers[lower_seq(name)])
    } else {
        None
    }
}

/// One HTTP client connection over the native engine, consumed by one
/// request/response cycle.
pub struct EspHttpConnection {
    policy: FollowRedirectsPolicy,
    phase: Phase,
    request_content_len: u64,
    follow_redirects: bool,
    headers: HeaderStore,
    status: u16,
    native_content_len: i64,
    content_len_cache: Option<Option<String>>,
    event_handler: Option<u64>,
}

impl View for EspHttpConnection {
    type V = ConnView;

    closed spec fn view(&self) -> ConnView {
        ConnView {
            phase: self.phase,
            policy: self.policy,
            follow_redirects: self.follow_redirects,
            request_content_len: self.request_content_len,
            headers: self.headers@,
            status: self.status,
            native_content_len: self.native_content_len,
            content_len_cache: match self.content_len_cache {
                None => None,
                Some(None) => Some(None),
                Some(Some(s)) => Some(Some(s@)),
            },
            event_handler: self.event_handler,
        }
    }
}

impl EspHttpConnection {
    /// A fresh connection in the `New` phase, remembering the redirect
    /// policy.  The engine session itself is created by the caller from
    /// [`Configuration::to_native`].
    pub fn new(configuration: &Configuration) -> (r: EspHttpConnection)
        ensures
            r@.phase == Phase::New,
            r@.policy == configuration.follow_redirects_policy,
            !r@.follow_redirects,
            r@.request_content_len == 0,
            r@.headers == Map::<Seq<int>, Seq<char>>::empty(),
            r@.status == 0,
            r@.native_content_len == -1,
            r@.content_len_cache is None,
            r@.event_handler is None,
    {
        EspHttpConnection {
            policy: configuration.follow_redirects_policy,
            phase: Phase::New,
            request_content_len: 0,
            follow_redirects: false,
            headers: HeaderStore::new(),
            status: 0,
            native_content_len: -1,
            content_len_cache: None,
            event_handler: None,
        }
    }

    /// Installs `handler` as the session's single event subscription,
    /// replacing whatever subscription was active.
    pub fn register_handler(&mut self, handler: u64)
        ensures
            final(self)@ == (ConnView { event_handler: Some(handler), ..old(self)@ }),
    {
        self.event_handler = Some(handler);
    }

    /// Empties the event-handler slot.
    pub fn deregister_handler(&mut self)
        ensures
            final(self)@ == (ConnView { event_handler: None, ..old(self)@ }),
    {
        self.event_handler = None;
    }

    /// The currently registered subscription, if any.
    pub fn active_handler(&self) -> (r: Option<u64>)
        ensures
            r == self@.event_handler,
    {
        self.event_handler
    }

    pub fn is_request_initiated(&self) -> (r: bool)
        ensures
            r == (self@.phase == Phase::Request),
    {
        self.phase == Phase::Request
    }

    pub fn is_response_initiated(&self) -> (r: bool)
        ensures
            r == (self@.phase == Phase::Response),
    {
        self.phase == Phase::Response
    }

    /// The effective follow-redirects flag of the current request.
    pub fn follows_redirects(&self) -> (r: bool)
        ensures
            r == self@.follow_redirects,
    {
        self.follow_redirects
    }

    /// The declared request body length, as handed to the engine's open
    /// primitive -- also when the connection is re-opened after a redirect.
    pub fn request_content_len(&self) -> (r: u64)
        ensures
            r == self@.request_content_len,
    {
        self.request_content_len
    }

    /// Composes a request: records the declared body length from a
    /// `Content-Length` request header (defaulting to 0) and the effective
    /// follow-redirects flag from policy and method, and enters the
    /// `Request` phase.  The returned length is what the caller passes
    /// verbatim to the engine's open primitive.  Legal only on a fresh
    /// connection: a connection is consumed by one request/response cycle.
    pub fn initiate_request(&mut self, method: Method, headers: &Vec<(String, String)>) -> (declared_len:
        u64)
        requires
            old(self)@.phase == Phase::New,
        ensures
            final(self)@ == (ConnView {
                phase: Phase::Request,
                follow_redirects: follow_redirects_for(old(self)@.policy, method),
                request_content_len: request_len_of(headers@),
                ..old(self)@
            }),
            declared_len == request_len_of(headers@),
    {
        let mut content_len: Option<u64> = None;
        let mut i: usize = 0;
        while i < headers.len()
            invariant
                i <= headers@.len(),
                content_len == request_len_opt(headers@.take(i as int)),
            decreases headers@.len() - i,
        {
            proof {
                assert(headers@.take(i + 1).drop_last() =~= headers@.take(i as int));
                assert(headers@.take(i + 1).last() == headers@[i as int]);
            }
            if is_content_length(headers[i].0.as_str()) {
                match parse_u64(headers[i].1.as_str()) {
                    Some(v) => {
                        content_len = Some(v);
                    },
                    None => {},
                }
            }
            i += 1;
        }
        proof {
            assert(headers@.take(headers@.len() as int) =~= headers@);
        }
        self.follow_redirects = match self.policy {
            FollowRedirectsPolicy::FollowAll => true,
            FollowRedirectsPolicy::FollowGetHead => method == Method::Get || method
                == Method::Head,
            FollowRedirectsPolicy::FollowNone => false,
        };
        self.request_content_len = match content_len {
            Some(v) => v,
            None => 0,
        };
        self.phase = Phase::Request;
        self.request_content_len
    }

    /// Applies one header-fetch attempt: clears the store and the cached
    /// content length, registers the header-collection subscription,
    /// records the headers the engine's events delivered, drops the
    /// subscription again -- the registration never outlives the attempt
    /// -- and decides from the result code and status how the loop goes
    /// on.  A completing attempt enters the `Response` phase; a failing or
    /// redirecting one stays in `Request`.
    pub fn fetch_attempt(&mut self, attempt: &EngineResponse) -> (outcome: FetchOutcome)
        requires
            old(self)@.phase == Phase::Request,
        ensures
            final(self)@ == (ConnView {
                phase: if fetch_outcome_of(old(self)@.follow_redirects, *attempt)
                    == FetchOutcome::Complete {
                    Phase::Response
                } else {
                    Phase::Request
                },
                headers: store_from(attempt.headers@),
                status: attempt.status,
                native_content_len: attempt.content_length,
                content_len_cache: None,
                event_handler: None,
                ..old(self)@
            }),
            outcome == fetch_outcome_of(old(self)@.follow_redirects, *attempt),
    {
        self.headers.clear();
        self.content_len_cache = None;
        self.register_handler(HEADER_HANDLER);
        let mut j: usize = 0;
        while j < attempt.headers.len()
            invariant
                j <= attempt.headers@.len(),
                self@ == (ConnView {
                    headers: store_from(attempt.headers@.take(j as int)),
                    content_len_cache: None,
                    event_handler: Some(HEADER_HANDLER),
                    ..old(self)@
                }),
            decreases attempt.headers@.len() - j,
        {
            proof {
                assert(attempt.headers@.take(j + 1).drop_last() =~= attempt.headers@.take(
                    j as int,
                ));
                assert(attempt.headers@.take(j + 1).last() == attempt.headers@[j as int]);
            }
            self.headers.insert(attempt.headers[j].0.clone(), attempt.headers[j].1.clone());
            j += 1;
        }
        proof {
            assert(attempt.headers@.take(attempt.headers@.len() as int) =~= attempt.headers@);
        }
        self.deregister_handler();
        self.status = attempt.status;
        self.native_content_len = attempt.content_length;
        if attempt.fetch_result < 0 {
            FetchOutcome::Failed(EspError { code: attempt.fetch_result })
        } else if self.follow_redirects && attempt.status >= 300 && attempt.status < 400
            && attempt.status != 304 {
            FetchOutcome::FollowRedirect
        } else {
            self.phase = Phase::Response;
            FetchOutcome::Complete
        }
    }

    /// Runs the header-fetch-and-redirect loop over the engine's successive
    /// attempt reports, and on success enters the `Response` phase.  The
    /// loop stops at the first attempt that fails or is not a followed
    /// redirect; the store then holds exactly that attempt's headers, and
    /// the event-handler slot is empty on every exit.  Legal only from the
    /// `Request` phase.
    pub fn initiate_response(&mut self, attempts: &Vec<EngineResponse>) -> (r: Result<
        (),
        EspError,
    >)
        requires
            old(self)@.phase == Phase::Request,
            attempts@.len() > 0,
            attempt_terminal(old(self)@.follow_redirects, attempts@.last()),
        ensures
            ({
                let follow = old(self)@.follow_redirects;
                let k = first_terminal(follow, attempts@);
                &&& 0 <= k < attempts@.len()
                &&& attempt_terminal(follow, attempts@[k])
                &&& forall|j: int| 0 <= j < k ==> !attempt_terminal(follow, #[trigger] attempts@[j])
                &&& final(self)@ == (ConnView {
                    phase: if attempts@[k].fetch_result >= 0 {
                        Phase::Response
                    } else {
                        Phase::Request
                    },
                    headers: store_from(attempts@[k].headers@),
                    status: attempts@[k].status,
                    native_content_len: attempts@[k].content_length,
                    content_len_cache: None,
                    event_handler: None,
                    ..old(self)@
                })
                &&& r == (if attempts@[k].fetch_result >= 0 {
                    Result::<(), EspError>::Ok(())
                } else {
                    Result::<(), EspError>::Err(EspError { code: attempts@[k].fetch_result })
                })
            }),
    {
        let ghost follow = old(self)@.follow_redirects;
        let n: usize = attempts.len();
        let mut i: usize = 0;
        loop
            invariant
                n == attempts@.len(),
                0 <= i < attempts@.len(),
                attempts@.len() > 0,
                follow == old(self)@.follow_redirects,
                attempt_terminal(follow, attempts@.last()),
                forall|j: int| 0 <= j < i ==> !attempt_terminal(follow, #[trigger] attempts@[j]),
                self@.phase == Phase::Request,
                self@.policy == old(self)@.policy,
                self@.follow_redirects == follow,
                self@.request_content_len == old(self)@.request_content_len,
            decreases attempts@.len() - i,
        {
            let outcome = self.fetch_attempt(&attempts[i]);
            match outcome {
                FetchOutcome::Failed(e) => {
                    proof {
                        lemma_first_terminal_at(follow, attempts@, i as int);
                    }
                    return Err(e);
                },
                FetchOutcome::Complete => {
                    proof {
                        lemma_first_terminal_at(follow, attempts@, i as int);
                    }
                    return Ok(());
                },
                FetchOutcome::FollowRedirect => {
                    proof {
                        assert(!attempt_terminal(follow, attempts@[i as int]));
                        assert(i < attempts@.len() - 1);
                    }
                    i += 1;
                },
            }
        }
    }

    /// The response's status code.  Legal only in the `Response` phase.
    pub fn status(&self) -> (r: u16)
        requires
            self@.phase == Phase::Response,
        ensures
            r == self@.status,
    {
        self.status
    }

    /// The engine surfaces no reason phrase; there is never a message.
    /// Legal only in the `Response` phase.
    pub fn status_message(&self) -> (r: Option<&str>)
        requires
            self@.phase == Phase::Response,
        ensures
            r is None,
    {
        None
    }

    /// Looks up a response header by case-insensitive name.
    /// `Content-Length` is special-cased: it is computed from the engine's
    /// length accessor on the first query and cached for the rest of the
    /// response; every other name is answered from the header store.
    /// Legal only in the `Response` phase.
    pub fn header(&mut self, name: &str) -> (r: Option<String>)
        requires
            old(self)@.phase == Phase::Response,
        ensures
            final(self)@ == (ConnView {
                content_len_cache: cl_cache_after(old(self)@, name@),
                ..old(self)@
            }),
            r.deep_view() == header_value_of(old(self)@, name@),
    {
        if is_content_length(name) {
            match &self.content_len_cache {
                Some(Some(s)) => Some(s.clone()),
                Some(None) => None,
                None => {
                    let text: Option<String> = if self.native_content_len >= 0 {
                        Some(fmt_u64(self.native_content_len as u64))
                    } else {
                        None
                    };
                    self.content_len_cache = Some(
                        match &text {
                            Some(s) => Some(s.clone()),
                            None => None,
                        },
                    );
                    text
                },
            }
        } else {
            match self.headers.get(name) {
                Some(v) => Some(String::from_str(v)),
                None => None,
            }
        }
    }

    /// Maps the engine's raw return for a response-body read.  Legal only
    /// in the `Response` phase.
    pub fn read(&self, engine_result: i32) -> (r: Result<usize, EspError>)
        requires
            self@.phase == Phase::Response,
        ensures
            engine_result < 0 ==> r == Result::<usize, EspError>::Err(EspError {
                code: engine_result,
            }),
            engine_result >= 0 ==> r == Result::<usize, EspError>::Ok(engine_result as usize),
    {
        crate::error::check(engine_result)
    }

    /// Maps the engine's raw return for a request-body write.  Legal only
    /// in the `Request` phase.
    pub fn write(&self, engine_result: i32) -> (r: Result<usize, EspError>)
        requires
            self@.phase == Phase::Request,
        ensures
            engine_result < 0 ==> r == Result::<usize, EspError>::Err(EspError {
                code: engine_result,
            }),
            engine_result >= 0 ==> r == Result::<usize, EspError>::Ok(engine_result as usize),
    {
        crate::error::check(engine_result)
    }

    /// The engine buffers nothing on the library's side; a flush succeeds
    /// without effect.  Legal only in the `Request` phase.
    pub fn flush(&self) -> (r: Result<(), EspError>)
        requires
            self@.phase == Phase::Request,
        ensures
            r is Ok,
    {
        Ok(())
    }
}

proof fn lemma_first_terminal_at(follow: bool, rs: Seq<EngineResponse>, i: int)
    requires
        0 <= i < rs.len(),
        attempt_terminal(follow, rs[i]),
        forall|j: int| 0 <= j < i ==> !attempt_terminal(follow, #[trigger] rs[j]),
    ensures
        first_terminal(follow, rs) == i,
    decreases i,
{
    if i > 0 {
        let tail = rs.subrange(1, rs.len() as int);
        assert(tail[i - 1] == rs[i]);
        assert forall|j: int| 0 <= j < i - 1 implies !attempt_terminal(
            follow,
            #[trigger] tail[j],
        ) by {
            assert(tail[j] == rs[j + 1]);
        }
        lemma_first_terminal_at(follow, tail, i - 1);
    }
}

/// Redirect-loop termination: with redirects followed, a run of `n`
/// successful followable 3xx attempts ended by a successful non-redirect
/// attempt stops the loop exactly at that attempt -- after `n + 1` fetches
/// -- so the store reflects only the final response's headers.
pub proof fn lemma_redirect_run_stops_at_success(follow: bool, rs: Seq<EngineResponse>, n: int)
    requires
        follow,
        0 <= n < rs.len(),
        forall|j: int|
            0 <= j < n ==> (#[trigger] rs[j]).fetch_result >= 0 && is_followable_redirect(
                rs[j].status,
            ),
        rs[n].fetch_result >= 0,
        !is_followable_redirect(rs[n].status),
    ensures
        first_terminal(follow, rs) == n,
{
    lemma_first_terminal_at(follow, rs, n);
}

/// Not-Modified exclusion: a 304, though in the 3xx range, is never
/// followed -- the loop stops at the first attempt.
pub proof fn lemma_not_modified_stops(follow: bool, rs: Seq<EngineResponse>)
    requires
        rs.len() > 0,
        rs[0].status == 304,
    ensures
        first_terminal(follow, rs) == 0,
{
}

/// Content-Length caching: the first `Content-Length` query fills the
/// cache; a second query returns the same value and leaves the connection's
/// state exactly as it was.
pub proof fn lemma_content_length_cached(s: ConnView, name: Seq<char>)
    requires
        is_content_length_name(name),
    ensures
        ({
            let s1 = ConnView { content_len_cache: cl_cache_after(s, name), ..s };
            &&& cl_cache_after(s1, name) == s1.content_len_cache
            &&& header_value_of(s1, name) == header_value_of(s, name)
        }),
{
}

} // verus!
