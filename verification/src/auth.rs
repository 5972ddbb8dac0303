//! The two-path OAuth authorization flow, as a state machine from state
//! and event to next state and action. The interactive path blocks on one
//! line of console input carrying the redirect URL; the background path
//! runs a callback listener once and hands the redirect over a single
//! rendezvous. The surrounding runtime performs the actions and feeds the
//! resulting events back in.

use vstd::prelude::*;

verus! {

/// Which authorization path the flow takes.
#[derive(Clone, Copy, Debug, PartialEq, Eq, Structural)]
pub enum AuthMode {
    /// Interactive: prompt for the redirect URL on the console.
    Prompt,
    /// Background: host the callback listener, exposed or loopback-only.
    Server { expose: bool },
}

/// A step of the authorization flow failed; the flow aborts.
#[derive(Clone, Copy, Debug, PartialEq, Eq, Structural)]
pub enum AuthError {
    /// Generating the authorization URL failed.
    UrlGeneration,
    /// The redirect never arrived, could not be read, or carried no
    /// authorization code.
    RedirectFailed,
    /// The token exchange was refused.
    ExchangeFailed,
    /// The background listener timed out waiting for the redirect.
    Timeout,
}

/// The states of one authorization exchange.
#[derive(Clone, Copy, Debug, PartialEq, Eq, Structural)]
pub enum AuthState {
    Start,
    UrlShown,
    AwaitingRedirect,
    Exchanging,
    Cached,
    Failed,
}

/// What the runtime observed and reports back to the flow.
#[derive(Clone, Debug, PartialEq)]
pub enum AuthEvent {
    /// The authorization URL was generated (or generation failed).
    UrlReady(Option<String>),
    /// The URL was shown to the user.
    UrlDisplayed,
    /// The redirect arrived, carrying the authorization code extracted
    /// from it; `None` when the redirect was missing or malformed.
    RedirectReceived(Option<String>),
    /// The background listener gave up waiting.
    ListenerTimedOut,
    /// The token exchange finished, successfully or not.
    ExchangeFinished(bool),
}

/// What the runtime must do next.
#[derive(Clone, Debug, PartialEq)]
pub enum AuthAction {
    /// Print the authorization URL for the user.
    ShowUrl(String),
    /// Prompt: block on one line of console input with the redirect URL.
    /// Server: host the callback listener on the given bind address and
    /// block on its single handoff.
    AwaitRedirect,
    /// Exchange the authorization code for a token.
    Exchange(String),
    /// Persist the token and terminate the process deliberately: the run
    /// exists only to complete this one exchange.
    PersistAndTerminate,
    /// Abort the flow with the given error.
    Abort(AuthError),
}

/// How the flow waits for the authorization redirect.
#[derive(Clone, Debug, PartialEq)]
pub enum RedirectWait {
    /// Block on a single line of console input with the redirect URL.
    ConsolePrompt,
    /// Host the one-shot callback listener on the given bind address,
    /// blocking on its single handoff.
    Listener { bind: String },
}

/// Selects how the redirect is awaited: the interactive path blocks on
/// console input; the background path hosts the listener, bound to all
/// interfaces only when exposed.
pub fn redirect_wait(mode: &AuthMode) -> (r: RedirectWait)
    ensures
        *mode == AuthMode::Prompt ==> r == RedirectWait::ConsolePrompt,
        *mode matches AuthMode::Server { expose } ==> (r matches RedirectWait::Listener { bind }
            && (expose ==> bind@ == "0.0.0.0"@) && (!expose ==> bind@ == "127.0.0.1"@)),
{
    match mode {
        AuthMode::Prompt => RedirectWait::ConsolePrompt,
        AuthMode::Server { expose } => RedirectWait::Listener { bind: bind_address(*expose) },
    }
}

/// The address the callback listener binds: all interfaces when exposed,
/// otherwise loopback only.
pub fn bind_address(expose: bool) -> (r: String)
    ensures
        expose ==> r@ == "0.0.0.0"@,
        !expose ==> r@ == "127.0.0.1"@,
{
    if expose {
        "0.0.0.0".to_owned()
    } else {
        "127.0.0.1".to_owned()
    }
}

/// The transition table of the flow: from state and event to next state
/// and action.
pub open spec fn spec_auth_step(state: AuthState, event: AuthEvent) -> (AuthState, AuthAction) {
    match (state, event) {
        (AuthState::Start, AuthEvent::UrlReady(Some(url))) => (
            AuthState::UrlShown,
            AuthAction::ShowUrl(url),
        ),
        (AuthState::Start, AuthEvent::UrlReady(None)) => (
            AuthState::Failed,
            AuthAction::Abort(AuthError::UrlGeneration),
        ),
        (AuthState::UrlShown, AuthEvent::UrlDisplayed) => (
            AuthState::AwaitingRedirect,
            AuthAction::AwaitRedirect,
        ),
        (AuthState::AwaitingRedirect, AuthEvent::RedirectReceived(Some(url))) => (
            AuthState::Exchanging,
            AuthAction::Exchange(url),
        ),
        (AuthState::AwaitingRedirect, AuthEvent::RedirectReceived(None)) => (
            AuthState::Failed,
            AuthAction::Abort(AuthError::RedirectFailed),
        ),
        (AuthState::AwaitingRedirect, AuthEvent::ListenerTimedOut) => (
            AuthState::Failed,
            AuthAction::Abort(AuthError::Timeout),
        ),
        (AuthState::Exchanging, AuthEvent::ExchangeFinished(true)) => (
            AuthState::Cached,
            AuthAction::PersistAndTerminate,
        ),
        (AuthState::Exchanging, AuthEvent::ExchangeFinished(false)) => (
            AuthState::Failed,
            AuthAction::Abort(AuthError::ExchangeFailed),
        ),
        (s, _) => (s, AuthAction::Abort(AuthError::RedirectFailed)),
    }
}

/// Whether the event can occur in the state; any other pairing is a
/// protocol violation of the surrounding runtime.
pub open spec fn spec_auth_event_fits(state: AuthState, event: AuthEvent) -> bool {
    match (state, event) {
        (AuthState::Start, AuthEvent::UrlReady(_)) => true,
        (AuthState::UrlShown, AuthEvent::UrlDisplayed) => true,
        (AuthState::AwaitingRedirect, AuthEvent::RedirectReceived(_)) => true,
        (AuthState::AwaitingRedirect, AuthEvent::ListenerTimedOut) => true,
        (AuthState::Exchanging, AuthEvent::ExchangeFinished(_)) => true,
        _ => false,
    }
}

/// Advances the authorization flow by one step.
pub fn auth_step(state: AuthState, event: AuthEvent) -> (r: (AuthState, AuthAction))
    requires
        spec_auth_event_fits(state, event),
    ensures
        r == spec_auth_step(state, event),
        r.0 == AuthState::Cached ==> r.1 == AuthAction::PersistAndTerminate,
        r.0 == AuthState::Failed ==> r.1 is Abort,
{
    match (state, event) {
        (AuthState::Start, AuthEvent::UrlReady(Some(url))) => (
            AuthState::UrlShown,
            AuthAction::ShowUrl(url),
        ),
        (AuthState::Start, AuthEvent::UrlReady(None)) => (
            AuthState::Failed,
            AuthAction::Abort(AuthError::UrlGeneration),
        ),
        (AuthState::UrlShown, AuthEvent::UrlDisplayed) => (
            AuthState::AwaitingRedirect,
            AuthAction::AwaitRedirect,
        ),
        (AuthState::AwaitingRedirect, AuthEvent::RedirectReceived(Some(url))) => (
            AuthState::Exchanging,
            AuthAction::Exchange(url),
        ),
        (AuthState::AwaitingRedirect, AuthEvent::RedirectReceived(None)) => (
            AuthState::Failed,
            AuthAction::Abort(AuthError::RedirectFailed),
        ),
        (AuthState::AwaitingRedirect, AuthEvent::ListenerTimedOut) => (
            AuthState::Failed,
            AuthAction::Abort(AuthError::Timeout),
        ),
        (AuthState::Exchanging, AuthEvent::ExchangeFinished(true)) => (
            AuthState::Cached,
            AuthAction::PersistAndTerminate,
        ),
        (AuthState::Exchanging, AuthEvent::ExchangeFinished(false)) => (
            AuthState::Failed,
            AuthAction::Abort(AuthError::ExchangeFailed),
        ),
        (s, _) => (s, AuthAction::Abort(AuthError::RedirectFailed)),
    }
}


/// Whether position `i` of the redirect URL starts a `code=` query
/// parameter: the parameter name right after a `?` or `&`.
pub open spec fn code_marker_at(s: Seq<char>, i: int) -> bool {
    &&& 1 <= i
    &&& i + 5 <= s.len()
    &&& (s[i - 1] == '?' || s[i - 1] == '&')
    &&& s[i] == 'c'
    &&& s[i + 1] == 'o'
    &&& s[i + 2] == 'd'
    &&& s[i + 3] == 'e'
    &&& s[i + 4] == '='
}

/// The first position at or after `i` that starts a `code=` parameter.
pub open spec fn find_code_marker(s: Seq<char>, i: int) -> Option<int>
    decreases s.len() - i,
{
    if i < 0 || i + 5 > s.len() {
        None
    } else if code_marker_at(s, i) {
        Some(i)
    } else {
        find_code_marker(s, i + 1)
    }
}

/// The first position at or after `i` holding `&`, or the end of the URL.
pub open spec fn find_amp(s: Seq<char>, i: int) -> int
    decreases s.len() - i,
{
    if i < 0 || i >= s.len() {
        s.len() as int
    } else if s[i] == '&' {
        i
    } else {
        find_amp(s, i + 1)
    }
}

pub proof fn lemma_find_amp_bounds(s: Seq<char>, i: int)
    requires
        0 <= i <= s.len(),
    ensures
        i <= find_amp(s, i) <= s.len(),
    decreases s.len() - i,
{
    if i < s.len() && s[i] != '&' {
        lemma_find_amp_bounds(s, i + 1);
    }
}

/// The authorization code carried by a redirect URL: the value of its
/// first `code=` query parameter, up to the next `&` or the end; `None`
/// when the URL carries no such parameter.
pub open spec fn spec_extract_code(s: Seq<char>) -> Option<Seq<char>> {
    match find_code_marker(s, 1) {
        Some(i) => Some(s.subrange(i + 5, find_amp(s, i + 5))),
        None => None,
    }
}

/// Whether position `i` of the URL starts a `code=` query parameter.
fn check_code_marker(s: &str, i: usize, n: usize) -> (r: bool)
    requires
        n == s@.len(),
        1 <= i,
        i + 5 <= n,
    ensures
        r == code_marker_at(s@, i as int),
{
    let p = s.get_char(i - 1);
    (p == '?' || p == '&') && s.get_char(i) == 'c' && s.get_char(i + 1) == 'o' && s.get_char(
        i + 2,
    ) == 'd' && s.get_char(i + 3) == 'e' && s.get_char(i + 4) == '='
}

/// Extracts the authorization code from the redirect URL the user was
/// sent to: the value of the first `code=` query parameter.
pub fn extract_auth_code(url: &str) -> (r: Option<String>)
    ensures
        r is Some <==> spec_extract_code(url@) is Some,
        r matches Some(code) ==> spec_extract_code(url@) == Some(code@),
{
    let n: usize = url.unicode_len();
    let mut i: usize = 1;
    let mut found: usize = n;
    while n >= 5 && i <= n - 5 && found == n
        invariant
            n == url@.len(),
            1 <= i,
            found == n || (found < n && code_marker_at(url@, found as int) && find_code_marker(
                url@,
                1,
            ) == Some(found as int)),
            found == n ==> find_code_marker(url@, 1) == find_code_marker(url@, i as int),
        decreases n - i,
    {
        if check_code_marker(url, i, n) {
            found = i;
        }
        i = i + 1;
    }
    if found == n {
        proof {
            assert(find_code_marker(url@, 1) is None);
        }
        return None;
    }
    let start: usize = found + 5;
    let mut j: usize = start;
    let mut end: usize = n;
    while j < n && end == n
        invariant
            n == url@.len(),
            start <= j <= n,
            end <= n,
            end == n ==> find_amp(url@, start as int) == find_amp(url@, j as int),
            end < n ==> start <= end && find_amp(url@, start as int) == end,
        decreases n - j,
    {
        if url.get_char(j) == '&' {
            end = j;
        }
        j = j + 1;
    }
    proof {
        if end == n {
            assert(j == n);
            assert(find_amp(url@, n as int) == n as int);
        }
        assert(find_amp(url@, start as int) == end);
    }
    let code = url.substring_char(start, end).to_owned();
    Some(code)
}

/// The flow never leaves a terminal state: once cached or failed, no
/// event fits any longer.
pub proof fn lemma_terminal_states(state: AuthState, event: AuthEvent)
    ensures
        state == AuthState::Cached || state == AuthState::Failed ==> !spec_auth_event_fits(
            state,
            event,
        ),
{
}

} // verus!
