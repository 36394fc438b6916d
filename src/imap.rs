use vstd::prelude::*;
use vstd::string::*;

verus! {

/// Connection attempts that a reconnect makes before it gives up.
pub const MAX_RETRIES: u32 = 5;

/// Milliseconds waited between two reconnect attempts.
pub const RETRY_DELAY_MS: u64 = 1000;

/// The SASL XOAUTH2 initial response for a user and a bearer token.
pub open spec fn xoauth2_spec(user_id: Seq<char>, access_token: Seq<char>) -> Seq<char> {
    "user="@ + user_id + "\x01auth=Bearer "@ + access_token + "\x01\x01"@
}

/// Builds the SASL XOAUTH2 response presented to the mail server.
pub fn xoauth2_response(user_id: &str, access_token: &str) -> (r: String)
    ensures
        r@ == xoauth2_spec(user_id@, access_token@),
{
    let mut r = String::from_str("user=");
    r.append(user_id);
    r.append("\x01auth=Bearer ");
    r.append(access_token);
    r.append("\x01\x01");
    r
}

/// The query key that precedes the authorization code in a redirect.
pub open spec fn code_key() -> Seq<char> {
    seq!['c', 'o', 'd', 'e', '=']
}

pub open spec fn key_at(s: Seq<char>, i: int) -> bool {
    0 <= i && i + 5 <= s.len() && s.subrange(i, i + 5) == code_key()
}

/// `i` is where the key first occurs in `s`.
pub open spec fn first_key_at(s: Seq<char>, i: int) -> bool {
    key_at(s, i) && forall|k: int| 0 <= k < i ==> !key_at(s, k)
}

/// `c` is what stands in `s` from `start` up to the next `&` or the end.
pub open spec fn value_at(s: Seq<char>, start: int, c: Seq<char>) -> bool {
    &&& 0 <= start
    &&& start + c.len() <= s.len()
    &&& s.subrange(start, start + c.len()) == c
    &&& forall|k: int| 0 <= k < c.len() ==> c[k] != '&'
    &&& (start + c.len() == s.len() || s[start + c.len()] == '&')
}

fn has_key_at(url: &str, i: usize) -> (r: bool)
    requires
        i + 5 <= url@.len() <= usize::MAX,
    ensures
        r == key_at(url@, i as int),
{
    let r = url.get_char(i) == 'c' && url.get_char(i + 1) == 'o' && url.get_char(i + 2) == 'd'
        && url.get_char(i + 3) == 'e' && url.get_char(i + 4) == '=';
    proof {
        if r {
            assert(url@.subrange(i as int, i + 5) =~= code_key());
        } else {
            let w = url@.subrange(i as int, i + 5);
            if w == code_key() {
                assert(w[0] == 'c' && w[1] == 'o' && w[2] == 'd' && w[3] == 'e' && w[4] == '=');
            }
        }
    }
    r
}

/// Takes the authorization code out of the redirect URL that the consent page sent back:
/// what follows the first `code=`, up to the next `&` or the end; none when the URL holds
/// no `code=`.
pub fn extract_auth_code(url: &str) -> (r: Option<String>)
    ensures
        r is None <==> forall|i: int| !key_at(url@, i),
        r matches Some(c) ==> exists|i: int| first_key_at(url@, i) && value_at(url@, i + 5, c@),
{
    let n = url.unicode_len();
    let mut i: usize = 0;
    while i < n && n - i >= 5
        invariant
            n == url@.len(),
            i <= n,
            forall|k: int| 0 <= k < i ==> !key_at(url@, k),
        decreases n - i,
    {
        if has_key_at(url, i) {
            let start = i + 5;
            let mut j: usize = start;
            while j < n && url.get_char(j) != '&'
                invariant
                    n == url@.len(),
                    start <= j <= n,
                    forall|k: int| start <= k < j ==> url@[k] != '&',
                decreases n - j,
            {
                j = j + 1;
            }
            let code = String::from_str(url.substring_char(start, j));
            assert(code@ =~= url@.subrange(start as int, j as int));
            assert forall|k: int| 0 <= k < code@.len() implies code@[k] != '&' by {
                assert(code@[k] == url@[start + k]);
            }
            assert(first_key_at(url@, i as int));
            assert(value_at(url@, start as int, code@));
            return Some(code);
        }
        i = i + 1;
    }
    None
}

/// What a reconnect does next.
#[derive(Debug, PartialEq, Eq, Structural)]
pub enum ReconnectAction {
    /// Open a new connection after waiting this many milliseconds.
    Attempt(u64),
    /// A new session is live.
    Restored,
    /// Every attempt failed.
    Fatal,
}

/// The progress of one reconnect: the attempts that failed so far, and whether one
/// succeeded.
pub struct Reconnect {
    pub failures: u32,
    pub restored: bool,
}

impl Reconnect {
    pub open spec fn wf(self) -> bool {
        self.failures <= MAX_RETRIES
    }

    pub open spec fn action_spec(self) -> ReconnectAction {
        if self.restored {
            ReconnectAction::Restored
        } else if self.failures >= MAX_RETRIES {
            ReconnectAction::Fatal
        } else if self.failures == 0 {
            ReconnectAction::Attempt(0)
        } else {
            ReconnectAction::Attempt(RETRY_DELAY_MS)
        }
    }

    pub open spec fn record_spec(self, connected: bool) -> Reconnect {
        if connected {
            Reconnect { failures: self.failures, restored: true }
        } else {
            Reconnect { failures: (self.failures + 1) as u32, restored: false }
        }
    }

    /// The attempts made so far.
    pub open spec fn attempts(self) -> int {
        self.failures + if self.restored {
            1int
        } else {
            0int
        }
    }

    /// The state after feeding `outcomes` in turn, each while an attempt is asked for;
    /// the ones offered after the reconnect ended are not looked at.
    pub open spec fn run(outcomes: Seq<bool>) -> Reconnect
        decreases outcomes.len(),
    {
        if outcomes.len() == 0 {
            Reconnect { failures: 0, restored: false }
        } else {
            let s = Reconnect::run(outcomes.drop_last());
            if s.action_spec() is Attempt {
                s.record_spec(outcomes.last())
            } else {
                s
            }
        }
    }

    pub fn new() -> (s: Reconnect)
        ensures
            s == Reconnect::run(Seq::empty()),
            s.wf(),
    {
        Reconnect { failures: 0, restored: false }
    }

    pub fn next_action(&self) -> (a: ReconnectAction)
        requires
            self.wf(),
        ensures
            a == self.action_spec(),
    {
        if self.restored {
            ReconnectAction::Restored
        } else if self.failures >= MAX_RETRIES {
            ReconnectAction::Fatal
        } else if self.failures == 0 {
            ReconnectAction::Attempt(0)
        } else {
            ReconnectAction::Attempt(RETRY_DELAY_MS)
        }
    }

    /// Records whether the attempt just made opened an authenticated session.
    pub fn record(&mut self, connected: bool)
        requires
            old(self).wf(),
            old(self).action_spec() is Attempt,
        ensures
            *final(self) == old(self).record_spec(connected),
            final(self).wf(),
    {
        if connected {
            self.restored = true;
        } else {
            self.failures = self.failures + 1;
        }
    }
}

proof fn lemma_reconnect_prefix(s: Seq<bool>)
    requires
        s.len() <= MAX_RETRIES,
    ensures
        Reconnect::run(s).wf(),
        (exists|j: int| 0 <= j < s.len() && s[j]) ==> ({
            let st = Reconnect::run(s);
            &&& st.restored
            &&& st.failures < s.len()
            &&& s[st.failures as int]
            &&& forall|j: int| 0 <= j < st.failures ==> !s[j]
        }),
        (forall|j: int| 0 <= j < s.len() ==> !s[j]) ==> !Reconnect::run(s).restored
            && Reconnect::run(s).failures == s.len(),
    decreases s.len(),
{
    if s.len() > 0 {
        let p = s.drop_last();
        lemma_reconnect_prefix(p);
        if exists|j: int| 0 <= j < p.len() && p[j] {
            let j = choose|j: int| 0 <= j < p.len() && p[j];
            assert(s[j]);
            let f = Reconnect::run(p).failures;
            assert(s[f as int] == p[f as int]);
            assert forall|k: int| 0 <= k < f implies !s[k] by {
                assert(s[k] == p[k]);
            }
        } else {
            assert forall|j: int| 0 <= j < p.len() implies !s[j] by {
                assert(s[j] == p[j]);
            }
        }
    }
}

/// A reconnect makes at most five attempts, the first at once and each later one after
/// the fixed delay. When attempt `k` is the first to connect, the session is restored
/// after exactly `k` attempts; when all five fail, the reconnect is fatal after five.
pub proof fn reconnect_is_bounded(outcomes: Seq<bool>)
    requires
        outcomes.len() == MAX_RETRIES,
    ensures
        ({
            let end = Reconnect::run(outcomes);
            &&& (exists|k: int| 0 <= k < MAX_RETRIES && outcomes[k]) ==> ({
                &&& end.action_spec() == ReconnectAction::Restored
                &&& outcomes[end.attempts() - 1]
                &&& forall|j: int| 0 <= j < end.attempts() - 1 ==> !outcomes[j]
            })
            &&& (forall|k: int| 0 <= k < MAX_RETRIES ==> !outcomes[k]) ==> end.action_spec()
                == ReconnectAction::Fatal && end.attempts() == MAX_RETRIES
        }),
        forall|s: Seq<bool>|
            s.len() < MAX_RETRIES && !(#[trigger] Reconnect::run(s)).restored ==> Reconnect::run(
                s,
            ).action_spec() == ReconnectAction::Attempt(
                if s.len() == 0 {
                    0u64
                } else {
                    RETRY_DELAY_MS
                },
            ),
{
    lemma_reconnect_prefix(outcomes);
    assert forall|s: Seq<bool>|
        s.len() < MAX_RETRIES && !(#[trigger] Reconnect::run(s)).restored implies Reconnect::run(
            s,
        ).action_spec() == ReconnectAction::Attempt(
            if s.len() == 0 {
                0u64
            } else {
                RETRY_DELAY_MS
            },
        ) by {
        lemma_reconnect_prefix(s);
    }
}

/// The phases of the mailbox watcher.
#[derive(Debug, PartialEq, Eq, Structural)]
pub enum WatcherState {
    /// Opening and authenticating the first session.
    Connecting,
    /// Waiting for the server to push a notification.
    Idling,
    /// Idle ended on new data: searching and fetching unseen messages.
    Fetching,
    /// The live session failed; a bounded reconnect is running.
    Reconnecting,
    /// The watcher gave up; the error goes to its owner.
    Failed,
}

/// What happened while the watcher was in its current phase.
#[derive(Debug, PartialEq, Eq, Structural)]
pub enum WatcherEvent {
    Connected,
    ConnectFailed,
    NewData,
    /// Idle ended on anything but new data.
    UnexpectedIdleEvent,
    IoError,
    Fetched,
    Restored,
    RetriesExhausted,
}

/// The watcher's transitions. The first connection gets no retries; only a session that
/// was live and then failed is reconnected. An event that cannot arise in a phase leaves it.
pub open spec fn watcher_next(s: WatcherState, e: WatcherEvent) -> WatcherState {
    match (s, e) {
        (WatcherState::Connecting, WatcherEvent::Connected) => WatcherState::Idling,
        (WatcherState::Connecting, WatcherEvent::ConnectFailed) => WatcherState::Failed,
        (WatcherState::Connecting, WatcherEvent::IoError) => WatcherState::Failed,
        (WatcherState::Idling, WatcherEvent::NewData) => WatcherState::Fetching,
        (WatcherState::Idling, WatcherEvent::UnexpectedIdleEvent) => WatcherState::Reconnecting,
        (WatcherState::Idling, WatcherEvent::IoError) => WatcherState::Reconnecting,
        (WatcherState::Fetching, WatcherEvent::Fetched) => WatcherState::Idling,
        (WatcherState::Fetching, WatcherEvent::IoError) => WatcherState::Reconnecting,
        (WatcherState::Reconnecting, WatcherEvent::Restored) => WatcherState::Idling,
        (WatcherState::Reconnecting, WatcherEvent::RetriesExhausted) => WatcherState::Failed,
        (s, _) => s,
    }
}

/// Moves the watcher to its next phase.
pub fn watcher_step(s: WatcherState, e: WatcherEvent) -> (r: WatcherState)
    ensures
        r == watcher_next(s, e),
{
    match (s, e) {
        (WatcherState::Connecting, WatcherEvent::Connected) => WatcherState::Idling,
        (WatcherState::Connecting, WatcherEvent::ConnectFailed) => WatcherState::Failed,
        (WatcherState::Connecting, WatcherEvent::IoError) => WatcherState::Failed,
        (WatcherState::Idling, WatcherEvent::NewData) => WatcherState::Fetching,
        (WatcherState::Idling, WatcherEvent::UnexpectedIdleEvent) => WatcherState::Reconnecting,
        (WatcherState::Idling, WatcherEvent::IoError) => WatcherState::Reconnecting,
        (WatcherState::Fetching, WatcherEvent::Fetched) => WatcherState::Idling,
        (WatcherState::Fetching, WatcherEvent::IoError) => WatcherState::Reconnecting,
        (WatcherState::Reconnecting, WatcherEvent::Restored) => WatcherState::Idling,
        (WatcherState::Reconnecting, WatcherEvent::RetriesExhausted) => WatcherState::Failed,
        (s, _) => s,
    }
}

} // verus!
