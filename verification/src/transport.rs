//! The Broadcast Transport decisions: what one connection must be sent at
//! attach time, on observing the waiting-to-active transition, on keepalive
//! probes, and on each inbound frame.
//!
//! The server runs three tasks per connection — a read loop, a forward loop
//! and a keepalive loop. Those tasks perform the sends and awaits; every
//! decision they take comes from here, so a slow or failing connection is
//! torn down by policy, never by accident.

use vstd::prelude::*;

use crate::session::Lobby;
use crate::state::{StateDoc, StateView};

verus! {

/// A message the transport owes one connection.
pub enum OutMsg {
    /// The full snapshot (with the bundle's schema), sent once at game start.
    Welcome { snapshot: StateDoc },
    /// The rule module's declared verb schema, sent alongside the welcome.
    LegalMoves,
    /// The notice sent while the session is still waiting for players.
    InfoWaiting,
}

/// The two-message welcome sequence carrying the given snapshot.
pub open spec fn is_welcome_pair(msgs: Seq<OutMsg>, snap: StateView) -> bool {
    &&& msgs.len() == 2
    &&& (msgs[0] matches OutMsg::Welcome { snapshot } && snapshot@ == snap)
    &&& msgs[1] is LegalMoves
}

/// Whether a latch in the given state emits the welcome pair on observing
/// the given started flag: only an unwelcomed connection of a started
/// session is welcomed.
pub open spec fn latch_emits(welcomed: bool, started: bool) -> bool {
    started && !welcomed
}

/// How the latch moves on when the watcher looks at the started flag: a
/// welcomed connection stays welcomed.
pub open spec fn latch_after(welcomed: bool, started: bool) -> bool {
    welcomed || started
}

/// How many welcome pairs a connection receives over a whole sequence of
/// started-flag observations.
pub open spec fn welcomes_sent(welcomed: bool, obs: Seq<bool>) -> nat
    decreases obs.len(),
{
    if obs.len() == 0 {
        0
    } else {
        (if latch_emits(welcomed, obs[0]) {
            1nat
        } else {
            0nat
        }) + welcomes_sent(latch_after(welcomed, obs[0]), obs.drop_first())
    }
}

/// A connection already welcomed is never welcomed again.
pub proof fn lemma_no_second_welcome(obs: Seq<bool>)
    ensures
        welcomes_sent(true, obs) == 0,
    decreases obs.len(),
{
    if obs.len() > 0 {
        lemma_no_second_welcome(obs.drop_first());
    }
}

/// Law: a subscriber attached before the session became active receives the
/// welcome pair exactly once over any sequence of observations — on the
/// first observation that finds the session started — and never at all if
/// the session never starts.
pub proof fn lemma_welcome_exactly_once(obs: Seq<bool>)
    ensures
        welcomes_sent(false, obs) == (if (exists|i: int| 0 <= i < obs.len() && obs[i]) {
            1nat
        } else {
            0nat
        }),
    decreases obs.len(),
{
    if obs.len() == 0 {
    } else if obs[0] {
        lemma_no_second_welcome(obs.drop_first());
    } else {
        lemma_welcome_exactly_once(obs.drop_first());
        if exists|i: int| 0 <= i < obs.len() && obs[i] {
            let w = choose|i: int| 0 <= i < obs.len() && obs[i];
            assert(obs.drop_first()[w - 1]);
        }
        if exists|i: int| 0 <= i < obs.drop_first().len() && obs.drop_first()[i] {
            let w = choose|i: int| 0 <= i < obs.drop_first().len() && obs.drop_first()[i];
            assert(obs[w + 1]);
        }
    }
}

/// The latch state a connection's watcher is in after a whole sequence of
/// observations.
pub open spec fn latch_state(welcomed: bool, obs: Seq<bool>) -> bool
    decreases obs.len(),
{
    if obs.len() == 0 {
        welcomed
    } else {
        latch_state(latch_after(welcomed, obs[0]), obs.drop_first())
    }
}

/// A watcher that has not yet seen the session started holds its latch
/// clear.
pub proof fn lemma_latch_stays_clear(obs: Seq<bool>)
    requires
        forall|j: int| 0 <= j < obs.len() ==> !(#[trigger] obs[j]),
    ensures
        latch_state(false, obs) == false,
    decreases obs.len(),
{
    if obs.len() > 0 {
        assert(!obs[0]);
        assert forall|j: int| 0 <= j < obs.drop_first().len() implies !(#[trigger] obs.drop_first()[
            j
        ]) by {
            assert(obs.drop_first()[j] == obs[j + 1]);
        }
        lemma_latch_stays_clear(obs.drop_first());
    }
}

/// Law: the welcome pair is timed to the waiting-to-active transition.
/// When the first observation to find the session started is the one at
/// index `k`, nothing has been emitted before `k`, and the observation at
/// `k` itself emits the pair.
pub proof fn lemma_welcome_timing(obs: Seq<bool>, k: int)
    requires
        0 <= k < obs.len(),
        obs[k],
        forall|j: int| 0 <= j < k ==> !(#[trigger] obs[j]),
    ensures
        welcomes_sent(false, obs.take(k)) == 0,
        latch_emits(latch_state(false, obs.take(k)), obs[k]),
{
    assert forall|j: int| 0 <= j < obs.take(k).len() implies !(#[trigger] obs.take(k)[j]) by {
        assert(obs.take(k)[j] == obs[j]);
    }
    lemma_latch_stays_clear(obs.take(k));
    lemma_welcome_exactly_once(obs.take(k));
}

/// Per-connection latch: whether this connection has been sent its welcome
/// pair for the session.
pub struct WelcomeLatch {
    pub welcomed: bool,
}

impl WelcomeLatch {
    /// Decisions at attach time. A connection attaching to an active session
    /// is welcomed at once; one attaching to a waiting session gets the
    /// waiting notice, and its welcome later, through `on_poll`.
    pub fn attach(lobby: &Lobby) -> (r: (WelcomeLatch, Vec<OutMsg>))
        ensures
            r.0.welcomed == lobby@.started,
            lobby@.started ==> is_welcome_pair(r.1@, lobby@.state),
            !lobby@.started ==> r.1@.len() == 1 && r.1@[0] is InfoWaiting,
    {
        let mut msgs: Vec<OutMsg> = Vec::new();
        if lobby.is_started() {
            msgs.push(OutMsg::Welcome { snapshot: lobby.snapshot() });
            msgs.push(OutMsg::LegalMoves);
            (WelcomeLatch { welcomed: true }, msgs)
        } else {
            msgs.push(OutMsg::InfoWaiting);
            (WelcomeLatch { welcomed: false }, msgs)
        }
    }

    /// The watcher's periodic decision: on first observing the session
    /// started, emit the welcome pair; afterwards, and before the start,
    /// emit nothing.
    pub fn on_poll(&mut self, lobby: &Lobby) -> (msgs: Vec<OutMsg>)
        ensures
            final(self).welcomed == latch_after(old(self).welcomed, lobby@.started),
            latch_emits(old(self).welcomed, lobby@.started) ==> is_welcome_pair(
                msgs@,
                lobby@.state,
            ),
            !latch_emits(old(self).welcomed, lobby@.started) ==> msgs@.len() == 0,
    {
        let mut msgs: Vec<OutMsg> = Vec::new();
        if lobby.is_started() {
            if !self.welcomed {
                msgs.push(OutMsg::Welcome { snapshot: lobby.snapshot() });
                msgs.push(OutMsg::LegalMoves);
            }
            self.welcomed = true;
        }
        msgs
    }
}

/// Per-connection keepalive: a probe result bookkeeper. Three consecutive
/// failures close the connection; any success clears the count.
pub struct Keepalive {
    pub failures: u32,
}

impl Keepalive {
    /// A fresh keepalive with no failures recorded.
    pub fn new() -> (k: Keepalive)
        ensures
            k.failures == 0,
    {
        Keepalive { failures: 0 }
    }

    /// Records one probe result and says whether the connection must now be
    /// torn down. Closing is a per-connection decision: it never touches
    /// the session or its other connections.
    pub fn record_probe(&mut self, ok: bool) -> (close: bool)
        ensures
            ok ==> final(self).failures == 0 && !close,
            !ok && old(self).failures < 3 ==> final(self).failures == old(self).failures + 1,
            !ok && old(self).failures >= 3 ==> final(self).failures == old(self).failures,
            !ok ==> close == (final(self).failures >= 3),
    {
        if ok {
            self.failures = 0;
            false
        } else {
            if self.failures < 3 {
                self.failures = self.failures + 1;
            }
            self.failures >= 3
        }
    }
}

/// One inbound frame, as the read loop sees it.
pub enum Frame {
    Text { payload: String },
    Ping { payload: Vec<u8> },
    Pong { payload: Vec<u8> },
    Binary { payload: Vec<u8> },
    Close,
}

/// What the read loop must do with one inbound frame.
pub enum ReadStep {
    /// Parse the text as a verb submission; malformed text is then logged
    /// and ignored, never fatal to the connection.
    HandleText { payload: String },
    /// Reply with a pong carrying the same payload.
    ReplyPong { payload: Vec<u8> },
    /// Ignore the frame and keep reading.
    Ignore,
    /// End the read loop and tear this connection down.
    Stop,
}

/// Standard control-frame semantics: text is handled as a verb submission,
/// ping is answered with a pong, close ends the loop, pong and binary
/// frames are ignored.
pub fn classify_frame(f: Frame) -> (s: ReadStep)
    ensures
        (f matches Frame::Text { payload } ==> (s matches ReadStep::HandleText { payload: p }
            && p@ == payload@)),
        (f matches Frame::Ping { payload } ==> (s matches ReadStep::ReplyPong { payload: p }
            && p@ == payload@)),
        f is Pong ==> s is Ignore,
        f is Binary ==> s is Ignore,
        f is Close ==> s is Stop,
{
    match f {
        Frame::Text { payload } => ReadStep::HandleText { payload },
        Frame::Ping { payload } => ReadStep::ReplyPong { payload },
        Frame::Pong { .. } => ReadStep::Ignore,
        Frame::Binary { .. } => ReadStep::Ignore,
        Frame::Close => ReadStep::Stop,
    }
}

} // verus!
