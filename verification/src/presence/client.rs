//! Deciding what to send to Discord, and when.
//!
//! The socket itself is driven by the caller; this keeps account of whether it
//! is connected and of what was last sent through it.

use crate::mapper::types::{PresenceState, PresenceView};
use vstd::prelude::*;

verus! {

/// Discord application id. RPC client ids are public by design.
pub const DISCORD_APP_ID: &'static str = "1534510021772054598";

/// Accounts for the Discord connection and the last state sent.
#[derive(Debug)]
pub struct PresenceClient {
    connected: bool,
    last_sent: Option<PresenceState>,
}

/// The account as plain values.
pub struct PresenceClientView {
    pub connected: bool,
    pub last_sent: Option<PresenceView>,
}

impl View for PresenceClient {
    type V = PresenceClientView;

    closed spec fn view(&self) -> PresenceClientView {
        PresenceClientView { connected: self.connected, last_sent: shown(self.last_sent) }
    }
}

/// An optional presence with its texts as sequences of characters.
pub open spec fn shown(presence: Option<PresenceState>) -> Option<PresenceView> {
    match presence {
        Some(presence) => Some(presence@),
        None => None,
    }
}

/// An optional borrowed presence with its texts as sequences of characters.
pub open spec fn shown_ref(presence: Option<&PresenceState>) -> Option<PresenceView> {
    match presence {
        Some(presence) => Some(presence@),
        None => None,
    }
}

/// What to do next to bring a presence to Discord.
#[derive(Debug, Clone, Copy, PartialEq, Eq)]
pub enum ApplyStep {
    /// Try to connect, and report with [`PresenceClient::ensure_connected`].
    Connect,
    /// Send the presence, or clear it, and report with
    /// [`PresenceClient::sent`].
    Send,
    /// Nothing is left to do.
    Done,
}

impl PresenceClientView {
    /// A client that has neither connected nor sent anything.
    pub open spec fn fresh() -> Self {
        PresenceClientView { connected: false, last_sent: None }
    }

    /// What to do to bring `next` to Discord, when `tried` says whether
    /// connecting was tried already.
    pub open spec fn step(self, next: Option<PresenceView>, tried: bool) -> ApplyStep {
        if self.last_sent == next {
            ApplyStep::Done
        } else if self.connected {
            ApplyStep::Send
        } else if tried {
            ApplyStep::Done
        } else {
            ApplyStep::Connect
        }
    }

    /// After a connection attempt, which leaves a live connection alone.
    pub open spec fn after_attempt(self, attempt: bool) -> Self {
        PresenceClientView { connected: self.connected || attempt, ..self }
    }

    /// After sending `next` has succeeded or failed.
    pub open spec fn after_send(self, next: Option<PresenceView>, success: bool) -> Self {
        if success {
            PresenceClientView { last_sent: next, ..self }
        } else {
            PresenceClientView::fresh()
        }
    }

    /// After bringing `next` to Discord: `attempt` is how connecting ends, if
    /// it is tried, and `success` how sending ends.
    pub open spec fn applied(
        self,
        next: Option<PresenceView>,
        attempt: bool,
        success: bool,
    ) -> Self {
        if self.last_sent == next {
            self
        } else if !self.after_attempt(attempt).connected {
            self
        } else {
            self.after_attempt(attempt).after_send(next, success)
        }
    }
}

impl PresenceClient {
    pub fn new() -> (client: Self)
        ensures
            client@ == PresenceClientView::fresh(),
    {
        PresenceClient { connected: false, last_sent: None }
    }

    /// Would sending `next` change anything?
    ///
    /// Discord rate-limits activity updates to roughly one per 15 seconds, and
    /// the poll runs at exactly that cadence, so re-sending an identical
    /// payload would spend the entire budget on no-ops.
    pub fn needs_update(&self, next: Option<&PresenceState>) -> (needed: bool)
        ensures
            needed == (self@.last_sent != shown_ref(next)),
    {
        match (&self.last_sent, next) {
            (Some(last), Some(next)) => !last.same_as(next),
            (None, None) => false,
            _ => true,
        }
    }

    /// Record what was sent.
    pub fn remember(&mut self, sent: Option<PresenceState>)
        ensures
            final(self)@ == (PresenceClientView { last_sent: shown(sent), ..old(self)@ }),
    {
        self.last_sent = sent;
    }

    /// Is the socket currently connected? Reflects the outcome of the most
    /// recent connection attempt or send, not a live probe.
    pub fn is_connected(&self) -> (connected: bool)
        ensures
            connected == self@.connected,
    {
        self.connected
    }

    /// Take in the outcome of a connection attempt, made because there was no
    /// connection. A live connection is left alone, and a failure just leaves
    /// us disconnected, to try again the next time.
    pub fn ensure_connected(&mut self, attempt: bool)
        ensures
            final(self)@ == old(self)@.after_attempt(attempt),
    {
        if self.connected {
            return;
        }
        self.connected = attempt;
    }

    /// What to do next to push `next` to Discord, connecting on demand.
    /// `tried` says whether connecting was tried already.
    ///
    /// Every failure is non-fatal: Discord not running is the normal state for
    /// much of the day, and must never stop the poller.
    pub fn apply(&self, next: Option<&PresenceState>, tried: bool) -> (step: ApplyStep)
        ensures
            step == self@.step(shown_ref(next), tried),
    {
        if !self.needs_update(next) {
            ApplyStep::Done
        } else if self.is_connected() {
            ApplyStep::Send
        } else if tried {
            ApplyStep::Done
        } else {
            ApplyStep::Connect
        }
    }

    /// Take in how sending `next` has ended. A failed send drops the
    /// connection and forgets what was sent, so the next time reconnects and
    /// re-sends rather than assuming Discord still shows it.
    pub fn sent(&mut self, next: Option<&PresenceState>, success: bool)
        ensures
            final(self)@ == old(self)@.after_send(shown_ref(next), success),
    {
        if success {
            self.remember(
                match next {
                    Some(presence) => Some(presence.clone()),
                    None => None,
                },
            );
        } else {
            self.connected = false;
            self.last_sent = None;
        }
    }
}

impl Default for PresenceClient {
    fn default() -> (client: Self)
        ensures
            client@ == PresenceClientView::fresh(),
    {
        PresenceClient::new()
    }
}

/// Following the steps one by one comes out where applying as a whole does:
/// nothing is sent that Discord already shows, a missing connection is tried
/// once, and a send happens only over a connection.
pub proof fn law_steps_add_up_to_applying(
    client: PresenceClientView,
    next: Option<PresenceView>,
    attempt: bool,
    success: bool,
)
    ensures
        match client.step(next, false) {
            ApplyStep::Done => client.applied(next, attempt, success) == client,
            ApplyStep::Send => client.applied(next, attempt, success) == client.after_send(
                next,
                success,
            ),
            ApplyStep::Connect => {
                let tried = client.after_attempt(attempt);
                match tried.step(next, true) {
                    ApplyStep::Send => client.applied(next, attempt, success) == tried.after_send(
                        next,
                        success,
                    ),
                    ApplyStep::Done => client.applied(next, attempt, success) == tried,
                    ApplyStep::Connect => false,
                }
            },
        },
{
}

/// What was sent successfully is not sent again.
pub proof fn law_nothing_is_sent_twice(
    client: PresenceClientView,
    next: Option<PresenceView>,
    tried: bool,
)
    ensures
        client.after_send(next, true).step(next, tried) == ApplyStep::Done,
{
}

/// After a failed send the next presence is sent again, over a new connection.
pub proof fn law_failed_send_reconnects_and_resends(
    client: PresenceClientView,
    lost: Option<PresenceView>,
    next: PresenceView,
)
    ensures
        client.after_send(lost, false).step(Some(next), false) == ApplyStep::Connect,
        client.after_send(lost, false).after_attempt(true).step(Some(next), true)
            == ApplyStep::Send,
{
}

/// A presence is sent exactly when it differs from what was sent last and there
/// is a connection; without one, connecting is tried once first.
pub proof fn law_what_is_done_with_a_presence(
    client: PresenceClientView,
    next: Option<PresenceView>,
    tried: bool,
)
    ensures
        client.step(next, tried) == ApplyStep::Send <==> client.last_sent != next
            && client.connected,
        client.step(next, tried) == ApplyStep::Connect <==> client.last_sent != next
            && !client.connected && !tried,
        client.step(next, tried) == ApplyStep::Done <==> client.last_sent == next || (
        !client.connected && tried),
{
}

/// An attempt can make a connection and never breaks one, and leaves alone what
/// was sent. A send that succeeds is what was sent last from then on; one that
/// fails leaves neither a connection nor anything sent.
pub proof fn law_outcomes_are_accounted_for(
    client: PresenceClientView,
    next: Option<PresenceView>,
    attempt: bool,
)
    ensures
        client.after_attempt(attempt).connected <==> client.connected || attempt,
        client.after_attempt(attempt).last_sent == client.last_sent,
        client.after_send(next, true).connected == client.connected,
        client.after_send(next, true).last_sent == next,
        !client.after_send(next, false).connected,
        client.after_send(next, false).last_sent is None,
        !PresenceClientView::fresh().connected,
        PresenceClientView::fresh().last_sent is None,
{
}

/// An optional presence is absent exactly where there is none, and otherwise
/// the presence itself.
pub proof fn law_optional_presences(presence: PresenceState)
    ensures
        shown(Some(presence)) == Some(presence@),
        shown(None) is None,
        shown_ref(Some(&presence)) == Some(presence@),
        shown_ref(None) is None,
{
}

} // verus!
