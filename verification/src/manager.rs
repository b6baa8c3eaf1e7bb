//! The tick-driven session manager.
//!
//! The manager owns at most one [`GameSession`]: a reliable-message client
//! paired with the last observed transport error. Once per fixed tick the
//! host advances it in a fixed order: stop on a sticky error, advance the
//! client's clock, run the transport's receive pass, surface a
//! lost-connection reason if one arose, drain the inbound channel and
//! optionally enqueue one outbound message, run the transport's send pass,
//! and surface again. The transport passes themselves do socket work and live
//! with the caller; their outcomes are handed in as values.

use vstd::prelude::*;

use crate::endpoint::endpoint_of_text;
use crate::endpoint::parse_server_endpoint;
use crate::endpoint::AuthToken;
use crate::endpoint::SetupError;
use crate::reliable::client_channels_ready;
use crate::reliable::client_clock_micros;
use crate::reliable::client_connected;
use crate::reliable::client_disconnected;
use crate::reliable::client_inbound;
use crate::reliable::client_is_connected;
use crate::reliable::client_outbound;
use crate::reliable::client_receive_reliable;
use crate::reliable::client_send_reliable;
use crate::reliable::client_update;
use crate::reliable::new_default_client;
use renet::RenetClient;

verus! {

/// The fixed protocol identifier every connection attempt authenticates
/// under; client and server must agree on it out of band.
pub const PROTOCOL_ID: u64 = 0;

/// One logical connection attempt: the reliable-message client together with
/// the last transport error observed while driving it, and a readable mirror
/// of the client's accumulated clock in microseconds. Once the error slot is
/// filled the session is unusable until it is replaced by a new join.
pub struct GameSession {
    pub client: RenetClient,
    pub transport_error: Option<String>,
    pub clock_micros: u64,
}

/// The tick-driven controller. It holds zero or one session; none exists
/// until the first join.
pub struct GameplaySessionManager {
    pub game_session: Option<GameSession>,
}

/// What one tick hands back to the host: the lost-connection reason to
/// surface, if the transport failed this tick, and the inbound messages
/// drained from the reliable-ordered channel, in arrival order.
pub struct TickOutput {
    pub lost_connection: Option<String>,
    pub received: Vec<Vec<u8>>,
}

/// The inputs and the output of one tick, gathered for stating laws about
/// sequences of ticks.
pub struct TickStep {
    pub elapsed_micros: u64,
    pub update_outcome: Option<String>,
    pub trigger: Option<Vec<u8>>,
    pub flush_outcome: Option<String>,
    pub out: TickOutput,
}

impl GameplaySessionManager {
    /// Whether a session exists.
    pub open spec fn has_session(self) -> bool {
        self.game_session is Some
    }

    /// Whether the current session carries a transport error.
    pub open spec fn spec_has_error(self) -> bool {
        self.game_session matches Some(s) && s.transport_error is Some
    }

    /// A tick does work only when a session exists and its error slot is
    /// empty.
    pub open spec fn may_tick(self) -> bool {
        self.has_session() && !self.spec_has_error()
    }

    /// The session's client, when one exists, was built with the default
    /// channel topology, so channel operations on it cannot panic, and the
    /// session's clock mirror holds the client's accumulated clock.
    pub open spec fn wf(self) -> bool {
        self.game_session matches Some(s) ==> client_channels_ready(s.client)
            && s.clock_micros == client_clock_micros(s.client)
    }

    /// The accumulated clock of the session's client, in microseconds; zero
    /// without a session.
    pub open spec fn clock_of(self) -> int {
        match self.game_session {
            Some(s) => client_clock_micros(s.client),
            None => 0,
        }
    }

    /// The ready inbound messages of the session's reliable-ordered channel;
    /// empty without a session.
    pub open spec fn inbound_of(self) -> Seq<Seq<u8>> {
        match self.game_session {
            Some(s) => client_inbound(s.client),
            None => Seq::<Seq<u8>>::empty(),
        }
    }

    /// The queued outbound messages of the session's reliable-ordered
    /// channel; empty without a session.
    pub open spec fn outbound_of(self) -> Seq<Seq<u8>> {
        match self.game_session {
            Some(s) => client_outbound(s.client),
            None => Seq::<Seq<u8>>::empty(),
        }
    }

    /// Whether the session's client is connected; false without a session.
    pub open spec fn connected_of(self) -> bool {
        match self.game_session {
            Some(s) => client_connected(s.client),
            None => false,
        }
    }

    /// Whether the session's client is disconnected; false without a session.
    pub open spec fn disconnected_of(self) -> bool {
        match self.game_session {
            Some(s) => client_disconnected(s.client),
            None => false,
        }
    }

    /// The session's error slot; `None` without a session.
    pub open spec fn error_of(self) -> Option<String> {
        match self.game_session {
            Some(s) => s.transport_error,
            None => None,
        }
    }

    /// The description of the stored transport error, or the empty text.
    pub open spec fn error_text(self) -> Seq<char> {
        match self.error_of() {
            Some(e) => e@,
            None => Seq::<char>::empty(),
        }
    }

    /// A manager that has never joined a session.
    pub fn new() -> (r: GameplaySessionManager)
        ensures
            !r.has_session(),
            r.wf(),
    {
        GameplaySessionManager { game_session: None }
    }

    /// Opens a new session toward the server named by `address`, as the
    /// client named by `client_id`. The address must follow the address
    /// grammar; a text the grammar refuses is a fatal setup error, surfaced
    /// synchronously, and the current session — if any — stays untouched. On
    /// success any previous session is discarded whole, with every message
    /// still queued in it, and the new session starts connecting with an
    /// empty error slot; the returned token carries what the transport
    /// authenticates with.
    pub fn join_session(&mut self, address: &str, client_id: u64) -> (r: Result<
        AuthToken,
        SetupError,
    >)
        requires
            old(self).wf(),
        ensures
            final(self).wf(),
            match r {
                Ok(tok) => endpoint_of_text(address@) == Some(tok.endpoint) && tok.client_id
                    == client_id && tok.protocol_id == PROTOCOL_ID && tok.user_data is None
                    && final(self).has_session() && !final(self).spec_has_error()
                    && final(self).inbound_of() == Seq::<Seq<u8>>::empty()
                    && final(self).outbound_of() == Seq::<Seq<u8>>::empty()
                    && !final(self).connected_of() && !final(self).disconnected_of()
                    && final(self).clock_of() == 0,
                Err(e) => e == SetupError::InvalidAddress && *final(self) == *old(self)
                    && endpoint_of_text(address@) is None,
            },
    {
        match parse_server_endpoint(address) {
            Ok(endpoint) => {
                let client = new_default_client();
                self.game_session = Some(
                    GameSession { client, transport_error: None, clock_micros: 0 },
                );
                Ok(AuthToken { endpoint, client_id, user_data: None, protocol_id: PROTOCOL_ID })
            },
            Err(e) => Err(e),
        }
    }

    /// Whether the current session carries a transport error; false when no
    /// session exists.
    pub fn transport_has_error(&self) -> (r: bool)
        ensures
            r == self.spec_has_error(),
    {
        match &self.game_session {
            Some(session) => session.transport_error.is_some(),
            None => false,
        }
    }

    /// The description of the current session's transport error. Without a
    /// session or an error it is the empty string.
    pub fn transport_error_message(&self) -> (r: String)
        ensures
            r@ == self.error_text(),
    {
        match &self.game_session {
            Some(session) => match &session.transport_error {
                Some(error) => error.clone(),
                None => String::new(),
            },
            None => String::new(),
        }
    }

    /// The guard and clock phase of a tick: when the session is missing or
    /// already carries an error, nothing happens and the tick is over;
    /// otherwise the client's clock advances by exactly the elapsed time and
    /// the tick proceeds to the transport's receive pass. The accumulated
    /// clock must stay within `u64::MAX` microseconds: past that the
    /// transport library's clock arithmetic would fail.
    pub fn tick_advance(&mut self, elapsed_micros: u64) -> (proceed: bool)
        requires
            old(self).wf(),
            old(self).may_tick() ==> old(self).clock_of() + elapsed_micros <= u64::MAX,
        ensures
            final(self).wf(),
            proceed == old(self).may_tick(),
            !old(self).may_tick() ==> *final(self) == *old(self),
            old(self).may_tick() ==> final(self).may_tick()
                && final(self).clock_of() == old(self).clock_of() + elapsed_micros
                && final(self).inbound_of() == old(self).inbound_of()
                && final(self).outbound_of() == old(self).outbound_of()
                && final(self).connected_of() == old(self).connected_of()
                && final(self).disconnected_of() == old(self).disconnected_of(),
    {
        if self.transport_has_error() {
            return false;
        }
        match &mut self.game_session {
            Some(session) => {
                client_update(&mut session.client, elapsed_micros);
                session.clock_micros = session.clock_micros + elapsed_micros;
                true
            },
            None => false,
        }
    }

    /// Records the outcome of one transport pass into the session's error
    /// slot, overwriting whatever was there; `None` stands for a pass that
    /// succeeded. Without a session nothing happens.
    pub fn record_transport_outcome(&mut self, outcome: Option<String>)
        requires
            old(self).wf(),
        ensures
            final(self).wf(),
            !old(self).has_session() ==> *final(self) == *old(self),
            old(self).has_session() ==> final(self).has_session()
                && final(self).error_of() == outcome
                && final(self).clock_of() == old(self).clock_of()
                && final(self).inbound_of() == old(self).inbound_of()
                && final(self).outbound_of() == old(self).outbound_of()
                && final(self).connected_of() == old(self).connected_of()
                && final(self).disconnected_of() == old(self).disconnected_of(),
    {
        match &mut self.game_session {
            Some(session) => {
                session.transport_error = outcome;
            },
            None => {},
        }
    }

    /// The message phase of a tick. When the tick may proceed and the client
    /// reports itself connected, every ready inbound message of the
    /// reliable-ordered channel is drained, in arrival order, and the trigger
    /// message, if one was supplied, is enqueued outbound on the same
    /// channel; enqueueing can instead disconnect the client when the channel
    /// is over its memory bound. In every other case nothing happens.
    pub fn tick_exchange(&mut self, trigger: Option<Vec<u8>>) -> (received: Vec<Vec<u8>>)
        requires
            old(self).wf(),
        ensures
            final(self).wf(),
            !(old(self).may_tick() && old(self).connected_of()) ==> *final(self) == *old(self)
                && received@.len() == 0,
            old(self).may_tick() && old(self).connected_of() ==> final(self).may_tick()
                && final(self).clock_of() == old(self).clock_of()
                && received.deep_view() == old(self).inbound_of()
                && final(self).inbound_of() == Seq::<Seq<u8>>::empty()
                && (match trigger {
                None => final(self).outbound_of() == old(self).outbound_of()
                    && final(self).connected_of(),
                Some(msg) => (final(self).outbound_of() == old(self).outbound_of().push(msg@)
                    && final(self).connected_of())
                    || (final(self).outbound_of() == old(self).outbound_of()
                    && final(self).disconnected_of() && !final(self).connected_of()),
            }),
    {
        let mut received: Vec<Vec<u8>> = Vec::new();
        if self.transport_has_error() {
            return received;
        }
        let taken = self.game_session.take();
        match taken {
            Some(session) => {
                let GameSession { mut client, transport_error, clock_micros } = session;
                if client_is_connected(&client) {
                    let ghost start = client_inbound(client);
                    loop
                        invariant
                            client_channels_ready(client),
                            client_connected(client),
                            !client_disconnected(client),
                            client_clock_micros(client) == client_clock_micros(
                                old(self).game_session->Some_0.client,
                            ),
                            client_outbound(client) == client_outbound(
                                old(self).game_session->Some_0.client,
                            ),
                            received.deep_view() + client_inbound(client) == start,
                        ensures
                            client_channels_ready(client),
                            client_connected(client),
                            !client_disconnected(client),
                            client_clock_micros(client) == client_clock_micros(
                                old(self).game_session->Some_0.client,
                            ),
                            client_outbound(client) == client_outbound(
                                old(self).game_session->Some_0.client,
                            ),
                            received.deep_view() == start,
                            client_inbound(client) == Seq::<Seq<u8>>::empty(),
                        decreases client_inbound(client).len(),
                    {
                        match client_receive_reliable(&mut client) {
                            Some(message) => {
                                received.push(message);
                                proof {
                                    assert(received.deep_view() + client_inbound(client)
                                        =~~= start);
                                }
                            },
                            None => {
                                proof {
                                    assert(client_inbound(client) =~= Seq::<Seq<u8>>::empty());
                                    assert(received.deep_view() =~~= start);
                                }
                                break ;
                            },
                        }
                    }
                    match trigger {
                        Some(message) => {
                            client_send_reliable(&mut client, message);
                        },
                        None => {},
                    }
                }
                self.game_session = Some(GameSession { client, transport_error, clock_micros });
            },
            None => {},
        }
        received
    }

    /// One whole tick, with the outcomes of the two transport passes handed
    /// in as values: the guard and clock phase, the receive pass's outcome
    /// recorded and surfaced, the message exchange, and the send pass's
    /// outcome recorded and surfaced. A live transport interleaves its own
    /// socket work between the phases and drives them one by one in this same
    /// order; here the outcomes stand in for it, which is what a test or a
    /// simulated peer supplies.
    pub fn tick(
        &mut self,
        elapsed_micros: u64,
        update_outcome: Option<String>,
        trigger: Option<Vec<u8>>,
        flush_outcome: Option<String>,
    ) -> (out: TickOutput)
        requires
            old(self).wf(),
            old(self).may_tick() ==> old(self).clock_of() + elapsed_micros <= u64::MAX,
        ensures
            final(self).wf(),
            tick_rel(
                *old(self),
                *final(self),
                (TickStep { elapsed_micros, update_outcome, trigger, flush_outcome, out }),
            ),
    {
        let proceed = self.tick_advance(elapsed_micros);
        if !proceed {
            return TickOutput { lost_connection: None, received: Vec::new() };
        }
        self.record_transport_outcome(update_outcome);
        if self.transport_has_error() {
            let reason = self.transport_error_message();
            return TickOutput { lost_connection: Some(reason), received: Vec::new() };
        }
        let received = self.tick_exchange(trigger);
        self.record_transport_outcome(flush_outcome);
        if self.transport_has_error() {
            let reason = self.transport_error_message();
            return TickOutput { lost_connection: Some(reason), received };
        }
        TickOutput { lost_connection: None, received }
    }
}

/// How one tick relates the manager's state before and after to the tick's
/// inputs and output. A tick that may not proceed — no session, or a sticky
/// error — changes nothing and surfaces nothing. One that proceeds advances
/// the client's clock by exactly the elapsed time, leaves in
/// the error slot the first failing outcome of the two transport passes, or
/// none, and surfaces a lost-connection reason exactly when one failed; the
/// channels move only in a failure-free tick on a connected client, where the
/// whole ready inbound queue is drained in order and the trigger message, if
/// any, is enqueued outbound (or, when the channel is over its memory bound,
/// dropped while the client disconnects).
pub open spec fn tick_rel(
    pre: GameplaySessionManager,
    post: GameplaySessionManager,
    step: TickStep,
) -> bool {
    if !pre.may_tick() {
        &&& post == pre
        &&& step.out.lost_connection is None
        &&& step.out.received@.len() == 0
    } else {
        &&& post.has_session()
        &&& post.clock_of() == pre.clock_of() + step.elapsed_micros
        &&& post.error_of() == (if step.update_outcome is Some {
            step.update_outcome
        } else {
            step.flush_outcome
        })
        &&& (match step.out.lost_connection {
            Some(reason) => post.error_of() matches Some(stored) && reason@ == stored@,
            None => post.error_of() is None,
        })
        &&& (if step.update_outcome is Some {
            &&& step.out.received@.len() == 0
            &&& post.inbound_of() == pre.inbound_of()
            &&& post.outbound_of() == pre.outbound_of()
            &&& post.connected_of() == pre.connected_of()
            &&& post.disconnected_of() == pre.disconnected_of()
        } else if !pre.connected_of() {
            &&& step.out.received@.len() == 0
            &&& post.inbound_of() == pre.inbound_of()
            &&& post.outbound_of() == pre.outbound_of()
            &&& post.connected_of() == pre.connected_of()
            &&& post.disconnected_of() == pre.disconnected_of()
        } else {
            &&& step.out.received.deep_view() == pre.inbound_of()
            &&& post.inbound_of() == Seq::<Seq<u8>>::empty()
            &&& (match step.trigger {
                None => post.outbound_of() == pre.outbound_of() && post.connected_of(),
                Some(msg) => (post.outbound_of() == pre.outbound_of().push(msg@)
                    && post.connected_of()) || (post.outbound_of() == pre.outbound_of()
                    && post.disconnected_of() && !post.connected_of()),
            })
        })
    }
}

/// A manager that may not tick — no session yet, or a sticky transport
/// error — is left exactly as it is by every further tick, which surfaces
/// nothing, whatever elapsed times, transport outcomes and triggers the ticks
/// see.
pub proof fn lemma_blocked_ticks_are_noops(
    states: Seq<GameplaySessionManager>,
    steps: Seq<TickStep>,
)
    requires
        states.len() == steps.len() + 1,
        !states[0].may_tick(),
        forall|i: int|
            0 <= i < steps.len() ==> tick_rel(states[i], states[i + 1], #[trigger] steps[i]),
    ensures
        forall|i: int| 0 <= i < states.len() ==> #[trigger] states[i] == states[0],
        forall|i: int|
            0 <= i < steps.len() ==> (#[trigger] steps[i]).out.lost_connection is None
                && steps[i].out.received@.len() == 0,
    decreases steps.len(),
{
    if steps.len() > 0 {
        assert(tick_rel(states[0], states[1], steps[0]));
        let tail_states = states.skip(1);
        let tail_steps = steps.skip(1);
        assert forall|i: int|
            0 <= i < tail_steps.len() implies tick_rel(
            tail_states[i],
            tail_states[i + 1],
            #[trigger] tail_steps[i],
        ) by {
            assert(tick_rel(states[i + 1], states[i + 2], steps[i + 1]));
        }
        lemma_blocked_ticks_are_noops(tail_states, tail_steps);
        assert forall|i: int| 0 <= i < states.len() implies #[trigger] states[i] == states[0] by {
            if i >= 1 {
                assert(tail_states[i - 1] == tail_states[0]);
            }
        }
        assert forall|i: int|
            0 <= i < steps.len() implies (#[trigger] steps[i]).out.lost_connection is None
            && steps[i].out.received@.len() == 0 by {
            if i >= 1 {
                assert(tail_steps[i - 1].out.lost_connection is None && tail_steps[i
                    - 1].out.received@.len() == 0);
            }
        }
    }
}

/// Law: ticks before any join are no-ops. Any number of ticks taken while no
/// session exists leaves the manager exactly as it started and surfaces
/// neither a lost-connection reason nor a message.
pub proof fn lemma_ticks_without_session_are_noops(
    states: Seq<GameplaySessionManager>,
    steps: Seq<TickStep>,
)
    requires
        states.len() == steps.len() + 1,
        !states[0].has_session(),
        forall|i: int|
            0 <= i < steps.len() ==> tick_rel(states[i], states[i + 1], #[trigger] steps[i]),
    ensures
        forall|i: int| 0 <= i < states.len() ==> #[trigger] states[i] == states[0],
        forall|i: int|
            0 <= i < steps.len() ==> (#[trigger] steps[i]).out.lost_connection is None
                && steps[i].out.received@.len() == 0,
{
    lemma_blocked_ticks_are_noops(states, steps);
}

/// Law: a stored transport error is sticky. Once the session carries one,
/// every further tick — whatever its elapsed time, outcomes and trigger — is
/// a no-op that surfaces nothing, until a new join replaces the session.
pub proof fn lemma_transport_error_is_sticky(
    states: Seq<GameplaySessionManager>,
    steps: Seq<TickStep>,
)
    requires
        states.len() == steps.len() + 1,
        states[0].spec_has_error(),
        forall|i: int|
            0 <= i < steps.len() ==> tick_rel(states[i], states[i + 1], #[trigger] steps[i]),
    ensures
        forall|i: int| 0 <= i < states.len() ==> #[trigger] states[i] == states[0],
        forall|i: int|
            0 <= i < steps.len() ==> (#[trigger] steps[i]).out.lost_connection is None
                && steps[i].out.received@.len() == 0,
{
    lemma_blocked_ticks_are_noops(states, steps);
}

/// Law: one failure is surfaced exactly once. The tick that first observes a
/// failing transport pass surfaces one lost-connection reason — never zero —
/// and every subsequent tick, up to the next join, surfaces nothing and
/// changes nothing.
pub proof fn lemma_failure_surfaced_once(
    states: Seq<GameplaySessionManager>,
    steps: Seq<TickStep>,
)
    requires
        states.len() == steps.len() + 1,
        steps.len() >= 1,
        states[0].may_tick(),
        steps[0].update_outcome is Some || steps[0].flush_outcome is Some,
        forall|i: int|
            0 <= i < steps.len() ==> tick_rel(states[i], states[i + 1], #[trigger] steps[i]),
    ensures
        steps[0].out.lost_connection is Some,
        states[1].spec_has_error(),
        forall|i: int| 1 <= i < states.len() ==> #[trigger] states[i] == states[1],
        forall|i: int|
            1 <= i < steps.len() ==> (#[trigger] steps[i]).out.lost_connection is None
                && steps[i].out.received@.len() == 0,
{
    assert(tick_rel(states[0], states[1], steps[0]));
    assert(states[1].error_of() is Some);
    let tail_states = states.skip(1);
    let tail_steps = steps.skip(1);
    assert forall|i: int|
        0 <= i < tail_steps.len() implies tick_rel(
        tail_states[i],
        tail_states[i + 1],
        #[trigger] tail_steps[i],
    ) by {
        assert(tick_rel(states[i + 1], states[i + 2], steps[i + 1]));
    }
    lemma_blocked_ticks_are_noops(tail_states, tail_steps);
    assert forall|i: int| 1 <= i < states.len() implies #[trigger] states[i] == states[1] by {
        assert(tail_states[i - 1] == tail_states[0]);
    }
    assert forall|i: int|
        1 <= i < steps.len() implies (#[trigger] steps[i]).out.lost_connection is None
        && steps[i].out.received@.len() == 0 by {
        assert(tail_steps[i - 1].out.lost_connection is None && tail_steps[i - 1].out.received@.len()
            == 0);
    }
}

} // verus!

