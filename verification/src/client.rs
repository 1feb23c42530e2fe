//! The resilient delivery client's control logic, as a pure state machine:
//! the host performs the outside work (connecting, writing frames, timers)
//! and feeds the outcomes back as events; every decision — when to probe,
//! when to declare a connection dead, when and how long to back off — is
//! made here and verified. Batches waiting for a connection queue in FIFO
//! order so delivery keeps creation order.

use crate::clock::{min64, sat_add, sat_add_spec, sat_mul, sat_mul_spec};
use crate::compression::FinishValue;
use vstd::prelude::*;

verus! {

/// Why a stateless delivery attempt failed. The caller decides whether to
/// re-queue; nothing is retried here.
#[derive(Copy, Clone, Eq, PartialEq, Structural, Debug)]
pub enum DeliveryError {
    /// The bounded timeout elapsed.
    Timeout,
    /// The sink could not be reached.
    ConnectionRefused,
    /// The sink answered with a non-success status.
    ServerError(u16),
    /// The batch could not be encoded for the wire.
    EncodingError,
}

/// Sorts an HTTP status: success statuses are `Ok`, everything else is a
/// `ServerError` carrying the status.
pub fn classify_status(status: u16) -> (r: Result<(), DeliveryError>)
    ensures
        (200 <= status < 300) <==> r is Ok,
        r matches Err(e) ==> e == DeliveryError::ServerError(status),
{
    if 200 <= status && status < 300 {
        Ok(())
    } else {
        Err(DeliveryError::ServerError(status))
    }
}

/// The persistent connection's state. There is no terminal state: the
/// machine runs for the client's lifetime.
#[derive(Copy, Clone, Eq, PartialEq, Structural, Debug)]
pub enum ConnectionState {
    Disconnected,
    Connecting,
    Connected,
    /// Waiting out a reconnect delay; the next attempt starts at `until_ms`.
    Backoff { until_ms: u64 },
}

/// Timing parameters of the persistent mode, in milliseconds.
#[derive(Copy, Clone, Eq, PartialEq, Structural, Debug)]
pub struct ClientConfig {
    /// How often a liveness probe is sent while connected.
    pub probe_interval_ms: u64,
    /// How many probe intervals may pass without an acknowledgement before
    /// the connection is declared dead.
    pub liveness_multiple: u64,
    /// The reconnect delay after the first failure.
    pub min_backoff_ms: u64,
    /// The cap on reconnect delays.
    pub max_backoff_ms: u64,
}

impl ClientConfig {
    pub open spec fn wf(self) -> bool {
        &&& 1 <= self.probe_interval_ms
        &&& 1 <= self.liveness_multiple
        &&& 1 <= self.min_backoff_ms
        &&& self.min_backoff_ms <= self.max_backoff_ms
    }
}

/// The instant at which a connection with no acknowledgement since
/// `last_ack_ms` is declared dead.
pub open spec fn liveness_deadline(cfg: ClientConfig, last_ack_ms: u64) -> u64 {
    sat_add_spec(last_ack_ms, sat_mul_spec(cfg.liveness_multiple, cfg.probe_interval_ms))
}

/// What the host must do after a clock tick.
#[derive(Copy, Clone, Eq, PartialEq, Structural, Debug)]
pub enum TickAction {
    /// Nothing is due.
    Idle,
    /// Send a liveness probe on the open connection.
    SendProbe,
    /// Start a connection attempt.
    Reconnect,
}

/// The persistent-mode delivery client's state: the connection state
/// machine, the backoff ladder, the heartbeat clocks, and the FIFO queue of
/// batches waiting to be written.
pub struct DeliveryClient {
    state: ConnectionState,
    backoff_ms: u64,
    last_ack_ms: u64,
    last_probe_ms: u64,
    queue: Vec<FinishValue>,
    cfg: ClientConfig,
}

impl DeliveryClient {
    pub closed spec fn spec_state(self) -> ConnectionState {
        self.state
    }

    /// The base delay the next failure will schedule from.
    pub closed spec fn backoff(self) -> u64 {
        self.backoff_ms
    }

    /// When the last liveness acknowledgement arrived.
    pub closed spec fn last_ack(self) -> u64 {
        self.last_ack_ms
    }

    /// When the last probe was sent.
    pub closed spec fn last_probe(self) -> u64 {
        self.last_probe_ms
    }

    /// The batches waiting for an open connection, oldest first.
    pub closed spec fn queued(self) -> Seq<FinishValue> {
        self.queue@
    }

    pub closed spec fn config(self) -> ClientConfig {
        self.cfg
    }

    pub open spec fn wf(self) -> bool {
        &&& self.config().wf()
        &&& self.config().min_backoff_ms <= self.backoff()
        &&& self.backoff() <= self.config().max_backoff_ms
    }

    /// Builds a client; construction itself triggers the first connection
    /// attempt, so the machine starts in `Connecting`. A configuration with
    /// a zero interval, multiple or delay, or a minimum delay above the cap,
    /// is rejected.
    pub fn new(cfg: ClientConfig, now_ms: u64) -> (r: Result<DeliveryClient, crate::builder::LoggerError>)
        ensures
            cfg.wf() <==> r is Ok,
            r matches Err(e) ==> e is ConfigurationError,
            r matches Ok(c) ==> {
                &&& c.wf()
                &&& c.config() == cfg
                &&& c.spec_state() is Connecting
                &&& c.backoff() == cfg.min_backoff_ms
                &&& c.last_ack() == now_ms
                &&& c.last_probe() == now_ms
                &&& c.queued() == Seq::<FinishValue>::empty()
            },
    {
        if cfg.probe_interval_ms < 1 || cfg.liveness_multiple < 1 || cfg.min_backoff_ms < 1
            || cfg.min_backoff_ms > cfg.max_backoff_ms {
            return Err(crate::builder::LoggerError::ConfigurationError);
        }
        let c = DeliveryClient {
            state: ConnectionState::Connecting,
            backoff_ms: cfg.min_backoff_ms,
            last_ack_ms: now_ms,
            last_probe_ms: now_ms,
            queue: Vec::new(),
            cfg,
        };
        proof {
            assert(c.queued() =~= Seq::<FinishValue>::empty());
        }
        Ok(c)
    }

    /// The connection state, for the host's control loop.
    pub fn state(&self) -> (r: ConnectionState)
        ensures
            r == self.spec_state(),
    {
        self.state
    }

    /// The base delay the next failure would schedule from.
    pub fn current_backoff(&self) -> (r: u64)
        ensures
            r == self.backoff(),
    {
        self.backoff_ms
    }

    /// How many batches wait for an open connection.
    pub fn queue_len(&self) -> (r: usize)
        ensures
            r == self.queued().len(),
    {
        self.queue.len()
    }

    /// A handshake finished successfully: the machine moves to `Connected`,
    /// the backoff ladder resets to its minimum — only here, never on a mere
    /// send success — and the heartbeat clocks restart at `now_ms`. In any
    /// other state the event is stale and ignored.
    pub fn on_connect_ok(&mut self, now_ms: u64)
        requires
            old(self).wf(),
        ensures
            final(self).wf(),
            final(self).config() == old(self).config(),
            final(self).queued() == old(self).queued(),
            old(self).spec_state() is Connecting ==> {
                &&& final(self).spec_state() is Connected
                &&& final(self).backoff() == old(self).config().min_backoff_ms
                &&& final(self).last_ack() == now_ms
                &&& final(self).last_probe() == now_ms
            },
            !(old(self).spec_state() is Connecting) ==> *final(self) == *old(self),
    {
        match self.state {
            ConnectionState::Connecting => {
                self.state = ConnectionState::Connected;
                self.backoff_ms = self.cfg.min_backoff_ms;
                self.last_ack_ms = now_ms;
                self.last_probe_ms = now_ms;
            },
            _ => {},
        }
    }

    /// A handshake failed: the machine schedules the next attempt after the
    /// current backoff plus a bounded jitter (never past the cap), and the
    /// backoff ladder doubles, capped. Returns the scheduled delay. In any
    /// other state the event is stale and ignored, and the delay is zero.
    pub fn on_connect_failed(&mut self, now_ms: u64, jitter_ms: u64) -> (delay: u64)
        requires
            old(self).wf(),
        ensures
            final(self).wf(),
            connect_failed_rel(*old(self), *final(self), now_ms, jitter_ms, delay),
    {
        match self.state {
            ConnectionState::Connecting => {
                let jitter = if jitter_ms <= self.backoff_ms {
                    jitter_ms
                } else {
                    self.backoff_ms
                };
                let mut delay = sat_add(self.backoff_ms, jitter);
                if delay > self.cfg.max_backoff_ms {
                    delay = self.cfg.max_backoff_ms;
                }
                let mut doubled = sat_add(self.backoff_ms, self.backoff_ms);
                if doubled > self.cfg.max_backoff_ms {
                    doubled = self.cfg.max_backoff_ms;
                }
                self.backoff_ms = doubled;
                self.state = ConnectionState::Backoff { until_ms: sat_add(now_ms, delay) };
                delay
            },
            _ => 0,
        }
    }

    /// A liveness acknowledgement arrived on the open connection: the
    /// heartbeat deadline is extended. This is the only event that extends
    /// it — send attempts never do, so a wedged send cannot mask a dead peer.
    pub fn on_ack(&mut self, now_ms: u64)
        requires
            old(self).wf(),
        ensures
            final(self).wf(),
            old(self).spec_state() is Connected ==> (final(self).last_ack() == now_ms
                && same_but_ack(*old(self), *final(self))),
            !(old(self).spec_state() is Connected) ==> *final(self) == *old(self),
    {
        match self.state {
            ConnectionState::Connected => {
                self.last_ack_ms = now_ms;
            },
            _ => {},
        }
    }

    /// The open connection was lost (a write error or a peer-initiated
    /// close): the machine reconnects immediately. In other states nothing
    /// changes.
    pub fn on_connection_lost(&mut self)
        requires
            old(self).wf(),
        ensures
            final(self).wf(),
            old(self).spec_state() is Connected ==> (final(self).spec_state() is Connecting
                && same_but_state(*old(self), *final(self))),
            !(old(self).spec_state() is Connected) ==> *final(self) == *old(self),
    {
        match self.state {
            ConnectionState::Connected => {
                self.state = ConnectionState::Connecting;
            },
            _ => {},
        }
    }

    /// A clock tick: while connected, a missing acknowledgement past the
    /// liveness deadline tears the connection down proactively and starts a
    /// reconnect at once; otherwise a probe is sent each probe interval. A
    /// backoff whose delay has elapsed, or a bare disconnect, also starts a
    /// reconnect.
    pub fn on_tick(&mut self, now_ms: u64) -> (action: TickAction)
        requires
            old(self).wf(),
        ensures
            final(self).wf(),
            tick_rel(*old(self), *final(self), now_ms, action),
    {
        match self.state {
            ConnectionState::Connected => {
                let deadline = sat_add(self.last_ack_ms, sat_mul(self.cfg.liveness_multiple, self.cfg.probe_interval_ms));
                if now_ms >= deadline {
                    self.state = ConnectionState::Connecting;
                    TickAction::Reconnect
                } else {
                    let probe_due = sat_add(self.last_probe_ms, self.cfg.probe_interval_ms);
                    if now_ms >= probe_due {
                        self.last_probe_ms = now_ms;
                        TickAction::SendProbe
                    } else {
                        TickAction::Idle
                    }
                }
            },
            ConnectionState::Backoff { until_ms } => {
                if now_ms >= until_ms {
                    self.state = ConnectionState::Connecting;
                    TickAction::Reconnect
                } else {
                    TickAction::Idle
                }
            },
            ConnectionState::Disconnected => {
                self.state = ConnectionState::Connecting;
                TickAction::Reconnect
            },
            ConnectionState::Connecting => TickAction::Idle,
        }
    }

    /// Accepts a batch for delivery; it waits in FIFO order.
    pub fn enqueue(&mut self, batch: FinishValue)
        requires
            old(self).wf(),
        ensures
            final(self).wf(),
            same_but_queue(*old(self), *final(self)),
            final(self).queued() == old(self).queued().push(batch),
    {
        self.queue.push(batch);
    }

    /// Puts a batch whose write failed back at the head of the queue, so
    /// delivery order is kept.
    pub fn requeue_front(&mut self, batch: FinishValue)
        requires
            old(self).wf(),
        ensures
            final(self).wf(),
            same_but_queue(*old(self), *final(self)),
            final(self).queued() == seq![batch] + old(self).queued(),
    {
        self.queue.insert(0, batch);
        proof {
            assert(self.queued() =~= seq![batch] + old(self).queued());
        }
    }

    /// Hands out the oldest queued batch to write, but only while connected:
    /// the host writes it to the open stream immediately.
    pub fn next_to_send(&mut self) -> (r: Option<FinishValue>)
        requires
            old(self).wf(),
        ensures
            final(self).wf(),
            same_but_queue(*old(self), *final(self)),
            (old(self).spec_state() is Connected && old(self).queued().len() > 0) ==> (r matches
                Some(batch) && batch == old(self).queued()[0] && final(self).queued() == old(
                self,
            ).queued().drop_first()),
            !(old(self).spec_state() is Connected && old(self).queued().len() > 0) ==> (r is None
                && final(self).queued() == old(self).queued()),
    {
        match self.state {
            ConnectionState::Connected => {
                if self.queue.len() > 0 {
                    let batch = self.queue.remove(0);
                    proof {
                        assert(self.queued() =~= old(self).queued().drop_first());
                    }
                    Some(batch)
                } else {
                    None
                }
            },
            _ => None,
        }
    }
}

/// Everything but the acknowledgement clock is unchanged.
pub open spec fn same_but_ack(pre: DeliveryClient, post: DeliveryClient) -> bool {
    &&& post.config() == pre.config()
    &&& post.spec_state() == pre.spec_state()
    &&& post.backoff() == pre.backoff()
    &&& post.last_probe() == pre.last_probe()
    &&& post.queued() == pre.queued()
}

/// Everything but the connection state is unchanged.
pub open spec fn same_but_state(pre: DeliveryClient, post: DeliveryClient) -> bool {
    &&& post.config() == pre.config()
    &&& post.backoff() == pre.backoff()
    &&& post.last_ack() == pre.last_ack()
    &&& post.last_probe() == pre.last_probe()
    &&& post.queued() == pre.queued()
}

/// Everything but the queue of waiting batches is unchanged.
pub open spec fn same_but_queue(pre: DeliveryClient, post: DeliveryClient) -> bool {
    &&& post.config() == pre.config()
    &&& post.spec_state() == pre.spec_state()
    &&& post.backoff() == pre.backoff()
    &&& post.last_ack() == pre.last_ack()
    &&& post.last_probe() == pre.last_probe()
}

/// How a failed handshake relates the client's state before and after, the
/// clock, the jitter drawn by the host, and the scheduled delay: the delay is
/// the current backoff plus at most that much jitter, capped; the stored
/// backoff doubles, capped; and the machine waits in `Backoff` until the
/// delay has passed. In any state but `Connecting` nothing changes.
pub open spec fn connect_failed_rel(
    pre: DeliveryClient,
    post: DeliveryClient,
    now_ms: u64,
    jitter_ms: u64,
    delay: u64,
) -> bool {
    if pre.spec_state() is Connecting {
        &&& delay == min64(sat_add_spec(pre.backoff(), min64(jitter_ms, pre.backoff())), pre.config().max_backoff_ms)
        &&& post.backoff() == min64(sat_add_spec(pre.backoff(), pre.backoff()), pre.config().max_backoff_ms)
        &&& post.spec_state() == (ConnectionState::Backoff { until_ms: sat_add_spec(now_ms, delay) })
        &&& post.config() == pre.config()
        &&& post.queued() == pre.queued()
        &&& post.last_ack() == pre.last_ack()
        &&& post.last_probe() == pre.last_probe()
    } else {
        &&& post == pre
        &&& delay == 0
    }
}

/// How a clock tick relates the states, the clock and the action: while
/// connected, the liveness deadline going unmet forces `Connecting` with a
/// reconnect; otherwise a probe is due each probe interval. An expired
/// backoff or a bare disconnect also forces `Connecting`. Ticks never touch
/// the backoff ladder or the queue.
pub open spec fn tick_rel(
    pre: DeliveryClient,
    post: DeliveryClient,
    now_ms: u64,
    action: TickAction,
) -> bool {
    &&& post.config() == pre.config()
    &&& post.backoff() == pre.backoff()
    &&& post.queued() == pre.queued()
    &&& post.last_ack() == pre.last_ack()
    &&& match pre.spec_state() {
        ConnectionState::Connected => {
            if now_ms >= liveness_deadline(pre.config(), pre.last_ack()) {
                &&& post.spec_state() is Connecting
                &&& action == TickAction::Reconnect
                &&& post.last_probe() == pre.last_probe()
            } else if now_ms >= sat_add_spec(pre.last_probe(), pre.config().probe_interval_ms) {
                &&& post.spec_state() is Connected
                &&& action == TickAction::SendProbe
                &&& post.last_probe() == now_ms
            } else {
                &&& post == pre
                &&& action == TickAction::Idle
            }
        },
        ConnectionState::Backoff { until_ms } => {
            if now_ms >= until_ms {
                &&& post.spec_state() is Connecting
                &&& action == TickAction::Reconnect
                &&& post.last_probe() == pre.last_probe()
            } else {
                &&& post == pre
                &&& action == TickAction::Idle
            }
        },
        ConnectionState::Disconnected => {
            &&& post.spec_state() is Connecting
            &&& action == TickAction::Reconnect
            &&& post.last_probe() == pre.last_probe()
        },
        ConnectionState::Connecting => {
            &&& post == pre
            &&& action == TickAction::Idle
        },
    }
}

/// Heartbeat timeout: if, while connected, no liveness acknowledgement has
/// arrived within `liveness_multiple` probe intervals, a tick tears the
/// connection down and schedules a reconnect attempt at once.
pub proof fn lemma_heartbeat_timeout(
    pre: DeliveryClient,
    post: DeliveryClient,
    now_ms: u64,
    action: TickAction,
)
    requires
        pre.wf(),
        pre.spec_state() is Connected,
        tick_rel(pre, post, now_ms, action),
        now_ms >= liveness_deadline(pre.config(), pre.last_ack()),
    ensures
        post.spec_state() is Connecting,
        action == TickAction::Reconnect,
{
}

/// Backoff growth: two consecutive failed reconnect attempts — with the
/// backoff expiry tick between them — schedule non-decreasing delays, both
/// capped; and any successful connect resets the ladder to its minimum (the
/// `on_connect_ok` contract).
pub proof fn lemma_backoff_growth(
    s0: DeliveryClient,
    s1: DeliveryClient,
    s2: DeliveryClient,
    s3: DeliveryClient,
    now1: u64,
    jitter1: u64,
    delay1: u64,
    tick_now: u64,
    tick_action: TickAction,
    now2: u64,
    jitter2: u64,
    delay2: u64,
)
    requires
        s0.wf(),
        s0.spec_state() is Connecting,
        connect_failed_rel(s0, s1, now1, jitter1, delay1),
        tick_rel(s1, s2, tick_now, tick_action),
        s2.spec_state() is Connecting,
        connect_failed_rel(s2, s3, now2, jitter2, delay2),
    ensures
        delay1 <= delay2,
        delay1 <= s0.config().max_backoff_ms,
        delay2 <= s0.config().max_backoff_ms,
{
    let cap = s0.config().max_backoff_ms;
    let b = s0.backoff();
    assert(delay1 <= min64(sat_add_spec(b, b), cap));
    assert(s2.backoff() == min64(sat_add_spec(b, b), cap));
}

} // verus!
