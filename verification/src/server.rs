//! The shared server state cell, the per-tick state, and the decisions of
//! the tick scheduler loop.
//!
//! The loop driver itself — measuring wall-clock time, sleeping out the
//! remainder of each tick period, and spawning the accept subsystem — is
//! outside work and lives with the embedding program. Every decision it
//! takes is a function here: observing the shutdown slot, draining the
//! handoff backlog, firing the one-shot accept start, and computing the
//! pacing sleep.

use vstd::prelude::*;
use crate::clock::instant_now;
use crate::keys::{
    der_encode_public_key, generate_rsa_key, public_key_der_of, rsa_exponent_be, rsa_modulus_be,
};
use crate::limiter::{acquire_allowed, spec_acquire, spec_close, spec_release, AdmissionLimiter, LimiterView, Permit};
use crate::queue::{spec_send, HandoffQueue, HandoffQueueView};
use crate::registry::{
    codec_built_from, make_registry_codec, Biome, BiomeId, Dimension, DimensionId, RegistryCodec,
};
use crate::types::{ConnectionMode, NewClientMessage, SocketAddress};
use crate::web::build_http_client;

verus! {

/// Capacity of the client handoff mailbox: it bounds pending, not-yet
/// simulated handoffs, independently of the admission limiter.
pub const HANDOFF_QUEUE_CAPACITY: usize = 64;

/// Bit size of the server's RSA key pair, generated once at startup.
pub const RSA_KEY_BITS: usize = 1024;

/// A failure carried through the shutdown slot and returned as the server's
/// terminal outcome.
#[derive(Debug)]
pub struct ServerError {
    pub message: String,
}

/// The server's overall outcome: success, or the failure some caller asked
/// the server to stop with.
pub type ServerResult = Result<(), ServerError>;

/// Why the server refused to start. Validation failures are checked in
/// order: tick rate first, then the incoming and outgoing capacities.
#[derive(Clone, Copy, PartialEq, Eq, Structural, Debug)]
pub enum StartError {
    /// The configured tick rate is not greater than zero.
    InvalidTickRate,
    /// The configured incoming packet capacity is zero.
    InvalidIncomingCapacity,
    /// The configured outgoing packet capacity is zero.
    InvalidOutgoingCapacity,
    /// Generating the server's RSA key pair failed.
    KeyGeneration,
    /// Building the HTTP client for session verification failed.
    HttpClient,
}

/// The configuration the core consumes. It is supplied, already assembled,
/// by the embedding program; the constraints on it are checked by
/// [`validate_config`] before anything is built.
pub struct Config {
    pub address: SocketAddress,
    pub tick_rate: i64,
    pub connection_mode: ConnectionMode,
    pub compression_threshold: Option<u32>,
    pub max_connections: usize,
    pub incoming_capacity: usize,
    pub outgoing_capacity: usize,
    pub dimensions: Vec<Dimension>,
    pub biomes: Vec<Biome>,
}

/// The configuration constraints the start operation enforces: a positive
/// tick rate and nonzero packet-buffer capacities.
pub open spec fn config_valid(cfg: Config) -> bool {
    cfg.tick_rate > 0 && cfg.incoming_capacity > 0 && cfg.outgoing_capacity > 0
}

/// Checks the configuration constraints, reporting the first violation in
/// checking order.
pub fn validate_config(cfg: &Config) -> (r: Result<(), StartError>)
    ensures
        r is Ok <==> config_valid(*cfg),
        cfg.tick_rate <= 0 ==> r == Err::<(), StartError>(StartError::InvalidTickRate),
        cfg.tick_rate > 0 && cfg.incoming_capacity == 0 ==> r == Err::<(), StartError>(
            StartError::InvalidIncomingCapacity,
        ),
        cfg.tick_rate > 0 && cfg.incoming_capacity > 0 && cfg.outgoing_capacity == 0 ==> r
            == Err::<(), StartError>(StartError::InvalidOutgoingCapacity),
{
    if cfg.tick_rate <= 0 {
        Err(StartError::InvalidTickRate)
    } else if cfg.incoming_capacity == 0 {
        Err(StartError::InvalidIncomingCapacity)
    } else if cfg.outgoing_capacity == 0 {
        Err(StartError::InvalidOutgoingCapacity)
    } else {
        Ok(())
    }
}

/// Mathematical state of the shared server cell. The key pair, the HTTP
/// client and the start instant are opaque values: they are fixed at
/// construction and carried, never inspected.
#[verifier::ext_equal]
pub struct SharedServerView {
    pub address: SocketAddress,
    pub tick_rate: i64,
    pub connection_mode: ConnectionMode,
    pub compression_threshold: Option<u32>,
    pub max_connections: usize,
    pub incoming_capacity: usize,
    pub outgoing_capacity: usize,
    pub dimensions: Seq<Dimension>,
    pub biomes: Seq<Biome>,
    pub registry: RegistryCodec,
    pub start_instant: std::time::Instant,
    pub limiter: LimiterView,
    pub queue: HandoffQueueView,
    pub shutdown_slot: Option<ServerResult>,
    pub rsa_key: rsa::RsaPrivateKey,
    pub public_key_der: Seq<u8>,
    pub http_client: reqwest::Client,
}

/// Well-formedness of the shared cell: the limiter respects its capacity,
/// which is the configured connection maximum; the mailbox respects its
/// fixed capacity; and the tick rate passed validation.
pub open spec fn shared_wf(v: SharedServerView) -> bool {
    &&& v.limiter.issued <= v.limiter.capacity
    &&& v.limiter.capacity == v.max_connections
    &&& v.queue.messages.len() <= v.queue.capacity
    &&& v.queue.capacity == HANDOFF_QUEUE_CAPACITY
    &&& v.tick_rate > 0
}

/// The shared cell after a shutdown request: the admission limiter is closed as
/// the atomic companion action, and the slot holds the requested outcome.
pub open spec fn spec_shutdown(v: SharedServerView, res: ServerResult) -> SharedServerView {
    SharedServerView { limiter: spec_close(v.limiter), shutdown_slot: Some(res), ..v }
}

/// The subset of global server state that every thread shares: settings
/// fixed at construction, plus the three cross-domain coordination points —
/// the admission limiter, the handoff mailbox and the shutdown slot. Those
/// three, reached only through the operations below, are the only mutable
/// part.
pub struct SharedServer {
    address: SocketAddress,
    tick_rate: i64,
    connection_mode: ConnectionMode,
    compression_threshold: Option<u32>,
    max_connections: usize,
    incoming_capacity: usize,
    outgoing_capacity: usize,
    dimensions: Vec<Dimension>,
    biomes: Vec<Biome>,
    registry_codec: RegistryCodec,
    start_instant: std::time::Instant,
    new_clients: HandoffQueue,
    connection_limiter: AdmissionLimiter,
    shutdown_result: Option<ServerResult>,
    rsa_key: rsa::RsaPrivateKey,
    public_key_der: Vec<u8>,
    http_client: reqwest::Client,
}

impl View for SharedServer {
    type V = SharedServerView;

    closed spec fn view(&self) -> SharedServerView {
        SharedServerView {
            address: self.address,
            tick_rate: self.tick_rate,
            connection_mode: self.connection_mode,
            compression_threshold: self.compression_threshold,
            max_connections: self.max_connections,
            incoming_capacity: self.incoming_capacity,
            outgoing_capacity: self.outgoing_capacity,
            dimensions: self.dimensions@,
            biomes: self.biomes@,
            registry: self.registry_codec,
            start_instant: self.start_instant,
            limiter: self.connection_limiter@,
            queue: self.new_clients@,
            shutdown_slot: self.shutdown_result,
            rsa_key: self.rsa_key,
            public_key_der: self.public_key_der@,
            http_client: self.http_client,
        }
    }
}

impl SharedServer {
    /// Well-formedness of this cell; established at construction and kept by
    /// every operation.
    pub open spec fn wf(&self) -> bool {
        shared_wf(self@)
    }

    /// The socket address the server is bound to.
    pub fn address(&self) -> (r: SocketAddress)
        ensures
            r == self@.address,
    {
        self.address
    }

    /// The configured tick rate, in ticks per second.
    pub fn tick_rate(&self) -> (r: i64)
        ensures
            r == self@.tick_rate,
    {
        self.tick_rate
    }

    /// The connection-mode policy of the server.
    pub fn connection_mode(&self) -> (r: ConnectionMode)
        ensures
            r == self@.connection_mode,
    {
        self.connection_mode
    }

    /// The compression threshold for packets; `None` means no compression.
    pub fn compression_threshold(&self) -> (r: Option<u32>)
        ensures
            r == self@.compression_threshold,
    {
        self.compression_threshold
    }

    /// The maximum number of simultaneous connections, which is the
    /// admission limiter's capacity.
    pub fn max_connections(&self) -> (r: usize)
        ensures
            r == self@.max_connections,
    {
        self.max_connections
    }

    /// The configured incoming packet-buffer capacity.
    pub fn incoming_capacity(&self) -> (r: usize)
        ensures
            r == self@.incoming_capacity,
    {
        self.incoming_capacity
    }

    /// The configured outgoing packet-buffer capacity.
    pub fn outgoing_capacity(&self) -> (r: usize)
        ensures
            r == self@.outgoing_capacity,
    {
        self.outgoing_capacity
    }

    /// The dimension a [`DimensionId`] names. Identifiers are dense, so the
    /// id must come from the configuration this server was built with.
    pub fn dimension(&self, id: DimensionId) -> (r: &Dimension)
        requires
            id.0 < self@.dimensions.len(),
        ensures
            *r == self@.dimensions[id.0 as int],
    {
        &self.dimensions[id.0 as usize]
    }

    /// All configured dimensions; the [`DimensionId`] of each is its
    /// position.
    pub fn dimensions(&self) -> (r: &Vec<Dimension>)
        ensures
            r@ == self@.dimensions,
    {
        &self.dimensions
    }

    /// The biome a [`BiomeId`] names, under the same rule as
    /// [`Self::dimension`].
    pub fn biome(&self, id: BiomeId) -> (r: &Biome)
        requires
            id.0 < self@.biomes.len(),
        ensures
            *r == self@.biomes[id.0 as int],
    {
        &self.biomes[id.0 as usize]
    }

    /// All configured biomes; the [`BiomeId`] of each is its position.
    pub fn biomes(&self) -> (r: &Vec<Biome>)
        ensures
            r@ == self@.biomes,
    {
        &self.biomes
    }

    /// The registry snapshot sent to every joining client.
    pub fn registry_codec(&self) -> (r: &RegistryCodec)
        ensures
            *r == self@.registry,
    {
        &self.registry_codec
    }

    /// The instant the server was started.
    pub fn start_instant(&self) -> (r: &std::time::Instant)
        ensures
            *r == self@.start_instant,
    {
        &self.start_instant
    }

    /// The server's RSA key pair, generated once at startup.
    pub fn rsa_key(&self) -> (r: &rsa::RsaPrivateKey)
        ensures
            *r == self@.rsa_key,
    {
        &self.rsa_key
    }

    /// The DER encoding of the key pair's public half, sent to clients
    /// during authentication.
    pub fn public_key_der(&self) -> (r: &Vec<u8>)
        ensures
            r@ == self@.public_key_der,
    {
        &self.public_key_der
    }

    /// The HTTP client used for session verification.
    pub fn http_client(&self) -> (r: &reqwest::Client)
        ensures
            *r == self@.http_client,
    {
        &self.http_client
    }

    /// How many admission permits are out: the number of live connections.
    pub fn issued_permits(&self) -> (r: usize)
        ensures
            r == self@.limiter.issued,
    {
        self.connection_limiter.issued()
    }

    /// Whether the admission limiter has been closed — true from the
    /// instant a shutdown request goes through.
    pub fn admission_closed(&self) -> (r: bool)
        ensures
            r == self@.limiter.closed,
    {
        self.connection_limiter.is_closed()
    }

    /// Whether a shutdown request is waiting in the slot, not yet observed
    /// by the tick loop.
    pub fn shutdown_requested(&self) -> (r: bool)
        ensures
            r == (self@.shutdown_slot is Some),
    {
        self.shutdown_result.is_some()
    }

    /// Admission: attempts to take one connection slot. Succeeds exactly
    /// when the limiter is open and under capacity; the permit must come back
    /// through [`Self::release_permit`] when the owning entity is destroyed.
    pub fn try_acquire_permit(&mut self) -> (r: Option<Permit>)
        requires
            old(self).wf(),
        ensures
            final(self).wf(),
            r is Some <==> acquire_allowed(old(self)@.limiter),
            r is Some ==> final(self)@ == (SharedServerView {
                limiter: spec_acquire(old(self)@.limiter),
                ..old(self)@
            }),
            r is None ==> final(self)@ == old(self)@,
    {
        self.connection_limiter.try_acquire()
    }

    /// Admission: returns one permit, freeing its slot.
    pub fn release_permit(&mut self, permit: Permit)
        requires
            old(self).wf(),
            old(self)@.limiter.issued >= 1,
        ensures
            final(self).wf(),
            final(self)@ == (SharedServerView {
                limiter: spec_release(old(self)@.limiter),
                ..old(self)@
            }),
    {
        self.connection_limiter.release(permit);
    }

    /// Handoff: offers one authenticated client to the tick loop. A full
    /// mailbox hands the message back; the asynchronous caller suspends and
    /// retries, which is the backpressure on new-client processing.
    pub fn send_new_client(&mut self, m: NewClientMessage) -> (rejected: Option<NewClientMessage>)
        requires
            old(self).wf(),
        ensures
            final(self).wf(),
            old(self)@.queue.messages.len() < old(self)@.queue.capacity ==> rejected is None
                && final(self)@ == (SharedServerView {
                queue: spec_send(old(self)@.queue, m),
                ..old(self)@
            }),
            old(self)@.queue.messages.len() >= old(self)@.queue.capacity ==> rejected == Some(m)
                && final(self)@ == old(self)@,
    {
        self.new_clients.try_send(m)
    }

    /// Requests shutdown with the given outcome: closes the admission limiter —
    /// from this instant no new connection can acquire a permit — and writes
    /// the outcome into the shutdown slot, where the tick loop observes it
    /// at its next iteration boundary. A second request before the loop
    /// looks overwrites the slot: the last writer wins, and an earlier
    /// unobserved outcome is lost.
    pub fn shutdown(&mut self, res: ServerResult)
        requires
            old(self).wf(),
        ensures
            final(self).wf(),
            final(self)@ == spec_shutdown(old(self)@, res),
    {
        self.connection_limiter.close();
        self.shutdown_result = Some(res);
    }

    /// Shutdown check: atomically reads and clears the slot. Called only by
    /// the tick loop, once per iteration; a present value ends the loop.
    pub fn take_shutdown_result(&mut self) -> (r: Option<ServerResult>)
        requires
            old(self).wf(),
        ensures
            final(self).wf(),
            r == old(self)@.shutdown_slot,
            final(self)@ == (SharedServerView { shutdown_slot: None, ..old(self)@ }),
    {
        self.shutdown_result.take()
    }

    /// Intake: takes every handoff message present when the call starts, in
    /// send order; arrivals during the drain wait for the next tick. Called
    /// only by the tick loop.
    pub fn drain_new_clients(&mut self) -> (msgs: Vec<NewClientMessage>)
        requires
            old(self).wf(),
        ensures
            final(self).wf(),
            msgs@ =~= old(self)@.queue.messages,
            final(self)@ == (SharedServerView {
                queue: HandoffQueueView {
                    capacity: old(self)@.queue.capacity,
                    messages: Seq::<NewClientMessage>::empty(),
                },
                ..old(self)@
            }),
    {
        let msgs = self.new_clients.drain();
        proof {
            assert(self@ =~= (SharedServerView {
                queue: HandoffQueueView {
                    capacity: old(self)@.queue.capacity,
                    messages: Seq::<NewClientMessage>::empty(),
                },
                ..old(self)@
            }));
        }
        msgs
    }
}

/// Whether the deferred start of the accept subsystem has fired. It fires
/// exactly once, after the first simulation pass, so expensive first-tick
/// initialization finishes before any connection is accepted.
#[derive(Clone, Copy, PartialEq, Eq, Structural, Debug)]
pub enum AcceptPhase {
    NotStarted,
    Started,
}

/// Mathematical state of the whole server: the per-tick fields owned by the
/// simulation thread, and the shared cell.
#[verifier::ext_equal]
pub struct ServerView {
    pub current_tick: i64,
    pub last_tick_duration_nanos: u64,
    pub accept_phase: AcceptPhase,
    pub shared: SharedServerView,
}

/// The length of one tick period in nanoseconds: the second, divided by the
/// tick rate.
pub open spec fn spec_tick_period_nanos(tick_rate: i64) -> int
    recommends
        tick_rate > 0,
{
    1_000_000_000 as int / tick_rate as int
}

/// How long the loop sleeps after a tick that took `elapsed` nanoseconds:
/// the remainder of the period, or nothing when the tick overran. The
/// scheduler is fixed-rate, not catch-up: an overrun shortens the following
/// sleep to zero and nothing else.
pub open spec fn spec_sleep_nanos(tick_rate: i64, elapsed: u64) -> int
    recommends
        tick_rate > 0,
{
    if elapsed <= spec_tick_period_nanos(tick_rate) {
        spec_tick_period_nanos(tick_rate) - elapsed
    } else {
        0
    }
}

/// The tick period in nanoseconds for a validated tick rate.
pub fn tick_period_nanos(tick_rate: i64) -> (r: u64)
    requires
        tick_rate > 0,
    ensures
        r == spec_tick_period_nanos(tick_rate),
{
    (1_000_000_000i64 / tick_rate) as u64
}

/// Global server state: the shared cell plus the per-tick fields — the tick
/// counter and the last tick's duration — owned exclusively by the
/// simulation thread and read-only everywhere else.
pub struct Server {
    current_tick: i64,
    last_tick_duration_nanos: u64,
    accept_phase: AcceptPhase,
    shared: SharedServer,
}

impl View for Server {
    type V = ServerView;

    closed spec fn view(&self) -> ServerView {
        ServerView {
            current_tick: self.current_tick,
            last_tick_duration_nanos: self.last_tick_duration_nanos,
            accept_phase: self.accept_phase,
            shared: self.shared@,
        }
    }
}

impl Server {
    /// Well-formedness: the tick counter never goes negative, and the shared
    /// cell is well formed.
    pub open spec fn wf(&self) -> bool {
        self@.current_tick >= 0 && shared_wf(self@.shared)
    }

    /// The shared part of the server state.
    pub fn shared(&self) -> (r: &SharedServer)
        ensures
            r@ == self@.shared,
    {
        &self.shared
    }

    /// The number of ticks that have elapsed since the server began.
    pub fn current_tick(&self) -> (r: i64)
        ensures
            r == self@.current_tick,
    {
        self.current_tick
    }

    /// How long the previous tick took, in nanoseconds, not counting the
    /// time spent sleeping.
    pub fn last_tick_duration(&self) -> (r: u64)
        ensures
            r == self@.last_tick_duration_nanos,
    {
        self.last_tick_duration_nanos
    }

    /// How many admission permits are out: the number of live connections.
    pub fn issued_permits(&self) -> (r: usize)
        ensures
            r == self@.shared.limiter.issued,
    {
        self.shared.issued_permits()
    }

    /// Phase one of every iteration: read and clear the shutdown slot. A
    /// present outcome means the loop terminates now and returns exactly
    /// that outcome; no further tick may run after it is observed.
    pub fn check_shutdown(&mut self) -> (r: Option<ServerResult>)
        requires
            old(self).wf(),
        ensures
            final(self).wf(),
            r == old(self)@.shared.shutdown_slot,
            final(self)@ == (ServerView {
                shared: SharedServerView { shutdown_slot: None, ..old(self)@.shared },
                ..old(self)@
            }),
    {
        self.shared.take_shutdown_result()
    }

    /// Phase two: intake. Takes the handoff messages present at the phase
    /// start, in send order; the caller turns each into one simulation
    /// entity, which from then on owns the message's permit and packet
    /// handles.
    pub fn intake(&mut self) -> (msgs: Vec<NewClientMessage>)
        requires
            old(self).wf(),
        ensures
            final(self).wf(),
            msgs@ =~= old(self)@.shared.queue.messages,
            final(self)@ == (ServerView {
                shared: SharedServerView {
                    queue: HandoffQueueView {
                        capacity: old(self)@.shared.queue.capacity,
                        messages: Seq::<NewClientMessage>::empty(),
                    },
                    ..old(self)@.shared
                },
                ..old(self)@
            }),
    {
        self.shared.drain_new_clients()
    }

    /// After phase three, the simulation pass: fires the deferred start of
    /// the accept subsystem. Answers true exactly once, on the first call —
    /// the caller then spawns the accept loop — and false ever after.
    pub fn take_accept_start(&mut self) -> (r: bool)
        requires
            old(self).wf(),
        ensures
            final(self).wf(),
            r == (old(self)@.accept_phase == AcceptPhase::NotStarted),
            final(self)@ == (ServerView { accept_phase: AcceptPhase::Started, ..old(self)@ }),
    {
        match self.accept_phase {
            AcceptPhase::NotStarted => {
                self.accept_phase = AcceptPhase::Started;
                true
            }
            AcceptPhase::Started => false,
        }
    }

    /// Phase four: pacing. Records the elapsed work time of this tick,
    /// advances the tick counter, and returns how long the caller must
    /// sleep: the remainder of the tick period, or nothing when the tick
    /// overran.
    pub fn finish_tick(&mut self, elapsed_nanos: u64) -> (sleep_nanos: u64)
        requires
            old(self).wf(),
            old(self)@.current_tick < i64::MAX,
        ensures
            final(self).wf(),
            sleep_nanos == spec_sleep_nanos(old(self)@.shared.tick_rate, elapsed_nanos),
            final(self)@ == (ServerView {
                current_tick: (old(self)@.current_tick + 1) as i64,
                last_tick_duration_nanos: elapsed_nanos,
                ..old(self)@
            }),
    {
        let period = tick_period_nanos(self.shared.tick_rate());
        let sleep_nanos = if elapsed_nanos <= period {
            period - elapsed_nanos
        } else {
            0
        };
        self.last_tick_duration_nanos = elapsed_nanos;
        self.current_tick = self.current_tick + 1;
        sleep_nanos
    }

    /// Requests shutdown with the given outcome; see
    /// [`SharedServer::shutdown`].
    pub fn shutdown(&mut self, res: ServerResult)
        requires
            old(self).wf(),
        ensures
            final(self).wf(),
            final(self)@ == (ServerView {
                shared: spec_shutdown(old(self)@.shared, res),
                ..old(self)@
            }),
    {
        self.shared.shutdown(res);
    }

    /// Admission, for the accept subsystem; see
    /// [`SharedServer::try_acquire_permit`].
    pub fn try_acquire_permit(&mut self) -> (r: Option<Permit>)
        requires
            old(self).wf(),
        ensures
            final(self).wf(),
            r is Some <==> acquire_allowed(old(self)@.shared.limiter),
            r is Some ==> final(self)@ == (ServerView {
                shared: SharedServerView {
                    limiter: spec_acquire(old(self)@.shared.limiter),
                    ..old(self)@.shared
                },
                ..old(self)@
            }),
            r is None ==> final(self)@ == old(self)@,
    {
        self.shared.try_acquire_permit()
    }

    /// Releases a permit when its owning entity is destroyed; see
    /// [`SharedServer::release_permit`].
    pub fn release_permit(&mut self, permit: Permit)
        requires
            old(self).wf(),
            old(self)@.shared.limiter.issued >= 1,
        ensures
            final(self).wf(),
            final(self)@ == (ServerView {
                shared: SharedServerView {
                    limiter: spec_release(old(self)@.shared.limiter),
                    ..old(self)@.shared
                },
                ..old(self)@
            }),
    {
        self.shared.release_permit(permit);
    }

    /// Handoff, for the accept subsystem; see
    /// [`SharedServer::send_new_client`].
    pub fn send_new_client(&mut self, m: NewClientMessage) -> (rejected: Option<NewClientMessage>)
        requires
            old(self).wf(),
        ensures
            final(self).wf(),
            old(self)@.shared.queue.messages.len() < old(self)@.shared.queue.capacity ==> rejected
                is None && final(self)@ == (ServerView {
                shared: SharedServerView {
                    queue: spec_send(old(self)@.shared.queue, m),
                    ..old(self)@.shared
                },
                ..old(self)@
            }),
            old(self)@.shared.queue.messages.len() >= old(self)@.shared.queue.capacity ==> rejected
                == Some(m) && final(self)@ == old(self)@,
    {
        self.shared.send_new_client(m)
    }
}

/// Holds when `s` is the state a server starts in under configuration
/// `cfg`: tick counter at zero, accept start not yet fired, empty mailbox
/// of the fixed capacity, an open limiter sized by the connection maximum,
/// an empty shutdown slot, the registry snapshot built from the configured
/// lists, and every configured setting carried over unchanged. The key
/// material is opaque; what is visible of it is that the stored DER bytes
/// are the encoding of some public key.
pub open spec fn server_fresh(s: ServerView, cfg: Config) -> bool {
    &&& s.current_tick == 0
    &&& s.last_tick_duration_nanos == 0
    &&& s.accept_phase == AcceptPhase::NotStarted
    &&& s.shared.address == cfg.address
    &&& s.shared.tick_rate == cfg.tick_rate
    &&& s.shared.connection_mode == cfg.connection_mode
    &&& s.shared.compression_threshold == cfg.compression_threshold
    &&& s.shared.max_connections == cfg.max_connections
    &&& s.shared.incoming_capacity == cfg.incoming_capacity
    &&& s.shared.outgoing_capacity == cfg.outgoing_capacity
    &&& s.shared.dimensions =~= cfg.dimensions@
    &&& s.shared.biomes =~= cfg.biomes@
    &&& codec_built_from(s.shared.registry, cfg.dimensions@, cfg.biomes@)
    &&& s.shared.limiter == (LimiterView {
        capacity: cfg.max_connections as nat,
        issued: 0,
        closed: false,
    })
    &&& s.shared.queue.capacity == HANDOFF_QUEUE_CAPACITY
    &&& s.shared.queue.messages.len() == 0
    &&& s.shared.shutdown_slot is None
    &&& exists|n: Seq<u8>, e: Seq<u8>| s.shared.public_key_der == public_key_der_of(n, e)
}

/// Consumes the configuration and builds the server: the start operation up
/// to, but not including, the loop. Validation failures are reported in
/// checking order before anything is built; with a valid configuration the
/// only failures left are the two outside constructions, key generation and
/// the HTTP client. The embedding program then drives the loop through
/// [`Server::check_shutdown`], [`Server::intake`],
/// [`Server::take_accept_start`] and [`Server::finish_tick`], and returns
/// the outcome the first of those hands out.
pub fn new_server(cfg: Config) -> (r: Result<Server, StartError>)
    requires
        cfg.dimensions@.len() <= u16::MAX,
        cfg.biomes@.len() <= u16::MAX,
    ensures
        cfg.tick_rate <= 0 ==> r == Err::<Server, StartError>(StartError::InvalidTickRate),
        cfg.tick_rate > 0 && cfg.incoming_capacity == 0 ==> r == Err::<Server, StartError>(
            StartError::InvalidIncomingCapacity,
        ),
        cfg.tick_rate > 0 && cfg.incoming_capacity > 0 && cfg.outgoing_capacity == 0 ==> r
            == Err::<Server, StartError>(StartError::InvalidOutgoingCapacity),
        r is Err ==> !config_valid(cfg) || r == Err::<Server, StartError>(StartError::KeyGeneration)
            || r == Err::<Server, StartError>(StartError::HttpClient),
        r matches Ok(s) ==> config_valid(cfg) && s.wf() && server_fresh(s@, cfg),
{
    match validate_config(&cfg) {
        Err(e) => {
            return Err(e);
        }
        Ok(_) => {}
    }
    let rsa_key = match generate_rsa_key(RSA_KEY_BITS) {
        Ok(k) => k,
        Err(_) => {
            return Err(StartError::KeyGeneration);
        }
    };
    let modulus = rsa_modulus_be(&rsa_key);
    let exponent = rsa_exponent_be(&rsa_key);
    let public_key_der = der_encode_public_key(&modulus, &exponent);
    let http_client = match build_http_client() {
        Ok(c) => c,
        Err(_) => {
            return Err(StartError::HttpClient);
        }
    };
    let registry_codec = make_registry_codec(&cfg.dimensions, &cfg.biomes);
    let start_instant = instant_now();
    let Config {
        address,
        tick_rate,
        connection_mode,
        compression_threshold,
        max_connections,
        incoming_capacity,
        outgoing_capacity,
        dimensions,
        biomes,
    } = cfg;
    let shared = SharedServer {
        address,
        tick_rate,
        connection_mode,
        compression_threshold,
        max_connections,
        incoming_capacity,
        outgoing_capacity,
        dimensions,
        biomes,
        registry_codec,
        start_instant,
        new_clients: HandoffQueue::new(HANDOFF_QUEUE_CAPACITY),
        connection_limiter: AdmissionLimiter::new(max_connections),
        shutdown_result: None,
        rsa_key,
        public_key_der,
        http_client,
    };
    Ok(Server {
        current_tick: 0,
        last_tick_duration_nanos: 0,
        accept_phase: AcceptPhase::NotStarted,
        shared,
    })
}

/// Law: fixed-rate pacing — whenever a tick's work fits within the period
/// `1/tick_rate`, work plus the returned sleep is exactly the period, so
/// successive tick starts are one period apart up to scheduling jitter; a
/// tick that overruns gets no sleep at all, and the loop never runs extra
/// passes to catch up.
pub proof fn lemma_fixed_rate_pacing(tick_rate: i64, elapsed: u64)
    requires
        tick_rate > 0,
    ensures
        elapsed <= spec_tick_period_nanos(tick_rate) ==> elapsed + spec_sleep_nanos(
            tick_rate,
            elapsed,
        ) == spec_tick_period_nanos(tick_rate),
        elapsed > spec_tick_period_nanos(tick_rate) ==> spec_sleep_nanos(tick_rate, elapsed) == 0,
{
}

/// Law: once a shutdown request has gone through, the limiter admits nobody —
/// whatever state the cell was in — and the slot holds exactly the requested
/// outcome, which is what the loop's next check observes and returns.
pub proof fn lemma_shutdown_protocol(v: SharedServerView, res: ServerResult)
    ensures
        !acquire_allowed(spec_shutdown(v, res).limiter),
        spec_shutdown(v, res).shutdown_slot == Some(res),
{
}

} // verus!
