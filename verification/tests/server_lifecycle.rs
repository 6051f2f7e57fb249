use valence_core::registry::{Biome, BiomeId, Dimension, DimensionId};
use valence_core::server::{
    new_server, tick_period_nanos, Config, Server, ServerError, StartError,
    HANDOFF_QUEUE_CAPACITY,
};
use valence_core::types::{
    ConnectionMode, IpAddress, NewClientInfo, NewClientMessage, PlayPacketReceiver,
    PlayPacketSender, SocketAddress,
};

fn test_config() -> Config {
    Config {
        address: SocketAddress { ip: IpAddress::V4(127, 0, 0, 1), port: 25565 },
        tick_rate: 20,
        connection_mode: ConnectionMode::Offline,
        compression_threshold: Some(256),
        max_connections: 2,
        incoming_capacity: 16,
        outgoing_capacity: 16,
        dimensions: vec![Dimension { element: b"overworld".to_vec() }],
        biomes: vec![Biome { element: b"plains".to_vec() }],
    }
}

fn started_server() -> Server {
    new_server(test_config()).expect("a valid configuration must start")
}

#[test]
fn start_rejects_zero_tick_rate() {
    let mut cfg = test_config();
    cfg.tick_rate = 0;
    assert_eq!(new_server(cfg).err(), Some(StartError::InvalidTickRate));
}

#[test]
fn start_rejects_negative_tick_rate() {
    let mut cfg = test_config();
    cfg.tick_rate = -5;
    assert_eq!(new_server(cfg).err(), Some(StartError::InvalidTickRate));
}

#[test]
fn start_rejects_zero_incoming_capacity() {
    let mut cfg = test_config();
    cfg.incoming_capacity = 0;
    assert_eq!(new_server(cfg).err(), Some(StartError::InvalidIncomingCapacity));
}

#[test]
fn start_rejects_zero_outgoing_capacity() {
    let mut cfg = test_config();
    cfg.outgoing_capacity = 0;
    assert_eq!(new_server(cfg).err(), Some(StartError::InvalidOutgoingCapacity));
}

#[test]
fn fresh_server_state() {
    let server = started_server();
    assert_eq!(server.current_tick(), 0);
    assert_eq!(server.last_tick_duration(), 0);
    let shared = server.shared();
    assert_eq!(shared.address(), SocketAddress { ip: IpAddress::V4(127, 0, 0, 1), port: 25565 });
    assert_eq!(shared.tick_rate(), 20);
    assert_eq!(shared.connection_mode(), ConnectionMode::Offline);
    assert_eq!(shared.compression_threshold(), Some(256));
    assert_eq!(shared.max_connections(), 2);
    assert_eq!(shared.incoming_capacity(), 16);
    assert_eq!(shared.outgoing_capacity(), 16);
    assert_eq!(shared.dimensions().len(), 1);
    assert_eq!(shared.dimension(DimensionId(0)).element, b"overworld".to_vec());
    assert_eq!(shared.biomes().len(), 1);
    assert_eq!(shared.biome(BiomeId(0)).element, b"plains".to_vec());
    let codec = shared.registry_codec();
    assert_eq!(codec.dimension_types.len(), 1);
    assert_eq!(codec.dimension_types[0].id, 0);
    assert_eq!(codec.biomes.len(), 1);
    assert!(codec.chat_types.is_empty());
}

#[test]
fn public_key_der_is_an_encoding() {
    let server = started_server();
    let der = server.shared().public_key_der();
    // A DER-encoded public key is a SEQUENCE (tag 0x30) well longer than the
    // bare modulus of the configured key size.
    assert!(der.len() > 100);
    assert_eq!(der[0], 0x30);
}

#[test]
fn pacing_formula() {
    assert_eq!(tick_period_nanos(20), 50_000_000);
    assert_eq!(tick_period_nanos(1), 1_000_000_000);

    let mut server = started_server();
    let sleep = server.finish_tick(10_000_000);
    assert_eq!(sleep, 40_000_000, "work plus sleep is exactly one period");
    assert_eq!(server.current_tick(), 1);
    assert_eq!(server.last_tick_duration(), 10_000_000);

    // An overrunning tick gets no sleep and no catch-up pass.
    let sleep = server.finish_tick(75_000_000);
    assert_eq!(sleep, 0);
    assert_eq!(server.current_tick(), 2);
    assert_eq!(server.last_tick_duration(), 75_000_000);
}

fn message_for(server: &mut Server, name: &str, connection: u64) -> NewClientMessage {
    let permit = server.try_acquire_permit().expect("a slot must be free");
    NewClientMessage {
        info: NewClientInfo {
            username: name.to_owned(),
            uuid: uuid::Uuid::from_u128(connection as u128),
            ip: IpAddress::V4(10, 0, 0, 1),
            textures: None,
        },
        send: PlayPacketSender { connection },
        recv: PlayPacketReceiver { connection },
        permit,
    }
}

#[test]
fn scenario_first_tick_starts_accepting() {
    // tick_rate=20, max_connections=2, capacities=16: the accept subsystem
    // becomes reachable only after tick 0 completes, and exactly once.
    let mut server = started_server();
    assert!(server.check_shutdown().is_none());
    assert!(server.intake().is_empty());
    assert!(server.take_accept_start(), "accept starts after the first simulation pass");
    let sleep = server.finish_tick(1_000_000);
    assert_eq!(sleep, 49_000_000);
    assert_eq!(server.current_tick(), 1);

    assert!(server.check_shutdown().is_none());
    assert!(!server.take_accept_start(), "the deferred start fires only once");
}

#[test]
fn scenario_admission_bounds_connections() {
    // Two slots configured: the first two connections are admitted and
    // produce two entities on the next tick; the third admission fails.
    let mut server = started_server();
    let m1 = message_for(&mut server, "alice", 1);
    let m2 = message_for(&mut server, "bob", 2);
    assert!(server.try_acquire_permit().is_none(), "the third admission attempt fails");
    assert!(server.send_new_client(m1).is_none());
    assert!(server.send_new_client(m2).is_none());

    let msgs = server.intake();
    assert_eq!(msgs.len(), 2, "two entities spawn on the next tick");
    assert_eq!(msgs[0].info.username, "alice");
    assert_eq!(msgs[1].info.username, "bob");

    // Destroying an entity releases its permit and frees exactly one slot.
    let first = msgs.into_iter().next().unwrap();
    server.release_permit(first.permit);
    assert!(server.try_acquire_permit().is_some());
}

#[test]
fn scenario_shutdown_with_failure() {
    // A failure written to the slot surfaces as the exact result of the
    // next check, and no tick runs after it is observed.
    let mut server = started_server();
    assert!(server.check_shutdown().is_none());
    server.shutdown(Err(ServerError { message: "disk on fire".to_owned() }));
    assert!(
        server.try_acquire_permit().is_none(),
        "no admission once a shutdown decision is visible"
    );
    let outcome = server.check_shutdown().expect("the next iteration observes the request");
    let err = outcome.expect_err("the recorded failure is returned");
    assert_eq!(err.message, "disk on fire");
    // The slot was read-and-cleared in one step.
    assert!(server.check_shutdown().is_none());
}

#[test]
fn shutdown_last_writer_wins() {
    let mut server = started_server();
    server.shutdown(Err(ServerError { message: "first".to_owned() }));
    server.shutdown(Ok(()));
    let outcome = server.check_shutdown().expect("slot holds the latest request");
    assert!(outcome.is_ok(), "only the most recently written result is honored");
}

#[test]
fn handoff_capacity_is_fixed() {
    let server = started_server();
    assert_eq!(HANDOFF_QUEUE_CAPACITY, 64);
    // The mailbox bound is independent of the admission capacity.
    assert_ne!(HANDOFF_QUEUE_CAPACITY, server.shared().max_connections());
}

#[test]
fn shutdown_state_accessors() {
    let mut server = started_server();
    assert!(!server.shared().admission_closed());
    assert!(!server.shared().shutdown_requested());
    server.shutdown(Ok(()));
    assert!(server.shared().admission_closed());
    assert!(server.shared().shutdown_requested());
    assert!(server.check_shutdown().is_some());
    assert!(!server.shared().shutdown_requested(), "the slot was cleared by the check");
    assert!(server.shared().admission_closed(), "the limiter stays closed");
}
