use koda_relay::outbound::{outbound_step, OutboundAction, OutboundEvent};
use koda_relay::protocol::KodaSignal;
use koda_relay::registry::PeerRegistry;
use koda_relay::session::{Action, Claims, Inbound, Session};

const ALICE: u128 = 0xa11c_e000_0000_4000_8000_0000_0000_0001;
const BOB: u128 = 0xb0b0_0000_0000_4000_8000_0000_0000_0002;

fn claims(sub: u128) -> Claims {
    Claims { sub, exp: 4_102_444_800 }
}

fn sdp() -> serde_json::Value {
    serde_json::from_str(r#"{"sdp":"v=0 o=- 1 2 IN IP4 127.0.0.1"}"#).unwrap()
}

fn send(conn: u64, msg: KodaSignal) -> Vec<Action> {
    vec![Action::Send { conn, msg }]
}

fn error(conn: u64, label: &str) -> Vec<Action> {
    send(conn, KodaSignal::Error { message: label.to_string() })
}

#[test]
fn scenario_alice_signals_bob_then_bob_leaves() {
    let mut reg = PeerRegistry::new();
    let mut a = Session::new(1);
    let mut b = Session::new(2);

    let r = a.handle(&mut reg, Inbound::Verified(Some(claims(ALICE))));
    assert_eq!(r, send(1, KodaSignal::Authenticated { user_id: ALICE }));
    let r = b.handle(&mut reg, Inbound::Verified(Some(claims(BOB))));
    assert_eq!(r, send(2, KodaSignal::Authenticated { user_id: BOB }));

    let sig = KodaSignal::Signal { target_id: BOB, sender_id: None, data: sdp() };
    let r = a.handle(&mut reg, Inbound::Message(sig));
    assert_eq!(r, send(2, KodaSignal::Signal { target_id: BOB, sender_id: Some(ALICE), data: sdp() }));

    b.close(&mut reg);
    let sig = KodaSignal::Signal { target_id: BOB, sender_id: None, data: sdp() };
    let r = a.handle(&mut reg, Inbound::Message(sig));
    assert_eq!(r, send(1, KodaSignal::PeerOffline { peer_id: BOB }));
}

#[test]
fn identify_message_asks_for_token_check() {
    let mut reg = PeerRegistry::new();
    let mut a = Session::new(7);
    let r = a.handle(&mut reg, Inbound::Message(KodaSignal::Identify { token: "a.b.c".to_string() }));
    assert_eq!(r, vec![Action::VerifyToken { token: "a.b.c".to_string() }]);
    assert_eq!(a.user(), None);
    assert_eq!(reg.lookup(ALICE), None);
}

#[test]
fn valid_token_confirms_once_and_registers() {
    let mut reg = PeerRegistry::new();
    let mut a = Session::new(3);
    let r = a.identify(&mut reg, Some(claims(ALICE)));
    assert_eq!(r, send(3, KodaSignal::Authenticated { user_id: ALICE }));
    assert_eq!(a.user(), Some(ALICE));
    assert_eq!(a.conn(), 3);
    assert_eq!(reg.lookup(ALICE), Some(3));
}

#[test]
fn rejected_token_registers_nothing() {
    let mut reg = PeerRegistry::new();
    let mut a = Session::new(3);
    let r = a.handle(&mut reg, Inbound::Verified(None));
    assert!(r.is_empty());
    assert_eq!(a.user(), None);
    assert_eq!(reg.lookup(ALICE), None);
    let sig = KodaSignal::Signal { target_id: BOB, sender_id: None, data: sdp() };
    assert_eq!(a.handle(&mut reg, Inbound::Message(sig)), error(3, "IDENTIFY_REQUIRED"));
}

#[test]
fn unauthenticated_signal_needs_identify() {
    let mut reg = PeerRegistry::new();
    reg.register(BOB, 2);
    let mut a = Session::new(1);
    let sig = KodaSignal::Signal { target_id: BOB, sender_id: Some(ALICE), data: sdp() };
    let r = a.handle(&mut reg, Inbound::Message(sig));
    assert_eq!(r, error(1, "IDENTIFY_REQUIRED"));
}

#[test]
fn forged_sender_id_is_replaced() {
    let mut reg = PeerRegistry::new();
    let mut a = Session::new(1);
    let mut b = Session::new(2);
    a.identify(&mut reg, Some(claims(ALICE)));
    b.identify(&mut reg, Some(claims(BOB)));
    let sig = KodaSignal::Signal { target_id: BOB, sender_id: Some(BOB), data: sdp() };
    let r = a.handle(&mut reg, Inbound::Message(sig));
    assert_eq!(r, send(2, KodaSignal::Signal { target_id: BOB, sender_id: Some(ALICE), data: sdp() }));
}

#[test]
fn signal_to_unregistered_peer_is_offline() {
    let mut reg = PeerRegistry::new();
    let mut a = Session::new(1);
    a.identify(&mut reg, Some(claims(ALICE)));
    let r = a.signal(&reg, BOB, sdp());
    assert_eq!(r, send(1, KodaSignal::PeerOffline { peer_id: BOB }));
}

#[test]
fn reconnect_supersedes_and_stale_close_keeps_new_route() {
    let mut reg = PeerRegistry::new();
    let mut old_conn = Session::new(1);
    let mut new_conn = Session::new(2);
    old_conn.identify(&mut reg, Some(claims(ALICE)));
    new_conn.identify(&mut reg, Some(claims(ALICE)));
    assert_eq!(reg.lookup(ALICE), Some(2));
    assert_eq!(old_conn.user(), Some(ALICE));
    old_conn.close(&mut reg);
    assert_eq!(reg.lookup(ALICE), Some(2));
    new_conn.close(&mut reg);
    assert_eq!(reg.lookup(ALICE), None);
}

#[test]
fn registering_twice_keeps_one_entry() {
    let mut reg = PeerRegistry::new();
    reg.register(ALICE, 1);
    reg.register(ALICE, 2);
    assert_eq!(reg.lookup(ALICE), Some(2));
    assert!(!reg.unregister(ALICE, 1));
    assert_eq!(reg.lookup(ALICE), Some(2));
    assert!(reg.unregister(ALICE, 2));
    assert_eq!(reg.lookup(ALICE), None);
    assert!(!reg.unregister(ALICE, 2));
}

#[test]
fn lookup_distinguishes_identities() {
    let mut reg = PeerRegistry::new();
    reg.register(ALICE, 5);
    reg.register(BOB, 9);
    assert_eq!(reg.lookup(ALICE), Some(5));
    assert_eq!(reg.lookup(BOB), Some(9));
    assert_eq!(reg.lookup(0), None);
}

#[test]
fn reidentify_withdraws_earlier_identity() {
    let mut reg = PeerRegistry::new();
    let mut a = Session::new(4);
    a.identify(&mut reg, Some(claims(ALICE)));
    let r = a.identify(&mut reg, Some(claims(BOB)));
    assert_eq!(r, send(4, KodaSignal::Authenticated { user_id: BOB }));
    assert_eq!(reg.lookup(ALICE), None);
    assert_eq!(reg.lookup(BOB), Some(4));
}

#[test]
fn malformed_frame_gets_error() {
    let mut reg = PeerRegistry::new();
    let mut a = Session::new(6);
    assert_eq!(a.handle(&mut reg, Inbound::Malformed), error(6, "MALFORMATTED_JSON"));
    assert_eq!(a.user(), None);
}

#[test]
fn server_only_messages_are_ignored() {
    let mut reg = PeerRegistry::new();
    let mut a = Session::new(1);
    a.identify(&mut reg, Some(claims(ALICE)));
    let msgs = vec![
        KodaSignal::Authenticated { user_id: BOB },
        KodaSignal::PeerOffline { peer_id: BOB },
        KodaSignal::Error { message: "X".to_string() },
    ];
    for m in msgs {
        assert!(a.handle(&mut reg, Inbound::Message(m)).is_empty());
    }
    assert_eq!(a.user(), Some(ALICE));
    assert_eq!(reg.lookup(BOB), None);
}

#[test]
fn close_of_unauthenticated_session_changes_nothing() {
    let mut reg = PeerRegistry::new();
    reg.register(ALICE, 1);
    Session::new(1).close(&mut reg);
    assert_eq!(reg.lookup(ALICE), Some(1));
}

#[test]
fn outbound_duty_decisions() {
    let m = KodaSignal::PeerOffline { peer_id: BOB };
    assert_eq!(outbound_step(OutboundEvent::Queued(m)), OutboundAction::Write(KodaSignal::PeerOffline { peer_id: BOB }));
    assert_eq!(outbound_step(OutboundEvent::Tick), OutboundAction::Ping);
    assert_eq!(outbound_step(OutboundEvent::QueueClosed), OutboundAction::Stop);
    assert_eq!(outbound_step(OutboundEvent::WriteFailed), OutboundAction::Stop);
}
