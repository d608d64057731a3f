use polykit::identity::create_app_context;
use polykit::wire::{
    authenticate, emit, subscribe, Transport, SPARK_AUTH_REQUEST, SPARK_CHALLENGE,
    SPARK_CHALLENGE_REQUEST, SPARK_SESSION_GRANT,
};

#[test]
fn opcodes_are_the_documented_values() {
    assert_eq!(SPARK_CHALLENGE_REQUEST, 0x50);
    assert_eq!(SPARK_CHALLENGE, 0x51);
    assert_eq!(SPARK_AUTH_REQUEST, 0x52);
    assert_eq!(SPARK_SESSION_GRANT, 0x53);
}

#[test]
fn authenticate_yields_a_webtransport_session() {
    let ctx = create_app_context("a", "b", "c");
    let session = authenticate(&ctx, &[1, 2], Transport::Udp).unwrap();
    assert_eq!(session.session_token, vec![0u8; 32]);
    assert_eq!(session.transport, Transport::WebTransport);
    assert_eq!(session.edge_node, "");
}

#[test]
fn subscribe_and_emit_succeed() {
    let ctx = create_app_context("a", "b", "c");
    let session = authenticate(&ctx, &[], Transport::WebTransport).unwrap();
    let handle = subscribe(&session, "polylabs.data.snapshot").unwrap();
    assert_eq!(handle.id, 0);
    assert_eq!(emit(&session, "polylabs.data.delta", b"payload"), Ok(()));
}
