use app_lib::mapper::Mapper;
use app_lib::util::errors::ErrorKind;

#[test]
fn fresh_peer_id_text_reads_back() {
    let key = libp2p::identity::Keypair::generate_ed25519();
    let peer = key.public().to_peer_id();
    let parsed = Mapper {}.peer_id_from_string(peer.to_string()).unwrap();
    assert_eq!(parsed, peer);
}

#[test]
fn fixed_key_peer_id_text_reads_back() {
    let key = libp2p::identity::Keypair::ed25519_from_bytes([7u8; 32]).unwrap();
    let text = key.public().to_peer_id().to_base58();
    let parsed = Mapper {}.peer_id_from_string(text.clone()).unwrap();
    assert_eq!(parsed.to_base58(), text);
}

#[test]
fn invalid_peer_id_text_is_a_generic_error() {
    for text in ["", "not a peer id", "0OIl", "12D3KooW"] {
        let e = Mapper {}.peer_id_from_string(text.to_string()).unwrap_err();
        match e.kind {
            ErrorKind::Generic(m) => assert!(
                m.starts_with("base-58 decode error: ")
                    || (m.starts_with("unsupported multihash code '") && m.ends_with('\''))
                    || m == "invalid multihash",
                "unexpected text {m}"
            ),
            _ => panic!("expected a generic error"),
        }
    }
}

#[test]
fn base58_failure_text() {
    let e = Mapper {}.peer_id_from_string("0OIl".to_string()).unwrap_err();
    match e.kind {
        ErrorKind::Generic(m) => assert!(m.starts_with("base-58 decode error: ")),
        _ => panic!("expected a generic error"),
    }
}

#[test]
fn error_text_depends_on_the_text_alone() {
    for text in ["", "0OIl", "12D3KooW", "zzzz"] {
        let first = Mapper {}.peer_id_from_string(text.to_string()).unwrap_err();
        let second = Mapper {}.peer_id_from_string(text.to_string()).unwrap_err();
        match (first.kind, second.kind) {
            (ErrorKind::Generic(a), ErrorKind::Generic(b)) => assert_eq!(a, b),
            _ => panic!("expected generic errors"),
        }
    }
}
