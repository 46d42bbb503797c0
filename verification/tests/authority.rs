use sv1_proxy::keys::{AuthorityKeys, KeyError, authority_keys, handshake_responder, join_keys};
use sv1_proxy::node::{DownstreamMiningNode, EitherFrame};

const SECRET: &str = "zmBEmPhqo3A92FkiLVvyCz6htc3e53ph3ZbD4ASqGaLjwnFLi";
const PUBLIC: &str = "9bDuixKmZqAJnrmP746n8zU1wyAQRrus7th9dxnkPg6RzQvCnan";
const OTHER_PUBLIC: &str = "9auqWEzQDVyd2oe1JVGFLMLHZtCo2FFqZwtKA5gd9xbuEu7PH72";

#[test]
fn decodes_the_keys() {
    let keys = authority_keys(PUBLIC, SECRET).unwrap();
    let secret = SECRET.parse::<key_utils::Secp256k1SecretKey>().unwrap();
    assert_eq!(keys.secret_key, secret.into_bytes());
    assert_eq!(keys.public_key, key_utils::Secp256k1PublicKey::from(secret).into_bytes());
    assert_ne!(keys.public_key, keys.secret_key);
}

#[test]
fn the_public_key_is_looked_at_first() {
    assert!(matches!(authority_keys("", ""), Err(KeyError::PublicKey(_))));
    assert!(matches!(authority_keys(SECRET, SECRET), Err(KeyError::PublicKey(_))));
    assert!(matches!(authority_keys(PUBLIC, ""), Err(KeyError::SecretKey(_))));
    assert!(matches!(authority_keys(PUBLIC, PUBLIC), Err(KeyError::SecretKey(_))));
}

#[test]
fn joins_two_keys() {
    let keys = join_keys(Ok([1; 32]), Ok([2; 32])).unwrap();
    assert_eq!(keys, AuthorityKeys { public_key: [1; 32], secret_key: [2; 32] });
    assert!(matches!(
        join_keys(Err(key_utils::Error::KeyLength), Err(key_utils::Error::KeyVersion(1))),
        Err(KeyError::PublicKey(key_utils::Error::KeyLength))
    ));
    assert!(matches!(
        join_keys(Ok([1; 32]), Err(key_utils::Error::KeyLength)),
        Err(KeyError::SecretKey(key_utils::Error::KeyLength))
    ));
}

#[test]
fn a_handshake_takes_keys_that_belong_together() {
    assert!(handshake_responder(&authority_keys(PUBLIC, SECRET).unwrap()).is_ok());
    assert!(handshake_responder(&authority_keys(OTHER_PUBLIC, SECRET).unwrap()).is_err());
    let broken = AuthorityKeys { public_key: [0; 32], secret_key: [0; 32] };
    assert!(handshake_responder(&broken).is_err());
}

#[test]
fn a_node_holds_both_ends() {
    let (frames, receiver) = async_channel::bounded::<EitherFrame>(1);
    let (sender, mut shares) = tokio::sync::mpsc::channel::<String>(1);
    let node = DownstreamMiningNode::new(receiver, sender, 9);
    assert_eq!(node.id, 9);
    assert_eq!(node.receiver.capacity(), frames.capacity());
    assert!(node.sender.try_send("share".to_string()).is_ok());
    assert_eq!(shares.try_recv(), Ok("share".to_string()));
}
