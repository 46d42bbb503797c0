//! The keys by which the proxy shows a miner who it is.
use vstd::prelude::*;

use codec_sv2::Responder;
use key_utils::{Secp256k1PublicKey, Secp256k1SecretKey};

verus! {

/// An error of the outside decoder of keys.
#[verifier::external_type_specification]
#[verifier::external_body]
pub struct ExKeyError(key_utils::Error);

/// The bytes of the public key that a text stands for, if it stands for one.
pub uninterp spec fn public_key_of(text: Seq<char>) -> Option<Seq<u8>>;

/// The bytes of the secret key that a text stands for, if it stands for one.
pub uninterp spec fn secret_key_of(text: Seq<char>) -> Option<Seq<u8>>;

/// Decodes a public key.
///
/// This is `key_utils`'s `Secp256k1PublicKey::from_str`, with the key taken as its bytes. The
/// contract gives what it makes of a text a name, and says that a key has 32 bytes.
#[verifier::external_body]
fn decode_public_key(text: &str) -> (key: Result<[u8; 32], key_utils::Error>)
    ensures
        match key {
            Ok(bytes) => public_key_of(text@) == Some(bytes@),
            Err(_) => public_key_of(text@) is None,
        },
{
    Ok(text.parse::<Secp256k1PublicKey>()?.into_bytes())
}

/// Decodes a secret key.
///
/// This is `key_utils`'s `Secp256k1SecretKey::from_str`, with the key taken as its bytes. The
/// contract gives what it makes of a text a name, and says that a key has 32 bytes.
#[verifier::external_body]
fn decode_secret_key(text: &str) -> (key: Result<[u8; 32], key_utils::Error>)
    ensures
        match key {
            Ok(bytes) => secret_key_of(text@) == Some(bytes@),
            Err(_) => secret_key_of(text@) is None,
        },
{
    Ok(text.parse::<Secp256k1SecretKey>()?.into_bytes())
}

/// The proxy's own keys.
#[derive(Debug, PartialEq)]
pub struct AuthorityKeys {
    pub public_key: [u8; 32],
    pub secret_key: [u8; 32],
}

/// Why there are no keys.
#[derive(Debug)]
pub enum KeyError {
    PublicKey(key_utils::Error),
    SecretKey(key_utils::Error),
}

/// Puts the keys together. The public key is looked at first.
pub fn join_keys(
    public_key: Result<[u8; 32], key_utils::Error>,
    secret_key: Result<[u8; 32], key_utils::Error>,
) -> (keys: Result<AuthorityKeys, KeyError>)
    ensures
        match (public_key, secret_key) {
            (Ok(public_key), Ok(secret_key)) => keys == Ok::<AuthorityKeys, KeyError>(
                AuthorityKeys { public_key, secret_key },
            ),
            (Err(e), _) => keys == Err::<AuthorityKeys, KeyError>(KeyError::PublicKey(e)),
            (_, Err(e)) => keys == Err::<AuthorityKeys, KeyError>(KeyError::SecretKey(e)),
        },
{
    match (public_key, secret_key) {
        (Ok(public_key), Ok(secret_key)) => Ok(AuthorityKeys { public_key, secret_key }),
        (Err(e), _) => Err(KeyError::PublicKey(e)),
        (_, Err(e)) => Err(KeyError::SecretKey(e)),
    }
}

/// Decodes the proxy's own keys from their texts.
pub fn authority_keys(public_key: &str, secret_key: &str) -> (keys: Result<AuthorityKeys, KeyError>)
    ensures
        match keys {
            Ok(keys) => {
                &&& public_key_of(public_key@) == Some(keys.public_key@)
                &&& secret_key_of(secret_key@) == Some(keys.secret_key@)
            },
            Err(KeyError::PublicKey(_)) => public_key_of(public_key@) is None,
            Err(KeyError::SecretKey(_)) => public_key_of(public_key@) is Some && secret_key_of(
                secret_key@,
            ) is None,
        },
{
    join_keys(decode_public_key(public_key), decode_secret_key(secret_key))
}

/// The proxy's side of a handshake, which the library only makes and hands out.
#[verifier::external_type_specification]
#[verifier::external_body]
pub struct ExResponder(Responder);

/// An error of the outside handshake.
#[verifier::external_type_specification]
#[verifier::external_body]
pub struct ExNoiseError(codec_sv2::noise_sv2::Error);

/// Whether the bytes of a public key and those of a secret key belong together.
pub uninterp spec fn key_pair(public_key: Seq<u8>, secret_key: Seq<u8>) -> bool;

/// The bytes of the public key under which a responder signs.
pub uninterp spec fn authority_of(responder: Responder) -> Seq<u8>;

/// How long a responder's certificate holds, in seconds.
pub uninterp spec fn certificate_seconds(responder: Responder) -> nat;

/// How long the proxy's certificate holds, in seconds.
pub const CERTIFICATE_VALIDITY: u64 = 360;

/// Makes the proxy's side of a handshake.
///
/// This is `codec_sv2`'s `Responder::from_authority_kp`. It succeeds if the two keys belong
/// together and fails otherwise. The responder signs under the public key that was handed in, with
/// a certificate that holds as long as was asked for, if the seconds fit in 32 bits. The keys that
/// it draws at random for the handshake itself are left unsaid.
#[verifier::external_body]
fn new_responder(public_key: &[u8; 32], secret_key: &[u8; 32], validity: u64) -> (responder: Result<
    Box<Responder>,
    codec_sv2::noise_sv2::Error,
>)
    ensures
        responder is Ok <==> key_pair(public_key@, secret_key@),
        responder matches Ok(made) ==> authority_of(*made) == public_key@,
        responder matches Ok(made) ==> validity <= u32::MAX ==> certificate_seconds(*made)
            == validity,
{
    Responder::from_authority_kp(public_key, secret_key, std::time::Duration::from_secs(validity))
}

/// Why the proxy cannot take part in a handshake.
#[derive(Debug)]
pub struct HandshakeError {
    pub cause: codec_sv2::noise_sv2::Error,
}

/// Makes the proxy's side of a handshake from its own keys.
pub fn handshake_responder(keys: &AuthorityKeys) -> (responder: Result<
    Box<Responder>,
    HandshakeError,
>)
    ensures
        responder is Ok <==> key_pair(keys.public_key@, keys.secret_key@),
        responder matches Ok(made) ==> authority_of(*made) == keys.public_key@,
        responder matches Ok(made) ==> certificate_seconds(*made) == CERTIFICATE_VALIDITY,
        responder matches Ok(made) ==> certificate_seconds(*made) == 360,
{
    match new_responder(&keys.public_key, &keys.secret_key, CERTIFICATE_VALIDITY) {
        Ok(responder) => Ok(responder),
        Err(cause) => Err(HandshakeError { cause }),
    }
}

} // verus!
