//! The binary messages of a miner that speaks the second version of the protocol.
use vstd::prelude::*;

use codec_sv2::Sv2Frame;
use roles_logic_sv2::mining_sv2::{
    Extranonce, OpenMiningChannelError, OpenStandardMiningChannelSuccess,
};
use roles_logic_sv2::parsers::{Mining, MiningDeviceMessages};

verus! {

/// An error of the outside parser.
#[verifier::external_type_specification]
#[verifier::external_body]
pub struct ExSv2Error(roles_logic_sv2::errors::Error);

/// The number that some bytes stand for, the least significant one first.
pub open spec fn number(bytes: Seq<u8>) -> nat
    decreases bytes.len(),
{
    if bytes.len() == 0 {
        0
    } else {
        bytes[0] as nat + 256 * number(bytes.drop_first())
    }
}

/// A number as so many bytes, the least significant one first.
pub open spec fn little_endian(value: nat, count: nat) -> Seq<u8>
    decreases count,
{
    if count == 0 {
        Seq::empty()
    } else {
        seq![(value % 256) as u8] + little_endian(value / 256, (count - 1) as nat)
    }
}

/// Bytes come back from the number that they stand for.
pub proof fn lemma_bytes_of_number(bytes: Seq<u8>)
    ensures
        little_endian(number(bytes), bytes.len()) == bytes,
    decreases bytes.len(),
{
    if bytes.len() > 0 {
        let rest = bytes.drop_first();
        let value = number(bytes);
        lemma_bytes_of_number(rest);
        assert(value % 256 == bytes[0] && value / 256 == number(rest));
        assert(seq![bytes[0]] + rest =~= bytes);
    } else {
        assert(little_endian(0, 0) =~= bytes);
    }
}

/// A field of a message.
#[derive(Clone, Copy, Debug, PartialEq, Eq, Structural)]
pub enum Field {
    /// So many bytes.
    Fixed(u8),
    /// Bytes, behind one byte that counts them, up to a limit.
    Short(u8),
    /// Bytes, behind two bytes that count them.
    Long,
    /// Numbers of four bytes, behind two bytes that count them.
    Numbers,
    /// Hashes of 32 bytes, behind one byte that counts them.
    Hashes,
    /// A number of four bytes or none, behind one byte that says which.
    Optional,
}

/// The kinds of messages that open a channel, and those that answer them.
pub const OPEN_STANDARD: u8 = 0x10;

pub const OPEN_STANDARD_SUCCESS: u8 = 0x11;

pub const OPEN_ERROR: u8 = 0x12;

pub const OPEN_EXTENDED: u8 = 0x13;

/// The kinds of the other messages that a miner is expected to send.
pub const UPDATE_CHANNEL: u8 = 0x16;

pub const SUBMIT_STANDARD: u8 = 0x1a;

pub const SUBMIT_EXTENDED: u8 = 0x1b;

pub const SET_CUSTOM_JOB: u8 = 0x22;

/// The fields of a message, in their order, or `None` for what is no mining message.
pub open spec fn layout(message_type: u8) -> Option<Seq<Field>> {
    let id = Field::Fixed(4);
    let hash = Field::Fixed(32);
    let text = Field::Short(255);
    match message_type {
        0x10 => Some(seq![id, text, id, hash]),
        0x11 => Some(seq![id, id, hash, Field::Short(32), id]),
        0x12 => Some(seq![id, text]),
        0x13 => Some(seq![id, text, id, hash, Field::Fixed(2)]),
        0x14 => Some(seq![id, id, hash, Field::Fixed(2), Field::Short(32)]),
        0x15 => Some(seq![id, id, Field::Optional, id, hash]),
        0x16 => Some(seq![id, id, hash]),
        0x17 => Some(seq![id, text]),
        0x18 => Some(seq![id, text]),
        0x19 => Some(seq![id, Field::Short(32)]),
        0x1a => Some(seq![id, id, id, id, id, id]),
        0x1b => Some(seq![id, id, id, id, id, id, Field::Short(32)]),
        0x1c => Some(seq![id, id, id, Field::Fixed(8)]),
        0x1d => Some(seq![id, id, text]),
        0x1f => Some(
            seq![
                id,
                id,
                Field::Optional,
                id,
                Field::Fixed(1),
                Field::Hashes,
                Field::Long,
                Field::Long,
            ],
        ),
        0x20 => Some(seq![id, id, hash, id, id]),
        0x21 => Some(seq![id, hash]),
        0x22 => Some(
            seq![
                id,
                id,
                text,
                id,
                hash,
                id,
                id,
                id,
                text,
                id,
                Field::Fixed(8),
                Field::Long,
                id,
                Field::Hashes,
                Field::Fixed(2),
            ],
        ),
        0x23 => Some(seq![id, id, id]),
        0x24 => Some(seq![id, id, text]),
        0x26 => Some(seq![id, Field::Numbers]),
        _ => None,
    }
}

/// How many bytes a field takes that starts at `start`, or `None` where that cannot be told.
pub open spec fn field_size(payload: Seq<u8>, start: int, field: Field) -> Option<int> {
    let left = payload.len() - start;
    let short_count = payload[start] as int;
    let long_count = payload[start] + 256 * payload[start + 1];
    match field {
        Field::Fixed(size) => Some(size as int),
        Field::Short(limit) => if left >= 1 && short_count <= limit {
            Some(1 + short_count)
        } else {
            None
        },
        Field::Long => if left >= 2 {
            Some(2 + long_count)
        } else {
            None
        },
        Field::Numbers => if left >= 2 {
            Some(2 + 4 * long_count)
        } else {
            None
        },
        Field::Hashes => if left >= 1 {
            Some(1 + 32 * short_count)
        } else {
            None
        },
        Field::Optional => if left >= 1 && short_count <= 1 {
            Some(1 + 4 * short_count)
        } else {
            None
        },
    }
}

/// All fields lie within the payload.
pub open spec fn complete(payload: Seq<u8>, start: int, fields: Seq<Field>) -> bool
    decreases fields.len(),
{
    fields.len() == 0 || match field_size(payload, start, fields[0]) {
        Some(size) => start + size <= payload.len() && complete(
            payload,
            start + size,
            fields.drop_first(),
        ),
        None => false,
    }
}

/// What a miner asks for or tells.
#[derive(Debug, PartialEq)]
pub enum MiningRequest {
    /// To open a channel of the simple kind.
    OpenStandard { request_id: u32, user_identity: Vec<u8> },
    /// To open a channel of the other kind.
    OpenExtended { request_id: u32, user_identity: Vec<u8> },
    UpdateChannel,
    SubmitSharesStandard,
    SubmitSharesExtended,
    SetCustomMiningJob,
    /// Any other mining message.
    Other,
}

/// The values of `MiningRequest`.
pub enum MiningRequestView {
    OpenStandard { request_id: nat, user_identity: Seq<u8> },
    OpenExtended { request_id: nat, user_identity: Seq<u8> },
    UpdateChannel,
    SubmitSharesStandard,
    SubmitSharesExtended,
    SetCustomMiningJob,
    Other,
}

impl View for MiningRequest {
    type V = MiningRequestView;

    open spec fn view(&self) -> MiningRequestView {
        match self {
            MiningRequest::OpenStandard { request_id, user_identity } =>
                MiningRequestView::OpenStandard {
                request_id: *request_id as nat,
                user_identity: user_identity@,
            },
            MiningRequest::OpenExtended { request_id, user_identity } =>
                MiningRequestView::OpenExtended {
                request_id: *request_id as nat,
                user_identity: user_identity@,
            },
            MiningRequest::UpdateChannel => MiningRequestView::UpdateChannel,
            MiningRequest::SubmitSharesStandard => MiningRequestView::SubmitSharesStandard,
            MiningRequest::SubmitSharesExtended => MiningRequestView::SubmitSharesExtended,
            MiningRequest::SetCustomMiningJob => MiningRequestView::SetCustomMiningJob,
            MiningRequest::Other => MiningRequestView::Other,
        }
    }
}

/// The request that a message is. It is one if all fields of a mining message lie within the
/// payload; what follows them does not count.
pub open spec fn request_of(message_type: u8, payload: Seq<u8>) -> Option<MiningRequestView> {
    let request_id = number(payload.take(4));
    let user_identity = payload.subrange(5, 5 + payload[4]);
    match layout(message_type) {
        Some(fields) => if complete(payload, 0, fields) {
            Some(
                if message_type == OPEN_STANDARD {
                    MiningRequestView::OpenStandard { request_id, user_identity }
                } else if message_type == OPEN_EXTENDED {
                    MiningRequestView::OpenExtended { request_id, user_identity }
                } else if message_type == UPDATE_CHANNEL {
                    MiningRequestView::UpdateChannel
                } else if message_type == SUBMIT_STANDARD {
                    MiningRequestView::SubmitSharesStandard
                } else if message_type == SUBMIT_EXTENDED {
                    MiningRequestView::SubmitSharesExtended
                } else if message_type == SET_CUSTOM_JOB {
                    MiningRequestView::SetCustomMiningJob
                } else {
                    MiningRequestView::Other
                },
            )
        } else {
            None
        },
        None => None,
    }
}

/// Parses a mining message.
///
/// This is `roles_logic_sv2`'s `Mining::try_from` on the kind of the message and its payload. It
/// succeeds if the kind is that of a mining message and every field lies within the payload, and
/// gives an error otherwise.
#[verifier::external_body]
fn parse_mining(message_type: u8, payload: &[u8]) -> (parsed: Result<
    MiningRequest,
    roles_logic_sv2::errors::Error,
>)
    ensures
        match parsed {
            Ok(request) => request_of(message_type, payload@) == Some(request@),
            Err(_) => request_of(message_type, payload@) is None,
        },
{
    let mut bytes: Vec<u8> = payload.to_vec();
    Ok(match Mining::try_from((message_type, bytes.as_mut_slice()))? {
        Mining::OpenStandardMiningChannel(m) => MiningRequest::OpenStandard {
            request_id: m.get_request_id_as_u32(), user_identity: m.user_identity.to_vec() },
        Mining::OpenExtendedMiningChannel(m) => MiningRequest::OpenExtended {
            request_id: m.get_request_id_as_u32(), user_identity: m.user_identity.to_vec() },
        Mining::UpdateChannel(_) => MiningRequest::UpdateChannel,
        Mining::SubmitSharesStandard(_) => MiningRequest::SubmitSharesStandard,
        Mining::SubmitSharesExtended(_) => MiningRequest::SubmitSharesExtended,
        Mining::SetCustomMiningJob(_) => MiningRequest::SetCustomMiningJob,
        _ => MiningRequest::Other,
    })
}

/// What is wrong with a message that is no request.
#[derive(Debug)]
pub struct UnreadableMessage {
    pub cause: roles_logic_sv2::errors::Error,
}

/// Reads the request that a message is.
pub fn read_request(message_type: u8, payload: &[u8]) -> (read: Result<
    MiningRequest,
    UnreadableMessage,
>)
    ensures
        match read {
            Ok(request) => request_of(message_type, payload@) == Some(request@),
            Err(_) => request_of(message_type, payload@) is None,
        },
{
    match parse_mining(message_type, payload) {
        Ok(request) => Ok(request),
        Err(cause) => Err(UnreadableMessage { cause }),
    }
}

/// A message with its header: no extension, the kind, and the length of what follows.
pub open spec fn frame_of(message_type: u8, payload: Seq<u8>) -> Seq<u8> {
    seq![0u8, 0u8, message_type] + little_endian(payload.len(), 3) + payload
}

/// The payload of the message that a channel is open.
pub open spec fn channel_opened(
    request_id: nat,
    channel_id: nat,
    target: Seq<u8>,
    extranonce_prefix: Seq<u8>,
    group_channel_id: nat,
) -> Seq<u8> {
    little_endian(request_id, 4) + little_endian(channel_id, 4) + target + little_endian(
        extranonce_prefix.len(),
        1,
    ) + extranonce_prefix + little_endian(group_channel_id, 4)
}

/// The bytes of the word by which an unknown user is turned away.
pub open spec fn unknown_user() -> Seq<u8> {
    seq![0x75, 0x6e, 0x6b, 0x6e, 0x6f, 0x77, 0x6e, 0x2d, 0x75, 0x73, 0x65, 0x72]
}

/// The payload of the message that the user is unknown.
pub open spec fn user_refused(request_id: nat) -> Seq<u8> {
    little_endian(request_id, 4) + little_endian(unknown_user().len(), 1) + unknown_user()
}

/// Writes the message that a channel is open.
///
/// This is `roles_logic_sv2`'s `OpenStandardMiningChannelSuccess`, made into a frame and
/// serialized by `codec_sv2`'s `Sv2Frame`: a header of six bytes, and then the fields in their
/// order, numbers with the least significant byte first and the prefix behind its length.
#[verifier::external_body]
pub(crate) fn write_channel_opened(
    request_id: u32,
    channel_id: u32,
    target: Vec<u8>,
    extranonce_prefix: Vec<u8>,
    group_channel_id: u32,
) -> (bytes: Vec<u8>)
    requires
        target@.len() == 32,
        extranonce_prefix@.len() <= 32,
    ensures
        bytes@ == frame_of(
            OPEN_STANDARD_SUCCESS,
            channel_opened(
                request_id as nat,
                channel_id as nat,
                target@,
                extranonce_prefix@,
                group_channel_id as nat,
            ),
        ),
{
    let success = OpenStandardMiningChannelSuccess {
        request_id: request_id.into(),
        channel_id,
        target: target.try_into().unwrap(),
        extranonce_prefix: extranonce_prefix.try_into().unwrap(),
        group_channel_id,
    };
    let message = MiningDeviceMessages::Mining(Mining::OpenStandardMiningChannelSuccess(success));
    let frame: Sv2Frame<MiningDeviceMessages, Vec<u8>> = message.try_into().unwrap();
    let mut bytes: Vec<u8> = vec![0; frame.encoded_length()];
    frame.serialize(&mut bytes).unwrap();
    bytes
}

/// Writes the message that the user is unknown.
///
/// This is `roles_logic_sv2`'s `OpenMiningChannelError::new_unknown_user`, made into a frame and
/// serialized by `codec_sv2`'s `Sv2Frame`: a header of six bytes, the number of the request and
/// the word `unknown-user` behind its length.
#[verifier::external_body]
pub(crate) fn write_user_refused(request_id: u32) -> (bytes: Vec<u8>)
    ensures
        bytes@ == frame_of(OPEN_ERROR, user_refused(request_id as nat)),
{
    let error = OpenMiningChannelError::new_unknown_user(request_id);
    let message = MiningDeviceMessages::Mining(Mining::OpenMiningChannelError(error));
    let frame: Sv2Frame<MiningDeviceMessages, Vec<u8>> = message.try_into().unwrap();
    let mut bytes: Vec<u8> = vec![0; frame.encoded_length()];
    frame.serialize(&mut bytes).unwrap();
    bytes
}

/// A fresh extranonce.
///
/// This is `roles_logic_sv2`'s `Extranonce::new`: so many zeros, but never more than 32.
#[verifier::external_body]
pub(crate) fn new_extranonce(length: usize) -> (extranonce: Option<Vec<u8>>)
    ensures
        match extranonce {
            Some(bytes) => length <= 32 && bytes@ == Seq::new(length as nat, |i: int| 0u8),
            None => length > 32,
        },
{
    Some(Extranonce::new(length)?.into())
}

/// Four bytes stand for the number that has the first one as its lowest.
pub proof fn law_numbers_are_little_endian(bytes: Seq<u8>, value: u32)
    requires
        bytes.len() == 4,
    ensures
        number(bytes) == bytes[0] + 256 * bytes[1] + 65536 * bytes[2] + 16777216 * bytes[3],
        number(little_endian(value as nat, 4)) == value,
        little_endian(value as nat, 4).len() == 4,
{
    reveal_with_fuel(number, 5);
    reveal_with_fuel(little_endian, 5);
    assert(bytes.drop_first()[0] == bytes[1]);
    assert(bytes.drop_first().drop_first()[0] == bytes[2]);
    assert(bytes.drop_first().drop_first().drop_first()[0] == bytes[3]);
    let low = value as nat;
    let written = little_endian(low, 4);
    assert(written =~= seq![
        (low % 256) as u8,
        (low / 256 % 256) as u8,
        (low / 256 / 256 % 256) as u8,
        (low / 256 / 256 / 256 % 256) as u8,
    ]);
    assert(written.drop_first()[0] == written[1]);
    assert(written.drop_first().drop_first()[0] == written[2]);
    assert(written.drop_first().drop_first().drop_first()[0] == written[3]);
}

/// A message of the kind 0x10 asks for a standard channel, and one of the kind 0x13 for an extended
/// one, if all of it is there: the number, the user behind a byte with its length, and 36 bytes
/// more, or 38. The number is that of the first four bytes, and the user is taken as it stands.
pub proof fn law_open_requests_are_read(payload: Seq<u8>)
    ensures
        request_of(0x10, payload) is Some <==> payload.len() >= 5 && payload.len() >= 41
            + payload[4],
        request_of(0x13, payload) is Some <==> payload.len() >= 5 && payload.len() >= 43
            + payload[4],
        request_of(0x10, payload) matches Some(request) ==> request == (
        MiningRequestView::OpenStandard {
            request_id: (payload[0] + 256 * payload[1] + 65536 * payload[2] + 16777216
                * payload[3]) as nat,
            user_identity: payload.subrange(5, 5 + payload[4]),
        }),
        request_of(0x13, payload) matches Some(request) ==> request == (
        MiningRequestView::OpenExtended {
            request_id: (payload[0] + 256 * payload[1] + 65536 * payload[2] + 16777216
                * payload[3]) as nat,
            user_identity: payload.subrange(5, 5 + payload[4]),
        }),
{
    reveal_with_fuel(complete, 6);
    let standard = layout(0x10)->0;
    let extended = layout(0x13)->0;
    assert(standard.drop_first()[0] == standard[1]);
    assert(standard.drop_first().drop_first()[0] == standard[2]);
    assert(standard.drop_first().drop_first().drop_first()[0] == standard[3]);
    assert(extended.drop_first()[0] == extended[1]);
    assert(extended.drop_first().drop_first()[0] == extended[2]);
    assert(extended.drop_first().drop_first().drop_first()[0] == extended[3]);
    assert(extended.drop_first().drop_first().drop_first().drop_first()[0] == extended[4]);
    if payload.len() >= 4 {
        law_numbers_are_little_endian(payload.take(4), 0);
    }
}

/// No message of another kind asks for a channel.
pub proof fn law_only_two_kinds_open_channels(message_type: u8, payload: Seq<u8>)
    ensures
        request_of(message_type, payload) matches Some(request) ==> {
            &&& request is OpenStandard <==> message_type == 0x10
            &&& request is OpenExtended <==> message_type == 0x13
            &&& request is UpdateChannel <==> message_type == 0x16
            &&& request is SubmitSharesStandard <==> message_type == 0x1a
            &&& request is SubmitSharesExtended <==> message_type == 0x1b
            &&& request is SetCustomMiningJob <==> message_type == 0x22
        },
        message_type < 0x10 || message_type > 0x26 || message_type == 0x1e || message_type == 0x25
            ==> request_of(message_type, payload) is None,
{
}

/// The word by which a user is turned away is `unknown-user`, letter by letter.
pub proof fn law_unknown_user_is_spelled(i: int)
    ensures
        unknown_user().len() == "unknown-user"@.len(),
        0 <= i < unknown_user().len() ==> unknown_user()[i] == "unknown-user"@[i] as u8,
{
    reveal_strlit("unknown-user");
}

} // verus!
