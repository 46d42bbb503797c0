//! A miner that speaks the second version of the protocol.
use vstd::prelude::*;
use vstd::slice::slice_to_vec;
use vstd::utf8::encode_utf8;

use crate::upstream::text_view;
use crate::wire::{
    MiningRequest, MiningRequestView, OPEN_ERROR, OPEN_EXTENDED, OPEN_STANDARD,
    OPEN_STANDARD_SUCCESS, channel_opened, complete, frame_of, law_numbers_are_little_endian,
    layout, lemma_bytes_of_number, little_endian, new_extranonce, number, request_of, unknown_user,
    user_refused, write_channel_opened, write_user_refused,
};

verus! {

/// The channel that every miner gets, and its group.
pub const CHANNEL_ID: u32 = 0;

pub const GROUP_CHANNEL_ID: u32 = 0;

/// The bytes of the extranonce that every miner gets.
pub const EXTRANONCE_PREFIX_BYTES: usize = 10;

/// The bytes of a target.
pub const TARGET_BYTES: usize = 32;

/// What a miner is answered.
#[derive(Debug, PartialEq)]
pub enum ChannelReply {
    /// The channel is open.
    Opened {
        request_id: u32,
        channel_id: u32,
        target: Vec<u8>,
        extranonce_prefix: Vec<u8>,
        group_channel_id: u32,
    },
    /// The user is unknown.
    Refused { request_id: u32 },
}

/// The values of `ChannelReply`.
pub enum ChannelReplyView {
    Opened {
        request_id: nat,
        channel_id: nat,
        target: Seq<u8>,
        extranonce_prefix: Seq<u8>,
        group_channel_id: nat,
    },
    Refused { request_id: nat },
}

impl View for ChannelReply {
    type V = ChannelReplyView;

    open spec fn view(&self) -> ChannelReplyView {
        match self {
            ChannelReply::Opened {
                request_id,
                channel_id,
                target,
                extranonce_prefix,
                group_channel_id,
            } => ChannelReplyView::Opened {
                request_id: *request_id as nat,
                channel_id: *channel_id as nat,
                target: target@,
                extranonce_prefix: extranonce_prefix@,
                group_channel_id: *group_channel_id as nat,
            },
            ChannelReply::Refused { request_id } => ChannelReplyView::Refused {
                request_id: *request_id as nat,
            },
        }
    }
}

/// The target for a new channel: the bytes of the newest job's line, if they are as many as a
/// target has.
pub open spec fn target_of(last_notify: Option<Seq<char>>) -> Option<Seq<u8>> {
    match last_notify {
        Some(text) => if encode_utf8(text).len() == TARGET_BYTES {
            Some(encode_utf8(text))
        } else {
            None
        },
        None => None,
    }
}

/// What is answered to a request: a standard channel is opened, an extended one is not, and
/// nothing else gets an answer.
pub open spec fn reply_to(request: MiningRequestView, target: Seq<u8>) -> Option<
    ChannelReplyView,
> {
    match request {
        MiningRequestView::OpenStandard { request_id, .. } => Some(
            ChannelReplyView::Opened {
                request_id,
                channel_id: CHANNEL_ID as nat,
                target,
                extranonce_prefix: Seq::new(EXTRANONCE_PREFIX_BYTES as nat, |i: int| 0u8),
                group_channel_id: GROUP_CHANNEL_ID as nat,
            },
        ),
        MiningRequestView::OpenExtended { request_id, .. } => Some(
            ChannelReplyView::Refused { request_id },
        ),
        _ => None,
    }
}

/// A reply has a target of the right size and an extranonce that fits.
pub open spec fn well_formed(reply: ChannelReplyView) -> bool {
    match reply {
        ChannelReplyView::Opened { target, extranonce_prefix, .. } => target.len() == TARGET_BYTES
            && extranonce_prefix.len() <= 32,
        ChannelReplyView::Refused { .. } => true,
    }
}

/// The payload of a reply.
pub open spec fn reply_payload(reply: ChannelReplyView) -> Seq<u8> {
    match reply {
        ChannelReplyView::Opened {
            request_id,
            channel_id,
            target,
            extranonce_prefix,
            group_channel_id,
        } => channel_opened(request_id, channel_id, target, extranonce_prefix, group_channel_id),
        ChannelReplyView::Refused { request_id } => user_refused(request_id),
    }
}

/// The kind of message that a reply is.
pub open spec fn reply_type(reply: ChannelReplyView) -> u8 {
    match reply {
        ChannelReplyView::Opened { .. } => OPEN_STANDARD_SUCCESS,
        ChannelReplyView::Refused { .. } => OPEN_ERROR,
    }
}

/// Finds the target for a new channel.
pub fn channel_target(last_notify: &Option<String>) -> (target: Option<Vec<u8>>)
    ensures
        match target {
            Some(bytes) => target_of(text_view(*last_notify)) == Some(bytes@),
            None => target_of(text_view(*last_notify)) is None,
        },
{
    match last_notify {
        Some(text) => {
            let bytes: Vec<u8> = slice_to_vec(text.as_str().as_bytes());
            if bytes.len() == TARGET_BYTES {
                Some(bytes)
            } else {
                None
            }
        },
        None => None,
    }
}

/// Decides what is answered to a request.
pub fn channel_reply(request: &MiningRequest, last_notify: &Option<String>) -> (reply: Option<
    ChannelReply,
>)
    requires
        request is OpenStandard ==> target_of(text_view(*last_notify)) is Some,
    ensures
        match reply {
            Some(reply) => {
                &&& reply_to(request@, target_of(text_view(*last_notify))->0) == Some(reply@)
                &&& well_formed(reply@)
            },
            None => reply_to(request@, target_of(text_view(*last_notify))->0) is None,
        },
{
    match request {
        MiningRequest::OpenStandard { request_id, .. } => {
            let target: Vec<u8> = channel_target(last_notify).unwrap();
            let extranonce_prefix: Vec<u8> = new_extranonce(EXTRANONCE_PREFIX_BYTES).unwrap();
            Some(
                ChannelReply::Opened {
                    request_id: *request_id,
                    channel_id: CHANNEL_ID,
                    target,
                    extranonce_prefix,
                    group_channel_id: GROUP_CHANNEL_ID,
                },
            )
        },
        MiningRequest::OpenExtended { request_id, .. } => Some(
            ChannelReply::Refused { request_id: *request_id },
        ),
        _ => None,
    }
}

/// Writes a reply.
pub fn write_reply(reply: ChannelReply) -> (bytes: Vec<u8>)
    requires
        well_formed(reply@),
    ensures
        bytes@ == frame_of(reply_type(reply@), reply_payload(reply@)),
{
    match reply {
        ChannelReply::Opened {
            request_id,
            channel_id,
            target,
            extranonce_prefix,
            group_channel_id,
        } => write_channel_opened(
            request_id,
            channel_id,
            target,
            extranonce_prefix,
            group_channel_id,
        ),
        ChannelReply::Refused { request_id } => write_user_refused(request_id),
    }
}

/// A request gets an answer if it asks to open a channel, and no other request gets one.
pub proof fn law_only_open_requests_are_answered(request: MiningRequestView, target: Seq<u8>)
    ensures
        reply_to(request, target) is Some <==> request is OpenStandard || request is OpenExtended,
        reply_to(request, target) matches Some(reply) ==> (reply is Opened
            <==> request is OpenStandard),
{
}

/// A message of a kind that opens no channel gets no answer, whatever its payload holds, and
/// neither does one that cannot be read.
pub proof fn law_other_messages_get_no_answer(message_type: u8, payload: Seq<u8>, target: Seq<u8>)
    requires
        message_type != OPEN_STANDARD && message_type != OPEN_EXTENDED || request_of(
            message_type,
            payload,
        ) is None,
    ensures
        request_of(message_type, payload) matches Some(request) ==> reply_to(request, target)
            is None,
{
}

/// A reply starts with the number of the request that it answers, in the very bytes that the miner
/// sent.
pub proof fn law_reply_names_its_request(
    message_type: u8,
    payload: Seq<u8>,
    request: MiningRequestView,
    reply: ChannelReplyView,
    target: Seq<u8>,
)
    requires
        request_of(message_type, payload) == Some(request),
        reply_to(request, target) == Some(reply),
    ensures
        reply_payload(reply).take(4) == payload.take(4),
{
    assert(payload.len() >= 4);
    lemma_bytes_of_number(payload.take(4));
    lemma_little_endian_length(number(payload.take(4)), 4);
    assert(reply_payload(reply).take(4) =~= payload.take(4));
}

proof fn lemma_little_endian_length(value: nat, count: nat)
    ensures
        little_endian(value, count).len() == count,
    decreases count,
{
    if count > 0 {
        lemma_little_endian_length(value / 256, (count - 1) as nat);
    }
}

/// A reply is a complete mining message, so that its receiver can read it.
pub proof fn law_reply_is_readable(reply: ChannelReplyView)
    requires
        well_formed(reply),
    ensures
        request_of(reply_type(reply), reply_payload(reply)) is Some,
{
    reveal_with_fuel(complete, 6);
    let payload = reply_payload(reply);
    match reply {
        ChannelReplyView::Opened {
            request_id,
            channel_id,
            target,
            extranonce_prefix,
            group_channel_id,
        } => {
            lemma_little_endian_length(request_id, 4);
            lemma_little_endian_length(channel_id, 4);
            lemma_little_endian_length(group_channel_id, 4);
            assert(little_endian(extranonce_prefix.len(), 1) =~= seq![
                extranonce_prefix.len() as u8,
            ]) by {
                reveal_with_fuel(little_endian, 2);
            }
            assert(payload[40] == extranonce_prefix.len());
            assert(payload.len() == 45 + extranonce_prefix.len());
        },
        ChannelReplyView::Refused { request_id } => {
            lemma_little_endian_length(request_id, 4);
            assert(little_endian(unknown_user().len(), 1) =~= seq![12u8]) by {
                reveal_with_fuel(little_endian, 2);
            }
            assert(payload[4] == 12);
            assert(payload.len() == 17);
        },
    }
    assert(complete(payload, 0, layout(reply_type(reply))->0));
}

/// The header of a reply tells its kind and how many bytes follow.
pub proof fn law_header_tells_length(reply: ChannelReplyView)
    requires
        well_formed(reply),
    ensures
        ({
            let bytes = frame_of(reply_type(reply), reply_payload(reply));
            &&& bytes.len() >= 6
            &&& bytes[2] == reply_type(reply)
            &&& number(bytes.subrange(3, 6)) == bytes.len() - 6
            &&& bytes.skip(6) == reply_payload(reply)
        }),
{
    let payload = reply_payload(reply);
    let bytes = frame_of(reply_type(reply), payload);
    let length = payload.len();
    assert(length < 256) by {
        match reply {
            ChannelReplyView::Opened {
                request_id,
                channel_id,
                target,
                extranonce_prefix,
                group_channel_id,
            } => {
                lemma_little_endian_length(request_id, 4);
                lemma_little_endian_length(channel_id, 4);
                lemma_little_endian_length(group_channel_id, 4);
                lemma_little_endian_length(extranonce_prefix.len(), 1);
            },
            ChannelReplyView::Refused { request_id } => {
                lemma_little_endian_length(request_id, 4);
                lemma_little_endian_length(unknown_user().len(), 1);
            },
        }
    }
    assert(little_endian(length, 3) =~= seq![length as u8, 0u8, 0u8]) by {
        reveal_with_fuel(little_endian, 4);
    }
    assert(bytes.subrange(3, 6) =~= seq![length as u8, 0u8, 0u8]);
    assert(number(seq![length as u8, 0u8, 0u8]) == length) by {
        reveal_with_fuel(number, 4);
    }
    assert(bytes.skip(6) =~= payload);
}

/// A target is the bytes of the newest job's line in UTF-8, if they are 32.
pub proof fn law_target_is_newest_job(text: Seq<char>)
    ensures
        target_of(None) is None,
        encode_utf8(text).len() == 32 ==> target_of(Some(text)) == Some(encode_utf8(text)),
        encode_utf8(text).len() != 32 ==> target_of(Some(text)) is None,
{
}

/// A miner that asks for a standard channel gets the channel zero in the group zero, the target and
/// ten zeros as its extranonce, under the number of its request. One that asks for an extended
/// channel is refused under the number of its request.
pub proof fn law_channels_are_answered(
    request_id: nat,
    user_identity: Seq<u8>,
    target: Seq<u8>,
    i: int,
)
    ensures
        ({
            let opened = reply_to(
                MiningRequestView::OpenStandard { request_id, user_identity },
                target,
            );
            &&& opened is Some
            &&& opened->0 is Opened
            &&& opened->0->Opened_request_id == request_id
            &&& opened->0->Opened_channel_id == 0
            &&& opened->0->Opened_target == target
            &&& opened->0->Opened_extranonce_prefix.len() == 10
            &&& 0 <= i < 10 ==> opened->0->Opened_extranonce_prefix[i] == 0
            &&& opened->0->Opened_group_channel_id == 0
        }),
        reply_to(MiningRequestView::OpenExtended { request_id, user_identity }, target) == Some(
            ChannelReplyView::Refused { request_id },
        ),
{
}

/// The bytes that open a channel: a header with the kind 0x11 and the length 55, the number of the
/// request as the miner sent it, four zeros for the channel, the target, the ten zeros of the
/// extranonce behind their count, and four zeros for the group.
pub proof fn law_opened_bytes(payload: Seq<u8>, target: Seq<u8>, reply: ChannelReplyView, i: int)
    requires
        request_of(0x10, payload) is Some,
        reply_to(request_of(0x10, payload)->0, target) == Some(reply),
        target.len() == 32,
    ensures
        ({
            let bytes = frame_of(reply_type(reply), reply_payload(reply));
            &&& bytes.len() == 61
            &&& bytes.take(6) == seq![0u8, 0u8, 0x11u8, 55u8, 0u8, 0u8]
            &&& bytes.subrange(6, 10) == payload.take(4)
            &&& 10 <= i < 14 ==> bytes[i] == 0
            &&& bytes.subrange(14, 46) == target
            &&& bytes[46] == 10
            &&& 47 <= i < 61 ==> bytes[i] == 0
        }),
{
    let bytes = frame_of(reply_type(reply), reply_payload(reply));
    law_reply_names_its_request(0x10, payload, request_of(0x10, payload)->0, reply, target);
    lemma_little_endian_length(number(payload.take(4)), 4);
    assert(little_endian(0, 4) =~= seq![0u8, 0u8, 0u8, 0u8]) by {
        reveal_with_fuel(little_endian, 5);
    }
    assert(little_endian(10, 1) =~= seq![10u8]) by {
        reveal_with_fuel(little_endian, 2);
    }
    assert(little_endian(55, 3) =~= seq![55u8, 0u8, 0u8]) by {
        reveal_with_fuel(little_endian, 4);
    }
    assert(reply_payload(reply).len() == 55);
    assert(bytes.take(6) =~= seq![0u8, 0u8, 0x11u8, 55u8, 0u8, 0u8]);
    assert(bytes.subrange(6, 10) =~= reply_payload(reply).take(4));
    assert(bytes.subrange(14, 46) =~= target);
}

/// The bytes that refuse a channel: a header with the kind 0x12 and the length 17, the number of
/// the request as the miner sent it, and the word for an unknown user behind its length.
pub proof fn law_refused_bytes(payload: Seq<u8>, target: Seq<u8>, reply: ChannelReplyView)
    requires
        request_of(0x13, payload) is Some,
        reply_to(request_of(0x13, payload)->0, target) == Some(reply),
    ensures
        ({
            let bytes = frame_of(reply_type(reply), reply_payload(reply));
            &&& bytes.len() == 23
            &&& bytes.take(6) == seq![0u8, 0u8, 0x12u8, 17u8, 0u8, 0u8]
            &&& bytes.subrange(6, 10) == payload.take(4)
            &&& bytes[10] == 12
            &&& bytes.subrange(11, 23) == unknown_user()
        }),
{
    let bytes = frame_of(reply_type(reply), reply_payload(reply));
    law_reply_names_its_request(0x13, payload, request_of(0x13, payload)->0, reply, target);
    lemma_little_endian_length(number(payload.take(4)), 4);
    assert(little_endian(12, 1) =~= seq![12u8]) by {
        reveal_with_fuel(little_endian, 2);
    }
    assert(little_endian(17, 3) =~= seq![17u8, 0u8, 0u8]) by {
        reveal_with_fuel(little_endian, 4);
    }
    assert(reply_payload(reply).len() == 17);
    assert(bytes.take(6) =~= seq![0u8, 0u8, 0x12u8, 17u8, 0u8, 0u8]);
    assert(bytes.subrange(6, 10) =~= reply_payload(reply).take(4));
    assert(bytes.subrange(11, 23) =~= unknown_user());
}

/// The views of requests and replies leave nothing out.
pub proof fn law_channel_views_are_faithful(request: MiningRequest, reply: ChannelReply)
    ensures
        match request {
            MiningRequest::OpenStandard { request_id, user_identity } => request@ == (
            MiningRequestView::OpenStandard {
                request_id: request_id as nat,
                user_identity: user_identity@,
            }),
            MiningRequest::OpenExtended { request_id, user_identity } => request@ == (
            MiningRequestView::OpenExtended {
                request_id: request_id as nat,
                user_identity: user_identity@,
            }),
            _ => !(request@ is OpenStandard) && !(request@ is OpenExtended),
        },
        match reply {
            ChannelReply::Opened {
                request_id,
                channel_id,
                target,
                extranonce_prefix,
                group_channel_id,
            } => reply@ == (ChannelReplyView::Opened {
                request_id: request_id as nat,
                channel_id: channel_id as nat,
                target: target@,
                extranonce_prefix: extranonce_prefix@,
                group_channel_id: group_channel_id as nat,
            }),
            ChannelReply::Refused { request_id } => reply@ == (ChannelReplyView::Refused {
                request_id: request_id as nat,
            }),
        },
{
}

/// Any reply that a channel is open holds its fields in their order: the number of the request, the
/// channel, the target, the extranonce behind its count, and the group.
pub proof fn law_opened_payload(
    request_id: u32,
    channel_id: u32,
    target: Seq<u8>,
    extranonce_prefix: Seq<u8>,
    group_channel_id: u32,
)
    requires
        target.len() == 32,
        extranonce_prefix.len() <= 32,
    ensures
        ({
            let reply = ChannelReplyView::Opened {
                request_id: request_id as nat,
                channel_id: channel_id as nat,
                target,
                extranonce_prefix,
                group_channel_id: group_channel_id as nat,
            };
            let payload = reply_payload(reply);
            let end = 41 + extranonce_prefix.len() as int;
            &&& well_formed(reply)
            &&& reply_type(reply) == 0x11
            &&& payload.len() == end + 4
            &&& number(payload.subrange(0, 4)) == request_id
            &&& number(payload.subrange(4, 8)) == channel_id
            &&& payload.subrange(8, 40) == target
            &&& payload[40] == extranonce_prefix.len()
            &&& payload.subrange(41, end) == extranonce_prefix
            &&& number(payload.subrange(end, end + 4)) == group_channel_id
        }),
{
    let zeros = seq![0u8, 0u8, 0u8, 0u8];
    let payload = channel_opened(
        request_id as nat,
        channel_id as nat,
        target,
        extranonce_prefix,
        group_channel_id as nat,
    );
    let end = 41 + extranonce_prefix.len() as int;
    law_numbers_are_little_endian(zeros, request_id);
    law_numbers_are_little_endian(zeros, channel_id);
    law_numbers_are_little_endian(zeros, group_channel_id);
    assert(little_endian(extranonce_prefix.len(), 1) =~= seq![extranonce_prefix.len() as u8]) by {
        reveal_with_fuel(little_endian, 2);
    }
    assert(payload.subrange(0, 4) =~= little_endian(request_id as nat, 4));
    assert(payload.subrange(4, 8) =~= little_endian(channel_id as nat, 4));
    assert(payload.subrange(8, 40) =~= target);
    assert(payload.subrange(41, end) =~= extranonce_prefix);
    assert(payload.subrange(end, end + 4) =~= little_endian(group_channel_id as nat, 4));
}

/// Any reply that a user is unknown holds the number of the request and the word for it behind its
/// length, and can be written.
pub proof fn law_refused_payload(request_id: u32)
    ensures
        ({
            let reply = ChannelReplyView::Refused { request_id: request_id as nat };
            let payload = reply_payload(reply);
            &&& well_formed(reply)
            &&& reply_type(reply) == 0x12
            &&& payload.len() == 17
            &&& number(payload.subrange(0, 4)) == request_id
            &&& payload[4] == 12
            &&& payload.subrange(5, 17) == unknown_user()
        }),
{
    let payload = user_refused(request_id as nat);
    law_numbers_are_little_endian(seq![0u8, 0u8, 0u8, 0u8], request_id);
    assert(little_endian(unknown_user().len(), 1) =~= seq![12u8]) by {
        reveal_with_fuel(little_endian, 2);
    }
    assert(payload.subrange(0, 4) =~= little_endian(request_id as nat, 4));
    assert(payload.subrange(5, 17) =~= unknown_user());
}

} // verus!
