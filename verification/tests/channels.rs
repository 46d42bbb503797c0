use sv1_proxy::sv2::{ChannelReply, channel_reply, channel_target, write_reply};
use sv1_proxy::wire::{MiningRequest, read_request};

const TARGET: &str = "{\"method\":\"mining.notify\",\"x\":1}";

fn open_standard(user: &[u8]) -> Vec<u8> {
    let mut payload = vec![1, 2, 3, 4, user.len() as u8];
    payload.extend(user);
    payload.extend([0; 36]);
    payload
}

fn open_extended(user: &[u8]) -> Vec<u8> {
    let mut payload = open_standard(user);
    payload.extend([8, 0]);
    payload
}

fn expect_request(message_type: u8, payload: &[u8], request: MiningRequest) {
    assert_eq!(read_request(message_type, payload).unwrap(), request);
}

fn expect_error(message_type: u8, payload: &[u8]) {
    assert!(read_request(message_type, payload).is_err());
}

#[test]
fn reads_requests_to_open_a_channel() {
    expect_request(
        0x10,
        &open_standard(b"me.1"),
        MiningRequest::OpenStandard { request_id: 0x04030201, user_identity: b"me.1".to_vec() },
    );
    expect_request(
        0x13,
        &open_extended(b""),
        MiningRequest::OpenExtended { request_id: 0x04030201, user_identity: vec![] },
    );
}

#[test]
fn what_follows_the_fields_does_not_count() {
    let mut payload = open_standard(b"u");
    payload.push(9);
    expect_request(
        0x10,
        &payload,
        MiningRequest::OpenStandard { request_id: 0x04030201, user_identity: b"u".to_vec() },
    );
}

#[test]
fn reads_the_other_requests() {
    expect_request(0x16, &[0; 40], MiningRequest::UpdateChannel);
    expect_request(0x1a, &[0; 24], MiningRequest::SubmitSharesStandard);
    expect_request(0x1b, &[0; 25], MiningRequest::SubmitSharesExtended);
    let mut share = vec![0; 24];
    share.push(32);
    share.extend([7; 32]);
    expect_request(0x1b, &share, MiningRequest::SubmitSharesExtended);
    let mut custom = vec![0; 90];
    custom[8] = 2;
    expect_request(0x22, &custom, MiningRequest::SetCustomMiningJob);
}

#[test]
fn reads_every_other_mining_message() {
    for (message_type, size) in [
        (0x11, 45),
        (0x12, 5),
        (0x14, 43),
        (0x15, 45),
        (0x17, 5),
        (0x18, 5),
        (0x19, 5),
        (0x1c, 20),
        (0x1d, 9),
        (0x1f, 19),
        (0x20, 48),
        (0x21, 36),
        (0x23, 12),
        (0x24, 9),
        (0x26, 6),
    ] {
        expect_request(message_type, &vec![0; size], MiningRequest::Other);
    }
}

#[test]
fn lists_and_options_are_measured() {
    let mut group = vec![0; 4];
    group.extend([2, 0]);
    group.extend([0; 8]);
    expect_request(0x26, &group, MiningRequest::Other);
    group.pop();
    expect_error(0x26, &group);
    let mut job = vec![0; 8];
    job.push(1);
    job.extend([0; 40]);
    expect_request(0x15, &job, MiningRequest::Other);
    job[8] = 2;
    expect_error(0x15, &job);
    let mut extended = vec![0; 8];
    extended.extend([0, 0, 0, 0, 0, 1, 2]);
    extended.extend([0; 64]);
    extended.extend([1, 0, 9, 0, 1]);
    expect_error(0x1f, &extended);
    extended.extend([0; 256]);
    expect_request(0x1f, &extended, MiningRequest::Other);
}

#[test]
fn fields_behind_the_end_are_errors_where_they_are_last() {
    expect_error(0x12, &[0, 0, 0, 0, 3, 1]);
    expect_error(0x12, &[0, 0, 0, 0]);
    expect_error(0x10, &[0, 0, 0, 0, 0, 1, 1, 1, 1]);
    expect_error(0x10, &[0, 0, 0, 0, 0, 1, 1, 1, 1, 5]);
    expect_error(0x10, &[]);
    expect_error(0x1a, &[0; 23]);
    expect_error(0x1a, &[0; 20]);
    expect_error(0x16, &[0; 39]);
    expect_error(0x16, &[0; 8]);
    let mut long = vec![0; 24];
    long.push(33);
    long.extend([0; 33]);
    expect_error(0x1b, &long);
}

#[test]
fn other_kinds_are_no_requests() {
    for message_type in [0x00, 0x01, 0x0f, 0x1e, 0x25, 0x27, 0x71, 0xff] {
        expect_error(message_type, &[]);
        expect_error(message_type, &[0; 60]);
    }
}

#[test]
fn fields_may_not_start_behind_the_end() {
    expect_error(0x10, &[1]);
    expect_error(0x13, &[1]);
    expect_error(0x10, &[0, 0, 0, 0, 9, 1]);
    expect_error(0x12, &[0; 3]);
    expect_error(0x1a, &[0; 19]);
    expect_error(0x16, &[0; 7]);
    expect_error(0x23, &[]);
    let mut job = vec![0; 14];
    job.extend([1, 0, 0]);
    expect_error(0x1f, &job);
}

#[test]
fn messages_cut_short_are_errors() {
    let whole = open_extended(b"someone");
    for size in 0..whole.len() {
        expect_error(0x13, &whole[..size]);
    }
    for message_type in 0x10..0x27 {
        for size in 0..5 {
            for byte in [0, 1, 255] {
                expect_error(message_type, &vec![byte; size]);
            }
        }
    }
}

#[test]
fn the_target_has_thirty_two_bytes() {
    assert_eq!(TARGET.len(), 32);
    assert_eq!(channel_target(&Some(TARGET.to_string())), Some(TARGET.as_bytes().to_vec()));
    assert_eq!(channel_target(&Some("é".repeat(16))), Some("é".repeat(16).into_bytes()));
    assert_eq!(channel_target(&Some("é".repeat(32))), None);
    assert_eq!(channel_target(&Some(String::new())), None);
    assert_eq!(channel_target(&None), None);
}

#[test]
fn standard_channels_are_opened() {
    let request = MiningRequest::OpenStandard { request_id: 5, user_identity: vec![] };
    let reply = channel_reply(&request, &Some(TARGET.to_string())).unwrap();
    assert_eq!(
        reply,
        ChannelReply::Opened {
            request_id: 5,
            channel_id: 0,
            target: TARGET.as_bytes().to_vec(),
            extranonce_prefix: vec![0; 10],
            group_channel_id: 0,
        }
    );
}

#[test]
fn extended_channels_are_refused() {
    let request = MiningRequest::OpenExtended { request_id: 5, user_identity: vec![] };
    assert_eq!(channel_reply(&request, &None), Some(ChannelReply::Refused { request_id: 5 }));
}

#[test]
fn nothing_else_is_answered() {
    for request in [
        MiningRequest::UpdateChannel,
        MiningRequest::SubmitSharesStandard,
        MiningRequest::SubmitSharesExtended,
        MiningRequest::SetCustomMiningJob,
        MiningRequest::Other,
    ] {
        assert_eq!(channel_reply(&request, &None), None);
    }
}

#[test]
fn writes_that_a_channel_is_open() {
    let bytes = write_reply(ChannelReply::Opened {
        request_id: 0x04030201,
        channel_id: 0x08070605,
        target: (100..132).collect(),
        extranonce_prefix: vec![7, 8, 9],
        group_channel_id: 0x0c0b0a09,
    });
    let mut expected = vec![0, 0, 0x11, 48, 0, 0, 1, 2, 3, 4, 5, 6, 7, 8];
    expected.extend(100..132);
    expected.extend([3, 7, 8, 9, 9, 10, 11, 12]);
    assert_eq!(bytes, expected);
    expect_request(0x11, &bytes[6..], MiningRequest::Other);
}

#[test]
fn writes_that_a_user_is_unknown() {
    let bytes = write_reply(ChannelReply::Refused { request_id: 0x04030201 });
    let mut expected = vec![0, 0, 0x12, 17, 0, 0, 1, 2, 3, 4, 12];
    expected.extend(b"unknown-user");
    assert_eq!(bytes, expected);
    expect_request(0x12, &bytes[6..], MiningRequest::Other);
}

#[test]
fn replies_name_their_request() {
    for (message_type, payload) in [(0x10, open_standard(b"u")), (0x13, open_extended(b"u"))] {
        let request = read_request(message_type, &payload).unwrap();
        let reply = channel_reply(&request, &Some(TARGET.to_string())).unwrap();
        let bytes = write_reply(reply);
        assert_eq!(bytes[6..10], payload[..4]);
        assert_eq!(bytes.len(), 6 + bytes[3] as usize);
    }
}
