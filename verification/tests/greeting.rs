use sv1_proxy::codec::{read_json, write_json};
use sv1_proxy::extranonce::constrained_extranonce;
use sv1_proxy::json::Json;
use sv1_proxy::message::{
    authorize_reply, authorize_request, configure_reply, configure_request, greeting,
    submission_reply, subscribe_reply, subscribe_request, suggest_difficulty_request,
};

#[test]
fn greets_the_pool_with_four_requests() {
    assert_eq!(
        greeting("me.worker"),
        vec![
            "{\"id\":1,\"method\":\"mining.configure\",\"params\":[[\"version-rolling\"],{\"version-rolling.mask\":\"1fffe000\"}]}",
            "{\"id\":2,\"method\":\"mining.subscribe\",\"params\":[]}",
            "{\"id\":3,\"method\":\"mining.authorize\",\"params\":[\"me.worker\",\"x\"]}",
            "{\"id\":4,\"method\":\"mining.suggest_difficulty\",\"params\":[1000.0]}",
        ]
    );
}

#[test]
fn requests_read_back() {
    for (line, request) in greeting("w").iter().zip(vec![
        configure_request(),
        subscribe_request(),
        authorize_request("w"),
        suggest_difficulty_request(),
    ]) {
        assert_eq!(*line, write_json(request));
        assert_eq!(write_json(read_json(line).unwrap()), *line);
    }
}

#[test]
fn worker_names_are_escaped() {
    assert_eq!(
        greeting("a\"b\n")[2],
        "{\"id\":3,\"method\":\"mining.authorize\",\"params\":[\"a\\\"b\\n\",\"x\"]}"
    );
}

#[test]
fn replies_to_a_configure_request() {
    assert_eq!(
        write_json(configure_reply()),
        "{\"error\":null,\"id\":1,\"result\":{\"version-rolling\":true,\"version-rolling.mask\":\"1fffe000\"}}"
    );
}

#[test]
fn replies_to_a_subscribe_request() {
    assert_eq!(
        write_json(subscribe_reply("81000001", "0007", 8)),
        "{\"error\":null,\"id\":2,\"result\":[[[\"mining.set_difficulty\",\"1\"],[\"mining.notify\",\"1\"]],\"810000010007\",6]}"
    );
    assert_eq!(
        subscribe_reply("", "0000", 2).field_item("result", 2).unwrap().unsigned(),
        Some(0)
    );
}

#[test]
fn replies_to_an_authorize_request() {
    assert_eq!(write_json(authorize_reply()), "{\"error\":null,\"id\":3,\"result\":true}");
}

#[test]
fn replies_to_a_share_under_its_number() {
    for id in ["9", "\"x\"", "null", "-1", "[1.5]"] {
        assert_eq!(
            write_json(submission_reply(read_json(id).unwrap())),
            format!("{{\"error\":null,\"id\":{},\"result\":true}}", id)
        );
    }
    assert_eq!(submission_reply(Json::Null).get("result"), Some(&Json::Bool(true)));
}

#[test]
fn extranonces_are_padded_hexadecimal() {
    assert_eq!(constrained_extranonce(0), "0000");
    assert_eq!(constrained_extranonce(10), "000a");
    assert_eq!(constrained_extranonce(16), "0010");
    assert_eq!(constrained_extranonce(255), "00ff");
    assert_eq!(constrained_extranonce(256), "0100");
    assert_eq!(constrained_extranonce(4095), "0fff");
    assert_eq!(constrained_extranonce(4096), "1000");
    assert_eq!(constrained_extranonce(48879), "beef");
    assert_eq!(constrained_extranonce(65535), "ffff");
    assert_eq!(constrained_extranonce(65536), "10000");
    for id in [0usize, 1, 15, 16, 4660, 65535, 65536, 1000000, usize::MAX] {
        assert_eq!(constrained_extranonce(id), format!("{:04x}", id));
        assert_eq!(usize::from_str_radix(&constrained_extranonce(id), 16), Ok(id));
    }
}

#[test]
fn no_two_miners_have_one_extranonce() {
    for one in 0..300usize {
        for other in 0..one {
            assert_ne!(constrained_extranonce(one), constrained_extranonce(other));
        }
    }
}
