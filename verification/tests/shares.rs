use sv1_proxy::codec::{read_json, write_json};
use sv1_proxy::message::subscribe_reply;
use sv1_proxy::share::{rewrite_submission, submits_share, transform_share_submission};

const SHARE: &str = "{\"id\":4,\"method\":\"mining.submit\",\"params\":[\"miner\",\"job\",\"0a0b0c0d\",\"5f\",\"1234\"]}\n";

fn transform(submission: &str) -> String {
    transform_share_submission(submission, "0007", "81000001", "pool.worker")
}

#[test]
fn shares_carry_the_worker_and_the_whole_extranonce() {
    assert_eq!(
        transform(SHARE),
        "{\"id\":4,\"method\":\"mining.submit\",\"params\":[\"pool.worker\",\"job\",\"00070a0b0c0d\",\"5f\",\"1234\"]}"
    );
}

#[test]
fn the_pools_extranonce_does_not_matter() {
    assert_eq!(
        transform_share_submission(SHARE, "0007", "other", "pool.worker"),
        transform(SHARE)
    );
}

#[test]
fn miner_and_pool_build_one_extranonce() {
    let reply = subscribe_reply("81000001", "0007", 8);
    let told = reply.field_item("result", 1).unwrap().text().unwrap();
    let sent = read_json(&transform(SHARE)).unwrap();
    let sent = sent.field_item("params", 2).unwrap().text().unwrap();
    assert_eq!(format!("{}{}", told, "0a0b0c0d"), format!("{}{}", "81000001", sent));
}

#[test]
fn short_extranonce_grows_to_the_pools_length() {
    let reply = subscribe_reply("81000001", "ffff", 6);
    let size = reply.field_item("result", 2).unwrap().unsigned().unwrap() as usize;
    let share = SHARE.replace("0a0b0c0d", &"00".repeat(size));
    let sent = read_json(&transform_share_submission(&share, "ffff", "81000001", "w")).unwrap();
    assert_eq!(sent.field_item("params", 2).unwrap().text().unwrap().len(), 12);
}

#[test]
fn two_parameters_get_the_worker_alone() {
    assert_eq!(
        transform("{\"method\":\"mining.submit\",\"params\":[1,2]}"),
        "{\"method\":\"mining.submit\",\"params\":[\"pool.worker\",2]}"
    );
    assert_eq!(
        transform("{\"method\":\"mining.submit\",\"params\":[1,2,3,4]}"),
        "{\"method\":\"mining.submit\",\"params\":[\"pool.worker\",2,3,4]}"
    );
}

#[test]
fn shares_with_too_few_parameters_stay() {
    for share in [
        "{\"method\":\"mining.submit\",\"params\":[\"a\"]}",
        "{\"method\":\"mining.submit\",\"params\":[]}",
        "{\"method\":\"mining.submit\",\"params\":7}",
        "{\"method\":\"mining.submit\"}",
    ] {
        assert_eq!(transform(share), share);
    }
}

#[test]
fn other_messages_stay_but_for_their_layout() {
    assert_eq!(
        transform("{ \"method\": \"mining.other\", \"id\": 1, \"params\": [\"a\",\"b\",\"c\"] }\n"),
        "{\"id\":1,\"method\":\"mining.other\",\"params\":[\"a\",\"b\",\"c\"]}"
    );
    assert_eq!(transform("[1, 2]"), "[1,2]");
}

#[test]
fn what_is_no_json_stays_as_it_is() {
    assert_eq!(transform("not json\n"), "not json\n");
    assert_eq!(transform(""), "");
}

#[test]
fn the_rest_of_a_share_stays() {
    let share = "{\"extra\":{\"a\":[1.5,null]},\"id\":\"x\",\"method\":\"mining.submit\",\"params\":[\"m\",\"j\",\"00\",{\"k\":-1}]}";
    assert_eq!(
        transform(share),
        "{\"extra\":{\"a\":[1.5,null]},\"id\":\"x\",\"method\":\"mining.submit\",\"params\":[\"pool.worker\",\"j\",\"000700\",{\"k\":-1}]}"
    );
}

#[test]
fn only_the_method_makes_a_share() {
    assert!(submits_share(&read_json(SHARE).unwrap()));
    for other in [
        "{\"method\":\"mining.submitted\"}",
        "{\"method\":1}",
        "{\"params\":[]}",
        "[\"mining.submit\"]",
        "\"mining.submit\"",
    ] {
        assert!(!submits_share(&read_json(other).unwrap()));
    }
}

#[test]
fn rewrites_a_document() {
    let rewritten = rewrite_submission(read_json(SHARE).unwrap(), "0001", "w");
    assert_eq!(rewritten.field_item("params", 0).unwrap().text(), Some("w"));
    assert_eq!(rewritten.field_item("params", 2).unwrap().text(), Some("00010a0b0c0d"));
    assert!(submits_share(&rewritten));
    assert_eq!(read_json(&write_json(rewritten)), read_json(&transform_share_submission(SHARE, "0001", "", "w")));
}

#[test]
fn transformations_compose() {
    for share in [SHARE, "{\"method\":\"mining.submit\",\"params\":[1,-2]}", "[-5, 7]", "no json\r\n", ""] {
        let once = transform_share_submission(share, "aa", "f", "first");
        assert_eq!(
            transform_share_submission(&once, "bb", "f", "second"),
            transform_share_submission(share, "bbaa", "f", "second")
        );
    }
}

#[test]
fn transformed_shares_are_one_line_of_json() {
    let share = "{\r\n\"method\": \"mining.submit\",\r\n\"params\": [0.1, 2, \"\\r\"] }\r\n";
    let line = transform_share_submission(share, "a\"\r\n", "", "w\r\n\"");
    assert_eq!(
        line,
        "{\"method\":\"mining.submit\",\"params\":[\"w\\r\\n\\\"\",2,\"a\\\"\\r\\n\\r\"]}"
    );
    assert!(read_json(&line).is_some());
}
