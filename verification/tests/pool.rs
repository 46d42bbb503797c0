use sv1_proxy::codec::read_json;
use sv1_proxy::json::JsonNumber;
use sv1_proxy::upstream::{
    JobParams, Reaction, Report, UpstreamMessage, UpstreamState, read_message,
};

const SUBSCRIBED: &str = "{\"id\":2,\"result\":[[[\"mining.notify\",\"ae6\"]],\"81000001\",8],\"error\":null}\n";

fn job(hash: &str) -> String {
    format!("{{\"id\":null,\"method\":\"mining.notify\",\"params\":[\"j\",\"{}\",\"c\"]}}", hash)
}

fn quiet(report: Report) -> Reaction {
    Reaction { new_block: None, broadcast: None, report }
}

fn message(line: &str) -> UpstreamMessage {
    read_message(read_json(line).unwrap())
}

#[test]
fn starts_with_nothing() {
    let state = UpstreamState::new();
    assert_eq!(state.job_params, None);
    assert_eq!(state.last_notify, None);
    assert_eq!(state.last_difficulty, None);
    assert_eq!(state.last_prev_hash, None);
}

#[test]
fn keeps_what_the_subscription_brings() {
    let mut state = UpstreamState::new();
    assert_eq!(state.handle_line(SUBSCRIBED), quiet(Report::ParamsStored));
    assert_eq!(
        state.job_params,
        Some(JobParams {
            coinb1: String::new(),
            coinb2: String::new(),
            full_extranonce1: "81000001".to_string(),
            extranonce2_size: 8,
            difficulty: JsonNumber::Unsigned(1000),
        })
    );
}

#[test]
fn a_job_is_kept_and_passed_on() {
    let mut state = UpstreamState::new();
    let line = format!("  {}\r\n", job("aa"));
    let reaction = state.handle_line(&line);
    assert_eq!(
        reaction,
        Reaction {
            new_block: Some(job("aa")),
            broadcast: Some(job("aa")),
            report: Report::Nothing,
        }
    );
    assert_eq!(state.last_notify, Some(job("aa")));
    assert_eq!(state.last_prev_hash, Some("aa".to_string()));
}

#[test]
fn a_block_is_reported_once() {
    let mut state = UpstreamState::new();
    assert!(state.handle_line(&job("aa")).new_block.is_some());
    let again = state.handle_line(&job("aa"));
    assert_eq!(again.new_block, None);
    assert_eq!(again.broadcast, Some(job("aa")));
    assert_eq!(state.handle_line(&job("bb")).new_block, Some(job("bb")));
    assert_eq!(state.handle_line(&job("aa")).new_block, Some(job("aa")));
}

#[test]
fn a_hash_that_is_no_string_counts_as_empty() {
    let mut state = UpstreamState::new();
    let line = "{\"method\":\"mining.notify\",\"params\":[1,2]}";
    assert_eq!(state.handle_line(line).new_block, Some(line.to_string()));
    assert_eq!(state.last_prev_hash, Some(String::new()));
    assert_eq!(state.handle_line(&job("")).new_block, None);
}

#[test]
fn a_job_without_a_hash_is_passed_on() {
    let mut state = UpstreamState::new();
    state.handle_line(&job("aa"));
    for line in [
        "{\"method\":\"mining.notify\",\"params\":[1]}",
        "{\"method\":\"mining.notify\",\"params\":{}}",
        "{\"method\":\"mining.notify\"}",
    ] {
        let reaction = state.handle_line(line);
        assert_eq!(reaction.new_block, None);
        assert_eq!(reaction.broadcast, Some(line.to_string()));
        assert_eq!(state.last_notify, Some(line.to_string()));
        assert_eq!(state.last_prev_hash, Some("aa".to_string()));
    }
}

#[test]
fn a_difficulty_is_kept_and_passed_on() {
    let mut state = UpstreamState::new();
    let line = "{\"id\":null,\"method\":\"mining.set_difficulty\",\"params\":[512]}";
    assert_eq!(
        state.handle_line(line),
        Reaction {
            new_block: None,
            broadcast: Some(line.to_string()),
            report: Report::Nothing,
        }
    );
    assert_eq!(state.last_difficulty, Some(line.to_string()));
    assert_eq!(state.job_params, None);
    state.handle_line(SUBSCRIBED);
    assert_eq!(state.handle_line(line).report, Report::DifficultyStored);
    assert_eq!(state.job_params.as_ref().unwrap().difficulty, JsonNumber::Unsigned(512));
    assert_eq!(state.job_params.as_ref().unwrap().full_extranonce1, "81000001");
    state.handle_line("{\"method\":\"mining.set_difficulty\",\"params\":[0.5]}");
    assert!(matches!(state.job_params.as_ref().unwrap().difficulty, JsonNumber::Other(_)));
    state.handle_line(SUBSCRIBED);
    assert_eq!(state.job_params.as_ref().unwrap().difficulty, JsonNumber::Unsigned(1000));
}

#[test]
fn a_difficulty_that_is_no_number_is_dropped() {
    let mut state = UpstreamState::new();
    for line in [
        "{\"method\":\"mining.set_difficulty\",\"params\":[\"1\"]}",
        "{\"method\":\"mining.set_difficulty\",\"params\":[]}",
        "{\"method\":\"mining.set_difficulty\",\"id\":2,\"result\":[1,\"a\",2]}",
    ] {
        assert_eq!(state.handle_line(line), quiet(Report::Nothing));
        assert_eq!(state, UpstreamState::new());
    }
}

#[test]
fn the_newest_lines_are_kept() {
    let mut state = UpstreamState::new();
    let easy = "{\"method\":\"mining.set_difficulty\",\"params\":[1]}";
    let hard = "{\"method\":\"mining.set_difficulty\",\"params\":[2]}";
    for line in [easy, job("aa").as_str(), SUBSCRIBED, hard, job("bb").as_str(), "{\"id\":9}"] {
        state.handle_line(line);
    }
    assert_eq!(state.last_notify, Some(job("bb")));
    assert_eq!(state.last_difficulty, Some(hard.to_string()));
    assert_eq!(state.job_params.as_ref().unwrap().difficulty, JsonNumber::Unsigned(2));
}

#[test]
fn authorization_sends_the_cached_job() {
    let mut state = UpstreamState::new();
    let accepted = "{\"id\":3,\"result\":true,\"error\":null}";
    assert_eq!(state.handle_line(accepted), quiet(Report::Nothing));
    state.handle_line(&job("aa"));
    assert_eq!(
        state.handle_line(accepted),
        Reaction {
            new_block: None,
            broadcast: Some(job("aa")),
            report: Report::CachedJobSent,
        }
    );
}

#[test]
fn refused_authorization_is_reported() {
    let mut state = UpstreamState::new();
    state.handle_line(&job("aa"));
    for refused in ["{\"id\":3,\"result\":false}", "{\"id\":3,\"result\":null}", "{\"id\":3,\"result\":1}"] {
        assert_eq!(state.handle_line(refused), quiet(Report::AuthorizeFailed));
    }
    assert_eq!(state.handle_line("{\"id\":3}"), quiet(Report::Nothing));
}

#[test]
fn other_replies_do_nothing() {
    let mut state = UpstreamState::new();
    for line in [
        "{\"id\":1,\"result\":{\"version-rolling\":true}}",
        "{\"id\":1,\"result\":[1,\"81000001\",8]}",
        "{\"id\":4,\"result\":true}",
        "{\"id\":\"2\",\"result\":[1,\"81000001\",8]}",
        "{\"id\":2.0,\"result\":[1,\"81000001\",8]}",
        "{\"id\":2,\"result\":[1,\"81000001\"]}",
        "{\"id\":2,\"result\":[1,2,8]}",
        "{\"id\":2,\"result\":[1,\"81000001\",-8]}",
        "{\"id\":2,\"result\":null}",
        "[]",
        "7",
    ] {
        assert_eq!(state.handle_line(line), quiet(Report::Nothing));
        assert_eq!(state, UpstreamState::new());
    }
}

#[test]
fn a_reply_with_another_method_still_counts() {
    let mut state = UpstreamState::new();
    let line = "{\"method\":\"other\",\"id\":2,\"result\":[0,\"ab\",4]}";
    assert_eq!(state.handle_line(line), quiet(Report::ParamsStored));
}

#[test]
fn empty_and_broken_lines() {
    let mut state = UpstreamState::new();
    assert_eq!(state.handle_line(" \t\r\n"), quiet(Report::Nothing));
    assert_eq!(state.handle_line("{\n"), quiet(Report::NotJson));
    assert_eq!(state, UpstreamState::new());
}

#[test]
fn messages_are_told_apart() {
    assert_eq!(message(&job("aa")), UpstreamMessage::Notify { prev_hash: Some("aa".to_string()) });
    assert_eq!(
        message("{\"method\":\"mining.set_difficulty\",\"params\":[3]}"),
        UpstreamMessage::SetDifficulty { difficulty: Some(JsonNumber::Unsigned(3)) }
    );
    assert_eq!(
        message(SUBSCRIBED),
        UpstreamMessage::Subscribed { full_extranonce1: "81000001".to_string(), extranonce2_size: 8 }
    );
    assert_eq!(message("{\"id\":3,\"result\":true}"), UpstreamMessage::Authorized { accepted: true });
    assert_eq!(message("{}"), UpstreamMessage::Other);
}

#[test]
fn applies_a_message() {
    let mut state = UpstreamState::new();
    let reaction = state.apply("line", UpstreamMessage::Notify { prev_hash: None });
    assert_eq!(reaction.broadcast, Some("line".to_string()));
    assert_eq!(state.last_notify, Some("line".to_string()));
    assert_eq!(state.apply("x", UpstreamMessage::Other), quiet(Report::Nothing));
}

#[test]
fn lines_are_trimmed_by_the_unicode_property() {
    let mut state = UpstreamState::new();
    let spaces = "\t\n\u{b}\u{c}\r \u{85}\u{a0}\u{1680}\u{2000}\u{200a}\u{2028}\u{2029}\u{202f}\u{205f}\u{3000}";
    state.handle_line(&format!("{}{}{}", spaces, job("aa"), spaces));
    assert_eq!(state.last_notify, Some(job("aa")));
    for other in ["\u{8}", "\u{e}", "\u{200b}", "\u{180e}", "\u{feff}"] {
        assert_eq!(state.handle_line(other), quiet(Report::NotJson));
    }
}
