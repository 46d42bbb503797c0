use sv1_proxy::codec::read_json;
use sv1_proxy::miner::{MinerAction, MinerEvent, MinerIds, MinerSession, Stage, accept_share};
use sv1_proxy::upstream::UpstreamState;

const SUBSCRIBED: &str = "{\"id\":2,\"result\":[[],\"81000001\",8],\"error\":null}";
const JOB: &str = "{\"method\":\"mining.notify\",\"params\":[\"j\",\"aa\"]}";
const DIFFICULTY: &str = "{\"method\":\"mining.set_difficulty\",\"params\":[512]}";
const CONFIGURED: &str = "{\"error\":null,\"id\":1,\"result\":{\"version-rolling\":true,\"version-rolling.mask\":\"1fffe000\"}}";
const SUBSCRIPTION: &str = "{\"error\":null,\"id\":2,\"result\":[[[\"mining.set_difficulty\",\"1\"],[\"mining.notify\",\"1\"]],\"81000001002a\",6]}";
const AUTHORIZED: &str = "{\"error\":null,\"id\":3,\"result\":true}";

fn line(text: &str) -> MinerEvent {
    MinerEvent::Line(text.to_string())
}

fn send(text: &str) -> MinerAction {
    MinerAction::Send(text.to_string())
}

fn offer(text: &str) -> MinerAction {
    MinerAction::Offer(text.to_string())
}

fn pool(lines: &[&str]) -> UpstreamState {
    let mut state = UpstreamState::new();
    for line in lines {
        state.handle_line(line);
    }
    state
}

fn mining(upstream: &UpstreamState) -> MinerSession {
    let mut session = MinerSession::new(42, "pool.worker");
    for request in ["configure\n", "subscribe\n", "authorize\n"] {
        session.step(line(request), upstream);
    }
    assert_eq!(session.stage, Stage::Mining);
    session
}

#[test]
fn a_new_session() {
    assert_eq!(
        MinerSession::new(42, "w"),
        MinerSession {
            miner_id: 42,
            constrained_extranonce: "002a".to_string(),
            worker_name: "w".to_string(),
            stage: Stage::Configure,
            pending: String::new(),
        }
    );
}

#[test]
fn the_handshake_is_answered_in_order() {
    let upstream = pool(&[SUBSCRIBED, JOB, DIFFICULTY]);
    let mut session = MinerSession::new(42, "w");
    assert_eq!(session.step(line("anything\n"), &upstream), vec![send(CONFIGURED)]);
    assert_eq!(session.stage, Stage::Subscribe);
    assert_eq!(session.step(line("anything\n"), &upstream), vec![send(SUBSCRIPTION)]);
    assert_eq!(session.stage, Stage::Authorize);
    assert_eq!(
        session.step(line("anything\n"), &upstream),
        vec![send(AUTHORIZED), offer(DIFFICULTY), offer(JOB)]
    );
    assert_eq!(session.stage, Stage::Mining);
}

#[test]
fn cached_lines_are_sent_as_far_as_there_are_any() {
    for (lines, cached) in [
        (vec![SUBSCRIBED], vec![]),
        (vec![SUBSCRIBED, JOB], vec![offer(JOB)]),
        (vec![DIFFICULTY, SUBSCRIBED], vec![offer(DIFFICULTY)]),
    ] {
        let upstream = pool(&lines);
        let mut session = MinerSession::new(42, "w");
        session.step(line("a\n"), &upstream);
        session.step(line("b\n"), &upstream);
        let mut expected = vec![send(AUTHORIZED)];
        expected.extend(cached);
        assert_eq!(session.step(line("c\n"), &upstream), expected);
    }
}

#[test]
fn the_subscription_waits_for_the_pool() {
    let unknown = UpstreamState::new();
    let known = pool(&[SUBSCRIBED]);
    let mut session = MinerSession::new(42, "w");
    session.step(line("a\n"), &unknown);
    assert_eq!(session.step(line("b\n"), &unknown), vec![MinerAction::Wait]);
    assert_eq!(session.stage, Stage::AwaitParams);
    assert_eq!(session.step(MinerEvent::Tick, &unknown), vec![MinerAction::Wait]);
    assert_eq!(session.step(line("c\n"), &unknown), vec![]);
    assert_eq!(session.step(MinerEvent::Tick, &known), vec![send(SUBSCRIPTION)]);
    assert_eq!(session.stage, Stage::Authorize);
}

#[test]
fn the_end_of_input_goes_through_all_stages() {
    let upstream = pool(&[JOB]);
    let mut session = MinerSession::new(1, "w");
    assert_eq!(session.step(MinerEvent::EndOfInput, &upstream), vec![]);
    assert_eq!(session.step(MinerEvent::EndOfInput, &upstream), vec![]);
    assert_eq!(session.step(MinerEvent::EndOfInput, &upstream), vec![offer(JOB)]);
    assert_eq!(session.stage, Stage::Mining);
    assert_eq!(session.step(MinerEvent::EndOfInput, &upstream), vec![]);
    assert_eq!(session.stage, Stage::Closed);
}

#[test]
fn a_failed_read_ends_the_session() {
    let upstream = pool(&[SUBSCRIBED, JOB]);
    let mut session = MinerSession::new(1, "w");
    assert_eq!(session.step(MinerEvent::ReadFailed, &upstream), vec![]);
    assert_eq!(session.stage, Stage::Closed);
    for event in [
        line("a\n"),
        MinerEvent::EndOfInput,
        MinerEvent::ReadFailed,
        MinerEvent::Tick,
        MinerEvent::Job(JOB.to_string()),
    ] {
        assert_eq!(session.step(event, &upstream), vec![]);
        assert_eq!(session.stage, Stage::Closed);
    }
}

#[test]
fn jobs_reach_a_miner_that_mines() {
    let upstream = pool(&[SUBSCRIBED]);
    let mut session = mining(&upstream);
    assert_eq!(session.step(MinerEvent::Job(JOB.to_string()), &upstream), vec![send(JOB)]);
    assert_eq!(session.step(MinerEvent::Tick, &upstream), vec![]);
    let mut early = MinerSession::new(1, "w");
    assert_eq!(early.step(MinerEvent::Job(JOB.to_string()), &upstream), vec![]);
}

#[test]
fn a_share_is_reported_handed_on_and_answered() {
    let upstream = pool(&[SUBSCRIBED]);
    let mut session = mining(&upstream);
    let share = "{\"id\":7,\"method\":\"mining.submit\",\"params\":[\"m\",\"j\",\"0011\",\"t\",\"n\"]}";
    assert_eq!(
        session.step(line(&format!(" {}\r\n", share)), &upstream),
        vec![
            MinerAction::ReportShare(share.to_string()),
            MinerAction::SubmitShare(
                "{\"id\":7,\"method\":\"mining.submit\",\"params\":[\"pool.worker\",\"j\",\"002a0011\",\"t\",\"n\"]}".to_string()
            ),
            send("{\"error\":null,\"id\":7,\"result\":true}"),
        ]
    );
    assert_eq!(session.stage, Stage::Mining);
    assert_eq!(session.pending, "");
}

#[test]
fn a_share_without_a_number_gets_no_answer() {
    let upstream = pool(&[SUBSCRIBED]);
    let mut session = mining(&upstream);
    let share = "{\"method\":\"mining.submit\"}";
    assert_eq!(
        session.step(line(share), &upstream),
        vec![
            MinerAction::ReportShare(share.to_string()),
            MinerAction::SubmitShare(share.to_string()),
        ]
    );
}

#[test]
fn other_lines_are_dropped() {
    let upstream = pool(&[SUBSCRIBED]);
    let mut session = mining(&upstream);
    for other in ["no json\n", "{\"id\":1,\"method\":\"mining.ping\"}\n", "\n", "[]\n"] {
        assert_eq!(session.step(line(other), &upstream), vec![]);
        assert_eq!(session.pending, "");
    }
}

#[test]
fn lines_pile_up_while_the_extranonce_is_unknown() {
    let unknown = UpstreamState::new();
    let known = pool(&[SUBSCRIBED]);
    let mut session = MinerSession::new(1, "w");
    for _ in 0..3 {
        session.step(MinerEvent::EndOfInput, &unknown);
    }
    let share = "{\"id\":7,\"method\":\"mining.submit\",\"params\":[]}\n";
    assert_eq!(session.step(line(share), &unknown), vec![]);
    assert_eq!(session.pending, share);
    assert_eq!(session.step(line(share), &known), vec![]);
    assert_eq!(session.pending, "");
    assert_eq!(session.step(line(share), &known).len(), 3);
}

#[test]
fn failures_that_end_the_session() {
    for (action, stage) in [
        (send("x"), Stage::Closed),
        (MinerAction::SubmitShare("x".to_string()), Stage::Closed),
        (offer("x"), Stage::Configure),
        (MinerAction::ReportShare("x".to_string()), Stage::Configure),
        (MinerAction::Wait, Stage::Configure),
    ] {
        let mut session = MinerSession::new(1, "w");
        session.action_failed(&action);
        assert_eq!(session.stage, stage);
        assert_eq!(session.constrained_extranonce, "0001");
    }
}

#[test]
fn accepts_a_share() {
    let message = read_json("{\"id\":\"q\"}").unwrap();
    assert_eq!(
        accept_share(message, "seen".to_string(), "sent".to_string()),
        vec![
            MinerAction::ReportShare("seen".to_string()),
            MinerAction::SubmitShare("sent".to_string()),
            send("{\"error\":null,\"id\":\"q\",\"result\":true}"),
        ]
    );
}

#[test]
fn miners_are_numbered_in_turn() {
    let mut ids = MinerIds::new();
    assert_eq!(ids.assign(), 0);
    assert_eq!(ids.assign(), 1);
    assert_eq!(ids.assign(), 2);
    let mut last = MinerIds { next: usize::MAX };
    assert_eq!(last.assign(), usize::MAX);
    assert_eq!(last.assign(), 0);
}

#[test]
fn subscribe_replies_differ() {
    let upstream = pool(&[SUBSCRIBED]);
    let mut ids = MinerIds::new();
    let mut replies = vec![];
    for _ in 0..20 {
        let mut session = MinerSession::new(ids.assign(), "w");
        session.step(line("a\n"), &upstream);
        match session.step(line("b\n"), &upstream).pop() {
            Some(MinerAction::Send(text)) => {
                let reply = read_json(&text).unwrap();
                replies.push(reply.field_item("result", 1).unwrap().text().unwrap().to_string());
            }
            _ => panic!("no reply"),
        }
    }
    for i in 0..replies.len() {
        for j in 0..i {
            assert_ne!(replies[i], replies[j]);
        }
    }
}
