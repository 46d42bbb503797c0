//! A miner's connection, from its first line to its shares.
use vstd::prelude::*;

use crate::codec::{
    NESTING_LIMIT, json_of, json_text, one_line, plain, read_json, unbroken, write_json,
};
use crate::extranonce::{constrained, constrained_extranonce, law_extranonce_is_unique};
use crate::json::{Json, JsonView};
use crate::line::trimmed;
use crate::message::{
    RESERVED_EXTRANONCE_BYTES, authorize_reply, authorize_reply_view, configure_reply,
    configure_reply_view, law_replies_are_plain, submission_reply, submission_reply_view, subscribe_reply,
    subscribe_reply_view,
};
use crate::share::{
    is_submission, pool_line, pool_message, submits_share, transform_share_submission,
};
use crate::upstream::{
    UpstreamMessageView, UpstreamState, UpstreamView, initial_upstream, keeps_single_lines,
    law_newest_lines_are_kept, law_pool_lines_reach_miners, newest_difficulty, newest_job,
    upstream_line, upstream_run,
};

verus! {

/// How far a miner's connection is.
#[derive(Clone, Copy, Debug, PartialEq, Eq, Structural)]
pub enum Stage {
    /// The configure request comes next.
    Configure,
    /// The subscribe request comes next.
    Subscribe,
    /// The subscribe request is not answered yet, for want of the pool's extranonce.
    AwaitParams,
    /// The authorize request comes next.
    Authorize,
    /// Jobs go out, and shares come in.
    Mining,
    /// The connection is over.
    Closed,
}

/// A miner's connection.
#[derive(Debug, PartialEq)]
pub struct MinerSession {
    pub miner_id: usize,
    pub constrained_extranonce: String,
    pub worker_name: String,
    pub stage: Stage,
    /// What the miner sent and the proxy has not dealt with yet.
    pub pending: String,
}

/// The values of `MinerSession`.
pub struct SessionView {
    pub miner_id: nat,
    pub constrained_extranonce: Seq<char>,
    pub worker_name: Seq<char>,
    pub stage: Stage,
    pub pending: Seq<char>,
}

impl View for MinerSession {
    type V = SessionView;

    open spec fn view(&self) -> SessionView {
        SessionView {
            miner_id: self.miner_id as nat,
            constrained_extranonce: self.constrained_extranonce@,
            worker_name: self.worker_name@,
            stage: self.stage,
            pending: self.pending@,
        }
    }
}

/// What happens on a miner's connection.
#[derive(Debug, PartialEq)]
pub enum MinerEvent {
    /// The miner sent something.
    Line(String),
    /// The miner sends no more.
    EndOfInput,
    /// Reading from the miner failed.
    ReadFailed,
    /// It is time to look again for the pool's extranonce.
    Tick,
    /// A line for all miners.
    Job(String),
}

/// The values of `MinerEvent`.
pub enum MinerEventView {
    Line(Seq<char>),
    EndOfInput,
    ReadFailed,
    Tick,
    Job(Seq<char>),
}

impl View for MinerEvent {
    type V = MinerEventView;

    open spec fn view(&self) -> MinerEventView {
        match self {
            MinerEvent::Line(text) => MinerEventView::Line(text@),
            MinerEvent::EndOfInput => MinerEventView::EndOfInput,
            MinerEvent::ReadFailed => MinerEventView::ReadFailed,
            MinerEvent::Tick => MinerEventView::Tick,
            MinerEvent::Job(text) => MinerEventView::Job(text@),
        }
    }
}

/// What is to be done for a miner.
#[derive(Debug, PartialEq)]
pub enum MinerAction {
    /// Send a message to the miner. The connection is over if that fails.
    Send(String),
    /// Send a message to the miner, and go on if that fails.
    Offer(String),
    /// Tell whoever listens that the miner submitted a share.
    ReportShare(String),
    /// Hand a share on to the pool. The connection is over if that fails.
    SubmitShare(String),
    /// Wait a little for the pool's extranonce.
    Wait,
}

/// The values of `MinerAction`.
pub enum MinerActionView {
    Send(Seq<char>),
    Offer(Seq<char>),
    ReportShare(Seq<char>),
    SubmitShare(Seq<char>),
    Wait,
}

impl View for MinerAction {
    type V = MinerActionView;

    open spec fn view(&self) -> MinerActionView {
        match self {
            MinerAction::Send(text) => MinerActionView::Send(text@),
            MinerAction::Offer(text) => MinerActionView::Offer(text@),
            MinerAction::ReportShare(text) => MinerActionView::ReportShare(text@),
            MinerAction::SubmitShare(text) => MinerActionView::SubmitShare(text@),
            MinerAction::Wait => MinerActionView::Wait,
        }
    }
}

/// The values of a list of actions.
pub open spec fn actions_view(actions: Seq<MinerAction>) -> Seq<MinerActionView> {
    Seq::new(actions.len(), |i: int| actions[i]@)
}

/// The connection of a new miner.
pub open spec fn new_session(miner_id: nat, worker_name: Seq<char>) -> SessionView {
    SessionView {
        miner_id,
        constrained_extranonce: constrained(miner_id),
        worker_name,
        stage: Stage::Configure,
        pending: Seq::empty(),
    }
}

/// What a miner gets as soon as it is authorized: the newest difficulty and then the newest job,
/// as far as there are any.
pub open spec fn cached_lines(upstream: UpstreamView) -> Seq<MinerActionView> {
    let difficulty = match upstream.last_difficulty {
        Some(text) => seq![MinerActionView::Offer(text)],
        None => seq![],
    };
    let job = match upstream.last_notify {
        Some(text) => seq![MinerActionView::Offer(text)],
        None => seq![],
    };
    difficulty + job
}

/// What is done for a share: it is reported and handed on, and answered if it has a number.
pub open spec fn share_actions(
    message: JsonView,
    reported: Seq<char>,
    submitted: Seq<char>,
) -> Seq<MinerActionView> {
    let reply = match message.field("id"@) {
        Some(id) => seq![MinerActionView::Send(json_text(submission_reply_view(id)))],
        None => seq![],
    };
    seq![MinerActionView::ReportShare(reported), MinerActionView::SubmitShare(submitted)] + reply
}

/// What is done about a line from a miner that mines. Only shares count.
pub open spec fn mining_actions(
    line: Seq<char>,
    constrained_extranonce: Seq<char>,
    worker_name: Seq<char>,
) -> Seq<MinerActionView> {
    match json_of(line) {
        Some(message) => if is_submission(message) {
            share_actions(
                message,
                trimmed(line),
                pool_line(line, constrained_extranonce, worker_name),
            )
        } else {
            seq![]
        },
        None => seq![],
    }
}

/// Answering the subscribe request, which takes the pool's extranonce.
pub open spec fn subscribe_step(session: SessionView, upstream: UpstreamView) -> (
    SessionView,
    Seq<MinerActionView>,
) {
    match upstream.job_params {
        Some(params) => (
            SessionView { stage: Stage::Authorize, ..session },
            seq![
                MinerActionView::Send(
                    json_text(
                        subscribe_reply_view(
                            params.full_extranonce1,
                            session.constrained_extranonce,
                            params.extranonce2_size as int,
                        ),
                    ),
                ),
            ],
        ),
        None => (
            SessionView { stage: Stage::AwaitParams, ..session },
            seq![MinerActionView::Wait],
        ),
    }
}

/// What something that the miner sent does.
pub open spec fn line_step(session: SessionView, text: Seq<char>, upstream: UpstreamView) -> (
    SessionView,
    Seq<MinerActionView>,
) {
    match session.stage {
        Stage::Configure => (
            SessionView { stage: Stage::Subscribe, ..session },
            seq![MinerActionView::Send(json_text(configure_reply_view()))],
        ),
        Stage::Subscribe => subscribe_step(session, upstream),
        Stage::Authorize => (
            SessionView { stage: Stage::Mining, ..session },
            seq![MinerActionView::Send(json_text(authorize_reply_view()))] + cached_lines(upstream),
        ),
        Stage::Mining => {
            let line = session.pending + text;
            if upstream.job_params is Some {
                (
                    SessionView { pending: Seq::empty(), ..session },
                    mining_actions(line, session.constrained_extranonce, session.worker_name),
                )
            } else {
                (SessionView { pending: line, ..session }, seq![])
            }
        },
        _ => (session, seq![]),
    }
}

/// What the end of the miner's input does: before the miner mines it stands for a request that
/// gets no answer.
pub open spec fn end_step(session: SessionView, upstream: UpstreamView) -> (
    SessionView,
    Seq<MinerActionView>,
) {
    match session.stage {
        Stage::Configure => (SessionView { stage: Stage::Subscribe, ..session }, seq![]),
        Stage::Subscribe => (SessionView { stage: Stage::Authorize, ..session }, seq![]),
        Stage::Authorize => (
            SessionView { stage: Stage::Mining, ..session },
            cached_lines(upstream),
        ),
        Stage::Mining => (SessionView { stage: Stage::Closed, ..session }, seq![]),
        _ => (session, seq![]),
    }
}

/// What an event does on a miner's connection, and what is to be done about it.
pub open spec fn session_step(
    session: SessionView,
    event: MinerEventView,
    upstream: UpstreamView,
) -> (SessionView, Seq<MinerActionView>) {
    match event {
        MinerEventView::Line(text) => line_step(session, text, upstream),
        MinerEventView::EndOfInput => end_step(session, upstream),
        MinerEventView::ReadFailed => (SessionView { stage: Stage::Closed, ..session }, seq![]),
        MinerEventView::Tick => if session.stage == Stage::AwaitParams {
            subscribe_step(session, upstream)
        } else {
            (session, seq![])
        },
        MinerEventView::Job(text) => if session.stage == Stage::Mining {
            (session, seq![MinerActionView::Send(text)])
        } else {
            (session, seq![])
        },
    }
}

/// A connection after something that was to be done failed: it is over if that was a message that
/// the miner waits for, or a share.
pub open spec fn after_failure(session: SessionView, action: MinerActionView) -> SessionView {
    SessionView {
        stage: if action is Send || action is SubmitShare {
            Stage::Closed
        } else {
            session.stage
        },
        ..session
    }
}

/// The pool leaves room in its second extranonce for the proxy's part.
pub open spec fn room_for_extranonce(upstream: UpstreamView) -> bool {
    upstream.job_params matches Some(params) ==> params.extranonce2_size
        >= RESERVED_EXTRANONCE_BYTES
}

/// A message for a miner, or a share for the pool, is one line.
pub open spec fn sends_one_line(action: MinerActionView) -> bool {
    match action {
        MinerActionView::Send(text) => one_line(text),
        MinerActionView::Offer(text) => one_line(text),
        MinerActionView::SubmitShare(text) => unbroken(text),
        _ => true,
    }
}

/// Every message for a miner, and every share for the pool, is one line.
pub open spec fn sends_single_lines(actions: Seq<MinerActionView>) -> bool {
    forall|i: int| 0 <= i < actions.len() ==> sends_one_line(#[trigger] actions[i])
}

/// What a miner is to read as the answer to the request that it sent.
pub open spec fn handshake_reply(session: SessionView, upstream: UpstreamView) -> Option<JsonView> {
    match session.stage {
        Stage::Configure => Some(configure_reply_view()),
        Stage::Subscribe | Stage::AwaitParams => match upstream.job_params {
            Some(params) => Some(
                subscribe_reply_view(
                    params.full_extranonce1,
                    session.constrained_extranonce,
                    params.extranonce2_size as int,
                ),
            ),
            None => None,
        },
        Stage::Authorize => Some(authorize_reply_view()),
        _ => None,
    }
}

/// What a miner is to read as the answer to a line that it sent while it mined: only a share with
/// a number gets one.
pub open spec fn share_reply(line: Seq<char>) -> Option<JsonView> {
    match json_of(line) {
        Some(message) => match message.field("id"@) {
            Some(id) => if is_submission(message) {
                Some(submission_reply_view(id))
            } else {
                None
            },
            None => None,
        },
        None => None,
    }
}

/// What the pool reads of a line that a miner sent while it mined: of a share it gets JSON, and of
/// a plain one the message with the miner's extranonce and the proxy's worker in it.
pub open spec fn share_reaches_pool(
    line: Seq<char>,
    constrained_extranonce: Seq<char>,
    worker_name: Seq<char>,
    actions: Seq<MinerActionView>,
) -> bool {
    json_of(line) matches Some(message) ==> message.field("method"@) == Some(
        JsonView::Text("mining.submit"@),
    ) ==> {
        &&& actions.len() >= 2
        &&& actions[1] is SubmitShare
        &&& json_of(actions[1]->SubmitShare_0) is Some
        &&& plain(message, NESTING_LIMIT as nat) ==> json_of(actions[1]->SubmitShare_0) == Some(
            pool_message(message, constrained_extranonce, worker_name),
        )
    }
}

/// First a message goes to the miner, and the miner reads `document` there.
pub open spec fn tells_first(actions: Seq<MinerActionView>, document: JsonView) -> bool {
    &&& actions.len() > 0
    &&& actions[0] is Send
    &&& json_of(actions[0]->Send_0) == Some(document)
}

/// What is done for a share.
pub fn accept_share(message: Json, reported: String, submitted: String) -> (actions: Vec<
    MinerAction,
>)
    ensures
        actions_view(actions@) == share_actions(message@, reported@, submitted@),
        unbroken(submitted@) ==> sends_single_lines(actions_view(actions@)),
        message@.field("id"@) matches Some(id) ==> plain(
            submission_reply_view(id),
            NESTING_LIMIT as nat,
        ) ==> tells_first(actions_view(actions@).skip(2), submission_reply_view(id)),
{
    let mut actions: Vec<MinerAction> = vec![
        MinerAction::ReportShare(reported),
        MinerAction::SubmitShare(submitted),
    ];
    match message.take("id") {
        Some(id) => {
            actions.push(MinerAction::Send(write_json(submission_reply(id))));
        },
        None => {},
    }
    assert(actions_view(actions@) =~= share_actions(message@, reported@, submitted@));
    actions
}

/// What is done about a line from a miner that mines.
fn handle_mining_line(
    line: &str,
    constrained_extranonce: &str,
    full_extranonce1: &str,
    worker_name: &str,
) -> (actions: Vec<MinerAction>)
    ensures
        actions_view(actions@) == mining_actions(line@, constrained_extranonce@, worker_name@),
        share_reaches_pool(
            line@,
            constrained_extranonce@,
            worker_name@,
            actions_view(actions@),
        ),
        share_reply(line@) matches Some(document) ==> plain(document, NESTING_LIMIT as nat)
            ==> tells_first(actions_view(actions@).skip(2), document),
        sends_single_lines(actions_view(actions@)),
{
    match read_json(line) {
        Some(message) => if submits_share(&message) {
            let submitted: String = transform_share_submission(
                line,
                constrained_extranonce,
                full_extranonce1,
                worker_name,
            );
            accept_share(message, line.trim().to_owned(), submitted)
        } else {
            let none: Vec<MinerAction> = Vec::new();
            assert(actions_view(none@) =~= seq![]);
            none
        },
        None => {
            let none: Vec<MinerAction> = Vec::new();
            assert(actions_view(none@) =~= seq![]);
            none
        },
    }
}

/// What a miner gets as soon as it is authorized.
fn offer_cached_lines(actions: &mut Vec<MinerAction>, upstream: &UpstreamState)
    ensures
        actions_view(final(actions)@) == actions_view(old(actions)@) + cached_lines(upstream@),
{
    match &upstream.last_difficulty {
        Some(text) => {
            actions.push(MinerAction::Offer(text.clone()));
        },
        None => {},
    }
    match &upstream.last_notify {
        Some(text) => {
            actions.push(MinerAction::Offer(text.clone()));
        },
        None => {},
    }
    assert(actions_view(actions@) =~= actions_view(old(actions)@) + cached_lines(upstream@));
}

impl MinerSession {
    /// The connection of a new miner.
    pub fn new(miner_id: usize, worker_name: &str) -> (session: MinerSession)
        ensures
            session@ == new_session(miner_id as nat, worker_name@),
    {
        MinerSession {
            miner_id,
            constrained_extranonce: constrained_extranonce(miner_id),
            worker_name: worker_name.to_owned(),
            stage: Stage::Configure,
            pending: String::new(),
        }
    }

    /// Answers the subscribe request, or waits.
    fn answer_subscribe(&mut self, upstream: &UpstreamState) -> (actions: Vec<MinerAction>)
        requires
            room_for_extranonce(upstream@),
        ensures
            (final(self)@, actions_view(actions@)) == subscribe_step(old(self)@, upstream@),
            sends_single_lines(actions_view(actions@)),
            old(self).stage == Stage::Subscribe || old(self).stage == Stage::AwaitParams ==> (
            handshake_reply(old(self)@, upstream@) matches Some(document) ==> tells_first(
                actions_view(actions@),
                document,
            )),
    {
        proof {
            let params = upstream@.job_params->0;
            law_replies_are_plain(
                params.full_extranonce1,
                self.constrained_extranonce@,
                params.extranonce2_size as int,
                JsonView::Null,
            );
        }
        let action: MinerAction = match &upstream.job_params {
            Some(params) => {
                self.stage = Stage::Authorize;
                MinerAction::Send(
                    write_json(
                        subscribe_reply(
                            params.full_extranonce1.as_str(),
                            self.constrained_extranonce.as_str(),
                            params.extranonce2_size,
                        ),
                    ),
                )
            },
            None => {
                self.stage = Stage::AwaitParams;
                MinerAction::Wait
            },
        };
        let actions: Vec<MinerAction> = vec![action];
        assert(actions_view(actions@) =~= seq![action@]);
        actions
    }

    /// Takes in something that the miner sent.
    fn handle_line(&mut self, text: &str, upstream: &UpstreamState) -> (actions: Vec<MinerAction>)
        requires
            old(self).stage == Stage::Subscribe ==> room_for_extranonce(upstream@),
        ensures
            (final(self)@, actions_view(actions@)) == line_step(old(self)@, text@, upstream@),
            keeps_single_lines(upstream@) ==> sends_single_lines(actions_view(actions@)),
            old(self).stage != Stage::AwaitParams ==> (handshake_reply(
                old(self)@,
                upstream@,
            ) matches Some(document) ==> tells_first(actions_view(actions@), document)),
            old(self).stage == Stage::Mining && upstream@.job_params is Some
                ==> share_reaches_pool(
                old(self).pending@ + text@,
                old(self).constrained_extranonce@,
                old(self).worker_name@,
                actions_view(actions@),
            ),
            old(self).stage == Stage::Mining && upstream@.job_params is Some ==> (share_reply(
                old(self).pending@ + text@,
            ) matches Some(document) ==> plain(document, NESTING_LIMIT as nat) ==> tells_first(
                actions_view(actions@).skip(2),
                document,
            )),
    {
        proof {
            law_replies_are_plain(Seq::empty(), Seq::empty(), 0, JsonView::Null);
        }
        let mut actions: Vec<MinerAction> = Vec::new();
        match self.stage {
            Stage::Configure => {
                self.stage = Stage::Subscribe;
                actions.push(MinerAction::Send(write_json(configure_reply())));
            },
            Stage::Subscribe => {
                return self.answer_subscribe(upstream);
            },
            Stage::Authorize => {
                self.stage = Stage::Mining;
                actions.push(MinerAction::Send(write_json(authorize_reply())));
                assert(actions_view(actions@) =~= seq![actions@[0]@]);
                offer_cached_lines(&mut actions, upstream);
            },
            Stage::Mining => {
                self.pending.append(text);
                match &upstream.job_params {
                    Some(params) => {
                        let line: String = self.pending.clone();
                        self.pending = String::new();
                        return handle_mining_line(
                            line.as_str(),
                            self.constrained_extranonce.as_str(),
                            params.full_extranonce1.as_str(),
                            self.worker_name.as_str(),
                        );
                    },
                    None => {},
                }
            },
            _ => {},
        }
        assert(actions_view(actions@) =~= line_step(old(self)@, text@, upstream@).1);
        actions
    }

    /// Takes in the end of the miner's input.
    fn handle_end(&mut self, upstream: &UpstreamState) -> (actions: Vec<MinerAction>)
        ensures
            (final(self)@, actions_view(actions@)) == end_step(old(self)@, upstream@),
            keeps_single_lines(upstream@) ==> sends_single_lines(actions_view(actions@)),
    {
        let mut actions: Vec<MinerAction> = Vec::new();
        assert(actions_view(actions@) =~= seq![]);
        match self.stage {
            Stage::Configure => {
                self.stage = Stage::Subscribe;
            },
            Stage::Subscribe => {
                self.stage = Stage::Authorize;
            },
            Stage::Authorize => {
                self.stage = Stage::Mining;
                offer_cached_lines(&mut actions, upstream);
                assert(actions_view(actions@) =~= cached_lines(upstream@));
            },
            Stage::Mining => {
                self.stage = Stage::Closed;
            },
            _ => {},
        }
        actions
    }

    /// Takes in an event, and says what is to be done about it.
    pub fn step(&mut self, event: MinerEvent, upstream: &UpstreamState) -> (actions: Vec<
        MinerAction,
    >)
        requires
            old(self).stage == Stage::Subscribe && event is Line || old(self).stage
                == Stage::AwaitParams && event is Tick ==> room_for_extranonce(upstream@),
        ensures
            (final(self)@, actions_view(actions@)) == session_step(old(self)@, event@, upstream@),
            keeps_single_lines(upstream@) && (event matches MinerEvent::Job(text) ==> one_line(
                text@,
            )) ==> sends_single_lines(actions_view(actions@)),
            (if old(self).stage == Stage::AwaitParams {
                event is Tick
            } else {
                event is Line
            }) ==> (handshake_reply(old(self)@, upstream@) matches Some(document) ==> tells_first(
                actions_view(actions@),
                document,
            )),
            old(self).stage == Stage::Mining && upstream@.job_params is Some ==> (
            event matches MinerEvent::Line(text) ==> share_reaches_pool(
                old(self).pending@ + text@,
                old(self).constrained_extranonce@,
                old(self).worker_name@,
                actions_view(actions@),
            )),
            old(self).stage == Stage::Mining && upstream@.job_params is Some ==> (
            event matches MinerEvent::Line(text) ==> (share_reply(
                old(self).pending@ + text@,
            ) matches Some(document) ==> plain(document, NESTING_LIMIT as nat) ==> tells_first(
                actions_view(actions@).skip(2),
                document,
            ))),
    {
        let mut actions: Vec<MinerAction> = Vec::new();
        assert(actions_view(actions@) =~= seq![]);
        match event {
            MinerEvent::Line(text) => {
                return self.handle_line(text.as_str(), upstream);
            },
            MinerEvent::EndOfInput => {
                return self.handle_end(upstream);
            },
            MinerEvent::ReadFailed => {
                self.stage = Stage::Closed;
            },
            MinerEvent::Tick => {
                if self.stage == Stage::AwaitParams {
                    return self.answer_subscribe(upstream);
                }
            },
            MinerEvent::Job(text) => {
                if self.stage == Stage::Mining {
                    actions.push(MinerAction::Send(text));
                    assert(actions_view(actions@) =~= seq![MinerActionView::Send(text@)]);
                }
            },
        }
        actions
    }

    /// Takes in that something which was to be done failed.
    pub fn action_failed(&mut self, action: &MinerAction)
        ensures
            final(self)@ == after_failure(old(self)@, action@),
    {
        match action {
            MinerAction::Send(_) | MinerAction::SubmitShare(_) => {
                self.stage = Stage::Closed;
            },
            _ => {},
        }
    }
}

/// The number that follows a miner's.
pub open spec fn next_id(id: nat) -> nat {
    if id < usize::MAX {
        id + 1
    } else {
        0
    }
}

/// Gives each miner a number of its own, whatever becomes of its connection.
#[derive(Debug, PartialEq)]
pub struct MinerIds {
    pub next: usize,
}

impl MinerIds {
    /// No number is given yet.
    pub fn new() -> (ids: MinerIds)
        ensures
            ids.next == 0,
    {
        MinerIds { next: 0 }
    }

    /// Gives the next number.
    pub fn assign(&mut self) -> (id: usize)
        ensures
            id == old(self).next,
            final(self).next == next_id(old(self).next as nat),
    {
        let id: usize = self.next;
        self.next = id.wrapping_add(1);
        id
    }
}

/// The number that is given after `count` others.
pub open spec fn assigned_id(count: nat) -> nat
    decreases count,
{
    if count == 0 {
        0
    } else {
        next_id(assigned_id((count - 1) as nat))
    }
}

/// Miners are numbered in turn, until the numbers start anew.
pub proof fn law_ids_are_given_in_turn(count: nat)
    requires
        count <= usize::MAX,
    ensures
        assigned_id(count) == count,
    decreases count,
{
    if count > 0 {
        law_ids_are_given_in_turn((count - 1) as nat);
    }
}

/// No two miners are told the same first extranonce, until the numbers start anew: whichever two
/// numbers were given them, the second fields of the results in their subscribe replies differ.
pub proof fn law_subscribe_replies_differ(
    one: nat,
    other: nat,
    full_extranonce1: Seq<char>,
    extranonce2_size: int,
    other_size: int,
)
    requires
        one != other,
        one <= usize::MAX,
        other <= usize::MAX,
    ensures
        ({
            let told = subscribe_reply_view(
                full_extranonce1,
                constrained(assigned_id(one)),
                extranonce2_size,
            ).field_item("result"@, 1);
            let told_other = subscribe_reply_view(
                full_extranonce1,
                constrained(assigned_id(other)),
                other_size,
            ).field_item("result"@, 1);
            &&& told is Some
            &&& told_other is Some
            &&& told != told_other
        }),
{
    reveal_strlit("result");
    reveal_strlit("error");
    assert("result"@.len() != "error"@.len());
    law_ids_are_given_in_turn(one);
    law_ids_are_given_in_turn(other);
    law_extranonce_is_unique(one, other);
    let mine = constrained(one);
    let theirs = constrained(other);
    if full_extranonce1 + mine == full_extranonce1 + theirs {
        assert((full_extranonce1 + mine).skip(full_extranonce1.len() as int) =~= mine);
        assert((full_extranonce1 + theirs).skip(full_extranonce1.len() as int) =~= theirs);
    }
}

/// How far a stage is along the connection.
pub open spec fn progress(stage: Stage) -> int {
    match stage {
        Stage::Configure => 0,
        Stage::Subscribe => 1,
        Stage::AwaitParams => 2,
        Stage::Authorize => 3,
        Stage::Mining => 4,
        Stage::Closed => 5,
    }
}

/// A connection after a run of events, each with what the proxy knew of the pool by then.
pub open spec fn session_run(
    session: SessionView,
    history: Seq<(MinerEventView, UpstreamView)>,
) -> SessionView
    decreases history.len(),
{
    if history.len() == 0 {
        session
    } else {
        session_step(
            session_run(session, history.drop_last()),
            history.last().0,
            history.last().1,
        ).0
    }
}

/// Whatever happens, a connection keeps its miner's number, extranonce and worker, and never goes
/// back to an earlier stage.
pub proof fn law_session_moves_forward(
    session: SessionView,
    history: Seq<(MinerEventView, UpstreamView)>,
)
    ensures
        ({
            let after = session_run(session, history);
            &&& after.miner_id == session.miner_id
            &&& after.constrained_extranonce == session.constrained_extranonce
            &&& after.worker_name == session.worker_name
            &&& progress(after.stage) >= progress(session.stage)
        }),
    decreases history.len(),
{
    if history.len() > 0 {
        law_session_moves_forward(session, history.drop_last());
    }
}

/// Once a connection is over, it stays over, and nothing more is done for the miner.
pub proof fn law_closed_is_final(
    session: SessionView,
    event: MinerEventView,
    upstream: UpstreamView,
)
    requires
        session.stage == Stage::Closed,
    ensures
        session_step(session, event, upstream) == (session, Seq::<MinerActionView>::empty()),
{
}

/// A miner that sends its three requests, when the pool's extranonce is known, gets the three
/// replies in that order, then the newest difficulty and the newest job, and then mines.
pub proof fn law_handshake(
    miner_id: nat,
    worker_name: Seq<char>,
    configure: Seq<char>,
    subscribe: Seq<char>,
    authorize: Seq<char>,
    upstream: UpstreamView,
)
    requires
        upstream.job_params is Some,
    ensures
        ({
            let params = upstream.job_params->0;
            let start = new_session(miner_id, worker_name);
            let (first, told) = session_step(start, MinerEventView::Line(configure), upstream);
            let (second, subscribed) = session_step(
                first,
                MinerEventView::Line(subscribe),
                upstream,
            );
            let (third, authorized) = session_step(
                second,
                MinerEventView::Line(authorize),
                upstream,
            );
            &&& told + subscribed + authorized =~= seq![
                MinerActionView::Send(json_text(configure_reply_view())),
                MinerActionView::Send(
                    json_text(
                        subscribe_reply_view(
                            params.full_extranonce1,
                            constrained(miner_id),
                            params.extranonce2_size as int,
                        ),
                    ),
                ),
                MinerActionView::Send(json_text(authorize_reply_view())),
            ] + cached_lines(upstream)
            &&& third == SessionView { stage: Stage::Mining, ..start }
        }),
{
}

/// The lines that a miner gets as soon as it is authorized are the newest ones that the pool sent,
/// whenever the miner came.
pub proof fn law_new_miner_gets_newest_lines(history: Seq<(Seq<char>, UpstreamMessageView)>)
    ensures
        ({
            let given = cached_lines(upstream_run(initial_upstream(), history));
            match (newest_difficulty(history), newest_job(history)) {
                (Some(difficulty), Some(job)) => given =~= seq![
                    MinerActionView::Offer(difficulty),
                    MinerActionView::Offer(job),
                ],
                (Some(difficulty), None) => given =~= seq![MinerActionView::Offer(difficulty)],
                (None, Some(job)) => given =~= seq![MinerActionView::Offer(job)],
                (None, None) => given =~= seq![],
            }
        }),
{
    law_newest_lines_are_kept(history);
}

/// A miner's subscribe request is not answered before the pool's extranonce is known: the
/// connection waits, however often it is told to look, and then gives the reply that it would have
/// given at once.
pub proof fn law_subscribe_waits_for_params(
    session: SessionView,
    line: Seq<char>,
    unknown: UpstreamView,
    known: UpstreamView,
)
    requires
        session.stage == Stage::Subscribe,
        unknown.job_params is None,
        known.job_params is Some,
    ensures
        ({
            let (waiting, nothing) = session_step(session, MinerEventView::Line(line), unknown);
            &&& nothing == seq![MinerActionView::Wait]
            &&& session_step(waiting, MinerEventView::Tick, unknown) == (waiting, nothing)
            &&& session_step(waiting, MinerEventView::Tick, known) == session_step(
                session,
                MinerEventView::Line(line),
                known,
            )
        }),
{
}

/// Shares are reported and handed on only for a miner that got through its requests.
pub proof fn law_shares_come_from_mining(
    session: SessionView,
    event: MinerEventView,
    upstream: UpstreamView,
    i: int,
)
    requires
        0 <= i < session_step(session, event, upstream).1.len(),
        ({
            let action = session_step(session, event, upstream).1[i];
            action is ReportShare || action is SubmitShare
        }),
    ensures
        session.stage == Stage::Mining,
        event is Line,
{
}

/// A share of a miner that mines is reported as it came, handed on to the pool with the miner's
/// extranonce and the proxy's worker in it, and answered as accepted under its own number, in this
/// order and once each.
pub proof fn law_share_is_handed_on(
    session: SessionView,
    line: Seq<char>,
    message: JsonView,
    id: JsonView,
    upstream: UpstreamView,
)
    requires
        session.stage == Stage::Mining,
        session.pending == Seq::<char>::empty(),
        upstream.job_params is Some,
        json_of(line) == Some(message),
        message.field("method"@) == Some(JsonView::Text("mining.submit"@)),
        message.field("id"@) == Some(id),
    ensures
        session_step(session, MinerEventView::Line(line), upstream) == (
            session,
            seq![
                MinerActionView::ReportShare(trimmed(line)),
                MinerActionView::SubmitShare(
                    json_text(
                        pool_message(message, session.constrained_extranonce, session.worker_name),
                    ),
                ),
                MinerActionView::Send(json_text(submission_reply_view(id))),
            ],
        ),
{
    assert(session.pending + line =~= line);
    assert(session_step(session, MinerEventView::Line(line), upstream).1 =~= seq![
        MinerActionView::ReportShare(trimmed(line)),
        MinerActionView::SubmitShare(
            json_text(pool_message(message, session.constrained_extranonce, session.worker_name)),
        ),
        MinerActionView::Send(json_text(submission_reply_view(id))),
    ]);
}

/// Nothing that a miner sent is left over, but for what it sent while it mined and the pool's
/// extranonce was unknown. Where that is known, every line is dealt with as it comes.
pub proof fn law_lines_are_dealt_with(
    miner_id: nat,
    worker_name: Seq<char>,
    history: Seq<(MinerEventView, UpstreamView)>,
)
    ensures
        ({
            let after = session_run(new_session(miner_id, worker_name), history);
            &&& progress(after.stage) < progress(Stage::Mining) ==> after.pending.len() == 0
            &&& (forall|i: int|
                0 <= i < history.len() ==> (#[trigger] history[i]).1.job_params is Some)
                ==> after.pending.len() == 0
        }),
    decreases history.len(),
{
    if history.len() > 0 {
        law_lines_are_dealt_with(miner_id, worker_name, history.drop_last());
        assert forall|i: int|
            (forall|j: int|
                0 <= j < history.len() ==> (#[trigger] history[j]).1.job_params is Some) && 0 <= i
                < history.drop_last().len() implies (
        #[trigger] history.drop_last()[i]).1.job_params is Some by {
            assert(history.drop_last()[i] == history[i]);
        }
        assert(history.last() == history[history.len() - 1]);
    }
}

/// Every line for all miners goes to a miner that mines, as it is, whatever the proxy knows of the
/// pool, and to no miner that does not mine yet or any more.
pub proof fn law_jobs_reach_mining_miners(
    session: SessionView,
    text: Seq<char>,
    upstream: UpstreamView,
)
    ensures
        session.stage == Stage::Mining ==> session_step(
            session,
            MinerEventView::Job(text),
            upstream,
        ) == (session, seq![MinerActionView::Send(text)]),
        session.stage != Stage::Mining ==> session_step(
            session,
            MinerEventView::Job(text),
            upstream,
        ) == (session, Seq::<MinerActionView>::empty()),
{
}

/// A line that the pool sends with a job, or with a difficulty that is a number, reaches every
/// miner that mines: what the proxy takes in is what it hands to the connections, and they send
/// it, without the white space around it.
pub proof fn law_pool_lines_reach_every_miner(
    session: SessionView,
    upstream: UpstreamView,
    line: Seq<char>,
    document: JsonView,
)
    requires
        session.stage == Stage::Mining,
        trimmed(line).len() > 0,
        json_of(trimmed(line)) == Some(document),
        document.field("method"@) == Some(JsonView::Text("mining.notify"@)) || document.field(
            "method"@,
        ) == Some(JsonView::Text("mining.set_difficulty"@)) && (document.field_item("params"@, 0)
            matches Some(JsonView::Number(_))),
    ensures
        ({
            let (after, reaction) = upstream_line(upstream, line);
            &&& reaction.broadcast is Some
            &&& session_step(session, MinerEventView::Job(reaction.broadcast->0), after).1 =~= seq![
                MinerActionView::Send(trimmed(line)),
            ]
        }),
{
    law_pool_lines_reach_miners(upstream, line, document);
}

/// The first thing that a miner sends is answered as a configure request.
pub proof fn law_configure_is_answered(
    session: SessionView,
    text: Seq<char>,
    upstream: UpstreamView,
)
    requires
        session.stage == Stage::Configure,
    ensures
        ({
            let (after, actions) = session_step(session, MinerEventView::Line(text), upstream);
            &&& after.stage == Stage::Subscribe
            &&& after.pending == session.pending
            &&& actions.len() == 1
            &&& actions[0] == MinerActionView::Send(json_text(configure_reply_view()))
        }),
{
}

/// The second thing that a miner sends is answered as a subscribe request, once the pool's
/// extranonce is known, with that and the miner's own.
pub proof fn law_subscribe_is_answered(
    session: SessionView,
    event: MinerEventView,
    upstream: UpstreamView,
)
    requires
        session.stage == Stage::Subscribe && event is Line || session.stage == Stage::AwaitParams
            && event is Tick,
    ensures
        ({
            let (after, actions) = session_step(session, event, upstream);
            &&& after.pending == session.pending
            &&& actions.len() == 1
            &&& upstream.job_params is None ==> after.stage == Stage::AwaitParams && actions[0]
                == MinerActionView::Wait
            &&& upstream.job_params matches Some(params) ==> after.stage == Stage::Authorize
                && actions[0] == MinerActionView::Send(
                json_text(
                    subscribe_reply_view(
                        params.full_extranonce1,
                        session.constrained_extranonce,
                        params.extranonce2_size as int,
                    ),
                ),
            )
        }),
{
}

/// The third thing that a miner sends is answered as an authorize request. Behind the answer come
/// the newest difficulty and the newest job, as far as there are any, and then the miner mines.
pub proof fn law_authorize_is_answered(
    session: SessionView,
    text: Seq<char>,
    upstream: UpstreamView,
)
    requires
        session.stage == Stage::Authorize,
    ensures
        ({
            let (after, actions) = session_step(session, MinerEventView::Line(text), upstream);
            let difficulties: int = if upstream.last_difficulty is Some {
                1
            } else {
                0
            };
            let jobs: int = if upstream.last_notify is Some {
                1
            } else {
                0
            };
            &&& after.stage == Stage::Mining
            &&& after.pending == session.pending
            &&& actions.len() == 1 + difficulties + jobs
            &&& actions[0] == MinerActionView::Send(json_text(authorize_reply_view()))
            &&& upstream.last_difficulty matches Some(difficulty) ==> actions[1]
                == MinerActionView::Offer(difficulty)
            &&& upstream.last_notify matches Some(job) ==> actions[actions.len() - 1]
                == MinerActionView::Offer(job)
        }),
{
}

/// The end of a miner's input brings the miner on without an answer. Before it would mine it gets
/// the newest difficulty and the newest job, as far as there are any, and after that the
/// connection is over.
pub proof fn law_end_of_input(session: SessionView, upstream: UpstreamView)
    ensures
        ({
            let (after, actions) = session_step(session, MinerEventView::EndOfInput, upstream);
            &&& after.pending == session.pending
            &&& after.stage == match session.stage {
                Stage::Configure => Stage::Subscribe,
                Stage::Subscribe => Stage::Authorize,
                Stage::AwaitParams => Stage::AwaitParams,
                Stage::Authorize => Stage::Mining,
                Stage::Mining => Stage::Closed,
                Stage::Closed => Stage::Closed,
            }
            &&& session.stage != Stage::Authorize ==> actions.len() == 0
            &&& session.stage == Stage::Authorize ==> actions =~= match (
                upstream.last_difficulty,
                upstream.last_notify,
            ) {
                (Some(difficulty), Some(job)) => seq![
                    MinerActionView::Offer(difficulty),
                    MinerActionView::Offer(job),
                ],
                (Some(difficulty), None) => seq![MinerActionView::Offer(difficulty)],
                (None, Some(job)) => seq![MinerActionView::Offer(job)],
                (None, None) => seq![],
            }
        }),
{
}

/// A failed read ends a connection, and nothing more is done for the miner.
pub proof fn law_failed_read_ends_session(session: SessionView, upstream: UpstreamView)
    ensures
        session_step(session, MinerEventView::ReadFailed, upstream).0.stage == Stage::Closed,
        session_step(session, MinerEventView::ReadFailed, upstream).0.pending == session.pending,
        session_step(session, MinerEventView::ReadFailed, upstream).1.len() == 0,
{
}

/// Looking again for the pool's extranonce matters only to a miner that waits for it, and what a
/// miner sends while it waits changes nothing.
pub proof fn law_only_waiting_miners_look_again(
    session: SessionView,
    text: Seq<char>,
    upstream: UpstreamView,
)
    ensures
        session.stage != Stage::AwaitParams ==> session_step(
            session,
            MinerEventView::Tick,
            upstream,
        ) == (session, Seq::<MinerActionView>::empty()),
        session.stage == Stage::AwaitParams ==> session_step(
            session,
            MinerEventView::Line(text),
            upstream,
        ) == (session, Seq::<MinerActionView>::empty()),
{
}

/// What a miner that mines sends: while the pool's extranonce is unknown it is only put behind
/// what came before. Else all of it is dealt with. A document whose method is `mining.submit`,
/// whatever else it holds, is reported without the white space around it and handed on to the
/// pool, and answered under its number if it has one. Anything else is dropped.
pub proof fn law_mining_lines_are_dealt_with(
    session: SessionView,
    text: Seq<char>,
    upstream: UpstreamView,
)
    requires
        session.stage == Stage::Mining,
    ensures
        ({
            let (after, actions) = session_step(session, MinerEventView::Line(text), upstream);
            let line = session.pending + text;
            let document = json_of(line);
            let share = document is Some && document->0.field("method"@) == Some(
                JsonView::Text("mining.submit"@),
            );
            &&& after.stage == Stage::Mining
            &&& upstream.job_params is None ==> after.pending == line && actions.len() == 0
            &&& upstream.job_params is Some ==> {
                &&& after.pending.len() == 0
                &&& !share ==> actions.len() == 0
                &&& share ==> {
                    &&& actions.len() >= 2
                    &&& actions[0] == MinerActionView::ReportShare(trimmed(line))
                    &&& actions[1] == MinerActionView::SubmitShare(
                        json_text(
                            pool_message(
                                document->0,
                                session.constrained_extranonce,
                                session.worker_name,
                            ),
                        ),
                    )
                    &&& document->0.field("id"@) is None ==> actions.len() == 2
                    &&& document->0.field("id"@) matches Some(id) ==> actions.len() == 3
                        && actions[2] == MinerActionView::Send(
                        json_text(submission_reply_view(id)),
                    )
                }
            }
        }),
{
}

/// A new miner starts with nothing said, with its own number, the extranonce that goes with that
/// and the proxy's worker.
pub proof fn law_new_session(miner_id: nat, worker_name: Seq<char>)
    ensures
        new_session(miner_id, worker_name).stage == Stage::Configure,
        new_session(miner_id, worker_name).pending.len() == 0,
        new_session(miner_id, worker_name).miner_id == miner_id,
        new_session(miner_id, worker_name).constrained_extranonce == constrained(miner_id),
        new_session(miner_id, worker_name).worker_name == worker_name,
{
}

/// A connection is over once a message that the miner waits for cannot be sent or a share cannot
/// be handed on. Any other failure, and anything else of the connection, is left as it is.
pub proof fn law_failures(session: SessionView, text: Seq<char>)
    ensures
        after_failure(session, MinerActionView::Send(text)).stage == Stage::Closed,
        after_failure(session, MinerActionView::SubmitShare(text)).stage == Stage::Closed,
        after_failure(session, MinerActionView::Offer(text)) == session,
        after_failure(session, MinerActionView::ReportShare(text)) == session,
        after_failure(session, MinerActionView::Wait) == session,
        forall|action: MinerActionView|
            {
                let after = #[trigger] after_failure(session, action);
                &&& after.miner_id == session.miner_id
                &&& after.constrained_extranonce == session.constrained_extranonce
                &&& after.worker_name == session.worker_name
                &&& after.pending == session.pending
            },
{
}

/// The views of a connection, its events and what is to be done leave nothing out: each field is
/// there, and a text by its characters.
pub proof fn law_miner_views_are_faithful(
    session: MinerSession,
    event: MinerEvent,
    action: MinerAction,
    actions: Seq<MinerAction>,
    index: int,
)
    ensures
        session@.miner_id == session.miner_id,
        session@.constrained_extranonce == session.constrained_extranonce@,
        session@.worker_name == session.worker_name@,
        session@.stage == session.stage,
        session@.pending == session.pending@,
        match event {
            MinerEvent::Line(text) => event@ == MinerEventView::Line(text@),
            MinerEvent::EndOfInput => event@ is EndOfInput,
            MinerEvent::ReadFailed => event@ is ReadFailed,
            MinerEvent::Tick => event@ is Tick,
            MinerEvent::Job(text) => event@ == MinerEventView::Job(text@),
        },
        match action {
            MinerAction::Send(text) => action@ == MinerActionView::Send(text@),
            MinerAction::Offer(text) => action@ == MinerActionView::Offer(text@),
            MinerAction::ReportShare(text) => action@ == MinerActionView::ReportShare(text@),
            MinerAction::SubmitShare(text) => action@ == MinerActionView::SubmitShare(text@),
            MinerAction::Wait => action@ is Wait,
        },
        actions_view(actions).len() == actions.len(),
        0 <= index < actions.len() ==> actions_view(actions)[index] == actions[index]@,
{
}

/// The numbers of miners go up by one, and after the highest they start anew from zero.
pub proof fn law_ids_go_up_by_one(id: usize)
    ensures
        id < usize::MAX ==> next_id(id as nat) == id + 1,
        id == usize::MAX ==> next_id(id as nat) == 0,
        assigned_id(0) == 0,
{
}

/// There is room for a miner's extranonce if the pool gives two bytes or more for the second one,
/// and nothing stands in the way before the pool says how many.
pub proof fn law_two_bytes_are_room_enough(upstream: UpstreamView)
    ensures
        upstream.job_params is None ==> room_for_extranonce(upstream),
        upstream.job_params matches Some(params) ==> (room_for_extranonce(upstream)
            <==> params.extranonce2_size >= 2),
{
}

/// What is done for a share: it is reported, then handed on, and then answered under its number if
/// it has one.
pub proof fn law_share_actions(message: JsonView, reported: Seq<char>, submitted: Seq<char>)
    ensures
        ({
            let actions = share_actions(message, reported, submitted);
            &&& actions.len() >= 2
            &&& actions[0] == MinerActionView::ReportShare(reported)
            &&& actions[1] == MinerActionView::SubmitShare(submitted)
            &&& message.field("id"@) is None ==> actions.len() == 2
            &&& message.field("id"@) matches Some(id) ==> actions.len() == 3 && actions[2]
                == MinerActionView::Send(json_text(submission_reply_view(id)))
        }),
{
}

} // verus!
