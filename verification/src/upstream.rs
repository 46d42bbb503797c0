//! What the proxy learns from the pool, and what it passes on to its miners.
use vstd::prelude::*;

use crate::codec::{json_of, one_line, read_json};
use crate::json::{Json, JsonNumber, JsonView};
use crate::line::{lemma_trimmed_line, read_line, trimmed};
use crate::message::{
    AUTHORIZE_ID, DEFAULT_DIFFICULTY, SUBSCRIBE_ID, authorize_request_view, subscribe_request_view,
};

verus! {

/// What the pool set for the proxy's jobs.
#[derive(Debug, PartialEq)]
pub struct JobParams {
    pub coinb1: String,
    pub coinb2: String,
    pub full_extranonce1: String,
    pub extranonce2_size: usize,
    /// The difficulty, as the number that the pool wrote.
    pub difficulty: JsonNumber,
}

/// The values of `JobParams`.
pub struct JobParamsView {
    pub coinb1: Seq<char>,
    pub coinb2: Seq<char>,
    pub full_extranonce1: Seq<char>,
    pub extranonce2_size: usize,
    pub difficulty: JsonNumber,
}

impl View for JobParams {
    type V = JobParamsView;

    open spec fn view(&self) -> JobParamsView {
        JobParamsView {
            coinb1: self.coinb1@,
            coinb2: self.coinb2@,
            full_extranonce1: self.full_extranonce1@,
            extranonce2_size: self.extranonce2_size,
            difficulty: self.difficulty,
        }
    }
}

/// What the proxy keeps of the pool's messages.
#[derive(Debug, PartialEq)]
pub struct UpstreamState {
    /// What the pool answered to the subscription.
    pub job_params: Option<JobParams>,
    /// The newest job, as the line that brought it.
    pub last_notify: Option<String>,
    /// The newest difficulty, as the line that brought it.
    pub last_difficulty: Option<String>,
    /// The previous block's hash of the newest job that had one.
    pub last_prev_hash: Option<String>,
}

/// The values of `UpstreamState`.
pub struct UpstreamView {
    pub job_params: Option<JobParamsView>,
    pub last_notify: Option<Seq<char>>,
    pub last_difficulty: Option<Seq<char>>,
    pub last_prev_hash: Option<Seq<char>>,
}

/// The characters of a text that may be missing.
pub open spec fn text_view(text: Option<String>) -> Option<Seq<char>> {
    match text {
        Some(s) => Some(s@),
        None => None,
    }
}

impl View for UpstreamState {
    type V = UpstreamView;

    open spec fn view(&self) -> UpstreamView {
        UpstreamView {
            job_params: match self.job_params {
                Some(params) => Some(params@),
                None => None,
            },
            last_notify: text_view(self.last_notify),
            last_difficulty: text_view(self.last_difficulty),
            last_prev_hash: text_view(self.last_prev_hash),
        }
    }
}

/// The state before any message.
pub open spec fn initial_upstream() -> UpstreamView {
    UpstreamView {
        job_params: None,
        last_notify: None,
        last_difficulty: None,
        last_prev_hash: None,
    }
}

/// A message of the pool, as far as the proxy acts on it.
#[derive(Debug, PartialEq)]
pub enum UpstreamMessage {
    /// A job, with the hash of the previous block where it has one.
    Notify { prev_hash: Option<String> },
    /// A difficulty, where it is a number.
    SetDifficulty { difficulty: Option<JsonNumber> },
    /// The reply to the subscription.
    Subscribed { full_extranonce1: String, extranonce2_size: u64 },
    /// The reply to the authorization.
    Authorized { accepted: bool },
    /// Anything else.
    Other,
}

/// The values of `UpstreamMessage`.
pub enum UpstreamMessageView {
    Notify { prev_hash: Option<Seq<char>> },
    SetDifficulty { difficulty: Option<JsonNumber> },
    Subscribed { full_extranonce1: Seq<char>, extranonce2_size: u64 },
    Authorized { accepted: bool },
    Other,
}

impl View for UpstreamMessage {
    type V = UpstreamMessageView;

    open spec fn view(&self) -> UpstreamMessageView {
        match self {
            UpstreamMessage::Notify { prev_hash } => UpstreamMessageView::Notify {
                prev_hash: text_view(*prev_hash),
            },
            UpstreamMessage::SetDifficulty { difficulty } => UpstreamMessageView::SetDifficulty {
                difficulty: *difficulty,
            },
            UpstreamMessage::Subscribed { full_extranonce1, extranonce2_size } =>
                UpstreamMessageView::Subscribed {
                full_extranonce1: full_extranonce1@,
                extranonce2_size: *extranonce2_size,
            },
            UpstreamMessage::Authorized { accepted } => UpstreamMessageView::Authorized {
                accepted: *accepted,
            },
            UpstreamMessage::Other => UpstreamMessageView::Other,
        }
    }
}

/// What the proxy reports on its console of a message.
#[derive(Clone, Copy, Debug, PartialEq, Eq, Structural)]
pub enum Report {
    Nothing,
    NotJson,
    DifficultyStored,
    ParamsStored,
    CachedJobSent,
    AuthorizeFailed,
}

/// What the proxy does about a message.
#[derive(Debug, PartialEq)]
pub struct Reaction {
    /// The job to report as the first one for a new block.
    pub new_block: Option<String>,
    /// The line that goes to all miners.
    pub broadcast: Option<String>,
    pub report: Report,
}

/// The values of `Reaction`.
pub struct ReactionView {
    pub new_block: Option<Seq<char>>,
    pub broadcast: Option<Seq<char>>,
    pub report: Report,
}

impl View for Reaction {
    type V = ReactionView;

    open spec fn view(&self) -> ReactionView {
        ReactionView {
            new_block: text_view(self.new_block),
            broadcast: text_view(self.broadcast),
            report: self.report,
        }
    }
}

/// Doing nothing, but for a report.
pub open spec fn only_report(report: Report) -> ReactionView {
    ReactionView { new_block: None, broadcast: None, report }
}

/// The message that a reply is: it goes by the number of the request that it answers.
pub open spec fn reply_of(document: JsonView) -> UpstreamMessageView {
    let id = match document.field("id"@) {
        Some(v) => v.unsigned(),
        None => None,
    };
    if id == Some(SUBSCRIBE_ID) {
        match (document.field_item("result"@, 1), document.field_item("result"@, 2)) {
            (
                Some(JsonView::Text(full_extranonce1)),
                Some(JsonView::Number(JsonNumber::Unsigned(extranonce2_size))),
            ) => UpstreamMessageView::Subscribed { full_extranonce1, extranonce2_size },
            _ => UpstreamMessageView::Other,
        }
    } else if id == Some(AUTHORIZE_ID) {
        match document.field("result"@) {
            Some(result) => UpstreamMessageView::Authorized {
                accepted: result == JsonView::Bool(true),
            },
            None => UpstreamMessageView::Other,
        }
    } else {
        UpstreamMessageView::Other
    }
}

/// The message that a document is.
pub open spec fn message_of(document: JsonView) -> UpstreamMessageView {
    let method = document.field_text("method"@);
    if method == Some("mining.notify"@) {
        UpstreamMessageView::Notify {
            prev_hash: match document.field_item("params"@, 1) {
                Some(JsonView::Text(hash)) => Some(hash),
                Some(_) => Some(Seq::empty()),
                None => None,
            },
        }
    } else if method == Some("mining.set_difficulty"@) {
        UpstreamMessageView::SetDifficulty {
            difficulty: match document.field_item("params"@, 0) {
                Some(JsonView::Number(n)) => Some(n),
                _ => None,
            },
        }
    } else {
        reply_of(document)
    }
}

/// What a message does, and what the proxy does about it. `text` is the line that brought the
/// message.
pub open spec fn upstream_step(
    state: UpstreamView,
    text: Seq<char>,
    message: UpstreamMessageView,
) -> (UpstreamView, ReactionView) {
    match message {
        UpstreamMessageView::Notify { prev_hash } => (
            UpstreamView {
                last_notify: Some(text),
                last_prev_hash: if prev_hash is Some {
                    prev_hash
                } else {
                    state.last_prev_hash
                },
                ..state
            },
            ReactionView {
                new_block: if prev_hash is Some && prev_hash != state.last_prev_hash {
                    Some(text)
                } else {
                    None
                },
                broadcast: Some(text),
                report: Report::Nothing,
            },
        ),
        UpstreamMessageView::SetDifficulty { difficulty: Some(difficulty) } => (
            UpstreamView {
                job_params: match state.job_params {
                    Some(params) => Some(JobParamsView { difficulty, ..params }),
                    None => None,
                },
                last_difficulty: Some(text),
                ..state
            },
            ReactionView {
                new_block: None,
                broadcast: Some(text),
                report: if state.job_params is Some {
                    Report::DifficultyStored
                } else {
                    Report::Nothing
                },
            },
        ),
        UpstreamMessageView::Subscribed { full_extranonce1, extranonce2_size } => (
            UpstreamView {
                job_params: Some(
                    JobParamsView {
                        coinb1: Seq::empty(),
                        coinb2: Seq::empty(),
                        full_extranonce1,
                        extranonce2_size: extranonce2_size as usize,
                        difficulty: JsonNumber::Unsigned(DEFAULT_DIFFICULTY as u64),
                    },
                ),
                ..state
            },
            only_report(Report::ParamsStored),
        ),
        UpstreamMessageView::Authorized { accepted: true } => (
            state,
            ReactionView {
                new_block: None,
                broadcast: state.last_notify,
                report: if state.last_notify is Some {
                    Report::CachedJobSent
                } else {
                    Report::Nothing
                },
            },
        ),
        UpstreamMessageView::Authorized { accepted: false } => (
            state,
            only_report(Report::AuthorizeFailed),
        ),
        _ => (state, only_report(Report::Nothing)),
    }
}

/// What a line from the pool does, and what the proxy does about it.
pub open spec fn upstream_line(state: UpstreamView, line: Seq<char>) -> (
    UpstreamView,
    ReactionView,
) {
    let text = trimmed(line);
    if text.len() == 0 {
        (state, only_report(Report::Nothing))
    } else {
        match json_of(text) {
            Some(document) => upstream_step(state, text, message_of(document)),
            None => (state, only_report(Report::NotJson)),
        }
    }
}

/// Reads the reply that a document is.
fn read_reply(document: &Json) -> (message: UpstreamMessage)
    ensures
        message@ == reply_of(document@),
{
    let id: Option<u64> = match document.get("id") {
        Some(v) => v.unsigned(),
        None => None,
    };
    match id {
        Some(number) => if number == SUBSCRIBE_ID {
            let extranonce1: Option<&str> = match document.field_item("result", 1) {
                Some(v) => v.text(),
                None => None,
            };
            let size: Option<u64> = match document.field_item("result", 2) {
                Some(v) => v.unsigned(),
                None => None,
            };
            match (extranonce1, size) {
                (Some(full), Some(extranonce2_size)) => UpstreamMessage::Subscribed {
                    full_extranonce1: full.to_owned(),
                    extranonce2_size,
                },
                _ => UpstreamMessage::Other,
            }
        } else if number == AUTHORIZE_ID {
            match document.get("result") {
                Some(Json::Bool(accepted)) => UpstreamMessage::Authorized { accepted: *accepted },
                Some(_) => UpstreamMessage::Authorized { accepted: false },
                None => UpstreamMessage::Other,
            }
        } else {
            UpstreamMessage::Other
        },
        None => UpstreamMessage::Other,
    }
}

/// Reads the message that a document is.
pub fn read_message(document: Json) -> (message: UpstreamMessage)
    ensures
        message@ == message_of(document@),
{
    let method: String = match document.field_text("method") {
        Some(s) => s.to_owned(),
        None => {
            return read_reply(&document);
        },
    };
    if method == "mining.notify".to_owned() {
        let prev_hash: Option<String> = match document.field_item("params", 1) {
            Some(v) => match v.text() {
                Some(hash) => Some(hash.to_owned()),
                None => Some(String::new()),
            },
            None => None,
        };
        UpstreamMessage::Notify { prev_hash }
    } else if method == "mining.set_difficulty".to_owned() {
        let first: Option<Json> = match document.take("params") {
            Some(params) => params.take_item(0),
            None => None,
        };
        let difficulty: Option<JsonNumber> = match first {
            Some(Json::Number(n)) => Some(n),
            _ => None,
        };
        UpstreamMessage::SetDifficulty { difficulty }
    } else {
        read_reply(&document)
    }
}

impl Reaction {
    /// Doing nothing, but for a report.
    fn only(report: Report) -> (reaction: Reaction)
        ensures
            reaction@ == only_report(report),
    {
        Reaction { new_block: None, broadcast: None, report }
    }
}

impl UpstreamState {
    /// The state before any message.
    pub fn new() -> (state: UpstreamState)
        ensures
            state@ == initial_upstream(),
    {
        UpstreamState {
            job_params: None,
            last_notify: None,
            last_difficulty: None,
            last_prev_hash: None,
        }
    }

    /// Takes in a message that the line `text` brought.
    pub fn apply(&mut self, text: &str, message: UpstreamMessage) -> (reaction: Reaction)
        ensures
            (final(self)@, reaction@) == upstream_step(old(self)@, text@, message@),
    {
        match message {
            UpstreamMessage::Notify { prev_hash } => {
                let new_block: Option<String> = match prev_hash {
                    Some(hash) => {
                        let changed: bool = match &self.last_prev_hash {
                            Some(last) => *last != hash,
                            None => true,
                        };
                        if changed {
                            self.last_prev_hash = Some(hash);
                            Some(text.to_owned())
                        } else {
                            None
                        }
                    },
                    None => None,
                };
                self.last_notify = Some(text.to_owned());
                Reaction { new_block, broadcast: Some(text.to_owned()), report: Report::Nothing }
            },
            UpstreamMessage::SetDifficulty { difficulty: Some(difficulty) } => {
                let report: Report = match self.job_params.take() {
                    Some(params) => {
                        self.job_params = Some(JobParams { difficulty, ..params });
                        Report::DifficultyStored
                    },
                    None => Report::Nothing,
                };
                self.last_difficulty = Some(text.to_owned());
                Reaction { new_block: None, broadcast: Some(text.to_owned()), report }
            },
            UpstreamMessage::Subscribed { full_extranonce1, extranonce2_size } => {
                self.job_params = Some(
                    JobParams {
                        coinb1: String::new(),
                        coinb2: String::new(),
                        full_extranonce1,
                        extranonce2_size: extranonce2_size as usize,
                        difficulty: JsonNumber::Unsigned(DEFAULT_DIFFICULTY as u64),
                    },
                );
                Reaction::only(Report::ParamsStored)
            },
            UpstreamMessage::Authorized { accepted } => {
                if accepted {
                    match &self.last_notify {
                        Some(job) => Reaction {
                            new_block: None,
                            broadcast: Some(job.clone()),
                            report: Report::CachedJobSent,
                        },
                        None => Reaction::only(Report::Nothing),
                    }
                } else {
                    Reaction::only(Report::AuthorizeFailed)
                }
            },
            _ => Reaction::only(Report::Nothing),
        }
    }

    /// Takes in a line from the pool.
    pub fn handle_line(&mut self, line: &str) -> (reaction: Reaction)
        ensures
            (final(self)@, reaction@) == upstream_line(old(self)@, line@),
            read_line(line@) && keeps_single_lines(old(self)@) ==> {
                &&& keeps_single_lines(final(self)@)
                &&& reaction@.broadcast is Some ==> one_line(reaction@.broadcast->0)
                &&& reaction@.new_block is Some ==> one_line(reaction@.new_block->0)
            },
    {
        let text: &str = line.trim();
        proof {
            if read_line(line@) {
                lemma_trimmed_line(line@);
            }
        }
        if text.is_empty() {
            return Reaction::only(Report::Nothing);
        }
        match read_json(text) {
            Some(document) => self.apply(text, read_message(document)),
            None => Reaction::only(Report::NotJson),
        }
    }
}

/// The state after a run of messages, each with the line that brought it.
pub open spec fn upstream_run(
    state: UpstreamView,
    history: Seq<(Seq<char>, UpstreamMessageView)>,
) -> UpstreamView
    decreases history.len(),
{
    if history.len() == 0 {
        state
    } else {
        upstream_step(
            upstream_run(state, history.drop_last()),
            history.last().0,
            history.last().1,
        ).0
    }
}

/// The line of the last job in a run of messages.
pub open spec fn newest_job(history: Seq<(Seq<char>, UpstreamMessageView)>) -> Option<Seq<char>>
    decreases history.len(),
{
    if history.len() == 0 {
        None
    } else if history.last().1 is Notify {
        Some(history.last().0)
    } else {
        newest_job(history.drop_last())
    }
}

/// The line of the last difficulty in a run of messages.
pub open spec fn newest_difficulty(history: Seq<(Seq<char>, UpstreamMessageView)>) -> Option<
    Seq<char>,
>
    decreases history.len(),
{
    if history.len() == 0 {
        None
    } else if history.last().1 matches UpstreamMessageView::SetDifficulty {
        difficulty: Some(_),
    } {
        Some(history.last().0)
    } else {
        newest_difficulty(history.drop_last())
    }
}

/// The last reply to the subscription in a run of messages, with the difficulty that holds after
/// it: the last one that was set since, or the default.
pub open spec fn newest_params(history: Seq<(Seq<char>, UpstreamMessageView)>) -> Option<
    (Seq<char>, u64, JsonNumber),
>
    decreases history.len(),
{
    if history.len() == 0 {
        None
    } else {
        match history.last().1 {
            UpstreamMessageView::Subscribed { full_extranonce1, extranonce2_size } => Some(
                (
                    full_extranonce1,
                    extranonce2_size,
                    JsonNumber::Unsigned(DEFAULT_DIFFICULTY as u64),
                ),
            ),
            UpstreamMessageView::SetDifficulty { difficulty: Some(difficulty) } => match newest_params(
                history.drop_last(),
            ) {
                Some(params) => Some((params.0, params.1, difficulty)),
                None => None,
            },
            _ => newest_params(history.drop_last()),
        }
    }
}

/// Whatever the pool sent, the proxy keeps the newest job and the newest difficulty, each as the
/// line that brought it.
pub proof fn law_newest_lines_are_kept(history: Seq<(Seq<char>, UpstreamMessageView)>)
    ensures
        upstream_run(initial_upstream(), history).last_notify == newest_job(history),
        upstream_run(initial_upstream(), history).last_difficulty == newest_difficulty(history),
    decreases history.len(),
{
    if history.len() > 0 {
        law_newest_lines_are_kept(history.drop_last());
    }
}

/// Every job is kept, and every job goes to all miners, as the line that brought it.
pub proof fn law_every_job_is_passed_on(
    state: UpstreamView,
    text: Seq<char>,
    prev_hash: Option<Seq<char>>,
)
    ensures
        ({
            let (after, reaction) = upstream_step(
                state,
                text,
                UpstreamMessageView::Notify { prev_hash },
            );
            &&& after.last_notify == Some(text)
            &&& reaction.broadcast == Some(text)
        }),
{
}

/// Once the pool accepts the proxy's worker, all miners get the newest job, if there was one.
pub proof fn law_authorization_passes_newest_job_on(
    history: Seq<(Seq<char>, UpstreamMessageView)>,
    text: Seq<char>,
)
    ensures
        upstream_step(
            upstream_run(initial_upstream(), history),
            text,
            UpstreamMessageView::Authorized { accepted: true },
        ).1.broadcast == newest_job(history),
{
    law_newest_lines_are_kept(history);
}

/// Whatever the pool sent, the proxy knows its extranonce exactly when the pool told it, and keeps
/// the newest one with the difficulty that holds.
pub proof fn law_newest_params_are_kept(history: Seq<(Seq<char>, UpstreamMessageView)>)
    ensures
        match (upstream_run(initial_upstream(), history).job_params, newest_params(history)) {
            (Some(params), Some((full_extranonce1, extranonce2_size, difficulty))) => {
                &&& params.full_extranonce1 == full_extranonce1
                &&& params.extranonce2_size == extranonce2_size as usize
                &&& params.difficulty == difficulty
            },
            (None, None) => true,
            _ => false,
        },
    decreases history.len(),
{
    if history.len() > 0 {
        law_newest_params_are_kept(history.drop_last());
    }
}

/// No message makes the proxy forget what it knows.
pub proof fn law_nothing_is_forgotten(
    state: UpstreamView,
    text: Seq<char>,
    message: UpstreamMessageView,
)
    ensures
        ({
            let after = upstream_step(state, text, message).0;
            &&& state.job_params is Some ==> after.job_params is Some
            &&& state.last_notify is Some ==> after.last_notify is Some
            &&& state.last_difficulty is Some ==> after.last_difficulty is Some
            &&& state.last_prev_hash is Some ==> after.last_prev_hash is Some
        }),
{
}

/// A new block is reported once: a job with the hash of the last reported one is passed on, but
/// not reported again.
pub proof fn law_block_is_reported_once(
    state: UpstreamView,
    text: Seq<char>,
    again: Seq<char>,
    hash: Seq<char>,
)
    ensures
        ({
            let job = UpstreamMessageView::Notify { prev_hash: Some(hash) };
            let (after, first) = upstream_step(state, text, job);
            let second = upstream_step(after, again, job).1;
            &&& first.new_block is Some <==> state.last_prev_hash != Some(hash)
            &&& second.new_block is None
            &&& second.broadcast == Some(again)
        }),
{
}

/// Only a job changes what the proxy takes for the newest job, and only a job can be reported as
/// the first of a block.
pub proof fn law_only_jobs_change_the_job(
    state: UpstreamView,
    text: Seq<char>,
    message: UpstreamMessageView,
)
    requires
        !(message is Notify),
    ensures
        upstream_step(state, text, message).0.last_notify == state.last_notify,
        upstream_step(state, text, message).0.last_prev_hash == state.last_prev_hash,
        upstream_step(state, text, message).1.new_block is None,
{
}

/// A reply counts as the answer to the subscription, or to the authorization, only under the
/// number that the proxy gave that request.
pub proof fn law_replies_match_requests(document: JsonView, worker_name: Seq<char>)
    ensures
        message_of(document) is Subscribed ==> document.field("id"@)
            == subscribe_request_view().field("id"@),
        message_of(document) is Authorized ==> document.field("id"@) == authorize_request_view(
            worker_name,
        ).field("id"@),
{
    reveal_strlit("id");
    reveal_strlit("method");
    reveal_strlit("params");
    assert("id"@.len() != "method"@.len() && "id"@.len() != "params"@.len());
}

/// The lines that the proxy keeps are each one line.
pub open spec fn keeps_single_lines(state: UpstreamView) -> bool {
    &&& state.last_notify is Some ==> one_line(state.last_notify->0)
    &&& state.last_difficulty is Some ==> one_line(state.last_difficulty->0)
}

/// What the proxy keeps and passes on of a message is one line, if the line that brought it is.
pub proof fn law_miners_get_single_lines(
    state: UpstreamView,
    text: Seq<char>,
    message: UpstreamMessageView,
)
    requires
        keeps_single_lines(state),
        one_line(text),
    ensures
        keeps_single_lines(upstream_step(state, text, message).0),
        ({
            let reaction = upstream_step(state, text, message).1;
            &&& reaction.broadcast is Some ==> one_line(reaction.broadcast->0)
            &&& reaction.new_block is Some ==> one_line(reaction.new_block->0)
        }),
{
}

/// A job becomes the newest one, as the line that brought it, and goes to all miners. Its hash, if
/// it has one, becomes the last one, and if that is another than before the job is reported as the
/// first of a block. Nothing else changes.
pub proof fn law_job_is_taken_in(
    state: UpstreamView,
    text: Seq<char>,
    prev_hash: Option<Seq<char>>,
)
    ensures
        ({
            let (after, reaction) = upstream_step(
                state,
                text,
                UpstreamMessageView::Notify { prev_hash },
            );
            &&& after.last_notify == Some(text)
            &&& reaction.broadcast == Some(text)
            &&& prev_hash is Some ==> after.last_prev_hash == prev_hash
            &&& prev_hash is None ==> after.last_prev_hash == state.last_prev_hash
            &&& after.last_prev_hash != state.last_prev_hash ==> reaction.new_block == Some(text)
            &&& after.last_prev_hash == state.last_prev_hash ==> reaction.new_block is None
            &&& after.job_params == state.job_params
            &&& after.last_difficulty == state.last_difficulty
            &&& reaction.report == Report::Nothing
        }),
{
}

/// A difficulty becomes the newest one, as the line that brought it, and goes to all miners,
/// whatever the proxy knows. If the extranonce is known, it is kept beside that. Nothing else
/// changes.
pub proof fn law_difficulty_is_taken_in(
    state: UpstreamView,
    text: Seq<char>,
    difficulty: JsonNumber,
)
    ensures
        ({
            let (after, reaction) = upstream_step(
                state,
                text,
                UpstreamMessageView::SetDifficulty { difficulty: Some(difficulty) },
            );
            &&& after.last_difficulty == Some(text)
            &&& reaction.broadcast == Some(text)
            &&& reaction.new_block is None
            &&& after.job_params is Some <==> state.job_params is Some
            &&& state.job_params matches Some(params) ==> {
                &&& after.job_params->0.difficulty == difficulty
                &&& after.job_params->0.full_extranonce1 == params.full_extranonce1
                &&& after.job_params->0.extranonce2_size == params.extranonce2_size
                &&& after.job_params->0.coinb1 == params.coinb1
                &&& after.job_params->0.coinb2 == params.coinb2
                &&& reaction.report == Report::DifficultyStored
            }
            &&& state.job_params is None ==> reaction.report == Report::Nothing
            &&& after.last_notify == state.last_notify
            &&& after.last_prev_hash == state.last_prev_hash
        }),
{
}

/// The reply to the subscription sets the extranonce and its size, with the difficulty 1000, and
/// is passed on to no miner. Nothing else changes.
pub proof fn law_subscription_is_taken_in(
    state: UpstreamView,
    text: Seq<char>,
    full_extranonce1: Seq<char>,
    extranonce2_size: u64,
)
    ensures
        ({
            let (after, reaction) = upstream_step(
                state,
                text,
                UpstreamMessageView::Subscribed { full_extranonce1, extranonce2_size },
            );
            &&& after.job_params is Some
            &&& after.job_params->0.full_extranonce1 == full_extranonce1
            &&& extranonce2_size <= usize::MAX ==> after.job_params->0.extranonce2_size
                == extranonce2_size
            &&& after.job_params->0.difficulty == JsonNumber::Unsigned(1000)
            &&& after.job_params->0.coinb1.len() == 0
            &&& after.job_params->0.coinb2.len() == 0
            &&& after.last_notify == state.last_notify
            &&& after.last_difficulty == state.last_difficulty
            &&& after.last_prev_hash == state.last_prev_hash
            &&& reaction.new_block is None
            &&& reaction.broadcast is None
            &&& reaction.report == Report::ParamsStored
        }),
{
}

/// The reply to the authorization changes nothing. If the worker is accepted, the newest job goes
/// to all miners, if there is one; if not, that is reported.
pub proof fn law_authorization_is_taken_in(state: UpstreamView, text: Seq<char>, accepted: bool)
    ensures
        ({
            let (after, reaction) = upstream_step(
                state,
                text,
                UpstreamMessageView::Authorized { accepted },
            );
            &&& after == state
            &&& reaction.new_block is None
            &&& accepted ==> reaction.broadcast == state.last_notify
            &&& accepted && state.last_notify is Some ==> reaction.report == Report::CachedJobSent
            &&& accepted && state.last_notify is None ==> reaction.report == Report::Nothing
            &&& !accepted ==> reaction.broadcast is None
            &&& !accepted ==> reaction.report == Report::AuthorizeFailed
        }),
{
}

/// Any other message changes nothing, and nothing is done about it.
pub proof fn law_other_messages_do_nothing(
    state: UpstreamView,
    text: Seq<char>,
    message: UpstreamMessageView,
)
    requires
        message is Other || message == (UpstreamMessageView::SetDifficulty { difficulty: None }),
    ensures
        ({
            let (after, reaction) = upstream_step(state, text, message);
            &&& after == state
            &&& reaction.new_block is None
            &&& reaction.broadcast is None
            &&& reaction.report == Report::Nothing
        }),
{
}

/// A document with the method `mining.notify` is a job, whatever else it holds. The hash is its
/// second parameter, or empty if that is no string.
pub proof fn law_jobs_are_told_by_method(document: JsonView)
    requires
        document.field("method"@) == Some(JsonView::Text("mining.notify"@)),
    ensures
        message_of(document) is Notify,
        document.field_item("params"@, 1) is None ==> message_of(document)->prev_hash is None,
        document.field_item("params"@, 1) matches Some(JsonView::Text(hash)) ==> message_of(
            document,
        )->prev_hash == Some(hash),
        document.field_item("params"@, 1) matches Some(other) ==> !(other is Text) ==> message_of(
            document,
        )->prev_hash == Some(Seq::<char>::empty()),
{
}

/// A document with the method `mining.set_difficulty` is a difficulty, whatever else it holds, and
/// its first parameter is the difficulty if that is a number.
pub proof fn law_difficulties_are_told_by_method(document: JsonView)
    requires
        document.field("method"@) == Some(JsonView::Text("mining.set_difficulty"@)),
    ensures
        message_of(document) is SetDifficulty,
        document.field_item("params"@, 0) matches Some(JsonView::Number(n)) ==> message_of(
            document,
        )->difficulty == Some(n),
        !(document.field_item("params"@, 0) matches Some(JsonView::Number(_))) ==> message_of(
            document,
        )->difficulty is None,
{
    lemma_methods_differ();
}

proof fn lemma_methods_differ()
    ensures
        "mining.notify"@ != "mining.set_difficulty"@,
{
    reveal_strlit("mining.notify");
    reveal_strlit("mining.set_difficulty");
    assert("mining.notify"@.len() != "mining.set_difficulty"@.len());
}

/// Any other document is the reply to the subscription if it has the number two and a result with
/// a string and a size in the second and third place, the reply to the authorization if it has the
/// number three and a result, and nothing otherwise.
pub proof fn law_replies_are_told_by_number(document: JsonView)
    requires
        document.field("method"@) != Some(JsonView::Text("mining.notify"@)),
        document.field("method"@) != Some(JsonView::Text("mining.set_difficulty"@)),
    ensures
        ({
            let id = document.field("id"@);
            let two = JsonView::Number(JsonNumber::Unsigned(2));
            let three = JsonView::Number(JsonNumber::Unsigned(3));
            &&& id == Some(two) ==> match (
                document.field_item("result"@, 1),
                document.field_item("result"@, 2),
            ) {
                (
                    Some(JsonView::Text(full_extranonce1)),
                    Some(JsonView::Number(JsonNumber::Unsigned(extranonce2_size))),
                ) => message_of(document) == (UpstreamMessageView::Subscribed {
                    full_extranonce1,
                    extranonce2_size,
                }),
                _ => message_of(document) is Other,
            }
            &&& id == Some(three) ==> match document.field("result"@) {
                Some(result) => message_of(document) == (UpstreamMessageView::Authorized {
                    accepted: result == JsonView::Bool(true),
                }),
                None => message_of(document) is Other,
            }
            &&& id != Some(two) && id != Some(three) ==> message_of(document) is Other
        }),
{
}

/// A line is trimmed, and then it is a message if it is JSON. What is empty or no JSON changes
/// nothing and is passed on to nobody.
pub proof fn law_lines_are_taken_in(state: UpstreamView, line: Seq<char>)
    ensures
        json_of(trimmed(line)) matches Some(document) ==> trimmed(line).len() > 0 ==> upstream_line(
            state,
            line,
        ) == upstream_step(state, trimmed(line), message_of(document)),
        json_of(trimmed(line)) is None || trimmed(line).len() == 0 ==> {
            let (after, reaction) = upstream_line(state, line);
            &&& after == state
            &&& reaction.new_block is None
            &&& reaction.broadcast is None
            &&& reaction.report == (if trimmed(line).len() == 0 {
                Report::Nothing
            } else {
                Report::NotJson
            })
        },
{
}

/// Whatever the proxy knows, every line from the pool with a job, and every one with a difficulty
/// that is a number, is kept and goes to all miners without the white space around it.
pub proof fn law_pool_lines_reach_miners(state: UpstreamView, line: Seq<char>, document: JsonView)
    requires
        trimmed(line).len() > 0,
        json_of(trimmed(line)) == Some(document),
    ensures
        document.field("method"@) == Some(JsonView::Text("mining.notify"@)) ==> {
            let (after, reaction) = upstream_line(state, line);
            &&& after.last_notify == Some(trimmed(line))
            &&& reaction.broadcast == Some(trimmed(line))
        },
        document.field("method"@) == Some(JsonView::Text("mining.set_difficulty"@)) && (
        document.field_item("params"@, 0) matches Some(JsonView::Number(_))) ==> {
            let (after, reaction) = upstream_line(state, line);
            &&& after.last_difficulty == Some(trimmed(line))
            &&& reaction.broadcast == Some(trimmed(line))
        },
{
    lemma_methods_differ();
}

/// The views of what the proxy keeps, reads and does leave nothing out: each field is there, and a
/// text by its characters.
pub proof fn law_upstream_views_are_faithful(
    params: JobParams,
    state: UpstreamState,
    message: UpstreamMessage,
    reaction: Reaction,
)
    ensures
        params@.coinb1 == params.coinb1@,
        params@.coinb2 == params.coinb2@,
        params@.full_extranonce1 == params.full_extranonce1@,
        params@.extranonce2_size == params.extranonce2_size,
        params@.difficulty == params.difficulty,
        state.job_params matches Some(held) ==> state@.job_params == Some(held@),
        state.job_params is None ==> state@.job_params is None,
        state.last_notify matches Some(text) ==> state@.last_notify == Some(text@),
        state.last_notify is None ==> state@.last_notify is None,
        state.last_difficulty matches Some(text) ==> state@.last_difficulty == Some(text@),
        state.last_difficulty is None ==> state@.last_difficulty is None,
        state.last_prev_hash matches Some(text) ==> state@.last_prev_hash == Some(text@),
        state.last_prev_hash is None ==> state@.last_prev_hash is None,
        reaction.new_block matches Some(text) ==> reaction@.new_block == Some(text@),
        reaction.new_block is None ==> reaction@.new_block is None,
        reaction.broadcast matches Some(text) ==> reaction@.broadcast == Some(text@),
        reaction.broadcast is None ==> reaction@.broadcast is None,
        reaction@.report == reaction.report,
        match message {
            UpstreamMessage::Notify { prev_hash: Some(hash) } => message@ == (
            UpstreamMessageView::Notify { prev_hash: Some(hash@) }),
            UpstreamMessage::Notify { prev_hash: None } => message@ == (
            UpstreamMessageView::Notify { prev_hash: None }),
            UpstreamMessage::SetDifficulty { difficulty } => message@ == (
            UpstreamMessageView::SetDifficulty { difficulty }),
            UpstreamMessage::Subscribed { full_extranonce1, extranonce2_size } => message@ == (
            UpstreamMessageView::Subscribed {
                full_extranonce1: full_extranonce1@,
                extranonce2_size,
            }),
            UpstreamMessage::Authorized { accepted } => message@ == (
            UpstreamMessageView::Authorized { accepted }),
            UpstreamMessage::Other => message@ is Other,
        },
{
}

/// Before any message the proxy knows nothing.
pub proof fn law_proxy_starts_with_nothing()
    ensures
        initial_upstream().job_params is None,
        initial_upstream().last_notify is None,
        initial_upstream().last_difficulty is None,
        initial_upstream().last_prev_hash is None,
{
}

} // verus!
