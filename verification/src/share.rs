//! Shares on their way from a miner to the pool.
use vstd::prelude::*;

use crate::codec::{
    NESTING_LIMIT, json_of, json_text, plain, read_json, shaped, unbroken, write_json,
};
use crate::extranonce::{constrained, law_extranonce_length};
use crate::json::{
    Json, JsonView, items_view, lemma_json_view, members_view, object_of, split_member,
};
use crate::message::{
    RESERVED_EXTRANONCE_BYTES, law_subscribe_reply_says, lemma_names_differ, subscribe_reply_view,
};

verus! {

/// A message that submits a share.
pub open spec fn is_submission(message: JsonView) -> bool {
    message.field_text("method"@) == Some("mining.submit"@)
}

/// The parameters of a share as the pool takes them: the worker is the proxy's, and the second
/// extranonce has the miner's own extranonce in front.
pub open spec fn pool_params(
    params: Seq<JsonView>,
    constrained_extranonce: Seq<char>,
    worker_name: Seq<char>,
) -> Seq<JsonView> {
    let named = params.update(0, JsonView::Text(worker_name));
    match JsonView::Array(params).item(2) {
        Some(JsonView::Text(extranonce2)) => named.update(
            2,
            JsonView::Text(constrained_extranonce + extranonce2),
        ),
        _ => named,
    }
}

/// A miner's message as the pool takes it. Only a share with at least two parameters changes,
/// and of it only the parameters.
pub open spec fn pool_message(
    message: JsonView,
    constrained_extranonce: Seq<char>,
    worker_name: Seq<char>,
) -> JsonView {
    match message {
        JsonView::Object(members) => match message.field("params"@) {
            Some(JsonView::Array(params)) => if is_submission(message) && params.len() >= 2 {
                JsonView::Object(
                    members.insert(
                        "params"@,
                        JsonView::Array(pool_params(params, constrained_extranonce, worker_name)),
                    ),
                )
            } else {
                message
            },
            _ => message,
        },
        _ => message,
    }
}

/// A miner's line as it goes to the pool: what is no JSON goes as it came.
pub open spec fn pool_line(
    submission: Seq<char>,
    constrained_extranonce: Seq<char>,
    worker_name: Seq<char>,
) -> Seq<char> {
    match json_of(submission) {
        Some(message) => json_text(pool_message(message, constrained_extranonce, worker_name)),
        None => submission,
    }
}

/// Whether a message submits a share.
pub fn submits_share(message: &Json) -> (yes: bool)
    ensures
        yes == is_submission(message@),
{
    match message.field_text("method") {
        Some(method) => method.to_owned() == "mining.submit".to_owned(),
        None => false,
    }
}

/// Rewrites the parameters of a share for the pool.
fn rewrite_params(items: Vec<Json>, constrained_extranonce: &str, worker_name: &str) -> (rewritten:
    Vec<Json>)
    requires
        items@.len() >= 2,
    ensures
        items_view(rewritten@) == pool_params(
            items_view(items@),
            constrained_extranonce@,
            worker_name@,
        ),
{
    let ghost before = items_view(items@);
    let mut items = items;
    let extranonce2: Option<String> = if items.len() > 2 {
        match items[2].text() {
            Some(miners) => {
                let mut whole: String = constrained_extranonce.to_owned();
                whole.append(miners);
                Some(whole)
            },
            None => None,
        }
    } else {
        None
    };
    items[0] = Json::Text(worker_name.to_owned());
    let ghost named = before.update(0, JsonView::Text(worker_name@));
    assert(items_view(items@) =~= named);
    match extranonce2 {
        Some(whole) => {
            items[2] = Json::Text(whole);
            assert(items_view(items@) =~= named.update(2, JsonView::Text(whole@)));
        },
        None => {},
    }
    items
}

/// Rewrites a miner's message for the pool.
pub fn rewrite_submission(
    message: Json,
    constrained_extranonce: &str,
    worker_name: &str,
) -> (rewritten: Json)
    ensures
        rewritten@ == pool_message(message@, constrained_extranonce@, worker_name@),
{
    proof {
        lemma_json_view(message);
    }
    if !submits_share(&message) {
        return message;
    }
    match message {
        Json::Object(members) => {
            let ghost object = object_of(members_view(members@));
            let (rest, params) = split_member(members, "params");
            let mut rest = rest;
            let ghost kept = members_view(rest@);
            let value: Json = match params {
                Some(Json::Array(items)) => {
                    proof {
                        lemma_json_view(Json::Array(items));
                    }
                    let changed: Json = if items.len() >= 2 {
                        Json::Array(rewrite_params(items, constrained_extranonce, worker_name))
                    } else {
                        Json::Array(items)
                    };
                    proof {
                        lemma_json_view(changed);
                    }
                    changed
                },
                Some(other) => other,
                None => {
                    let same: Json = Json::Object(rest);
                    proof {
                        lemma_json_view(same);
                        assert(object.remove("params"@) =~= object);
                    }
                    return same;
                },
            };
            rest.push(("params".to_owned(), value));
            let rewritten: Json = Json::Object(rest);
            proof {
                lemma_json_view(rewritten);
                assert(members_view(rest@).drop_last() =~= kept);
                assert(object.remove("params"@).insert("params"@, value@) =~= object.insert(
                    "params"@,
                    value@,
                ));
                if rewritten@ != pool_message(
                    message@,
                    constrained_extranonce@,
                    worker_name@,
                ) {
                    assert(object.insert("params"@, object["params"@]) =~= object);
                }
            }
            rewritten
        },
        other => other,
    }
}

/// Rewriting a message for the pool nests it no deeper and brings no other numbers into it.
proof fn lemma_pool_message_keeps_shape(
    message: JsonView,
    constrained_extranonce: Seq<char>,
    worker_name: Seq<char>,
    depth: nat,
    exact: bool,
)
    requires
        shaped(message, depth, exact),
    ensures
        shaped(pool_message(message, constrained_extranonce, worker_name), depth, exact),
{
    let sent = pool_message(message, constrained_extranonce, worker_name);
    if sent != message {
        let members = message->Object_0;
        let params = members["params"@];
        let changed = sent->Object_0["params"@];
        let inner = (depth - 1) as nat;
        assert(shaped(params, inner, exact));
        assert(shaped(changed, inner, exact)) by {
            let items = params->Array_0;
            assert forall|i: int| 0 <= i < changed->Array_0.len() implies shaped(
                #[trigger] changed->Array_0[i],
                (inner - 1) as nat,
                exact,
            ) by {
                assert(shaped(items[i], (inner - 1) as nat, exact));
            }
        }
        assert forall|name: Seq<char>| sent->Object_0.contains_key(name) implies shaped(
            #[trigger] sent->Object_0[name],
            inner,
            exact,
        ) by {
            if name != "params"@ {
                assert(shaped(members[name], inner, exact));
            }
        }
    }
}

/// Transforms a miner's share submission for the pool: the share goes in the name of the proxy's
/// worker, and with the whole second extranonce that the pool expects.
pub fn transform_share_submission(
    submission: &str,
    constrained_extranonce: &str,
    _full_extranonce: &str,
    worker_name: &str,
) -> (line: String)
    ensures
        line@ == pool_line(submission@, constrained_extranonce@, worker_name@),
        json_of(submission@) is Some ==> unbroken(line@) && json_of(line@) is Some,
        json_of(submission@) matches Some(message) ==> plain(message, NESTING_LIMIT as nat)
            ==> json_of(line@) == Some(
            pool_message(message, constrained_extranonce@, worker_name@),
        ),
        json_of(submission@) matches Some(message) ==> plain(message, NESTING_LIMIT as nat)
            ==> forall|extranonce: Seq<char>, worker: Seq<char>| #[trigger]
            pool_line(line@, extranonce, worker) == pool_line(
                submission@,
                extranonce + constrained_extranonce@,
                worker,
            ),
{
    let line: String = match read_json(submission) {
        Some(message) => {
            proof {
                lemma_pool_message_keeps_shape(
                    message@,
                    constrained_extranonce@,
                    worker_name@,
                    NESTING_LIMIT as nat,
                    false,
                );
                if plain(message@, NESTING_LIMIT as nat) {
                    lemma_pool_message_keeps_shape(
                        message@,
                        constrained_extranonce@,
                        worker_name@,
                        NESTING_LIMIT as nat,
                        true,
                    );
                }
            }
            write_json(rewrite_submission(message, constrained_extranonce, worker_name))
        },
        None => submission.to_owned(),
    };
    proof {
        if json_of(submission@) is Some && plain(json_of(submission@)->0, NESTING_LIMIT as nat) {
            assert forall|extranonce: Seq<char>, worker: Seq<char>| #[trigger]
                pool_line(line@, extranonce, worker) == pool_line(
                submission@,
                extranonce + constrained_extranonce@,
                worker,
            ) by {
                law_transformations_compose(
                    submission@,
                    constrained_extranonce@,
                    extranonce,
                    worker_name@,
                    worker,
                );
            }
        }
    }
    line
}

/// Both sides build one coinbase: the miner puts its second extranonce behind the first that the
/// proxy told it, the pool puts the one that the proxy sends behind its own first, and these are
/// the same characters.
pub proof fn law_miner_and_pool_agree(
    message: JsonView,
    full_extranonce1: Seq<char>,
    constrained_extranonce: Seq<char>,
    extranonce2_size: int,
    worker_name: Seq<char>,
    extranonce2: Seq<char>,
)
    requires
        message.field("method"@) == Some(JsonView::Text("mining.submit"@)),
        message.field_item("params"@, 2) == Some(JsonView::Text(extranonce2)),
    ensures
        ({
            let told = subscribe_reply_view(
                full_extranonce1,
                constrained_extranonce,
                extranonce2_size,
            ).field_item("result"@, 1);
            let sent = pool_message(message, constrained_extranonce, worker_name).field_item(
                "params"@,
                2,
            );
            &&& told is Some
            &&& told->0 is Text
            &&& sent is Some
            &&& sent->0 is Text
            &&& told->0->Text_0 + extranonce2 == full_extranonce1 + sent->0->Text_0
        }),
{
    reveal_strlit("id");
    reveal_strlit("result");
    reveal_strlit("error");
    assert("result"@ != "error"@) by {
        assert("result"@.len() != "error"@.len());
    }
    let told = subscribe_reply_view(full_extranonce1, constrained_extranonce, extranonce2_size);
    assert(told.field("result"@) is Some);
    assert(full_extranonce1 + (constrained_extranonce + extranonce2) =~= (full_extranonce1
        + constrained_extranonce) + extranonce2);
}

/// For the first 65536 miners, a second extranonce of the length that the proxy told the miner
/// becomes one of the length that the pool told the proxy. A byte is two digits.
pub proof fn law_pool_gets_whole_extranonce(
    message: JsonView,
    miner_id: nat,
    full_extranonce1: Seq<char>,
    extranonce2_size: int,
    worker_name: Seq<char>,
    extranonce2: Seq<char>,
)
    requires
        miner_id < 65536,
        message.field("method"@) == Some(JsonView::Text("mining.submit"@)),
        message.field_item("params"@, 2) == Some(JsonView::Text(extranonce2)),
        RESERVED_EXTRANONCE_BYTES <= extranonce2_size <= u64::MAX,
        extranonce2.len() == 2 * subscribe_reply_view(
            full_extranonce1,
            constrained(miner_id),
            extranonce2_size,
        ).field_item("result"@, 2)->0.unsigned()->0,
    ensures
        ({
            let sent = pool_message(message, constrained(miner_id), worker_name).field_item(
                "params"@,
                2,
            );
            &&& sent is Some
            &&& sent->0 is Text
            &&& sent->0->Text_0.len() == 2 * extranonce2_size
        }),
{
    law_extranonce_length(miner_id);
    law_subscribe_reply_says(full_extranonce1, constrained(miner_id), extranonce2_size);
}

/// The pool gets the share under the proxy's worker, whoever sent it.
pub proof fn law_share_carries_worker(
    message: JsonView,
    constrained_extranonce: Seq<char>,
    worker_name: Seq<char>,
)
    requires
        message.field("method"@) == Some(JsonView::Text("mining.submit"@)),
        message.field_item("params"@, 1) is Some,
    ensures
        pool_message(message, constrained_extranonce, worker_name).field_item("params"@, 0) == Some(
            JsonView::Text(worker_name),
        ),
{
}

/// Beside the worker and the second extranonce a share goes to the pool as the miner wrote it,
/// with its number, its method and all other parameters.
pub proof fn law_rest_of_share_unchanged(
    message: JsonView,
    constrained_extranonce: Seq<char>,
    worker_name: Seq<char>,
    name: Seq<char>,
    index: int,
)
    ensures
        name != "params"@ ==> pool_message(message, constrained_extranonce, worker_name).field(name)
            == message.field(name),
        index != 0 && index != 2 ==> pool_message(
            message,
            constrained_extranonce,
            worker_name,
        ).field_item("params"@, index) == message.field_item("params"@, index),
        is_submission(pool_message(message, constrained_extranonce, worker_name)) == is_submission(
            message,
        ),
{
    reveal_strlit("params");
    reveal_strlit("method");
    assert("params"@[0] != "method"@[0]);
}

/// What is no share, and a share with fewer than two parameters, goes to the pool unchanged.
pub proof fn law_other_messages_unchanged(
    message: JsonView,
    constrained_extranonce: Seq<char>,
    worker_name: Seq<char>,
)
    requires
        message.field("method"@) != Some(JsonView::Text("mining.submit"@)) || message.field_item(
            "params"@,
            1,
        ) is None,
    ensures
        pool_message(message, constrained_extranonce, worker_name) == message,
{
}

/// Two rewrites in a row come to one: the later extranonce goes in front of the earlier, and the
/// later worker's name stays.
pub proof fn law_rewrites_compose(
    message: JsonView,
    first_extranonce: Seq<char>,
    second_extranonce: Seq<char>,
    first_worker: Seq<char>,
    second_worker: Seq<char>,
)
    ensures
        pool_message(
            pool_message(message, first_extranonce, first_worker),
            second_extranonce,
            second_worker,
        ) == pool_message(message, second_extranonce + first_extranonce, second_worker),
{
    law_rest_of_share_unchanged(message, first_extranonce, first_worker, "method"@, 0);
    let once = pool_message(message, first_extranonce, first_worker);
    if once != message {
        let members = message->Object_0;
        let params = members["params"@]->Array_0;
        let sent = pool_params(params, first_extranonce, first_worker);
        let whole = second_extranonce + first_extranonce;
        if params.len() > 2 && params[2] is Text {
            let extranonce2 = params[2]->Text_0;
            assert(second_extranonce + (first_extranonce + extranonce2) =~= whole + extranonce2);
        }
        assert(pool_params(sent, second_extranonce, second_worker) =~= pool_params(
            params,
            whole,
            second_worker,
        ));
        let again = JsonView::Array(pool_params(params, whole, second_worker));
        assert(members.insert("params"@, JsonView::Array(sent)).insert("params"@, again)
            =~= members.insert("params"@, again));
    }
}

/// Transforming a line twice comes to transforming it once, with the later extranonce in front of
/// the earlier and the later worker's name, if the first line reads back as what it was written
/// for, as it does for plain messages. What is no JSON stays as it is.
pub proof fn law_transformations_compose(
    submission: Seq<char>,
    first_extranonce: Seq<char>,
    second_extranonce: Seq<char>,
    first_worker: Seq<char>,
    second_worker: Seq<char>,
)
    requires
        json_of(submission) matches Some(message) ==> json_of(
            pool_line(submission, first_extranonce, first_worker),
        ) == Some(pool_message(message, first_extranonce, first_worker)),
    ensures
        pool_line(
            pool_line(submission, first_extranonce, first_worker),
            second_extranonce,
            second_worker,
        ) == pool_line(submission, second_extranonce + first_extranonce, second_worker),
{
    match json_of(submission) {
        Some(message) => {
            law_rewrites_compose(
                message,
                first_extranonce,
                second_extranonce,
                first_worker,
                second_worker,
            );
        },
        None => {},
    }
}

/// A message is a share if its method says so, whatever else it holds.
pub proof fn law_shares_are_told_by_method(message: JsonView)
    ensures
        is_submission(message) <==> message.field("method"@) == Some(
            JsonView::Text("mining.submit"@),
        ),
{
}

/// A share with two or more parameters goes to the pool with as many: the first is the proxy's
/// worker, the third, if it is a string, has the miner's own extranonce in front, and each other
/// one is the miner's. Outside the parameters nothing changes.
pub proof fn law_share_is_rewritten(
    message: JsonView,
    params: Seq<JsonView>,
    constrained_extranonce: Seq<char>,
    worker_name: Seq<char>,
    index: int,
    name: Seq<char>,
)
    requires
        message.field("method"@) == Some(JsonView::Text("mining.submit"@)),
        message.field("params"@) == Some(JsonView::Array(params)),
        params.len() >= 2,
    ensures
        ({
            let sent = pool_message(message, constrained_extranonce, worker_name);
            &&& sent.field("params"@) is Some
            &&& sent.field("params"@)->0 is Array
            &&& sent.field("params"@)->0->Array_0.len() == params.len()
            &&& sent.field_item("params"@, 0) == Some(JsonView::Text(worker_name))
            &&& params.len() > 2 && params[2] is Text ==> sent.field_item("params"@, 2) == Some(
                JsonView::Text(constrained_extranonce + params[2]->Text_0),
            )
            &&& params.len() > 2 && !(params[2] is Text) ==> sent.field_item("params"@, 2) == Some(
                params[2],
            )
            &&& 0 <= index < params.len() && index != 0 && index != 2 ==> sent.field_item(
                "params"@,
                index,
            ) == Some(params[index])
            &&& name != "params"@ ==> sent.field(name) == message.field(name)
        }),
{
    lemma_names_differ();
}

/// A line that is JSON goes to the pool as the text of the rewritten document, and any other line
/// goes as it came.
pub proof fn law_lines_are_rewritten(
    submission: Seq<char>,
    constrained_extranonce: Seq<char>,
    worker_name: Seq<char>,
)
    ensures
        json_of(submission) matches Some(message) ==> pool_line(
            submission,
            constrained_extranonce,
            worker_name,
        ) == json_text(pool_message(message, constrained_extranonce, worker_name)),
        json_of(submission) is None ==> pool_line(submission, constrained_extranonce, worker_name)
            == submission,
{
}

} // verus!
