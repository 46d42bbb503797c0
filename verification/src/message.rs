//! The messages that the proxy itself writes: its requests to the pool, and its replies to miners.
use vstd::prelude::*;

use crate::codec::{
    NESTING_LIMIT, json_of, json_text, plain, real_number, real_of, shaped, unbroken, write_json,
};
use crate::json::{Json, JsonNumber, JsonView, lemma_json_view, object_of};

verus! {

/// The number under which a configure request and its reply go.
pub const CONFIGURE_ID: u64 = 1;

/// The number under which a subscribe request and its reply go.
pub const SUBSCRIBE_ID: u64 = 2;

/// The number under which an authorize request and its reply go.
pub const AUTHORIZE_ID: u64 = 3;

/// The number under which the difficulty is suggested to the pool.
pub const SUGGEST_DIFFICULTY_ID: u64 = 4;

/// The difficulty that the proxy suggests, and takes for granted until the pool sets one.
pub const DEFAULT_DIFFICULTY: u32 = 1000;

/// How many bytes of the pool's second extranonce the proxy keeps for telling miners apart.
pub const RESERVED_EXTRANONCE_BYTES: usize = 2;

/// An integer.
pub open spec fn unsigned_view(n: u64) -> JsonView {
    JsonView::Number(JsonNumber::Unsigned(n))
}

/// A request.
pub open spec fn request_view(id: u64, method: Seq<char>, params: Seq<JsonView>) -> JsonView {
    JsonView::Object(
        map![
            "id"@ => unsigned_view(id),
            "method"@ => JsonView::Text(method),
            "params"@ => JsonView::Array(params),
        ],
    )
}

/// A reply that reports no error.
pub open spec fn reply_view(id: JsonView, result: JsonView) -> JsonView {
    JsonView::Object(
        map![
            "id"@ => id,
            "result"@ => result,
            "error"@ => JsonView::Null,
        ],
    )
}

/// The request by which the proxy asks the pool for version rolling.
pub open spec fn configure_request_view() -> JsonView {
    request_view(
        CONFIGURE_ID,
        "mining.configure"@,
        seq![
            JsonView::Array(seq![JsonView::Text("version-rolling"@)]),
            JsonView::Object(map!["version-rolling.mask"@ => JsonView::Text("1fffe000"@)]),
        ],
    )
}

/// The request by which the proxy subscribes at the pool.
pub open spec fn subscribe_request_view() -> JsonView {
    request_view(SUBSCRIBE_ID, "mining.subscribe"@, seq![])
}

/// The request by which the proxy authorizes its worker at the pool.
pub open spec fn authorize_request_view(worker_name: Seq<char>) -> JsonView {
    request_view(
        AUTHORIZE_ID,
        "mining.authorize"@,
        seq![JsonView::Text(worker_name), JsonView::Text("x"@)],
    )
}

/// The request by which the proxy suggests a difficulty to the pool.
pub open spec fn suggest_difficulty_request_view() -> JsonView {
    request_view(
        SUGGEST_DIFFICULTY_ID,
        "mining.suggest_difficulty"@,
        seq![JsonView::Number(JsonNumber::Other(real_of(DEFAULT_DIFFICULTY)))],
    )
}

/// What the proxy says to the pool first, in this order.
pub open spec fn greeting_view(worker_name: Seq<char>) -> Seq<JsonView> {
    seq![
        configure_request_view(),
        subscribe_request_view(),
        authorize_request_view(worker_name),
        suggest_difficulty_request_view(),
    ]
}

/// The reply to a miner's configure request.
pub open spec fn configure_reply_view() -> JsonView {
    reply_view(
        unsigned_view(CONFIGURE_ID),
        JsonView::Object(
            map![
                "version-rolling"@ => JsonView::Bool(true),
                "version-rolling.mask"@ => JsonView::Text("1fffe000"@),
            ],
        ),
    )
}

/// The reply to a miner's subscribe request: the miner's own first extranonce is the pool's with
/// the miner's behind it, and what is left for the second is that much shorter.
pub open spec fn subscribe_reply_view(
    full_extranonce1: Seq<char>,
    constrained_extranonce: Seq<char>,
    extranonce2_size: int,
) -> JsonView {
    reply_view(
        unsigned_view(SUBSCRIBE_ID),
        JsonView::Array(
            seq![
                JsonView::Array(
                    seq![
                        JsonView::Array(
                            seq![JsonView::Text("mining.set_difficulty"@), JsonView::Text("1"@)],
                        ),
                        JsonView::Array(
                            seq![JsonView::Text("mining.notify"@), JsonView::Text("1"@)],
                        ),
                    ],
                ),
                JsonView::Text(full_extranonce1 + constrained_extranonce),
                unsigned_view((extranonce2_size - RESERVED_EXTRANONCE_BYTES) as u64),
            ],
        ),
    )
}

/// The reply to a miner's authorize request.
pub open spec fn authorize_reply_view() -> JsonView {
    reply_view(unsigned_view(AUTHORIZE_ID), JsonView::Bool(true))
}

/// The reply to a miner's share, under the number that the share had.
pub open spec fn submission_reply_view(id: JsonView) -> JsonView {
    reply_view(id, JsonView::Bool(true))
}

/// A string.
fn text(s: &str) -> (document: Json)
    ensures
        document@ == JsonView::Text(s@),
{
    Json::Text(s.to_owned())
}

/// An integer.
fn unsigned(n: u64) -> (document: Json)
    ensures
        document@ == unsigned_view(n),
{
    Json::Number(JsonNumber::Unsigned(n))
}

/// An array of one element.
fn array1(a: Json) -> (document: Json)
    ensures
        document@ == JsonView::Array(seq![a@]),
{
    let document = Json::Array(vec![a]);
    proof {
        lemma_json_view(document);
        assert(document@->Array_0 =~= seq![a@]);
    }
    document
}

/// An array of two elements.
fn array2(a: Json, b: Json) -> (document: Json)
    ensures
        document@ == JsonView::Array(seq![a@, b@]),
{
    let document = Json::Array(vec![a, b]);
    proof {
        lemma_json_view(document);
        assert(document@->Array_0 =~= seq![a@, b@]);
    }
    document
}

/// An array of three elements.
fn array3(a: Json, b: Json, c: Json) -> (document: Json)
    ensures
        document@ == JsonView::Array(seq![a@, b@, c@]),
{
    let document = Json::Array(vec![a, b, c]);
    proof {
        lemma_json_view(document);
        assert(document@->Array_0 =~= seq![a@, b@, c@]);
    }
    document
}

/// An object of one member.
fn object1(name: &str, value: Json) -> (document: Json)
    ensures
        document@ == JsonView::Object(map![name@ => value@]),
{
    let document = Json::Object(vec![(name.to_owned(), value)]);
    proof {
        lemma_json_view(document);
        reveal_with_fuel(object_of, 2);
    }
    document
}

/// An object of two members.
fn object2(name1: &str, value1: Json, name2: &str, value2: Json) -> (document: Json)
    ensures
        document@ == JsonView::Object(map![name1@ => value1@, name2@ => value2@]),
{
    let document = Json::Object(vec![(name1.to_owned(), value1), (name2.to_owned(), value2)]);
    proof {
        lemma_json_view(document);
        reveal_with_fuel(object_of, 3);
    }
    document
}

/// An object of three members.
fn object3(
    name1: &str,
    value1: Json,
    name2: &str,
    value2: Json,
    name3: &str,
    value3: Json,
) -> (document: Json)
    ensures
        document@ == JsonView::Object(
            map![name1@ => value1@, name2@ => value2@, name3@ => value3@],
        ),
{
    let document = Json::Object(
        vec![(name1.to_owned(), value1), (name2.to_owned(), value2), (name3.to_owned(), value3)],
    );
    proof {
        lemma_json_view(document);
        reveal_with_fuel(object_of, 4);
    }
    document
}

/// A reply that reports no error.
fn reply(id: Json, result: Json) -> (document: Json)
    ensures
        document@ == reply_view(id@, result@),
{
    object3("id", id, "result", result, "error", Json::Null)
}

/// The request by which the proxy asks the pool for version rolling.
pub fn configure_request() -> (document: Json)
    ensures
        document@ == configure_request_view(),
{
    let params: Json = array2(
        array1(text("version-rolling")),
        object1("version-rolling.mask", text("1fffe000")),
    );
    object3("id", unsigned(CONFIGURE_ID), "method", text("mining.configure"), "params", params)
}

/// The request by which the proxy subscribes at the pool.
pub fn subscribe_request() -> (document: Json)
    ensures
        document@ == subscribe_request_view(),
{
    let params: Json = Json::Array(Vec::new());
    proof {
        assert(params@->Array_0 =~= seq![]);
    }
    object3("id", unsigned(SUBSCRIBE_ID), "method", text("mining.subscribe"), "params", params)
}

/// The request by which the proxy authorizes its worker at the pool.
pub fn authorize_request(worker_name: &str) -> (document: Json)
    ensures
        document@ == authorize_request_view(worker_name@),
{
    let params: Json = array2(text(worker_name), text("x"));
    object3("id", unsigned(AUTHORIZE_ID), "method", text("mining.authorize"), "params", params)
}

/// The request by which the proxy suggests a difficulty to the pool.
pub fn suggest_difficulty_request() -> (document: Json)
    ensures
        document@ == suggest_difficulty_request_view(),
{
    let difficulty: Json = Json::Number(JsonNumber::Other(real_number(DEFAULT_DIFFICULTY)));
    object3(
        "id",
        unsigned(SUGGEST_DIFFICULTY_ID),
        "method",
        text("mining.suggest_difficulty"),
        "params",
        array1(difficulty),
    )
}

/// What the proxy says to the pool first: each message in a line of its own, in the order in
/// which they go.
pub fn greeting(worker_name: &str) -> (lines: Vec<String>)
    ensures
        lines@.len() == greeting_view(worker_name@).len(),
        forall|i: int|
            0 <= i < lines@.len() ==> (#[trigger] lines@[i])@ == json_text(
                greeting_view(worker_name@)[i],
            ),
        forall|i: int| 0 <= i < lines@.len() ==> unbroken((#[trigger] lines@[i])@),
        forall|i: int|
            0 <= i < lines@.len() ==> json_of((#[trigger] lines@[i])@) == Some(
                greeting_view(worker_name@)[i],
            ),
{
    proof {
        law_requests_are_plain(worker_name@);
    }
    vec![
        write_json(configure_request()),
        write_json(subscribe_request()),
        write_json(authorize_request(worker_name)),
        write_json(suggest_difficulty_request()),
    ]
}

/// The requests to the pool are plain documents, so that the pool reads what the proxy wrote.
pub proof fn law_requests_are_plain(worker_name: Seq<char>)
    ensures
        plain(configure_request_view(), NESTING_LIMIT as nat),
        plain(subscribe_request_view(), NESTING_LIMIT as nat),
        plain(authorize_request_view(worker_name), NESTING_LIMIT as nat),
        plain(suggest_difficulty_request_view(), NESTING_LIMIT as nat),
{
    reveal_with_fuel(shaped, 4);
}

/// The replies to miners are plain documents, so that a miner reads what the proxy wrote: always
/// those to its three requests, and those to its shares if it gives them plain numbers.
pub proof fn law_replies_are_plain(
    full_extranonce1: Seq<char>,
    constrained_extranonce: Seq<char>,
    extranonce2_size: int,
    id: JsonView,
)
    ensures
        plain(configure_reply_view(), NESTING_LIMIT as nat),
        plain(
            subscribe_reply_view(full_extranonce1, constrained_extranonce, extranonce2_size),
            NESTING_LIMIT as nat,
        ),
        plain(authorize_reply_view(), NESTING_LIMIT as nat),
        plain(id, (NESTING_LIMIT - 1) as nat) ==> plain(
            submission_reply_view(id),
            NESTING_LIMIT as nat,
        ),
{
    reveal_with_fuel(shaped, 5);
}

/// The reply to a miner's configure request.
pub fn configure_reply() -> (document: Json)
    ensures
        document@ == configure_reply_view(),
{
    let result: Json = object2(
        "version-rolling",
        Json::Bool(true),
        "version-rolling.mask",
        text("1fffe000"),
    );
    reply(unsigned(CONFIGURE_ID), result)
}

/// The reply to a miner's subscribe request.
pub fn subscribe_reply(
    full_extranonce1: &str,
    constrained_extranonce: &str,
    extranonce2_size: usize,
) -> (document: Json)
    requires
        extranonce2_size >= RESERVED_EXTRANONCE_BYTES,
    ensures
        document@ == subscribe_reply_view(
            full_extranonce1@,
            constrained_extranonce@,
            extranonce2_size as int,
        ),
{
    let mut extranonce1: String = full_extranonce1.to_owned();
    extranonce1.append(constrained_extranonce);
    let subscriptions: Json = array2(
        array2(text("mining.set_difficulty"), text("1")),
        array2(text("mining.notify"), text("1")),
    );
    let left: u64 = (extranonce2_size - RESERVED_EXTRANONCE_BYTES) as u64;
    reply(
        unsigned(SUBSCRIBE_ID),
        array3(subscriptions, Json::Text(extranonce1), unsigned(left)),
    )
}

/// The reply to a miner's authorize request.
pub fn authorize_reply() -> (document: Json)
    ensures
        document@ == authorize_reply_view(),
{
    reply(unsigned(AUTHORIZE_ID), Json::Bool(true))
}

/// The reply to a miner's share.
pub fn submission_reply(id: Json) -> (document: Json)
    ensures
        document@ == submission_reply_view(id@),
{
    reply(id, Json::Bool(true))
}

/// The names that messages use are different.
pub(crate) proof fn lemma_names_differ()
    ensures
        "id"@ != "method"@,
        "id"@ != "params"@,
        "id"@ != "result"@,
        "id"@ != "error"@,
        "method"@ != "params"@,
        "method"@ != "result"@,
        "params"@ != "result"@,
        "result"@ != "error"@,
        "version-rolling"@ != "version-rolling.mask"@,
{
    reveal_strlit("id");
    reveal_strlit("method");
    reveal_strlit("params");
    reveal_strlit("result");
    reveal_strlit("error");
    reveal_strlit("version-rolling");
    reveal_strlit("version-rolling.mask");
    assert("id"@.len() == 2 && "error"@.len() == 5 && "method"@.len() == 6);
    assert("method"@[0] == 'm' && "params"@[0] == 'p' && "result"@[0] == 'r');
    assert("version-rolling"@.len() != "version-rolling.mask"@.len());
}

/// The proxy greets the pool with four requests of three members each, numbered from one on: it
/// asks for version rolling with a mask, subscribes, names its worker with a password of one
/// letter, and suggests the difficulty 1000.
pub proof fn law_greeting_says(worker_name: Seq<char>)
    ensures
        greeting_view(worker_name).len() == 4,
        greeting_view(worker_name)[0] == configure_request_view(),
        greeting_view(worker_name)[1] == subscribe_request_view(),
        greeting_view(worker_name)[2] == authorize_request_view(worker_name),
        greeting_view(worker_name)[3] == suggest_difficulty_request_view(),
        forall|i: int|
            0 <= i < 4 ==> {
                let request = #[trigger] greeting_view(worker_name)[i];
                &&& request is Object
                &&& request->Object_0.dom() == set!["id"@, "method"@, "params"@]
                &&& request.field("id"@) == Some(
                    JsonView::Number(JsonNumber::Unsigned((i + 1) as u64)),
                )
            },
        greeting_view(worker_name)[0].field("method"@) == Some(JsonView::Text("mining.configure"@)),
        greeting_view(worker_name)[1].field("method"@) == Some(JsonView::Text("mining.subscribe"@)),
        greeting_view(worker_name)[2].field("method"@) == Some(JsonView::Text("mining.authorize"@)),
        greeting_view(worker_name)[3].field("method"@) == Some(
            JsonView::Text("mining.suggest_difficulty"@),
        ),
        greeting_view(worker_name)[0].field("params"@) == Some(
            JsonView::Array(
                seq![
                    JsonView::Array(seq![JsonView::Text("version-rolling"@)]),
                    JsonView::Object(map!["version-rolling.mask"@ => JsonView::Text("1fffe000"@)]),
                ],
            ),
        ),
        greeting_view(worker_name)[1].field("params"@) == Some(JsonView::Array(seq![])),
        greeting_view(worker_name)[2].field("params"@) == Some(
            JsonView::Array(seq![JsonView::Text(worker_name), JsonView::Text("x"@)]),
        ),
        greeting_view(worker_name)[3].field("params"@) == Some(
            JsonView::Array(seq![JsonView::Number(JsonNumber::Other(real_of(1000)))]),
        ),
{
    lemma_names_differ();
    assert forall|i: int| 0 <= i < 4 implies {
        let request = #[trigger] greeting_view(worker_name)[i];
        &&& request is Object
        &&& request->Object_0.dom() == set!["id"@, "method"@, "params"@]
        &&& request.field("id"@) == Some(JsonView::Number(JsonNumber::Unsigned((i + 1) as u64)))
    } by {
        let request = greeting_view(worker_name)[i];
        assert(request->Object_0.dom() =~= set!["id"@, "method"@, "params"@]);
    }
}

/// A reply of three members that reports no error.
proof fn lemma_reply_says(id: JsonView, result: JsonView)
    ensures
        reply_view(id, result) is Object,
        reply_view(id, result)->Object_0.dom() == set!["id"@, "result"@, "error"@],
        reply_view(id, result).field("id"@) == Some(id),
        reply_view(id, result).field("result"@) == Some(result),
        reply_view(id, result).field("error"@) == Some(JsonView::Null),
{
    lemma_names_differ();
    assert(reply_view(id, result)->Object_0.dom() =~= set!["id"@, "result"@, "error"@]);
}

/// A miner's configure request is answered under the number one: version rolling is on, with the
/// mask that the proxy asked the pool for.
pub proof fn law_configure_reply_says(worker_name: Seq<char>)
    ensures
        configure_reply_view() is Object,
        configure_reply_view()->Object_0.dom() == set!["id"@, "result"@, "error"@],
        configure_reply_view().field("id"@) == Some(JsonView::Number(JsonNumber::Unsigned(1))),
        configure_reply_view().field("error"@) == Some(JsonView::Null),
        configure_reply_view().field("result"@) is Some,
        configure_reply_view().field("result"@)->0 is Object,
        configure_reply_view().field("result"@)->0->Object_0.dom() == set![
            "version-rolling"@,
            "version-rolling.mask"@,
        ],
        configure_reply_view().field("result"@)->0.field("version-rolling"@) == Some(
            JsonView::Bool(true),
        ),
        configure_reply_view().field("result"@)->0.field("version-rolling.mask"@) == Some(
            JsonView::Text("1fffe000"@),
        ),
        configure_reply_view().field("result"@)->0.field("version-rolling.mask"@) == greeting_view(
            worker_name,
        )[0].field_item("params"@, 1)->0.field("version-rolling.mask"@),
{
    lemma_names_differ();
    let result = JsonView::Object(
        map![
            "version-rolling"@ => JsonView::Bool(true),
            "version-rolling.mask"@ => JsonView::Text("1fffe000"@),
        ],
    );
    assert(result->Object_0.dom() =~= set!["version-rolling"@, "version-rolling.mask"@]);
    lemma_reply_says(unsigned_view(CONFIGURE_ID), result);
    law_greeting_says(worker_name);
}

/// A miner's subscribe request is answered under the number two: its first extranonce is the
/// pool's with the miner's own behind it, and the size that it is told for the second one and the
/// two bytes of its own make up the size that the pool gave.
pub proof fn law_subscribe_reply_says(
    full_extranonce1: Seq<char>,
    constrained_extranonce: Seq<char>,
    extranonce2_size: int,
)
    requires
        RESERVED_EXTRANONCE_BYTES <= extranonce2_size <= u64::MAX,
    ensures
        ({
            let reply = subscribe_reply_view(
                full_extranonce1,
                constrained_extranonce,
                extranonce2_size,
            );
            &&& reply is Object
            &&& reply->Object_0.dom() == set!["id"@, "result"@, "error"@]
            &&& reply.field("id"@) == Some(JsonView::Number(JsonNumber::Unsigned(2)))
            &&& reply.field("error"@) == Some(JsonView::Null)
            &&& reply.field("result"@) is Some
            &&& reply.field("result"@)->0 is Array
            &&& reply.field("result"@)->0->Array_0.len() == 3
            &&& reply.field_item("result"@, 0) == Some(
                JsonView::Array(
                    seq![
                        JsonView::Array(
                            seq![JsonView::Text("mining.set_difficulty"@), JsonView::Text("1"@)],
                        ),
                        JsonView::Array(
                            seq![JsonView::Text("mining.notify"@), JsonView::Text("1"@)],
                        ),
                    ],
                ),
            )
            &&& reply.field_item("result"@, 1) == Some(
                JsonView::Text(full_extranonce1 + constrained_extranonce),
            )
            &&& reply.field_item("result"@, 2) is Some
            &&& reply.field_item("result"@, 2)->0.unsigned() is Some
            &&& reply.field_item("result"@, 2)->0.unsigned()->0 + RESERVED_EXTRANONCE_BYTES
                == extranonce2_size
            &&& reply.field_item("result"@, 2)->0.unsigned()->0 + 2 == extranonce2_size
        }),
{
    let reply = subscribe_reply_view(full_extranonce1, constrained_extranonce, extranonce2_size);
    lemma_names_differ();
    assert(reply->Object_0.dom() =~= set!["id"@, "result"@, "error"@]);
}

/// A miner's authorize request is answered under the number three, and accepted.
pub proof fn law_authorize_reply_says()
    ensures
        authorize_reply_view() is Object,
        authorize_reply_view()->Object_0.dom() == set!["id"@, "result"@, "error"@],
        authorize_reply_view().field("id"@) == Some(JsonView::Number(JsonNumber::Unsigned(3))),
        authorize_reply_view().field("result"@) == Some(JsonView::Bool(true)),
        authorize_reply_view().field("error"@) == Some(JsonView::Null),
{
    lemma_reply_says(unsigned_view(AUTHORIZE_ID), JsonView::Bool(true));
}

/// A share is answered under its own number, and accepted.
pub proof fn law_submission_reply_says(id: JsonView)
    ensures
        submission_reply_view(id) is Object,
        submission_reply_view(id)->Object_0.dom() == set!["id"@, "result"@, "error"@],
        submission_reply_view(id).field("id"@) == Some(id),
        submission_reply_view(id).field("result"@) == Some(JsonView::Bool(true)),
        submission_reply_view(id).field("error"@) == Some(JsonView::Null),
{
    lemma_reply_says(id, JsonView::Bool(true));
}

} // verus!
