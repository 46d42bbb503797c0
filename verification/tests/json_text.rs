use sv1_proxy::codec::{read_json, write_json};
use sv1_proxy::json::{Json, JsonNumber, split_member};
use sv1_proxy::line::frame;

fn text(s: &str) -> Json {
    Json::Text(s.to_string())
}

fn unsigned(n: u64) -> Json {
    Json::Number(JsonNumber::Unsigned(n))
}

#[test]
fn reads_every_kind_of_document() {
    assert_eq!(read_json("null"), Some(Json::Null));
    assert_eq!(read_json("true"), Some(Json::Bool(true)));
    assert_eq!(read_json(" 7 \n"), Some(unsigned(7)));
    assert_eq!(read_json("18446744073709551615"), Some(unsigned(18446744073709551615)));
    assert_eq!(read_json("\"a\\nb\""), Some(text("a\nb")));
    assert_eq!(
        read_json("[1,[],{}]"),
        Some(Json::Array(vec![unsigned(1), Json::Array(vec![]), Json::Object(vec![])]))
    );
}

#[test]
fn other_numbers_are_no_unsigned_integers() {
    for number in ["-1", "-9223372036854775808"] {
        let document = read_json(number).unwrap();
        assert!(matches!(document, Json::Number(JsonNumber::Negative(_))));
        assert_eq!(document.unsigned(), None);
    }
    for number in ["1.0", "1e3", "-0", "18446744073709551616", "-9223372036854775809"] {
        let document = read_json(number).unwrap();
        assert!(matches!(document, Json::Number(JsonNumber::Other(_))));
        assert_eq!(document.unsigned(), None);
    }
    assert_eq!(read_json("12").unwrap().unsigned(), Some(12));
}

#[test]
fn refuses_what_is_no_json() {
    for broken in ["", "{", "[1,]", "nul", "1 2", "{\"a\":1}\n{\"a\":2}\n"] {
        assert_eq!(read_json(broken), None);
    }
}

#[test]
fn of_two_members_with_one_name_the_last_counts() {
    let document = read_json("{\"a\":1,\"b\":2,\"a\":3}").unwrap();
    assert_eq!(document.get("a"), Some(&unsigned(3)));
    assert_eq!(write_json(document), "{\"a\":3,\"b\":2}");
    let twice = Json::Object(vec![
        ("a".to_string(), unsigned(1)),
        ("a".to_string(), unsigned(2)),
    ]);
    assert_eq!(twice.get("a"), Some(&unsigned(2)));
    assert_eq!(write_json(twice), "{\"a\":2}");
}

#[test]
fn plain_documents_read_back() {
    let written = "{\"a\":[1,null,true,\"x\\n\\\"\\u0001é\"],\"b\":{\"c\":{}}}";
    let document = read_json(written).unwrap();
    assert_eq!(write_json(document), written);
    let again = write_json(read_json(written).unwrap());
    assert_eq!(read_json(&again), read_json(written));
}

#[test]
fn nesting_reads_back_to_the_limit() {
    let deepest = format!("{}{}", "[".repeat(127), "]".repeat(127));
    let document = read_json(&deepest).unwrap();
    assert_eq!(write_json(document), deepest);
    let deeper = format!("{}{}", "[".repeat(128), "]".repeat(128));
    assert_eq!(read_json(&deeper), None);
}

#[test]
fn writes_one_line() {
    let document = Json::Array(vec![text("a\nb"), Json::Object(vec![("\n".to_string(), Json::Null)])]);
    assert_eq!(write_json(document), "[\"a\\nb\",{\"\\n\":null}]");
}

#[test]
fn numbers_are_written_as_they_came() {
    for number in ["-5", "1000.0", "0.25", "1e300"] {
        assert_eq!(write_json(read_json(number).unwrap()), number.replace("1e300", "1e+300"));
    }
}

#[test]
fn integers_and_whole_numbers_read_back() {
    for number in ["-1", "-9223372036854775808", "18446744073709551615", "1000.0", "4294967295.0"] {
        assert_eq!(write_json(read_json(number).unwrap()), number);
        assert_eq!(read_json(&write_json(read_json(number).unwrap())), read_json(number));
    }
}

#[test]
fn what_is_written_is_json_without_breaks() {
    for text in ["1.7976931348623157e308", "5e-324", "-0.0", "\"\\r\\n\"", " [ 0.1 ,\r\n 2 ] "] {
        let written = write_json(read_json(text).unwrap());
        assert!(read_json(&written).is_some());
        assert!(!written.contains('\r') && !written.contains('\n'));
    }
}

#[test]
fn looks_up_members_and_elements() {
    let document = read_json("{\"s\":\"t\",\"n\":5,\"l\":[\"a\",2]}").unwrap();
    assert_eq!(document.field_text("s"), Some("t"));
    assert_eq!(document.field_text("n"), None);
    assert_eq!(document.field_text("none"), None);
    assert_eq!(document.field_item("l", 1), Some(&unsigned(2)));
    assert_eq!(document.field_item("l", 2), None);
    assert_eq!(document.field_item("s", 0), None);
    assert_eq!(document.item(0), None);
    assert_eq!(document.text(), None);
    assert_eq!(document.take("l").unwrap().take_item(0), Some(text("a")));
    assert_eq!(Json::Null.take("l"), None);
    assert_eq!(Json::Null.take_item(0), None);
    assert_eq!(Json::Array(vec![]).take_item(0), None);
}

#[test]
fn parts_a_member_from_the_others() {
    let members = vec![
        ("a".to_string(), unsigned(1)),
        ("b".to_string(), unsigned(2)),
        ("a".to_string(), unsigned(3)),
    ];
    let (rest, found) = split_member(members, "a");
    assert_eq!(rest, vec![("b".to_string(), unsigned(2))]);
    assert_eq!(found, Some(unsigned(3)));
    let (rest, found) = split_member(rest, "a");
    assert_eq!(rest.len(), 1);
    assert_eq!(found, None);
}

#[test]
fn frames_a_message_with_a_line_feed() {
    assert_eq!(frame("abc"), "abc\n");
    assert_eq!(frame(""), "\n");
}
