use canvas_graph::json::{json_parse, json_render, Json};
use canvas_graph::num::{parse_u64, u64_to_dec};

#[test]
fn parse_u64_reads_plain_decimals() {
    assert_eq!(parse_u64("0"), Some(0));
    assert_eq!(parse_u64("7"), Some(7));
    assert_eq!(parse_u64("18446744073709551615"), Some(u64::MAX));
}

#[test]
fn parse_u64_rejects_bad_texts() {
    assert_eq!(parse_u64(""), None);
    assert_eq!(parse_u64("00"), None);
    assert_eq!(parse_u64("007"), None);
    assert_eq!(parse_u64("12a"), None);
    assert_eq!(parse_u64("-3"), None);
    // one past u64::MAX
    assert_eq!(parse_u64("18446744073709551616"), None);
}

#[test]
fn u64_to_dec_renders_exactly() {
    assert_eq!(u64_to_dec(0).as_str(), "0");
    assert_eq!(u64_to_dec(10).as_str(), "10");
    assert_eq!(u64_to_dec(907).as_str(), "907");
    assert_eq!(u64_to_dec(u64::MAX).as_str(), "18446744073709551615");
}

#[test]
fn dec_then_parse_round_trips() {
    for n in [0u64, 1, 9, 10, 99, 12345678901234567, u64::MAX] {
        assert_eq!(parse_u64(u64_to_dec(n).as_str()), Some(n));
    }
}

#[test]
fn json_parse_reads_structure_not_text() {
    // The parse must hand back a tree, not the input text.
    let j = json_parse(" [ true , null , \"x\" ] ").expect("valid JSON");
    match &j {
        Json::Arr(items) => {
            assert_eq!(items.len(), 3);
            assert!(matches!(items[0], Json::Bool(true)));
            assert!(matches!(items[1], Json::Null));
            match &items[2] {
                Json::Str(s) => assert_eq!(s.as_str(), "x"),
                _ => panic!("expected a string"),
            }
        },
        _ => panic!("expected an array"),
    }
}

#[test]
fn json_parse_rejects_bad_text() {
    assert!(json_parse("{unquoted: 1}").is_none());
    assert!(json_parse("").is_none());
    assert!(json_parse("[1,").is_none());
}

#[test]
fn json_render_writes_compact_json() {
    let j = Json::Obj(vec![
        ("a".to_owned(), Json::Num("5".to_owned())),
        ("b".to_owned(), Json::Arr(vec![Json::Bool(false), Json::Null])),
    ]);
    assert_eq!(json_render(&j).as_str(), "{\"a\":5,\"b\":[false,null]}");
}

#[test]
fn json_render_escapes_strings() {
    let j = Json::Str("say \"hi\" \\ now".to_owned());
    assert_eq!(json_render(&j).as_str(), "\"say \\\"hi\\\" \\\\ now\"");
    let ctl = Json::Str("a\nb".to_owned());
    assert_eq!(json_render(&ctl).as_str(), "\"a\\u000ab\"");
}

#[test]
fn render_then_parse_round_trips_numbers_and_keys() {
    let j = Json::Obj(vec![
        ("n".to_owned(), Json::Num("88.5".to_owned())),
        ("z".to_owned(), Json::Num("12".to_owned())),
    ]);
    let text = json_render(&j);
    let back = json_parse(text.as_str()).expect("rendered JSON parses");
    match &back {
        Json::Obj(fields) => {
            assert_eq!(fields.len(), 2);
            assert_eq!(fields[0].0.as_str(), "n");
            assert!(matches!(&fields[0].1, Json::Num(s) if s.as_str() == "88.5"));
            assert_eq!(fields[1].0.as_str(), "z");
            assert!(matches!(&fields[1].1, Json::Num(s) if s.as_str() == "12"));
        },
        _ => panic!("expected an object"),
    }
}
