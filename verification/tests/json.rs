use untis::json::{integer, parse, render, text, Json, ObjectBuilder};

fn member(name: &str, value: Json) -> (String, Json) {
    (name.to_string(), value)
}

#[test]
fn parse_reads_scalars() {
    assert_eq!(parse("null"), Some(Json::Null));
    assert_eq!(parse("true"), Some(Json::Bool(true)));
    assert_eq!(parse("false"), Some(Json::Bool(false)));
    assert_eq!(parse("42"), Some(Json::Number(Some(42))));
    assert_eq!(parse("-6003"), Some(Json::Number(Some(-6003))));
    assert_eq!(parse("\"abc\""), Some(Json::Text("abc".to_string())));
}

#[test]
fn parse_undoes_escapes() {
    assert_eq!(parse("\"a\\\"b\\\\c\\n\\u00e4\""), Some(Json::Text("a\"b\\c\n\u{e4}".to_string())));
}

#[test]
fn parse_keeps_integers_beyond_i64() {
    assert_eq!(parse("18446744073709551615"), Some(Json::Number(Some(18446744073709551615))));
    assert_eq!(parse("-9223372036854775808"), Some(Json::Number(Some(-9223372036854775808))));
}

#[test]
fn parse_models_a_fraction_as_no_integer() {
    assert_eq!(parse("1.5"), Some(Json::Number(None)));
    assert_eq!(parse("1e3"), Some(Json::Number(None)));
}

#[test]
fn parse_reads_nested_values() {
    let parsed = parse(" { \"list\" : [1, [2, {\"x\": null}]], \"name\": \"n\" } ").unwrap();
    assert_eq!(
        parsed.member("list"),
        Some(&Json::Array(vec![
            Json::Number(Some(1)),
            Json::Array(vec![Json::Number(Some(2)), Json::Object(vec![member("x", Json::Null)])]),
        ]))
    );
    assert_eq!(parsed.text_member("name"), Some(&"n".to_string()));
    assert_eq!(parsed.member("missing"), None);
}

#[test]
fn parse_rejects_what_is_not_one_value() {
    assert_eq!(parse(""), None);
    assert_eq!(parse("{"), None);
    assert_eq!(parse("{\"a\":1,}"), None);
    assert_eq!(parse("1 2"), None);
    assert_eq!(parse("nul"), None);
    assert_eq!(parse("<html></html>"), None);
}

#[test]
fn member_finds_the_first_of_equal_names() {
    let object = Json::Object(vec![
        member("a", Json::Number(Some(1))),
        member("b", Json::Number(Some(2))),
        member("a", Json::Number(Some(3))),
    ]);
    assert_eq!(object.member("a"), Some(&Json::Number(Some(1))));
    assert_eq!(object.member("b"), Some(&Json::Number(Some(2))));
    assert_eq!(object.member("c"), None);
    assert_eq!(object.int_member("a"), Some(1));
}

#[test]
fn member_of_what_is_no_object_is_none() {
    assert_eq!(Json::Null.member("a"), None);
    assert_eq!(Json::Array(vec![Json::Null]).member("a"), None);
    assert_eq!(Json::Text("a".to_string()).member("a"), None);
}

#[test]
fn typed_members_ask_for_the_type() {
    let object = Json::Object(vec![
        member("n", Json::Number(Some(7))),
        member("t", Json::Text("seven".to_string())),
        member("f", Json::Number(None)),
    ]);
    assert_eq!(object.int_member("n"), Some(7));
    assert_eq!(object.int_member("t"), None);
    assert_eq!(object.int_member("f"), None);
    assert_eq!(object.int_member("x"), None);
    assert_eq!(object.text_member("t"), Some(&"seven".to_string()));
    assert_eq!(object.text_member("n"), None);
}

#[test]
fn render_writes_compact_text() {
    let value = Json::Object(vec![
        member("a", Json::Array(vec![Json::Number(Some(1)), Json::Number(Some(-2)), Json::Bool(false)])),
        member("b", Json::Null),
        member("c", Json::Bool(true)),
        member("d", Json::Text("x".to_string())),
        member("e", Json::Object(vec![])),
        member("f", Json::Array(vec![])),
    ]);
    assert_eq!(render(&value), "{\"a\":[1,-2,false],\"b\":null,\"c\":true,\"d\":\"x\",\"e\":{},\"f\":[]}");
}

#[test]
fn render_escapes_texts_and_names() {
    let value = Json::Object(vec![member("q\"", Json::Text("a\"b\\c\nd".to_string()))]);
    assert_eq!(render(&value), "{\"q\\\"\":\"a\\\"b\\\\c\\nd\"}");
}

#[test]
fn render_writes_decimal_numbers() {
    assert_eq!(render(&Json::Number(Some(0))), "0");
    assert_eq!(render(&Json::Number(Some(7))), "7");
    assert_eq!(render(&Json::Number(Some(10))), "10");
    assert_eq!(render(&Json::Number(Some(-1))), "-1");
    assert_eq!(render(&Json::Number(Some(20231009))), "20231009");
    assert_eq!(render(&Json::Number(Some(i64::MIN as i128))), "-9223372036854775808");
    assert_eq!(render(&Json::Number(Some(u64::MAX as i128))), "18446744073709551615");
    assert_eq!(render(&Json::Number(Some(i128::MAX))), "170141183460469231731687303715884105727");
    assert_eq!(render(&Json::Number(Some(i128::MIN))), "-170141183460469231731687303715884105728");
}

#[test]
fn render_keeps_the_order_of_members() {
    let value = Json::Object(vec![member("z", Json::Null), member("a", Json::Null)]);
    assert_eq!(render(&value), "{\"z\":null,\"a\":null}");
}

#[test]
fn parse_reads_back_what_render_wrote() {
    let value = Json::Object(vec![
        member("id", Json::Number(Some(12))),
        member("list", Json::Array(vec![Json::Text("\u{1F600} \t".to_string()), Json::Null])),
        member("nested", Json::Object(vec![member("k", Json::Bool(true))])),
    ]);
    assert_eq!(parse(&render(&value)), Some(value));
}

#[test]
fn builder_keeps_members_in_the_order_put() {
    let built = ObjectBuilder::new().put("b", integer(2)).put("a", text("x")).finish();
    assert_eq!(built, Json::Object(vec![member("b", Json::Number(Some(2))), member("a", Json::Text("x".to_string()))]));
    assert_eq!(ObjectBuilder::new().finish(), Json::Object(vec![]));
}
