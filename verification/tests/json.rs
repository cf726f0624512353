use sociacli::json::{Fields, Json};

fn sample() -> Json {
    Fields::new()
        .with_text("name", "bob")
        .with_bool("online", true)
        .with("list", Json::Arr(vec![Json::whole(1), Json::Null, Json::text("x")]))
        .with("inner", Json::object())
        .done()
}

#[test]
fn members_are_found() {
    let j = sample();
    assert_eq!(j.text_member("name"), Some("bob"));
    assert_eq!(j.text_or("nobody", "?"), "?");
    assert_eq!(j.text_or("online", "?"), "?");
    assert!(j.flag("online"));
    assert!(!j.flag("name"));
    assert_eq!(j.array_member("list").map(|v| v.len()), Some(3));
    assert!(j.array_member("name").is_none());
    assert!(Json::Null.get("name").is_none());
}

#[test]
fn text_is_that_of_serde_json() {
    let j = sample();
    assert_eq!(
        j.to_text(),
        r#"{"inner":{},"list":[1,null,"x"],"name":"bob","online":true}"#
    );
    assert_eq!(Json::object().to_pretty_text(), "{}");
    assert_eq!(Json::Arr(vec![Json::whole(-3)]).to_pretty_text(), "[\n  -3\n]");
}

#[test]
fn written_values_are_read_back() {
    let text = sample().to_text();
    assert_eq!(Json::parse(&text).ok().unwrap().to_text(), text);
    let pretty = sample().to_pretty_text();
    assert_eq!(Json::parse(&pretty).ok().unwrap().to_text(), text);
}

#[test]
fn what_is_no_json_is_refused() {
    let e = Json::parse("{").err().unwrap();
    assert!(e.contains("EOF"));
}

#[test]
fn numbers_pass_through() {
    let j = Json::parse("[1.5,18446744073709551615,-9223372036854775808]").ok().unwrap();
    assert_eq!(j.to_text(), "[1.5,18446744073709551615,-9223372036854775808]");
}

#[test]
fn later_members_win() {
    let j = Fields::new().with_text("a", "1").with_text("a", "2").done();
    assert_eq!(j.text_member("a"), Some("2"));
    assert_eq!(j.to_text(), r#"{"a":"2"}"#);
}

#[test]
fn members_are_put_and_taken() {
    let j = sample().put("name", Json::text("zoe"));
    assert_eq!(j.text_member("name"), Some("zoe"));
    let j = j.without("name");
    assert!(j.get("name").is_none());
    assert!(j.flag("online"));
    assert_eq!(Json::Null.put("a", Json::Null).to_text(), "null");
    assert_eq!(Json::whole(7).without("a").to_text(), "7");
}

#[test]
fn copies_are_whole() {
    assert_eq!(sample().clone().to_text(), sample().to_text());
    assert_eq!(Json::text_or_null(&None).to_text(), "null");
    assert_eq!(Json::text_or_null(&Some("s".to_string())).to_text(), r#""s""#);
    assert_eq!(sample().member_or("inner", Json::Null).to_text(), "{}");
    assert_eq!(sample().member_or("outer", Json::Null).to_text(), "null");
    assert_eq!(Json::Bool(true).as_bool(), Some(true));
    assert_eq!(Json::Null.as_bool(), None);
    assert_eq!(Json::text("q").as_str(), Some("q"));
}
