use reqtool::body::{body_from_file, body_from_stdin, pairs_to_json, parse_body, BodyPlan};

fn toks(items: &[&str]) -> Vec<String> {
    items.iter().map(|s| s.to_string()).collect()
}

fn resolved(r: Result<BodyPlan, String>) -> Option<String> {
    match r {
        Ok(BodyPlan::Resolved(b)) => b,
        other => panic!("expected a resolved body, got {:?}", kind_of(&other)),
    }
}

fn kind_of(r: &Result<BodyPlan, String>) -> &'static str {
    match r {
        Ok(BodyPlan::Resolved(_)) => "resolved",
        Ok(BodyPlan::FromStdin) => "stdin",
        Ok(BodyPlan::FromFile(_)) => "file",
        Err(_) => "error",
    }
}

#[test]
fn explicit_body_wins_over_tokens() {
    let r = parse_body(Some("{\"a\":1}".to_string()), &toks(&["x=1", "y=2"]));
    assert_eq!(resolved(r), Some("{\"a\":1}".to_string()));
}

#[test]
fn explicit_body_is_verbatim() {
    let r = parse_body(Some("not json at all".to_string()), &toks(&[]));
    assert_eq!(resolved(r), Some("not json at all".to_string()));
}

#[test]
fn no_inputs_falls_back_to_stdin() {
    let r = parse_body(None, &toks(&[]));
    assert!(matches!(r, Ok(BodyPlan::FromStdin)));
}

#[test]
fn single_token_is_raw_body() {
    let r = parse_body(None, &toks(&["plain text"]));
    assert_eq!(resolved(r), Some("plain text".to_string()));
}

#[test]
fn single_at_token_names_a_file() {
    let r = parse_body(None, &toks(&["@payload.json"]));
    match r {
        Ok(BodyPlan::FromFile(path)) => assert_eq!(path, "payload.json"),
        other => panic!("expected a file reference, got {:?}", kind_of(&other)),
    }
}

#[test]
fn file_contents_pass_through() {
    let r = body_from_file("payload.json", Ok("{\"k\":true}".to_string()));
    assert_eq!(r, Ok("{\"k\":true}".to_string()));
}

#[test]
fn missing_file_error_names_the_path() {
    let r = body_from_file("payload.json", Err("No such file or directory".to_string()));
    let msg = r.unwrap_err();
    assert_eq!(
        msg,
        "Failed to read file 'payload.json': No such file or directory"
    );
    assert!(msg.contains("payload.json"));
}

#[test]
fn key_value_tokens_build_a_json_object() {
    let r = parse_body(None, &toks(&["a=1", "b=hello"]));
    assert_eq!(resolved(r), Some("{\"a\":1,\"b\":\"hello\"}".to_string()));
}

#[test]
fn token_without_separator_fails_naming_it() {
    let r = parse_body(None, &toks(&["a=1", "bogus"]));
    match r {
        Err(msg) => assert_eq!(msg, "Invalid key=value pair: 'bogus'"),
        other => panic!("expected an error, got {:?}", kind_of(&other)),
    }
}

#[test]
fn first_bad_token_is_the_one_named() {
    let r = pairs_to_json(&toks(&["ok=1", "first", "second"]));
    assert_eq!(r.unwrap_err(), "Invalid key=value pair: 'first'");
}

#[test]
fn values_parse_as_json_literals() {
    let r = pairs_to_json(&toks(&["n=3.5", "t=true", "z=null", "s=\"quoted\""]));
    assert_eq!(
        r.unwrap(),
        "{\"n\":3.5,\"t\":true,\"z\":null,\"s\":\"quoted\"}"
    );
}

#[test]
fn structured_values_keep_their_shape() {
    let r = pairs_to_json(&toks(&["a={\"n\": [1, 2]}", "b=hi"]));
    assert_eq!(r.unwrap(), "{\"a\":{\"n\":[1,2]},\"b\":\"hi\"}");
}

#[test]
fn value_with_second_separator_stays_text() {
    let r = pairs_to_json(&toks(&["a=b=c", "d=1"]));
    assert_eq!(r.unwrap(), "{\"a\":\"b=c\",\"d\":1}");
}

#[test]
fn empty_key_is_kept() {
    let r = pairs_to_json(&toks(&["=5", "b=2"]));
    assert_eq!(r.unwrap(), "{\"\":5,\"b\":2}");
}

#[test]
fn duplicate_key_keeps_position_and_takes_last_value() {
    let r = pairs_to_json(&toks(&["a=1", "b=2", "a=3"]));
    assert_eq!(r.unwrap(), "{\"a\":3,\"b\":2}");
}

#[test]
fn empty_stdin_is_no_body() {
    assert_eq!(body_from_stdin(String::new()), None);
}

#[test]
fn piped_stdin_is_the_body() {
    assert_eq!(
        body_from_stdin("piped data".to_string()),
        Some("piped data".to_string())
    );
}
