use vosk::json::Json;
use vosk::transcription::{decode_final, decode_partial, final_from_json, partial_from_json};
use vosk::{
    DecodeProtocolError, TranscriptionPartialResult, TranscriptionResult, TranscriptionWord,
};

fn word(conf: f64, start: f64, end: f64, word: &str) -> TranscriptionWord {
    TranscriptionWord {
        conf: conf.to_bits(),
        end: end.to_bits(),
        start: start.to_bits(),
        word: word.to_string(),
    }
}

#[test]
fn final_result_with_words() {
    let raw = r#"{
  "result" : [{
      "conf" : 0.98,
      "end" : 0.51,
      "start" : 0.0,
      "word" : "hello"
    }, {
      "conf" : 1.0,
      "end" : 1.25,
      "start" : 0.6,
      "word" : "world"
    }],
  "text" : "hello world"
}"#;
    let result = decode_final(raw.as_bytes()).unwrap();
    assert_eq!(
        result,
        TranscriptionResult {
            text: "hello world".to_string(),
            result: vec![word(0.98, 0.0, 0.51, "hello"), word(1.0, 0.6, 1.25, "world")],
        }
    );
    assert_eq!(f64::from_bits(result.result[1].start) as f32, 0.6f32);
}

#[test]
fn final_result_without_result_member_has_no_words() {
    assert_eq!(
        decode_final(br#"{"text" : ""}"#),
        Ok(TranscriptionResult { text: String::new(), result: vec![] })
    );
    assert_eq!(
        decode_final(br#"{"text": "hm"}"#),
        Ok(TranscriptionResult { text: "hm".to_string(), result: vec![] })
    );
}

#[test]
fn final_result_with_empty_result_has_no_words() {
    assert_eq!(
        decode_final(br#"{"result": [], "text": ""}"#),
        Ok(TranscriptionResult { text: String::new(), result: vec![] })
    );
}

#[test]
fn whole_numbers_are_read_as_doubles() {
    let result = decode_final(
        br#"{"text": "a", "result": [{"conf": 1, "start": 0, "end": 2, "word": "a"}]}"#,
    )
    .unwrap();
    assert_eq!(result.result, vec![word(1.0, 0.0, 2.0, "a")]);
    let result = decode_final(
        br#"{"text": "a", "result": [{"conf": 1, "start": -3, "end": 2e0, "word": "a"}]}"#,
    )
    .unwrap();
    assert_eq!(result.result, vec![word(1.0, -3.0, 2.0, "a")]);
}

#[test]
fn members_of_other_names_are_passed_over() {
    let raw = r#"{"spk": [0.1, 0.2], "spk_frames": 12, "text": "hi",
                  "result": [{"conf": 0.5, "start": 0.1, "end": 0.2, "word": "hi", "x": null}]}"#;
    assert_eq!(
        decode_final(raw.as_bytes()),
        Ok(TranscriptionResult {
            text: "hi".to_string(),
            result: vec![word(0.5, 0.1, 0.2, "hi")],
        })
    );
}

#[test]
fn escapes_in_strings_are_resolved() {
    assert_eq!(
        decode_partial(r#"{"partial": "café \"au\" lait\n"}"#.as_bytes()),
        Ok(TranscriptionPartialResult { partial: "café \"au\" lait\n".to_string() })
    );
}

#[test]
fn final_result_of_the_wrong_shape_is_a_protocol_error() {
    let bad = [
        "",
        "not json",
        "{",
        "null",
        "[]",
        "\"text\"",
        "{}",
        r#"{"text": 1}"#,
        r#"{"text": null}"#,
        r#"{"partial": "x"}"#,
        r#"{"text": "x", "result": null}"#,
        r#"{"text": "x", "result": {}}"#,
        r#"{"text": "x", "result": "y"}"#,
        r#"{"text": "x", "result": [1]}"#,
        r#"{"text": "x", "result": [{}]}"#,
        r#"{"text": "x", "result": [{"conf": 1.0, "start": 0.0, "end": 1.0}]}"#,
        r#"{"text": "x", "result": [{"conf": 1.0, "start": 0.0, "word": "x"}]}"#,
        r#"{"text": "x", "result": [{"conf": 1.0, "end": 1.0, "word": "x"}]}"#,
        r#"{"text": "x", "result": [{"start": 0.0, "end": 1.0, "word": "x"}]}"#,
        r#"{"text": "x", "result": [{"conf": "1", "start": 0.0, "end": 1.0, "word": "x"}]}"#,
        r#"{"text": "x", "result": [{"conf": 1.0, "start": 0.0, "end": 1.0, "word": 3}]}"#,
        r#"{"text": "x", "result": [{"conf": 1.0, "start": 0.0, "end": 1.0, "word": "a"}, 2]}"#,
        r#"{"text": "x"} {"text": "y"}"#,
    ];
    for raw in bad {
        assert_eq!(decode_final(raw.as_bytes()), Err(DecodeProtocolError), "{raw}");
    }
}

#[test]
fn partial_result_of_the_wrong_shape_is_a_protocol_error() {
    let bad = [
        "",
        "{",
        "null",
        "[\"partial\"]",
        "{}",
        r#"{"partial": 1}"#,
        r#"{"partial": null}"#,
        r#"{"partial": ["x"]}"#,
        r#"{"text": "x"}"#,
        r#"{"Partial": "x"}"#,
    ];
    for raw in bad {
        assert_eq!(decode_partial(raw.as_bytes()), Err(DecodeProtocolError), "{raw}");
    }
}

#[test]
fn partial_result_is_read() {
    assert_eq!(
        decode_partial(b"{\n  \"partial\" : \"hello wor\"\n}"),
        Ok(TranscriptionPartialResult { partial: "hello wor".to_string() })
    );
    assert_eq!(
        decode_partial(br#"{"partial": ""}"#),
        Ok(TranscriptionPartialResult { partial: String::new() })
    );
}

#[test]
fn decoding_goes_by_the_first_member_of_a_name() {
    let doc = Json::Object(vec![
        ("text".to_string(), Json::Text("first".to_string())),
        ("text".to_string(), Json::Text("second".to_string())),
    ]);
    assert_eq!(
        final_from_json(&doc),
        Ok(TranscriptionResult { text: "first".to_string(), result: vec![] })
    );
    let doc = Json::Object(vec![
        ("partial".to_string(), Json::Number(0)),
        ("partial".to_string(), Json::Text("second".to_string())),
    ]);
    assert_eq!(partial_from_json(&doc), Err(DecodeProtocolError));
}

#[test]
fn reply_that_is_not_utf8_is_a_protocol_error() {
    assert_eq!(decode_partial(b"{\"partial\": \"caf\xe9\"}"), Err(DecodeProtocolError));
    assert_eq!(decode_final(b"{\"text\": \"\xff\xfe\"}"), Err(DecodeProtocolError));
    assert_eq!(decode_final(b"\xc3"), Err(DecodeProtocolError));
    assert_eq!(
        decode_partial(b"{\"partial\": \"caf\xc3\xa9\"}"),
        Ok(TranscriptionPartialResult { partial: "caf\u{e9}".to_string() })
    );
}
