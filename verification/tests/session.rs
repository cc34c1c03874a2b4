use vosk::{
    DecodeProtocolError, InvalidStateError, SessionCreateError, SessionError, SessionRequest,
    SessionState, SpeakerModel, TranscriptionPartialResult, TranscriptionResult,
    TranscriptionWord, VoskModel, VoskSessionConfig,
};

const EMPTY_FINAL: &[u8] = b"{\n  \"text\" : \"\"\n}";
const EMPTY_PARTIAL: &[u8] = b"{\n  \"partial\" : \"\"\n}";

fn phrases(words: &[&str]) -> Vec<String> {
    words.iter().map(|w| w.to_string()).collect()
}

#[test]
fn silence_gives_no_boundary_and_an_empty_partial() {
    let model = VoskModel::new("models/en-small", 0x1000).unwrap();
    let config = VoskSessionConfig::default();
    assert_eq!(
        model.session_request(&config),
        Ok(SessionRequest {
            model: 0x1000,
            sampling_freq: 16000.0f32.to_bits(),
            grammar: None,
            speaker: None,
        })
    );
    let mut sess = model.create_session(config, 0x2000).unwrap();
    assert_eq!(sess.handle(), 0x2000);
    assert_eq!(f32::from_bits(sess.sampling_freq()), 16000.0);
    assert_eq!(sess.state(), SessionState::Listening);

    let silence = vec![0i16; 16000];
    assert_eq!(model.feed(&mut sess, &silence, 0), Ok(false));
    assert!(!sess.utterance_ready());
    assert_eq!(sess.samples(), 16000);
    assert_eq!(
        model.get_partial_result(&sess, EMPTY_PARTIAL),
        Ok(TranscriptionPartialResult { partial: String::new() })
    );
}

#[test]
fn boundary_is_relayed_and_the_result_read() {
    let model = VoskModel::new("models/en-small", 0x1000).unwrap();
    let mut sess = model.create_session(VoskSessionConfig::default(), 0x2000).unwrap();
    let speech = vec![1200i16; 14400];
    let gap = vec![0i16; 8000];
    assert_eq!(model.feed(&mut sess, &speech, 0), Ok(false));
    assert_eq!(model.feed(&mut sess, &gap, 1), Ok(true));
    assert!(sess.utterance_ready());
    let raw = br#"{
  "result" : [{
      "conf" : 1.000000,
      "end" : 0.900000,
      "start" : 0.000000,
      "word" : "hello"
    }],
  "text" : "hello"
}"#;
    let result = model.get_result(&mut sess, raw).unwrap();
    assert_eq!(result.text, "hello");
    assert_eq!(
        result.result,
        vec![TranscriptionWord {
            conf: 1.0f64.to_bits(),
            end: 0.9f64.to_bits(),
            start: 0.0f64.to_bits(),
            word: "hello".to_string(),
        }]
    );
    assert_eq!(f64::from_bits(result.result[0].start), 0.0);
    assert_eq!(f64::from_bits(result.result[0].end), 14400.0 / 16000.0);
    assert!(!sess.utterance_ready());
    assert_eq!(sess.state(), SessionState::Listening);
    assert_eq!(sess.samples(), 22400);
}

#[test]
fn only_a_reply_of_one_is_a_boundary() {
    let model = VoskModel::new("m", 1).unwrap();
    let mut sess = model.create_session(VoskSessionConfig::default(), 2).unwrap();
    for reply in [0, -1, 2, i32::MIN, i32::MAX] {
        assert_eq!(model.feed(&mut sess, &[0i16; 4], reply), Ok(false));
        assert!(!sess.utterance_ready());
    }
    assert_eq!(model.feed(&mut sess, &[0i16; 4], 1), Ok(true));
    assert!(sess.utterance_ready());
    assert_eq!(model.feed(&mut sess, &[0i16; 4], 0), Ok(false));
    assert!(!sess.utterance_ready());
}

#[test]
fn grammar_reaches_the_engine_as_a_json_array() {
    let model = VoskModel::new("models/en-small", 0x1000).unwrap();
    let config = VoskSessionConfig::builder().grammar(phrases(&["yes", "no"])).finish().unwrap();
    let request = model.session_request(&config).unwrap();
    assert_eq!(request.grammar.as_deref(), Some(r#"["yes","no"]"#));
    assert_eq!(request.speaker, None);
    assert_eq!(request.model, 0x1000);
    let mut sess = model.create_session(config, 0x2000).unwrap();
    assert!(sess.speaker().is_none());
    assert_eq!(model.feed(&mut sess, &[900i16; 16000], 1), Ok(true));
    let result = model.get_result(&mut sess, br#"{"text" : "yes"}"#).unwrap();
    assert!(["yes", "no"].contains(&result.text.as_str()));
}

#[test]
fn grammar_phrases_are_escaped() {
    let model = VoskModel::new("m", 1).unwrap();
    let config = VoskSessionConfig::builder()
        .grammar(phrases(&["say \"hi\"", "back\\slash", "[unk]", "été\n"]))
        .finish()
        .unwrap();
    let request = model.session_request(&config).unwrap();
    assert_eq!(
        request.grammar.as_deref(),
        Some(r#"["say \"hi\"","back\\slash","[unk]","été\n"]"#)
    );
}

#[test]
fn speaker_model_reaches_the_engine_as_its_handle() {
    let model = VoskModel::new("models/en-small", 0x1000).unwrap();
    let speaker = SpeakerModel::new("models/spk", 0x3000).unwrap();
    let config = VoskSessionConfig::builder()
        .spk_root(&speaker)
        .sampling_freq(8000.0f32.to_bits())
        .finish()
        .unwrap();
    assert_eq!(
        model.session_request(&config),
        Ok(SessionRequest {
            model: 0x1000,
            sampling_freq: 8000.0f32.to_bits(),
            grammar: None,
            speaker: Some(0x3000),
        })
    );
    let sess = model.create_session(config, 0x2000).unwrap();
    assert_eq!(sess.speaker(), Some(&speaker));
    assert_eq!(sess.model(), &model);
    assert_eq!(f32::from_bits(sess.sampling_freq()), 8000.0);
}

#[test]
fn null_session_handle_is_a_create_error() {
    let model = VoskModel::new("models/en-small", 0x1000).unwrap();
    assert_eq!(
        model.create_session(VoskSessionConfig::default(), 0),
        Err(SessionCreateError)
    );
}

#[test]
fn no_samples_then_final_result_is_empty() {
    let model = VoskModel::new("models/en-small", 0x1000).unwrap();
    let mut sess = model.create_session(VoskSessionConfig::default(), 0x2000).unwrap();
    assert_eq!(model.feed(&mut sess, &[], 0), Ok(false));
    assert_eq!(sess.samples(), 0);
    assert_eq!(
        model.get_final_result(&mut sess, EMPTY_FINAL),
        Ok(TranscriptionResult { text: String::new(), result: vec![] })
    );
    assert_eq!(sess.state(), SessionState::Finalized);
}

#[test]
fn feed_after_final_result_is_an_invalid_state() {
    let model = VoskModel::new("models/en-small", 0x1000).unwrap();
    let mut sess = model.create_session(VoskSessionConfig::default(), 0x2000).unwrap();
    assert_eq!(model.feed(&mut sess, &[0i16; 160], 0), Ok(false));
    assert!(sess.is_listening());
    model.get_final_result(&mut sess, EMPTY_FINAL).unwrap();
    assert!(!sess.is_listening());
    assert_eq!(model.feed(&mut sess, &[0i16; 160], 1), Err(InvalidStateError));
    assert_eq!(sess.samples(), 160);
    assert!(!sess.utterance_ready());
    assert_eq!(sess.state(), SessionState::Finalized);
}

#[test]
fn finalized_session_gives_no_result_and_no_partial() {
    let model = VoskModel::new("m", 1).unwrap();
    let mut sess = model.create_session(VoskSessionConfig::default(), 2).unwrap();
    model.get_final_result(&mut sess, EMPTY_FINAL).unwrap();
    assert_eq!(
        model.get_result(&mut sess, EMPTY_FINAL),
        Err(SessionError::InvalidState(InvalidStateError))
    );
    assert_eq!(
        model.get_partial_result(&sess, EMPTY_PARTIAL),
        Err(SessionError::InvalidState(InvalidStateError))
    );
}

#[test]
fn final_result_may_be_asked_again() {
    let model = VoskModel::new("m", 1).unwrap();
    let mut sess = model.create_session(VoskSessionConfig::default(), 2).unwrap();
    assert_eq!(model.feed(&mut sess, &[5i16; 10], 1), Ok(true));
    let first = model.get_final_result(&mut sess, br#"{"text": "yes"}"#).unwrap();
    assert_eq!(first.text, "yes");
    assert!(!sess.utterance_ready());
    let again = model.get_final_result(&mut sess, EMPTY_FINAL).unwrap();
    assert_eq!(again, TranscriptionResult { text: String::new(), result: vec![] });
    assert_eq!(sess.state(), SessionState::Finalized);
}

#[test]
fn partial_result_twice_is_the_same_and_leaves_the_session() {
    let model = VoskModel::new("m", 1).unwrap();
    let mut sess = model.create_session(VoskSessionConfig::default(), 2).unwrap();
    assert_eq!(model.feed(&mut sess, &[7i16; 3200], 0), Ok(false));
    let raw = br#"{"partial" : "hello wor"}"#;
    let first = model.get_partial_result(&sess, raw);
    let second = model.get_partial_result(&sess, raw);
    assert_eq!(first, second);
    assert_eq!(first.unwrap().partial, "hello wor");
    assert_eq!(sess.samples(), 3200);
    assert_eq!(sess.state(), SessionState::Listening);
}

#[test]
fn reply_of_the_wrong_shape_is_a_protocol_error() {
    let model = VoskModel::new("m", 1).unwrap();
    let mut sess = model.create_session(VoskSessionConfig::default(), 2).unwrap();
    assert_eq!(model.feed(&mut sess, &[7i16; 8], 1), Ok(true));
    assert_eq!(
        model.get_partial_result(&sess, EMPTY_FINAL),
        Err(SessionError::DecodeProtocol(DecodeProtocolError))
    );
    assert_eq!(
        model.get_result(&mut sess, EMPTY_PARTIAL),
        Err(SessionError::DecodeProtocol(DecodeProtocolError))
    );
    assert!(!sess.utterance_ready());
    assert_eq!(sess.state(), SessionState::Listening);
    assert_eq!(model.get_final_result(&mut sess, b"garbage"), Err(DecodeProtocolError));
    assert_eq!(sess.state(), SessionState::Finalized);
}

#[test]
fn sessions_of_one_model_do_not_touch_each_other() {
    let model = VoskModel::new("models/en-small", 0x1000).unwrap();
    let mut a = model.create_session(VoskSessionConfig::default(), 0xa).unwrap();
    let mut b = model.create_session(VoskSessionConfig::default(), 0xb).unwrap();
    assert_eq!(model.feed(&mut a, &[1i16; 100], 1), Ok(true));
    assert_eq!(model.feed(&mut b, &[2i16; 50], 0), Ok(false));
    model.get_final_result(&mut a, br#"{"text": "one"}"#).unwrap();
    assert_eq!((a.samples(), a.state(), a.utterance_ready()), (100, SessionState::Finalized, false));
    assert_eq!((b.samples(), b.state(), b.utterance_ready()), (50, SessionState::Listening, false));
    assert_eq!(model.feed(&mut b, &[2i16; 50], 1), Ok(true));
    assert_eq!(b.samples(), 100);
    assert_eq!(a.model(), b.model());
    assert_eq!(a.release(), 0xa);
    assert_eq!(b.release(), 0xb);
    assert_eq!(model.release(), 0x1000);
}
