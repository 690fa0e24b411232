use textsynth::client::TextSynth;
use textsynth::engine::definition::{CustomEngineDefinition, EngineDefinition};
use textsynth::engine::request::{PayloadValue, TextCompletionRequest};
use textsynth::engine::text_completion::{
    decode_body, decode_chunk, DecodeError, MaxTokens, Stop, TextCompletionBuilder, TopK,
};

fn engine_definition() -> EngineDefinition {
    EngineDefinition::Custom(CustomEngineDefinition::from_static("custom", 1024))
}

fn text_synth() -> TextSynth {
    TextSynth::try_new("SECRET-REDACTED".to_string()).unwrap()
}

fn bare_request(prompt: &str) -> TextCompletionRequest {
    TextCompletionRequest {
        prompt: prompt.to_string(),
        max_tokens: None,
        temperature: None,
        top_k: None,
        top_p: None,
        stream: None,
        stop: None,
    }
}

fn keys(request: TextCompletionRequest) -> Vec<&'static str> {
    request.into_payload().into_iter().map(|(k, _)| k).collect()
}

#[test]
fn test_max_tokens_new() {
    assert!(MaxTokens::new(1, &engine_definition()).is_some());
    assert!(MaxTokens::new(1024, &engine_definition()).is_some());
    assert!(MaxTokens::new(1025, &engine_definition()).is_none());
}

#[test]
fn test_max_tokens_inner() {
    let max_tokens = MaxTokens::new(1, &engine_definition()).unwrap();
    assert_eq!(max_tokens.inner(), 1);
}

#[test]
fn test_text_completion_builder_new() {
    let textsynth = text_synth();
    let engine = textsynth.engine(EngineDefinition::GptJ6B);
    let builder = TextCompletionBuilder::new(&engine, "fn main() {".into());
    assert_eq!(builder.prompt, "fn main() {");
    assert!(builder.max_tokens.is_none());
}

#[test]
fn test_text_completion_max_tokens() {
    let textsynth = text_synth();
    let engine = textsynth.engine(EngineDefinition::GptJ6B);
    let max_tokens = MaxTokens::new(128, &EngineDefinition::GptJ6B).unwrap();
    let builder = TextCompletionBuilder::new(&engine, "fn main() {".into()).max_tokens(max_tokens);
    assert_eq!(builder.max_tokens.map(|m| m.inner()), Some(128));
}

#[test]
fn test_text_completion_top_k() {
    let textsynth = text_synth();
    let engine = textsynth.engine(EngineDefinition::GptJ6B);
    let top_k = TopK::new(128).unwrap();
    let builder = TextCompletionBuilder::new(&engine, "fn main() {".into()).top_k(top_k);
    assert_eq!(builder.top_k.map(|k| k.get()), Some(128));
}

#[test]
fn max_tokens_boundary_around_ceiling() {
    let gptj = EngineDefinition::GptJ6B;
    assert!(MaxTokens::new(2047, &gptj).is_some());
    assert!(MaxTokens::new(2048, &gptj).is_some());
    assert!(MaxTokens::new(2049, &gptj).is_none());
    let boris = EngineDefinition::Boris6B;
    assert!(MaxTokens::new(1023, &boris).is_some());
    assert!(MaxTokens::new(1024, &boris).is_some());
    assert!(MaxTokens::new(1025, &boris).is_none());
    assert_eq!(MaxTokens::new(0, &boris).unwrap().inner(), 0);
}

#[test]
fn top_k_accepts_exactly_one_to_thousand() {
    assert!(TopK::new(0).is_none());
    assert_eq!(TopK::new(1).unwrap().get(), 1);
    assert_eq!(TopK::new(1000).unwrap().get(), 1000);
    assert!(TopK::new(1001).is_none());
    assert!(TopK::new(u16::MAX).is_none());
}

#[test]
fn stop_holds_at_most_five_strings() {
    let five: Vec<String> = (0..5).map(|i| format!("s{i}")).collect();
    let stop = Stop::try_from_slice(&five).unwrap();
    assert_eq!(stop.len(), 5);
    assert_eq!(stop.as_slice(), &five[..]);
    let six: Vec<String> = (0..6).map(|i| format!("s{i}")).collect();
    assert!(Stop::try_from_slice(&six).is_none());
    assert_eq!(Stop::try_from_slice(&[]).unwrap().len(), 0);
}

#[test]
fn stop_refuses_a_sixth_push() {
    let mut stop = Stop::new();
    for i in 0..5 {
        assert!(stop.try_push(format!("x{i}")));
    }
    assert!(!stop.try_push("sixth".to_string()));
    assert_eq!(stop.len(), 5);
    assert_eq!(stop.as_slice()[4], "x4");
}

#[test]
fn unset_request_payload_holds_prompt_only() {
    let payload = bare_request("Hello").into_payload();
    assert_eq!(payload.len(), 1);
    assert_eq!(payload[0].0, "prompt");
    assert!(matches!(&payload[0].1, PayloadValue::Text(t) if t == "Hello"));
}

#[test]
fn each_set_parameter_adds_its_key() {
    let mut r = bare_request("p");
    r.max_tokens = MaxTokens::new(12, &EngineDefinition::GptJ6B);
    assert_eq!(keys(r), vec!["prompt", "max_tokens"]);

    let mut r = bare_request("p");
    r.temperature = Some(serde_json::Value::from(0.5));
    assert_eq!(keys(r), vec!["prompt", "temperature"]);

    let mut r = bare_request("p");
    r.top_k = TopK::new(40);
    assert_eq!(keys(r), vec!["prompt", "top_k"]);

    let mut r = bare_request("p");
    r.top_p = Some(serde_json::Value::from(0.9));
    assert_eq!(keys(r), vec!["prompt", "top_p"]);

    let mut r = bare_request("p");
    r.stream = Some(true);
    assert_eq!(keys(r), vec!["prompt", "stream"]);

    let mut r = bare_request("p");
    r.stop = Some(Stop::new());
    assert_eq!(keys(r), vec!["prompt", "stop"]);
}

#[test]
fn full_request_payload_values() {
    let mut r = bare_request("q");
    r.max_tokens = MaxTokens::new(100, &EngineDefinition::GptJ6B);
    r.top_k = TopK::new(7);
    r.stream = Some(false);
    r.stop = Stop::try_from_slice(&["end".to_string()]);
    let payload = r.into_payload();
    assert_eq!(payload.iter().map(|(k, _)| *k).collect::<Vec<_>>(), vec!["prompt", "max_tokens", "top_k", "stream", "stop"]);
    assert!(matches!(payload[1].1, PayloadValue::Count(100)));
    assert!(matches!(payload[2].1, PayloadValue::Count(7)));
    assert!(matches!(payload[3].1, PayloadValue::Flag(false)));
    assert!(matches!(&payload[4].1, PayloadValue::Strings(s) if s.as_slice() == ["end".to_string()]));
}

#[test]
fn builder_requests_and_url() {
    let textsynth = text_synth();
    let engine = textsynth.engine(EngineDefinition::GptJ6B);
    let builder = engine.text_completion("hi".into()).top_k(TopK::new(3).unwrap()).top_k(TopK::new(5).unwrap());
    assert_eq!(builder.url(), "https://api.textsynth.com/v1/engines/gptj_6B/completions");
    let streamed = builder.stream_request();
    assert_eq!(streamed.stream, Some(true));
    assert!(streamed.stop.is_none());
    assert_eq!(streamed.top_k.map(|k| k.get()), Some(5));

    let engine = textsynth.engine(EngineDefinition::FairseqGpt13B);
    let builder = engine.text_completion("hi".into()).temperature_value(serde_json::Value::from(1.5));
    let now = builder.request(Stop::try_from_slice(&["RwLock".to_string()]));
    assert_eq!(now.stream, None);
    assert_eq!(now.stop.as_ref().map(|s| s.len()), Some(1));
    assert_eq!(now.temperature, Some(serde_json::Value::from(1.5)));
    assert_eq!(now.prompt, "hi");
}

#[test]
fn decodes_success_shape() {
    let completion = decode_body(br#"{"text":"a","reached_end":false}"#).unwrap().unwrap();
    assert_eq!(completion.text(), "a");
    assert!(!completion.reached_end());
    assert!(!completion.truncated_prompt());
    assert_eq!(completion.total_tokens(), None);
}

#[test]
fn decodes_error_shape() {
    let error = decode_body(br#"{"status":400,"error":"bad prompt"}"#).unwrap().unwrap_err();
    assert_eq!(error.status(), 400);
    assert_eq!(error.message(), "bad prompt");
}

#[test]
fn decodes_neither_shape() {
    assert!(matches!(decode_body(br#"{"text":1,"reached_end":false}"#), Err(DecodeError::NoMatchingShape)));
    assert!(matches!(decode_body(br#"{"status":0,"error":"x"}"#), Err(DecodeError::NoMatchingShape)));
    assert!(matches!(decode_body(br#"{"status":70000,"error":"x"}"#), Err(DecodeError::NoMatchingShape)));
    assert!(matches!(decode_body(br#"{}"#), Err(DecodeError::NoMatchingShape)));
}

#[test]
fn invalid_json_is_a_json_error() {
    assert!(matches!(decode_body(b"{\"text\":"), Err(DecodeError::Json(_))));
    assert!(matches!(decode_body(b"[1, 2]"), Err(DecodeError::Json(_))));
    assert!(matches!(decode_body(b""), Err(DecodeError::Json(_))));
}

#[test]
fn success_shape_wins_over_error_shape() {
    let r = decode_body(br#"{"text":"t","reached_end":true,"status":500,"error":"e","extra":[1]}"#);
    let completion = r.unwrap().unwrap();
    assert_eq!(completion.text(), "t");
    assert!(completion.reached_end());
}

#[test]
fn truncated_prompt_defaults_to_false() {
    let absent = decode_body(br#"{"text":"","reached_end":true}"#).unwrap().unwrap();
    assert!(!absent.truncated_prompt());
    let null = decode_body(br#"{"text":"","reached_end":true,"truncated_prompt":null}"#).unwrap().unwrap();
    assert!(!null.truncated_prompt());
    let set = decode_body(br#"{"text":"","reached_end":true,"truncated_prompt":true}"#).unwrap().unwrap();
    assert!(set.truncated_prompt());
    let unset = decode_body(br#"{"text":"","reached_end":true,"truncated_prompt":false}"#).unwrap().unwrap();
    assert!(!unset.truncated_prompt());
}

#[test]
fn streamed_chunks_decode_in_order() {
    let chunks: Vec<&[u8]> = vec![
        b"{\"text\":\"a\",\"reached_end\":false}\n\n",
        b"{\"text\":\"b\",\"reached_end\":true,\"total_tokens\":12}\n\n",
    ];
    let decoded: Vec<_> = chunks.iter().map(|c| decode_chunk(c).unwrap().unwrap()).collect();
    assert_eq!(decoded.len(), 2);
    assert_eq!(decoded[0].text(), "a");
    assert_eq!(decoded[0].total_tokens(), None);
    assert_eq!(decoded[1].text(), "b");
    assert_eq!(decoded[1].total_tokens(), Some(12));
    assert!(decoded[1].reached_end());
}

#[test]
fn chunk_shorter_than_delimiter() {
    assert!(matches!(decode_chunk(b"}"), Err(DecodeError::MissingDelimiter)));
    assert!(matches!(decode_chunk(b""), Err(DecodeError::MissingDelimiter)));
    assert!(matches!(decode_chunk(b"\n\n"), Err(DecodeError::Json(_))));
}

#[test]
fn streamed_error_chunk() {
    let error = decode_chunk(b"{\"status\":503,\"error\":\"busy\"}\n\n").unwrap().unwrap_err();
    assert_eq!(error.status(), 503);
    assert_eq!(error.message(), "busy");
}

#[test]
fn total_tokens_must_be_a_count() {
    assert!(matches!(
        decode_body(br#"{"text":"x","reached_end":true,"total_tokens":-1}"#),
        Err(DecodeError::NoMatchingShape)
    ));
    assert!(matches!(
        decode_body(br#"{"text":"x","reached_end":true,"total_tokens":1.5}"#),
        Err(DecodeError::NoMatchingShape)
    ));
}
