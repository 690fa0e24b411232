use textsynth::client::TextSynth;
use textsynth::engine::definition::{CustomEngineDefinition, EngineDefinition};
use textsynth::engine::Engine;

const API_KEY: &str = "SECRET-REDACTED";

fn text_synth() -> TextSynth {
    TextSynth::try_new(API_KEY.to_string()).expect("failed to create new textsynth client")
}

#[test]
fn test_new_with_client() {
    let _ = TextSynth::new_with_client(reqwest::Client::new(), API_KEY.into());
}

#[test]
fn test_try_new() {
    let _ = TextSynth::try_new(API_KEY.into()).expect("failed to create new textsynth client");
}

#[test]
fn test_engine() {
    let textsynth = text_synth();
    let _ = textsynth.engine(EngineDefinition::GptJ6B);
}

#[test]
fn test_engine_new() {
    let textsynth = text_synth();
    let _ = Engine::new(&textsynth, EngineDefinition::GptJ6B);
}

#[test]
fn test_engine_text_completion() {
    let textsynth = text_synth();
    let engine = textsynth.engine(EngineDefinition::GptJ6B);
    let _ = engine.text_completion("The quick brown fox jumps over the lazy ".into());
}

#[test]
fn try_new_keeps_the_key() {
    let textsynth = text_synth();
    assert_eq!(textsynth.api_key, API_KEY);
}

#[test]
fn log_probabilities_url_names_the_engine() {
    let textsynth = text_synth();
    let engine = textsynth.engine(EngineDefinition::Boris6B);
    assert_eq!(engine.log_probabilities_url(), "https://api.textsynth.com/v1/engines/boris_6B/logprob");
    let custom = textsynth.engine(EngineDefinition::Custom(CustomEngineDefinition::new("mine", 7)));
    assert_eq!(custom.log_probabilities_url(), "https://api.textsynth.com/v1/engines/mine/logprob");
}
