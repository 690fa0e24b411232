//! Engines and the operations they offer.

pub mod definition;
pub mod request;
pub mod text_completion;

use crate::client::TextSynth;
use definition::EngineDefinition;
use text_completion::TextCompletionBuilder;
use vstd::prelude::*;
use vstd::string::*;

verus! {

/// The start of every engine's endpoints.
pub const ENGINES_URL: &'static str = "https://api.textsynth.com/v1/engines/";

/// An engine that synthesizes text through a shared [`TextSynth`] handle.
pub struct Engine<'ts> {
    /// The handle that makes the HTTP requests.
    pub text_synth: &'ts TextSynth,
    /// The definition of the engine.
    pub definition: EngineDefinition,
}

/// The URL of an engine's endpoint.
pub open spec fn endpoint_url(engine_id: Seq<char>, endpoint: Seq<char>) -> Seq<char> {
    ENGINES_URL@ + engine_id + "/"@ + endpoint
}

/// The URL of the given endpoint of the engine with the given id.
pub fn endpoint(engine_id: &str, name: &str) -> (r: String)
    ensures
        r@ == endpoint_url(engine_id@, name@),
{
    String::from_str(ENGINES_URL).concat(engine_id).concat("/").concat(name)
}

impl<'ts> Engine<'ts> {
    /// An engine of the given definition.
    pub fn new(text_synth: &'ts TextSynth, definition: EngineDefinition) -> (r: Self)
        ensures
            r.text_synth == text_synth,
            r.definition == definition,
    {
        Engine { text_synth, definition }
    }

    /// The URL of this engine's log probability endpoint.
    pub fn log_probabilities_url(&self) -> (r: String)
        ensures
            r@ == endpoint_url(self.definition.spec_id(), "logprob"@),
    {
        endpoint(self.definition.id(), "logprob")
    }

    /// A builder of a text completion of the given prompt.
    pub fn text_completion(&self, prompt: String) -> (r: TextCompletionBuilder<'ts, '_>)
        ensures
            r.engine == self,
            r@ == TextCompletionBuilder::initial_view(prompt@),
    {
        TextCompletionBuilder::new(self, prompt)
    }
}

} // verus!
