//! Engine definitions: the well-known engines and custom ones.

use crate::sealed::Sealed;
use vstd::prelude::*;
use vstd::string::*;

verus! {

/// The token ceiling of an engine that does not state its own.
pub const DEFAULT_MAX_TOKENS: usize = 1024;

/// Declares that the implementing type stands for an engine known to this crate. The trait is
/// sealed: no type outside this crate can implement it.
pub trait KnownEngineDefinition: Sealed {
    /// The id of this engine, as a sequence of characters.
    spec fn spec_id() -> Seq<char>;

    /// The token ceiling of this engine.
    spec fn spec_max_tokens() -> usize;

    /// The id of this engine definition.
    fn id() -> (r: &'static str)
        ensures
            r@ == Self::spec_id(),
    ;

    /// The maximum amount of tokens this engine definition can have.
    fn max_tokens() -> (r: usize)
        ensures
            r == Self::spec_max_tokens(),
    ;

    /// Conversion into a [`CustomEngineDefinition`].
    fn as_custom_engine_definition() -> (r: CustomEngineDefinition)
        ensures
            r.id@ == Self::spec_id(),
            r.max_tokens == Self::spec_max_tokens(),
    ;
}

/// GPT-J, a language model with 6 billion parameters trained on the Pile and published by
/// EleutherAI. Mainly English, also fluent in several other languages and computer languages.
pub struct GptJ6B {
    _priv: (),
}

impl Sealed for GptJ6B {}

impl KnownEngineDefinition for GptJ6B {
    open spec fn spec_id() -> Seq<char> {
        "gptj_6B"@
    }

    open spec fn spec_max_tokens() -> usize {
        2048
    }

    fn id() -> (r: &'static str) {
        "gptj_6B"
    }

    fn max_tokens() -> (r: usize) {
        2048
    }

    fn as_custom_engine_definition() -> (r: CustomEngineDefinition) {
        CustomEngineDefinition::from_static(Self::id(), Self::max_tokens())
    }
}

/// Boris, a version of GPT-J fine tuned for the French language.
pub struct Boris6B {
    _priv: (),
}

impl Sealed for Boris6B {}

impl KnownEngineDefinition for Boris6B {
    open spec fn spec_id() -> Seq<char> {
        "boris_6B"@
    }

    open spec fn spec_max_tokens() -> usize {
        DEFAULT_MAX_TOKENS
    }

    fn id() -> (r: &'static str) {
        "boris_6B"
    }

    fn max_tokens() -> (r: usize) {
        DEFAULT_MAX_TOKENS
    }

    fn as_custom_engine_definition() -> (r: CustomEngineDefinition) {
        CustomEngineDefinition::from_static(Self::id(), Self::max_tokens())
    }
}

/// Fairseq GPT 13B, an English model with 13 billion parameters. Support of this model is
/// experimental and may stop working without notice.
pub struct FairseqGpt13B {
    _priv: (),
}

impl Sealed for FairseqGpt13B {}

impl KnownEngineDefinition for FairseqGpt13B {
    open spec fn spec_id() -> Seq<char> {
        "fairseq_gpt_13B"@
    }

    open spec fn spec_max_tokens() -> usize {
        DEFAULT_MAX_TOKENS
    }

    fn id() -> (r: &'static str) {
        "fairseq_gpt_13B"
    }

    fn max_tokens() -> (r: usize) {
        DEFAULT_MAX_TOKENS
    }

    fn as_custom_engine_definition() -> (r: CustomEngineDefinition) {
        CustomEngineDefinition::from_static(Self::id(), Self::max_tokens())
    }
}

/// A custom engine definition, which may or may not exist on the server.
#[derive(Debug, Clone, Ord, PartialOrd, Eq, PartialEq, Hash)]
pub struct CustomEngineDefinition {
    /// The id of this engine definition.
    pub id: String,
    /// The maximum amount of tokens this engine definition can have.
    pub max_tokens: usize,
}

impl CustomEngineDefinition {
    /// Creates a custom engine definition from a statically known id.
    pub fn from_static(id: &'static str, max_tokens: usize) -> (r: Self)
        ensures
            r.id@ == id@,
            r.max_tokens == max_tokens,
    {
        CustomEngineDefinition { id: id.to_owned(), max_tokens }
    }

    /// Creates a custom engine definition from an id known at run time.
    pub fn dynamic(id: String, max_tokens: usize) -> (r: Self)
        ensures
            r.id@ == id@,
            r.max_tokens == max_tokens,
    {
        CustomEngineDefinition { id, max_tokens }
    }

    /// Creates a custom engine definition from any id.
    pub fn new(id: &str, max_tokens: usize) -> (r: Self)
        ensures
            r.id@ == id@,
            r.max_tokens == max_tokens,
    {
        CustomEngineDefinition { id: id.to_owned(), max_tokens }
    }
}

/// The engine definitions supported by this crate.
#[derive(Debug, Clone, Ord, PartialOrd, Eq, PartialEq, Hash)]
pub enum EngineDefinition {
    /// See [`GptJ6B`].
    GptJ6B,
    /// See [`Boris6B`].
    Boris6B,
    /// See [`FairseqGpt13B`].
    FairseqGpt13B,
    /// An engine given by its id and token ceiling.
    Custom(CustomEngineDefinition),
}

impl EngineDefinition {
    /// The id of this engine definition.
    pub open spec fn spec_id(&self) -> Seq<char> {
        match self {
            EngineDefinition::GptJ6B => GptJ6B::spec_id(),
            EngineDefinition::Boris6B => Boris6B::spec_id(),
            EngineDefinition::FairseqGpt13B => FairseqGpt13B::spec_id(),
            EngineDefinition::Custom(c) => c.id@,
        }
    }

    /// The token ceiling of this engine definition.
    pub open spec fn spec_max_tokens(&self) -> usize {
        match self {
            EngineDefinition::GptJ6B => GptJ6B::spec_max_tokens(),
            EngineDefinition::Boris6B => Boris6B::spec_max_tokens(),
            EngineDefinition::FairseqGpt13B => FairseqGpt13B::spec_max_tokens(),
            EngineDefinition::Custom(c) => c.max_tokens,
        }
    }

    /// Converts this engine definition into a [`CustomEngineDefinition`] with the same id and
    /// token ceiling.
    pub fn to_custom_engine_definition(&self) -> (r: CustomEngineDefinition)
        ensures
            r.id@ == self.spec_id(),
            r.max_tokens == self.spec_max_tokens(),
    {
        match self {
            EngineDefinition::GptJ6B => GptJ6B::as_custom_engine_definition(),
            EngineDefinition::Boris6B => Boris6B::as_custom_engine_definition(),
            EngineDefinition::FairseqGpt13B => FairseqGpt13B::as_custom_engine_definition(),
            EngineDefinition::Custom(c) => CustomEngineDefinition {
                id: c.id.clone(),
                max_tokens: c.max_tokens,
            },
        }
    }

    /// The id of this engine definition.
    pub fn id(&self) -> (r: &str)
        ensures
            r@ == self.spec_id(),
    {
        match self {
            EngineDefinition::GptJ6B => GptJ6B::id(),
            EngineDefinition::Boris6B => Boris6B::id(),
            EngineDefinition::FairseqGpt13B => FairseqGpt13B::id(),
            EngineDefinition::Custom(c) => c.id.as_str(),
        }
    }

    /// The maximum amount of tokens this engine definition can have.
    pub fn max_tokens(&self) -> (r: usize)
        ensures
            r == self.spec_max_tokens(),
    {
        match self {
            EngineDefinition::GptJ6B => GptJ6B::max_tokens(),
            EngineDefinition::Boris6B => Boris6B::max_tokens(),
            EngineDefinition::FairseqGpt13B => FairseqGpt13B::max_tokens(),
            EngineDefinition::Custom(c) => c.max_tokens,
        }
    }
}

} // verus!
