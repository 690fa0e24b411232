//! Text completion: validated parameters, the request builder, and decoding of the completions
//! returned, whole or streamed.

use crate::engine::definition::EngineDefinition;
use crate::engine::request::TextCompletionRequest;
use crate::engine::{endpoint, endpoint_url, Engine};
use crate::error::{api_error_of, Error, ErrorView};
use crate::json::{
    fields_view, get_field, json_object_of, lemma_lookup_push, lookup, parse_object, Fields, JsonField,
    JsonFieldView,
};
use crate::utils::UntaggedResult;
use arrayvec::ArrayVec;
use serde_json::Error as JsonError;
use serde_json::Value;
use vstd::prelude::*;

verus! {

/// The most stop strings that a request can carry.
pub const STOP_CAPACITY: usize = 5;

/// The smallest accepted `top_k`.
pub const TOP_K_MIN: u16 = 1;

/// The largest accepted `top_k`.
pub const TOP_K_MAX: u16 = 1000;

/// Maximum number of tokens to generate. A token is typically 4 or 5 characters of Latin script.
/// The value never exceeds the token ceiling of the engine it was made for; the ceiling itself is
/// accepted.
#[derive(Debug, Copy, Clone, Ord, PartialOrd, Eq, PartialEq, Hash)]
pub struct MaxTokens(usize);

impl View for MaxTokens {
    type V = usize;

    closed spec fn view(&self) -> usize {
        self.0
    }
}

impl MaxTokens {
    /// Creates a maximum number of tokens, valid for the given engine definition: `None` when
    /// `max_tokens` is above the engine's token ceiling.
    pub fn new(max_tokens: usize, engine_definition: &EngineDefinition) -> (r: Option<Self>)
        ensures
            r is Some <==> max_tokens <= engine_definition.spec_max_tokens(),
            r matches Some(m) ==> m@ == max_tokens,
    {
        if max_tokens <= engine_definition.max_tokens() {
            Some(MaxTokens(max_tokens))
        } else {
            None
        }
    }

    /// The maximum number of tokens.
    pub fn inner(&self) -> (r: usize)
        ensures
            r == self@,
    {
        self.0
    }
}

/// Select the next output token among the `top_k` most likely ones, with `top_k` in
/// `[TOP_K_MIN, TOP_K_MAX]`. A higher `top_k` gives more diversity but a potentially less relevant
/// output.
#[derive(Debug, Copy, Clone, Ord, PartialOrd, Eq, PartialEq, Hash)]
pub struct TopK(u16);

impl View for TopK {
    type V = u16;

    closed spec fn view(&self) -> u16 {
        self.0
    }
}

impl TopK {
    #[verifier::type_invariant]
    spec fn in_range(self) -> bool {
        TOP_K_MIN <= self.0 <= TOP_K_MAX
    }

    /// Creates a `top_k` value: `None` outside `[TOP_K_MIN, TOP_K_MAX]`.
    pub fn new(top_k: u16) -> (r: Option<Self>)
        ensures
            r is Some <==> TOP_K_MIN <= top_k <= TOP_K_MAX,
            r matches Some(k) ==> k@ == top_k,
    {
        if TOP_K_MIN <= top_k && top_k <= TOP_K_MAX {
            Some(TopK(top_k))
        } else {
            None
        }
    }

    /// The `top_k` value.
    pub fn get(&self) -> (r: u16)
        ensures
            r == self@,
            TOP_K_MIN <= r <= TOP_K_MAX,
    {
        proof {
            use_type_invariant(self);
        }
        self.0
    }
}

/// `arrayvec::ArrayVec`, read through [`stop_strings`].
#[verifier::external_type_specification]
#[verifier::external_body]
#[verifier::reject_recursive_types(T)]
pub struct ExArrayVec<T, const CAP: usize>(ArrayVec<T, CAP>);

/// The strings held by a fixed-capacity vector of stop strings, in order.
pub uninterp spec fn stop_strings(v: ArrayVec<String, 5>) -> Seq<Seq<char>>;

/// Relies on `ArrayVec::new`: the new vector is empty.
#[verifier::external_body]
fn empty_stop_strings() -> (r: ArrayVec<String, STOP_CAPACITY>)
    ensures
        stop_strings(r) == Seq::<Seq<char>>::empty(),
{
    ArrayVec::new()
}

/// Relies on `ArrayVec::try_push`: the element is appended when the length is below the
/// capacity, and the vector is left as it was otherwise.
#[verifier::external_body]
fn try_push_stop_string(v: &mut ArrayVec<String, STOP_CAPACITY>, s: String) -> (r: bool)
    ensures
        r == (stop_strings(*old(v)).len() < STOP_CAPACITY),
        r ==> stop_strings(*final(v)) == stop_strings(*old(v)).push(s@),
        !r ==> stop_strings(*final(v)) == stop_strings(*old(v)),
{
    v.try_push(s).is_ok()
}

/// Relies on `ArrayVec::as_slice`: the elements, in order, never more than the capacity.
#[verifier::external_body]
fn stop_strings_slice(v: &ArrayVec<String, STOP_CAPACITY>) -> (r: &[String])
    ensures
        r@.len() <= STOP_CAPACITY,
        r@.len() == stop_strings(*v).len(),
        forall|i: int| 0 <= i < r@.len() ==> #[trigger] r@[i]@ == stop_strings(*v)[i],
{
    v.as_slice()
}

/// Stops the generation when any of the strings is produced; the generated text does not
/// contain it. Holds at most `STOP_CAPACITY` strings.
#[derive(Debug)]
pub struct Stop {
    strings: ArrayVec<String, STOP_CAPACITY>,
}

impl View for Stop {
    type V = Seq<Seq<char>>;

    closed spec fn view(&self) -> Seq<Seq<char>> {
        stop_strings(self.strings)
    }
}

impl Stop {
    /// An empty list of stop strings.
    pub fn new() -> (r: Self)
        ensures
            r@ == Seq::<Seq<char>>::empty(),
    {
        Stop { strings: empty_stop_strings() }
    }

    /// Appends a stop string when fewer than `STOP_CAPACITY` are held; returns whether it was
    /// appended. A full list is left unchanged.
    pub fn try_push(&mut self, s: String) -> (r: bool)
        ensures
            r == (old(self)@.len() < STOP_CAPACITY),
            r ==> final(self)@ == old(self)@.push(s@),
            !r ==> final(self)@ == old(self)@,
    {
        try_push_stop_string(&mut self.strings, s)
    }

    /// A list holding copies of the given strings, in order; `None` when there are more than
    /// `STOP_CAPACITY` of them.
    pub fn try_from_slice(strings: &[String]) -> (r: Option<Self>)
        ensures
            r is Some <==> strings@.len() <= STOP_CAPACITY,
            r matches Some(s) ==> s@ == strings@.map_values(|x: String| x@),
    {
        if strings.len() > STOP_CAPACITY {
            return None;
        }
        let mut stop = Stop::new();
        let mut i: usize = 0;
        while i < strings.len()
            invariant
                i <= strings@.len() <= STOP_CAPACITY,
                stop@ == strings@.subrange(0, i as int).map_values(|x: String| x@),
            decreases strings@.len() - i,
        {
            let pushed = stop.try_push(strings[i].clone());
            assert(pushed);
            proof {
                assert(strings@.subrange(0, i + 1) == strings@.subrange(0, i as int).push(strings@[i as int]));
            }
            i = i + 1;
        }
        assert(strings@.subrange(0, strings@.len() as int) == strings@);
        Some(stop)
    }

    /// The stop strings, in order.
    pub fn as_slice(&self) -> (r: &[String])
        ensures
            r@.map_values(|x: String| x@) == self@,
            r@.len() <= STOP_CAPACITY,
    {
        let r = stop_strings_slice(&self.strings);
        assert(r@.map_values(|x: String| x@) =~= self@);
        r
    }

    /// The number of stop strings.
    pub fn len(&self) -> (r: usize)
        ensures
            r == self@.len(),
            r <= STOP_CAPACITY,
    {
        stop_strings_slice(&self.strings).len()
    }
}

/// A text completion returned by the API.
#[derive(Debug, Clone, Ord, PartialOrd, Eq, PartialEq, Hash)]
pub struct TextCompletion {
    text: String,
    reached_end: bool,
    truncated_prompt: Option<bool>,
    total_tokens: Option<usize>,
}

/// The mathematical value of a [`TextCompletion`]: each field as the API sent it, `None` where
/// an optional field was absent or `null`.
pub struct TextCompletionView {
    pub text: Seq<char>,
    pub reached_end: bool,
    pub truncated_prompt: Option<bool>,
    pub total_tokens: Option<usize>,
}

impl View for TextCompletion {
    type V = TextCompletionView;

    closed spec fn view(&self) -> TextCompletionView {
        TextCompletionView {
            text: self.text@,
            reached_end: self.reached_end,
            truncated_prompt: self.truncated_prompt,
            total_tokens: self.total_tokens,
        }
    }
}

/// An optional boolean field: absent or `null` is `Some(None)`, a boolean `b` is `Some(Some(b))`,
/// and any other value does not fit (`None`).
pub open spec fn optional_bool(v: Option<JsonFieldView>) -> Option<Option<bool>> {
    match v {
        None => Some(None),
        Some(JsonFieldView::Null) => Some(None),
        Some(JsonFieldView::Bool(b)) => Some(Some(b)),
        _ => None,
    }
}

/// An optional count field: absent or `null` is `Some(None)`, an integer `n` that fits in a
/// `usize` is `Some(Some(n))`, and any other value does not fit (`None`).
pub open spec fn optional_count(v: Option<JsonFieldView>) -> Option<Option<usize>> {
    match v {
        None => Some(None),
        Some(JsonFieldView::Null) => Some(None),
        Some(JsonFieldView::UInt(n)) => if n <= usize::MAX {
            Some(Some(n as usize))
        } else {
            None
        },
        _ => None,
    }
}

/// The text completion that the fields of an object describe: a string `text`, a boolean
/// `reached_end`, and optionally a boolean `truncated_prompt` and a count `total_tokens`. Other
/// fields are ignored.
pub open spec fn completion_of(fields: Seq<(Seq<char>, JsonFieldView)>) -> Option<TextCompletionView> {
    match (
        lookup(fields, "text"@),
        lookup(fields, "reached_end"@),
        optional_bool(lookup(fields, "truncated_prompt"@)),
        optional_count(lookup(fields, "total_tokens"@)),
    ) {
        (Some(JsonFieldView::Str(text)), Some(JsonFieldView::Bool(reached_end)), Some(truncated_prompt), Some(total_tokens)) => {
            Some(TextCompletionView { text, reached_end, truncated_prompt, total_tokens })
        },
        _ => None,
    }
}

/// The untagged envelope that the fields of an object describe: a completion where they describe
/// one, else an API error where they describe one, else nothing.
pub open spec fn envelope_of(fields: Seq<(Seq<char>, JsonFieldView)>) -> Option<Result<TextCompletionView, ErrorView>> {
    match completion_of(fields) {
        Some(c) => Some(Ok(c)),
        None => match api_error_of(fields) {
            Some(e) => Some(Err(e)),
            None => None,
        },
    }
}

/// The mathematical value of an API result.
pub open spec fn result_view(r: Result<TextCompletion, Error>) -> Result<TextCompletionView, ErrorView> {
    match r {
        Ok(c) => Ok(c@),
        Err(e) => Err(e@),
    }
}

impl TextCompletion {
    /// Reads a text completion from the fields of a JSON object; `None` when they do not describe
    /// one.
    pub fn from_fields(fields: &Fields) -> (r: Option<TextCompletion>)
        ensures
            r is Some <==> completion_of(fields_view(fields@)) is Some,
            r matches Some(c) ==> completion_of(fields_view(fields@)) == Some(c@),
    {
        let text = match get_field(fields, "text") {
            Some(JsonField::Str(s)) => s.clone(),
            _ => return None,
        };
        let reached_end = match get_field(fields, "reached_end") {
            Some(JsonField::Bool(b)) => *b,
            _ => return None,
        };
        let truncated_prompt = match get_field(fields, "truncated_prompt") {
            None => None,
            Some(JsonField::Null) => None,
            Some(JsonField::Bool(b)) => Some(*b),
            _ => return None,
        };
        let total_tokens = match get_field(fields, "total_tokens") {
            None => None,
            Some(JsonField::Null) => None,
            Some(JsonField::UInt(n)) => if *n <= usize::MAX as u64 {
                Some(*n as usize)
            } else {
                return None;
            },
            _ => return None,
        };
        Some(TextCompletion { text, reached_end, truncated_prompt, total_tokens })
    }

    /// The generated text.
    pub fn text(&self) -> (r: &str)
        ensures
            r@ == self@.text,
    {
        self.text.as_str()
    }

    /// Whether this is the last answer; only useful when the request was streamed.
    pub fn reached_end(&self) -> (r: bool)
        ensures
            r == self@.reached_end,
    {
        self.reached_end
    }

    /// Whether the prompt was cut because it was too large for the engine's context; only its end
    /// was used. `false` when the API did not say.
    pub fn truncated_prompt(&self) -> (r: bool)
        ensures
            r == match self@.truncated_prompt {
                Some(b) => b,
                None => false,
            },
    {
        match self.truncated_prompt {
            Some(b) => b,
            None => false,
        }
    }

    /// The total number of tokens, prompt and generated text; `None` on the completions of a
    /// stream but the last.
    pub fn total_tokens(&self) -> (r: Option<usize>)
        ensures
            r == self@.total_tokens,
    {
        self.total_tokens
    }
}

/// Reads the untagged envelope of a response from the fields of a JSON object: the success shape
/// is tried first, then the error shape. `None` when they match neither.
pub fn decode_envelope(fields: &Fields) -> (r: Option<UntaggedResult<TextCompletion, Error>>)
    ensures
        r is Some <==> envelope_of(fields_view(fields@)) is Some,
        r matches Some(u) ==> envelope_of(fields_view(fields@)) == Some(match u {
            UntaggedResult::Success(c) => Ok(c@),
            UntaggedResult::Failure(e) => Err(e@),
        }),
{
    match TextCompletion::from_fields(fields) {
        Some(c) => Some(UntaggedResult::Success(c)),
        None => match Error::from_fields(fields) {
            Some(e) => Some(UntaggedResult::Failure(e)),
            None => None,
        },
    }
}

/// Why the bytes of a response could not be read as a completion or an API error.
#[derive(Debug)]
pub enum DecodeError {
    /// The bytes are not a JSON object.
    Json(JsonError),
    /// The object matches neither the completion shape nor the error shape.
    NoMatchingShape,
    /// A streamed chunk is shorter than its two-byte delimiter.
    MissingDelimiter,
}

/// The outcome of decoding the bytes of one response: the envelope it holds, or why it holds
/// none.
pub type DecodeResult = Result<crate::error::Result<TextCompletion>, DecodeError>;

/// What decoding `bytes` gives: `None` where they hold no JSON object, `Some(None)` where the
/// object matches neither shape, and the envelope otherwise.
pub open spec fn decoded(bytes: Seq<u8>) -> Option<Option<Result<TextCompletionView, ErrorView>>> {
    match json_object_of(bytes) {
        None => None,
        Some(fields) => Some(envelope_of(fields)),
    }
}

/// Whether `r` is what decoding `bytes` gives.
pub open spec fn decodes_to(bytes: Seq<u8>, r: DecodeResult) -> bool {
    match decoded(bytes) {
        None => r is Err && r->Err_0 is Json,
        Some(None) => r is Err && r->Err_0 is NoMatchingShape,
        Some(Some(v)) => r is Ok && result_view(r->Ok_0) == v,
    }
}

/// What is left of a streamed chunk once its two-byte delimiter is stripped.
pub open spec fn chunk_payload(chunk: Seq<u8>) -> Seq<u8> {
    chunk.subrange(0, chunk.len() - 2)
}

/// Decodes the body of a response, which holds one JSON object.
pub fn decode_body(bytes: &[u8]) -> (r: DecodeResult)
    ensures
        decodes_to(bytes@, r),
{
    let fields = match parse_object(bytes) {
        Ok(fields) => fields,
        Err(e) => return Err(DecodeError::Json(e)),
    };
    match decode_envelope(&fields) {
        Some(untagged) => Ok(untagged.into()),
        None => Err(DecodeError::NoMatchingShape),
    }
}

/// Decodes one chunk of a streamed response: a JSON object followed by a two-byte delimiter,
/// which is stripped without being looked at.
pub fn decode_chunk(chunk: &[u8]) -> (r: DecodeResult)
    ensures
        chunk@.len() < 2 ==> r is Err && r->Err_0 is MissingDelimiter,
        chunk@.len() >= 2 ==> decodes_to(chunk_payload(chunk@), r),
{
    if chunk.len() < 2 {
        return Err(DecodeError::MissingDelimiter);
    }
    let (payload, _delimiter) = chunk.split_at(chunk.len() - 2);
    decode_body(payload)
}

/// The mathematical value of a [`TextCompletionBuilder`]: the prompt and the parameters set so
/// far.
pub struct TextCompletionBuilderView {
    pub prompt: Seq<char>,
    pub max_tokens: Option<MaxTokens>,
    pub temperature: Option<Value>,
    pub top_k: Option<TopK>,
    pub top_p: Option<Value>,
}

/// A builder of a text completion request for one engine. It is consumed by the request it
/// builds.
pub struct TextCompletionBuilder<'ts, 'e> {
    /// The engine that the request is for.
    pub engine: &'e Engine<'ts>,
    /// The text to complete.
    pub prompt: String,
    /// See [`Self::max_tokens`].
    pub max_tokens: Option<MaxTokens>,
    /// See [`Self::temperature_value`].
    pub temperature: Option<Value>,
    /// See [`Self::top_k`].
    pub top_k: Option<TopK>,
    /// See [`Self::top_p_value`].
    pub top_p: Option<Value>,
}

impl<'ts, 'e> View for TextCompletionBuilder<'ts, 'e> {
    type V = TextCompletionBuilderView;

    open spec fn view(&self) -> TextCompletionBuilderView {
        TextCompletionBuilderView {
            prompt: self.prompt@,
            max_tokens: self.max_tokens,
            temperature: self.temperature,
            top_k: self.top_k,
            top_p: self.top_p,
        }
    }
}

impl<'ts, 'e> TextCompletionBuilder<'ts, 'e> {
    /// A builder with the given prompt and no parameter set.
    pub open spec fn initial_view(prompt: Seq<char>) -> TextCompletionBuilderView {
        TextCompletionBuilderView {
            prompt,
            max_tokens: None,
            temperature: None,
            top_k: None,
            top_p: None,
        }
    }

    /// A builder of a completion of `prompt` by `engine`, with no parameter set.
    pub fn new(engine: &'e Engine<'ts>, prompt: String) -> (r: Self)
        ensures
            r.engine == engine,
            r@ == Self::initial_view(prompt@),
    {
        TextCompletionBuilder {
            engine,
            prompt,
            max_tokens: None,
            temperature: None,
            top_k: None,
            top_p: None,
        }
    }

    /// Sets the maximum number of tokens to generate, replacing any earlier value.
    pub fn max_tokens(self, max_tokens: MaxTokens) -> (r: Self)
        ensures
            r.engine == self.engine,
            r@ == (TextCompletionBuilderView { max_tokens: Some(max_tokens), ..self@ }),
    {
        TextCompletionBuilder { max_tokens: Some(max_tokens), ..self }
    }

    /// Sets the sampling temperature, as the JSON value to send, replacing any earlier value. A
    /// higher temperature selects less common tokens.
    pub fn temperature_value(self, temperature: Value) -> (r: Self)
        ensures
            r.engine == self.engine,
            r@ == (TextCompletionBuilderView { temperature: Some(temperature), ..self@ }),
    {
        TextCompletionBuilder { temperature: Some(temperature), ..self }
    }

    /// Sets `top_k`, replacing any earlier value.
    pub fn top_k(self, top_k: TopK) -> (r: Self)
        ensures
            r.engine == self.engine,
            r@ == (TextCompletionBuilderView { top_k: Some(top_k), ..self@ }),
    {
        TextCompletionBuilder { top_k: Some(top_k), ..self }
    }

    /// Sets `top_p`, as the JSON value to send, replacing any earlier value.
    pub fn top_p_value(self, top_p: Value) -> (r: Self)
        ensures
            r.engine == self.engine,
            r@ == (TextCompletionBuilderView { top_p: Some(top_p), ..self@ }),
    {
        TextCompletionBuilder { top_p: Some(top_p), ..self }
    }

    /// The URL of the completion endpoint of the builder's engine.
    pub fn url(&self) -> (r: String)
        ensures
            r@ == endpoint_url(self.engine.definition.spec_id(), "completions"@),
    {
        endpoint(self.engine.definition.id(), "completions")
    }

    /// The request of a completion that is returned whole, with the given stop strings if any.
    pub fn request(self, stop: Option<Stop>) -> (r: TextCompletionRequest)
        ensures
            r.prompt@ == self.prompt@,
            r.max_tokens == self.max_tokens,
            r.temperature == self.temperature,
            r.top_k == self.top_k,
            r.top_p == self.top_p,
            r.stream is None,
            r.stop == stop,
    {
        TextCompletionRequest {
            prompt: self.prompt,
            max_tokens: self.max_tokens,
            temperature: self.temperature,
            top_k: self.top_k,
            top_p: self.top_p,
            stream: None,
            stop,
        }
    }

    /// The request of a streamed completion.
    pub fn stream_request(self) -> (r: TextCompletionRequest)
        ensures
            r.prompt@ == self.prompt@,
            r.max_tokens == self.max_tokens,
            r.temperature == self.temperature,
            r.top_k == self.top_k,
            r.top_p == self.top_p,
            r.stream == Some(true),
            r.stop is None,
    {
        TextCompletionRequest {
            prompt: self.prompt,
            max_tokens: self.max_tokens,
            temperature: self.temperature,
            top_k: self.top_k,
            top_p: self.top_p,
            stream: Some(true),
            stop: None,
        }
    }
}

/// A JSON object of the completion shape decodes to that completion, and one of the error shape
/// (and not of the completion shape) to that API error; no field tags which shape it has.
pub proof fn lemma_untagged_decoding(bytes: Seq<u8>)
    requires
        json_object_of(bytes) is Some,
    ensures
        completion_of(json_object_of(bytes)->0) matches Some(c) ==> decoded(bytes) == Some(
            Some(Ok::<TextCompletionView, ErrorView>(c)),
        ),
        completion_of(json_object_of(bytes)->0) is None ==> (api_error_of(json_object_of(bytes)->0) matches Some(e) ==> decoded(bytes) == Some(
            Some(Err::<TextCompletionView, ErrorView>(e)),
        )),
        completion_of(json_object_of(bytes)->0) is None && api_error_of(json_object_of(bytes)->0) is None
            ==> decoded(bytes) == Some(None::<Result<TextCompletionView, ErrorView>>),
{
}

/// The `truncated_prompt` flag of a decoded completion is the one that the object holds, and is
/// absent where the object holds none (or `null`), which [`TextCompletion::truncated_prompt`]
/// reads as `false`.
pub proof fn lemma_truncated_prompt_default(fields: Seq<(Seq<char>, JsonFieldView)>)
    requires
        completion_of(fields) is Some,
    ensures
        lookup(fields, "truncated_prompt"@) matches Some(JsonFieldView::Bool(b)) ==> completion_of(fields)->0.truncated_prompt == Some(b),
        lookup(fields, "truncated_prompt"@) is None ==> completion_of(fields)->0.truncated_prompt is None,
        lookup(fields, "truncated_prompt"@) == Some(JsonFieldView::Null) ==> completion_of(fields)->0.truncated_prompt is None,
{
}

/// The shapes are told apart by the fields that they need alone: a field under any other key,
/// such as a tag naming the shape, changes nothing in what an object decodes to.
pub proof fn lemma_untagged_ignores_other_fields(
    fields: Seq<(Seq<char>, JsonFieldView)>,
    key: Seq<char>,
    value: JsonFieldView,
)
    requires
        key != "text"@,
        key != "reached_end"@,
        key != "truncated_prompt"@,
        key != "total_tokens"@,
        key != "status"@,
        key != "error"@,
    ensures
        envelope_of(fields.push((key, value))) == envelope_of(fields),
{
    lemma_lookup_push(fields, (key, value), "text"@);
    lemma_lookup_push(fields, (key, value), "reached_end"@);
    lemma_lookup_push(fields, (key, value), "truncated_prompt"@);
    lemma_lookup_push(fields, (key, value), "total_tokens"@);
    lemma_lookup_push(fields, (key, value), "status"@);
    lemma_lookup_push(fields, (key, value), "error"@);
}

} // verus!
