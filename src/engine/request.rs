//! The payload of a text completion request: only the parameters that are set are sent.

use crate::engine::text_completion::{MaxTokens, Stop, TopK};
use serde_json::Value;
use vstd::prelude::*;

verus! {

/// `serde_json::Value`, carried through unread.
#[verifier::external_type_specification]
#[verifier::external_body]
pub struct ExValue(Value);

/// The parameters of a text completion request. Each optional parameter that is `None` is left
/// out of the payload.
pub struct TextCompletionRequest {
    /// The text to complete.
    pub prompt: String,
    /// See [`MaxTokens`].
    pub max_tokens: Option<MaxTokens>,
    /// The sampling temperature, as the JSON value to send.
    pub temperature: Option<Value>,
    /// See [`TopK`].
    pub top_k: Option<TopK>,
    /// The `top_p` parameter, as the JSON value to send.
    pub top_p: Option<Value>,
    /// Whether the completion is streamed.
    pub stream: Option<bool>,
    /// See [`Stop`].
    pub stop: Option<Stop>,
}

/// The value of one field of a request payload.
pub enum PayloadValue {
    /// A string.
    Text(String),
    /// A non-negative integer.
    Count(usize),
    /// A JSON value given as such.
    Json(Value),
    /// A boolean.
    Flag(bool),
    /// A list of strings.
    Strings(Stop),
}

/// The mathematical value of a [`PayloadValue`].
pub enum PayloadValueView {
    Text(Seq<char>),
    Count(usize),
    Json(Value),
    Flag(bool),
    Strings(Seq<Seq<char>>),
}

impl View for PayloadValue {
    type V = PayloadValueView;

    open spec fn view(&self) -> PayloadValueView {
        match self {
            PayloadValue::Text(s) => PayloadValueView::Text(s@),
            PayloadValue::Count(n) => PayloadValueView::Count(*n),
            PayloadValue::Json(v) => PayloadValueView::Json(*v),
            PayloadValue::Flag(b) => PayloadValueView::Flag(*b),
            PayloadValue::Strings(s) => PayloadValueView::Strings(s@),
        }
    }
}

/// The fields of a payload: each a key and a value.
pub type Payload = Vec<(&'static str, PayloadValue)>;

/// The mathematical value of a [`Payload`].
pub open spec fn payload_view(p: Seq<(&'static str, PayloadValue)>) -> Seq<(Seq<char>, PayloadValueView)> {
    p.map_values(|e: (&'static str, PayloadValue)| (e.0@, e.1@))
}

/// The payload entry of the maximum number of tokens, if set.
pub open spec fn max_tokens_entry(o: Option<MaxTokens>) -> Seq<(Seq<char>, PayloadValueView)> {
    match o {
        Some(m) => seq![("max_tokens"@, PayloadValueView::Count(m@))],
        None => Seq::empty(),
    }
}

/// The payload entry of the temperature, if set.
pub open spec fn temperature_entry(o: Option<Value>) -> Seq<(Seq<char>, PayloadValueView)> {
    match o {
        Some(v) => seq![("temperature"@, PayloadValueView::Json(v))],
        None => Seq::empty(),
    }
}

/// The payload entry of `top_k`, if set.
pub open spec fn top_k_entry(o: Option<TopK>) -> Seq<(Seq<char>, PayloadValueView)> {
    match o {
        Some(k) => seq![("top_k"@, PayloadValueView::Count(k@ as usize))],
        None => Seq::empty(),
    }
}

/// The payload entry of `top_p`, if set.
pub open spec fn top_p_entry(o: Option<Value>) -> Seq<(Seq<char>, PayloadValueView)> {
    match o {
        Some(v) => seq![("top_p"@, PayloadValueView::Json(v))],
        None => Seq::empty(),
    }
}

/// The payload entry of the streaming flag, if set.
pub open spec fn stream_entry(o: Option<bool>) -> Seq<(Seq<char>, PayloadValueView)> {
    match o {
        Some(b) => seq![("stream"@, PayloadValueView::Flag(b))],
        None => Seq::empty(),
    }
}

/// The payload entry of the stop strings, if set.
pub open spec fn stop_entry(o: Option<Stop>) -> Seq<(Seq<char>, PayloadValueView)> {
    match o {
        Some(s) => seq![("stop"@, PayloadValueView::Strings(s@))],
        None => Seq::empty(),
    }
}

/// The optional parameters of a request.
pub enum Param {
    MaxTokens,
    Temperature,
    TopK,
    TopP,
    Stream,
    Stop,
}

/// The payload key of an optional parameter.
pub open spec fn param_key(p: Param) -> Seq<char> {
    match p {
        Param::MaxTokens => "max_tokens"@,
        Param::Temperature => "temperature"@,
        Param::TopK => "top_k"@,
        Param::TopP => "top_p"@,
        Param::Stream => "stream"@,
        Param::Stop => "stop"@,
    }
}

impl TextCompletionRequest {
    /// Whether the optional parameter `p` is set.
    pub open spec fn is_set(&self, p: Param) -> bool {
        match p {
            Param::MaxTokens => self.max_tokens is Some,
            Param::Temperature => self.temperature is Some,
            Param::TopK => self.top_k is Some,
            Param::TopP => self.top_p is Some,
            Param::Stream => self.stream is Some,
            Param::Stop => self.stop is Some,
        }
    }

    /// The payload of this request: the prompt, then each optional parameter that is set, in
    /// the order of the fields.
    pub open spec fn spec_payload(&self) -> Seq<(Seq<char>, PayloadValueView)> {
        seq![("prompt"@, PayloadValueView::Text(self.prompt@))]
            + max_tokens_entry(self.max_tokens)
            + temperature_entry(self.temperature)
            + top_k_entry(self.top_k)
            + top_p_entry(self.top_p)
            + stream_entry(self.stream)
            + stop_entry(self.stop)
    }

    /// The fields of the JSON payload of this request.
    pub fn into_payload(self) -> (r: Payload)
        ensures
            payload_view(r@) == self.spec_payload(),
    {
        let ghost request = self;
        let mut r: Payload = Vec::new();
        push_field(&mut r, "prompt", PayloadValue::Text(self.prompt));
        let ghost expected = seq![("prompt"@, PayloadValueView::Text(request.prompt@))];
        assert(payload_view(r@) =~= expected);
        if let Some(m) = self.max_tokens {
            push_field(&mut r, "max_tokens", PayloadValue::Count(m.inner()));
        }
        let ghost expected = expected + max_tokens_entry(request.max_tokens);
        assert(payload_view(r@) =~= expected);
        if let Some(v) = self.temperature {
            push_field(&mut r, "temperature", PayloadValue::Json(v));
        }
        let ghost expected = expected + temperature_entry(request.temperature);
        assert(payload_view(r@) =~= expected);
        if let Some(k) = self.top_k {
            push_field(&mut r, "top_k", PayloadValue::Count(k.get() as usize));
        }
        let ghost expected = expected + top_k_entry(request.top_k);
        assert(payload_view(r@) =~= expected);
        if let Some(v) = self.top_p {
            push_field(&mut r, "top_p", PayloadValue::Json(v));
        }
        let ghost expected = expected + top_p_entry(request.top_p);
        assert(payload_view(r@) =~= expected);
        if let Some(b) = self.stream {
            push_field(&mut r, "stream", PayloadValue::Flag(b));
        }
        let ghost expected = expected + stream_entry(request.stream);
        assert(payload_view(r@) =~= expected);
        if let Some(s) = self.stop {
            push_field(&mut r, "stop", PayloadValue::Strings(s));
        }
        let ghost expected = expected + stop_entry(request.stop);
        assert(payload_view(r@) =~= expected);
        r
    }
}

/// Appends one field to a payload.
fn push_field(payload: &mut Payload, key: &'static str, value: PayloadValue)
    ensures
        payload_view(final(payload)@) == payload_view(old(payload)@) + seq![(key@, value@)],
{
    let ghost before = payload@;
    payload.push((key, value));
    assert(payload_view(payload@) =~= payload_view(before) + seq![(key@, value@)]);
}

/// The keys of a payload.
pub open spec fn payload_keys(p: Seq<(Seq<char>, PayloadValueView)>) -> Set<Seq<char>> {
    Set::new(|k: Seq<char>| exists|i: int| 0 <= i < p.len() && #[trigger] p[i].0 == k)
}

proof fn lemma_keys_of_concat(a: Seq<(Seq<char>, PayloadValueView)>, b: Seq<(Seq<char>, PayloadValueView)>)
    ensures
        payload_keys(a + b) == payload_keys(a).union(payload_keys(b)),
{
    let ab = a + b;
    assert forall|k: Seq<char>| payload_keys(ab).contains(k) implies payload_keys(a).union(payload_keys(b)).contains(k) by {
        let i = choose|i: int| 0 <= i < ab.len() && #[trigger] ab[i].0 == k;
        if i < a.len() {
            assert(a[i].0 == k);
        } else {
            assert(b[i - a.len()].0 == k);
        }
    }
    assert forall|k: Seq<char>| payload_keys(a).union(payload_keys(b)).contains(k) implies payload_keys(ab).contains(k) by {
        if payload_keys(a).contains(k) {
            let i = choose|i: int| 0 <= i < a.len() && #[trigger] a[i].0 == k;
            assert(ab[i].0 == k);
        } else {
            let i = choose|i: int| 0 <= i < b.len() && #[trigger] b[i].0 == k;
            assert(ab[i + a.len()].0 == k);
        }
    }
    assert(payload_keys(a + b) =~= payload_keys(a).union(payload_keys(b)));
}

proof fn lemma_keys_of_entry(key: Seq<char>, v: PayloadValueView, set: bool)
    ensures
        payload_keys(if set { seq![(key, v)] } else { Seq::empty() }) == if set {
            Set::empty().insert(key)
        } else {
            Set::empty()
        },
{
    let e: Seq<(Seq<char>, PayloadValueView)> = if set { seq![(key, v)] } else { Seq::empty() };
    if set {
        assert(e[0].0 == key);
    }
    assert(payload_keys(e) =~= if set { Set::empty().insert(key) } else { Set::empty() });
}

/// The keys that the set optional parameters of a request add to its payload.
pub open spec fn set_param_keys(r: TextCompletionRequest) -> Set<Seq<char>> {
    Set::new(|k: Seq<char>| exists|p: Param| r.is_set(p) && #[trigger] param_key(p) == k)
}

/// The payload of a request holds the prompt, and besides it exactly the keys of the optional
/// parameters that are set: an unset parameter is left out, never sent as `null`.
pub proof fn lemma_payload_keys(r: TextCompletionRequest)
    ensures
        payload_keys(r.spec_payload()) == set_param_keys(r).insert("prompt"@),
{
    let prompt = seq![("prompt"@, PayloadValueView::Text(r.prompt@))];
    let s1 = prompt + max_tokens_entry(r.max_tokens);
    let s2 = s1 + temperature_entry(r.temperature);
    let s3 = s2 + top_k_entry(r.top_k);
    let s4 = s3 + top_p_entry(r.top_p);
    let s5 = s4 + stream_entry(r.stream);
    let s6 = s5 + stop_entry(r.stop);
    assert(s6 == r.spec_payload());
    lemma_keys_of_concat(prompt, max_tokens_entry(r.max_tokens));
    lemma_keys_of_concat(s1, temperature_entry(r.temperature));
    lemma_keys_of_concat(s2, top_k_entry(r.top_k));
    lemma_keys_of_concat(s3, top_p_entry(r.top_p));
    lemma_keys_of_concat(s4, stream_entry(r.stream));
    lemma_keys_of_concat(s5, stop_entry(r.stop));
    lemma_keys_of_entry("prompt"@, PayloadValueView::Text(r.prompt@), true);
    assert(prompt == seq![("prompt"@, PayloadValueView::Text(r.prompt@))]);
    let k_max = if r.max_tokens is Some { Set::empty().insert("max_tokens"@) } else { Set::<Seq<char>>::empty() };
    let k_temp = if r.temperature is Some { Set::empty().insert("temperature"@) } else { Set::<Seq<char>>::empty() };
    let k_top_k = if r.top_k is Some { Set::empty().insert("top_k"@) } else { Set::<Seq<char>>::empty() };
    let k_top_p = if r.top_p is Some { Set::empty().insert("top_p"@) } else { Set::<Seq<char>>::empty() };
    let k_stream = if r.stream is Some { Set::empty().insert("stream"@) } else { Set::<Seq<char>>::empty() };
    let k_stop = if r.stop is Some { Set::empty().insert("stop"@) } else { Set::<Seq<char>>::empty() };
    assert(payload_keys(max_tokens_entry(r.max_tokens)) == k_max) by {
        match r.max_tokens {
            Some(m) => lemma_keys_of_entry("max_tokens"@, PayloadValueView::Count(m@), true),
            None => lemma_keys_of_entry("max_tokens"@, PayloadValueView::Flag(true), false),
        }
    }
    assert(payload_keys(temperature_entry(r.temperature)) == k_temp) by {
        match r.temperature {
            Some(v) => lemma_keys_of_entry("temperature"@, PayloadValueView::Json(v), true),
            None => lemma_keys_of_entry("temperature"@, PayloadValueView::Flag(true), false),
        }
    }
    assert(payload_keys(top_k_entry(r.top_k)) == k_top_k) by {
        match r.top_k {
            Some(k) => lemma_keys_of_entry("top_k"@, PayloadValueView::Count(k@ as usize), true),
            None => lemma_keys_of_entry("top_k"@, PayloadValueView::Flag(true), false),
        }
    }
    assert(payload_keys(top_p_entry(r.top_p)) == k_top_p) by {
        match r.top_p {
            Some(v) => lemma_keys_of_entry("top_p"@, PayloadValueView::Json(v), true),
            None => lemma_keys_of_entry("top_p"@, PayloadValueView::Flag(true), false),
        }
    }
    assert(payload_keys(stream_entry(r.stream)) == k_stream) by {
        match r.stream {
            Some(b) => lemma_keys_of_entry("stream"@, PayloadValueView::Flag(b), true),
            None => lemma_keys_of_entry("stream"@, PayloadValueView::Flag(true), false),
        }
    }
    assert(payload_keys(stop_entry(r.stop)) == k_stop) by {
        match r.stop {
            Some(st) => lemma_keys_of_entry("stop"@, PayloadValueView::Strings(st@), true),
            None => lemma_keys_of_entry("stop"@, PayloadValueView::Flag(true), false),
        }
    }
    let params = set_param_keys(r);
    assert(params =~= k_max.union(k_temp).union(k_top_k).union(k_top_p).union(k_stream).union(k_stop)) by {
        assert(param_key(Param::MaxTokens) == "max_tokens"@);
        assert(param_key(Param::Temperature) == "temperature"@);
        assert(param_key(Param::TopK) == "top_k"@);
        assert(param_key(Param::TopP) == "top_p"@);
        assert(param_key(Param::Stream) == "stream"@);
        assert(param_key(Param::Stop) == "stop"@);
    }
    assert(payload_keys(r.spec_payload()) =~= set_param_keys(r).insert("prompt"@));
}

proof fn lemma_param_keys_distinct()
    ensures
        forall|p: Param, q: Param| p != q ==> param_key(p) != param_key(q),
        forall|p: Param| param_key(p) != "prompt"@,
{
    reveal_strlit("prompt");
    reveal_strlit("max_tokens");
    reveal_strlit("temperature");
    reveal_strlit("top_k");
    reveal_strlit("top_p");
    reveal_strlit("stream");
    reveal_strlit("stop");
    assert("top_k"@[4] != "top_p"@[4]);
    assert("prompt"@[0] != "stream"@[0]);
    assert forall|p: Param, q: Param| p != q implies param_key(p) != param_key(q) by {
        assert(param_key(p).len() != param_key(q).len() || param_key(p)[4] != param_key(q)[4]);
    }
}

/// A request whose optional parameters are all unset has a payload that holds the prompt alone.
pub proof fn lemma_unset_request_payload(r: TextCompletionRequest)
    requires
        forall|p: Param| !r.is_set(p),
    ensures
        payload_keys(r.spec_payload()) == Set::empty().insert("prompt"@),
{
    lemma_payload_keys(r);
    assert(set_param_keys(r) =~= Set::empty());
    assert(set_param_keys(r).insert("prompt"@) =~= Set::empty().insert("prompt"@));
}

/// Setting one optional parameter of a request, the others staying as they are, adds exactly
/// that parameter's key to the payload, and the key was not there before.
pub proof fn lemma_setting_param_adds_its_key(r1: TextCompletionRequest, r2: TextCompletionRequest, p: Param)
    requires
        !r1.is_set(p),
        r2.is_set(p),
        forall|q: Param| q != p ==> r1.is_set(q) == r2.is_set(q),
    ensures
        !payload_keys(r1.spec_payload()).contains(param_key(p)),
        payload_keys(r2.spec_payload()) == payload_keys(r1.spec_payload()).insert(param_key(p)),
{
    lemma_payload_keys(r1);
    lemma_payload_keys(r2);
    lemma_param_keys_distinct();
    assert(!set_param_keys(r1).contains(param_key(p)));
    assert(set_param_keys(r2) =~= set_param_keys(r1).insert(param_key(p))) by {
        assert(set_param_keys(r2).contains(param_key(p)));
    }
    assert(payload_keys(r2.spec_payload()) =~= payload_keys(r1.spec_payload()).insert(param_key(p)));
}

} // verus!
