//! The client handle shared by the engines made from it.

use crate::engine::definition::EngineDefinition;
use crate::engine::Engine;
use reqwest::Client;
use reqwest::Error as TransportError;
use vstd::prelude::*;

verus! {

/// `reqwest::Client`, carried through unread.
#[verifier::external_type_specification]
#[verifier::external_body]
pub struct ExClient(Client);

/// `reqwest::Error`, carried through unread.
#[verifier::external_type_specification]
#[verifier::external_body]
pub struct ExTransportError(TransportError);

/// Relies on `reqwest::ClientBuilder::build` from `Client::builder()`: an HTTP client with the
/// default settings, or the error that kept it from being built.
#[verifier::external_body]
fn default_client() -> (r: Result<Client, TransportError>) {
    Client::builder().build()
}

/// The entry point of the API: an HTTP client and the key that authenticates its requests.
pub struct TextSynth {
    /// The client that makes the HTTP requests.
    pub client: Client,
    /// The API key sent as a bearer token.
    pub api_key: String,
}

impl TextSynth {
    /// A handle over the given client and API key.
    pub fn new_with_client(client: Client, api_key: String) -> (r: TextSynth)
        ensures
            r.client == client,
            r.api_key == api_key,
    {
        TextSynth { client, api_key }
    }

    /// A handle over a client with the default settings; the transport's error when that client
    /// cannot be built.
    pub fn try_new(api_key: String) -> (r: Result<TextSynth, TransportError>)
        ensures
            r matches Ok(t) ==> t.api_key == api_key,
    {
        match default_client() {
            Ok(client) => Ok(TextSynth::new_with_client(client, api_key)),
            Err(e) => Err(e),
        }
    }

    /// An engine of the given definition that makes its requests through this handle.
    pub fn engine(&self, definition: EngineDefinition) -> (r: Engine<'_>)
        ensures
            r.text_synth == self,
            r.definition == definition,
    {
        Engine::new(self, definition)
    }
}

} // verus!
