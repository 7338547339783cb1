//! Commands to the gateway's own stateful services: the pool of keys, the budget of
//! Workers AI and the limiter of the private upstream.
use crate::json::{
    JsonView, field, json_bytes, json_contents, json_text, object, of_text, to_bytes, with,
};
use crate::reply::header_texts;
use crate::upstream::{Method, RequestView, UpstreamRequest};
use vstd::prelude::*;
use vstd::utf8::encode_utf8;

verus! {

/// The document that gives a command without arguments.
pub open spec fn command_json(name: Seq<char>) -> JsonView {
    JsonView::Object(map!["cmd"@ => JsonView::Str(name)])
}

/// Writes a command without arguments.
pub fn command(name: &str) -> (r: serde_json::Value)
    ensures
        json_contents(r) == command_json(name@),
{
    with(object(), "cmd", of_text(name))
}

/// The request that brings a command to a service.
pub open spec fn command_request(document: JsonView) -> RequestView {
    RequestView {
        url: "http://internal/"@,
        method: Method::Post,
        headers: Seq::empty(),
        body: Some(json_bytes(document)),
    }
}

/// Builds the request that brings a command to a service.
pub fn stub_json(document: &serde_json::Value) -> (r: UpstreamRequest)
    ensures
        r@ == command_request(json_contents(*document)),
{
    let headers: Vec<(String, String)> = Vec::new();
    assert(header_texts(headers@) =~= Seq::empty());
    UpstreamRequest {
        url: "http://internal/".to_string(),
        method: Method::Post,
        headers,
        body: Some(to_bytes(document)),
    }
}

/// A command says its name, and is brought to a service by `POST` as JSON.
pub proof fn law_commands_say_their_names(name: Seq<char>, document: JsonView)
    ensures
        field(command_json(name), "cmd"@) == Some(JsonView::Str(name)),
        command_request(document).url == "http://internal/"@,
        command_request(document).method == Method::Post,
        command_request(document).body == Some(encode_utf8(json_text(document))),
{
}

} // verus!
