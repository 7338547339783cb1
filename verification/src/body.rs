//! The bodies of requests.
use crate::json::{JsonView, json_contents, json_parse, parse};
use crate::reply::{Reply, ReplyView, err_res, error_reply};
use crate::text::join;
use vstd::prelude::*;

verus! {

/// The bytes of a body, where they could be read.
pub open spec fn opt_bytes(body: Option<&[u8]>) -> Option<Seq<u8>> {
    match body {
        Some(b) => Some(b@),
        None => None,
    }
}

/// The document in the body of a request, or the reply to a body that holds none:
/// one reply for a body that could not be read, one for bytes that are no JSON.
pub open spec fn json_body(
    body: Option<Seq<u8>>,
    unread: Seq<char>,
    invalid: Seq<char>,
) -> Result<JsonView, ReplyView> {
    match body {
        Some(b) => match json_parse(b) {
            Ok(document) => Ok(document),
            Err(_) => Err(error_reply(400, invalid)),
        },
        None => Err(error_reply(400, unread)),
    }
}

/// What a caller is told whose body could not be read.
pub const UNREAD: &'static str = "请求体读取失败，请检查网络后重试";

/// What a caller is told whose body is no JSON, with the reason.
pub open spec fn not_json(reason: Seq<char>) -> Seq<char> {
    "请求体不是合法 JSON："@ + reason
}

/// The reply to a body that is no JSON, with the reason.
pub fn not_json_reply(reason: &str) -> (r: Reply)
    ensures
        r@ == error_reply(400, not_json(reason@)),
{
    err_res(400, join("请求体不是合法 JSON：", reason).as_str())
}

/// What the bytes of a body are parsed to.
pub open spec fn parsed_view(parsed: Result<serde_json::Value, String>) -> Result<
    JsonView,
    Seq<char>,
> {
    match parsed {
        Ok(v) => Ok(json_contents(v)),
        Err(e) => Err(e@),
    }
}

/// The document in the body of a request, or the reply to a body that holds none, which
/// says where it is wrong.
pub open spec fn explained_body(body: Option<Seq<u8>>) -> Result<JsonView, ReplyView> {
    match body {
        Some(b) => match json_parse(b) {
            Ok(document) => Ok(document),
            Err(reason) => Err(error_reply(400, not_json(reason))),
        },
        None => Err(error_reply(400, UNREAD@)),
    }
}

/// Reads the document in the body of a request, and says of a body that holds none
/// where it is wrong.
pub fn read_explained(body: Option<&[u8]>) -> (r: Result<serde_json::Value, Reply>)
    ensures
        match r {
            Ok(v) => explained_body(opt_bytes(body)) == Ok::<JsonView, ReplyView>(
                json_contents(v),
            ),
            Err(e) => explained_body(opt_bytes(body)) == Err::<JsonView, ReplyView>(e@),
        },
{
    match body {
        Some(b) => match parse(b) {
            Ok(v) => Ok(v),
            Err(e) => Err(not_json_reply(e.as_str())),
        },
        None => Err(err_res(400, UNREAD)),
    }
}

/// Reads the document in the body of a request, with the given messages for a body
/// that could not be read and for bytes that are no JSON.
pub fn read_json(body: Option<&[u8]>, unread: &str, invalid: &str) -> (r: Result<
    serde_json::Value,
    Reply,
>)
    ensures
        match r {
            Ok(v) => json_body(opt_bytes(body), unread@, invalid@) == Ok::<JsonView, ReplyView>(
                json_contents(v),
            ),
            Err(e) => json_body(opt_bytes(body), unread@, invalid@) == Err::<JsonView, ReplyView>(
                e@,
            ),
        },
{
    match body {
        Some(b) => match parse(b) {
            Ok(v) => Ok(v),
            Err(_) => Err(err_res(400, invalid)),
        },
        None => Err(err_res(400, unread)),
    }
}

/// The document in the body of a request to one of the tools.
pub open spec fn tool_body(body: Option<Seq<u8>>) -> Result<JsonView, ReplyView> {
    json_body(body, "Bad Request"@, "Bad Request: invalid JSON body"@)
}

/// Reads the document in the body of a request to one of the tools.
pub fn read_json_body(body: Option<&[u8]>) -> (r: Result<serde_json::Value, Reply>)
    ensures
        match r {
            Ok(v) => tool_body(opt_bytes(body)) == Ok::<JsonView, ReplyView>(json_contents(v)),
            Err(e) => tool_body(opt_bytes(body)) == Err::<JsonView, ReplyView>(e@),
        },
{
    read_json(body, "Bad Request", "Bad Request: invalid JSON body")
}

/// A body that is JSON is read as the document that it holds; one that is not, or could not be
/// read, is refused with 400 in the words of the endpoint.
pub proof fn law_bodies_are_read(bytes: Seq<u8>, unread: Seq<char>, invalid: Seq<char>)
    ensures
        json_parse(bytes) matches Ok(document) ==> json_body(Some(bytes), unread, invalid) == Ok::<
            JsonView,
            ReplyView,
        >(document) && explained_body(Some(bytes)) == Ok::<JsonView, ReplyView>(document)
            && tool_body(Some(bytes)) == Ok::<JsonView, ReplyView>(document),
        json_parse(bytes) matches Err(reason) ==> json_body(Some(bytes), unread, invalid) == Err::<
            JsonView,
            ReplyView,
        >(error_reply(400, invalid)) && explained_body(Some(bytes)) == Err::<JsonView, ReplyView>(
            error_reply(400, "请求体不是合法 JSON："@ + reason),
        ) && tool_body(Some(bytes)) == Err::<JsonView, ReplyView>(
            error_reply(400, "Bad Request: invalid JSON body"@),
        ),
        json_body(None, unread, invalid) == Err::<JsonView, ReplyView>(error_reply(400, unread)),
        explained_body(None) == Err::<JsonView, ReplyView>(
            error_reply(400, "请求体读取失败，请检查网络后重试"@),
        ),
        tool_body(None) == Err::<JsonView, ReplyView>(error_reply(400, "Bad Request"@)),
{
}

} // verus!
