//! The Base64 tool.
use crate::body::{opt_bytes, read_json_body, tool_body};
use crate::json::{JsonView, field, json_contents, object, of_text, text_at, text_field, with};
use crate::reply::{Reply, ReplyView, err_res, error_reply, json_res, success};
use vstd::prelude::*;
use vstd::utf8::{
    decode_utf8, decode_utf8_encode_utf8, encode_utf8, encode_utf8_decode_utf8, encode_utf8_valid_utf8, valid_utf8,
};

verus! {

pub const NO_TEXT: &'static str = "缺少 text 字段";

pub const BAD_BASE64: &'static str = "无效的 Base64 字符串";

pub const BAD_UTF8: &'static str = "解码结果不是有效 UTF-8";

pub const BAD_ACTION: &'static str = "action 仅支持 encode / decode";

/// What the `STANDARD` engine of the `base64` crate makes of some bytes.
pub uninterp spec fn base64_encoding(bytes: Seq<u8>) -> Seq<char>;

/// The bytes that the `STANDARD` engine of the `base64` crate reads from a text,
/// given by the bytes of the text, where it accepts it.
pub uninterp spec fn base64_decoding(text: Seq<u8>) -> Option<Seq<u8>>;

/// Calls `encode` of the `STANDARD` engine of the `base64` crate. What it writes,
/// the same engine reads back as the bytes that were given. It has four characters for
/// each three bytes begun, padding included.
#[verifier::external_body]
fn encode(bytes: &[u8]) -> (r: String)
    ensures
        r@ == base64_encoding(bytes@),
        base64_decoding(encode_utf8(r@)) == Some(bytes@),
        r@.len() == (bytes@.len() + 2) / 3 * 4,
{
    base64::Engine::encode(&base64::engine::general_purpose::STANDARD, bytes)
}

/// Calls `decode` of the `STANDARD` engine of the `base64` crate, and leaves out
/// what its error says. The engine takes no other text for some bytes than the one
/// that it writes for them: it insists on padding, and on zeros in unused bits.
#[verifier::external_body]
fn decode(text: &[u8]) -> (r: Option<Vec<u8>>)
    ensures
        match r {
            Some(bytes) => base64_decoding(text@) == Some(bytes@) && text@ == encode_utf8(
                base64_encoding(bytes@),
            ),
            None => base64_decoding(text@) is None,
        },
{
    base64::Engine::decode(&base64::engine::general_purpose::STANDARD, text).ok()
}

/// Calls `String::from_utf8`, which gives the text that some bytes write in UTF-8,
/// and an error exactly where they write none.
#[verifier::external_body]
fn utf8_text(bytes: Vec<u8>) -> (r: Option<String>)
    ensures
        match r {
            Some(s) => valid_utf8(bytes@) && s@ == decode_utf8(bytes@),
            None => !valid_utf8(bytes@),
        },
{
    String::from_utf8(bytes).ok()
}

/// The text in what the engine decoded, or what is wrong with it.
pub open spec fn decoded_text(decoded: Option<Seq<u8>>) -> Result<Seq<char>, Seq<char>> {
    match decoded {
        Some(bytes) => if valid_utf8(bytes) {
            Ok(decode_utf8(bytes))
        } else {
            Err(BAD_UTF8@)
        },
        None => Err(BAD_BASE64@),
    }
}

/// The text that a text encodes, or what is wrong with it.
pub open spec fn decoding_of(text: Seq<char>) -> Result<Seq<char>, Seq<char>> {
    decoded_text(base64_decoding(encode_utf8(text)))
}

/// What an action makes of a text, or what is wrong with either.
pub open spec fn converted(action: Seq<char>, text: Seq<char>) -> Result<Seq<char>, Seq<char>> {
    if action == "encode"@ {
        Ok(base64_encoding(encode_utf8(text)))
    } else if action == "decode"@ {
        decoding_of(text)
    } else {
        Err(BAD_ACTION@)
    }
}

/// One text is padded Base64 of another: it has four characters for each three bytes begun
/// of the other's UTF-8, and decodes to it.
pub open spec fn encodes(encoded: Seq<char>, text: Seq<char>) -> bool {
    &&& encoded.len() == (encode_utf8(text).len() + 2) / 3 * 4
    &&& decoding_of(encoded) == Ok::<Seq<char>, Seq<char>>(text)
}

/// Encodes a text. Decoding what comes out gives the text back.
pub fn encode_text(text: &str) -> (r: String)
    ensures
        r@ == base64_encoding(encode_utf8(text@)),
        encodes(r@, text@),
{
    proof {
        encode_utf8_valid_utf8(text@);
        encode_utf8_decode_utf8(text@);
    }
    encode(text.as_bytes())
}

/// Reads the text in what the engine decoded.
pub fn read_decoded(decoded: Option<Vec<u8>>) -> (r: Result<String, &'static str>)
    ensures
        match r {
            Ok(s) => decoded is Some && decoded_text(Some(decoded->0@)) == Ok::<
                Seq<char>,
                Seq<char>,
            >(s@),
            Err(e) => decoded_text(
                match decoded {
                    Some(bytes) => Some(bytes@),
                    None => None,
                },
            ) == Err::<Seq<char>, Seq<char>>(e@),
        },
{
    match decoded {
        Some(bytes) => match utf8_text(bytes) {
            Some(s) => Ok(s),
            None => Err(BAD_UTF8),
        },
        None => Err(BAD_BASE64),
    }
}

/// Decodes a text. Encoding what comes out gives the text back.
pub fn decode_text(text: &str) -> (r: Result<String, &'static str>)
    ensures
        match r {
            Ok(s) => decoding_of(text@) == Ok::<Seq<char>, Seq<char>>(s@) && base64_encoding(
                encode_utf8(s@),
            ) == text@,
            Err(e) => decoding_of(text@) == Err::<Seq<char>, Seq<char>>(e@),
        },
{
    let decoded = decode(text.as_bytes());
    proof {
        if decoded is Some {
            let bytes = decoded->0@;
            encode_utf8_decode_utf8(text@);
            encode_utf8_decode_utf8(base64_encoding(bytes));
            if valid_utf8(bytes) {
                decode_utf8_encode_utf8(bytes);
            }
        }
    }
    read_decoded(decoded)
}

/// Does what an action says to a text.
pub fn convert(action: &str, text: &str) -> (r: Result<String, &'static str>)
    ensures
        match r {
            Ok(s) => converted(action@, text@) == Ok::<Seq<char>, Seq<char>>(s@),
            Err(e) => converted(action@, text@) == Err::<Seq<char>, Seq<char>>(e@),
        },
        action@ == "encode"@ ==> (r matches Ok(s) && encodes(s@, text@)),
{
    if *action == *"encode" {
        Ok(encode_text(text))
    } else if *action == *"decode" {
        proof {
            reveal_strlit("encode");
            reveal_strlit("decode");
            assert("encode"@[0] != "decode"@[0]);
        }
        decode_text(text)
    } else {
        Err(BAD_ACTION)
    }
}

/// What a document asks to be done to a text. Without a member `action` it is encoded.
pub open spec fn asked_action(document: JsonView) -> Seq<char> {
    match text_at(document, "action"@) {
        Some(a) => a,
        None => "encode"@,
    }
}

/// The reply that gives the outcome.
pub open spec fn result_reply(out: Seq<char>) -> ReplyView {
    success(JsonView::Object(map!["result"@ => JsonView::Str(out)]))
}

/// The reply to a document that asks for a text to be encoded or decoded.
pub open spec fn base64_reply(document: JsonView) -> ReplyView {
    match text_at(document, "text"@) {
        Some(text) => {
            match converted(asked_action(document), text) {
                Ok(out) => result_reply(out),
                Err(message) => error_reply(400, message),
            }
        },
        None => error_reply(400, NO_TEXT@),
    }
}

/// The reply to a document that asks for a text to be encoded gives padded Base64 of it.
pub open spec fn keeps_text(document: JsonView, reply: ReplyView) -> bool {
    asked_action(document) == "encode"@ && text_at(document, "text"@) is Some ==> exists|
        e: Seq<char>,
    |
        reply == result_reply(e) && #[trigger] encodes(e, text_at(document, "text"@)->0)
}

/// A reply to a document that asks for a text to be decoded, where that text is padded
/// Base64 of another, gives the other.
pub proof fn law_decoding_gives_the_text_back(document: JsonView, text: Seq<char>)
    requires
        text_at(document, "action"@) == Some("decode"@),
        text_at(document, "text"@) is Some,
        encodes(text_at(document, "text"@)->0, text),
    ensures
        base64_reply(document) == result_reply(text),
        base64_reply(document).status == 200,
{
    reveal_strlit("encode");
    reveal_strlit("decode");
    assert("encode"@[0] != "decode"@[0]);
}

/// Answers a document that asks for a text to be encoded or decoded.
pub fn answer_base64(document: &serde_json::Value) -> (r: Reply)
    ensures
        r@ == base64_reply(json_contents(*document)),
        keeps_text(json_contents(*document), r@),
{
    let action = match text_field(document, "action") {
        Some(a) => a,
        None => "encode",
    };
    match text_field(document, "text") {
        Some(text) => match convert(action, text) {
            Ok(out) => json_res(with(object(), "result", of_text(out.as_str()))),
            Err(message) => err_res(400, message),
        },
        None => err_res(400, NO_TEXT),
    }
}

/// Answers a request to the Base64 tool.
pub fn handle_tool_base64(body: Option<&[u8]>) -> (r: Reply)
    ensures
        r@ == (match tool_body(opt_bytes(body)) {
            Ok(document) => base64_reply(document),
            Err(reply) => reply,
        }),
        tool_body(opt_bytes(body)) matches Ok(document) ==> keeps_text(document, r@),
{
    match read_json_body(body) {
        Ok(document) => answer_base64(&document),
        Err(reply) => reply,
    }
}

/// A text is encoded by default and on demand, decoded on demand, and nothing else is done to
/// it.
pub proof fn law_actions(document: JsonView, text: Seq<char>, action: Seq<char>)
    requires
        field(document, "text"@) == Some(JsonView::Str(text)),
    ensures
        !(field(document, "action"@) matches Some(JsonView::Str(_))) || field(document, "action"@)
            == Some(JsonView::Str("encode"@)) ==> base64_reply(document) == result_reply(
            base64_encoding(encode_utf8(text)),
        ),
        field(document, "action"@) == Some(JsonView::Str("decode"@)) ==> base64_reply(document) == (
        match base64_decoding(encode_utf8(text)) {
            Some(bytes) => if valid_utf8(bytes) {
                result_reply(decode_utf8(bytes))
            } else {
                error_reply(400, "解码结果不是有效 UTF-8"@)
            },
            None => error_reply(400, "无效的 Base64 字符串"@),
        }),
        field(document, "action"@) == Some(JsonView::Str(action)) && action != "encode"@ && action
            != "decode"@ ==> base64_reply(document) == error_reply(
            400,
            "action 仅支持 encode / decode"@,
        ),
{
    reveal_strlit("encode");
    reveal_strlit("decode");
    assert("encode"@[0] != "decode"@[0]);
}

/// A document without a text is refused, and an outcome is given under one name.
pub proof fn law_outcomes_are_given(document: JsonView, out: Seq<char>)
    ensures
        !(field(document, "text"@) matches Some(JsonView::Str(_))) ==> base64_reply(document)
            == error_reply(400, "缺少 text 字段"@),
        result_reply(out).status == 200,
        field(result_reply(out).json, "result"@) == Some(JsonView::Str(out)),
{
}

} // verus!
