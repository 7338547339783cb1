//! The timestamp tool.
use crate::body::{opt_bytes, read_json_body, tool_body};
use crate::json::{
    JsonView, field, json_contents, object, of_signed, of_text, signed_at, signed_field, with,
};
use crate::reply::{Reply, ReplyView, err_res, error_reply, json_res, success};
use vstd::prelude::*;

verus! {

/// What a caller who gives no time is told.
pub const NO_TIMESTAMP: &'static str = "缺少有效的 timestamp 字段（秒级）";

/// A time in seconds whose milliseconds can be counted in 64 bits.
pub open spec fn has_millis(seconds: i64) -> bool {
    i64::MIN <= seconds * 1000 <= i64::MAX
}

/// The document that tells the time.
pub open spec fn now_json(now: i64, iso_utc: Seq<char>) -> JsonView {
    JsonView::Object(
        map![
            "timestamp"@ => JsonView::Int(now as int),
            "timestamp_ms"@ => JsonView::Int(now * 1000),
            "iso_utc"@ => JsonView::Str(iso_utc),
        ],
    )
}

/// Answers a request for the time, given the time in seconds and its text.
pub fn handle_tool_timestamp_get(now: i64, iso_utc: &str) -> (r: Reply)
    requires
        has_millis(now),
    ensures
        r@ == success(now_json(now, iso_utc@)),
{
    json_res(
        with(
            with(with(object(), "timestamp", of_signed(now)), "timestamp_ms", of_signed(now * 1000)),
            "iso_utc",
            of_text(iso_utc),
        ),
    )
}

/// The time that a document asks about, or the reply to one that gives no time
/// after the start of 1970.
pub open spec fn asked_time(document: JsonView) -> Result<i64, ReplyView> {
    match signed_at(document, "timestamp"@) {
        Some(t) => if t > 0 {
            Ok(t)
        } else {
            Err(error_reply(400, NO_TIMESTAMP@))
        },
        None => Err(error_reply(400, NO_TIMESTAMP@)),
    }
}

/// Reads which time a document asks about.
pub fn ask_time(document: &serde_json::Value) -> (r: Result<i64, Reply>)
    ensures
        match r {
            Ok(t) => t > 0 && asked_time(json_contents(*document)) == Ok::<i64, ReplyView>(t),
            Err(e) => asked_time(json_contents(*document)) == Err::<i64, ReplyView>(e@),
        },
{
    match signed_field(document, "timestamp") {
        Some(t) => if t > 0 {
            Ok(t)
        } else {
            Err(err_res(400, NO_TIMESTAMP))
        },
        None => Err(err_res(400, NO_TIMESTAMP)),
    }
}

/// Reads which time a request asks about.
pub fn handle_tool_timestamp_post(body: Option<&[u8]>) -> (r: Result<i64, Reply>)
    ensures
        match r {
            Ok(t) => t > 0 && (tool_body(opt_bytes(body)) matches Ok(document)
                && asked_time(document) == Ok::<i64, ReplyView>(t)),
            Err(e) => match tool_body(opt_bytes(body)) {
                Ok(document) => asked_time(document) == Err::<i64, ReplyView>(e@),
                Err(reply) => reply == e@,
            },
        },
{
    match read_json_body(body) {
        Ok(document) => ask_time(&document),
        Err(reply) => Err(reply),
    }
}

/// The document that describes a time.
pub open spec fn time_json(seconds: i64, iso_utc: Seq<char>, utc: Seq<char>) -> JsonView {
    JsonView::Object(
        map![
            "timestamp"@ => JsonView::Int(seconds as int),
            "timestamp_ms"@ => JsonView::Int(seconds * 1000),
            "iso_utc"@ => JsonView::Str(iso_utc),
            "utc"@ => JsonView::Str(utc),
        ],
    )
}

/// Describes a time, given its texts.
pub fn timestamp_reply(seconds: i64, iso_utc: &str, utc: &str) -> (r: Reply)
    requires
        has_millis(seconds),
    ensures
        r@ == success(time_json(seconds, iso_utc@, utc@)),
{
    json_res(
        with(
            with(
                with(
                    with(object(), "timestamp", of_signed(seconds)),
                    "timestamp_ms",
                    of_signed(seconds * 1000),
                ),
                "iso_utc",
                of_text(iso_utc),
            ),
            "utc",
            of_text(utc),
        ),
    )
}

/// The members of a time are told apart by their names.
proof fn lemma_time_keys()
    ensures
        "utc"@.len() == 3,
        "iso_utc"@.len() == 7,
        "timestamp"@.len() == 9,
        "timestamp_ms"@.len() == 12,
{
    reveal_strlit("timestamp");
    reveal_strlit("timestamp_ms");
    reveal_strlit("iso_utc");
    reveal_strlit("utc");
}

/// A time is told in seconds, in a thousand times as many milliseconds, and in its texts.
pub proof fn law_times_are_told(seconds: i64, iso_utc: Seq<char>, utc: Seq<char>)
    ensures
        field(time_json(seconds, iso_utc, utc), "timestamp"@) == Some(
            JsonView::Int(seconds as int),
        ),
        field(time_json(seconds, iso_utc, utc), "timestamp_ms"@) == Some(
            JsonView::Int(1000 * seconds),
        ),
        field(time_json(seconds, iso_utc, utc), "iso_utc"@) == Some(JsonView::Str(iso_utc)),
        field(time_json(seconds, iso_utc, utc), "utc"@) == Some(JsonView::Str(utc)),
        field(now_json(seconds, iso_utc), "timestamp"@) == Some(JsonView::Int(seconds as int)),
        field(now_json(seconds, iso_utc), "timestamp_ms"@) == Some(JsonView::Int(1000 * seconds)),
        field(now_json(seconds, iso_utc), "iso_utc"@) == Some(JsonView::Str(iso_utc)),
{
    lemma_time_keys();
}

/// A time is asked about exactly where it is an integer of 64 bits above zero.
pub proof fn law_asked_times(document: JsonView)
    ensures
        asked_time(document) == (match field(document, "timestamp"@) {
            Some(JsonView::Int(n)) => if 0 < n <= i64::MAX {
                Ok::<i64, ReplyView>(n as i64)
            } else {
                Err(error_reply(400, "缺少有效的 timestamp 字段（秒级）"@))
            },
            _ => Err(error_reply(400, "缺少有效的 timestamp 字段（秒级）"@)),
        }),
{
}

} // verus!
