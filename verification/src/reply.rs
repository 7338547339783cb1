//! The gateway's own replies: a status and a JSON document, with the headers
//! that every reply carries.
use crate::json::{JsonView, field, json_contents, object, of_signed, of_text, of_unsigned, with};
use vstd::prelude::*;

verus! {

/// The project's site.
pub const SITE_URL: &'static str = "https://acu.ltzy.top";

/// Where the community channel can be joined.
pub const QQ_GUILD_URL: &'static str = "https://pd.qq.com/s/e4ktxw1b8";

/// The number of the community channel.
pub const QQ_GUILD_ID: &'static str = "pd57362562";

/// The number of the community group.
pub const QQ_GROUP_NUM: i64 = 1103667832;

/// What a caller without a valid key is told.
pub const INVALID_KEY_MESSAGE: &'static str =
    "API 密钥无效或已过期（仅指定密钥模式下会出现）。请访问官网 acu.ltzy.top，或加入 AQUA 开源社区 QQ 频道（频道号 pd57362562）获取最新密钥；日常交流可加 QQ 群 1103667832。";

/// A reply that the gateway makes itself.
pub struct Reply {
    pub status: u16,
    pub json: serde_json::Value,
}

/// What a reply says.
pub struct ReplyView {
    pub status: u16,
    pub json: JsonView,
}

impl View for Reply {
    type V = ReplyView;

    open spec fn view(&self) -> ReplyView {
        ReplyView { status: self.status, json: json_contents(self.json) }
    }
}

// ---------------------------------------------------------------------------
// Headers
// ---------------------------------------------------------------------------
/// What the names and values of a list of headers are.
pub open spec fn header_texts(headers: Seq<(String, String)>) -> Seq<(Seq<char>, Seq<char>)> {
    headers.map_values(|h: (String, String)| (h.0@, h.1@))
}

/// The headers by which browsers on any site may read a reply.
pub open spec fn cors() -> Seq<(Seq<char>, Seq<char>)> {
    seq![
        ("Access-Control-Allow-Origin"@, "*"@),
        ("Access-Control-Allow-Methods"@, "GET, POST, OPTIONS"@),
        (
            "Access-Control-Allow-Headers"@,
            "Content-Type, Authorization, x-api-key, x-goog-api-key"@,
        ),
        ("Access-Control-Max-Age"@, "86400"@),
    ]
}

/// Adds one header to a list.
pub fn add_header(headers: &mut Vec<(String, String)>, name: &str, value: &str)
    ensures
        header_texts(final(headers)@) == header_texts(old(headers)@).push((name@, value@)),
{
    headers.push((name.to_string(), value.to_string()));
    assert(header_texts(headers@) =~= header_texts(old(headers)@).push((name@, value@)));
}

/// Adds the headers by which browsers on any site may read a reply.
pub fn cors_headers(headers: &mut Vec<(String, String)>)
    ensures
        header_texts(final(headers)@) == header_texts(old(headers)@) + cors(),
{
    add_header(headers, "Access-Control-Allow-Origin", "*");
    add_header(headers, "Access-Control-Allow-Methods", "GET, POST, OPTIONS");
    add_header(
        headers,
        "Access-Control-Allow-Headers",
        "Content-Type, Authorization, x-api-key, x-goog-api-key",
    );
    add_header(headers, "Access-Control-Max-Age", "86400");
    assert(header_texts(headers@) =~= header_texts(old(headers)@) + cors());
}

/// The headers of an upstream's reply that is handed on: its content type, where
/// it names one, and those that every reply carries.
pub open spec fn handed_on(content_type: Option<Seq<char>>) -> Seq<(Seq<char>, Seq<char>)> {
    match content_type {
        Some(t) => if t.len() > 0 {
            seq![("Content-Type"@, t)] + cors()
        } else {
            cors()
        },
        None => cors(),
    }
}

/// Chooses the headers with which an upstream's reply is handed on.
pub fn passthrough(content_type: Option<&str>) -> (r: Vec<(String, String)>)
    ensures
        header_texts(r@) == handed_on(crate::text::opt_text(content_type)),
{
    let mut headers: Vec<(String, String)> = Vec::new();
    if let Some(t) = content_type {
        if !t.is_empty() {
            add_header(&mut headers, "Content-Type", t);
        }
    }
    let ghost before = header_texts(headers@);
    cors_headers(&mut headers);
    proof {
        if content_type is Some && content_type->0@.len() > 0 {
            assert(before =~= seq![("Content-Type"@, content_type->0@)]);
        } else {
            assert(before + cors() =~= cors());
        }
    }
    headers
}

// ---------------------------------------------------------------------------
// Errors
// ---------------------------------------------------------------------------
/// Where a user finds help.
pub open spec fn help_json() -> JsonView {
    JsonView::Object(
        map![
            "site"@ => JsonView::Str(SITE_URL@),
            "qq_guild"@ => JsonView::Str(QQ_GUILD_ID@),
            "qq_guild_url"@ => JsonView::Str(QQ_GUILD_URL@),
            "qq_group"@ => JsonView::Int(QQ_GROUP_NUM as int),
        ],
    )
}

/// The document of an error: its message, its kind, the status as its code, and
/// where a user finds help.
pub open spec fn error_json(status: u16, message: Seq<char>, kind: Seq<char>) -> JsonView {
    JsonView::Object(
        map![
            "error"@ => JsonView::Object(
                map![
                    "message"@ => JsonView::Str(message),
                    "type"@ => JsonView::Str(kind),
                    "code"@ => JsonView::Int(status as int),
                    "help"@ => help_json(),
                ],
            ),
        ],
    )
}

/// The reply that reports an error.
pub open spec fn error_reply(status: u16, message: Seq<char>) -> ReplyView {
    ReplyView { status, json: error_json(status, message, "api_error"@) }
}

/// The reply to a caller without a valid key.
pub open spec fn invalid_key_reply() -> ReplyView {
    ReplyView { status: 401, json: error_json(401, INVALID_KEY_MESSAGE@, "invalid_api_key"@) }
}

/// A reply that reports an error in the form that every error has.
pub open spec fn reports_error(reply: ReplyView) -> bool {
    &&& 400 <= reply.status < 600
    &&& exists|message: Seq<char>, kind: Seq<char>|
        reply.json == #[trigger] error_json(reply.status, message, kind)
}

/// The document of an error.
fn error_document(status: u16, message: &str, kind: &str) -> (r: serde_json::Value)
    ensures
        json_contents(r) == error_json(status, message@, kind@),
{
    let help = with(
        with(
            with(
                with(object(), "site", of_text(SITE_URL)),
                "qq_guild",
                of_text(QQ_GUILD_ID),
            ),
            "qq_guild_url",
            of_text(QQ_GUILD_URL),
        ),
        "qq_group",
        of_signed(QQ_GROUP_NUM),
    );
    let error = with(
        with(
            with(
                with(object(), "message", of_text(message)),
                "type",
                of_text(kind),
            ),
            "code",
            of_unsigned(status as u64),
        ),
        "help",
        help,
    );
    with(object(), "error", error)
}

/// A reply that reports an error.
pub fn err_res(status: u16, message: &str) -> (r: Reply)
    ensures
        r@ == error_reply(status, message@),
{
    Reply { status, json: error_document(status, message, "api_error") }
}

/// The reply to a caller without a valid key.
pub fn err_invalid_key() -> (r: Reply)
    ensures
        r@ == invalid_key_reply(),
{
    Reply { status: 401, json: error_document(401, INVALID_KEY_MESSAGE, "invalid_api_key") }
}

/// The reply that gives a document.
pub open spec fn success(document: JsonView) -> ReplyView {
    ReplyView { status: 200, json: document }
}

/// A reply that gives a document.
pub fn json_res(json: serde_json::Value) -> (r: Reply)
    ensures
        r@ == success(json_contents(json)),
{
    Reply { status: 200, json }
}

/// The members of an error are told apart by their names.
proof fn lemma_error_keys()
    ensures
        "type"@.len() == 4 && "type"@[0] == 't',
        "code"@.len() == 4 && "code"@[0] == 'c',
        "help"@.len() == 4 && "help"@[0] == 'h',
        "message"@.len() == 7,
{
    reveal_strlit("message");
    reveal_strlit("type");
    reveal_strlit("code");
    reveal_strlit("help");
}

/// The members of a help are told apart by their names.
proof fn lemma_help_keys()
    ensures
        "site"@.len() == 4,
        "qq_guild"@.len() == 8 && "qq_guild"@[4] == 'u',
        "qq_group"@.len() == 8 && "qq_group"@[4] == 'r',
        "qq_guild_url"@.len() == 12,
{
    reveal_strlit("site");
    reveal_strlit("qq_guild");
    reveal_strlit("qq_guild_url");
    reveal_strlit("qq_group");
}

/// A help points to the project's site, to its channel and to its group.
pub open spec fn points_to_help(help: JsonView) -> bool {
    &&& field(help, "site"@) == Some(JsonView::Str("https://acu.ltzy.top"@))
    &&& field(help, "qq_guild"@) == Some(JsonView::Str("pd57362562"@))
    &&& field(help, "qq_guild_url"@) == Some(JsonView::Str("https://pd.qq.com/s/e4ktxw1b8"@))
    &&& field(help, "qq_group"@) == Some(JsonView::Int(1103667832))
}

/// An error is reported under its status, with the message that is meant, with the status
/// as its code, and with where help is found.
pub proof fn law_errors_say_what_is_meant(status: u16, message: Seq<char>)
    ensures
        error_reply(status, message).status == status,
        field(error_reply(status, message).json, "error"@) matches Some(error) && field(
            error,
            "message"@,
        ) == Some(JsonView::Str(message)) && field(error, "type"@) == Some(
            JsonView::Str("api_error"@),
        ) && field(error, "code"@) == Some(JsonView::Int(status as int)) && (field(error, "help"@)
            matches Some(help) && points_to_help(help)),
{
    lemma_error_keys();
    lemma_help_keys();
}

/// A caller without a valid key gets a 401 of a kind of its own, with the same help.
pub proof fn law_invalid_keys_are_told()
    ensures
        invalid_key_reply().status == 401,
        field(invalid_key_reply().json, "error"@) matches Some(error) && field(error, "message"@)
            == Some(
            JsonView::Str(
                "API 密钥无效或已过期（仅指定密钥模式下会出现）。请访问官网 acu.ltzy.top，或加入 AQUA 开源社区 QQ 频道（频道号 pd57362562）获取最新密钥；日常交流可加 QQ 群 1103667832。"@,
            ),
        ) && field(error, "type"@) == Some(JsonView::Str("invalid_api_key"@)) && field(
            error,
            "code"@,
        ) == Some(JsonView::Int(401)) && (field(error, "help"@) matches Some(help)
            && points_to_help(help)),
{
    lemma_error_keys();
    lemma_help_keys();
}

/// A document is given out as it is, under the status of success.
pub proof fn law_documents_are_given_as_they_are(document: JsonView)
    ensures
        success(document).status == 200,
        success(document).json == document,
{
}

/// Every reply may be read by browsers on any site, and says so for a day.
pub proof fn law_browsers_may_read_replies()
    ensures
        cors().len() == 4,
        cors().contains(("Access-Control-Allow-Origin"@, "*"@)),
        cors().contains(("Access-Control-Allow-Methods"@, "GET, POST, OPTIONS"@)),
        cors().contains(
            (
                "Access-Control-Allow-Headers"@,
                "Content-Type, Authorization, x-api-key, x-goog-api-key"@,
            ),
        ),
        cors().contains(("Access-Control-Max-Age"@, "86400"@)),
{
    assert(cors()[0] == ("Access-Control-Allow-Origin"@, "*"@));
    assert(cors()[1] == ("Access-Control-Allow-Methods"@, "GET, POST, OPTIONS"@));
    assert(cors()[2] == (
        "Access-Control-Allow-Headers"@,
        "Content-Type, Authorization, x-api-key, x-goog-api-key"@,
    ));
    assert(cors()[3] == ("Access-Control-Max-Age"@, "86400"@));
}

/// An upstream's reply keeps its type when it is handed on, whatever the type is, and gets
/// the headers of every reply beside it.
pub proof fn law_handed_on_replies_keep_their_type(content_type: Seq<char>)
    requires
        content_type.len() > 0,
    ensures
        handed_on(Some(content_type)).len() == 5,
        handed_on(Some(content_type))[0] == ("Content-Type"@, content_type),
        handed_on(Some(content_type)).skip(1) == cors(),
        handed_on(Some(Seq::empty())) == cors(),
        handed_on(None) == cors(),
{
    assert(handed_on(Some(content_type)).skip(1) =~= cors());
}

} // verus!
