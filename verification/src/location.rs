//! Where an address is: the first source is Gitee, and a free one stands in for it.
use crate::body::{UNREAD, opt_bytes};
use crate::catalog::Provider;
use crate::config::{Env, ProviderCfgView, provider_cfg, upstream_cfg};
use crate::ip::{is_private_ipv4, is_valid_ip, private_ipv4, valid_ip};
use crate::json::{
    JsonView, field, get, json_contents, json_parse, null, object, of_text, parse, text_at,
    text_field, text_field_or_empty, text_or_empty, with,
};
use crate::reply::{Reply, ReplyView, err_res, error_reply, header_texts};
use crate::text::{
    around, contains_char, first_piece, head, join, opt_text, trim, trimmed,
};
use crate::upstream::{
    Method, RequestView, UpstreamRequest, bearer, build_upstream_req, header_value,
    upstream_request,
};
use vstd::prelude::*;
use vstd::utf8::encode_utf8;

verus! {

pub const NO_IP: &'static str =
    "缺少 ip 字段：请在请求体中提供要查询的 IP（如 \"ip\": \"8.8.8.8\"）";

pub const IPV6_UNREACHABLE: &'static str = "IPv6 查询备用数据源不可达，请稍后重试";

pub const BOTH_UNREACHABLE: &'static str =
    "IP 查询的主/备数据源均不可达（Gitee AI 与 ip-api 均失败），请稍后重试";

pub const UNREADABLE: &'static str = "备用数据源响应解析失败，请稍后重试";

pub const FALLBACK_SOURCE: &'static str = "ip-api.com（备用数据集）";

pub const FALLBACK_URL: &'static str = "http://ip-api.com/json/";

pub const FALLBACK_QUERY: &'static str =
    "?lang=zh-CN&fields=status,country,regionName,city,isp,org,as,lat,lon,timezone,query";

// ---------------------------------------------------------------------------
// Which address
// ---------------------------------------------------------------------------
/// The address from which a request came: what the edge says, else the first address
/// that the request itself lists.
pub open spec fn caller_ip(connecting: Option<Seq<char>>, forwarded: Option<Seq<char>>) -> Seq<
    char,
> {
    match connecting {
        Some(ip) => ip,
        None => match forwarded {
            Some(list) => trimmed(first_piece(list, ',')),
            None => Seq::empty(),
        },
    }
}

/// The address that a document asks about: the one that it names, else that of the
/// caller.
pub open spec fn asked_ip(
    document: JsonView,
    connecting: Option<Seq<char>>,
    forwarded: Option<Seq<char>>,
) -> Seq<char> {
    let named = trimmed(text_or_empty(document, "ip"@));
    if named.len() > 0 {
        named
    } else {
        caller_ip(connecting, forwarded)
    }
}

/// What a caller is told whose address is none.
pub open spec fn malformed(ip: Seq<char>) -> Seq<char> {
    "IP 格式不正确：「"@ + ip + "」不是合法的 IPv4/IPv6 地址，请检查后重试"@
}

/// What a caller is told whose address is private.
pub open spec fn private(ip: Seq<char>) -> Seq<char> {
    "「"@ + ip
        + "」是内网/保留 IP，没有公网归属地信息。请查询公网 IP，或留空 ip 字段自动查询调用方出口 IP"@
}

/// The address, where it can be looked up, or else the reply.
pub open spec fn public_ip(ip: Seq<char>) -> Result<Seq<char>, ReplyView> {
    if ip.len() == 0 {
        Err(error_reply(400, NO_IP@))
    } else if !valid_ip(ip) {
        Err(error_reply(400, malformed(ip)))
    } else if private_ipv4(ip) {
        Err(error_reply(400, private(ip)))
    } else {
        Ok(ip)
    }
}

/// Reads the address that a document asks about.
pub fn ask_ip(document: &serde_json::Value, connecting: Option<&str>, forwarded: Option<&str>) -> (r:
    Result<String, Reply>)
    ensures
        match r {
            Ok(ip) => public_ip(
                asked_ip(json_contents(*document), opt_text(connecting), opt_text(forwarded)),
            ) == Ok::<Seq<char>, ReplyView>(ip@),
            Err(e) => public_ip(
                asked_ip(json_contents(*document), opt_text(connecting), opt_text(forwarded)),
            ) == Err::<Seq<char>, ReplyView>(e@),
        },
{
    let text = text_field_or_empty(document, "ip");
    let named = trim(text.as_str());
    let ip = if !named.is_empty() {
        named.to_string()
    } else {
        match connecting {
            Some(c) => c.to_string(),
            None => match forwarded {
                Some(list) => trim(head(list, ',')).to_string(),
                None => String::new(),
            },
        }
    };
    if ip.as_str().is_empty() {
        return Err(err_res(400, NO_IP));
    }
    if !is_valid_ip(ip.as_str()) {
        return Err(
            err_res(
                400,
                around(
                    "IP 格式不正确：「",
                    ip.as_str(),
                    "」不是合法的 IPv4/IPv6 地址，请检查后重试",
                ).as_str(),
            ),
        );
    }
    if is_private_ipv4(ip.as_str()) {
        return Err(
            err_res(
                400,
                around(
                    "「",
                    ip.as_str(),
                    "」是内网/保留 IP，没有公网归属地信息。请查询公网 IP，或留空 ip 字段自动查询调用方出口 IP",
                ).as_str(),
            ),
        );
    }
    Ok(ip)
}

/// The document in a body, or an empty one where it holds none.
pub open spec fn document_or_empty(body: Seq<u8>) -> JsonView {
    match json_parse(body) {
        Ok(document) => document,
        Err(_) => JsonView::Object(Map::empty()),
    }
}

/// Reads the document in a body, or makes an empty one where it holds none.
fn read_or_empty(body: &[u8]) -> (r: serde_json::Value)
    ensures
        json_contents(r) == document_or_empty(body@),
{
    match parse(body) {
        Ok(v) => v,
        Err(_) => object(),
    }
}

// ---------------------------------------------------------------------------
// Where to look it up
// ---------------------------------------------------------------------------
/// An address of the sixth version of the protocol.
pub open spec fn ipv6(ip: Seq<char>) -> bool {
    ip.contains(':')
}

/// The request to the first source.
pub open spec fn primary_request(cfg: ProviderCfgView, ip: Seq<char>) -> RequestView {
    upstream_request(
        cfg.base + "/ip_location?ip="@ + ip,
        Some(bearer(cfg.key)),
        Seq::empty(),
        Seq::empty(),
        Method::Get,
    )
}

/// The request to the source that stands in.
pub open spec fn fallback_request(ip: Seq<char>) -> RequestView {
    upstream_request(
        FALLBACK_URL@ + ip + FALLBACK_QUERY@,
        None,
        Seq::empty(),
        Seq::empty(),
        Method::Get,
    )
}

/// Where an address is looked up first.
pub enum Lookup {
    Primary(UpstreamRequest),
    Fallback(UpstreamRequest),
}

/// Where an address is looked up first.
pub enum LookupView {
    Primary(RequestView),
    Fallback(RequestView),
}

impl View for Lookup {
    type V = LookupView;

    open spec fn view(&self) -> LookupView {
        match *self {
            Lookup::Primary(q) => LookupView::Primary(q@),
            Lookup::Fallback(q) => LookupView::Fallback(q@),
        }
    }
}

/// Where an address is looked up first. The first source is passed over where it is not
/// configured, and for addresses that it does not know.
pub open spec fn lookup(env: Env, ip: Seq<char>) -> LookupView {
    match upstream_cfg(env, Provider::Gitee) {
        Some(cfg) => if ipv6(ip) {
            LookupView::Fallback(fallback_request(ip))
        } else {
            LookupView::Primary(primary_request(cfg, ip))
        },
        None => LookupView::Fallback(fallback_request(ip)),
    }
}

/// Builds the request to the source that stands in.
fn ask_fallback(ip: &str) -> (r: UpstreamRequest)
    ensures
        r@ == fallback_request(ip@),
{
    let none: Vec<(String, String)> = Vec::new();
    let empty: Vec<u8> = Vec::new();
    assert(header_texts(none@) =~= Seq::empty());
    build_upstream_req(
        around(FALLBACK_URL, ip, FALLBACK_QUERY).as_str(),
        None,
        none.as_slice(),
        empty.as_slice(),
        Method::Get,
    )
}

/// Decides where an address is looked up first.
pub fn look_up(env: &Env, ip: &str) -> (r: Lookup)
    ensures
        r@ == lookup(*env, ip@),
{
    if contains_char(ip, ':') {
        return Lookup::Fallback(ask_fallback(ip));
    }
    match provider_cfg(env, Provider::Gitee) {
        Some(cfg) => {
            let none: Vec<(String, String)> = Vec::new();
            let empty: Vec<u8> = Vec::new();
            assert(header_texts(none@) =~= Seq::empty());
            Lookup::Primary(
                build_upstream_req(
                    around(cfg.base.as_str(), "/ip_location?ip=", ip).as_str(),
                    Some(join("Bearer ", cfg.key.as_str()).as_str()),
                    none.as_slice(),
                    empty.as_slice(),
                    Method::Get,
                ),
            )
        },
        None => Lookup::Fallback(ask_fallback(ip)),
    }
}

/// The address that a request asks about, or the reply to it.
pub open spec fn requested_ip(
    body: Option<Seq<u8>>,
    connecting: Option<Seq<char>>,
    forwarded: Option<Seq<char>>,
) -> Result<Seq<char>, ReplyView> {
    match body {
        Some(b) => public_ip(asked_ip(document_or_empty(b), connecting, forwarded)),
        None => Err(error_reply(400, UNREAD@)),
    }
}

/// Decides what a request asks about and where that is looked up first.
pub fn handle_ip_location(
    env: &Env,
    body: Option<&[u8]>,
    connecting: Option<&str>,
    forwarded: Option<&str>,
) -> (r: Result<(String, Lookup), Reply>)
    ensures
        match r {
            Ok((ip, first)) => requested_ip(
                opt_bytes(body),
                opt_text(connecting),
                opt_text(forwarded),
            ) == Ok::<Seq<char>, ReplyView>(ip@) && first@ == lookup(*env, ip@),
            Err(e) => requested_ip(opt_bytes(body), opt_text(connecting), opt_text(forwarded))
                == Err::<Seq<char>, ReplyView>(e@),
        },
{
    let bytes = match body {
        Some(b) => b,
        None => return Err(err_res(400, UNREAD)),
    };
    let document = read_or_empty(bytes);
    match ask_ip(&document, connecting, forwarded) {
        Ok(ip) => {
            let first = look_up(env, ip.as_str());
            Ok((ip, first))
        },
        Err(reply) => Err(reply),
    }
}

// ---------------------------------------------------------------------------
// What came back
// ---------------------------------------------------------------------------
/// What follows the first source's reply, or its failure: nothing where the reply is
/// handed on, else the request to the source that stands in.
pub open spec fn after_primary(ip: Seq<char>, status: Option<u16>) -> Option<RequestView> {
    match status {
        Some(code) => if code < 400 {
            None
        } else {
            Some(fallback_request(ip))
        },
        None => Some(fallback_request(ip)),
    }
}

/// Decides what follows the first source's reply, or its failure.
pub fn primary_done(ip: &str, status: Option<u16>) -> (r: Option<UpstreamRequest>)
    ensures
        match r {
            Some(q) => after_primary(ip@, status) == Some(q@),
            None => after_primary(ip@, status) is None,
        },
{
    match status {
        Some(code) => if code < 400 {
            None
        } else {
            Some(ask_fallback(ip))
        },
        None => Some(ask_fallback(ip)),
    }
}

/// What came back from the source that stands in.
pub enum Found {
    /// A status and a text.
    Text(u16, String),
    /// A reply that could not be read.
    Unreadable,
    /// Nothing: it was not reached.
    Unreached,
}

/// What came back from the source that stands in.
pub enum FoundView {
    Text(u16, Seq<char>),
    Unreadable,
    Unreached,
}

impl View for Found {
    type V = FoundView;

    open spec fn view(&self) -> FoundView {
        match *self {
            Found::Text(status, text) => FoundView::Text(status, text@),
            Found::Unreadable => FoundView::Unreadable,
            Found::Unreached => FoundView::Unreached,
        }
    }
}

/// The member of a document under a name, or a default.
pub open spec fn member_or(document: JsonView, key: Seq<char>, default: JsonView) -> JsonView {
    match field(document, key) {
        Some(v) => v,
        None => default,
    }
}

/// The place of an address, in the form of the first source.
pub open spec fn place_json(ip: Seq<char>, doc: JsonView) -> JsonView {
    JsonView::Object(
        map![
            "ip"@ => member_or(doc, "query"@, JsonView::Str(ip)),
            "country"@ => member_or(doc, "country"@, JsonView::Null),
            "province"@ => member_or(doc, "regionName"@, JsonView::Null),
            "city"@ => member_or(doc, "city"@, JsonView::Null),
            "isp"@ => member_or(doc, "isp"@, JsonView::Null),
            "org"@ => member_or(doc, "org"@, JsonView::Null),
            "as"@ => member_or(doc, "as"@, JsonView::Null),
            "lat"@ => member_or(doc, "lat"@, JsonView::Null),
            "lon"@ => member_or(doc, "lon"@, JsonView::Null),
            "timezone"@ => member_or(doc, "timezone"@, JsonView::Null),
            "data_source"@ => JsonView::Str(FALLBACK_SOURCE@),
        ],
    )
}

/// What a caller is told whose address the source that stands in does not know.
pub open spec fn not_known(ip: Seq<char>) -> Seq<char> {
    "备用数据源未能查询到「"@ + ip + "」的归属地信息（可能为保留/未分配 IP）"@
}

/// The reply that the document of the source that stands in leads to.
pub open spec fn place_reply(ip: Seq<char>, status: u16, doc: JsonView) -> ReplyView {
    if text_at(doc, "status"@) == Some("success"@) {
        ReplyView {
            status: if status < 400 {
                status
            } else {
                200
            },
            json: place_json(ip, doc),
        }
    } else {
        error_reply(400, not_known(ip))
    }
}

/// A copy of the member of a document under a name, or a default.
fn copy_or(doc: &serde_json::Value, key: &str, default: serde_json::Value) -> (r: serde_json::Value)
    ensures
        json_contents(r) == member_or(json_contents(*doc), key@, json_contents(default)),
{
    match get(doc, key) {
        Some(v) => v.clone(),
        None => default,
    }
}

/// Makes the reply that the document of the source that stands in leads to.
pub fn answer_place(ip: &str, status: u16, doc: &serde_json::Value) -> (r: Reply)
    ensures
        r@ == place_reply(ip@, status, json_contents(*doc)),
{
    let known = match text_field(doc, "status") {
        Some(s) => *s == *"success",
        None => false,
    };
    if !known {
        return err_res(
            400,
            around(
                "备用数据源未能查询到「",
                ip,
                "」的归属地信息（可能为保留/未分配 IP）",
            ).as_str(),
        );
    }
    let mut out = object();
    out = with(out, "ip", copy_or(doc, "query", of_text(ip)));
    out = with(out, "country", copy_or(doc, "country", null()));
    out = with(out, "province", copy_or(doc, "regionName", null()));
    out = with(out, "city", copy_or(doc, "city", null()));
    out = with(out, "isp", copy_or(doc, "isp", null()));
    out = with(out, "org", copy_or(doc, "org", null()));
    out = with(out, "as", copy_or(doc, "as", null()));
    out = with(out, "lat", copy_or(doc, "lat", null()));
    out = with(out, "lon", copy_or(doc, "lon", null()));
    out = with(out, "timezone", copy_or(doc, "timezone", null()));
    out = with(out, "data_source", of_text(FALLBACK_SOURCE));
    let code: u16 = if status < 400 {
        status
    } else {
        200
    };
    Reply { status: code, json: out }
}

/// The reply that what came back from the source that stands in leads to.
pub open spec fn after_fallback(ip: Seq<char>, found: FoundView) -> ReplyView {
    match found {
        FoundView::Text(status, text) => place_reply(
            ip,
            status,
            document_or_empty(encode_utf8(text)),
        ),
        FoundView::Unreadable => error_reply(502, UNREADABLE@),
        FoundView::Unreached => if ipv6(ip) {
            error_reply(502, IPV6_UNREACHABLE@)
        } else {
            error_reply(502, BOTH_UNREACHABLE@)
        },
    }
}

/// Makes the reply that what came back from the source that stands in leads to.
pub fn fallback_done(ip: &str, found: &Found) -> (r: Reply)
    ensures
        r@ == after_fallback(ip@, found@),
{
    match found {
        Found::Text(status, text) => {
            let doc = read_or_empty(text.as_str().as_bytes());
            answer_place(ip, *status, &doc)
        },
        Found::Unreadable => err_res(502, UNREADABLE),
        Found::Unreached => if contains_char(ip, ':') {
            err_res(502, IPV6_UNREACHABLE)
        } else {
            err_res(502, BOTH_UNREACHABLE)
        },
    }
}

// ---------------------------------------------------------------------------
// Laws
// ---------------------------------------------------------------------------
/// Whenever the first source is passed over, is not reached or refuses, the source that
/// stands in is asked about the same address.
pub proof fn law_fallback_stands_in(env: Env, ip: Seq<char>, status: Option<u16>)
    ensures
        lookup(env, ip) matches LookupView::Fallback(q) ==> q == fallback_request(ip),
        upstream_cfg(env, Provider::Gitee) is None ==> lookup(env, ip) is Fallback,
        ipv6(ip) ==> lookup(env, ip) is Fallback,
        status is None || status->0 >= 400 ==> after_primary(ip, status) == Some(
            fallback_request(ip),
        ),
        status is Some && status->0 < 400 ==> after_primary(ip, status) is None,
{
}

/// The source that stands in gets no key.
pub proof fn law_fallback_gets_no_key(ip: Seq<char>)
    ensures
        fallback_request(ip).headers == seq![("Content-Type"@, "application/json"@)],
{
    assert(fallback_request(ip).headers =~= seq![("Content-Type"@, "application/json"@)]);
}

/// No address is looked up but a valid one that is not private.
pub proof fn law_only_public_addresses(
    body: Option<Seq<u8>>,
    connecting: Option<Seq<char>>,
    forwarded: Option<Seq<char>>,
)
    ensures
        requested_ip(body, connecting, forwarded) matches Ok(ip) ==> ip.len() > 0 && valid_ip(ip)
            && !private_ipv4(ip),
        requested_ip(body, connecting, forwarded) matches Err(reply) ==> reply.status == 400,
{
}

/// The members of a place are told apart by their names.
proof fn lemma_place_keys()
    ensures
        "ip"@.len() == 2 && "ip"@[0] == 'i',
        "as"@.len() == 2 && "as"@[0] == 'a',
        "isp"@.len() == 3 && "isp"@[1] == 's',
        "org"@.len() == 3 && "org"@[1] == 'r',
        "lat"@.len() == 3 && "lat"@[1] == 'a',
        "lon"@.len() == 3 && "lon"@[1] == 'o',
        "city"@.len() == 4,
        "country"@.len() == 7,
        "province"@.len() == 8 && "province"@[0] == 'p',
        "timezone"@.len() == 8 && "timezone"@[0] == 't',
        "data_source"@.len() == 11,
{
    reveal_strlit("ip");
    reveal_strlit("country");
    reveal_strlit("province");
    reveal_strlit("city");
    reveal_strlit("isp");
    reveal_strlit("org");
    reveal_strlit("as");
    reveal_strlit("lat");
    reveal_strlit("lon");
    reveal_strlit("timezone");
    reveal_strlit("data_source");
}

/// The member of a document as it is, or `null` where there is none.
pub open spec fn or_null(member: Option<JsonView>) -> JsonView {
    match member {
        Some(v) => v,
        None => JsonView::Null,
    }
}

/// The place that is told of an address is the one that the source knows, member by member.
/// Only the region has another name there, and the address asked about stands in for the one
/// that the source repeats.
pub proof fn law_places_are_told_as_known(ip: Seq<char>, status: u16, doc: JsonView)
    requires
        field(doc, "status"@) == Some(JsonView::Str("success"@)),
    ensures
        ({
            let reply = place_reply(ip, status, doc);
            &&& reply.status == (if status <= 399 {
                status
            } else {
                200
            })
            &&& field(reply.json, "country"@) == Some(or_null(field(doc, "country"@)))
            &&& field(reply.json, "province"@) == Some(or_null(field(doc, "regionName"@)))
            &&& field(reply.json, "city"@) == Some(or_null(field(doc, "city"@)))
            &&& field(reply.json, "isp"@) == Some(or_null(field(doc, "isp"@)))
            &&& field(reply.json, "org"@) == Some(or_null(field(doc, "org"@)))
            &&& field(reply.json, "as"@) == Some(or_null(field(doc, "as"@)))
            &&& field(reply.json, "lat"@) == Some(or_null(field(doc, "lat"@)))
            &&& field(reply.json, "lon"@) == Some(or_null(field(doc, "lon"@)))
            &&& field(reply.json, "timezone"@) == Some(or_null(field(doc, "timezone"@)))
            &&& field(reply.json, "data_source"@) == Some(
                JsonView::Str("ip-api.com（备用数据集）"@),
            )
            &&& field(doc, "query"@) matches Some(known) ==> field(reply.json, "ip"@) == Some(known)
            &&& field(doc, "query"@) is None ==> field(reply.json, "ip"@) == Some(JsonView::Str(ip))
        }),
{
    lemma_place_keys();
}

/// A source that does not report success knows nothing of the address, whatever else it
/// says, and whatever came back is told apart.
pub proof fn law_unknown_places_are_told(ip: Seq<char>, status: u16, doc: JsonView)
    ensures
        field(doc, "status"@) != Some(JsonView::Str("success"@)) ==> place_reply(ip, status, doc)
            == error_reply(
            400,
            "备用数据源未能查询到「"@ + ip
                + "」的归属地信息（可能为保留/未分配 IP）"@,
        ),
        after_fallback(ip, FoundView::Unreadable) == error_reply(
            502,
            "备用数据源响应解析失败，请稍后重试"@,
        ),
        ip.contains(':') ==> after_fallback(ip, FoundView::Unreached) == error_reply(
            502,
            "IPv6 查询备用数据源不可达，请稍后重试"@,
        ),
        !ip.contains(':') ==> after_fallback(ip, FoundView::Unreached) == error_reply(
            502,
            "IP 查询的主/备数据源均不可达（Gitee AI 与 ip-api 均失败），请稍后重试"@,
        ),
{
}

/// What came back from the source that stands in is read as JSON, and as an empty document
/// where it is none.
pub proof fn law_texts_of_the_fallback_are_read(ip: Seq<char>, status: u16, text: Seq<char>)
    ensures
        json_parse(encode_utf8(text)) matches Ok(doc) ==> after_fallback(
            ip,
            FoundView::Text(status, text),
        ) == place_reply(ip, status, doc),
        json_parse(encode_utf8(text)) is Err ==> after_fallback(ip, FoundView::Text(status, text))
            == error_reply(
            400,
            "备用数据源未能查询到「"@ + ip
                + "」的归属地信息（可能为保留/未分配 IP）"@,
        ),
{
}

/// The address that a document names is asked about, without the white space around it.
/// Without one it is the caller's: the address that the edge gives, else the first that the
/// request lists.
pub proof fn law_callers_stand_in(
    document: JsonView,
    text: Seq<char>,
    connecting: Option<Seq<char>>,
    forwarded: Option<Seq<char>>,
    ip: Seq<char>,
)
    ensures
        field(document, "ip"@) == Some(JsonView::Str(text)) && trimmed(text).len() > 0 ==> asked_ip(
            document,
            connecting,
            forwarded,
        ) == trimmed(text),
        !(field(document, "ip"@) matches Some(JsonView::Str(t)) && trimmed(t).len() > 0) ==> {
            &&& asked_ip(document, Some(ip), forwarded) == ip
            &&& asked_ip(document, None, Some(text)) == trimmed(first_piece(text, ','))
            &&& asked_ip(document, None, None).len() == 0
        },
{
    assert(trimmed(Seq::<char>::empty()).len() == 0);
}

/// An address that cannot be looked up is refused with 400: none at all, a text that is none,
/// and one that has no place on the public internet, each in its own words.
pub proof fn law_bad_addresses_are_refused(ip: Seq<char>)
    ensures
        ip.len() == 0 ==> public_ip(ip) == Err::<Seq<char>, ReplyView>(
            error_reply(
                400,
                "缺少 ip 字段：请在请求体中提供要查询的 IP（如 \"ip\": \"8.8.8.8\"）"@,
            ),
        ),
        ip.len() > 0 && !valid_ip(ip) ==> public_ip(ip) == Err::<Seq<char>, ReplyView>(
            error_reply(
                400,
                "IP 格式不正确：「"@ + ip
                    + "」不是合法的 IPv4/IPv6 地址，请检查后重试"@,
            ),
        ),
        ip.len() > 0 && valid_ip(ip) && private_ipv4(ip) ==> public_ip(ip) == Err::<
            Seq<char>,
            ReplyView,
        >(
            error_reply(
                400,
                "「"@ + ip
                    + "」是内网/保留 IP，没有公网归属地信息。请查询公网 IP，或留空 ip 字段自动查询调用方出口 IP"@,
            ),
        ),
        ip.len() > 0 && valid_ip(ip) && !private_ipv4(ip) ==> public_ip(ip) == Ok::<
            Seq<char>,
            ReplyView,
        >(ip),
        requested_ip(None, None, None) == Err::<Seq<char>, ReplyView>(
            error_reply(400, "请求体读取失败，请检查网络后重试"@),
        ),
{
}

/// The first source is asked by `GET` below Gitee's place, under its key; the one that stands
/// in is asked for its members by name. Both are asked about the address, and the first only
/// for addresses without a colon.
pub proof fn law_sources_are_asked(env: Env, ip: Seq<char>)
    ensures
        !ip.contains(':') ==> (upstream_cfg(env, Provider::Gitee) matches Some(cfg) ==> (lookup(
            env,
            ip,
        ) matches LookupView::Primary(q) && q.url == cfg.base + "/ip_location?ip="@ + ip && q.method
            == Method::Get && q.body is None && header_value(q.headers, "Authorization"@) == Some(
            "Bearer "@ + cfg.key,
        ))),
        upstream_cfg(env, Provider::Gitee) is None || ip.contains(':') ==> lookup(env, ip)
            == LookupView::Fallback(fallback_request(ip)),
        fallback_request(ip).url == "http://ip-api.com/json/"@ + ip
            + "?lang=zh-CN&fields=status,country,regionName,city,isp,org,as,lat,lon,timezone,query"@,
        fallback_request(ip).method == Method::Get,
        fallback_request(ip).body is None,
{
    if let Some(cfg) = upstream_cfg(env, Provider::Gitee) {
        let all = primary_request(cfg, ip).headers;
        assert(all.last() == ("Authorization"@, bearer(cfg.key)));
    }
}

/// A body that is no JSON names no address, and then the caller's is asked about.
pub proof fn law_bodies_name_addresses(
    body: Seq<u8>,
    connecting: Option<Seq<char>>,
    forwarded: Option<Seq<char>>,
)
    ensures
        json_parse(body) matches Ok(doc) ==> requested_ip(Some(body), connecting, forwarded)
            == public_ip(asked_ip(doc, connecting, forwarded)),
        json_parse(body) is Err ==> requested_ip(Some(body), connecting, forwarded) == public_ip(
            match connecting {
                Some(ip) => ip,
                None => match forwarded {
                    Some(list) => trimmed(first_piece(list, ',')),
                    None => Seq::empty(),
                },
            },
        ),
        requested_ip(None, connecting, forwarded) == Err::<Seq<char>, ReplyView>(
            error_reply(400, "请求体读取失败，请检查网络后重试"@),
        ),
{
    assert(trimmed(Seq::<char>::empty()).len() == 0);
}

} // verus!
