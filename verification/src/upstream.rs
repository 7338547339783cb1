//! Requests to upstreams.
use crate::catalog::Provider;
use crate::config::{Env, ProviderCfgView, provider_cfg, upstream_cfg};
use crate::reply::{Reply, ReplyView, add_header, err_res, error_reply, header_texts};
use crate::text::{join, opt_text};
use vstd::prelude::*;
use vstd::slice::slice_to_vec;

verus! {

/// What a caller is told whose model is served by an upstream that is not
/// configured.
pub const UNCONFIGURED: &'static str = "该模型的上游通道暂不可用，请稍后重试";

/// What a caller is told when an upstream cannot be reached.
pub const UNREACHABLE: &'static str = "Bad Gateway: upstream unreachable";

/// The methods with which upstreams are called.
#[derive(Clone, Copy, Debug, PartialEq, Eq, Structural)]
pub enum Method {
    Get,
    Post,
}

/// A request to an upstream. Its headers are set in the order of the list.
pub struct UpstreamRequest {
    pub url: String,
    pub method: Method,
    pub headers: Vec<(String, String)>,
    pub body: Option<Vec<u8>>,
}

/// What a request to an upstream says.
pub struct RequestView {
    pub url: Seq<char>,
    pub method: Method,
    pub headers: Seq<(Seq<char>, Seq<char>)>,
    pub body: Option<Seq<u8>>,
}

impl View for UpstreamRequest {
    type V = RequestView;

    open spec fn view(&self) -> RequestView {
        RequestView {
            url: self.url@,
            method: self.method,
            headers: header_texts(self.headers@),
            body: match self.body {
                Some(b) => Some(b@),
                None => None,
            },
        }
    }
}

/// The request to a web address: with the type of its content, with a credential
/// where there is one, with further headers, and with a body unless it is a `GET`.
pub open spec fn upstream_request(
    url: Seq<char>,
    auth: Option<Seq<char>>,
    extra_headers: Seq<(Seq<char>, Seq<char>)>,
    body: Seq<u8>,
    method: Method,
) -> RequestView {
    let kind = seq![("Content-Type"@, "application/json"@)];
    let credential = match auth {
        Some(a) => seq![("Authorization"@, a)],
        None => Seq::empty(),
    };
    RequestView {
        url,
        method,
        headers: kind + credential + extra_headers,
        body: if method == Method::Get {
            None
        } else {
            Some(body)
        },
    }
}

/// Builds the request to a web address.
pub fn build_upstream_req(
    url: &str,
    auth: Option<&str>,
    extra_headers: &[(String, String)],
    body: &[u8],
    method: Method,
) -> (r: UpstreamRequest)
    ensures
        r@ == upstream_request(
            url@,
            opt_text(auth),
            header_texts(extra_headers@),
            body@,
            method,
        ),
{
    let mut headers: Vec<(String, String)> = Vec::new();
    add_header(&mut headers, "Content-Type", "application/json");
    if let Some(a) = auth {
        add_header(&mut headers, "Authorization", a);
    }
    let ghost start = header_texts(headers@);
    let ghost extra = header_texts(extra_headers@);
    let ghost credential = match opt_text(auth) {
        Some(a) => seq![("Authorization"@, a)],
        None => Seq::empty(),
    };
    assert(start =~= seq![("Content-Type"@, "application/json"@)] + credential);
    let mut i: usize = 0;
    assert(header_texts(headers@) =~= start + extra.take(0));
    while i < extra_headers.len()
        invariant
            i <= extra_headers@.len(),
            extra == header_texts(extra_headers@),
            header_texts(headers@) == start + extra.take(i as int),
        decreases extra_headers@.len() - i,
    {
        add_header(&mut headers, extra_headers[i].0.as_str(), extra_headers[i].1.as_str());
        i += 1;
        assert(header_texts(headers@) =~= start + extra.take(i as int));
    }
    assert(extra.take(i as int) =~= extra);
    let body = match method {
        Method::Get => None,
        Method::Post => Some(slice_to_vec(body)),
    };
    UpstreamRequest { url: url.to_string(), method, headers, body }
}

/// The credential that a key is.
pub open spec fn bearer(key: Seq<char>) -> Seq<char> {
    "Bearer "@ + key
}

/// The request that sends a body to a web address under a key.
pub open spec fn keyed_post(url: Seq<char>, key: Seq<char>, body: Seq<u8>) -> RequestView {
    upstream_request(url, Some(bearer(key)), Seq::empty(), body, Method::Post)
}

/// Builds the request that sends a body to a web address under a key.
pub fn post_with_key(url: &str, key: &str, body: &[u8]) -> (r: UpstreamRequest)
    ensures
        r@ == keyed_post(url@, key@, body@),
{
    let none: Vec<(String, String)> = Vec::new();
    assert(header_texts(none@) =~= Seq::empty());
    build_upstream_req(
        url,
        Some(join("Bearer ", key).as_str()),
        none.as_slice(),
        body,
        Method::Post,
    )
}

/// The request for a chat to an upstream with a fixed key. Some upstreams want to be
/// told by which host they are addressed.
pub open spec fn direct_chat(
    base: Seq<char>,
    key: Seq<char>,
    host: Option<Seq<char>>,
    body: Seq<u8>,
) -> RequestView {
    upstream_request(
        base + "/chat/completions"@,
        Some(bearer(key)),
        match host {
            Some(h) => seq![("Host"@, h)],
            None => Seq::empty(),
        },
        body,
        Method::Post,
    )
}

/// Builds the request for a chat to an upstream with a fixed key.
pub fn proxy_direct(base: &str, key: &str, extra_host: Option<&str>, body: &[u8]) -> (r:
    UpstreamRequest)
    ensures
        r@ == direct_chat(base@, key@, opt_text(extra_host), body@),
{
    let mut extra: Vec<(String, String)> = Vec::new();
    if let Some(h) = extra_host {
        add_header(&mut extra, "Host", h);
    }
    assert(header_texts(extra@) =~= match opt_text(extra_host) {
        Some(h) => seq![("Host"@, h)],
        None => Seq::empty(),
    });
    build_upstream_req(
        join(base, "/chat/completions").as_str(),
        Some(join("Bearer ", key).as_str()),
        extra.as_slice(),
        body,
        Method::Post,
    )
}

/// The request that hands a body to a path below the place of an upstream, or the
/// reply to it where that upstream is not configured.
pub open spec fn direct_request(
    cfg: Option<ProviderCfgView>,
    path: Seq<char>,
    body: Seq<u8>,
) -> Result<RequestView, ReplyView> {
    match cfg {
        Some(c) => Ok(keyed_post(c.base + path, c.key, body)),
        None => Err(error_reply(502, UNCONFIGURED@)),
    }
}

/// Builds the request that hands a body to a path below the place of an upstream.
pub fn direct_forward(env: &Env, provider: Provider, path: &str, body: &[u8]) -> (r: Result<
    UpstreamRequest,
    Reply,
>)
    ensures
        match r {
            Ok(q) => direct_request(upstream_cfg(*env, provider), path@, body@) == Ok::<
                RequestView,
                ReplyView,
            >(q@),
            Err(e) => direct_request(upstream_cfg(*env, provider), path@, body@) == Err::<
                RequestView,
                ReplyView,
            >(e@),
        },
{
    match provider_cfg(env, provider) {
        Some(cfg) => Ok(
            post_with_key(join(cfg.base.as_str(), path).as_str(), cfg.key.as_str(), body),
        ),
        None => Err(err_res(502, UNCONFIGURED)),
    }
}

/// The headers that give the type of a caller's content, where the caller gives one.
pub open spec fn content_headers(content_type: Option<Seq<char>>) -> Seq<(Seq<char>, Seq<char>)> {
    match content_type {
        Some(t) => if t.len() > 0 {
            seq![("Content-Type"@, t)]
        } else {
            Seq::empty()
        },
        None => Seq::empty(),
    }
}

/// The request that uploads a body, with the type of its content as the caller gave it, to
/// a path below the place of an upstream, or the reply to it where that upstream is not
/// configured.
pub open spec fn upload_request(
    cfg: Option<ProviderCfgView>,
    path: Seq<char>,
    content_type: Option<Seq<char>>,
    body: Seq<u8>,
) -> Result<RequestView, ReplyView> {
    match cfg {
        Some(c) => Ok(
            upstream_request(
                c.base + path,
                Some(bearer(c.key)),
                content_headers(content_type),
                body,
                Method::Post,
            ),
        ),
        None => Err(error_reply(502, UNCONFIGURED@)),
    }
}

/// Builds the request that uploads a body to a path below the place of an upstream.
pub fn direct_upload(
    env: &Env,
    provider: Provider,
    path: &str,
    content_type: Option<&str>,
    body: &[u8],
) -> (r: Result<UpstreamRequest, Reply>)
    ensures
        match r {
            Ok(q) => upload_request(
                upstream_cfg(*env, provider),
                path@,
                opt_text(content_type),
                body@,
            ) == Ok::<RequestView, ReplyView>(q@),
            Err(e) => upload_request(
                upstream_cfg(*env, provider),
                path@,
                opt_text(content_type),
                body@,
            ) == Err::<RequestView, ReplyView>(e@),
        },
{
    match provider_cfg(env, provider) {
        Some(cfg) => {
            let mut extra: Vec<(String, String)> = Vec::new();
            if let Some(t) = content_type {
                if !t.is_empty() {
                    add_header(&mut extra, "Content-Type", t);
                }
            }
            assert(header_texts(extra@) =~= content_headers(opt_text(content_type)));
            Ok(
                build_upstream_req(
                    join(cfg.base.as_str(), path).as_str(),
                    Some(join("Bearer ", cfg.key.as_str()).as_str()),
                    extra.as_slice(),
                    body,
                    Method::Post,
                ),
            )
        },
        None => Err(err_res(502, UNCONFIGURED)),
    }
}

/// The reply to a caller whose request was to be handed on and did not reach the upstream.
pub fn forward_failed() -> (r: Reply)
    ensures
        r@ == error_reply(502, UNREACHABLE@),
{
    err_res(502, UNREACHABLE)
}

/// The value that a header has when the headers of a list are set in their order: the last
/// one that the list gives to it.
pub open spec fn header_value(
    headers: Seq<(Seq<char>, Seq<char>)>,
    name: Seq<char>,
) -> Option<Seq<char>>
    decreases headers.len(),
{
    if headers.len() == 0 {
        None
    } else if headers.last().0 == name {
        Some(headers.last().1)
    } else {
        header_value(headers.drop_last(), name)
    }
}

/// An upload reaches the upstream with the body and the type of content that the caller
/// gave, under the upstream's key.
pub proof fn law_uploads_keep_their_type(
    cfg: ProviderCfgView,
    path: Seq<char>,
    content_type: Seq<char>,
    body: Seq<u8>,
)
    requires
        content_type.len() > 0,
    ensures
        upload_request(Some(cfg), path, Some(content_type), body) matches Ok(q) && q.url
            == cfg.base + path && q.method == Method::Post && q.body == Some(body)
            && header_value(q.headers, "Content-Type"@) == Some(content_type) && header_value(
            q.headers,
            "Authorization"@,
        ) == Some(bearer(cfg.key)),
{
    reveal_strlit("Content-Type");
    reveal_strlit("Authorization");
    assert("Content-Type"@.len() != "Authorization"@.len());
    let all = upload_request(Some(cfg), path, Some(content_type), body)->Ok_0.headers;
    assert(all.last() == ("Content-Type"@, content_type));
    assert(all.drop_last().last() == ("Authorization"@, bearer(cfg.key)));
    reveal_with_fuel(header_value, 3);
}

/// A request without a body is a `GET`, and no `GET` carries one.
pub proof fn law_get_has_no_body(
    url: Seq<char>,
    auth: Option<Seq<char>>,
    extra_headers: Seq<(Seq<char>, Seq<char>)>,
    body: Seq<u8>,
    method: Method,
)
    ensures
        upstream_request(url, auth, extra_headers, body, method).body is None <==> method
            == Method::Get,
        method == Method::Post ==> upstream_request(url, auth, extra_headers, body, method).body
            == Some(body),
{
}

/// An upstream that is not configured gets no request, and the reply to a caller is
/// the same whichever upstream it is and whatever was asked of it.
pub proof fn law_unconfigured_upstream_is_refused(
    env: Env,
    provider: Provider,
    path: Seq<char>,
    body: Seq<u8>,
)
    requires
        upstream_cfg(env, provider) is None,
    ensures
        direct_request(upstream_cfg(env, provider), path, body) == Err::<RequestView, ReplyView>(
            error_reply(502, UNCONFIGURED@),
        ),
{
}

/// The headers of a request are told apart by their names.
proof fn lemma_header_names()
    ensures
        "Host"@.len() == 4,
        "Content-Type"@.len() == 12,
        "Authorization"@.len() == 13,
{
    reveal_strlit("Content-Type");
    reveal_strlit("Authorization");
    reveal_strlit("Host");
}

/// A request under a key goes to the address that is meant, by `POST`, with the body that
/// is meant, as JSON, and with the key behind the word `Bearer`.
pub proof fn law_keys_are_sent_as_bearers(url: Seq<char>, key: Seq<char>, body: Seq<u8>)
    ensures
        keyed_post(url, key, body).url == url,
        keyed_post(url, key, body).method == Method::Post,
        keyed_post(url, key, body).body == Some(body),
        keyed_post(url, key, body).headers.len() == 2,
        header_value(keyed_post(url, key, body).headers, "Authorization"@) == Some(
            "Bearer "@ + key,
        ),
        header_value(keyed_post(url, key, body).headers, "Content-Type"@) == Some(
            "application/json"@,
        ),
{
    lemma_header_names();
    let all = keyed_post(url, key, body).headers;
    assert(all.last() == ("Authorization"@, bearer(key)));
    assert(all.drop_last().last() == ("Content-Type"@, "application/json"@));
    reveal_with_fuel(header_value, 3);
}

/// A chat with a fixed key goes to the path for chats below the place of the upstream, with
/// a host named only where one is to be named.
pub proof fn law_direct_chats_go_below_their_place(
    base: Seq<char>,
    key: Seq<char>,
    host: Option<Seq<char>>,
    body: Seq<u8>,
)
    ensures
        direct_chat(base, key, host, body).url == base + "/chat/completions"@,
        direct_chat(base, key, host, body).method == Method::Post,
        direct_chat(base, key, host, body).body == Some(body),
        header_value(direct_chat(base, key, host, body).headers, "Authorization"@) == Some(
            "Bearer "@ + key,
        ),
        header_value(direct_chat(base, key, host, body).headers, "Content-Type"@) == Some(
            "application/json"@,
        ),
        header_value(direct_chat(base, key, host, body).headers, "Host"@) == host,
{
    lemma_header_names();
    let all = direct_chat(base, key, host, body).headers;
    let two = seq![("Content-Type"@, "application/json"@), ("Authorization"@, bearer(key))];
    if let Some(h) = host {
        assert(all.last() == ("Host"@, h));
        assert(all.drop_last() =~= two);
    } else {
        assert(all =~= two);
    }
    assert(two.last() == ("Authorization"@, bearer(key)));
    assert(two.drop_last().last() == ("Content-Type"@, "application/json"@));
    reveal_with_fuel(header_value, 4);
}

/// What is handed to a configured upstream goes to the path that is meant below its place,
/// under its key, unchanged; what is meant for any other is answered with a 502.
pub proof fn law_direct_requests_go_below_their_place(
    cfg: ProviderCfgView,
    path: Seq<char>,
    body: Seq<u8>,
)
    ensures
        direct_request(Some(cfg), path, body) matches Ok(q) && q.url == cfg.base + path && q.method
            == Method::Post && q.body == Some(body) && header_value(q.headers, "Authorization"@)
            == Some("Bearer "@ + cfg.key) && header_value(q.headers, "Content-Type"@) == Some(
            "application/json"@,
        ),
        direct_request(None, path, body) == Err::<RequestView, ReplyView>(
            error_reply(502, "该模型的上游通道暂不可用，请稍后重试"@),
        ),
        upload_request(None, path, None, body) == Err::<RequestView, ReplyView>(
            error_reply(502, "该模型的上游通道暂不可用，请稍后重试"@),
        ),
{
    law_keys_are_sent_as_bearers(cfg.base + path, cfg.key, body);
}

/// A caller is told of an upstream that cannot be reached in the same words everywhere.
pub proof fn law_unreachable_upstreams_are_told()
    ensures
        UNREACHABLE@ == "Bad Gateway: upstream unreachable"@,
{
}

} // verus!
