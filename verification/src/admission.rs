//! Admission: which requests are let in.
use crate::config::{
    AuthMode, Env, auth_mode, extract_key, in_list, key_listed, key_valid, mode, request_key,
};
use crate::reply::{Reply, ReplyView, err_invalid_key, invalid_key_reply};
use crate::text::{after, law_trimming_is_done_once, opt_text, trimmed};
use vstd::prelude::*;

verus! {

/// What becomes of a request on its arrival.
pub enum Admission {
    /// A browser asks what it may send: the reply is empty, with the headers that
    /// every reply carries.
    Preflight,
    /// The request is answered with an error.
    Refused(Reply),
    /// The request goes on to its endpoint.
    Admitted,
}

/// What becomes of a request on its arrival.
pub enum AdmissionView {
    Preflight,
    Refused(ReplyView),
    Admitted,
}

impl View for Admission {
    type V = AdmissionView;

    open spec fn view(&self) -> AdmissionView {
        match self {
            Admission::Preflight => AdmissionView::Preflight,
            Admission::Refused(r) => AdmissionView::Refused(r@),
            Admission::Admitted => AdmissionView::Admitted,
        }
    }
}

/// The paths that are open to everyone: the sign of life, and the list of models.
pub open spec fn public_path(path: Seq<char>) -> bool {
    path == "/"@ || path == "/v1/models"@
}

/// A request with the given key may use the gateway.
pub open spec fn key_admitted(env: Env, key: Option<Seq<char>>) -> bool {
    match key {
        Some(k) => mode(env) == AuthMode::Open || key_listed(env, k),
        None => false,
    }
}

/// What becomes of a request on its arrival.
pub open spec fn admission(
    env: Env,
    options: bool,
    path: Seq<char>,
    key: Option<Seq<char>>,
) -> AdmissionView {
    if options {
        AdmissionView::Preflight
    } else if public_path(path) || key_admitted(env, key) {
        AdmissionView::Admitted
    } else {
        AdmissionView::Refused(invalid_key_reply())
    }
}

/// Decides what becomes of a request: `options` says that its method is
/// `OPTIONS`, and the two headers are those that can hold a key.
pub fn screen(
    env: &Env,
    options: bool,
    path: &str,
    authorization: Option<&str>,
    api_key: Option<&str>,
) -> (r: Admission)
    ensures
        r@ == admission(
            *env,
            options,
            path@,
            request_key(opt_text(authorization), opt_text(api_key)),
        ),
{
    if options {
        return Admission::Preflight;
    }
    if *path == *"/" || *path == *"/v1/models" {
        return Admission::Admitted;
    }
    match extract_key(authorization, api_key) {
        Some(k) => {
            let ok = match auth_mode(env) {
                AuthMode::Open => true,
                AuthMode::Key => key_valid(env, k.as_str()),
            };
            if ok {
                Admission::Admitted
            } else {
                Admission::Refused(err_invalid_key())
            }
        },
        None => Admission::Refused(err_invalid_key()),
    }
}

// ---------------------------------------------------------------------------
// Laws
// ---------------------------------------------------------------------------
/// The open paths ask for no key, whatever the deployment sets.
pub proof fn law_public_paths_need_no_key(env: Env, path: Seq<char>, key: Option<Seq<char>>)
    requires
        public_path(path),
    ensures
        admission(env, false, path, key) == AdmissionView::Admitted,
{
}

/// On every other path a request without a key is refused with 401, in either mode.
pub proof fn law_no_key_is_refused(env: Env, path: Seq<char>)
    requires
        !public_path(path),
    ensures
        admission(env, false, path, None) == AdmissionView::Refused(invalid_key_reply()),
        invalid_key_reply().status == 401,
{
}

/// Unless the deployment sets the mode to `key`, whether it sets another mode or
/// none, any key lets a request in.
pub proof fn law_open_mode_takes_any_key(env: Env, path: Seq<char>, key: Seq<char>)
    requires
        env.value("AUTH_MODE"@) != Some("key"@),
    ensures
        admission(env, false, path, Some(key)) == AdmissionView::Admitted,
{
}

/// Where the deployment sets the mode to `key`, a request on a path that is not
/// open is let in exactly when its key is listed, and is refused with 401 otherwise.
pub proof fn law_key_mode_takes_listed_keys_alone(env: Env, path: Seq<char>, key: Seq<char>)
    requires
        env.value("AUTH_MODE"@) == Some("key"@),
        !public_path(path),
    ensures
        admission(env, false, path, Some(key)) == AdmissionView::Admitted <==> key_listed(env, key),
        !key_listed(env, key) ==> admission(env, false, path, Some(key))
            == AdmissionView::Refused(invalid_key_reply()),
{
}

/// A deployment that sets the mode to `key` and lists no keys lets nobody in.
pub proof fn law_no_list_lets_nobody_in(env: Env, path: Seq<char>, key: Option<Seq<char>>)
    requires
        env.value("AUTH_MODE"@) == Some("key"@),
        env.value("GATEWAY_KEYS"@) is None,
        !public_path(path),
    ensures
        admission(env, false, path, key) == AdmissionView::Refused(invalid_key_reply()),
{
}

/// The empty key is never listed.
pub proof fn law_empty_key_is_never_listed(env: Env, list: Seq<char>)
    ensures
        !in_list(list, Seq::empty()),
        !key_listed(env, Seq::empty()),
{
}

/// The key of a request is never empty, and has no white space at either end.
pub proof fn law_request_key_is_never_empty(
    authorization: Option<Seq<char>>,
    api_key: Option<Seq<char>>,
)
    ensures
        request_key(authorization, api_key) matches Some(k) ==> k.len() > 0 && trimmed(k) == k,
{
    if let Some(a) = authorization {
        if let Some(k) = after(trimmed(a), "Bearer "@) {
            law_trimming_is_done_once(k);
        }
        if let Some(k) = after(trimmed(a), "bearer "@) {
            law_trimming_is_done_once(k);
        }
    }
    if let Some(k) = api_key {
        law_trimming_is_done_once(k);
    }
}

/// The root and the list of models are open, a browser's question about what it may send is
/// answered everywhere, and on every other path a caller needs a key that is let in.
pub proof fn law_paths_are_guarded(env: Env, path: Seq<char>, key: Option<Seq<char>>)
    ensures
        admission(env, true, path, key) == AdmissionView::Preflight,
        admission(env, false, "/"@, key) == AdmissionView::Admitted,
        admission(env, false, "/v1/models"@, key) == AdmissionView::Admitted,
        path != "/"@ && path != "/v1/models"@ ==> admission(env, false, path, key) == (match key {
            Some(k) => if env.value("AUTH_MODE"@) != Some("key"@) || (env.value("GATEWAY_KEYS"@)
                matches Some(list) && in_list(list, k)) {
                AdmissionView::Admitted
            } else {
                AdmissionView::Refused(invalid_key_reply())
            },
            None => AdmissionView::Refused(invalid_key_reply()),
        }),
{
}

} // verus!
