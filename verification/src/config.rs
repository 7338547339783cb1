//! Settings: the variables that a deployment sets, the upstreams that they
//! configure, and the keys that they let in.
use crate::catalog::Provider;
use crate::ip::{lemma_next_piece, lemma_one_piece};
use crate::text::{
    after, begins, first_piece, first_place, head, law_prefix_and_rest, law_sides_make_the_text,
    lemma_first_place, opt_string, opt_text, pieces, split, strip_prefix, texts, trim, trimmed,
};
use vstd::prelude::*;

verus! {

/// The value that stands in the sample settings for a key still to be filled in.
pub const PLACEHOLDER: &'static str = "REPLACE_WITH_REAL_KEY";

pub const NVIDIA_BASE_DEFAULT: &'static str = "https://integrate.api.nvidia.com";

pub const GITEE_BASE_DEFAULT: &'static str = "https://ai.gitee.com/v1";

pub const SILICONFLOW_BASE_DEFAULT: &'static str = "https://api.siliconflow.cn/v1";

pub const ZHIPU_BASE_DEFAULT: &'static str = "https://open.bigmodel.cn/api/paas/v4";

pub const SPARK_BASE_DEFAULT: &'static str = "https://spark-api-open.xf-yun.com/v1";

/// The names of all the variables that the gateway reads.
pub const VARIABLES: [&'static str; 14] = [
    "AUTH_MODE",
    "GATEWAY_KEYS",
    "NVIDIA_BASE",
    "NVIDIA_KEYS",
    "GITEE_BASE",
    "GITEE_KEY",
    "SILICONFLOW_BASE",
    "SILICONFLOW_KEY",
    "ZHIPU_BASE",
    "ZHIPU_KEY",
    "SPARK_BASE",
    "SPARK_KEY",
    "ACU_BASE",
    "ACU_KEY",
];

/// The variables of a deployment, each with its value. A variable that is not
/// set is not listed.
pub struct Env {
    pub vars: Vec<(String, String)>,
}

/// The first value that a list gives to a name.
pub open spec fn listed(vars: Seq<(String, String)>, name: Seq<char>) -> Option<Seq<char>>
    decreases vars.len(),
{
    if vars.len() == 0 {
        None
    } else if vars[0].0@ == name {
        Some(vars[0].1@)
    } else {
        listed(vars.skip(1), name)
    }
}

impl Env {
    /// The value of a variable, where it is set.
    pub open spec fn value(self, name: Seq<char>) -> Option<Seq<char>> {
        listed(self.vars@, name)
    }

    /// Looks up the value of a variable.
    pub fn var(&self, name: &str) -> (r: Option<&str>)
        ensures
            opt_text(r) == self.value(name@),
    {
        let mut i: usize = 0;
        assert(self.vars@.skip(0) =~= self.vars@);
        while i < self.vars.len()
            invariant
                i <= self.vars@.len(),
                listed(self.vars@, name@) == listed(self.vars@.skip(i as int), name@),
            decreases self.vars@.len() - i,
        {
            assert(self.vars@.skip(i as int)[0] == self.vars@[i as int]);
            assert(self.vars@.skip(i as int).skip(1) =~= self.vars@.skip(i + 1));
            if *self.vars[i].0.as_str() == *name {
                return Some(self.vars[i].1.as_str());
            }
            i += 1;
        }
        None
    }
}

/// What a variable configures: its value without the white space around it,
/// unless that is empty or the placeholder.
pub open spec fn configured(value: Option<Seq<char>>) -> Option<Seq<char>> {
    match value {
        Some(s) => if trimmed(s).len() == 0 || trimmed(s) == PLACEHOLDER@ {
            None
        } else {
            Some(trimmed(s))
        },
        None => None,
    }
}

/// What a variable configures, or a default.
pub open spec fn setting(env: Env, name: Seq<char>, default: Seq<char>) -> Seq<char> {
    match configured(env.value(name)) {
        Some(s) => s,
        None => default,
    }
}

/// Reads a variable, with a default for one that is not configured.
pub fn env_or(env: &Env, name: &str, default: &str) -> (r: String)
    ensures
        r@ == setting(*env, name@, default@),
{
    match env.var(name) {
        Some(v) => {
            let t = trim(v);
            if t.is_empty() || *t == *PLACEHOLDER {
                default.to_string()
            } else {
                t.to_string()
            }
        },
        None => default.to_string(),
    }
}

// ---------------------------------------------------------------------------
// Upstreams
// ---------------------------------------------------------------------------
/// Where an upstream is, and the key that it takes.
pub struct ProviderCfg {
    pub base: String,
    pub key: String,
}

/// Where an upstream is, and the key that it takes.
pub struct ProviderCfgView {
    pub base: Seq<char>,
    pub key: Seq<char>,
}

impl View for ProviderCfg {
    type V = ProviderCfgView;

    open spec fn view(&self) -> ProviderCfgView {
        ProviderCfgView { base: self.base@, key: self.key@ }
    }
}

/// The variable for the place of an upstream, the default for it, and the
/// variable for its key. Workers AI has none of them.
pub open spec fn provider_vars(provider: Provider) -> Option<(Seq<char>, Seq<char>, Seq<char>)> {
    match provider {
        Provider::Nvidia => Some(("NVIDIA_BASE"@, NVIDIA_BASE_DEFAULT@, "NVIDIA_KEYS"@)),
        Provider::Gitee => Some(("GITEE_BASE"@, GITEE_BASE_DEFAULT@, "GITEE_KEY"@)),
        Provider::Siliconflow => Some(
            ("SILICONFLOW_BASE"@, SILICONFLOW_BASE_DEFAULT@, "SILICONFLOW_KEY"@),
        ),
        Provider::Zhipu => Some(("ZHIPU_BASE"@, ZHIPU_BASE_DEFAULT@, "ZHIPU_KEY"@)),
        Provider::Spark => Some(("SPARK_BASE"@, SPARK_BASE_DEFAULT@, "SPARK_KEY"@)),
        Provider::Acu => Some(("ACU_BASE"@, ""@, "ACU_KEY"@)),
        Provider::WorkersAi => None,
        Provider::WorkersAiTts => None,
    }
}

/// The configuration of an upstream. Without a configured key there is none.
pub open spec fn upstream_cfg(env: Env, provider: Provider) -> Option<ProviderCfgView> {
    match provider_vars(provider) {
        Some((base_var, base_default, key_var)) => match configured(env.value(key_var)) {
            Some(key) => Some(
                ProviderCfgView { base: setting(env, base_var, base_default), key },
            ),
            None => None,
        },
        None => None,
    }
}

/// What an optional configuration says.
pub open spec fn opt_cfg(cfg: Option<ProviderCfg>) -> Option<ProviderCfgView> {
    match cfg {
        Some(c) => Some(c@),
        None => None,
    }
}

/// Reads the configuration of an upstream.
pub fn provider_cfg(env: &Env, provider: Provider) -> (r: Option<ProviderCfg>)
    ensures
        opt_cfg(r) == upstream_cfg(*env, provider),
{
    let (base_var, base_default, key_var) = match provider {
        Provider::Nvidia => ("NVIDIA_BASE", NVIDIA_BASE_DEFAULT, "NVIDIA_KEYS"),
        Provider::Gitee => ("GITEE_BASE", GITEE_BASE_DEFAULT, "GITEE_KEY"),
        Provider::Siliconflow => ("SILICONFLOW_BASE", SILICONFLOW_BASE_DEFAULT, "SILICONFLOW_KEY"),
        Provider::Zhipu => ("ZHIPU_BASE", ZHIPU_BASE_DEFAULT, "ZHIPU_KEY"),
        Provider::Spark => ("SPARK_BASE", SPARK_BASE_DEFAULT, "SPARK_KEY"),
        Provider::Acu => ("ACU_BASE", "", "ACU_KEY"),
        Provider::WorkersAi => return None,
        Provider::WorkersAiTts => return None,
    };
    proof {
        reveal_strlit("");
    }
    let base = env_or(env, base_var, base_default);
    let key = env_or(env, key_var, "");
    if key.as_str().is_empty() {
        return None;
    }
    Some(ProviderCfg { base, key })
}

/// An upstream whose key is not set, is blank or is still the placeholder is not
/// configured.
pub proof fn law_upstream_needs_a_key(env: Env, provider: Provider)
    ensures
        match provider_vars(provider) {
            Some((_, _, key_var)) => upstream_cfg(env, provider) is None <==> match env.value(
                key_var,
            ) {
                Some(key) => trimmed(key).len() == 0 || trimmed(key) == PLACEHOLDER@,
                None => true,
            },
            None => upstream_cfg(env, provider) is None,
        },
{
}

/// An upstream is where its variable says, and at the default place where that is not
/// set, is blank or is still the placeholder.
pub proof fn law_places_have_defaults(env: Env, name: Seq<char>, default: Seq<char>)
    ensures
        env.value(name) is None ==> setting(env, name, default) == default,
        env.value(name) matches Some(place) ==> setting(env, name, default) == (if trimmed(
            place,
        ).len() == 0 || trimmed(place) == PLACEHOLDER@ {
            default
        } else {
            trimmed(place)
        }),
{
}

/// The host in a web address: what stands between the scheme and the next slash.
pub open spec fn host(url: Seq<char>) -> Option<Seq<char>> {
    let rest = match after(url, "https://"@) {
        Some(r) => Some(r),
        None => after(url, "http://"@),
    };
    match rest {
        Some(r) => if first_piece(r, '/').len() > 0 {
            Some(first_piece(r, '/'))
        } else {
            None
        },
        None => None,
    }
}

/// Reads the host out of a web address.
pub fn url_host(url: &str) -> (r: Option<&str>)
    ensures
        opt_text(r) == host(url@),
{
    let rest = match strip_prefix(url, "https://") {
        Some(r) => r,
        None => match strip_prefix(url, "http://") {
            Some(r) => r,
            None => return None,
        },
    };
    let h = head(rest, '/');
    if h.is_empty() {
        None
    } else {
        Some(h)
    }
}

// ---------------------------------------------------------------------------
// Keys
// ---------------------------------------------------------------------------
/// Whom the gateway lets in.
#[derive(Clone, Copy, Debug, PartialEq, Eq, Structural)]
pub enum AuthMode {
    /// Every caller who gives a key.
    Open,
    /// The callers whose key is listed.
    Key,
}

/// The mode that a deployment sets: `key` where the variable says just that,
/// else open.
pub open spec fn mode(env: Env) -> AuthMode {
    if env.value("AUTH_MODE"@) == Some("key"@) {
        AuthMode::Key
    } else {
        AuthMode::Open
    }
}

/// Reads the mode that a deployment sets.
pub fn auth_mode(env: &Env) -> (r: AuthMode)
    ensures
        r == mode(*env),
{
    match env.var("AUTH_MODE") {
        Some(v) => if *v == *"key" {
            AuthMode::Key
        } else {
            AuthMode::Open
        },
        None => AuthMode::Open,
    }
}

/// A key is one of those in a comma-separated list. White space around a listed
/// key does not count, and an empty one is no key.
pub open spec fn in_list(list: Seq<char>, key: Seq<char>) -> bool {
    exists|i: int|
        0 <= i < pieces(list, ',').len() && trimmed(#[trigger] pieces(list, ',')[i]).len() > 0
            && trimmed(pieces(list, ',')[i]) == key
}

/// The deployment lists a key.
pub open spec fn key_listed(env: Env, key: Seq<char>) -> bool {
    match env.value("GATEWAY_KEYS"@) {
        Some(list) => in_list(list, key),
        None => false,
    }
}

/// Tells whether the deployment lists a key.
pub fn key_valid(env: &Env, key: &str) -> (r: bool)
    ensures
        r == key_listed(*env, key@),
{
    let list = match env.var("GATEWAY_KEYS") {
        Some(v) => v,
        None => return false,
    };
    let keys = split(list, ',');
    let mut i: usize = 0;
    while i < keys.len()
        invariant
            i <= keys@.len(),
            env.value("GATEWAY_KEYS"@) == Some(list@),
            texts(keys@) == pieces(list@, ','),
            forall|j: int|
                0 <= j < i ==> !(trimmed(#[trigger] pieces(list@, ',')[j]).len() > 0 && trimmed(
                    pieces(list@, ',')[j],
                ) == key@),
        decreases keys@.len() - i,
    {
        let k = trim(keys[i].as_str());
        assert(texts(keys@)[i as int] == keys@[i as int]@);
        if !k.is_empty() && *k == *key {
            assert(trimmed(pieces(list@, ',')[i as int]) == key@);
            return true;
        }
        i += 1;
    }
    false
}

/// A key, unless it is empty when the white space around it is cut off.
pub open spec fn nonempty(key: Option<Seq<char>>) -> Option<Seq<char>> {
    match key {
        Some(k) => if trimmed(k).len() > 0 {
            Some(trimmed(k))
        } else {
            None
        },
        None => None,
    }
}

/// The key in an `Authorization` header: what follows the word `Bearer`, or the
/// word `bearer`.
pub open spec fn bearer_key(authorization: Seq<char>) -> Option<Seq<char>> {
    let a = trimmed(authorization);
    match after(a, "Bearer "@) {
        Some(k) => nonempty(Some(k)),
        None => nonempty(after(a, "bearer "@)),
    }
}

/// The key of a request: the one in its `Authorization` header, else the one in
/// its `x-api-key` header.
pub open spec fn request_key(
    authorization: Option<Seq<char>>,
    api_key: Option<Seq<char>>,
) -> Option<Seq<char>> {
    match authorization {
        Some(a) => match bearer_key(a) {
            Some(k) => Some(k),
            None => nonempty(api_key),
        },
        None => nonempty(api_key),
    }
}

/// Reads the key of a request out of its headers.
pub fn extract_key(authorization: Option<&str>, api_key: Option<&str>) -> (r: Option<String>)
    ensures
        opt_string(r) == request_key(opt_text(authorization), opt_text(api_key)),
{
    if let Some(auth) = authorization {
        let a = trim(auth);
        let given = match strip_prefix(a, "Bearer ") {
            Some(k) => Some(k),
            None => strip_prefix(a, "bearer "),
        };
        if let Some(k) = given {
            let k = trim(k);
            if !k.is_empty() {
                return Some(k.to_string());
            }
        }
    }
    if let Some(k) = api_key {
        let k = trim(k);
        if !k.is_empty() {
            return Some(k.to_string());
        }
    }
    None
}

// ---------------------------------------------------------------------------
// Laws
// ---------------------------------------------------------------------------
/// The value of a variable is the first that is listed under its name.
pub proof fn law_variables_are_found(env: Env, name: Seq<char>)
    ensures
        env.vars@.len() == 0 ==> env.value(name) is None,
        env.vars@.len() > 0 && env.vars@[0].0@ == name ==> env.value(name) == Some(env.vars@[0].1@),
        env.vars@.len() > 0 && env.vars@[0].0@ != name ==> env.value(name) == listed(
            env.vars@.skip(1),
            name,
        ),
{
}

/// A value counts without the white space around it, and not at all where nothing is left or
/// where it is still the placeholder.
pub proof fn law_placeholders_do_not_count(value: Seq<char>)
    ensures
        configured(None) is None,
        trimmed(value).len() == 0 ==> configured(Some(value)) is None,
        trimmed(value) == "REPLACE_WITH_REAL_KEY"@ ==> configured(Some(value)) is None,
        trimmed(value).len() > 0 && trimmed(value) != "REPLACE_WITH_REAL_KEY"@ ==> configured(
            Some(value),
        ) == Some(trimmed(value)),
{
}

/// An upstream is configured by its own variables, with its own default place.
pub open spec fn configured_by(
    env: Env,
    provider: Provider,
    base_var: Seq<char>,
    default: Seq<char>,
    key_var: Seq<char>,
) -> bool {
    upstream_cfg(env, provider) == (match configured(env.value(key_var)) {
        Some(key) => Some(
            ProviderCfgView {
                base: match configured(env.value(base_var)) {
                    Some(place) => place,
                    None => default,
                },
                key,
            },
        ),
        None => None,
    })
}

/// Each upstream is configured by its own two variables and has its own default place; the
/// private one has no default, and Workers AI no configuration here.
pub proof fn law_upstreams_have_their_variables(env: Env)
    ensures
        configured_by(
            env,
            Provider::Nvidia,
            "NVIDIA_BASE"@,
            "https://integrate.api.nvidia.com"@,
            "NVIDIA_KEYS"@,
        ),
        configured_by(
            env,
            Provider::Gitee,
            "GITEE_BASE"@,
            "https://ai.gitee.com/v1"@,
            "GITEE_KEY"@,
        ),
        configured_by(
            env,
            Provider::Siliconflow,
            "SILICONFLOW_BASE"@,
            "https://api.siliconflow.cn/v1"@,
            "SILICONFLOW_KEY"@,
        ),
        configured_by(
            env,
            Provider::Zhipu,
            "ZHIPU_BASE"@,
            "https://open.bigmodel.cn/api/paas/v4"@,
            "ZHIPU_KEY"@,
        ),
        configured_by(
            env,
            Provider::Spark,
            "SPARK_BASE"@,
            "https://spark-api-open.xf-yun.com/v1"@,
            "SPARK_KEY"@,
        ),
        configured_by(env, Provider::Acu, "ACU_BASE"@, ""@, "ACU_KEY"@),
        upstream_cfg(env, Provider::WorkersAi) is None,
        upstream_cfg(env, Provider::WorkersAiTts) is None,
{
}

/// The host of a web address stands between the scheme and the next slash. An address
/// without one of the two schemes, or with nothing there, has none.
pub proof fn law_hosts_stand_in_addresses(name: Seq<char>, rest: Seq<char>, url: Seq<char>)
    requires
        name.len() > 0,
        !name.contains('/'),
    ensures
        host("https://"@ + name) == Some(name),
        host("https://"@ + (name + seq!['/'] + rest)) == Some(name),
        host("http://"@ + name) == Some(name),
        host("http://"@ + (name + seq!['/'] + rest)) == Some(name),
        host("https://"@ + (seq!['/'] + rest)) is None,
        !begins(url, "https://"@) && !begins(url, "http://"@) ==> host(url) is None,
{
    let whole = name + seq!['/'] + rest;
    let none = seq!['/'] + rest;
    law_prefix_and_rest(url, "https://"@, name);
    law_prefix_and_rest(url, "https://"@, whole);
    law_prefix_and_rest(url, "https://"@, none);
    law_prefix_and_rest(url, "http://"@, name);
    law_prefix_and_rest(url, "http://"@, whole);
    lemma_schemes_differ(name);
    lemma_schemes_differ(whole);
    law_sides_make_the_text(name, '/');
    lemma_first_place(whole, '/');
    let k = first_place(whole, '/');
    assert(whole[name.len() as int] == '/');
    assert(whole.contains('/'));
    assert(k == name.len()) by {
        if k < name.len() {
            assert(whole[k] == name[k]);
        }
    }
    assert(whole.take(k) =~= name);
    assert(none[0] == '/');
    assert(first_piece(none, '/').len() == 0);
}

/// An address with one scheme does not begin with the other.
proof fn lemma_schemes_differ(rest: Seq<char>)
    ensures
        after("http://"@ + rest, "https://"@) is None,
{
    reveal_strlit("https://");
    reveal_strlit("http://");
    let url = "http://"@ + rest;
    if begins(url, "https://"@) {
        assert(url.take(8)[4] == url[4]);
        assert(url[4] == "http://"@[4]);
    }
}

/// A list of keys lets in what either side of a comma lets in, and a single entry lets in
/// itself without the white space around it, unless that is nothing.
pub proof fn law_lists_of_keys(a: Seq<char>, b: Seq<char>, key: Seq<char>, entry: Seq<char>)
    requires
        !b.contains(','),
        !entry.contains(','),
    ensures
        in_list(a + seq![','] + b, key) <==> in_list(a, key) || in_list(b, key),
        in_list(entry, key) <==> trimmed(entry).len() > 0 && key == trimmed(entry),
{
    lemma_next_piece(a, ',', b);
    lemma_one_piece(b, ',');
    lemma_one_piece(entry, ',');
    let left = pieces(a, ',');
    let all = pieces(a + seq![','] + b, ',');
    assert(all == left.push(b));
    assert(pieces(b, ',')[0] == b);
    assert(pieces(entry, ',')[0] == entry);
    if in_list(a, key) {
        let i = choose|i: int|
            0 <= i < left.len() && trimmed(#[trigger] left[i]).len() > 0 && trimmed(left[i]) == key;
        assert(all[i] == left[i]);
    }
    if in_list(b, key) {
        assert(all[left.len() as int] == b);
    }
    if in_list(a + seq![','] + b, key) {
        let i = choose|i: int|
            0 <= i < all.len() && trimmed(#[trigger] all[i]).len() > 0 && trimmed(all[i]) == key;
        if i < left.len() {
            assert(left[i] == all[i]);
        }
    }
}

/// A key in either form of the `Authorization` header counts before one in the other header,
/// and white space around a key does not count.
pub proof fn law_keys_are_found(
    authorization: Seq<char>,
    rest: Seq<char>,
    api_key: Option<Seq<char>>,
)
    ensures
        trimmed(authorization) == "Bearer "@ + rest && trimmed(rest).len() > 0 ==> request_key(
            Some(authorization),
            api_key,
        ) == Some(trimmed(rest)),
        trimmed(authorization) == "bearer "@ + rest && trimmed(rest).len() > 0 ==> request_key(
            Some(authorization),
            api_key,
        ) == Some(trimmed(rest)),
        !begins(trimmed(authorization), "Bearer "@) && !begins(trimmed(authorization), "bearer "@)
            ==> request_key(Some(authorization), api_key) == request_key(None, api_key),
        api_key matches Some(k) ==> request_key(None, api_key) == (if trimmed(k).len() > 0 {
            Some(trimmed(k))
        } else {
            None
        }),
        request_key(None, None) is None,
{
    law_prefix_and_rest(authorization, "Bearer "@, rest);
    law_prefix_and_rest(authorization, "bearer "@, rest);
    reveal_strlit("Bearer ");
    reveal_strlit("bearer ");
    let small = "bearer "@ + rest;
    if begins(small, "Bearer "@) {
        assert(small.take(7)[0] == small[0]);
        assert(small[0] == "bearer "@[0]);
    }
}

/// Only the exact word closes the gateway.
pub proof fn law_only_one_word_closes(env: Env)
    ensures
        mode(env) == AuthMode::Key <==> env.value("AUTH_MODE"@) == Some("key"@),
        mode(env) == AuthMode::Open <==> env.value("AUTH_MODE"@) != Some("key"@),
{
}

/// A name is among those of the variables that the gateway reads.
pub open spec fn is_read(name: Seq<char>) -> bool {
    exists|i: int| 0 <= i < VARIABLES@.len() && (#[trigger] VARIABLES@[i])@ == name
}

/// Every variable that has a part in a decision is read.
pub proof fn law_variables_are_read()
    ensures
        is_read("AUTH_MODE"@),
        is_read("GATEWAY_KEYS"@),
        is_read("NVIDIA_BASE"@),
        is_read("NVIDIA_KEYS"@),
        is_read("GITEE_BASE"@),
        is_read("GITEE_KEY"@),
        is_read("SILICONFLOW_BASE"@),
        is_read("SILICONFLOW_KEY"@),
        is_read("ZHIPU_BASE"@),
        is_read("ZHIPU_KEY"@),
        is_read("SPARK_BASE"@),
        is_read("SPARK_KEY"@),
        is_read("ACU_BASE"@),
        is_read("ACU_KEY"@),
{
    assert(VARIABLES@[0]@ == "AUTH_MODE"@);
    assert(VARIABLES@[1]@ == "GATEWAY_KEYS"@);
    assert(VARIABLES@[2]@ == "NVIDIA_BASE"@);
    assert(VARIABLES@[3]@ == "NVIDIA_KEYS"@);
    assert(VARIABLES@[4]@ == "GITEE_BASE"@);
    assert(VARIABLES@[5]@ == "GITEE_KEY"@);
    assert(VARIABLES@[6]@ == "SILICONFLOW_BASE"@);
    assert(VARIABLES@[7]@ == "SILICONFLOW_KEY"@);
    assert(VARIABLES@[8]@ == "ZHIPU_BASE"@);
    assert(VARIABLES@[9]@ == "ZHIPU_KEY"@);
    assert(VARIABLES@[10]@ == "SPARK_BASE"@);
    assert(VARIABLES@[11]@ == "SPARK_KEY"@);
    assert(VARIABLES@[12]@ == "ACU_BASE"@);
    assert(VARIABLES@[13]@ == "ACU_KEY"@);
}

} // verus!
