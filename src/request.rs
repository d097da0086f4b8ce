use vstd::prelude::*;
use vstd::string::*;
use crate::error::Error;
use crate::params::{ParamView, Params, check_field_clash, first_clash, has_name, without_names};
use crate::scope::{Scope, scope_url};
use crate::template::{
    expand_one, expand_path, expand_path_exec, lemma_expanded_value_recovered, no_brace, path_value, push_query,
    query_pair, query_string, reserved_token, with_query,
};
use crate::pct::pct_encode;
use vstd::utf8::encode_utf8;

verus! {

/// The HTTP method of an operation.
#[derive(PartialEq, Eq, Structural, Clone, Copy, Debug)]
pub enum HttpMethod {
    Get,
    Post,
    Patch,
    Delete,
}

/// What a call is about to do, as handed to the observer when it begins.
#[derive(Debug)]
pub struct MethodInfo {
    pub id: String,
    pub http_method: HttpMethod,
}

/// One REST call before it is sent: the operation, its URL template, its parameters and the
/// scopes that its token must carry.
#[derive(Clone, Debug)]
pub struct RequestSpec {
    /// The operation's identifier, such as `chromemanagement.customers.apps.android.get`.
    pub id: String,
    pub method: HttpMethod,
    /// The URL below the base URL, with `{+name}` or `{name}` tokens for path parameters.
    pub template: String,
    /// The parameters that the template's tokens take, in order of expansion.
    pub path_params: Vec<String>,
    /// Every name that the operation sets itself; no additional parameter may have one.
    pub known: Vec<String>,
    /// The operation's own parameters, path parameters first.
    pub params: Params,
    /// Parameters set by name by the caller.
    pub additional: Params,
    /// The scopes asked for; where there are none, the default one, unless `unscoped`.
    pub scopes: Vec<String>,
    pub default_scope: Scope,
    /// Whether a call without scopes goes without a token (an API key stands in for it).
    pub unscoped: bool,
}

/// A call ready to be sent.
#[derive(Debug)]
pub struct PreparedRequest {
    pub info: MethodInfo,
    pub url: String,
    /// The scopes that the token must carry; empty where the call goes without one.
    pub scopes: Vec<String>,
}

pub open spec fn strings_view(v: Seq<String>) -> Seq<Seq<char>> {
    v.map_values(|s: String| s@)
}

/// The pair that asks the server for JSON.
pub open spec fn alt_json() -> ParamView {
    ("alt"@, "json"@)
}

/// Every parameter of a call, in the order in which they are serialized before path parameters
/// are taken out: its own, then the additional ones, then `alt=json`.
pub open spec fn all_params(r: RequestSpec) -> Seq<ParamView> {
    r.params@ + r.additional@ + seq![alt_json()]
}

/// The URL of a call on `base`: the template expanded, then the parameters that no token took
/// as a query string.
pub open spec fn request_url(base: Seq<char>, r: RequestSpec) -> Seq<char> {
    let names = strings_view(r.path_params@);
    with_query(
        expand_path(base + r.template@, names, all_params(r)),
        without_names(all_params(r), names),
    )
}

/// The scopes that a call's token carries.
pub open spec fn request_scopes(r: RequestSpec) -> Seq<Seq<char>> {
    if r.scopes@.len() > 0 {
        strings_view(r.scopes@)
    } else if r.unscoped {
        Seq::empty()
    } else {
        seq![scope_url(r.default_scope)]
    }
}

/// The additional parameter whose name the operation sets itself, if any.
pub open spec fn request_clash(r: RequestSpec) -> Option<Seq<char>> {
    first_clash(strings_view(r.known@), r.additional@)
}

proof fn lemma_first_clash_some(known: Seq<Seq<char>>, ps: Seq<ParamView>, i: int)
    requires
        0 <= i < known.len(),
        has_name(ps, known[i]),
    ensures
        first_clash(known, ps) is Some,
    decreases i,
{
    if i > 0 && !has_name(ps, known[0]) {
        lemma_first_clash_some(known.drop_first(), ps, i - 1);
    }
}

/// A request one of whose additional parameters has the name of one that the operation sets
/// itself is refused by `prepare` with `FieldClash`, before anything is sent.
pub proof fn lemma_clash_refused(r: RequestSpec, name: Seq<char>)
    requires
        strings_view(r.known@).contains(name),
        has_name(r.additional@, name),
    ensures
        request_clash(r) is Some,
{
    let i = choose|i: int| 0 <= i < strings_view(r.known@).len() && strings_view(r.known@)[i] == name;
    lemma_first_clash_some(strings_view(r.known@), r.additional@, i);
}

/// A request for one resource by name, such as `apps.android.get`, with no additional
/// parameter, prepared on a base URL without braces, goes to the base URL, then `v1/`, then the
/// name percent-encoded with `/` kept, then `?alt=json`.
pub proof fn lemma_get_by_name_url(base: Seq<char>, r: RequestSpec, name: Seq<char>)
    requires
        no_brace(base),
        r.template@ == "v1/{+name}"@,
        strings_view(r.path_params@) == seq!["name"@],
        r.params@ == seq![("name"@, name)],
        r.additional@.len() == 0,
    ensures
        request_url(base, r) == base + "v1/"@ + pct_encode(encode_utf8(name), true) + seq!['?'] + query_pair(alt_json()),
{
    reveal_strlit("v1/{+name}");
    reveal_strlit("v1/");
    reveal_strlit("name");
    reveal_strlit("alt");
    let key = "name"@;
    let all = all_params(r);
    assert(all =~= seq![(key, name), alt_json()]);
    let names = strings_view(r.path_params@);
    let p = base + "v1/"@;
    assert(no_brace(p)) by {
        assert forall|i: int| 0 <= i < p.len() implies p[i] != '{' by {
            if i >= base.len() {
                assert(p[i] == "v1/"@[i - base.len()]);
            }
        }
    }
    assert(base + r.template@ =~= p + reserved_token(key) + Seq::<char>::empty());
    assert(names.drop_last() =~= Seq::<Seq<char>>::empty());
    assert(names.last() == key);
    assert(expand_path(base + r.template@, names.drop_last(), all) == base + r.template@);
    assert(expand_path(base + r.template@, names, all) == expand_one(base + r.template@, key, all));
    assert(path_value(all, key) == name);
    lemma_expanded_value_recovered(p, Seq::<char>::empty(), key, all);
    assert(p + pct_encode(encode_utf8(name), true) + Seq::<char>::empty() =~= p + pct_encode(encode_utf8(name), true));
    assert("alt"@ != key) by {
        assert("alt"@.len() != key.len());
    }
    assert(all.drop_last() =~= seq![(key, name)]);
    assert(seq![(key, name)].drop_last() =~= Seq::<ParamView>::empty());
    assert(names.contains(key)) by {
        assert(names[0] == key);
    }
    assert(!names.contains("alt"@)) by {
        if names.contains("alt"@) {
            assert(names[0] == "alt"@);
        }
    }
    assert(seq![(key, name)].last().0 == key);
    assert(without_names(Seq::<ParamView>::empty(), names) == Seq::<ParamView>::empty());
    assert(without_names(seq![(key, name)], names) =~= Seq::<ParamView>::empty());
    assert(without_names(all, names) =~= seq![alt_json()]);
    assert(query_string(seq![alt_json()]) == query_pair(alt_json()));
}

/// The value of the `Authorization` header that carries `token`.
pub fn bearer(token: &str) -> (r: String)
    ensures
        r@ == "Bearer "@ + token@,
{
    let mut r = "Bearer ".to_owned();
    crate::text::push_str(&mut r, token);
    r
}

/// Turns a request into the URL and scopes to send it with, or refuses it, before anything is
/// sent, where an additional parameter has the name of one that the operation sets itself.
pub fn prepare(r: RequestSpec, base_url: &str) -> (res: Result<PreparedRequest, Error>)
    ensures
        match res {
            Ok(p) => {
                &&& request_clash(r) is None
                &&& p.url@ == request_url(base_url@, r)
                &&& strings_view(p.scopes@) == request_scopes(r)
                &&& p.info.id == r.id
                &&& p.info.http_method == r.method
            },
            Err(e) => match e {
                Error::FieldClash(f) => request_clash(r) == Some(f@),
                _ => false,
            },
        },
{
    proof {
        assert(strings_view(r.known@) == r.known@.map_values(|n: String| n@));
    }
    match check_field_clash(&r.known, &r.additional) {
        Err(f) => {
            return Err(Error::FieldClash(f));
        },
        Ok(()) => {},
    }
    let ghost given = r;
    let RequestSpec { id, method, template, path_params, known: _, params, additional, scopes, default_scope, unscoped } = r;
    let mut all = params;
    all.extend(&additional);
    all.push(String::from_str("alt"), String::from_str("json"));
    assert(all@ == all_params(given));
    let mut url = String::new();
    crate::text::push_str(&mut url, base_url);
    crate::text::push_str(&mut url, template.as_str());
    let mut url = expand_path_exec(url.as_str(), &path_params, &all);
    all.remove_params(&path_params);
    push_query(&mut url, &all);
    let scopes = if scopes.len() > 0 {
        scopes
    } else if unscoped {
        Vec::new()
    } else {
        let mut v: Vec<String> = Vec::new();
        v.push(String::from_str(default_scope.as_ref()));
        v
    };
    proof {
        if !unscoped && given.scopes@.len() == 0 {
            assert(strings_view(scopes@) =~= seq![scope_url(default_scope)]);
        }
        if unscoped && given.scopes@.len() == 0 {
            assert(strings_view(scopes@) =~= Seq::<Seq<char>>::empty());
        }
    }
    Ok(PreparedRequest { info: MethodInfo { id, http_method: method }, url, scopes })
}

} // verus!
