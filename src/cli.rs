use vstd::prelude::*;
use vstd::string::*;
use crate::params::{ParamView, Params, first_value, set_value};
use crate::request::strings_view;
use crate::text::{chars_of, push_chars};

verus! {

/// The position of the first `c` in `s`.
pub open spec fn first_index(s: Seq<char>, c: char) -> Option<int>
    decreases s.len(),
{
    if s.len() == 0 {
        None
    } else if s[0] == c {
        Some(0)
    } else {
        match first_index(s.drop_first(), c) {
            Some(i) => Some(i + 1),
            None => None,
        }
    }
}

/// A `key=value` argument split at its first `=`: the key, and the value where there is an `=`.
pub open spec fn split_kv_spec(s: Seq<char>) -> (Seq<char>, Option<Seq<char>>) {
    match first_index(s, '=') {
        Some(i) => (s.subrange(0, i), Some(s.subrange(i + 1, s.len() as int))),
        None => (s, None),
    }
}

proof fn lemma_first_index_at(s: Seq<char>, c: char, i: int)
    requires
        0 <= i < s.len(),
        s[i] == c,
        forall|j: int| 0 <= j < i ==> s[j] != c,
    ensures
        first_index(s, c) == Some(i),
    decreases i,
{
    if i > 0 {
        lemma_first_index_at(s.drop_first(), c, i - 1);
    }
}

proof fn lemma_first_index_none(s: Seq<char>, c: char)
    requires
        forall|j: int| 0 <= j < s.len() ==> s[j] != c,
    ensures
        first_index(s, c) is None,
    decreases s.len(),
{
    if s.len() > 0 {
        lemma_first_index_none(s.drop_first(), c);
    }
}

/// Splits a `key=value` argument at its first `=`. Without an `=`, the whole argument is the key
/// and there is no value.
pub fn split_kv(kv: &str) -> (r: (String, Option<String>))
    ensures
        r.0@ == split_kv_spec(kv@).0,
        match r.1 {
            Some(v) => split_kv_spec(kv@).1 == Some(v@),
            None => split_kv_spec(kv@).1 is None,
        },
{
    let cs = chars_of(kv);
    let mut i: usize = 0;
    while i < cs.len()
        invariant
            cs@ == kv@,
            i <= cs@.len(),
            forall|j: int| 0 <= j < i ==> cs@[j] != '=',
        decreases cs@.len() - i,
    {
        if cs[i] == '=' {
            proof {
                lemma_first_index_at(kv@, '=', i as int);
            }
            let mut key = String::new();
            push_chars(&mut key, &cs, 0, i);
            let mut value = String::new();
            push_chars(&mut value, &cs, i + 1, cs.len());
            assert(key@ =~= kv@.subrange(0, i as int));
            assert(value@ =~= kv@.subrange(i + 1, kv@.len() as int));
            return (key, Some(value));
        }
        i = i + 1;
    }
    proof {
        lemma_first_index_none(kv@, '=');
    }
    (kv.to_owned(), None)
}

/// The parameters that every operation accepts, by their command-line names.
pub open spec fn global_param_names() -> Seq<Seq<char>> {
    seq![
        "$-xgafv"@,
        "access-token"@,
        "alt"@,
        "callback"@,
        "fields"@,
        "key"@,
        "oauth-token"@,
        "pretty-print"@,
        "quota-user"@,
        "upload-type"@,
        "upload-protocol"@,
    ]
}

/// The global parameters whose name in a request differs from their command-line name.
pub open spec fn global_param_renames() -> Seq<ParamView> {
    seq![
        ("$-xgafv"@, "$.xgafv"@),
        ("access-token"@, "access_token"@),
        ("oauth-token"@, "oauth_token"@),
        ("pretty-print"@, "prettyPrint"@),
        ("quota-user"@, "quotaUser"@),
        ("upload-type"@, "uploadType"@),
        ("upload-protocol"@, "upload_protocol"@),
    ]
}

/// Where a command-line parameter goes.
#[derive(Clone, Debug, PartialEq, Eq)]
pub enum ParamRoute {
    /// To the operation's own setter of that name.
    Method,
    /// To the request, by name, under this name.
    Global(String),
    /// Nowhere: no such parameter.
    Unknown,
}

/// The name that a global parameter has in a request.
pub open spec fn request_name(key: Seq<char>) -> Seq<char> {
    match first_value(global_param_renames(), key) {
        Some(n) => n,
        None => key,
    }
}

/// The global parameters, by their command-line names.
pub fn global_params() -> (r: Vec<String>)
    ensures
        strings_view(r@) == global_param_names(),
{
    let v = vec![
        "$-xgafv".to_owned(),
        "access-token".to_owned(),
        "alt".to_owned(),
        "callback".to_owned(),
        "fields".to_owned(),
        "key".to_owned(),
        "oauth-token".to_owned(),
        "pretty-print".to_owned(),
        "quota-user".to_owned(),
        "upload-type".to_owned(),
        "upload-protocol".to_owned(),
    ];
    assert(strings_view(v@) =~= global_param_names());
    v
}

/// The renamed global parameters: command-line name, then name in a request.
pub fn global_param_map() -> (r: Params)
    ensures
        r@ == global_param_renames(),
{
    let mut m = Params::new();
    m.push("$-xgafv".to_owned(), "$.xgafv".to_owned());
    m.push("access-token".to_owned(), "access_token".to_owned());
    m.push("oauth-token".to_owned(), "oauth_token".to_owned());
    m.push("pretty-print".to_owned(), "prettyPrint".to_owned());
    m.push("quota-user".to_owned(), "quotaUser".to_owned());
    m.push("upload-type".to_owned(), "uploadType".to_owned());
    m.push("upload-protocol".to_owned(), "upload_protocol".to_owned());
    assert(m@ =~= global_param_renames());
    m
}

/// Whether `s` is one of `v`.
fn contains_string(v: &Vec<String>, s: &String) -> (r: bool)
    ensures
        r == strings_view(v@).contains(s@),
{
    let mut i: usize = 0;
    while i < v.len()
        invariant
            i <= v@.len(),
            forall|j: int| 0 <= j < i ==> #[trigger] v@[j]@ != s@,
        decreases v@.len() - i,
    {
        if v[i] == *s {
            assert(strings_view(v@)[i as int] == s@);
            return true;
        }
        i = i + 1;
    }
    assert(!strings_view(v@).contains(s@)) by {
        if strings_view(v@).contains(s@) {
            let j = choose|j: int| 0 <= j < strings_view(v@).len() && strings_view(v@)[j] == s@;
            assert(v@[j]@ == s@);
        }
    }
    false
}

/// Where the command-line parameter `key` goes: to the operation's own setter where it is one of
/// `own`, else to the request under its request name where it is a global parameter, else
/// nowhere.
pub fn route_param(key: &String, own: &Vec<String>) -> (r: ParamRoute)
    ensures
        strings_view(own@).contains(key@) ==> r is Method,
        !strings_view(own@).contains(key@) && global_param_names().contains(key@) ==> (r matches ParamRoute::Global(n) && n@ == request_name(key@)),
        !strings_view(own@).contains(key@) && !global_param_names().contains(key@) ==> r is Unknown,
{
    if contains_string(own, key) {
        return ParamRoute::Method;
    }
    let gp = global_params();
    if !contains_string(&gp, key) {
        return ParamRoute::Unknown;
    }
    let gpm = global_param_map();
    match gpm.get(key) {
        Some(n) => ParamRoute::Global(n),
        None => ParamRoute::Global(key.clone()),
    }
}

/// Where the arguments of a command line go, in their order.
#[derive(Clone, Debug)]
pub struct RoutedArgs {
    /// Arguments for the operation's own setters: the key, and the value where one is given.
    pub method: Vec<(String, Option<String>)>,
    /// Global parameters, under their request names, to be set by name on the call.
    pub global: Params,
    /// Keys that are no parameter at all.
    pub unknown: Vec<String>,
}

/// The value that a global parameter given without one takes.
pub open spec fn unset_value() -> Seq<char> {
    "unset"@
}

pub open spec fn opt_view(o: Option<String>) -> Option<Seq<char>> {
    match o {
        Some(s) => Some(s@),
        None => None,
    }
}

pub open spec fn method_view(v: Seq<(String, Option<String>)>) -> Seq<(Seq<char>, Option<Seq<char>>)> {
    v.map_values(|p: (String, Option<String>)| (p.0@, opt_view(p.1)))
}

/// Where the `key=value` arguments `args` go, for an operation whose own parameters are `own`.
pub open spec fn route_args_spec(args: Seq<Seq<char>>, own: Seq<Seq<char>>) -> (
    Seq<(Seq<char>, Option<Seq<char>>)>,
    Seq<ParamView>,
    Seq<Seq<char>>,
)
    decreases args.len(),
{
    if args.len() == 0 {
        (Seq::empty(), Seq::empty(), Seq::empty())
    } else {
        let prev = route_args_spec(args.drop_last(), own);
        let kv = split_kv_spec(args.last());
        if own.contains(kv.0) {
            (prev.0.push(kv), prev.1, prev.2)
        } else if global_param_names().contains(kv.0) {
            let v = match kv.1 {
                Some(v) => v,
                None => unset_value(),
            };
            (prev.0, set_value(prev.1, request_name(kv.0), v), prev.2)
        } else {
            (prev.0, prev.1, prev.2.push(kv.0))
        }
    }
}

/// Routes each `key=value` argument in turn: to the operation's own setters where the key is one
/// of `own`, to the global parameters under their request names (a global parameter given
/// without a value takes `unset`), or to the unknown keys.
pub fn route_args(args: &Vec<String>, own: &Vec<String>) -> (r: RoutedArgs)
    ensures
        (method_view(r.method@), r.global@, strings_view(r.unknown@)) == route_args_spec(strings_view(args@), strings_view(own@)),
{
    let ghost av = strings_view(args@);
    let mut r = RoutedArgs { method: Vec::new(), global: Params::new(), unknown: Vec::new() };
    let mut i: usize = 0;
    while i < args.len()
        invariant
            i <= args@.len(),
            av == strings_view(args@),
            (method_view(r.method@), r.global@, strings_view(r.unknown@)) == route_args_spec(av.subrange(0, i as int), strings_view(own@)),
        decreases args@.len() - i,
    {
        let ghost prefix = av.subrange(0, i + 1);
        assert(prefix.drop_last() =~= av.subrange(0, i as int));
        assert(prefix.last() == args@[i as int]@);
        let (key, value) = split_kv(args[i].as_str());
        let ghost m0 = method_view(r.method@);
        let ghost u0 = strings_view(r.unknown@);
        match route_param(&key, own) {
            ParamRoute::Method => {
                let ghost kv = (key@, opt_view(value));
                r.method.push((key, value));
                assert(method_view(r.method@) =~= m0.push(kv));
            },
            ParamRoute::Global(name) => {
                let v = match value {
                    Some(v) => v,
                    None => "unset".to_owned(),
                };
                r.global.set(name, v);
            },
            ParamRoute::Unknown => {
                let ghost k = key@;
                r.unknown.push(key);
                assert(strings_view(r.unknown@) =~= u0.push(k));
            },
        }
        i = i + 1;
    }
    assert(av.subrange(0, av.len() as int) =~= av);
    r
}

} // verus!
