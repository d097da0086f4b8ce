use vstd::prelude::*;
use vstd::utf8::{decode_utf8, encode_utf8, encode_utf8_decode_utf8};
use crate::params::{ParamView, Params, first_value};
use crate::pct::{encode_byte, lemma_decode_encode, pct_decode, pct_encode, percent_encode, push_encoded};
use crate::text::{chars_of, push_char, push_chars, push_str};

verus! {

/// Whether `pat` occurs in `s` at position `i`.
pub open spec fn occurs_at(s: Seq<char>, i: int, pat: Seq<char>) -> bool {
    0 <= i && i + pat.len() <= s.len() && s.subrange(i, i + pat.len()) == pat
}

/// `s` with every occurrence of `pat`, taken from left to right, replaced by `rep`.
pub open spec fn replace_all(s: Seq<char>, pat: Seq<char>, rep: Seq<char>) -> Seq<char>
    decreases s.len(),
{
    if s.len() == 0 || pat.len() == 0 {
        s
    } else if occurs_at(s, 0, pat) {
        rep + replace_all(s.subrange(pat.len() as int, s.len() as int), pat, rep)
    } else {
        seq![s[0]] + replace_all(s.drop_first(), pat, rep)
    }
}

/// The token `{+name}` of reserved expansion.
pub open spec fn reserved_token(name: Seq<char>) -> Seq<char> {
    seq!['{', '+'] + name + seq!['}']
}

/// The token `{name}` of simple expansion.
pub open spec fn simple_token(name: Seq<char>) -> Seq<char> {
    seq!['{'] + name + seq!['}']
}

/// The value that a path parameter puts in place of its tokens: its first value, or nothing.
pub open spec fn path_value(ps: Seq<ParamView>, name: Seq<char>) -> Seq<char> {
    match first_value(ps, name) {
        Some(v) => v,
        None => Seq::empty(),
    }
}

/// `url` with the tokens of one path parameter expanded: `{+name}` keeps `/`, `{name}` encodes it.
pub open spec fn expand_one(url: Seq<char>, name: Seq<char>, ps: Seq<ParamView>) -> Seq<char> {
    let bytes = encode_utf8(path_value(ps, name));
    replace_all(
        replace_all(url, reserved_token(name), pct_encode(bytes, true)),
        simple_token(name),
        pct_encode(bytes, false),
    )
}

/// `url` with the tokens of each of `names` expanded, in the order of `names`.
pub open spec fn expand_path(url: Seq<char>, names: Seq<Seq<char>>, ps: Seq<ParamView>) -> Seq<char>
    decreases names.len(),
{
    if names.len() == 0 {
        url
    } else {
        expand_one(expand_path(url, names.drop_last(), ps), names.last(), ps)
    }
}

/// One `name=value` pair of a query string, both sides percent-encoded.
pub open spec fn query_pair(p: ParamView) -> Seq<char> {
    pct_encode(encode_utf8(p.0), false) + seq!['='] + pct_encode(encode_utf8(p.1), false)
}

/// The pairs of `ps` as a query string, joined by `&`.
pub open spec fn query_string(ps: Seq<ParamView>) -> Seq<char>
    decreases ps.len(),
{
    if ps.len() == 0 {
        Seq::empty()
    } else if ps.len() == 1 {
        query_pair(ps[0])
    } else {
        query_string(ps.drop_last()) + seq!['&'] + query_pair(ps.last())
    }
}

/// `url` followed by `?` and the query string of `ps`; `url` alone where `ps` is empty.
pub open spec fn with_query(url: Seq<char>, ps: Seq<ParamView>) -> Seq<char> {
    if ps.len() == 0 {
        url
    } else {
        url + seq!['?'] + query_string(ps)
    }
}

/// Whether `s` holds no `{`.
pub open spec fn no_brace(s: Seq<char>) -> bool {
    forall|i: int| 0 <= i < s.len() ==> s[i] != '{'
}

proof fn lemma_replace_no_brace(s: Seq<char>, pat: Seq<char>, rep: Seq<char>)
    requires
        no_brace(s),
        pat.len() > 0,
        pat[0] == '{',
    ensures
        replace_all(s, pat, rep) == s,
    decreases s.len(),
{
    if s.len() > 0 {
        assert(!occurs_at(s, 0, pat)) by {
            if occurs_at(s, 0, pat) {
                assert(s.subrange(0, pat.len() as int)[0] == s[0]);
            }
        }
        lemma_replace_no_brace(s.drop_first(), pat, rep);
        assert(seq![s[0]] + s.drop_first() =~= s);
    }
}

proof fn lemma_replace_prefix(a: Seq<char>, b: Seq<char>, pat: Seq<char>, rep: Seq<char>)
    requires
        no_brace(a),
        pat.len() > 0,
        pat[0] == '{',
    ensures
        replace_all(a + b, pat, rep) == a + replace_all(b, pat, rep),
    decreases a.len(),
{
    if a.len() > 0 {
        let s = a + b;
        assert(!occurs_at(s, 0, pat)) by {
            if occurs_at(s, 0, pat) {
                assert(s.subrange(0, pat.len() as int)[0] == s[0]);
            }
        }
        assert(s.drop_first() =~= a.drop_first() + b);
        lemma_replace_prefix(a.drop_first(), b, pat, rep);
        assert(seq![a[0]] + (a.drop_first() + replace_all(b, pat, rep)) =~= a + replace_all(b, pat, rep));
    }
}

proof fn lemma_encoded_no_brace(bs: Seq<u8>, reserved: bool)
    ensures
        no_brace(pct_encode(bs, reserved)),
    decreases bs.len(),
{
    if bs.len() > 0 {
        lemma_encoded_no_brace(bs.drop_first(), reserved);
        let e = encode_byte(bs[0], reserved);
        let t = pct_encode(bs.drop_first(), reserved);
        assert forall|i: int| 0 <= i < e.len() + t.len() implies (e + t)[i] != '{' by {
            if i >= e.len() {
                assert((e + t)[i] == t[i - e.len()]);
            }
        }
    }
}

/// Expanding a template with one `{+name}` token and no other brace leaves the text around the
/// token as it is and puts the encoded value in its place; decoding that part gives the value's
/// UTF-8 bytes back, and those bytes the value.
pub proof fn lemma_expanded_value_recovered(p: Seq<char>, q: Seq<char>, name: Seq<char>, ps: Seq<ParamView>)
    requires
        no_brace(p),
        no_brace(q),
    ensures
        expand_one(p + reserved_token(name) + q, name, ps) == p + pct_encode(encode_utf8(path_value(ps, name)), true) + q,
        pct_decode(pct_encode(encode_utf8(path_value(ps, name)), true)) == Some(encode_utf8(path_value(ps, name))),
        decode_utf8(encode_utf8(path_value(ps, name))) == path_value(ps, name),
{
    let bytes = encode_utf8(path_value(ps, name));
    let enc = pct_encode(bytes, true);
    let tok = reserved_token(name);
    let rest = tok + q;
    assert(p + tok + q =~= p + rest);
    lemma_replace_prefix(p, rest, tok, enc);
    assert(occurs_at(rest, 0, tok)) by {
        assert(rest.subrange(0, tok.len() as int) =~= tok);
    }
    assert(rest.subrange(tok.len() as int, rest.len() as int) =~= q);
    lemma_replace_no_brace(q, tok, enc);
    assert(replace_all(rest, tok, enc) == enc + q);
    let once = p + (enc + q);
    lemma_encoded_no_brace(bytes, true);
    assert(no_brace(once)) by {
        assert forall|i: int| 0 <= i < once.len() implies once[i] != '{' by {
            if i < p.len() {
                assert(once[i] == p[i]);
            } else if i < p.len() + enc.len() {
                assert(once[i] == enc[i - p.len()]);
            } else {
                assert(once[i] == q[i - p.len() - enc.len()]);
            }
        }
    }
    lemma_replace_no_brace(once, simple_token(name), pct_encode(bytes, false));
    assert(once =~= p + enc + q);
    lemma_decode_encode(bytes, true);
    encode_utf8_decode_utf8(path_value(ps, name));
}

/// Whether `pat` occurs in `s` at position `i`.
fn occurs_at_exec(s: &Vec<char>, i: usize, pat: &Vec<char>) -> (r: bool)
    requires
        i <= s@.len(),
    ensures
        r == occurs_at(s@, i as int, pat@),
{
    if pat.len() > s.len() - i {
        return false;
    }
    let mut j: usize = 0;
    while j < pat.len()
        invariant
            j <= pat@.len(),
            i + pat@.len() <= s@.len(),
            s@.len() == s.len(),
            forall|m: int| 0 <= m < j ==> s@[i + m] == #[trigger] pat@[m],
        decreases pat@.len() - j,
    {
        if s[i + j] != pat[j] {
            assert(s@.subrange(i as int, i + pat@.len())[j as int] != pat@[j as int]);
            return false;
        }
        j = j + 1;
    }
    assert(s@.subrange(i as int, i + pat@.len()) =~= pat@);
    true
}

/// `s` with every occurrence of `pat` replaced by `rep`, scanning from the left.
pub fn replace_all_exec(s: &str, pat: &str, rep: &str) -> (r: String)
    ensures
        r@ == replace_all(s@, pat@, rep@),
{
    let cs = chars_of(s);
    let ps = chars_of(pat);
    let mut out = String::new();
    if ps.len() == 0 {
        push_chars(&mut out, &cs, 0, cs.len());
        assert(cs@.subrange(0, cs@.len() as int) =~= s@);
        return out;
    }
    let mut i: usize = 0;
    assert(cs@.subrange(0, cs@.len() as int) =~= cs@);
    while i < cs.len()
        invariant
            cs@ == s@,
            ps@ == pat@,
            ps@.len() > 0,
            i <= cs@.len(),
            replace_all(s@, pat@, rep@) == out@ + replace_all(cs@.subrange(i as int, cs@.len() as int), pat@, rep@),
        decreases cs@.len() - i,
    {
        let ghost t = cs@.subrange(i as int, cs@.len() as int);
        let ghost before = out@;
        if occurs_at_exec(&cs, i, &ps) {
            proof {
                assert(t.subrange(0, pat@.len() as int) =~= cs@.subrange(i as int, i + pat@.len()));
                assert(t.subrange(pat@.len() as int, t.len() as int) =~= cs@.subrange(i + pat@.len(), cs@.len() as int));
            }
            push_str(&mut out, rep);
            i = i + ps.len();
            assert(before + (rep@ + replace_all(cs@.subrange(i as int, cs@.len() as int), pat@, rep@))
                =~= out@ + replace_all(cs@.subrange(i as int, cs@.len() as int), pat@, rep@));
        } else {
            proof {
                if t.len() >= pat@.len() {
                    assert(t.subrange(0, pat@.len() as int) =~= cs@.subrange(i as int, i + pat@.len()));
                }
                assert(t.drop_first() =~= cs@.subrange(i + 1, cs@.len() as int));
            }
            push_char(&mut out, cs[i]);
            i = i + 1;
            assert(before + (seq![t[0]] + replace_all(cs@.subrange(i as int, cs@.len() as int), pat@, rep@))
                =~= out@ + replace_all(cs@.subrange(i as int, cs@.len() as int), pat@, rep@));
        }
    }
    assert(out@ + replace_all(cs@.subrange(cs@.len() as int, cs@.len() as int), pat@, rep@) =~= out@);
    out
}

/// `url` with the tokens `{+name}` and `{name}` replaced by the encoded first value of `name`.
pub fn expand_one_exec(url: &str, name: &String, params: &Params) -> (r: String)
    ensures
        r@ == expand_one(url@, name@, params@),
{
    let value = match params.get(name) {
        Some(v) => v,
        None => String::new(),
    };
    assert(value@ == path_value(params@, name@));
    let reserved = percent_encode(value.as_str(), true);
    let simple = percent_encode(value.as_str(), false);
    let mut reserved_tok = String::new();
    push_char(&mut reserved_tok, '{');
    push_char(&mut reserved_tok, '+');
    push_str(&mut reserved_tok, name.as_str());
    push_char(&mut reserved_tok, '}');
    assert(reserved_tok@ =~= reserved_token(name@));
    let mut simple_tok = String::new();
    push_char(&mut simple_tok, '{');
    push_str(&mut simple_tok, name.as_str());
    push_char(&mut simple_tok, '}');
    assert(simple_tok@ =~= simple_token(name@));
    let once = replace_all_exec(url, reserved_tok.as_str(), reserved.as_str());
    replace_all_exec(once.as_str(), simple_tok.as_str(), simple.as_str())
}

/// `url` with the tokens of each path parameter in `names` expanded, in order.
pub fn expand_path_exec(url: &str, names: &Vec<String>, params: &Params) -> (r: String)
    ensures
        r@ == expand_path(url@, names@.map_values(|n: String| n@), params@),
{
    let ghost ns = names@.map_values(|n: String| n@);
    let mut out = String::new();
    push_str(&mut out, url);
    assert(ns.subrange(0, 0).len() == 0);
    let mut i: usize = 0;
    while i < names.len()
        invariant
            i <= names@.len(),
            ns == names@.map_values(|n: String| n@),
            out@ == expand_path(url@, ns.subrange(0, i as int), params@),
        decreases names@.len() - i,
    {
        assert(ns.subrange(0, i + 1).drop_last() =~= ns.subrange(0, i as int));
        assert(ns.subrange(0, i + 1).last() == names@[i as int]@);
        out = expand_one_exec(out.as_str(), &names[i], params);
        i = i + 1;
    }
    assert(ns.subrange(0, names@.len() as int) =~= ns);
    out
}

/// Appends `?` and the query string of `params` to `out`; nothing where `params` is empty.
pub fn push_query(out: &mut String, params: &Params)
    ensures
        final(out)@ == with_query(old(out)@, params@),
{
    let ghost ps = params@;
    let mut i: usize = 0;
    while i < params.pairs.len()
        invariant
            i <= ps.len(),
            ps == params@,
            ps.len() == params.pairs@.len(),
            i == 0 ==> out@ == old(out)@,
            i > 0 ==> out@ == old(out)@ + seq!['?'] + query_string(ps.subrange(0, i as int)),
        decreases ps.len() - i,
    {
        let ghost before = out@;
        let ghost prefix = ps.subrange(0, i + 1);
        assert(prefix.drop_last() =~= ps.subrange(0, i as int));
        assert(prefix.last() == ps[i as int]);
        if i == 0 {
            push_char(out, '?');
        } else {
            push_char(out, '&');
        }
        let name = &params.pairs[i].0;
        let value = &params.pairs[i].1;
        push_encoded(out, name.as_str().as_bytes(), false);
        push_char(out, '=');
        push_encoded(out, value.as_str().as_bytes(), false);
        proof {
            if i == 0 {
                assert(out@ =~= old(out)@ + seq!['?'] + query_string(prefix));
            } else {
                assert(out@ =~= old(out)@ + seq!['?'] + query_string(prefix));
            }
        }
        i = i + 1;
    }
    assert(ps.subrange(0, ps.len() as int) =~= ps);
}

} // verus!
