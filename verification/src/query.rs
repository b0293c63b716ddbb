//! The query parameter that carries the API key on every request.

use vstd::prelude::*;

use crate::text::opt_str_view;

verus! {

/// A decoded query parameter: name and value.
pub type QueryPair = (String, String);

/// The view of a decoded query parameter.
pub open spec fn pair_view(p: QueryPair) -> (Seq<char>, Seq<char>) {
    (p.0@, p.1@)
}

/// The views of a list of query parameters.
pub open spec fn pairs_view(pairs: Seq<QueryPair>) -> Seq<(Seq<char>, Seq<char>)> {
    pairs.map_values(|p: QueryPair| pair_view(p))
}

/// What `form_urlencoded::parse` decodes from the bytes of `query`: its
/// name/value pairs, in order.
pub uninterp spec fn form_decode(query: Seq<char>) -> Seq<(Seq<char>, Seq<char>)>;

/// What `form_urlencoded::byte_serialize` makes of the bytes of `s`: the
/// `application/x-www-form-urlencoded` encoding of one name or value.
pub uninterp spec fn form_encode_component(s: Seq<char>) -> Seq<char>;

/// Decodes a query string with `form_urlencoded::parse`, as
/// `Url::query_pairs` does.
#[verifier::external_body]
fn decode_query(query: &str) -> (r: Vec<QueryPair>)
    ensures
        pairs_view(r@) == form_decode(query@),
{
    url::form_urlencoded::parse(query.as_bytes()).into_owned().collect()
}

/// Encodes one name or value with `form_urlencoded::byte_serialize`.
#[verifier::external_body]
fn encode_component(s: &str) -> (r: String)
    ensures
        r@ == form_encode_component(s@),
{
    url::form_urlencoded::byte_serialize(s.as_bytes()).collect()
}

/// The pairs of `pairs` whose name is not `key`, in order, followed by
/// `(key, value)`.
pub open spec fn replace_pair(
    pairs: Seq<(Seq<char>, Seq<char>)>,
    key: Seq<char>,
    value: Seq<char>,
) -> Seq<(Seq<char>, Seq<char>)> {
    pairs.filter(named_otherwise(key)).push((key, value))
}

/// Holds of the pairs whose name is not `key`.
pub open spec fn named_otherwise(key: Seq<char>) -> spec_fn((Seq<char>, Seq<char>)) -> bool {
    |p: (Seq<char>, Seq<char>)| p.0 != key
}

/// The encoding of one pair, `name=value`.
pub open spec fn encode_pair(p: (Seq<char>, Seq<char>)) -> Seq<char> {
    form_encode_component(p.0) + seq!['='] + form_encode_component(p.1)
}

/// The query string that a form serializer writes for `pairs`: the encoded
/// pairs joined by `&`.
pub open spec fn encode_pairs(pairs: Seq<(Seq<char>, Seq<char>)>) -> Seq<char>
    decreases pairs.len(),
{
    if pairs.len() == 0 {
        Seq::empty()
    } else if pairs.len() == 1 {
        encode_pair(pairs[0])
    } else {
        encode_pairs(pairs.drop_last()) + seq!['&'] + encode_pair(pairs.last())
    }
}

/// The query string after setting `key` to `value` on a URL whose query was
/// `query`: every earlier pair named `key` goes, the others stay in order,
/// and `key=value` comes last.
pub open spec fn query_with(query: Option<Seq<char>>, key: Seq<char>, value: Seq<char>) -> Seq<
    char,
> {
    let pairs = match query {
        Some(q) => form_decode(q),
        None => Seq::empty(),
    };
    encode_pairs(replace_pair(pairs, key, value))
}

/// The decoded pairs without those named `key`, and then `(key, value)`.
pub fn replace_query_pair(pairs: Vec<QueryPair>, key: &str, value: &str) -> (r: Vec<QueryPair>)
    ensures
        pairs_view(r@) == replace_pair(pairs_view(pairs@), key@, value@),
{
    let ghost keep = named_otherwise(key@);
    let mut out: Vec<QueryPair> = Vec::new();
    let n = pairs.len();
    let mut i: usize = 0;
    while i < n
        invariant
            i <= n,
            n == pairs@.len(),
            keep == named_otherwise(key@),
            pairs_view(out@) == pairs_view(pairs@).take(i as int).filter(keep),
        decreases n - i,
    {
        let name = &pairs[i].0;
        let val = &pairs[i].1;
        let ghost before = pairs_view(pairs@).take(i as int);
        assert(pairs_view(pairs@).take(i + 1) =~= before.push(pair_view(pairs@[i as int])));
        proof {
            before.lemma_filter_push(pair_view(pairs@[i as int]), keep);
        }
        let a = String::from_str(name.as_str());
        let b = String::from_str(key);
        let matches_key = a.eq(&b);
        assert(keep(pair_view(pairs@[i as int])) == !matches_key);
        if !matches_key {
            let ghost prev = pairs_view(out@);
            let entry = (name.clone(), val.clone());
            assert(pair_view(entry) == pair_view(pairs@[i as int]));
            out.push(entry);
            assert(pairs_view(out@) =~= prev.push(pair_view(pairs@[i as int])));
        }
        i = i + 1;
    }
    assert(pairs_view(pairs@).take(n as int) =~= pairs_view(pairs@));
    let ghost filtered = pairs_view(out@);
    out.push((String::from_str(key), String::from_str(value)));
    assert(pairs_view(out@) =~= filtered.push((key@, value@)));
    out
}

/// Writes `pairs` as a query string, `name=value` pairs joined by `&`, as
/// `Url::query_pairs_mut` appends them to an empty query.
pub fn encode_query_pairs(pairs: &Vec<QueryPair>) -> (r: String)
    ensures
        r@ == encode_pairs(pairs_view(pairs@)),
{
    let mut out = String::new();
    let n = pairs.len();
    let mut i: usize = 0;
    assert(pairs_view(pairs@).take(0) =~= Seq::<(Seq<char>, Seq<char>)>::empty());
    while i < n
        invariant
            i <= n,
            n == pairs@.len(),
            out@ == encode_pairs(pairs_view(pairs@).take(i as int)),
        decreases n - i,
    {
        let ghost pv = pairs_view(pairs@);
        assert(pv.take(i + 1).drop_last() =~= pv.take(i as int));
        assert(pv.take(i + 1).last() == pair_view(pairs@[i as int]));
        if i > 0 {
            out.append("&");
        }
        let name = encode_component(pairs[i].0.as_str());
        let val = encode_component(pairs[i].1.as_str());
        out.append(name.as_str());
        out.append("=");
        out.append(val.as_str());
        proof {
            reveal_strlit("&");
            reveal_strlit("=");
            if i == 0 {
                assert(pv.take(1) =~= seq![pair_view(pairs@[0])]);
            }
        }
        assert(out@ =~= encode_pairs(pv.take(i + 1)));
        i = i + 1;
    }
    assert(pairs_view(pairs@).take(n as int) =~= pairs_view(pairs@));
    out
}

/// The new query of a request URL whose query was `query`, once `key` is
/// set to `value`: earlier pairs named `key` are dropped, the others keep
/// their order, and `key=value` is appended.
pub fn set_query_value(query: Option<&str>, key: &str, value: &str) -> (r: String)
    ensures
        r@ == query_with(opt_str_view(query), key@, value@),
{
    let pairs = match query {
        Some(q) => decode_query(q),
        None => {
            let v: Vec<QueryPair> = Vec::new();
            assert(pairs_view(v@) =~= Seq::<(Seq<char>, Seq<char>)>::empty());
            v
        },
    };
    let pairs = replace_query_pair(pairs, key, value);
    encode_query_pairs(&pairs)
}

/// After the API key parameter is set, the key names exactly one pair, the
/// last one, and it carries the value; every other pair is kept in order.
pub proof fn lemma_query_key_set_once(
    pairs: Seq<(Seq<char>, Seq<char>)>,
    key: Seq<char>,
    value: Seq<char>,
)
    ensures
        ({
            let r = replace_pair(pairs, key, value);
            &&& r.len() > 0
            &&& r.last() == (key, value)
            &&& forall|i: int| 0 <= i < r.len() - 1 ==> (#[trigger] r[i]).0 != key
            &&& r.drop_last() == pairs.filter(named_otherwise(key))
        }),
{
    let r = replace_pair(pairs, key, value);
    let f = pairs.filter(named_otherwise(key));
    assert(r.drop_last() =~= f);
    assert forall|i: int| 0 <= i < r.len() - 1 implies (#[trigger] r[i]).0 != key by {
        assert(r[i] == f[i]);
        pairs.lemma_filter_pred(named_otherwise(key), i);
    }
}

/// Setting the API key parameter twice to the same value gives the same
/// pairs as setting it once.
pub proof fn lemma_query_set_idempotent(
    pairs: Seq<(Seq<char>, Seq<char>)>,
    key: Seq<char>,
    value: Seq<char>,
)
    ensures
        replace_pair(replace_pair(pairs, key, value), key, value) == replace_pair(
            pairs,
            key,
            value,
        ),
{
    let f = pairs.filter(named_otherwise(key));
    f.lemma_filter_push((key, value), named_otherwise(key));
    assert(f.filter(named_otherwise(key)) =~= f) by {
        lemma_filter_all_kept(f, named_otherwise(key));
    }
}

proof fn lemma_filter_all_kept<A>(s: Seq<A>, pred: spec_fn(A) -> bool)
    requires
        forall|i: int| 0 <= i < s.len() ==> pred(#[trigger] s[i]),
    ensures
        s.filter(pred) == s,
    decreases s.len(),
{
    if s.len() > 0 {
        let t = s.drop_last();
        assert forall|i: int| 0 <= i < t.len() implies pred(#[trigger] t[i]) by {
            assert(t[i] == s[i]);
        }
        lemma_filter_all_kept(t, pred);
        t.lemma_filter_push(s.last(), pred);
        assert(t.push(s.last()) =~= s);
    } else {
        assert(s.filter(pred) =~= s);
    }
}

} // verus!
