//! The URL <-> parameter synchronizer. Parse reads the query string out
//! of a URL and re-derives the parameter rows; Build re-serializes the
//! rows and splices them back onto the URL's base. Each direction is the
//! single writer of the fields it re-derives.

use crate::encoding::{
    all_url_safe, dec_of, dec_or_empty, decode_component, enc_of, encode_component,
    is_url_safe_char,
};
use crate::params::{parsed_param, reparsed, views_of, Param, ParamView};
use crate::text::{
    contains_char, find_char, lemma_find_char, lemma_find_char_absent, lemma_find_char_is,
    scan_char,
};
use vstd::prelude::*;
use vstd::string::{StrSliceExecFns, StringExecFns};

verus! {

/// The rows parsed out of one `name=value` pair: one row, or none when
/// the pair has no '='. The name before the first '=' is taken verbatim;
/// the value after it is percent-decoded, with the empty string as the
/// fallback when decoding fails.
pub open spec fn parse_pair(p: Seq<char>) -> Seq<ParamView> {
    let j = find_char(p, '=');
    if j == p.len() {
        Seq::empty()
    } else {
        seq![parsed_param(p.take(j), dec_or_empty(p.skip(j + 1)))]
    }
}

/// The rows parsed out of a query string: pairs are separated by '&', and
/// each pair contributes via `parse_pair`.
pub open spec fn parse_query(q: Seq<char>) -> Seq<ParamView>
    decreases q.len(),
    via parse_query_decreases
{
    let a = find_char(q, '&');
    if a == q.len() {
        parse_pair(q)
    } else {
        parse_pair(q.take(a)) + parse_query(q.skip(a + 1))
    }
}

#[via_fn]
proof fn parse_query_decreases(q: Seq<char>) {
    lemma_find_char(q, '&');
}

/// The part of a URL before its first '?' (the whole URL when it has none).
pub open spec fn base_of(url: Seq<char>) -> Seq<char> {
    url.take(find_char(url, '?'))
}

/// The part of a URL after its first '?'; meaningful only when it has one.
pub open spec fn query_part(url: Seq<char>) -> Seq<char> {
    url.skip(find_char(url, '?') + 1)
}

/// The rows a URL yields: those of its query string when it has one, and
/// none otherwise.
pub open spec fn url_params(url: Seq<char>) -> Seq<ParamView> {
    if contains_char(url, '?') {
        parse_query(query_part(url))
    } else {
        Seq::empty()
    }
}

/// The serialized text of one row: encoded name, '=', encoded value.
pub open spec fn pair_text(p: ParamView) -> Seq<char> {
    enc_of(p.name) + seq!['='] + enc_of(p.value)
}

/// The rows that serialization keeps: those with a non-empty name.
pub open spec fn kept(ps: Seq<ParamView>) -> Seq<ParamView> {
    ps.filter(|p: ParamView| p.name.len() > 0)
}

/// The '&'-joined serialization of the given rows (all of them).
pub open spec fn join_amp(ps: Seq<ParamView>) -> Seq<char>
    decreases ps.len(),
{
    if ps.len() == 0 {
        Seq::empty()
    } else if ps.len() == 1 {
        pair_text(ps[0])
    } else {
        pair_text(ps[0]) + seq!['&'] + join_amp(ps.drop_first())
    }
}

/// The query string built from a parameter list: its kept rows,
/// serialized and '&'-joined.
pub open spec fn query_of(ps: Seq<ParamView>) -> Seq<char> {
    join_amp(kept(ps))
}

/// The URL rebuilt from a current URL and a parameter list: the old base,
/// plus '?' and the built query string when the latter is non-empty.
pub open spec fn built_url(url: Seq<char>, ps: Seq<ParamView>) -> Seq<char> {
    if query_of(ps).len() == 0 {
        base_of(url)
    } else {
        base_of(url) + seq!['?'] + query_of(ps)
    }
}

/// Parse one `name=value` pair and append the row it contributes, if any.
fn push_pair(params: &mut Vec<Param>, piece: &str)
    ensures
        views_of(final(params)@) == views_of(old(params)@) + parse_pair(piece@),
{
    let m = piece.unicode_len();
    let e = scan_char(piece, '=');
    proof {
        lemma_find_char(piece@, '=');
    }
    if e < m {
        let name = piece.substring_char(0, e);
        let raw = piece.substring_char(e + 1, m);
        let value = match decode_component(raw) {
            Some(v) => v,
            None => String::new(),
        };
        proof {
            assert(raw@ =~= piece@.skip(e + 1));
            assert(value@ == dec_or_empty(piece@.skip(e + 1)));
        }
        let ghost before = views_of(params@);
        params.push(Param::with_name_value(String::from_str(name), value));
        proof {
            assert(views_of(params@) =~= before + parse_pair(piece@));
        }
    } else {
        proof {
            assert(views_of(params@) =~= views_of(params@) + parse_pair(piece@));
        }
    }
}

/// Parse a query string (the text after a URL's '?') into parameter rows.
pub fn parse_query_params(query: &str) -> (params: Vec<Param>)
    ensures
        views_of(params@) == parse_query(query@),
{
    let mut params: Vec<Param> = Vec::new();
    let mut rest: &str = query;
    proof {
        assert(views_of(params@) + parse_query(rest@) =~= parse_query(query@));
    }
    loop
        invariant
            views_of(params@) + parse_query(rest@) == parse_query(query@),
        decreases rest@.len(),
    {
        let n = rest.unicode_len();
        let a = scan_char(rest, '&');
        proof {
            lemma_find_char(rest@, '&');
        }
        let piece = rest.substring_char(0, a);
        let ghost prev = views_of(params@);
        let ghost old_rest = rest@;
        push_pair(&mut params, piece);
        if a == n {
            proof {
                assert(piece@ =~= old_rest);
                assert(views_of(params@) =~= parse_query(query@));
            }
            return params;
        }
        rest = rest.substring_char(a + 1, n);
        proof {
            assert(piece@ =~= old_rest.take(a as int));
            assert(rest@ =~= old_rest.skip(a as int + 1));
            assert(parse_query(old_rest) == parse_pair(old_rest.take(a as int)) + parse_query(
                old_rest.skip(a as int + 1),
            ));
            assert(views_of(params@) + parse_query(rest@) =~= parse_query(query@));
        }
    }
}

/// Parse the parameter rows out of a full URL: those of the text after
/// its first '?', or no rows at all when the URL has none.
pub fn parse_url_params(url: &str) -> (params: Vec<Param>)
    ensures
        views_of(params@) == url_params(url@),
{
    let n = url.unicode_len();
    let qi = scan_char(url, '?');
    proof {
        lemma_find_char(url@, '?');
    }
    if qi == n {
        let params: Vec<Param> = Vec::new();
        proof {
            assert(views_of(params@) =~= url_params(url@));
        }
        params
    } else {
        let query = url.substring_char(qi + 1, n);
        let params = parse_query_params(query);
        proof {
            assert(query@ =~= query_part(url@));
        }
        params
    }
}

/// Every row has a non-empty name, and name and value consist of URL-safe
/// characters only; what Build can serialize so that Parse recovers it.
pub open spec fn round_trip_safe(ps: Seq<ParamView>) -> bool {
    forall|k: int|
        0 <= k < ps.len() ==> {
            &&& (#[trigger] ps[k]).name.len() > 0
            &&& all_url_safe(ps[k].name)
            &&& all_url_safe(ps[k].value)
        }
}

/// What one build pass learns of the encoder on a row: safe text comes
/// back unchanged, and decoding undoes the encoding of the value.
spec fn enc_facts(p: ParamView) -> bool {
    &&& all_url_safe(p.name) ==> enc_of(p.name) == p.name
    &&& all_url_safe(p.value) ==> enc_of(p.value) == p.value
    &&& dec_of(enc_of(p.value)) == Some(p.value)
}

/// One serialized `name=value` pair.
fn pair_string(p: &Param) -> (r: String)
    ensures
        r@ == pair_text(p@),
        enc_facts(p@),
{
    let mut r = encode_component(p.name.as_str());
    r.append("=");
    let ev = encode_component(p.value.as_str());
    r.append(ev.as_str());
    proof {
        reveal_strlit("=");
        assert(r@ =~= pair_text(p@));
    }
    r
}

/// Serialize the rows with non-empty names as `name=value` pairs joined
/// by '&'; empty-named rows never appear in the result. When every row
/// has a non-empty, URL-safe name and a URL-safe value, parsing the built
/// query string recovers every row, with the cosmetic fields reset.
pub fn build_query_string(params: &Vec<Param>) -> (q: String)
    ensures
        q@ == query_of(views_of(params@)),
        round_trip_safe(views_of(params@)) ==> parse_query(q@) == views_of(
            params@,
        ).map_values(|p: ParamView| reparsed(p)),
{
    let ghost vs = views_of(params@);
    let ghost pred = |p: ParamView| p.name.len() > 0;
    let mut q = String::new();
    let mut any = false;
    let mut i: usize = 0;
    proof {
        assert(vs.take(0) =~= Seq::<ParamView>::empty());
        reveal(Seq::filter);
    }
    while i < params.len()
        invariant
            0 <= i <= params@.len(),
            vs == views_of(params@),
            vs.len() == params@.len(),
            pred == (|p: ParamView| p.name.len() > 0),
            q@ == join_amp(vs.take(i as int).filter(pred)),
            any == (vs.take(i as int).filter(pred).len() > 0),
            forall|k: int| 0 <= k < i && (#[trigger] vs[k]).name.len() > 0 ==> enc_facts(vs[k]),
        decreases params@.len() - i,
    {
        let ghost taken = vs.take(i as int);
        let ghost pv = vs[i as int];
        proof {
            vs.lemma_take_succ_push(i as int);
            Seq::lemma_filter_push(taken, pv, pred);
        }
        let p = &params[i];
        if p.name.unicode_len() > 0 {
            let pair = pair_string(p);
            proof {
                lemma_join_amp_push(taken.filter(pred), pv);
                taken.lemma_filter_len(pred);
            }
            if any {
                q.append("&");
                q.append(pair.as_str());
                proof {
                    reveal_strlit("&");
                    assert(q@ =~= join_amp(vs.take(i + 1).filter(pred)));
                }
            } else {
                q = pair;
                proof {
                    assert(taken.filter(pred).len() == 0);
                    assert(q@ =~= join_amp(vs.take(i + 1).filter(pred)));
                }
                any = true;
            }
        }
        i = i + 1;
    }
    proof {
        assert(vs.take(vs.len() as int) =~= vs);
        if round_trip_safe(vs) {
            lemma_kept_all(vs);
            lemma_parse_of_join(vs);
        }
    }
    q
}

/// A row list whose names are all non-empty is kept whole by serialization.
proof fn lemma_kept_all(ps: Seq<ParamView>)
    requires
        forall|k: int| 0 <= k < ps.len() ==> (#[trigger] ps[k]).name.len() > 0,
    ensures
        kept(ps) == ps,
    decreases ps.len(),
{
    let pred = |p: ParamView| p.name.len() > 0;
    if ps.len() == 0 {
        reveal(Seq::filter);
        assert(kept(ps) =~= ps);
    } else {
        lemma_kept_all(ps.drop_last());
        Seq::lemma_filter_push(ps.drop_last(), ps.last(), pred);
        assert(ps.drop_last().push(ps.last()) =~= ps);
        assert(kept(ps) =~= ps);
    }
}

/// A serialized row holds no '&', its name ends at the first '=', and
/// parsing it back gives the row with the cosmetic fields reset.
proof fn lemma_parse_pair_round(p: ParamView)
    requires
        p.name.len() > 0,
        all_url_safe(p.name),
        all_url_safe(p.value),
        enc_facts(p),
    ensures
        forall|j: int| 0 <= j < pair_text(p).len() ==> pair_text(p)[j] != '&',
        parse_pair(pair_text(p)) == seq![reparsed(p)],
{
    let name = p.name;
    let value = p.value;
    let pair = pair_text(p);
    assert(pair =~= name + seq!['='] + value);
    assert forall|j: int| 0 <= j < pair.len() implies pair[j] != '&' by {
        if j < name.len() {
            assert(is_url_safe_char(name[j]));
        } else if j > name.len() {
            assert(pair[j] == value[j - name.len() - 1]);
            assert(is_url_safe_char(value[j - name.len() - 1]));
        }
    }
    assert forall|j: int| 0 <= j < name.len() implies pair[j] != '=' by {
        assert(is_url_safe_char(name[j]));
    }
    assert(pair[name.len() as int] == '=');
    lemma_find_char_is(pair, '=', name.len() as int);
    assert(pair.take(name.len() as int) =~= name);
    assert(pair.skip(name.len() as int + 1) =~= value);
    assert(dec_of(value) == Some(value));
    assert(parse_pair(pair) =~= seq![reparsed(p)]);
}

/// Parsing the '&'-join of serialized safe rows recovers each row.
proof fn lemma_parse_of_join(ps: Seq<ParamView>)
    requires
        round_trip_safe(ps),
        forall|k: int| 0 <= k < ps.len() && (#[trigger] ps[k]).name.len() > 0 ==> enc_facts(ps[k]),
    ensures
        parse_query(join_amp(ps)) == ps.map_values(|p: ParamView| reparsed(p)),
    decreases ps.len(),
{
    let f = |p: ParamView| reparsed(p);
    if ps.len() == 0 {
        assert(join_amp(ps) =~= Seq::<char>::empty());
        assert(parse_query(join_amp(ps)) =~= ps.map_values(f));
    } else if ps.len() == 1 {
        let pair = pair_text(ps[0]);
        lemma_parse_pair_round(ps[0]);
        lemma_find_char_absent(pair, '&');
        assert(parse_query(pair) == parse_pair(pair));
        assert(parse_query(join_amp(ps)) =~= ps.map_values(f));
    } else {
        let pair = pair_text(ps[0]);
        let rest = ps.drop_first();
        let tail = join_amp(rest);
        let whole = join_amp(ps);
        lemma_parse_pair_round(ps[0]);
        assert(whole == pair + seq!['&'] + tail);
        assert forall|j: int| 0 <= j < pair.len() implies whole[j] != '&' by {
            assert(whole[j] == pair[j]);
        }
        assert(whole[pair.len() as int] == '&');
        lemma_find_char_is(whole, '&', pair.len() as int);
        assert(whole.take(pair.len() as int) =~= pair);
        assert(whole.skip(pair.len() as int + 1) =~= tail);
        assert(parse_query(whole) == parse_pair(pair) + parse_query(tail));
        assert(forall|k: int|
            0 <= k < rest.len() ==> rest[k] == ps[k + 1]);
        lemma_parse_of_join(rest);
        assert(parse_query(whole) =~= ps.map_values(f));
    }
}

/// A non-empty row list serializes to a non-empty query string.
proof fn lemma_join_amp_nonempty(ps: Seq<ParamView>)
    requires
        ps.len() > 0,
    ensures
        join_amp(ps).len() > 0,
{
    assert(pair_text(ps[0]).len() >= 1);
}

/// Rebuild a URL from its own base and the parameter rows: the base keeps
/// everything before the URL's first '?', and the built query string is
/// appended after a '?' unless it is empty. When every row has a
/// non-empty, URL-safe name and a URL-safe value, parsing the rebuilt URL
/// recovers every row, with the cosmetic fields reset.
pub fn build_url(url: &str, params: &Vec<Param>) -> (r: String)
    ensures
        r@ == built_url(url@, views_of(params@)),
        round_trip_safe(views_of(params@)) ==> url_params(r@) == views_of(params@).map_values(
            |p: ParamView| reparsed(p),
        ),
{
    let ghost vs = views_of(params@);
    let n = url.unicode_len();
    let qi = scan_char(url, '?');
    proof {
        lemma_find_char(url@, '?');
    }
    let base = url.substring_char(0, qi);
    proof {
        assert(base@ == base_of(url@));
        assert(forall|j: int| 0 <= j < base@.len() ==> base@[j] != '?');
    }
    let q = build_query_string(params);
    if q.unicode_len() == 0 {
        let r = String::from_str(base);
        proof {
            lemma_find_char_absent(r@, '?');
            if round_trip_safe(vs) {
                lemma_kept_all(vs);
                if vs.len() > 0 {
                    lemma_join_amp_nonempty(vs);
                }
                assert(vs.len() == 0);
                assert(url_params(r@) =~= vs.map_values(|p: ParamView| reparsed(p)));
            }
        }
        r
    } else {
        let mut r = String::from_str(base);
        r.append("?");
        r.append(q.as_str());
        proof {
            reveal_strlit("?");
            assert(r@ =~= base@ + seq!['?'] + q@);
            assert(r@ == built_url(url@, vs));
            assert(r@[base@.len() as int] == '?');
            lemma_find_char_is(r@, '?', base@.len() as int);
            assert(contains_char(r@, '?'));
            assert(query_part(r@) =~= q@);
        }
        r
    }
}

/// Law: after a Build pass the URL and the table agree — the rebuilt URL
/// carries a query string exactly when the table serializes to one, and
/// then that suffix is exactly the built query string.
pub proof fn lemma_built_url_query(url: Seq<char>, ps: Seq<ParamView>)
    ensures
        query_of(ps).len() == 0 ==> !contains_char(built_url(url, ps), '?'),
        query_of(ps).len() > 0 ==> contains_char(built_url(url, ps), '?') && query_part(
            built_url(url, ps),
        ) == query_of(ps),
{
    lemma_find_char(url, '?');
    let base = base_of(url);
    assert(forall|j: int| 0 <= j < base.len() ==> base[j] != '?');
    if query_of(ps).len() == 0 {
        lemma_find_char_absent(base, '?');
    } else {
        let built = base + seq!['?'] + query_of(ps);
        assert(built[base.len() as int] == '?');
        lemma_find_char_is(built, '?', base.len() as int);
        assert(query_part(built) =~= query_of(ps));
    }
}

/// Law: rebuilding is idempotent — building again from the rebuilt URL
/// with the same rows changes nothing, because rebuilding keeps the base
/// and replaces the whole query string.
pub proof fn lemma_build_idempotent(url: Seq<char>, ps: Seq<ParamView>)
    ensures
        built_url(built_url(url, ps), ps) == built_url(url, ps),
{
    lemma_find_char(url, '?');
    let base = base_of(url);
    assert(forall|j: int| 0 <= j < base.len() ==> base[j] != '?');
    if query_of(ps).len() == 0 {
        lemma_find_char_absent(base, '?');
        assert(base_of(base) =~= base);
    } else {
        let built = base + seq!['?'] + query_of(ps);
        assert(built[base.len() as int] == '?');
        lemma_find_char_is(built, '?', base.len() as int);
        assert(base_of(built) =~= base);
    }
}

/// Law: a row with an empty name never reaches the built URL — inserting
/// one anywhere, whatever its value, leaves the result unchanged.
pub proof fn lemma_empty_name_excluded(url: Seq<char>, ps: Seq<ParamView>, i: int, p: ParamView)
    requires
        0 <= i <= ps.len(),
        p.name.len() == 0,
    ensures
        built_url(url, ps.insert(i, p)) == built_url(url, ps),
{
    let pred = |q: ParamView| q.name.len() > 0;
    reveal(Seq::filter);
    assert(Seq::<ParamView>::empty().filter(pred) =~= Seq::<ParamView>::empty());
    Seq::lemma_filter_push(Seq::<ParamView>::empty(), p, pred);
    assert(Seq::<ParamView>::empty().push(p) =~= seq![p]);
    assert(seq![p].filter(pred) =~= Seq::<ParamView>::empty());
    assert(ps.insert(i, p) =~= ps.take(i) + seq![p] + ps.skip(i));
    Seq::filter_distributes_over_add(ps.take(i) + seq![p], ps.skip(i), pred);
    Seq::filter_distributes_over_add(ps.take(i), seq![p], pred);
    Seq::filter_distributes_over_add(ps.take(i), ps.skip(i), pred);
    assert(ps.take(i) + ps.skip(i) =~= ps);
    assert((ps.take(i) + seq![p]).filter(pred) + ps.skip(i).filter(pred) =~= ps.filter(pred));
    assert(kept(ps.insert(i, p)) == kept(ps));
}

/// `join_amp` grows at the back by '&' and the new row's text.
proof fn lemma_join_amp_push(s: Seq<ParamView>, p: ParamView)
    ensures
        join_amp(s.push(p)) == if s.len() == 0 {
            pair_text(p)
        } else {
            join_amp(s) + seq!['&'] + pair_text(p)
        },
    decreases s.len(),
{
    let sp = s.push(p);
    if s.len() == 0 {
        assert(sp.len() == 1);
        assert(sp[0] == p);
    } else if s.len() == 1 {
        assert(sp.len() == 2);
        assert(sp.drop_first() =~= seq![p]);
        assert(join_amp(sp.drop_first()) == pair_text(p));
        assert(join_amp(s) == pair_text(s[0]));
        assert(join_amp(sp) == pair_text(s[0]) + seq!['&'] + pair_text(p));
    } else {
        assert(sp.drop_first() =~= s.drop_first().push(p));
        lemma_join_amp_push(s.drop_first(), p);
        assert(join_amp(sp) == pair_text(s[0]) + seq!['&'] + (join_amp(s.drop_first())
            + seq!['&'] + pair_text(p)));
        assert(join_amp(s) + seq!['&'] + pair_text(p) =~= pair_text(s[0]) + seq!['&'] + (join_amp(
            s.drop_first(),
        ) + seq!['&'] + pair_text(p)));
    }
}

} // verus!
