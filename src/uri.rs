use vstd::prelude::*;
use crate::text::{chars_of, same_chars, split_chars, split_on, string_of};

verus! {

/// `s` without one `/` at its end, if it has one.
pub open spec fn strip_slash(s: Seq<char>) -> Seq<char> {
    if s.len() > 0 && s.last() == '/' {
        s.drop_last()
    } else {
        s
    }
}

/// `s` without one `&` at its end, if it has one.
pub open spec fn strip_amp(s: Seq<char>) -> Seq<char> {
    if s.len() > 0 && s.last() == '&' {
        s.drop_last()
    } else {
        s
    }
}

/// The key of a query pair `k=v`: what comes before the first `=`.
pub open spec fn pair_key(seg: Seq<char>) -> Seq<char> {
    split_on(seg, '=')[0]
}

/// The value of a query pair `k=v`: what comes between the first `=` and the
/// next, or nothing when there is no `=`.
pub open spec fn pair_value(seg: Seq<char>) -> Seq<char> {
    if split_on(seg, '=').len() > 1 {
        split_on(seg, '=')[1]
    } else {
        Seq::empty()
    }
}

/// The keys of the pairs of a query.
pub open spec fn query_keys(q: Seq<char>) -> Seq<Seq<char>> {
    split_on(q, '&').map_values(|seg: Seq<char>| pair_key(seg))
}

/// The pairs of `segs` whose keys are not among `keys`, each written as
/// `&k=v`, in order.
pub open spec fn merged_pairs(segs: Seq<Seq<char>>, keys: Seq<Seq<char>>) -> Seq<char>
    decreases segs.len(),
{
    if segs.len() == 0 {
        Seq::empty()
    } else {
        let last = segs.last();
        merged_pairs(segs.drop_last(), keys) + if keys.contains(pair_key(last)) {
            Seq::empty()
        } else {
            seq!['&'] + pair_key(last) + seq!['='] + pair_value(last)
        }
    }
}

/// The query part of a URL: everything after its first `?`, or nothing
/// when it has none.
pub open spec fn url_query(url: Seq<char>) -> Seq<char> {
    if split_on(url, '?').len() > 1 {
        url.subrange(split_on(url, '?')[0].len() + 1int, url.len() as int)
    } else {
        Seq::empty()
    }
}

/// The URL that a request for `path` with query `rq` is forwarded to, under
/// the base URL `fu`: the base without its query and without one trailing
/// `/`, then the path; then, when either side has a query, `?`, the query
/// of the base whole, and the pairs of the request's query whose keys the
/// base's query does not set, with one trailing `&` removed.
pub open spec fn forward_uri(fu: Seq<char>, path: Seq<char>, rq: Seq<char>) -> Seq<char> {
    let fq = url_query(fu);
    let head = strip_slash(split_on(fu, '?')[0]) + path;
    if fq.len() == 0 && rq.len() == 0 {
        head
    } else if fq.len() == 0 {
        head + seq!['?'] + rq
    } else if rq.len() == 0 {
        strip_amp(head + seq!['?'] + fq)
    } else {
        strip_amp(head + seq!['?'] + fq + merged_pairs(split_on(rq, '&'), query_keys(fq)))
    }
}

/// A URL without `?` is one piece, and has no query.
proof fn lemma_no_query(s: Seq<char>)
    requires
        !s.contains('?'),
    ensures
        split_on(s, '?').len() == 1,
        split_on(s, '?')[0] == s,
        url_query(s).len() == 0,
{
    crate::text::lemma_split_append(Seq::<char>::empty(), s, '?');
    assert(Seq::<char>::empty() + s =~= s);
}

/// Under a base without a query and with an empty query, composing gives
/// the base without one trailing `/`, then the path; and composing again
/// from that URL, with an empty path and query, gives it back unchanged,
/// when it does not end in `/`.
pub proof fn lemma_forward_uri_idempotent(fu: Seq<char>, path: Seq<char>)
    requires
        !fu.contains('?'),
        !path.contains('?'),
        forward_uri(fu, path, Seq::empty()).len() == 0 || forward_uri(
            fu,
            path,
            Seq::empty(),
        ).last() != '/',
    ensures
        forward_uri(fu, path, Seq::empty()) == strip_slash(fu) + path,
        forward_uri(forward_uri(fu, path, Seq::empty()), Seq::empty(), Seq::empty())
            == forward_uri(fu, path, Seq::empty()),
{
    lemma_no_query(fu);
    let r = strip_slash(fu) + path;
    assert(!r.contains('?')) by {
        if r.contains('?') {
            let k = choose|k: int| 0 <= k < r.len() && r[k] == '?';
            if k < strip_slash(fu).len() {
                assert(fu[k] == '?');
            } else {
                assert(path[k - strip_slash(fu).len()] == '?');
            }
        }
    }
    lemma_no_query(r);
    assert(r + Seq::<char>::empty() =~= r);
}

/// Adds the characters of `src` at the end of `dst`.
fn push_all(dst: &mut Vec<char>, src: &Vec<char>)
    ensures
        final(dst)@ == old(dst)@ + src@,
{
    let mut i: usize = 0;
    while i < src.len()
        invariant
            i <= src@.len(),
            dst@ == old(dst)@ + src@.subrange(0, i as int),
        decreases src@.len() - i,
    {
        dst.push(src[i]);
        assert(dst@ =~= old(dst)@ + src@.subrange(0, i + 1));
        i = i + 1;
    }
    assert(src@.subrange(0, i as int) =~= src@);
}

/// The key of the pair `seg`.
fn key_of(seg: &Vec<char>) -> (r: Vec<char>)
    ensures
        r@ == pair_key(seg@),
{
    let parts = split_chars(seg, '=');
    proof {
        crate::text::lemma_split_nonempty(seg@, '=');
    }
    let mut r: Vec<char> = Vec::new();
    push_all(&mut r, &parts[0]);
    assert(r@ =~= parts@[0]@);
    r
}

/// The value of the pair `seg`.
fn value_of(seg: &Vec<char>) -> (r: Vec<char>)
    ensures
        r@ == pair_value(seg@),
{
    let parts = split_chars(seg, '=');
    let mut r: Vec<char> = Vec::new();
    if parts.len() > 1 {
        push_all(&mut r, &parts[1]);
        assert(r@ =~= parts@[1]@);
    }
    r
}

/// Whether `k` is one of `keys`.
fn has_key(keys: &Vec<Vec<char>>, k: &Vec<char>, Ghost(ks): Ghost<Seq<Seq<char>>>) -> (r: bool)
    requires
        keys@.len() == ks.len(),
        forall|j: int| 0 <= j < ks.len() ==> (#[trigger] keys@[j])@ == ks[j],
    ensures
        r == ks.contains(k@),
{
    let mut i: usize = 0;
    while i < keys.len()
        invariant
            i <= keys@.len(),
            keys@.len() == ks.len(),
            forall|j: int| 0 <= j < ks.len() ==> (#[trigger] keys@[j])@ == ks[j],
            forall|j: int| 0 <= j < i ==> ks[j] != k@,
        decreases keys@.len() - i,
    {
        if same_chars(&keys[i], k) {
            assert(ks[i as int] == k@);
            return true;
        }
        i = i + 1;
    }
    false
}

/// The URL that a request for `path` with `query` is forwarded to, under the
/// base URL `forward_url`.
pub fn create_forward_uri(forward_url: &str, path: &str, query: Option<&str>) -> (r: String)
    ensures
        r@ == forward_uri(
            forward_url@,
            path@,
            match query {
                Some(q) => q@,
                None => Seq::empty(),
            },
        ),
{
    let ghost rq_spec = match query {
        Some(q) => q@,
        None => Seq::<char>::empty(),
    };
    let fu = chars_of(forward_url);
    let url_parts = split_chars(&fu, '?');
    proof {
        crate::text::lemma_split_nonempty(fu@, '?');
    }
    let base = &url_parts[0];
    proof {
        crate::text::lemma_split_first(fu@, '?');
    }
    let mut fq: Vec<char> = Vec::new();
    assert(base@ == split_on(fu@, '?')[0]);
    if url_parts.len() > 1 {
        assert(split_on(fu@, '?').len() > 1);
        let n = fu.len();
        assert(base@.len() < n);
        let mut k: usize = base.len() + 1;
        while k < fu.len()
            invariant
                base@.len() + 1 <= k <= fu@.len(),
                fq@ == fu@.subrange(base@.len() + 1int, k as int),
            decreases fu@.len() - k,
        {
            fq.push(fu[k]);
            assert(fq@ =~= fu@.subrange(base@.len() + 1int, k + 1));
            k = k + 1;
        }
    }
    assert(fq@ =~= url_query(fu@));
    let rq = match query {
        Some(q) => chars_of(q),
        None => Vec::new(),
    };
    assert(rq@ =~= rq_spec);
    let mut url: Vec<char> = Vec::new();
    push_all(&mut url, base);
    if url.len() > 0 && url[url.len() - 1] == '/' {
        url.pop();
    }
    assert(url@ =~= strip_slash(split_on(fu@, '?')[0]));
    let p = chars_of(path);
    push_all(&mut url, &p);
    if fq.len() == 0 && rq.len() == 0 {
        return string_of(&url);
    }
    url.push('?');
    if fq.len() == 0 {
        push_all(&mut url, &rq);
        return string_of(&url);
    }
    push_all(&mut url, &fq);
    if rq.len() > 0 {
        let fq_segs = split_chars(&fq, '&');
        let mut keys: Vec<Vec<char>> = Vec::new();
        let mut j: usize = 0;
        while j < fq_segs.len()
            invariant
                j <= fq_segs@.len(),
                fq_segs@.len() == split_on(fq@, '&').len(),
                forall|m: int| 0 <= m < fq_segs@.len() ==> (#[trigger] fq_segs@[m])@ == split_on(fq@, '&')[m],
                keys@.len() == j,
                forall|m: int| 0 <= m < j ==> (#[trigger] keys@[m])@ == query_keys(fq@)[m],
            decreases fq_segs@.len() - j,
        {
            keys.push(key_of(&fq_segs[j]));
            j = j + 1;
        }
        let rq_segs = split_chars(&rq, '&');
        let ghost segs = split_on(rq@, '&');
        let ghost before = url@;
        let mut i: usize = 0;
        while i < rq_segs.len()
            invariant
                i <= rq_segs@.len(),
                rq_segs@.len() == segs.len(),
                segs == split_on(rq@, '&'),
                forall|m: int| 0 <= m < rq_segs@.len() ==> (#[trigger] rq_segs@[m])@ == segs[m],
                keys@.len() == query_keys(fq@).len(),
                forall|m: int| 0 <= m < keys@.len() ==> (#[trigger] keys@[m])@ == query_keys(fq@)[m],
                url@ == before + merged_pairs(segs.subrange(0, i as int), query_keys(fq@)),
            decreases rq_segs@.len() - i,
        {
            let seg = &rq_segs[i];
            let k = key_of(seg);
            assert(segs.subrange(0, i + 1).drop_last() =~= segs.subrange(0, i as int));
            assert(segs.subrange(0, i + 1).last() == segs[i as int]);
            if !has_key(&keys, &k, Ghost(query_keys(fq@))) {
                let v = value_of(seg);
                url.push('&');
                push_all(&mut url, &k);
                url.push('=');
                push_all(&mut url, &v);
                assert(url@ =~= before + merged_pairs(segs.subrange(0, i + 1), query_keys(fq@)));
            } else {
                assert(url@ =~= before + merged_pairs(segs.subrange(0, i + 1), query_keys(fq@)));
            }
            i = i + 1;
        }
        assert(segs.subrange(0, i as int) =~= segs);
    }
    if url.len() > 0 && url[url.len() - 1] == '&' {
        url.pop();
    }
    string_of(&url)
}

} // verus!
