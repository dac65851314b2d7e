use vstd::prelude::*;
use crate::text::{split_bytes, split_on};

verus! {

/// Optional whitespace around the items of a header list: space or tab.
pub open spec fn is_ows(b: u8) -> bool {
    b == 32 || b == 9
}

/// `t` without the whitespace at its two ends.
pub open spec fn trim(t: Seq<u8>) -> Seq<u8>
    decreases t.len(),
{
    if t.len() > 0 && is_ows(t[0]) {
        trim(t.drop_first())
    } else if t.len() > 0 && is_ows(t.last()) {
        trim(t.drop_last())
    } else {
        t
    }
}

/// `t` without the whitespace at its two ends.
pub fn trim_bytes(t: &Vec<u8>) -> (r: Vec<u8>)
    ensures
        r@ == trim(t@),
{
    let mut a: usize = 0;
    assert(t@.subrange(0, t@.len() as int) =~= t@);
    while a < t.len() && (t[a] == 32 || t[a] == 9)
        invariant
            a <= t@.len(),
            trim(t@) == trim(t@.subrange(a as int, t@.len() as int)),
        decreases t@.len() - a,
    {
        assert(t@.subrange(a as int, t@.len() as int).drop_first() =~= t@.subrange(a + 1, t@.len() as int));
        a = a + 1;
    }
    let mut b: usize = t.len();
    assert(t@.subrange(a as int, b as int) =~= t@.subrange(a as int, t@.len() as int));
    while b > a && (t[b - 1] == 32 || t[b - 1] == 9)
        invariant
            a <= b <= t@.len(),
            a < t@.len() ==> !is_ows(t@[a as int]),
            trim(t@) == trim(t@.subrange(a as int, b as int)),
        decreases b - a,
    {
        assert(t@.subrange(a as int, b as int).drop_last() =~= t@.subrange(a as int, b - 1));
        b = b - 1;
    }
    let mut r: Vec<u8> = Vec::new();
    let mut i: usize = a;
    while i < b
        invariant
            a <= i <= b <= t@.len(),
            r@ == t@.subrange(a as int, i as int),
        decreases b - i,
    {
        r.push(t[i]);
        assert(r@ =~= t@.subrange(a as int, i + 1));
        i = i + 1;
    }
    r
}

/// The ASCII lower case of a byte.
pub open spec fn lower(b: u8) -> u8 {
    if 65 <= b <= 90 {
        (b + 32) as u8
    } else {
        b
    }
}

/// Two header names are the same name, ASCII case aside.
pub open spec fn same_name(a: Seq<u8>, b: Seq<u8>) -> bool {
    a.len() == b.len() && forall|i: int| 0 <= i < a.len() ==> lower(a[i]) == lower(b[i])
}

/// Whether two header names are the same name, ASCII case aside.
pub fn same_name_bytes(a: &Vec<u8>, b: &Vec<u8>) -> (r: bool)
    ensures
        r == same_name(a@, b@),
{
    if a.len() != b.len() {
        return false;
    }
    let mut i: usize = 0;
    while i < a.len()
        invariant
            a@.len() == b@.len(),
            i <= a@.len(),
            forall|j: int| 0 <= j < i ==> lower(a@[j]) == lower(b@[j]),
        decreases a@.len() - i,
    {
        let x = if 65 <= a[i] && a[i] <= 90 { a[i] + 32 } else { a[i] };
        let y = if 65 <= b[i] && b[i] <= 90 { b[i] + 32 } else { b[i] };
        if x != y {
            return false;
        }
        i = i + 1;
    }
    true
}

/// The value `v`, read as a comma-separated list, holds an item equal to
/// `name` once trimmed, ASCII case aside.
pub open spec fn has_token(v: Seq<u8>, name: Seq<u8>) -> bool {
    exists|i: int|
        0 <= i < split_on(v, 44u8).len() && same_name(trim(#[trigger] split_on(v, 44u8)[i]), name)
}

/// The items of the comma-separated list `v`, each trimmed.
pub fn tokens(v: &Vec<u8>) -> (r: Vec<Vec<u8>>)
    ensures
        r@.len() == split_on(v@, 44u8).len(),
        forall|j: int| 0 <= j < r@.len() ==> (#[trigger] r@[j])@ == trim(split_on(v@, 44u8)[j]),
{
    let parts = split_bytes(v, 44u8);
    let mut r: Vec<Vec<u8>> = Vec::new();
    let mut i: usize = 0;
    while i < parts.len()
        invariant
            i <= parts@.len(),
            parts@.len() == split_on(v@, 44u8).len(),
            forall|j: int| 0 <= j < parts@.len() ==> (#[trigger] parts@[j])@ == split_on(v@, 44u8)[j],
            r@.len() == i,
            forall|j: int| 0 <= j < i ==> (#[trigger] r@[j])@ == trim(split_on(v@, 44u8)[j]),
        decreases parts@.len() - i,
    {
        r.push(trim_bytes(&parts[i]));
        i = i + 1;
    }
    r
}

/// Whether the comma-separated list `v` holds `name`.
pub fn has_token_bytes(v: &Vec<u8>, name: &Vec<u8>) -> (r: bool)
    ensures
        r == has_token(v@, name@),
{
    let items = tokens(v);
    let mut i: usize = 0;
    while i < items.len()
        invariant
            i <= items@.len(),
            items@.len() == split_on(v@, 44u8).len(),
            forall|j: int| 0 <= j < items@.len() ==> (#[trigger] items@[j])@ == trim(split_on(v@, 44u8)[j]),
            forall|j: int| 0 <= j < i ==> !same_name(trim(#[trigger] split_on(v@, 44u8)[j]), name@),
        decreases items@.len() - i,
    {
        if same_name_bytes(&items[i], name) {
            assert(same_name(trim(split_on(v@, 44u8)[i as int]), name@));
            return true;
        }
        i = i + 1;
    }
    false
}

/// A copy of `v`.
pub fn copy_bytes(v: &Vec<u8>) -> (r: Vec<u8>)
    ensures
        r@ == v@,
{
    let mut r: Vec<u8> = Vec::new();
    let mut i: usize = 0;
    while i < v.len()
        invariant
            i <= v@.len(),
            r@ == v@.subrange(0, i as int),
        decreases v@.len() - i,
    {
        r.push(v[i]);
        assert(r@ =~= v@.subrange(0, i + 1));
        i = i + 1;
    }
    assert(r@ =~= v@);
    r
}

/// One header field: its name and its value, as bytes.
pub struct Header {
    pub name: Vec<u8>,
    pub value: Vec<u8>,
}

/// The header fields of a message, in order. Names compare ASCII case aside.
pub struct HeaderList {
    pub entries: Vec<Header>,
}

/// A header field as the contracts speak of it: name and value.
pub type HeaderPair = (Seq<u8>, Seq<u8>);

/// The fields of `hs` as pairs of byte sequences.
pub open spec fn pairs_of(hs: Seq<Header>) -> Seq<HeaderPair> {
    hs.map_values(|h: Header| (h.name@, h.value@))
}

impl View for HeaderList {
    type V = Seq<HeaderPair>;

    open spec fn view(&self) -> Seq<HeaderPair> {
        pairs_of(self.entries@)
    }
}

/// The value of the first field of `hs` named `name`.
pub open spec fn first_value(hs: Seq<HeaderPair>, name: Seq<u8>) -> Option<Seq<u8>>
    decreases hs.len(),
{
    if hs.len() == 0 {
        None
    } else if same_name(hs[0].0, name) {
        Some(hs[0].1)
    } else {
        first_value(hs.drop_first(), name)
    }
}

/// `n` is one of the non-empty names of `names`, ASCII case aside.
pub open spec fn listed(names: Seq<Seq<u8>>, n: Seq<u8>) -> bool {
    exists|i: int| 0 <= i < names.len() && names[i].len() > 0 && same_name(#[trigger] names[i], n)
}

/// Keeps the fields whose names are not listed in `names`.
pub open spec fn unlisted(names: Seq<Seq<u8>>) -> spec_fn(HeaderPair) -> bool {
    |h: HeaderPair| !listed(names, h.0)
}

/// The fields of `hs` whose names are not listed in `names`, in order.
pub open spec fn without(hs: Seq<HeaderPair>, names: Seq<Seq<u8>>) -> Seq<HeaderPair> {
    hs.filter(unlisted(names))
}

/// The byte sequences held by `v`.
pub open spec fn views_of(v: Seq<Vec<u8>>) -> Seq<Seq<u8>> {
    v.map_values(|x: Vec<u8>| x@)
}

/// `hs` with every field named `name` replaced by one field, at the end.
pub open spec fn with_field(hs: Seq<HeaderPair>, name: Seq<u8>, value: Seq<u8>) -> Seq<HeaderPair> {
    without(hs, seq![name]).push((name, value))
}

/// Whether `n` is one of the non-empty names of `names`.
pub fn is_listed(names: &Vec<Vec<u8>>, n: &Vec<u8>) -> (r: bool)
    ensures
        r == listed(views_of(names@), n@),
{
    let mut i: usize = 0;
    while i < names.len()
        invariant
            i <= names@.len(),
            forall|j: int|
                0 <= j < i ==> !((#[trigger] names@[j])@.len() > 0 && same_name(names@[j]@, n@)),
        decreases names@.len() - i,
    {
        if names[i].len() > 0 && same_name_bytes(&names[i], n) {
            assert(views_of(names@)[i as int] == names@[i as int]@);
            return true;
        }
        i = i + 1;
    }
    assert forall|j: int|
        0 <= j < views_of(names@).len() && views_of(names@)[j].len() > 0 implies !same_name(
        #[trigger] views_of(names@)[j],
        n@,
    ) by {
        assert(views_of(names@)[j] == names@[j]@);
    }
    false
}

impl HeaderList {
    pub fn new() -> (r: HeaderList)
        ensures
            r@.len() == 0,
    {
        HeaderList { entries: Vec::new() }
    }

    /// Adds a field at the end.
    pub fn append(&mut self, name: Vec<u8>, value: Vec<u8>)
        ensures
            final(self)@ == old(self)@.push((name@, value@)),
    {
        self.entries.push(Header { name, value });
        assert(final(self)@ =~= old(self)@.push((name@, value@)));
    }

    /// The value of the first field named `name`.
    pub fn get(&self, name: &Vec<u8>) -> (r: Option<&Vec<u8>>)
        ensures
            match first_value(self@, name@) {
                Some(v) => r is Some && r->0@ == v,
                None => r is None,
            },
    {
        let mut i: usize = 0;
        assert(self@.subrange(0, self@.len() as int) =~= self@);
        while i < self.entries.len()
            invariant
                i <= self@.len(),
                self@.len() == self.entries@.len(),
                first_value(self@, name@) == first_value(self@.subrange(i as int, self@.len() as int), name@),
            decreases self@.len() - i,
        {
            let ghost rest = self@.subrange(i as int, self@.len() as int);
            assert(rest.drop_first() =~= self@.subrange(i + 1, self@.len() as int));
            assert(rest[0] == self@[i as int]);
            if same_name_bytes(&self.entries[i].name, name) {
                return Some(&self.entries[i].value);
            }
            i = i + 1;
        }
        None
    }

    /// Removes every field whose name is listed in `names`; the others keep
    /// their order.
    pub fn remove_listed(&mut self, names: &Vec<Vec<u8>>)
        ensures
            final(self)@ == without(old(self)@, views_of(names@)),
    {
        let ghost hs = self@;
        let ghost keep = unlisted(views_of(names@));
        let mut kept: Vec<Header> = Vec::new();
        let mut i: usize = 0;
        while i < self.entries.len()
            invariant
                i <= self@.len(),
                self@ == hs,
                keep == unlisted(views_of(names@)),
                pairs_of(kept@) == hs.subrange(0, i as int).filter(keep),
            decreases self@.len() - i,
        {
            proof {
                reveal(Seq::filter);
                assert(hs.subrange(0, i + 1).drop_last() =~= hs.subrange(0, i as int));
            }
            let h = &self.entries[i];
            if !is_listed(names, &h.name) {
                let c = Header { name: copy_bytes(&h.name), value: copy_bytes(&h.value) };
                kept.push(c);
                assert(pairs_of(kept@) =~= hs.subrange(0, i as int).filter(keep).push(hs[i as int]));
            }
            i = i + 1;
        }
        assert(hs.subrange(0, i as int) =~= hs);
        self.entries = kept;
    }

    /// Removes every field named `name`.
    pub fn remove(&mut self, name: &Vec<u8>)
        ensures
            final(self)@ == without(old(self)@, seq![name@]),
    {
        let names = vec![copy_bytes(name)];
        assert(views_of(names@) =~= seq![name@]);
        self.remove_listed(&names);
    }

    /// Replaces every field named `name` by one field with `value`, at the
    /// end.
    pub fn insert(&mut self, name: Vec<u8>, value: Vec<u8>)
        ensures
            final(self)@ == with_field(old(self)@, name@, value@),
    {
        self.remove(&name);
        self.append(name, value);
    }
}

} // verus!
