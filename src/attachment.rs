use vstd::prelude::*;
use std::sync::Arc;
use crate::server::AppContext;

verus! {

/// The tag under which an attachment is stored.
#[derive(Clone, Copy, Debug, PartialEq, Eq, Structural, Hash)]
pub struct AttachmentKey(pub u32);

impl AttachmentKey {
    /// Tag of the application context.
    pub const APP_CONTEXT: u32 = 1;
    /// Tag of the address of the client that sent the request.
    pub const CLIENT_SRC: u32 = 2;
    /// Tag of a buffered copy of a body.
    pub const CACHED_BODY: u32 = 3;
}

/// The address of the peer of a connection: its IP in text and its port.
#[derive(Clone, Debug)]
pub struct ClientAddr {
    pub ip: String,
    pub port: u16,
}

/// The identity of the type of an attachment.
#[derive(Clone, Copy, Debug, PartialEq, Eq, Structural)]
pub enum AttachmentKind {
    Text,
    Bytes,
    Number,
    Flag,
    Client,
    Context,
}

/// A stored attachment: one variant for each type that can be attached.
pub enum AttachmentValue {
    Text(String),
    Bytes(Vec<u8>),
    Number(u64),
    Flag(bool),
    Client(ClientAddr),
    Context(Arc<AppContext>),
}

impl AttachmentValue {
    /// The type of the value held.
    pub open spec fn kind(self) -> AttachmentKind {
        match self {
            AttachmentValue::Text(_) => AttachmentKind::Text,
            AttachmentValue::Bytes(_) => AttachmentKind::Bytes,
            AttachmentValue::Number(_) => AttachmentKind::Number,
            AttachmentValue::Flag(_) => AttachmentKind::Flag,
            AttachmentValue::Client(_) => AttachmentKind::Client,
            AttachmentValue::Context(_) => AttachmentKind::Context,
        }
    }

    pub fn get_kind(&self) -> (r: AttachmentKind)
        ensures
            r == self.kind(),
    {
        match self {
            AttachmentValue::Text(_) => AttachmentKind::Text,
            AttachmentValue::Bytes(_) => AttachmentKind::Bytes,
            AttachmentValue::Number(_) => AttachmentKind::Number,
            AttachmentValue::Flag(_) => AttachmentKind::Flag,
            AttachmentValue::Client(_) => AttachmentKind::Client,
            AttachmentValue::Context(_) => AttachmentKind::Context,
        }
    }
}

/// A type whose values can be attached to an exchange. Each such type has
/// its own kind, and a stored value is handed back only to a caller that
/// names the type it was stored as.
pub trait Attachable: Sized {
    /// The kind that identifies this type.
    spec fn kind_of() -> AttachmentKind;

    /// The stored form of `self`.
    spec fn to_value(self) -> AttachmentValue;

    /// The value of this type held in `v`, if `v` holds one.
    spec fn from_value(v: AttachmentValue) -> Option<Self>;

    /// A stored value has the kind of its type and reads back as itself.
    proof fn lemma_round_trip(x: Self)
        ensures
            x.to_value().kind() == Self::kind_of(),
            Self::from_value(x.to_value()) == Some(x),
    ;

    fn kind() -> (r: AttachmentKind)
        ensures
            r == Self::kind_of(),
    ;

    fn into_value(self) -> (r: AttachmentValue)
        ensures
            r == self.to_value(),
            r.kind() == Self::kind_of(),
            Self::from_value(r) == Some(self),
    ;

    fn value_ref(v: &AttachmentValue) -> (r: Option<&Self>)
        ensures
            r is Some <==> v.kind() == Self::kind_of(),
            r is Some ==> Self::from_value(*v) == Some(*r->0),
    ;

    fn value_mut(v: &mut AttachmentValue) -> (r: Option<&mut Self>)
        ensures
            old(v).kind() == Self::kind_of() ==> {
                &&& r is Some
                &&& Self::from_value(*old(v)) == Some(*r->0)
                &&& *final(v) == (*final(r->0)).to_value()
            },
            old(v).kind() != Self::kind_of() ==> r is None && *final(v) == *old(v),
    ;
}

impl Attachable for String {
    open spec fn kind_of() -> AttachmentKind {
        AttachmentKind::Text
    }

    open spec fn to_value(self) -> AttachmentValue {
        AttachmentValue::Text(self)
    }

    open spec fn from_value(v: AttachmentValue) -> Option<String> {
        match v {
            AttachmentValue::Text(x) => Some(x),
            _ => None,
        }
    }

    proof fn lemma_round_trip(x: Self) {
    }

    fn kind() -> (r: AttachmentKind) {
        AttachmentKind::Text
    }

    fn into_value(self) -> (r: AttachmentValue) {
        AttachmentValue::Text(self)
    }

    fn value_ref(v: &AttachmentValue) -> (r: Option<&String>) {
        match v {
            AttachmentValue::Text(x) => Some(x),
            _ => None,
        }
    }

    fn value_mut(v: &mut AttachmentValue) -> (r: Option<&mut String>) {
        match v {
            AttachmentValue::Text(x) => Some(x),
            _ => None,
        }
    }
}

impl Attachable for Vec<u8> {
    open spec fn kind_of() -> AttachmentKind {
        AttachmentKind::Bytes
    }

    open spec fn to_value(self) -> AttachmentValue {
        AttachmentValue::Bytes(self)
    }

    open spec fn from_value(v: AttachmentValue) -> Option<Vec<u8>> {
        match v {
            AttachmentValue::Bytes(x) => Some(x),
            _ => None,
        }
    }

    proof fn lemma_round_trip(x: Self) {
    }

    fn kind() -> (r: AttachmentKind) {
        AttachmentKind::Bytes
    }

    fn into_value(self) -> (r: AttachmentValue) {
        AttachmentValue::Bytes(self)
    }

    fn value_ref(v: &AttachmentValue) -> (r: Option<&Vec<u8>>) {
        match v {
            AttachmentValue::Bytes(x) => Some(x),
            _ => None,
        }
    }

    fn value_mut(v: &mut AttachmentValue) -> (r: Option<&mut Vec<u8>>) {
        match v {
            AttachmentValue::Bytes(x) => Some(x),
            _ => None,
        }
    }
}

impl Attachable for u64 {
    open spec fn kind_of() -> AttachmentKind {
        AttachmentKind::Number
    }

    open spec fn to_value(self) -> AttachmentValue {
        AttachmentValue::Number(self)
    }

    open spec fn from_value(v: AttachmentValue) -> Option<u64> {
        match v {
            AttachmentValue::Number(x) => Some(x),
            _ => None,
        }
    }

    proof fn lemma_round_trip(x: Self) {
    }

    fn kind() -> (r: AttachmentKind) {
        AttachmentKind::Number
    }

    fn into_value(self) -> (r: AttachmentValue) {
        AttachmentValue::Number(self)
    }

    fn value_ref(v: &AttachmentValue) -> (r: Option<&u64>) {
        match v {
            AttachmentValue::Number(x) => Some(x),
            _ => None,
        }
    }

    fn value_mut(v: &mut AttachmentValue) -> (r: Option<&mut u64>) {
        match v {
            AttachmentValue::Number(x) => Some(x),
            _ => None,
        }
    }
}

impl Attachable for bool {
    open spec fn kind_of() -> AttachmentKind {
        AttachmentKind::Flag
    }

    open spec fn to_value(self) -> AttachmentValue {
        AttachmentValue::Flag(self)
    }

    open spec fn from_value(v: AttachmentValue) -> Option<bool> {
        match v {
            AttachmentValue::Flag(x) => Some(x),
            _ => None,
        }
    }

    proof fn lemma_round_trip(x: Self) {
    }

    fn kind() -> (r: AttachmentKind) {
        AttachmentKind::Flag
    }

    fn into_value(self) -> (r: AttachmentValue) {
        AttachmentValue::Flag(self)
    }

    fn value_ref(v: &AttachmentValue) -> (r: Option<&bool>) {
        match v {
            AttachmentValue::Flag(x) => Some(x),
            _ => None,
        }
    }

    fn value_mut(v: &mut AttachmentValue) -> (r: Option<&mut bool>) {
        match v {
            AttachmentValue::Flag(x) => Some(x),
            _ => None,
        }
    }
}

impl Attachable for ClientAddr {
    open spec fn kind_of() -> AttachmentKind {
        AttachmentKind::Client
    }

    open spec fn to_value(self) -> AttachmentValue {
        AttachmentValue::Client(self)
    }

    open spec fn from_value(v: AttachmentValue) -> Option<ClientAddr> {
        match v {
            AttachmentValue::Client(x) => Some(x),
            _ => None,
        }
    }

    proof fn lemma_round_trip(x: Self) {
    }

    fn kind() -> (r: AttachmentKind) {
        AttachmentKind::Client
    }

    fn into_value(self) -> (r: AttachmentValue) {
        AttachmentValue::Client(self)
    }

    fn value_ref(v: &AttachmentValue) -> (r: Option<&ClientAddr>) {
        match v {
            AttachmentValue::Client(x) => Some(x),
            _ => None,
        }
    }

    fn value_mut(v: &mut AttachmentValue) -> (r: Option<&mut ClientAddr>) {
        match v {
            AttachmentValue::Client(x) => Some(x),
            _ => None,
        }
    }
}

impl Attachable for Arc<AppContext> {
    open spec fn kind_of() -> AttachmentKind {
        AttachmentKind::Context
    }

    open spec fn to_value(self) -> AttachmentValue {
        AttachmentValue::Context(self)
    }

    open spec fn from_value(v: AttachmentValue) -> Option<Arc<AppContext>> {
        match v {
            AttachmentValue::Context(x) => Some(x),
            _ => None,
        }
    }

    proof fn lemma_round_trip(x: Self) {
    }

    fn kind() -> (r: AttachmentKind) {
        AttachmentKind::Context
    }

    fn into_value(self) -> (r: AttachmentValue) {
        AttachmentValue::Context(self)
    }

    fn value_ref(v: &AttachmentValue) -> (r: Option<&Arc<AppContext>>) {
        match v {
            AttachmentValue::Context(x) => Some(x),
            _ => None,
        }
    }

    fn value_mut(v: &mut AttachmentValue) -> (r: Option<&mut Arc<AppContext>>) {
        match v {
            AttachmentValue::Context(x) => Some(x),
            _ => None,
        }
    }
}

/// One stored attachment: its tag and its value, whose kind completes the key.
pub struct AttachmentEntry {
    pub tag: u32,
    pub value: AttachmentValue,
}

impl AttachmentEntry {
    pub open spec fn is_key(self, tag: u32, kind: AttachmentKind) -> bool {
        self.tag == tag && self.value.kind() == kind
    }
}

/// The value stored under `(tag, kind)` in `s`: the last entry with that key
/// decides.
pub open spec fn lookup(s: Seq<AttachmentEntry>, tag: u32, kind: AttachmentKind) -> Option<
    AttachmentValue,
>
    decreases s.len(),
{
    if s.len() == 0 {
        None
    } else if s.last().is_key(tag, kind) {
        Some(s.last().value)
    } else {
        lookup(s.drop_last(), tag, kind)
    }
}

/// Replacing the last entry with a key by another entry with that key changes
/// what is stored under that key alone.
proof fn lemma_lookup_update(
    s: Seq<AttachmentEntry>,
    i: int,
    e: AttachmentEntry,
    tag: u32,
    kind: AttachmentKind,
)
    requires
        0 <= i < s.len(),
        s[i].is_key(e.tag, e.value.kind()),
        forall|j: int| i < j < s.len() ==> !(#[trigger] s[j]).is_key(e.tag, e.value.kind()),
    ensures
        lookup(s.update(i, e), tag, kind) == if e.is_key(tag, kind) {
            Some(e.value)
        } else {
            lookup(s, tag, kind)
        },
    decreases s.len(),
{
    let t = s.update(i, e);
    if i < s.len() - 1 {
        assert(t.drop_last() =~= s.drop_last().update(i, e));
        assert(t.last() == s.last());
        lemma_lookup_update(s.drop_last(), i, e, tag, kind);
    } else {
        assert(t.drop_last() =~= s.drop_last());
    }
}

/// The attachments of one exchange, keyed by tag and by the kind of value.
pub struct Attachments {
    entries: Vec<AttachmentEntry>,
}

impl View for Attachments {
    type V = Seq<AttachmentEntry>;

    closed spec fn view(&self) -> Seq<AttachmentEntry> {
        self.entries@
    }
}

impl Attachments {
    /// What is stored under `(tag, kind)`.
    pub open spec fn get_spec(&self, tag: u32, kind: AttachmentKind) -> Option<AttachmentValue> {
        lookup(self@, tag, kind)
    }

    pub fn new() -> (r: Attachments)
        ensures
            r@.len() == 0,
            forall|tag: u32, kind: AttachmentKind| r.get_spec(tag, kind) is None,
    {
        Attachments { entries: Vec::new() }
    }

    /// The number of keys that hold a value.
    pub fn len(&self) -> (r: usize)
        ensures
            r == self@.len(),
    {
        self.entries.len()
    }

    /// The index of the entry that decides what `(tag, kind)` holds.
    fn find(&self, tag: u32, kind: AttachmentKind) -> (r: Option<usize>)
        ensures
            match r {
                Some(i) => {
                    &&& i < self@.len()
                    &&& self@[i as int].is_key(tag, kind)
                    &&& forall|j: int| i < j < self@.len() ==> !(#[trigger] self@[j]).is_key(tag, kind)
                    &&& self.get_spec(tag, kind) == Some(self@[i as int].value)
                },
                None => self.get_spec(tag, kind) is None,
            },
    {
        let mut i = self.entries.len();
        assert(self@.subrange(0, i as int) =~= self@);
        while i > 0
            invariant
                i <= self@.len(),
                lookup(self@, tag, kind) == lookup(self@.subrange(0, i as int), tag, kind),
                forall|j: int| i <= j < self@.len() ==> !(#[trigger] self@[j]).is_key(tag, kind),
            decreases i,
        {
            let e = &self.entries[i - 1];
            let k = e.value.get_kind();
            assert(self@.subrange(0, i as int).drop_last() =~= self@.subrange(0, i - 1));
            if e.tag == tag && k == kind {
                return Some(i - 1);
            }
            i = i - 1;
        }
        assert(self@.subrange(0, 0) =~= Seq::<AttachmentEntry>::empty());
        None
    }

    /// Stores `value` under `tag` and its kind, in place of what was there.
    pub fn put(&mut self, tag: u32, value: AttachmentValue)
        ensures
            forall|t: u32, k: AttachmentKind| #[trigger]
                lookup(final(self)@, t, k) == if t == tag && k == value.kind() {
                    Some(value)
                } else {
                    old(self).get_spec(t, k)
                },
            final(self)@.len() == old(self)@.len() + if lookup(old(self)@, tag, value.kind()) is None {
                1int
            } else {
                0int
            },
    {
        let kind = value.get_kind();
        let e = AttachmentEntry { tag, value };
        match self.find(tag, kind) {
            Some(i) => {
                proof {
                    assert forall|t: u32, k: AttachmentKind| #[trigger]
                        lookup(self@.update(i as int, e), t, k) == if t == tag && k == kind {
                            Some(e.value)
                        } else {
                            lookup(self@, t, k)
                        } by {
                        lemma_lookup_update(self@, i as int, e, t, k);
                    }
                }
                self.entries.set(i, e);
            },
            None => {
                self.entries.push(e);
                proof {
                    assert forall|t: u32, k: AttachmentKind| #[trigger]
                        lookup(self@, t, k) == if t == tag && k == kind {
                            Some(e.value)
                        } else {
                            lookup(old(self)@, t, k)
                        } by {
                        assert(self@.drop_last() =~= old(self)@);
                    }
                }
            },
        }
    }

    /// The value of type `K` stored under `tag`, if one is.
    pub fn get<K: Attachable>(&self, tag: u32) -> (r: Option<&K>)
        ensures
            match self.get_spec(tag, K::kind_of()) {
                Some(v) => r is Some && K::from_value(v) == Some(*r->0),
                None => r is None,
            },
    {
        let kind = K::kind();
        match self.find(tag, kind) {
            Some(i) => K::value_ref(&self.entries[i].value),
            None => None,
        }
    }

    /// Mutable access to the value of type `K` stored under `tag`, if one is.
    pub fn get_mut<K: Attachable>(&mut self, tag: u32) -> (r: Option<&mut K>)
        ensures
            match old(self).get_spec(tag, K::kind_of()) {
                Some(v) => {
                    &&& r is Some
                    &&& K::from_value(v) == Some(*r->0)
                    &&& forall|t: u32, k: AttachmentKind| #[trigger]
                        lookup(final(self)@, t, k) == if t == tag && k == K::kind_of() {
                            Some((*final(r->0)).to_value())
                        } else {
                            old(self).get_spec(t, k)
                        }
                },
                None => r is None && final(self)@ == old(self)@,
            },
    {
        let kind = K::kind();
        match self.find(tag, kind) {
            Some(i) => {
                let ghost s = self@;
                let entry = &mut self.entries[i];
                let r = K::value_mut(&mut entry.value);
                proof {
                    let e = AttachmentEntry { tag, value: (*final(r->0)).to_value() };
                    K::lemma_round_trip(*final(r->0));
                    assert forall|t: u32, k: AttachmentKind| #[trigger]
                        lookup(s.update(i as int, e), t, k) == if t == tag && k == kind {
                            Some(e.value)
                        } else {
                            lookup(s, t, k)
                        } by {
                        lemma_lookup_update(s, i as int, e, t, k);
                    }
                }
                r
            },
            None => None,
        }
    }
}

} // verus!
