use vstd::prelude::*;
use crate::text::{chars_of, same_chars};

verus! {

/// The name under which a handler is registered.
#[derive(Clone, Debug, PartialEq, Eq, Hash)]
pub struct HandlerId(pub String);

/// Named, shared handlers, for building bindings from a configuration.
/// Registration only adds, and a name is registered at most once.
pub struct HandlerRegistry<H> {
    names: Vec<String>,
    handlers: Vec<H>,
}

impl<H> HandlerRegistry<H> {
    /// The registered names, in the order of registration.
    pub closed spec fn names(&self) -> Seq<Seq<char>> {
        self.names@.map_values(|n: String| n@)
    }

    /// The registered handlers, in the same order.
    pub closed spec fn handlers(&self) -> Seq<H> {
        self.handlers@
    }

    /// No name is registered twice.
    pub open spec fn names_unique(&self) -> bool {
        forall|i: int, j: int|
            0 <= i < j < self.names().len() ==> self.names()[i] != self.names()[j]
    }

    /// One handler for each name, and no name twice.
    pub closed spec fn wf(&self) -> bool {
        &&& self.names@.len() == self.handlers@.len()
        &&& forall|i: int, j: int|
            0 <= i < j < self.names@.len() ==> self.names@[i]@ != self.names@[j]@
    }

    pub fn new() -> (r: Self)
        ensures
            r.wf(),
            r.names().len() == 0,
            r.handlers().len() == 0,
    {
        HandlerRegistry { names: Vec::new(), handlers: Vec::new() }
    }

    /// The position of `id` among the registered names.
    fn position(&self, id: &Vec<char>) -> (r: Option<usize>)
        requires
            self.wf(),
        ensures
            match r {
                Some(i) => i < self.names().len() && self.names()[i as int] == id@,
                None => !self.names().contains(id@),
            },
    {
        let mut i: usize = 0;
        while i < self.names.len()
            invariant
                self.wf(),
                i <= self.names@.len(),
                forall|j: int| 0 <= j < i ==> self.names()[j] != id@,
            decreases self.names@.len() - i,
        {
            let n = chars_of(self.names[i].as_str());
            if same_chars(&n, id) {
                return Some(i);
            }
            i = i + 1;
        }
        None
    }

    /// Registers `handler` under `id`; an error, which changes nothing, when
    /// `id` is registered already.
    pub fn register(&mut self, id: &str, handler: H) -> (r: Result<(), ()>)
        requires
            old(self).wf(),
        ensures
            final(self).wf(),
            final(self).names_unique(),
            final(self).names().len() == final(self).handlers().len(),
            old(self).names().contains(id@) ==> r is Err && final(self).names() == old(self).names()
                && final(self).handlers() == old(self).handlers(),
            !old(self).names().contains(id@) ==> r is Ok && final(self).names() == old(
                self,
            ).names().push(id@) && final(self).handlers() == old(self).handlers().push(handler),
    {
        let c = chars_of(id);
        match self.position(&c) {
            Some(_) => Err(()),
            None => {
                let name = crate::text::string_of(&c);
                self.names.push(name);
                self.handlers.push(handler);
                assert(self.names() =~= old(self).names().push(id@));
                proof {
                    assert forall|i: int, j: int|
                        0 <= i < j < self.names@.len() implies self.names@[i]@ != self.names@[j]@ by {
                        if j == self.names@.len() - 1 {
                            assert(old(self).names()[i] == self.names@[i]@);
                        }
                    }
                }
                Ok(())
            },
        }
    }

    /// The handler registered under `id`, if any.
    pub fn get_handler(&self, id: &HandlerId) -> (r: Option<&H>)
        requires
            self.wf(),
        ensures
            match r {
                Some(h) => {
                    &&& self.names().contains(id.0@)
                    &&& forall|i: int|
                        0 <= i < self.names().len() && self.names()[i] == id.0@ ==> self.handlers()[i]
                            == *h
                },
                None => !self.names().contains(id.0@),
            },
    {
        let c = chars_of(id.0.as_str());
        match self.position(&c) {
            Some(i) => Some(&self.handlers[i]),
            None => None,
        }
    }
}

} // verus!
