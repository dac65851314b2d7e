use vstd::prelude::*;
use crate::attachment::{Attachable, AttachmentKey, AttachmentKind, AttachmentValue, Attachments};
use crate::status::Status;

verus! {

/// An observer of an exchange, called with a read-only view of it.
pub trait Listener<T>: Send {
    /// This listener has been called with `context`.
    spec fn notified(&self, context: T) -> bool;

    fn notify(&self, context: &T)
        ensures
            self.notified(*context),
    ;
}

/// A closure that accepts every view of the exchange, as a listener.
#[verifier::reject_recursive_types(T)]
pub struct FnListener<T, F: Fn(&T)> {
    f: F,
    marker: core::marker::PhantomData<T>,
}

impl<T, F: Fn(&T)> FnListener<T, F> {
    #[verifier::type_invariant]
    spec fn accepts_all(&self) -> bool {
        forall|x: &T| call_requires(self.f, (x,))
    }
}

impl<T: Send, F: Fn(&T) + Send> Listener<T> for FnListener<T, F> {
    closed spec fn notified(&self, context: T) -> bool {
        call_ensures(self.f, (&context,), ())
    }

    fn notify(&self, context: &T) {
        proof {
            use_type_invariant(self);
        }
        (self.f)(context)
    }
}

/// A listener held by an exchange.
#[verifier::reject_recursive_types(T)]
pub struct Callback<T> {
    callback: Box<dyn Listener<T>>,
}

impl<T> Callback<T> {
    /// The held listener has been called with `context`.
    pub closed spec fn notified(&self, context: T) -> bool {
        self.callback.notified(context)
    }
}

impl<T: Send + 'static> Callback<T> {
    pub fn new<F: Fn(&T) + Send + 'static>(callback: F) -> (r: Self)
        requires
            forall|x: &T| call_requires(callback, (x,)),
        ensures
            forall|c: T| #[trigger] r.notified(c) == call_ensures(callback, (&c,), ()),
    {
        Callback { callback: Box::new(FnListener { f: callback, marker: core::marker::PhantomData }) }
    }

    /// Calls the held listener with `context`.
    pub fn invoke(&self, context: &T)
        ensures
            self.notified(*context),
    {
        self.callback.notify(context);
    }
}

/// What the listeners of an exchange see: its status, messages and
/// attachments.
pub struct ExchangeState<I, O> {
    status: Status,
    input: I,
    output: O,
    attachments: Attachments,
}

impl<I, O> ExchangeState<I, O> {
    pub closed spec fn status_spec(&self) -> Status {
        self.status
    }

    pub closed spec fn input_spec(&self) -> I {
        self.input
    }

    pub closed spec fn output_spec(&self) -> O {
        self.output
    }

    pub closed spec fn attachments_spec(&self) -> Seq<crate::attachment::AttachmentEntry> {
        self.attachments@
    }

    pub fn status(&self) -> (r: &Status)
        ensures
            *r == self.status_spec(),
    {
        &self.status
    }

    pub fn input(&self) -> (r: &I)
        ensures
            *r == self.input_spec(),
    {
        &self.input
    }

    pub fn output(&self) -> (r: &O)
        ensures
            *r == self.output_spec(),
    {
        &self.output
    }

    pub fn attachment<K: Attachable>(&self, key: AttachmentKey) -> (r: Option<&K>)
        ensures
            match crate::attachment::lookup(self.attachments_spec(), key.0, K::kind_of()) {
                Some(v) => r is Some && K::from_value(v) == Some(*r->0),
                None => r is None,
            },
    {
        self.attachments.get::<K>(key.0)
    }
}

/// Calls each callback with `state`, in order.
fn run_callbacks<T: Send + 'static>(state: &T, callbacks: &Vec<Callback<T>>)
    ensures
        forall|i: int| 0 <= i < callbacks@.len() ==> (#[trigger] callbacks@[i]).notified(*state),
{
    let mut pos: usize = 0;
    while pos < callbacks.len()
        invariant
            pos <= callbacks@.len(),
            forall|i: int| 0 <= i < pos ==> (#[trigger] callbacks@[i]).notified(*state),
        decreases callbacks@.len() - pos,
    {
        callbacks[pos].invoke(state);
        pos = pos + 1;
    }
}

/// The state of an exchange as its contracts speak of it.
#[verifier::reject_recursive_types(I)]
#[verifier::reject_recursive_types(O)]
pub ghost struct ExchangeModel<I, O> {
    pub status: Status,
    pub input: I,
    pub output: O,
    pub attachments: Seq<crate::attachment::AttachmentEntry>,
    pub input_listeners: Seq<Callback<ExchangeState<I, O>>>,
    pub output_listeners: Seq<Callback<ExchangeState<I, O>>>,
    pub custom_listeners: Seq<Callback<ExchangeState<I, O>>>,
}

/// `x` is a value that `T::default()` returns.
pub open spec fn is_default<T: Default>(x: T) -> bool {
    call_ensures(T::default, (), x)
}

/// Every callback of `cbs` has been called with `context`.
pub open spec fn all_notified<T>(cbs: Seq<Callback<T>>, context: T) -> bool {
    forall|k: int| 0 <= k < cbs.len() ==> (#[trigger] cbs[k]).notified(context)
}

/// `after` is `before` with one more callback at the end, which stands for
/// `callback`.
pub open spec fn added_listener<T, F: Fn(&T)>(
    before: Seq<Callback<T>>,
    after: Seq<Callback<T>>,
    callback: F,
) -> bool {
    &&& after.len() == before.len() + 1
    &&& after.drop_last() == before
    &&& forall|c: T| #[trigger] after.last().notified(c) == call_ensures(callback, (&c,), ())
}

impl<I, O> ExchangeModel<I, O> {
    /// What is attached under `tag` with a value of `kind`.
    pub open spec fn attached(self, tag: u32, kind: AttachmentKind) -> Option<AttachmentValue> {
        crate::attachment::lookup(self.attachments, tag, kind)
    }

    /// The two states agree on everything but the status and the messages.
    pub open spec fn same_extras(self, other: ExchangeModel<I, O>) -> bool {
        &&& self.attachments == other.attachments
        &&& self.input_listeners == other.input_listeners
        &&& self.output_listeners == other.output_listeners
        &&& self.custom_listeners == other.custom_listeners
    }
}

/// A value attached under a tag as one type reads back as itself through
/// that type; read through another type under the same tag, it is not seen,
/// and nothing is found there unless it was attached as that type.
pub proof fn lemma_attachment_typed<I, O, T: Attachable, U: Attachable>(
    before: ExchangeModel<I, O>,
    after: ExchangeModel<I, O>,
    tag: u32,
    v: T,
)
    requires
        forall|t: u32, k: AttachmentKind| #[trigger]
            after.attached(t, k) == if t == tag && k == T::kind_of() {
                Some(v.to_value())
            } else {
                before.attached(t, k)
            },
        before.attached(tag, U::kind_of()) is None,
    ensures
        after.attached(tag, T::kind_of()) is Some,
        T::from_value(after.attached(tag, T::kind_of())->0) == Some(v),
        U::kind_of() != T::kind_of() ==> after.attached(tag, U::kind_of()) is None,
{
    T::lemma_round_trip(v);
    assert(after.attached(tag, T::kind_of()) == Some(v.to_value()));
    assert(after.attached(tag, U::kind_of()) == if U::kind_of() == T::kind_of() {
        Some(v.to_value())
    } else {
        before.attached(tag, U::kind_of())
    });
}

/// The context of one request: the input and output messages, the status
/// with its lifecycle flags, typed attachments and three sets of listeners.
#[verifier::reject_recursive_types(I)]
#[verifier::reject_recursive_types(O)]
pub struct Exchange<I: Send + 'static, O: Send + 'static> {
    state: ExchangeState<I, O>,
    input_listeners: Vec<Callback<ExchangeState<I, O>>>,
    output_listeners: Vec<Callback<ExchangeState<I, O>>>,
    custom_listeners: Vec<Callback<ExchangeState<I, O>>>,
}

impl<I: Send + 'static, O: Send + 'static> View for Exchange<I, O> {
    type V = ExchangeModel<I, O>;

    closed spec fn view(&self) -> ExchangeModel<I, O> {
        ExchangeModel {
            status: self.state.status,
            input: self.state.input,
            output: self.state.output,
            attachments: self.state.attachments@,
            input_listeners: self.input_listeners@,
            output_listeners: self.output_listeners@,
            custom_listeners: self.custom_listeners@,
        }
    }
}

impl<I: Default + Send + 'static, O: Default + Send + 'static> Exchange<I, O> {
    /// A fresh exchange: code 200, no flag set, default messages, nothing
    /// attached and no listener.
    pub fn new() -> (r: Self)
        ensures
            r@.status.0 == 200,
            is_default(r@.input),
            is_default(r@.output),
            r@.attachments.len() == 0,
            forall|tag: u32, kind: AttachmentKind| r@.attached(tag, kind) is None,
            r@.input_listeners.len() == 0,
            r@.output_listeners.len() == 0,
            r@.custom_listeners.len() == 0,
    {
        Exchange {
            state: ExchangeState {
                status: Status(200),
                input: I::default(),
                output: O::default(),
                attachments: Attachments::new(),
            },
            input_listeners: Vec::new(),
            output_listeners: Vec::new(),
            custom_listeners: Vec::new(),
        }
    }
}

impl<I: Default + Send + 'static, O: Default + Send + 'static> Exchange<I, O> {
    /// The state that listeners see: this exchange's status and attachments,
    /// with `input` and `output` as its messages.
    pub closed spec fn state_with(&self, input: I, output: O) -> ExchangeState<I, O> {
        ExchangeState { input, output, ..self.state }
    }

    /// What a listener sees through `state_with`.
    pub proof fn lemma_state_with(&self, input: I, output: O)
        ensures
            self.state_with(input, output).status_spec() == self@.status,
            self.state_with(input, output).input_spec() == input,
            self.state_with(input, output).output_spec() == output,
            self.state_with(input, output).attachments_spec() == self@.attachments,
    {
    }

    /// Attaches `value` under `key` and the type `K`, in place of what was
    /// attached there.
    pub fn add_attachment<K: Attachable>(&mut self, key: AttachmentKey, value: K)
        ensures
            forall|tag: u32, kind: AttachmentKind| #[trigger]
                final(self)@.attached(tag, kind) == if tag == key.0 && kind == K::kind_of() {
                    Some(value.to_value())
                } else {
                    old(self)@.attached(tag, kind)
                },
            final(self)@.attachments.len() == old(self)@.attachments.len() + if old(
                self,
            )@.attached(key.0, K::kind_of()) is None {
                1int
            } else {
                0int
            },
            final(self)@.status == old(self)@.status,
            final(self)@.input == old(self)@.input,
            final(self)@.output == old(self)@.output,
            final(self)@.input_listeners == old(self)@.input_listeners,
            final(self)@.output_listeners == old(self)@.output_listeners,
            final(self)@.custom_listeners == old(self)@.custom_listeners,
    {
        let v = value.into_value();
        self.state.attachments.put(key.0, v);
    }

    /// The value of type `K` attached under `key`, if there is one.
    pub fn attachment<K: Attachable>(&self, key: AttachmentKey) -> (r: Option<&K>)
        ensures
            match self@.attached(key.0, K::kind_of()) {
                Some(v) => r is Some && K::from_value(v) == Some(*r->0),
                None => r is None,
            },
    {
        self.state.attachments.get::<K>(key.0)
    }

    /// Mutable access to the value of type `K` attached under `key`.
    pub fn attachment_mut<K: Attachable>(&mut self, key: AttachmentKey) -> (r: Option<&mut K>)
        ensures
            match old(self)@.attached(key.0, K::kind_of()) {
                Some(v) => {
                    &&& r is Some
                    &&& K::from_value(v) == Some(*r->0)
                    &&& forall|tag: u32, kind: AttachmentKind| #[trigger]
                        final(self)@.attached(tag, kind) == if tag == key.0 && kind == K::kind_of() {
                            Some((*final(r->0)).to_value())
                        } else {
                            old(self)@.attached(tag, kind)
                        }
                },
                None => r is None && final(self)@.attachments == old(self)@.attachments,
            },
            final(self)@.status == old(self)@.status,
            final(self)@.input == old(self)@.input,
            final(self)@.output == old(self)@.output,
            final(self)@.input_listeners == old(self)@.input_listeners,
            final(self)@.output_listeners == old(self)@.output_listeners,
            final(self)@.custom_listeners == old(self)@.custom_listeners,
    {
        self.state.attachments.get_mut::<K>(key.0)
    }

    /// Adds a listener to the input set; it runs after those added before.
    pub fn add_input_listener<F: Fn(&ExchangeState<I, O>) + Send + 'static>(&mut self, callback: F)
        requires
            forall|x: &ExchangeState<I, O>| call_requires(callback, (x,)),
        ensures
            added_listener(old(self)@.input_listeners, final(self)@.input_listeners, callback),
            final(self)@.output_listeners == old(self)@.output_listeners,
            final(self)@.custom_listeners == old(self)@.custom_listeners,
            final(self)@.status == old(self)@.status,
            final(self)@.input == old(self)@.input,
            final(self)@.output == old(self)@.output,
            final(self)@.attachments == old(self)@.attachments,
    {
        self.input_listeners.push(Callback::new(callback));
        assert(self.input_listeners@.drop_last() =~= old(self).input_listeners@);
    }

    /// Adds a listener to the output set; it runs after those added before.
    pub fn add_output_listener<F: Fn(&ExchangeState<I, O>) + Send + 'static>(&mut self, callback: F)
        requires
            forall|x: &ExchangeState<I, O>| call_requires(callback, (x,)),
        ensures
            added_listener(old(self)@.output_listeners, final(self)@.output_listeners, callback),
            final(self)@.input_listeners == old(self)@.input_listeners,
            final(self)@.custom_listeners == old(self)@.custom_listeners,
            final(self)@.status == old(self)@.status,
            final(self)@.input == old(self)@.input,
            final(self)@.output == old(self)@.output,
            final(self)@.attachments == old(self)@.attachments,
    {
        self.output_listeners.push(Callback::new(callback));
        assert(self.output_listeners@.drop_last() =~= old(self).output_listeners@);
    }

    /// Adds a listener to the custom set; it runs after those added before.
    pub fn add_custom_listener<F: Fn(&ExchangeState<I, O>) + Send + 'static>(&mut self, callback: F)
        requires
            forall|x: &ExchangeState<I, O>| call_requires(callback, (x,)),
        ensures
            added_listener(old(self)@.custom_listeners, final(self)@.custom_listeners, callback),
            final(self)@.input_listeners == old(self)@.input_listeners,
            final(self)@.output_listeners == old(self)@.output_listeners,
            final(self)@.status == old(self)@.status,
            final(self)@.input == old(self)@.input,
            final(self)@.output == old(self)@.output,
            final(self)@.attachments == old(self)@.attachments,
    {
        self.custom_listeners.push(Callback::new(callback));
        assert(self.custom_listeners@.drop_last() =~= old(self).custom_listeners@);
    }

    /// Fires the input listeners, in the order they were added, unless they
    /// have fired before: then nothing happens and the result is an error.
    /// The flag that records the firing is set before the first one runs.
    pub fn execute_input_listeners(&mut self) -> (r: Result<(), ()>)
        ensures
            old(self)@.status.0 & 0x1000 == 0 ==> {
                &&& r is Ok
                &&& final(self)@.status == Status(old(self)@.status.0 | 0x1000)
                &&& all_notified(
                    final(self)@.input_listeners,
                    final(self).state_with(final(self)@.input, final(self)@.output),
                )
            },
            old(self)@.status.0 & 0x1000 != 0 ==> r is Err && final(self)@ == old(self)@,
            old(self)@.status.flags_kept(final(self)@.status),
            final(self)@.status.code() == old(self)@.status.code(),
            final(self)@.input == old(self)@.input,
            final(self)@.output == old(self)@.output,
            final(self)@.same_extras(old(self)@),
    {
        proof {
            self.state.status.lemma_set_flags(0x1000);
        }
        if self.state.status.all_flags_clear(Status(Status::INPUT_LISTENERS_COMPLETE)) {
            self.state.status = self.state.status | Status(Status::INPUT_LISTENERS_COMPLETE);
            run_callbacks(&self.state, &self.input_listeners);
            return Ok(());
        }
        Err(())
    }

    /// Fires the output listeners, in the order they were added, unless they
    /// have fired before: then nothing happens and the result is an error.
    /// The flag that records the firing is set before the first one runs.
    pub fn execute_output_listeners(&mut self) -> (r: Result<(), ()>)
        ensures
            old(self)@.status.0 & 0x2000 == 0 ==> {
                &&& r is Ok
                &&& final(self)@.status == Status(old(self)@.status.0 | 0x2000)
                &&& all_notified(
                    final(self)@.output_listeners,
                    final(self).state_with(final(self)@.input, final(self)@.output),
                )
            },
            old(self)@.status.0 & 0x2000 != 0 ==> r is Err && final(self)@ == old(self)@,
            old(self)@.status.flags_kept(final(self)@.status),
            final(self)@.status.code() == old(self)@.status.code(),
            final(self)@.input == old(self)@.input,
            final(self)@.output == old(self)@.output,
            final(self)@.same_extras(old(self)@),
    {
        proof {
            self.state.status.lemma_set_flags(0x2000);
        }
        if self.state.status.all_flags_clear(Status(Status::OUTPUT_LISTENERS_COMPLETE)) {
            self.state.status = self.state.status | Status(Status::OUTPUT_LISTENERS_COMPLETE);
            run_callbacks(&self.state, &self.output_listeners);
            return Ok(());
        }
        Err(())
    }

    /// Fires the custom listeners, in the order they were added, unless they
    /// have fired before: then nothing happens and the result is an error.
    /// The flag that records the firing is set before the first one runs.
    pub fn execute_custom_listeners(&mut self) -> (r: Result<(), ()>)
        ensures
            old(self)@.status.0 & 0x4000 == 0 ==> {
                &&& r is Ok
                &&& final(self)@.status == Status(old(self)@.status.0 | 0x4000)
                &&& all_notified(
                    final(self)@.custom_listeners,
                    final(self).state_with(final(self)@.input, final(self)@.output),
                )
            },
            old(self)@.status.0 & 0x4000 != 0 ==> r is Err && final(self)@ == old(self)@,
            old(self)@.status.flags_kept(final(self)@.status),
            final(self)@.status.code() == old(self)@.status.code(),
            final(self)@.input == old(self)@.input,
            final(self)@.output == old(self)@.output,
            final(self)@.same_extras(old(self)@),
    {
        proof {
            self.state.status.lemma_set_flags(0x4000);
        }
        if self.state.status.all_flags_clear(Status(Status::CUSTOM_LISTENERS_COMPLETE)) {
            self.state.status = self.state.status | Status(Status::CUSTOM_LISTENERS_COMPLETE);
            run_callbacks(&self.state, &self.custom_listeners);
            return Ok(());
        }
        Err(())
    }

    /// Stores the input message.
    pub fn save_input(&mut self, request: I)
        ensures
            final(self)@ == (ExchangeModel { input: request, ..old(self)@ }),
    {
        self.state.input = request;
    }

    /// The input message, while it has not been consumed.
    pub fn input(&self) -> (r: Result<&I, ()>)
        ensures
            self@.status.0 & 0x400 == 0 ==> r is Ok && *r->Ok_0 == self@.input,
            self@.status.0 & 0x400 != 0 ==> r is Err,
    {
        if self.state.status.all_flags_clear(Status(Status::INPUT_CONSUMED)) {
            return Ok(&self.state.input);
        }
        Err(())
    }

    /// Takes the input message out of the exchange, once: the input
    /// listeners fire first, and a second call is an error that changes
    /// nothing.
    pub fn consume_request(&mut self) -> (r: Result<I, ()>)
        ensures
            old(self)@.status.0 & 0x400 == 0 ==> {
                &&& r == Ok::<I, ()>(old(self)@.input)
                &&& final(self)@.status == Status(old(self)@.status.0 | 0x400 | 0x1000)
                &&& is_default(final(self)@.input)
                &&& final(self)@.output == old(self)@.output
            },
            old(self)@.status.0 & 0x400 == 0 && old(self)@.status.0 & 0x1000 == 0 ==> all_notified(
                final(self)@.input_listeners,
                final(self).state_with(old(self)@.input, final(self)@.output),
            ),
            old(self)@.status.0 & 0x400 != 0 ==> r is Err && final(self)@ == old(self)@,
            old(self)@.status.flags_kept(final(self)@.status),
            final(self)@.status.code() == old(self)@.status.code(),
            final(self)@.same_extras(old(self)@),
    {
        proof {
            self.state.status.lemma_set_flags(0x400);
        }
        if self.state.status.all_flags_clear(Status(Status::INPUT_CONSUMED)) {
            self.state.status = self.state.status | Status(Status::INPUT_CONSUMED);
            let ghost s1 = self.state.status.0;
            proof {
                let a = old(self)@.status.0;
                assert(a & 0x1000 == 0 ==> s1 & 0x1000 == 0) by (bit_vector)
                    requires
                        s1 == a | 0x400,
                ;
            }
            let _ = self.execute_input_listeners();
            let ghost seen = self.state;
            proof {
                let a = old(self)@.status.0;
                assert(s1 & 0x1000 != 0 ==> s1 | 0x1000 == s1) by (bit_vector);
                assert(s1 | 0x1000 == a | 0x400 | 0x1000) by (bit_vector)
                    requires
                        s1 == a | 0x400,
                ;
                assert(a & 0x7c00 & (a | 0x400 | 0x1000) == a & 0x7c00) by (bit_vector);
                assert((a | 0x400 | 0x1000) & 0x3ff == a & 0x3ff) by (bit_vector);
            }
            let mut taken = I::default();
            std::mem::swap(&mut self.state.input, &mut taken);
            assert(self.state_with(old(self)@.input, self@.output) == seen);
            return Ok(taken);
        }
        Err(())
    }

    /// Stores the output message.
    pub fn save_output(&mut self, response: O)
        ensures
            final(self)@ == (ExchangeModel { output: response, ..old(self)@ }),
    {
        self.state.output = response;
    }

    /// Takes the output message out of the exchange, once: the output
    /// listeners fire first, and a second call is an error that changes
    /// nothing. The response code is left as it was, for the caller to put
    /// on the message.
    pub fn consume_output(&mut self) -> (r: Result<O, ()>)
        ensures
            old(self)@.status.0 & 0x800 == 0 ==> {
                &&& r == Ok::<O, ()>(old(self)@.output)
                &&& final(self)@.status == Status(old(self)@.status.0 | 0x800 | 0x2000)
                &&& is_default(final(self)@.output)
                &&& final(self)@.input == old(self)@.input
            },
            old(self)@.status.0 & 0x800 == 0 && old(self)@.status.0 & 0x2000 == 0 ==> all_notified(
                final(self)@.output_listeners,
                final(self).state_with(final(self)@.input, old(self)@.output),
            ),
            old(self)@.status.0 & 0x800 != 0 ==> r is Err && final(self)@ == old(self)@,
            old(self)@.status.flags_kept(final(self)@.status),
            final(self)@.status.code() == old(self)@.status.code(),
            final(self)@.same_extras(old(self)@),
    {
        proof {
            self.state.status.lemma_set_flags(0x800);
        }
        if self.state.status.all_flags_clear(Status(Status::OUTPUT_CONSUMED)) {
            self.state.status = self.state.status | Status(Status::OUTPUT_CONSUMED);
            let ghost s1 = self.state.status.0;
            proof {
                let a = old(self)@.status.0;
                assert(a & 0x2000 == 0 ==> s1 & 0x2000 == 0) by (bit_vector)
                    requires
                        s1 == a | 0x800,
                ;
            }
            let _ = self.execute_output_listeners();
            let ghost seen = self.state;
            proof {
                let a = old(self)@.status.0;
                assert(s1 & 0x2000 != 0 ==> s1 | 0x2000 == s1) by (bit_vector);
                assert(s1 | 0x2000 == a | 0x800 | 0x2000) by (bit_vector)
                    requires
                        s1 == a | 0x800,
                ;
                assert(a & 0x7c00 & (a | 0x800 | 0x2000) == a & 0x7c00) by (bit_vector);
                assert((a | 0x800 | 0x2000) & 0x3ff == a & 0x3ff) by (bit_vector);
            }
            let mut taken = O::default();
            std::mem::swap(&mut self.state.output, &mut taken);
            assert(self.state_with(self@.input, old(self)@.output) == seen);
            return Ok(taken);
        }
        Err(())
    }

    /// The status: lifecycle flags and response code.
    pub fn status(&self) -> (r: &Status)
        ensures
            *r == self@.status,
    {
        &self.state.status
    }

    /// Sets the response code and leaves every flag as it was.
    pub fn set_status_code(&mut self, code: u16)
        requires
            code < 1024,
        ensures
            final(self)@.status.code() == code as i32,
            final(self)@.status.0 & !0x3ffi32 == old(self)@.status.0 & !0x3ffi32,
            old(self)@.status.flags_kept(final(self)@.status),
            final(self)@.input == old(self)@.input,
            final(self)@.output == old(self)@.output,
            final(self)@.same_extras(old(self)@),
    {
        self.state.status = self.state.status.with_code(code);
    }

    /// The attachments, for reading.
    pub fn attachments(&self) -> (r: &Attachments)
        ensures
            r@ == self@.attachments,
    {
        &self.state.attachments
    }

    /// The response code held in the status.
    pub fn response_code(&self) -> (r: u16)
        ensures
            r as i32 == self@.status.code(),
    {
        self.state.status.response_code()
    }
}

} // verus!
