use vstd::prelude::*;
use crate::text::{chars_of, is_prefix, same_chars, starts_with};

verus! {

/// The method of a request.
#[derive(Clone, Copy, Debug, PartialEq, Eq, Structural, Default)]
pub enum HttpMethod {
    Options,
    #[default]
    Get,
    Post,
    Put,
    Delete,
    Head,
    Trace,
    Connect,
    Patch,
}

/// The lower-case form of a string, as `str::to_lowercase` gives it.
pub uninterp spec fn lower_of(s: Seq<char>) -> Seq<char>;

/// Relies on `str::to_lowercase`: the result depends on the characters alone.
#[verifier::external_body]
fn lowercase(s: &str) -> (r: String)
    ensures
        r@ == lower_of(s@),
{
    s.to_lowercase()
}

/// The method whose lower-case name is `s`.
pub open spec fn method_named(s: Seq<char>) -> Option<HttpMethod> {
    if s == seq!['o', 'p', 't', 'i', 'o', 'n', 's'] {
        Some(HttpMethod::Options)
    } else if s == seq!['g', 'e', 't'] {
        Some(HttpMethod::Get)
    } else if s == seq!['p', 'o', 's', 't'] {
        Some(HttpMethod::Post)
    } else if s == seq!['p', 'u', 't'] {
        Some(HttpMethod::Put)
    } else if s == seq!['d', 'e', 'l', 'e', 't', 'e'] {
        Some(HttpMethod::Delete)
    } else if s == seq!['h', 'e', 'a', 'd'] {
        Some(HttpMethod::Head)
    } else if s == seq!['t', 'r', 'a', 'c', 'e'] {
        Some(HttpMethod::Trace)
    } else if s == seq!['c', 'o', 'n', 'n', 'e', 'c', 't'] {
        Some(HttpMethod::Connect)
    } else if s == seq!['p', 'a', 't', 'c', 'h'] {
        Some(HttpMethod::Patch)
    } else {
        None
    }
}

impl HttpMethod {
    /// The method named by `name`, which is already in lower case.
    pub fn from_lowercase(name: &str) -> (r: Result<HttpMethod, ()>)
        ensures
            match method_named(name@) {
                Some(m) => r == Ok::<HttpMethod, ()>(m),
                None => r is Err,
            },
    {
        let c = chars_of(name);
        if same_chars(&c, &vec!['o', 'p', 't', 'i', 'o', 'n', 's']) {
            Ok(HttpMethod::Options)
        } else if same_chars(&c, &vec!['g', 'e', 't']) {
            Ok(HttpMethod::Get)
        } else if same_chars(&c, &vec!['p', 'o', 's', 't']) {
            Ok(HttpMethod::Post)
        } else if same_chars(&c, &vec!['p', 'u', 't']) {
            Ok(HttpMethod::Put)
        } else if same_chars(&c, &vec!['d', 'e', 'l', 'e', 't', 'e']) {
            Ok(HttpMethod::Delete)
        } else if same_chars(&c, &vec!['h', 'e', 'a', 'd']) {
            Ok(HttpMethod::Head)
        } else if same_chars(&c, &vec!['t', 'r', 'a', 'c', 'e']) {
            Ok(HttpMethod::Trace)
        } else if same_chars(&c, &vec!['c', 'o', 'n', 'n', 'e', 'c', 't']) {
            Ok(HttpMethod::Connect)
        } else if same_chars(&c, &vec!['p', 'a', 't', 'c', 'h']) {
            Ok(HttpMethod::Patch)
        } else {
            Err(())
        }
    }

    /// The method named by `name`, in any case.
    pub fn parse(name: &str) -> (r: Result<HttpMethod, ()>)
        ensures
            match method_named(lower_of(name@)) {
                Some(m) => r == Ok::<HttpMethod, ()>(m),
                None => r is Err,
            },
    {
        let lower = lowercase(name);
        HttpMethod::from_lowercase(lower.as_str())
    }
}

impl core::str::FromStr for HttpMethod {
    type Err = ();

    fn from_str(s: &str) -> (r: Result<HttpMethod, ()>)
        ensures
            match method_named(lower_of(s@)) {
                Some(m) => r == Ok::<HttpMethod, ()>(m),
                None => r is Err,
            },
    {
        HttpMethod::parse(s)
    }
}

/// A binding of a method and a path prefix to the handlers that serve it:
/// those of the request chain run first, then those of the response chain.
pub struct PathConfig<H> {
    pub path: String,
    pub method: HttpMethod,
    pub request: Vec<H>,
    pub response: Vec<H>,
}

/// `b` serves a request with `method` for `path`.
pub open spec fn binding_matches<H>(b: PathConfig<H>, method: HttpMethod, path: Seq<char>) -> bool {
    b.method == method && is_prefix(b.path@, path)
}

/// The index of the first binding that serves a request with `method` for
/// `path`, or `None` when no binding does.
pub fn select_binding<H>(paths: &Vec<PathConfig<H>>, method: HttpMethod, path: &str) -> (r: Option<
    usize,
>)
    ensures
        match r {
            Some(i) => {
                &&& i < paths@.len()
                &&& binding_matches(paths@[i as int], method, path@)
                &&& forall|j: int| 0 <= j < i ==> !binding_matches(#[trigger] paths@[j], method, path@)
            },
            None => forall|j: int|
                0 <= j < paths@.len() ==> !binding_matches(#[trigger] paths@[j], method, path@),
        },
{
    let target = chars_of(path);
    let mut i: usize = 0;
    while i < paths.len()
        invariant
            i <= paths@.len(),
            target@ == path@,
            forall|j: int| 0 <= j < i ==> !binding_matches(#[trigger] paths@[j], method, path@),
        decreases paths@.len() - i,
    {
        let b = &paths[i];
        if b.method == method {
            let prefix = chars_of(b.path.as_str());
            if starts_with(&target, &prefix) {
                return Some(i);
            }
        }
        i = i + 1;
    }
    None
}

/// The code of the response sent when no binding serves a request.
pub const NOT_FOUND: u16 = 404;

/// The code of the response sent when a handler of either chain fails.
pub const INTERNAL_SERVER_ERROR: u16 = 500;

/// What the dispatcher does next for a request that a binding serves.
#[derive(Clone, Copy, Debug, PartialEq, Eq, Structural)]
pub enum Step {
    /// Run the handler at this index of the request chain.
    Request(usize),
    /// Run the handler at this index of the response chain.
    Response(usize),
    /// Consume the output of the exchange and send it.
    Respond,
    /// Send an empty response with this code.
    Reject(u16),
}

/// The progress of the two handler chains of one request.
#[derive(Clone, Copy, Debug, PartialEq, Eq, Structural)]
pub struct ChainRun {
    pub request_len: usize,
    pub response_len: usize,
    pub step: Step,
}

/// The step that follows the last handler of the request chain.
pub open spec fn response_start(response_len: usize) -> Step {
    if response_len > 0 {
        Step::Response(0)
    } else {
        Step::Respond
    }
}

impl ChainRun {
    /// The step that follows `self` when the handler it ran reported
    /// `succeeded`. A failure rejects the request with code 500 and runs no
    /// further handler; after the last handler of the request chain comes the
    /// first of the response chain, and after the last of that, the response.
    pub open spec fn next_spec(self, succeeded: bool) -> ChainRun {
        let step = match self.step {
            Step::Request(i) => if !succeeded {
                Step::Reject(500)
            } else if i + 1 < self.request_len {
                Step::Request((i + 1) as usize)
            } else {
                response_start(self.response_len)
            },
            Step::Response(i) => if !succeeded {
                Step::Reject(500)
            } else if i + 1 < self.response_len {
                Step::Response((i + 1) as usize)
            } else {
                Step::Respond
            },
            other => other,
        };
        ChainRun { step, ..self }
    }

    /// The steps run so far lie within the chains.
    pub open spec fn wf(self) -> bool {
        match self.step {
            Step::Request(i) => i < self.request_len,
            Step::Response(i) => i < self.response_len,
            Step::Respond => true,
            Step::Reject(code) => code == 500,
        }
    }

    /// The first step for a request served by a binding with these chains.
    pub fn start(request_len: usize, response_len: usize) -> (r: ChainRun)
        ensures
            r.request_len == request_len,
            r.response_len == response_len,
            r.step == if request_len > 0 {
                Step::Request(0)
            } else {
                response_start(response_len)
            },
            r.wf(),
    {
        let step = if request_len > 0 {
            Step::Request(0)
        } else if response_len > 0 {
            Step::Response(0)
        } else {
            Step::Respond
        };
        ChainRun { request_len, response_len, step }
    }

    /// The step after the current one, given the outcome of the handler
    /// that it ran.
    pub fn next(self, succeeded: bool) -> (r: ChainRun)
        requires
            self.wf(),
        ensures
            r == self.next_spec(succeeded),
            r.wf(),
    {
        let step = match self.step {
            Step::Request(i) => if !succeeded {
                Step::Reject(INTERNAL_SERVER_ERROR)
            } else if i + 1 < self.request_len {
                Step::Request(i + 1)
            } else if self.response_len > 0 {
                Step::Response(0)
            } else {
                Step::Respond
            },
            Step::Response(i) => if !succeeded {
                Step::Reject(INTERNAL_SERVER_ERROR)
            } else if i + 1 < self.response_len {
                Step::Response(i + 1)
            } else {
                Step::Respond
            },
            other => other,
        };
        ChainRun { step, ..self }
    }

    /// Whether the run has ended, with a response or a rejection.
    pub fn is_done(&self) -> (r: bool)
        ensures
            r == (self.step is Respond || self.step is Reject),
    {
        match self.step {
            Step::Respond => true,
            Step::Reject(_) => true,
            _ => false,
        }
    }
}

} // verus!
