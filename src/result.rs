//! The outcome of one request.

use vstd::prelude::*;

use vstd::utf8::{decode_utf8, valid_utf8};

use crate::header::{utf8_text, utf8_text_lossy, value_text, ResponseHeader};
use crate::message::{rank, ExecutionMessage, SyslogLevel};
use crate::text::{ascii_fold, same_text_ignoring_ascii_case};

verus! {

/// Status, headers, body and diagnostics of a finished request.
#[derive(Debug, Clone)]
pub struct ExecutionResult {
    status: u16,
    body: Vec<u8>,
    headers: Vec<ResponseHeader>,
    messages: Vec<ExecutionMessage>,
}

/// The headers whose name equals `name`, ignoring ASCII case, in order.
pub open spec fn headers_named(hs: Seq<ResponseHeader>, name: Seq<char>) -> Seq<ResponseHeader> {
    hs.filter(|h: ResponseHeader| ascii_fold(h.spec_name()) == ascii_fold(name))
}

/// The error-or-worse messages, in order.
pub open spec fn error_messages(ms: Seq<ExecutionMessage>) -> Seq<ExecutionMessage> {
    ms.filter(|m: ExecutionMessage| rank(m.level) <= 3)
}

impl ExecutionResult {
    pub closed spec fn spec_status(&self) -> u16 {
        self.status
    }

    pub closed spec fn spec_body(&self) -> Seq<u8> {
        self.body@
    }

    pub closed spec fn spec_headers(&self) -> Seq<ResponseHeader> {
        self.headers@
    }

    pub closed spec fn spec_messages(&self) -> Seq<ExecutionMessage> {
        self.messages@
    }

    pub fn new(
        status: u16,
        body: Vec<u8>,
        headers: Vec<ResponseHeader>,
        messages: Vec<ExecutionMessage>,
    ) -> (r: Self)
        ensures
            r.spec_status() == status,
            r.spec_body() == body@,
            r.spec_headers() == headers@,
            r.spec_messages() == messages@,
    {
        ExecutionResult { status, body, headers, messages }
    }

    /// A copy of the body.
    pub fn body(&self) -> (r: Vec<u8>)
        ensures
            r@ == self.spec_body(),
    {
        let mut r: Vec<u8> = Vec::new();
        let mut i: usize = 0;
        while i < self.body.len()
            invariant
                i <= self.body@.len(),
                r@ == self.body@.subrange(0, i as int),
            decreases self.body@.len() - i,
        {
            r.push(self.body[i]);
            i = i + 1;
            assert(r@ =~= self.body@.subrange(0, i as int));
        }
        assert(r@ =~= self.body@);
        r
    }

    /// Moves the body out, leaving it empty.
    pub fn take_body(&mut self) -> (r: Vec<u8>)
        ensures
            r@ == old(self).spec_body(),
            final(self).spec_body().len() == 0,
            final(self).spec_status() == old(self).spec_status(),
            final(self).spec_headers() == old(self).spec_headers(),
            final(self).spec_messages() == old(self).spec_messages(),
    {
        let mut r: Vec<u8> = Vec::new();
        std::mem::swap(&mut r, &mut self.body);
        r
    }

    /// The body as text, each invalid UTF-8 sequence replaced by U+FFFD.
    pub fn body_string(&self) -> (r: String)
        ensures
            r@ == value_text(self.spec_body()),
    {
        if self.body.len() == 0 {
            assert(valid_utf8(self.body@));
            assert(decode_utf8(self.body@) =~= Seq::<char>::empty());
            return String::new();
        }
        utf8_text_lossy(self.body.as_slice())
    }

    /// The body as text, where it is valid UTF-8.
    pub fn body_str(&self) -> (r: Result<&str, std::str::Utf8Error>)
        ensures
            r is Ok <==> valid_utf8(self.spec_body()),
            r matches Ok(s) ==> s@ == decode_utf8(self.spec_body()),
    {
        utf8_text(self.body.as_slice())
    }

    pub fn status_code(&self) -> (r: u16)
        ensures
            r == self.spec_status(),
    {
        self.status
    }

    /// Whether any message is an error or worse.
    pub fn has_errors(&self) -> (r: bool)
        ensures
            r == exists|i: int|
                0 <= i < self.spec_messages().len() && rank(#[trigger] self.spec_messages()[i].level)
                    <= 3,
    {
        let mut i: usize = 0;
        while i < self.messages.len()
            invariant
                i <= self.messages@.len(),
                forall|j: int| 0 <= j < i ==> rank(#[trigger] self.messages@[j].level) > 3,
            decreases self.messages@.len() - i,
        {
            if self.messages[i].is_error() {
                return true;
            }
            i = i + 1;
        }
        false
    }

    /// Whether any message has exactly `level`.
    pub fn has_message_level(&self, level: SyslogLevel) -> (r: bool)
        ensures
            r == exists|i: int|
                0 <= i < self.spec_messages().len() && #[trigger] self.spec_messages()[i].level
                    == level,
    {
        let mut i: usize = 0;
        while i < self.messages.len()
            invariant
                i <= self.messages@.len(),
                forall|j: int| 0 <= j < i ==> #[trigger] self.messages@[j].level != level,
            decreases self.messages@.len() - i,
        {
            if self.messages[i].level == level {
                return true;
            }
            i = i + 1;
        }
        false
    }

    /// The messages that are errors or worse, in emission order.
    pub fn errors(&self) -> (r: Vec<&ExecutionMessage>)
        ensures
            r@.map_values(|m: &ExecutionMessage| *m) == error_messages(self.spec_messages()),
    {
        let mut r: Vec<&ExecutionMessage> = Vec::new();
        let mut i: usize = 0;
        while i < self.messages.len()
            invariant
                i <= self.messages@.len(),
                r@.map_values(|m: &ExecutionMessage| *m) == error_messages(
                    self.messages@.subrange(0, i as int),
                ),
            decreases self.messages@.len() - i,
        {
            let m = &self.messages[i];
            proof {
                let s = self.messages@.subrange(0, i + 1);
                assert(s.drop_last() =~= self.messages@.subrange(0, i as int));
                reveal(Seq::filter);
            }
            if m.is_error() {
                r.push(m);
            }
            i = i + 1;
            assert(r@.map_values(|m: &ExecutionMessage| *m) =~= error_messages(
                self.messages@.subrange(0, i as int),
            ));
        }
        assert(self.messages@.subrange(0, i as int) =~= self.messages@);
        r
    }

    /// All messages, in emission order.
    pub fn all_messages(&self) -> (r: &[ExecutionMessage])
        ensures
            r@ == self.spec_messages(),
    {
        self.messages.as_slice()
    }

    /// All headers, in emission order, repeated names included.
    pub fn all_headers(&self) -> (r: &[ResponseHeader])
        ensures
            r@ == self.spec_headers(),
    {
        self.headers.as_slice()
    }

    /// The value of the first header named `name`, ignoring ASCII case.
    pub fn header_val(&self, name: &str) -> (r: Option<&str>)
        ensures
            headers_named(self.spec_headers(), name@).len() == 0 ==> r is None,
            headers_named(self.spec_headers(), name@).len() > 0 ==> (r matches Some(v) && v@
                == headers_named(self.spec_headers(), name@)[0].spec_value()),
    {
        let mut i: usize = 0;
        while i < self.headers.len()
            invariant
                i <= self.headers@.len(),
                headers_named(self.headers@.subrange(0, i as int), name@).len() == 0,
            decreases self.headers@.len() - i,
        {
            let h = &self.headers[i];
            proof {
                let s = self.headers@.subrange(0, i + 1);
                assert(s.drop_last() =~= self.headers@.subrange(0, i as int));
                reveal(Seq::filter);
            }
            if same_text_ignoring_ascii_case(h.name(), name) {
                proof {
                    lemma_filter_split(self.headers@, i as int, name@);
                }
                return Some(h.value());
            }
            i = i + 1;
        }
        assert(self.headers@.subrange(0, i as int) =~= self.headers@);
        None
    }

    /// The values of all headers named `name`, ignoring ASCII case, in order.
    pub fn header_vals(&self, name: &str) -> (r: Vec<&str>)
        ensures
            r@.map_values(|v: &str| v@) == headers_named(self.spec_headers(), name@).map_values(
                |h: ResponseHeader| h.spec_value(),
            ),
    {
        let mut r: Vec<&str> = Vec::new();
        let mut i: usize = 0;
        while i < self.headers.len()
            invariant
                i <= self.headers@.len(),
                r@.map_values(|v: &str| v@) == headers_named(
                    self.headers@.subrange(0, i as int),
                    name@,
                ).map_values(|h: ResponseHeader| h.spec_value()),
            decreases self.headers@.len() - i,
        {
            let h = &self.headers[i];
            proof {
                let s = self.headers@.subrange(0, i + 1);
                assert(s.drop_last() =~= self.headers@.subrange(0, i as int));
                reveal(Seq::filter);
            }
            let ghost prev = headers_named(self.headers@.subrange(0, i as int), name@);
            let ghost next = headers_named(self.headers@.subrange(0, i + 1), name@);
            if same_text_ignoring_ascii_case(h.name(), name) {
                assert(next == prev.push(*h));
                r.push(h.value());
                assert(next.map_values(|h: ResponseHeader| h.spec_value()) =~= prev.map_values(
                    |h: ResponseHeader| h.spec_value(),
                ).push(h.spec_value()));
            } else {
                assert(next == prev);
            }
            i = i + 1;
            assert(r@.map_values(|v: &str| v@) =~= headers_named(
                self.headers@.subrange(0, i as int),
                name@,
            ).map_values(|h: ResponseHeader| h.spec_value()));
        }
        assert(self.headers@.subrange(0, i as int) =~= self.headers@);
        r
    }

    pub fn is_success(&self) -> (r: bool)
        ensures
            r == (200 <= self.spec_status() < 300),
    {
        200 <= self.status && self.status < 300
    }

    pub fn is_redirect(&self) -> (r: bool)
        ensures
            r == (300 <= self.spec_status() < 400),
    {
        300 <= self.status && self.status < 400
    }

    pub fn is_client_error(&self) -> (r: bool)
        ensures
            r == (400 <= self.spec_status() < 500),
    {
        400 <= self.status && self.status < 500
    }

    pub fn is_server_error(&self) -> (r: bool)
        ensures
            r == (500 <= self.spec_status() < 600),
    {
        500 <= self.status && self.status < 600
    }
}

/// Where the header at `i` is the first one named `name`, it heads the
/// headers so named.
proof fn lemma_filter_split(hs: Seq<ResponseHeader>, i: int, name: Seq<char>)
    requires
        0 <= i < hs.len(),
        headers_named(hs.subrange(0, i), name).len() == 0,
        ascii_fold(hs[i].spec_name()) == ascii_fold(name),
    ensures
        headers_named(hs, name).len() > 0,
        headers_named(hs, name)[0] == hs[i],
{
    let p = |h: ResponseHeader| ascii_fold(h.spec_name()) == ascii_fold(name);
    assert(hs =~= hs.subrange(0, i) + hs.subrange(i, hs.len() as int));
    Seq::filter_distributes_over_add(hs.subrange(0, i), hs.subrange(i, hs.len() as int), p);
    let tail = hs.subrange(i, hs.len() as int);
    assert(tail =~= seq![hs[i]] + tail.drop_first());
    Seq::filter_distributes_over_add(seq![hs[i]], tail.drop_first(), p);
    reveal(Seq::filter);
    assert(seq![hs[i]].drop_last() =~= Seq::<ResponseHeader>::empty());
    assert(seq![hs[i]].filter(p) =~= seq![hs[i]]);
}

impl Default for ExecutionResult {
    fn default() -> (r: Self)
        ensures
            r.spec_status() == 200,
            r.spec_body().len() == 0,
            r.spec_headers().len() == 0,
            r.spec_messages().len() == 0,
    {
        ExecutionResult { status: 200, body: Vec::new(), headers: Vec::new(), messages: Vec::new() }
    }
}

} // verus!
