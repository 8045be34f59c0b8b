//! The state of one request that the engine's I/O callbacks read and fill.

use vstd::prelude::*;

use crate::buffer::BufferPolicy;
use crate::context::ExecutionContext;
use crate::header::{header_fields, parsed_name, parsed_value, ResponseHeader};
use crate::message::{level_of, ExecutionMessage};
use crate::paths::{find_first, occurs};
use crate::result::ExecutionResult;
use crate::server_vars::{last_value, pairs_view, VarView};
use crate::text::{owned, same_text};

verus! {

/// The server identity that every request's meta-variables start with.
pub const SERVER_SOFTWARE: &'static str = "Ripht/0.1.0";

/// The status a request has where the script sets none.
pub const DEFAULT_STATUS: u16 = 200;

/// The status that stands in for one outside the HTTP range.
pub const FALLBACK_STATUS: u16 = 500;

/// The status that the engine's raw status code gives: itself within
/// 100..=599, the fallback otherwise.
pub open spec fn clamped_status(raw: int) -> u16 {
    if 100 <= raw <= 599 {
        raw as u16
    } else {
        FALLBACK_STATUS
    }
}

/// The engine's raw status code as an HTTP status.
pub fn clamp_status(raw: i32) -> (r: u16)
    ensures
        r == clamped_status(raw as int),
{
    if 100 <= raw && raw <= 599 {
        raw as u16
    } else {
        FALLBACK_STATUS
    }
}

/// Text that a C string can hold: no NUL character.
pub open spec fn nul_free(s: Seq<char>) -> bool {
    !occurs(s, '\0')
}

/// The pairs that a C string pair can hold, in order.
pub open spec fn nul_free_pairs(ps: Seq<VarView>) -> Seq<VarView> {
    ps.filter(|p: VarView| nul_free(p.0) && nul_free(p.1))
}

/// An optional text where it holds no NUL.
pub open spec fn nul_free_opt(o: Option<Seq<char>>) -> Option<Seq<char>> {
    match o {
        Some(s) => if nul_free(s) {
            Some(s)
        } else {
            None
        },
        None => None,
    }
}

/// Whether a text holds a NUL character.
pub fn has_nul(s: &str) -> (r: bool)
    ensures
        r == !nul_free(s@),
{
    match find_first(s, '\0') {
        Some(_) => true,
        None => false,
    }
}

/// The pairs without a NUL in key or value, in order.
pub fn without_nul(pairs: Vec<(String, String)>) -> (r: Vec<(String, String)>)
    ensures
        pairs_view(r@) == nul_free_pairs(pairs_view(pairs@)),
{
    let ghost pv = pairs_view(pairs@);
    let mut r: Vec<(String, String)> = Vec::new();
    let mut i: usize = 0;
    while i < pairs.len()
        invariant
            i <= pairs@.len(),
            pv == pairs_view(pairs@),
            pairs_view(r@) == nul_free_pairs(pv.subrange(0, i as int)),
        decreases pairs@.len() - i,
    {
        let p = &pairs[i];
        let ghost prev = pv.subrange(0, i as int);
        let ghost next = pv.subrange(0, i + 1);
        assert(next.drop_last() =~= prev);
        proof {
            reveal(Seq::filter);
        }
        if !has_nul(p.0.as_str()) && !has_nul(p.1.as_str()) {
            let ghost before = r@;
            r.push((p.0.clone(), p.1.clone()));
            assert(pairs_view(r@) =~= pairs_view(before).push(pv[i as int]));
        }
        i = i + 1;
    }
    assert(pv.subrange(0, i as int) =~= pv);
    r
}

/// An owned copy of an optional text, where it holds no NUL.
fn nul_checked(o: Option<&str>) -> (r: Option<String>)
    ensures
        nul_free_opt(crate::server_vars::opt_str(o)) == crate::server_vars::opt_text(r),
{
    match o {
        Some(s) => if has_nul(s) {
            None
        } else {
            Some(owned(s))
        },
        None => None,
    }
}

pub open spec fn min_int(a: int, b: int) -> int {
    if a <= b {
        a
    } else {
        b
    }
}

/// The parts of a request that no callback changes: its input, its
/// meta-variables, environment and overrides, and where output, flushes
/// and diagnostics go.
pub open spec fn same_request(a: ServerContext, b: ServerContext) -> bool {
    &&& a.spec_input() == b.spec_input()
    &&& a.spec_streaming() == b.spec_streaming()
    &&& a.spec_forwards_flush() == b.spec_forwards_flush()
    &&& a.spec_log_to_stderr() == b.spec_log_to_stderr()
    &&& a.spec_vars() == b.spec_vars()
    &&& a.spec_env() == b.spec_env()
    &&& a.spec_ini() == b.spec_ini()
    &&& a.spec_content_type() == b.spec_content_type()
    &&& a.spec_query_string() == b.spec_query_string()
    &&& a.spec_cookie() == b.spec_cookie()
    &&& a.spec_request_method() == b.spec_request_method()
}

/// Status, headers, diagnostics and read position as they were.
pub open spec fn same_but_output_open(a: ServerContext, b: ServerContext) -> bool {
    &&& same_request(a, b)
    &&& a.spec_status() == b.spec_status()
    &&& a.spec_headers() == b.spec_headers()
    &&& a.spec_messages() == b.spec_messages()
    &&& a.spec_input_pos() == b.spec_input_pos()
}

/// One write of output, as `ServerContext::write_output` performs it.
pub open spec fn write_step(before: ServerContext, data: Seq<u8>, after: ServerContext) -> bool {
    &&& after.wf()
    &&& after.same_but_output(&before)
    &&& same_but_output_open(before, after)
    &&& before.spec_streaming() ==> after.spec_output() == before.spec_output()
    &&& !before.spec_streaming() ==> after.spec_output() == before.spec_output() + data
}

/// `cs` are the states of a context before and after each write of `ds`.
pub open spec fn write_chain(cs: Seq<ServerContext>, ds: Seq<Seq<u8>>) -> bool {
    &&& cs.len() == ds.len() + 1
    &&& forall|i: int| 0 <= i < ds.len() ==> write_step(#[trigger] cs[i], ds[i], cs[i + 1])
}

/// One header line from the engine, as `ServerContext::send_header` takes it.
pub open spec fn header_step(before: ServerContext, line: Seq<u8>, after: ServerContext) -> bool {
    &&& after.same_but_headers(&before)
    &&& same_request(before, after)
    &&& after.spec_status() == before.spec_status()
    &&& after.spec_output() == before.spec_output()
    &&& after.spec_messages() == before.spec_messages()
    &&& after.spec_input_pos() == before.spec_input_pos()
    &&& match header_fields(line) {
        None => after.spec_headers() == before.spec_headers(),
        Some(f) => after.spec_headers().len() == before.spec_headers().len() + 1
            && after.spec_headers().drop_last() == before.spec_headers()
            && after.spec_headers().last().spec_name() == f.0
            && after.spec_headers().last().spec_value() == f.1,
    }
}

/// `cs` are the states of a context before and after each line of `lines`.
pub open spec fn header_chain(cs: Seq<ServerContext>, lines: Seq<Seq<u8>>) -> bool {
    &&& cs.len() == lines.len() + 1
    &&& forall|i: int| 0 <= i < lines.len() ==> header_step(#[trigger] cs[i], lines[i], cs[i + 1])
}

/// Writes leave a context's streaming choice as it was.
proof fn lemma_chain_keeps_streaming(cs: Seq<ServerContext>, ds: Seq<Seq<u8>>, k: int)
    requires
        write_chain(cs, ds),
        0 <= k < cs.len(),
    ensures
        cs[k].spec_streaming() == cs[0].spec_streaming(),
    decreases k,
{
    if k > 0 {
        lemma_chain_keeps_streaming(cs, ds, k - 1);
        assert(write_step(cs[k - 1], ds[k - 1], cs[k]));
    }
}

/// Without a per-write callback, the output after any number of writes is
/// the output before them followed by every write, in order.
pub proof fn lemma_writes_concatenate(cs: Seq<ServerContext>, ds: Seq<Seq<u8>>)
    requires
        write_chain(cs, ds),
        !cs[0].spec_streaming(),
    ensures
        cs.last().spec_output() == cs[0].spec_output() + ds.flatten(),
        crate::executor::body_for(cs.last().spec_output(), crate::hooks::OutputAction::Buffer)
            == cs[0].spec_output() + ds.flatten(),
    decreases ds.len(),
{
    if ds.len() == 0 {
        assert(cs[0].spec_output() + ds.flatten() =~= cs[0].spec_output());
    } else {
        let cs0 = cs.drop_last();
        let ds0 = ds.drop_last();
        assert forall|i: int| 0 <= i < ds0.len() implies write_step(
            #[trigger] cs0[i],
            ds0[i],
            cs0[i + 1],
        ) by {
            assert(write_step(cs[i], ds[i], cs[i + 1]));
        }
        lemma_writes_concatenate(cs0, ds0);
        let n = ds.len() - 1;
        lemma_chain_keeps_streaming(cs, ds, n);
        assert(write_step(cs[n], ds[n], cs[n + 1]));
        ds0.lemma_flatten_push(ds.last());
        assert(ds0.push(ds.last()) =~= ds);
        assert(cs.last().spec_output() =~= cs[0].spec_output() + ds.flatten());
    }
}

/// With a per-write callback, the output buffer stays as it was, however
/// many writes come.
pub proof fn lemma_streaming_leaves_buffer(cs: Seq<ServerContext>, ds: Seq<Seq<u8>>)
    requires
        write_chain(cs, ds),
        cs[0].spec_streaming(),
    ensures
        cs.last().spec_output() == cs[0].spec_output(),
    decreases ds.len(),
{
    if ds.len() > 0 {
        let cs0 = cs.drop_last();
        let ds0 = ds.drop_last();
        assert forall|i: int| 0 <= i < ds0.len() implies write_step(
            #[trigger] cs0[i],
            ds0[i],
            cs0[i + 1],
        ) by {
            assert(write_step(cs[i], ds[i], cs[i + 1]));
        }
        lemma_streaming_leaves_buffer(cs0, ds0);
        let n = ds.len() - 1;
        lemma_chain_keeps_streaming(cs, ds, n);
        assert(write_step(cs[n], ds[n], cs[n + 1]));
    }
}

/// The same writes made once with a per-write callback and once without,
/// from empty buffers: the streamed request's buffer stays empty, and the
/// chunks handed to the callback, which are the writes themselves, add up
/// to the other request's body (the body `Request::finish_buffered` gives,
/// where `Request::finish_streaming` gives an empty one).
pub proof fn lemma_streaming_matches_buffered(
    streamed: Seq<ServerContext>,
    buffered: Seq<ServerContext>,
    ds: Seq<Seq<u8>>,
)
    requires
        write_chain(streamed, ds),
        write_chain(buffered, ds),
        streamed[0].spec_streaming(),
        !buffered[0].spec_streaming(),
        streamed[0].spec_output().len() == 0,
        buffered[0].spec_output().len() == 0,
    ensures
        streamed.last().spec_output().len() == 0,
        ds.flatten() == buffered.last().spec_output(),
{
    lemma_streaming_leaves_buffer(streamed, ds);
    lemma_writes_concatenate(buffered, ds);
    assert(buffered[0].spec_output() + ds.flatten() =~= ds.flatten());
}

/// Header lines that all parse are each kept, in the order they came,
/// repeated names included.
pub proof fn lemma_headers_accumulate(cs: Seq<ServerContext>, lines: Seq<Seq<u8>>)
    requires
        header_chain(cs, lines),
        forall|i: int| 0 <= i < lines.len() ==> (#[trigger] header_fields(lines[i])) is Some,
    ensures
        cs.last().spec_headers().len() == cs[0].spec_headers().len() + lines.len(),
        cs.last().spec_headers().subrange(0, cs[0].spec_headers().len() as int)
            == cs[0].spec_headers(),
        forall|k: int|
            0 <= k < lines.len() ==> (#[trigger] cs.last().spec_headers()[cs[0].spec_headers().len()
                + k]).spec_name() == parsed_name(lines[k]) && cs.last().spec_headers()[cs[0].spec_headers().len() + k].spec_value()
                == parsed_value(lines[k]),
    decreases lines.len(),
{
    let base = cs[0].spec_headers();
    if lines.len() == 0 {
        assert(base.subrange(0, base.len() as int) =~= base);
    } else {
        let cs0 = cs.drop_last();
        let ls0 = lines.drop_last();
        assert forall|i: int| 0 <= i < ls0.len() implies header_step(
            #[trigger] cs0[i],
            ls0[i],
            cs0[i + 1],
        ) by {
            assert(header_step(cs[i], lines[i], cs[i + 1]));
        }
        assert forall|i: int| 0 <= i < ls0.len() implies (#[trigger] header_fields(ls0[i])) is Some by {
            assert(header_fields(lines[i]) is Some);
        }
        lemma_headers_accumulate(cs0, ls0);
        let n = lines.len() - 1;
        assert(header_step(cs[n], lines[n], cs[n + 1]));
        assert(header_fields(lines[n]) is Some);
        let prev = cs[n].spec_headers();
        let last = cs[n + 1].spec_headers();
        assert(last.drop_last() == prev);
        assert(last.subrange(0, base.len() as int) =~= prev.subrange(0, base.len() as int));
        assert forall|k: int| 0 <= k < lines.len() implies (#[trigger] last[base.len() + k]).spec_name()
            == parsed_name(lines[k]) && last[base.len() + k].spec_value() == parsed_value(lines[k]) by {
            if k < n {
                assert(last[base.len() + k] == prev[base.len() + k]);
            }
        }
    }
}

/// A status outside the HTTP range is observed as the fallback.
pub proof fn lemma_out_of_range_status(raw: int)
    requires
        raw < 100 || raw > 599,
    ensures
        clamped_status(raw) == FALLBACK_STATUS,
{
}


/// What a context built from `x` holds, as `ServerContext::new` builds it.
pub open spec fn built_from(c: ServerContext, x: ExecutionContext) -> bool {
    &&& c.spec_vars() == nul_free_pairs(x.server_vars.entries())
    &&& c.spec_env() == nul_free_pairs(pairs_view(x.env_vars@))
    &&& c.spec_ini() == nul_free_pairs(pairs_view(x.ini_overrides@))
    &&& c.spec_input() == x.input@
    &&& c.spec_output().len() == 0
    &&& c.spec_headers().len() == 0
    &&& c.spec_messages().len() == 0
    &&& c.spec_status() == DEFAULT_STATUS
}

/// Requests built one after the other each see only their own
/// meta-variables, environment and overrides: a request that sets no
/// override has none, whatever the one before it set.
pub proof fn lemma_requests_see_their_own(
    first: ServerContext,
    first_input: ExecutionContext,
    next: ServerContext,
    next_input: ExecutionContext,
)
    requires
        built_from(first, first_input),
        built_from(next, next_input),
    ensures
        next.spec_vars() == nul_free_pairs(next_input.server_vars.entries()),
        next.spec_env() == nul_free_pairs(pairs_view(next_input.env_vars@)),
        next.spec_ini() == nul_free_pairs(pairs_view(next_input.ini_overrides@)),
        next_input.ini_overrides@.len() == 0 ==> next.spec_ini().len() == 0,
        next_input.server_vars.entries().len() == 0 ==> next.spec_vars().len() == 0,
{
    reveal(Seq::filter);
    if next_input.ini_overrides@.len() == 0 {
        assert(pairs_view(next_input.ini_overrides@).len() == 0);
    }
}

/// What a write of output became.
#[derive(Debug, Clone, Copy, PartialEq, Eq, Structural)]
pub enum Written {
    /// Appended to the output buffer.
    Buffered(usize),
    /// To be handed to the per-write callback; the buffer is untouched.
    Forward(usize),
}

/// Relies on `Vec::capacity`: never less than the length.
#[verifier::external_body]
fn capacity_of(v: &Vec<u8>) -> (r: usize)
    ensures
        r >= v@.len(),
{
    v.capacity()
}

/// Per-request state: input cursor, output, headers, diagnostics, status,
/// and the meta-variables, environment and configuration overrides handed
/// to the engine. Created when the request starts, consumed at its end.
pub struct ServerContext {
    status: u16,
    input: Vec<u8>,
    input_pos: usize,
    output: Vec<u8>,
    messages: Vec<ExecutionMessage>,
    headers: Vec<ResponseHeader>,
    vars: Vec<(String, String)>,
    content_type: Option<String>,
    query_string: Option<String>,
    cookie: Option<String>,
    request_method: Option<String>,
    env_vars: Vec<(String, String)>,
    ini_overrides: Vec<(String, String)>,
    streaming: bool,
    forwards_flush: bool,
    log_to_stderr: bool,
    policy: BufferPolicy,
}

impl ServerContext {
    pub closed spec fn wf(&self) -> bool {
        self.input_pos <= self.input@.len() && self.policy.wf()
    }

    pub closed spec fn spec_status(&self) -> u16 {
        self.status
    }

    /// The same context with another status.
    pub closed spec fn with_status(&self, code: u16) -> Self {
        ServerContext { status: code, ..*self }
    }

    pub closed spec fn spec_input(&self) -> Seq<u8> {
        self.input@
    }

    /// How much of the input was read.
    pub closed spec fn spec_input_pos(&self) -> nat {
        self.input_pos as nat
    }

    pub closed spec fn spec_output(&self) -> Seq<u8> {
        self.output@
    }

    pub closed spec fn spec_headers(&self) -> Seq<ResponseHeader> {
        self.headers@
    }

    pub closed spec fn spec_messages(&self) -> Seq<ExecutionMessage> {
        self.messages@
    }

    /// Whether output goes to a per-write callback instead of the buffer.
    pub closed spec fn spec_streaming(&self) -> bool {
        self.streaming
    }

    /// Whether a flush goes to a flush callback.
    pub closed spec fn spec_forwards_flush(&self) -> bool {
        self.forwards_flush
    }

    pub closed spec fn spec_log_to_stderr(&self) -> bool {
        self.log_to_stderr
    }

    pub closed spec fn spec_vars(&self) -> Seq<VarView> {
        pairs_view(self.vars@)
    }

    pub closed spec fn spec_env(&self) -> Seq<VarView> {
        pairs_view(self.env_vars@)
    }

    pub closed spec fn spec_ini(&self) -> Seq<VarView> {
        pairs_view(self.ini_overrides@)
    }

    pub closed spec fn spec_content_type(&self) -> Option<Seq<char>> {
        crate::server_vars::opt_text(self.content_type)
    }

    pub closed spec fn spec_query_string(&self) -> Option<Seq<char>> {
        crate::server_vars::opt_text(self.query_string)
    }

    pub closed spec fn spec_cookie(&self) -> Option<Seq<char>> {
        crate::server_vars::opt_text(self.cookie)
    }

    pub closed spec fn spec_request_method(&self) -> Option<Seq<char>> {
        crate::server_vars::opt_text(self.request_method)
    }

    /// The context of a request: its input, and its meta-variables,
    /// environment and overrides without the entries that a C string
    /// cannot hold. Status 200, nothing read, nothing written.
    pub fn new(ctx: ExecutionContext, policy: BufferPolicy, streaming: bool) -> (r: Self)
        requires
            ctx.wf(),
            policy.wf(),
        ensures
            r.wf(),
            r.spec_status() == DEFAULT_STATUS,
            r.spec_input() == ctx.input@,
            r.spec_input_pos() == 0,
            r.spec_output().len() == 0,
            r.spec_headers().len() == 0,
            r.spec_messages().len() == 0,
            r.spec_streaming() == streaming,
            !r.spec_forwards_flush(),
            r.spec_log_to_stderr() == ctx.log_to_stderr,
            r.spec_vars() == nul_free_pairs(ctx.server_vars.entries()),
            r.spec_env() == nul_free_pairs(pairs_view(ctx.env_vars@)),
            r.spec_ini() == nul_free_pairs(pairs_view(ctx.ini_overrides@)),
            r.spec_content_type() == nul_free_opt(last_value(ctx.server_vars.entries(), "CONTENT_TYPE"@)),
            r.spec_query_string() == nul_free_opt(last_value(ctx.server_vars.entries(), "QUERY_STRING"@)),
            r.spec_cookie() == nul_free_opt(last_value(ctx.server_vars.entries(), "HTTP_COOKIE"@)),
            r.spec_request_method() == nul_free_opt(last_value(ctx.server_vars.entries(), "REQUEST_METHOD"@)),
            built_from(r, ctx),
    {
        let content_type = nul_checked(ctx.server_vars.get_content_type());
        let query_string = nul_checked(ctx.server_vars.get_query_string());
        let cookie = nul_checked(ctx.server_vars.get_cookie());
        let request_method = nul_checked(ctx.server_vars.get_request_method());
        let ExecutionContext { input, script_path, server_vars, env_vars, ini_overrides, log_to_stderr } = ctx;
        ServerContext {
            status: DEFAULT_STATUS,
            input,
            input_pos: 0,
            output: Vec::with_capacity(policy.initial_cap),
            messages: Vec::new(),
            headers: Vec::new(),
            vars: without_nul(server_vars.into_vec()),
            content_type,
            query_string,
            cookie,
            request_method,
            env_vars: without_nul(env_vars),
            ini_overrides: without_nul(ini_overrides),
            streaming,
            forwards_flush: false,
            log_to_stderr,
            policy,
        }
    }

    pub fn status_code(&self) -> (r: u16)
        ensures
            r == self.spec_status(),
    {
        self.status
    }

    pub fn set_status(&mut self, code: u16)
        ensures
            final(self).spec_status() == code,
            *final(self) == old(self).with_status(code),
            same_request(*old(self), *final(self)),
            final(self).spec_output() == old(self).spec_output(),
            final(self).spec_headers() == old(self).spec_headers(),
            final(self).spec_messages() == old(self).spec_messages(),
            final(self).spec_input_pos() == old(self).spec_input_pos(),
    {
        self.status = code;
    }

    /// The request method for the engine: the one set, or `GET`.
    pub fn request_method(&self) -> (r: &str)
        ensures
            r@ == match self.spec_request_method() {
                Some(m) => m,
                None => "GET"@,
            },
    {
        match &self.request_method {
            Some(m) => m.as_str(),
            None => "GET",
        }
    }

    pub fn content_type(&self) -> (r: Option<&str>)
        ensures
            crate::server_vars::opt_str(r) == self.spec_content_type(),
    {
        match &self.content_type {
            Some(s) => Some(s.as_str()),
            None => None,
        }
    }

    pub fn query_string(&self) -> (r: Option<&str>)
        ensures
            crate::server_vars::opt_str(r) == self.spec_query_string(),
    {
        match &self.query_string {
            Some(s) => Some(s.as_str()),
            None => None,
        }
    }

    /// The cookie line handed to the engine when it reads cookies.
    pub fn cookie_data(&self) -> (r: Option<&str>)
        ensures
            crate::server_vars::opt_str(r) == self.spec_cookie(),
    {
        match &self.cookie {
            Some(s) => Some(s.as_str()),
            None => None,
        }
    }

    /// The length of the request body.
    pub fn content_length(&self) -> (r: usize)
        ensures
            r == self.spec_input().len(),
    {
        self.input.len()
    }

    pub fn log_to_stderr(&self) -> (r: bool)
        ensures
            r == self.spec_log_to_stderr(),
    {
        self.log_to_stderr
    }

    pub fn is_streaming(&self) -> (r: bool)
        ensures
            r == self.spec_streaming(),
    {
        self.streaming
    }

    pub fn server_vars(&self) -> (r: &[(String, String)])
        ensures
            pairs_view(r@) == self.spec_vars(),
    {
        self.vars.as_slice()
    }

    pub fn env_vars(&self) -> (r: &[(String, String)])
        ensures
            pairs_view(r@) == self.spec_env(),
    {
        self.env_vars.as_slice()
    }

    pub fn ini_overrides(&self) -> (r: &[(String, String)])
        ensures
            pairs_view(r@) == self.spec_ini(),
    {
        self.ini_overrides.as_slice()
    }

    pub fn output(&self) -> (r: &[u8])
        ensures
            r@ == self.spec_output(),
    {
        self.output.as_slice()
    }

    pub fn headers(&self) -> (r: &[ResponseHeader])
        ensures
            r@ == self.spec_headers(),
    {
        self.headers.as_slice()
    }

    pub fn messages(&self) -> (r: &[ExecutionMessage])
        ensures
            r@ == self.spec_messages(),
    {
        self.messages.as_slice()
    }

    /// Everything but the output is as in `o`.
    pub closed spec fn same_but_output(&self, o: &Self) -> bool {
        *self == (ServerContext { output: self.output, ..*o })
    }

    /// Everything but the read position is as in `o`.
    pub closed spec fn same_but_input_pos(&self, o: &Self) -> bool {
        *self == (ServerContext { input_pos: self.input_pos, ..*o })
    }

    /// Everything but the headers and the status is as in `o`.
    pub closed spec fn same_but_headers(&self, o: &Self) -> bool {
        *self == (ServerContext { headers: self.headers, status: self.status, ..*o })
    }

    /// Everything but the messages is as in `o`.
    pub closed spec fn same_but_messages(&self, o: &Self) -> bool {
        *self == (ServerContext { messages: self.messages, ..*o })
    }

    /// Copies the next unread input into `buffer`, as much as fits, and
    /// moves the read position past it. Returns how much was copied.
    pub fn read_post(&mut self, buffer: &mut [u8]) -> (r: usize)
        requires
            old(self).wf(),
        ensures
            final(self).wf(),
            r as int == min_int(
                old(self).spec_input().len() - old(self).spec_input_pos(),
                old(buffer)@.len() as int,
            ),
            final(self).spec_input_pos() == old(self).spec_input_pos() + r,
            final(self).same_but_input_pos(old(self)),
            same_request(*old(self), *final(self)),
            final(self).spec_status() == old(self).spec_status(),
            final(self).spec_output() == old(self).spec_output(),
            final(self).spec_headers() == old(self).spec_headers(),
            final(self).spec_messages() == old(self).spec_messages(),
            final(buffer)@.len() == old(buffer)@.len(),
            final(buffer)@.subrange(0, r as int) == old(self).spec_input().subrange(
                old(self).spec_input_pos() as int,
                old(self).spec_input_pos() + r,
            ),
            final(buffer)@.subrange(r as int, final(buffer)@.len() as int) == old(buffer)@.subrange(
                r as int,
                old(buffer)@.len() as int,
            ),
    {
        let pos = self.input_pos;
        let remaining = self.input.len() - pos;
        let n = if remaining < buffer.len() {
            remaining
        } else {
            buffer.len()
        };
        let ghost initial = buffer@;
        let end = pos + n;
        let mut j: usize = 0;
        while j < n
            invariant
                j <= n,
                end == pos + n,
                n <= buffer@.len(),
                pos + n <= self.input@.len(),
                buffer@.len() == initial.len(),
                forall|k: int| 0 <= k < j ==> buffer@[k] == self.input@[pos + k],
                forall|k: int| j <= k < buffer@.len() ==> buffer@[k] == initial[k],
            decreases n - j,
        {
            buffer[j] = self.input[pos + j];
            j = j + 1;
        }
        self.input_pos = pos + n;
        assert(buffer@.subrange(0, n as int) =~= self.input@.subrange(pos as int, pos + n));
        assert(buffer@.subrange(n as int, buffer@.len() as int) =~= initial.subrange(
            n as int,
            initial.len() as int,
        ));
        n
    }

    /// One write of output: appended to the buffer, grown as the policy
    /// says where it does not fit, or left to the per-write callback where
    /// the request streams.
    pub fn write_output(&mut self, data: &[u8]) -> (r: Written)
        requires
            old(self).wf(),
        ensures
            final(self).wf(),
            final(self).same_but_output(old(self)),
            same_but_output_open(*old(self), *final(self)),
            old(self).spec_streaming() ==> r == Written::Forward(data@.len() as usize)
                && final(self).spec_output() == old(self).spec_output(),
            !old(self).spec_streaming() ==> r == Written::Buffered(data@.len() as usize)
                && final(self).spec_output() == old(self).spec_output() + data@,
            write_step(*old(self), data@, *final(self)),
    {
        if self.streaming {
            return Written::Forward(data.len());
        }
        let capacity = capacity_of(&self.output);
        let len = self.output.len();
        let required = len.saturating_add(data.len());
        if required > capacity {
            let new_cap = self.policy.grown_capacity(capacity, required);
            self.output.reserve(new_cap - len);
        }
        self.output.extend_from_slice(data);
        assert(self.output@ =~= old(self).output@ + data@);
        Written::Buffered(data.len())
    }

    /// The engine starts sending headers: the status becomes the clamped
    /// raw status and the header list is emptied, to be filled again.
    pub fn send_headers(&mut self, raw_status: i32)
        ensures
            final(self).spec_status() == clamped_status(raw_status as int),
            final(self).spec_headers().len() == 0,
            final(self).same_but_headers(old(self)),
            same_request(*old(self), *final(self)),
            final(self).spec_output() == old(self).spec_output(),
            final(self).spec_messages() == old(self).spec_messages(),
            final(self).spec_input_pos() == old(self).spec_input_pos(),
    {
        self.status = clamp_status(raw_status);
        self.headers = Vec::new();
    }

    /// One raw header line from the engine; a malformed one is dropped.
    pub fn send_header(&mut self, line: &[u8])
        ensures
            final(self).same_but_headers(old(self)),
            final(self).spec_status() == old(self).spec_status(),
            header_step(*old(self), line@, *final(self)),
            match header_fields(line@) {
                None => final(self).spec_headers() == old(self).spec_headers(),
                Some(f) => final(self).spec_headers().len() == old(self).spec_headers().len() + 1
                    && final(self).spec_headers().drop_last() == old(self).spec_headers()
                    && final(self).spec_headers().last().spec_name() == f.0
                    && final(self).spec_headers().last().spec_value() == f.1,
            },
    {
        match ResponseHeader::parse(line) {
            Some(h) => {
                self.headers.push(h);
                assert(self.headers@.drop_last() =~= old(self).headers@);
            },
            None => {},
        }
    }

    /// Appends a header as it is.
    pub fn add_header(&mut self, header: ResponseHeader)
        ensures
            final(self).spec_headers() == old(self).spec_headers().push(header),
            final(self).spec_status() == old(self).spec_status(),
            final(self).same_but_headers(old(self)),
            same_request(*old(self), *final(self)),
            final(self).spec_output() == old(self).spec_output(),
            final(self).spec_messages() == old(self).spec_messages(),
            final(self).spec_input_pos() == old(self).spec_input_pos(),
    {
        self.headers.push(header);
    }

    /// Appends a diagnostic as it is.
    pub fn add_message(&mut self, message: ExecutionMessage)
        ensures
            final(self).spec_messages() == old(self).spec_messages().push(message),
            final(self).same_but_messages(old(self)),
            same_request(*old(self), *final(self)),
            final(self).spec_status() == old(self).spec_status(),
            final(self).spec_output() == old(self).spec_output(),
            final(self).spec_headers() == old(self).spec_headers(),
            final(self).spec_input_pos() == old(self).spec_input_pos(),
    {
        self.messages.push(message);
    }

    /// A diagnostic from the engine, with its raw syslog level. Returns
    /// whether it is also to be written to the standard error stream.
    pub fn log_message(&mut self, text: String, syslog_level: i32) -> (r: bool)
        ensures
            final(self).same_but_messages(old(self)),
            same_request(*old(self), *final(self)),
            final(self).spec_status() == old(self).spec_status(),
            final(self).spec_output() == old(self).spec_output(),
            final(self).spec_headers() == old(self).spec_headers(),
            final(self).spec_input_pos() == old(self).spec_input_pos(),
            final(self).spec_messages().len() == old(self).spec_messages().len() + 1,
            final(self).spec_messages().drop_last() == old(self).spec_messages(),
            final(self).spec_messages().last().level == level_of(syslog_level as int),
            final(self).spec_messages().last().message@ == text@,
            r == old(self).spec_log_to_stderr(),
    {
        self.messages.push(ExecutionMessage::from_syslog(syslog_level, text));
        assert(self.messages@.drop_last() =~= old(self).messages@);
        self.log_to_stderr
    }

    /// Records whether the request has a flush callback.
    pub fn set_flush_callback(&mut self, present: bool)
        ensures
            final(self).spec_forwards_flush() == present,
            final(self).spec_status() == old(self).spec_status(),
            final(self).spec_output() == old(self).spec_output(),
            final(self).spec_headers() == old(self).spec_headers(),
            final(self).spec_messages() == old(self).spec_messages(),
            final(self).spec_input_pos() == old(self).spec_input_pos(),
            final(self).spec_input() == old(self).spec_input(),
            final(self).spec_streaming() == old(self).spec_streaming(),
            final(self).wf() == old(self).wf(),
    {
        self.forwards_flush = present;
    }

    /// The engine flushes its output: whether the flush callback is to be
    /// called. Nothing in the context changes.
    pub fn flush(&self) -> (r: bool)
        ensures
            r == self.spec_forwards_flush(),
    {
        self.forwards_flush
    }

    /// The position of the first environment override named `key`.
    pub fn env_index(&self, key: &str) -> (r: Option<usize>)
        ensures
            match r {
                Some(i) => i < self.spec_env().len() && self.spec_env()[i as int].0 == key@
                    && forall|j: int| 0 <= j < i ==> self.spec_env()[j].0 != key@,
                None => forall|j: int| 0 <= j < self.spec_env().len() ==> self.spec_env()[j].0 != key@,
            },
    {
        let mut i: usize = 0;
        while i < self.env_vars.len()
            invariant
                i <= self.env_vars@.len(),
                forall|j: int| 0 <= j < i ==> self.spec_env()[j].0 != key@,
            decreases self.env_vars@.len() - i,
        {
            if same_text(self.env_vars[i].0.as_str(), key) {
                return Some(i);
            }
            i = i + 1;
        }
        None
    }

    /// The value of the first environment override named `key`.
    pub fn get_env(&self, key: &str) -> (r: Option<&str>)
        ensures
            match r {
                Some(v) => exists|i: int|
                    0 <= i < self.spec_env().len() && self.spec_env()[i].0 == key@ && self.spec_env()[i].1 == v@
                        && forall|j: int| 0 <= j < i ==> self.spec_env()[j].0 != key@,
                None => forall|j: int| 0 <= j < self.spec_env().len() ==> self.spec_env()[j].0 != key@,
            },
    {
        match self.env_index(key) {
            Some(i) => Some(self.env_vars[i].1.as_str()),
            None => None,
        }
    }

    /// The meta-variables to register with the engine: the server identity
    /// first, then the request's own in order.
    pub fn registration_list(&self) -> (r: Vec<(String, String)>)
        ensures
            pairs_view(r@) == seq![("SERVER_SOFTWARE"@, SERVER_SOFTWARE@)] + self.spec_vars(),
    {
        let mut r: Vec<(String, String)> = Vec::new();
        r.push((owned("SERVER_SOFTWARE"), owned(SERVER_SOFTWARE)));
        let mut i: usize = 0;
        while i < self.vars.len()
            invariant
                i <= self.vars@.len(),
                pairs_view(r@) == seq![("SERVER_SOFTWARE"@, SERVER_SOFTWARE@)]
                    + self.spec_vars().subrange(0, i as int),
            decreases self.vars@.len() - i,
        {
            let p = &self.vars[i];
            let ghost before = r@;
            let k = p.0.clone();
            let v = p.1.clone();
            r.push((k, v));
            assert(pairs_view(r@) =~= pairs_view(before).push(self.spec_vars()[i as int]));
            i = i + 1;
            assert(pairs_view(r@) =~= seq![("SERVER_SOFTWARE"@, SERVER_SOFTWARE@)]
                + self.spec_vars().subrange(0, i as int));
        }
        assert(self.spec_vars().subrange(0, i as int) =~= self.spec_vars());
        r
    }

    /// The result of the request with the given body.
    pub fn into_result(self, body: Vec<u8>) -> (r: ExecutionResult)
        ensures
            r.spec_status() == self.spec_status(),
            r.spec_body() == body@,
            r.spec_headers() == self.spec_headers(),
            r.spec_messages() == self.spec_messages(),
    {
        ExecutionResult::new(self.status, body, self.headers, self.messages)
    }

    /// Moves the output out, leaving the buffer empty.
    pub fn take_output(&mut self) -> (r: Vec<u8>)
        ensures
            r@ == old(self).spec_output(),
            final(self).spec_output().len() == 0,
            final(self).same_but_output(old(self)),
            same_but_output_open(*old(self), *final(self)),
    {
        let mut r: Vec<u8> = Vec::new();
        std::mem::swap(&mut r, &mut self.output);
        r
    }

    /// The diagnostics, taking the context.
    pub fn into_messages(self) -> (r: Vec<ExecutionMessage>)
        ensures
            r@ == self.spec_messages(),
    {
        self.messages
    }
}

} // verus!
