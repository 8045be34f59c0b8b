//! The lifecycle of one request, as a state machine that the host drives.
//!
//! The host performs each engine step and reports its outcome; the
//! request moves through its phases in a fixed order and, at its end,
//! assembles the result.

use vstd::prelude::*;

use crate::buffer::BufferPolicy;
use crate::context::ExecutionContext;
use crate::header::ResponseHeader;
use crate::hooks::{ExecutionHooks, HookEvent, OutputAction};
use crate::message::ExecutionMessage;
use crate::result::ExecutionResult;
use crate::server_context::{built_from, has_nul, nul_free, ServerContext};
use crate::text::{concat, owned};

verus! {

/// Why a request could not run. A failure inside the script is no such
/// error: it shows in the result's status, messages and body.
#[derive(Debug, Clone)]
#[non_exhaustive]
pub enum ExecutionError {
    InvalidPath(String),
    ScriptNotFound(String),
    NotInitialized,
    StartupFailed,
}

impl ExecutionError {
    /// A sentence for people.
    pub fn to_string(&self) -> (r: String)
        ensures
            match self {
                ExecutionError::InvalidPath(m) => r@ == "Invalid path: "@ + m@,
                ExecutionError::ScriptNotFound(p) => r@ == "Script not found: "@ + p@,
                ExecutionError::NotInitialized => r@ == "PHP engine not initialized"@,
                ExecutionError::StartupFailed => r@ == "Request startup failed"@,
            },
    {
        match self {
            ExecutionError::InvalidPath(m) => concat("Invalid path: ", m.as_str()),
            ExecutionError::ScriptNotFound(p) => concat("Script not found: ", p.as_str()),
            ExecutionError::NotInitialized => owned("PHP engine not initialized"),
            ExecutionError::StartupFailed => owned("Request startup failed"),
        }
    }
}

/// The phases of a request, in order. `StartupFailed` ends a request whose
/// engine startup failed; `RequestFinished` is where every other one ends,
/// as `finish` hands back its result.
#[derive(Debug, Clone, Copy, PartialEq, Eq, Structural)]
pub enum Phase {
    ContextCreated,
    RequestStarting,
    RequestStarted,
    ScriptExecuting,
    ScriptExecuted,
    RequestFinishing,
    RequestFinished,
    StartupFailed,
}

/// The headers whose verdict is `true`, in order.
pub open spec fn kept(hs: Seq<ResponseHeader>, keep: Seq<bool>) -> Seq<ResponseHeader>
    decreases hs.len(),
{
    if hs.len() == 0 || keep.len() == 0 {
        Seq::empty()
    } else if keep.last() {
        kept(hs.drop_last(), keep.drop_last()).push(hs.last())
    } else {
        kept(hs.drop_last(), keep.drop_last())
    }
}

/// Every verdict `true` keeps every header.
pub proof fn lemma_kept_all(hs: Seq<ResponseHeader>, keep: Seq<bool>)
    requires
        keep.len() == hs.len(),
        forall|i: int| 0 <= i < keep.len() ==> keep[i],
    ensures
        kept(hs, keep) == hs,
    decreases hs.len(),
{
    if hs.len() > 0 {
        lemma_kept_all(hs.drop_last(), keep.drop_last());
        assert(hs.drop_last().push(hs.last()) =~= hs);
    }
}

/// The calls `on_header` received for each header, with the verdicts.
pub open spec fn header_events(hs: Seq<ResponseHeader>, keep: Seq<bool>) -> Seq<HookEvent> {
    Seq::new(hs.len(), |i: int| HookEvent::Header(hs[i].spec_name(), hs[i].spec_value(), keep[i]))
}

/// The calls `on_php_message` received, one per message.
pub open spec fn message_events(ms: Seq<ExecutionMessage>) -> Seq<HookEvent> {
    ms.map_values(|m: ExecutionMessage| HookEvent::Message(m))
}

/// What `Request::finish` did with the context `ctx` and the hooks, given
/// the verdicts on the headers and the action on the output that the hooks
/// answered: the hooks heard each header (unless they keep every one), the
/// status, each message, the output and the result, in that order; the
/// result holds the accepted headers, the body the action leaves, and the
/// context's status and messages.
pub open spec fn finished_with<H: ExecutionHooks>(
    before: H,
    after: H,
    ctx: ServerContext,
    keep: Seq<bool>,
    action: OutputAction,
    r: ExecutionResult,
) -> bool {
    let hs = ctx.spec_headers();
    let tail = seq![HookEvent::Status(ctx.spec_status())] + message_events(ctx.spec_messages())
        + seq![HookEvent::Output(ctx.spec_output(), action), HookEvent::RequestFinished(r)];
    &&& keep.len() == hs.len()
    &&& before.spec_keeps_all() ==> forall|i: int| 0 <= i < keep.len() ==> keep[i]
    &&& after.spec_events() == before.spec_events() + header_events(hs, keep) + tail || ((forall|
        i: int,
    | 0 <= i < keep.len() ==> keep[i]) && after.spec_events() == before.spec_events() + tail)
    &&& r.spec_status() == ctx.spec_status()
    &&& r.spec_headers() == kept(hs, keep)
    &&& r.spec_body() == body_for(ctx.spec_output(), action)
    &&& r.spec_messages() == ctx.spec_messages()
}

/// The body that an output action leaves.
pub open spec fn body_for(output: Seq<u8>, action: OutputAction) -> Seq<u8> {
    match action {
        OutputAction::Buffer => output,
        OutputAction::Handled => Seq::empty(),
    }
}

/// The result of a finished request, given the verdict on each header and
/// the action on the output.
pub fn assemble(ctx: ServerContext, keep: &Vec<bool>, action: OutputAction) -> (r: ExecutionResult)
    requires
        keep@.len() == ctx.spec_headers().len(),
    ensures
        r.spec_status() == ctx.spec_status(),
        r.spec_headers() == kept(ctx.spec_headers(), keep@),
        r.spec_body() == body_for(ctx.spec_output(), action),
        r.spec_messages() == ctx.spec_messages(),
{
    let mut ctx = ctx;
    let mut headers: Vec<ResponseHeader> = Vec::new();
    let mut i: usize = 0;
    let n = ctx.headers().len();
    while i < n
        invariant
            n == ctx.spec_headers().len(),
            keep@.len() == n,
            i <= n,
            headers@ == kept(ctx.spec_headers().subrange(0, i as int), keep@.subrange(0, i as int)),
        decreases n - i,
    {
        let ghost hs = ctx.spec_headers().subrange(0, i + 1);
        let ghost ks = keep@.subrange(0, i + 1);
        assert(hs.drop_last() =~= ctx.spec_headers().subrange(0, i as int));
        assert(ks.drop_last() =~= keep@.subrange(0, i as int));
        if keep[i] {
            headers.push(ctx.headers()[i].clone_header());
        }
        i = i + 1;
    }
    assert(ctx.spec_headers().subrange(0, n as int) =~= ctx.spec_headers());
    assert(keep@.subrange(0, n as int) =~= keep@);
    let output = ctx.take_output();
    let body = match action {
        OutputAction::Buffer => output,
        OutputAction::Handled => Vec::new(),
    };
    let status = ctx.status_code();
    let messages = ctx.into_messages();
    ExecutionResult::new(status, body, headers, messages)
}

/// Whether a request starts: the engine is ready, the script exists and a
/// C string can hold its path. Nothing else, and nothing an earlier request
/// did, enters into it.
pub open spec fn starts(engine_ready: bool, script_exists: bool, path: Seq<char>) -> bool {
    engine_ready && script_exists && nul_free(path)
}

/// One request on its way through the engine.
pub struct Request {
    phase: Phase,
    context: ServerContext,
    script_path: String,
}

impl Request {
    pub closed spec fn spec_phase(&self) -> Phase {
        self.phase
    }

    pub closed spec fn spec_context(&self) -> ServerContext {
        self.context
    }

    pub closed spec fn spec_script_path(&self) -> Seq<char> {
        self.script_path@
    }

    pub open spec fn wf(&self) -> bool {
        self.spec_context().wf()
    }

    /// Checks what must hold before anything global is touched, then
    /// builds the request's context: an engine that is not ready, a script
    /// that does not exist, or a script path that a C string cannot hold
    /// is refused, in that order.
    pub fn begin(
        engine_ready: bool,
        script_exists: bool,
        ctx: ExecutionContext,
        policy: BufferPolicy,
        streaming: bool,
    ) -> (r: Result<Request, ExecutionError>)
        requires
            ctx.wf(),
            policy.wf(),
        ensures
            r is Ok <==> starts(engine_ready, script_exists, ctx.script_path@),
            !engine_ready ==> r matches Err(ExecutionError::NotInitialized),
            engine_ready && !script_exists ==> (r matches Err(ExecutionError::ScriptNotFound(p))
                && p@ == ctx.script_path@),
            engine_ready && script_exists && !nul_free(ctx.script_path@) ==> r matches Err(
                ExecutionError::InvalidPath(_),
            ),
            engine_ready && script_exists && nul_free(ctx.script_path@) ==> (r matches Ok(req)
                && req.wf() && req.spec_phase() == Phase::ContextCreated && req.spec_script_path()
                == ctx.script_path@ && req.spec_context().spec_streaming() == streaming
                && req.spec_context().spec_input() == ctx.input@
                && req.spec_context().spec_input_pos() == 0
                && req.spec_context().spec_output().len() == 0
                && req.spec_context().spec_headers().len() == 0
                && req.spec_context().spec_messages().len() == 0
                && req.spec_context().spec_status() == 200 && built_from(req.spec_context(), ctx)),
    {
        if !engine_ready {
            return Err(ExecutionError::NotInitialized);
        }
        if !script_exists {
            return Err(ExecutionError::ScriptNotFound(ctx.script_path.clone()));
        }
        if has_nul(ctx.script_path.as_str()) {
            return Err(ExecutionError::InvalidPath(owned("Path contains null byte")));
        }
        let script_path = ctx.script_path.clone();
        let context = ServerContext::new(ctx, policy, streaming);
        Ok(Request { phase: Phase::ContextCreated, context, script_path })
    }

    pub fn phase(&self) -> (r: Phase)
        ensures
            r == self.spec_phase(),
    {
        self.phase
    }

    pub fn script_path(&self) -> (r: &str)
        ensures
            r@ == self.spec_script_path(),
    {
        self.script_path.as_str()
    }

    pub fn context(&self) -> (r: &ServerContext)
        ensures
            *r == self.spec_context(),
    {
        &self.context
    }

    /// The context, for the engine's callbacks to fill.
    pub fn context_mut(&mut self) -> (r: &mut ServerContext)
        ensures
            *r == old(self).spec_context(),
            final(self).spec_context() == *final(r),
            final(self).spec_phase() == old(self).spec_phase(),
            final(self).spec_script_path() == old(self).spec_script_path(),
    {
        &mut self.context
    }

    /// The context exists and the engine is about to start the request:
    /// the hooks hear `on_context_created`, then `on_request_starting`.
    pub fn starting<H: ExecutionHooks>(&mut self, hooks: &mut H)
        requires
            old(self).spec_phase() == Phase::ContextCreated,
        ensures
            final(self).spec_phase() == Phase::RequestStarting,
            final(self).spec_context() == old(self).spec_context(),
            final(self).spec_script_path() == old(self).spec_script_path(),
            final(hooks).spec_events() == old(hooks).spec_events() + seq![
                HookEvent::ContextCreated,
                HookEvent::RequestStarting,
            ],
            final(hooks).spec_keeps_all() == old(hooks).spec_keeps_all(),
    {
        hooks.on_context_created();
        hooks.on_request_starting();
        self.phase = Phase::RequestStarting;
    }

    /// The engine reported how its request startup went. Where it went
    /// well the hooks hear `on_request_started`, then `on_script_executing`
    /// with the script's path, and the script is about to run.
    pub fn started<H: ExecutionHooks>(&mut self, startup_ok: bool, hooks: &mut H) -> (r: Result<
        (),
        ExecutionError,
    >)
        requires
            old(self).spec_phase() == Phase::RequestStarting,
        ensures
            startup_ok ==> r is Ok && final(self).spec_phase() == Phase::ScriptExecuting,
            !startup_ok ==> (r matches Err(ExecutionError::StartupFailed) && final(self).spec_phase()
                == Phase::StartupFailed),
            final(self).spec_context() == old(self).spec_context(),
            final(self).spec_script_path() == old(self).spec_script_path(),
            startup_ok ==> final(hooks).spec_events() == old(hooks).spec_events() + seq![
                HookEvent::RequestStarted,
                HookEvent::ScriptExecuting(old(self).spec_script_path()),
            ],
            !startup_ok ==> final(hooks).spec_events() == old(hooks).spec_events(),
            final(hooks).spec_keeps_all() == old(hooks).spec_keeps_all(),
    {
        if startup_ok {
            self.phase = Phase::RequestStarted;
            hooks.on_request_started();
            hooks.on_script_executing(self.script_path.as_str());
            self.phase = Phase::ScriptExecuting;
            Ok(())
        } else {
            self.phase = Phase::StartupFailed;
            Err(ExecutionError::StartupFailed)
        }
    }

    /// The script ran; `success` is false where the engine reported a
    /// failure. The hooks hear `on_script_executed`, then
    /// `on_request_finishing`, and the engine is about to shut the request down.
    pub fn executed<H: ExecutionHooks>(&mut self, success: bool, hooks: &mut H)
        requires
            old(self).spec_phase() == Phase::ScriptExecuting,
        ensures
            final(self).spec_phase() == Phase::RequestFinishing,
            final(self).spec_context() == old(self).spec_context(),
            final(self).spec_script_path() == old(self).spec_script_path(),
            final(hooks).spec_events() == old(hooks).spec_events() + seq![
                HookEvent::ScriptExecuted(success),
                HookEvent::RequestFinishing,
            ],
            final(hooks).spec_keeps_all() == old(hooks).spec_keeps_all(),
    {
        self.phase = Phase::ScriptExecuted;
        hooks.on_script_executed(success);
        hooks.on_request_finishing();
        self.phase = Phase::RequestFinishing;
    }

    /// Ends the request: each header is offered to the hooks, in order
    /// (all are kept without asking where the hooks say they keep every
    /// header), then the status, each message in order and the whole
    /// output; the result keeps the headers the hooks accepted, and the
    /// hooks' action on the output decides the body. Last the hooks see the
    /// result.
    pub fn finish<H: ExecutionHooks>(self, hooks: &mut H) -> (r: ExecutionResult)
        requires
            self.spec_phase() == Phase::RequestFinishing,
        ensures
            exists|keep: Seq<bool>, action: OutputAction|
                finished_with(*old(hooks), *final(hooks), self.spec_context(), keep, action, r),
            old(hooks).spec_keeps_all() ==> r.spec_headers() == self.spec_context().spec_headers(),
            final(hooks).spec_keeps_all() == old(hooks).spec_keeps_all(),
    {
        let ghost e0 = hooks.spec_events();
        let ghost k0 = hooks.spec_keeps_all();
        let ctx = self.context;
        let ghost hs = ctx.spec_headers();
        let ghost ms = ctx.spec_messages();
        let n = ctx.headers().len();
        let mut keep: Vec<bool> = Vec::new();
        let all = hooks.keeps_all_headers();
        let mut i: usize = 0;
        while i < n
            invariant
                n == hs.len(),
                hs == ctx.spec_headers(),
                i <= n,
                keep@.len() == i,
                hooks.spec_keeps_all() == k0,
                all ==> k0,
                all ==> hooks.spec_events() == e0,
                !all ==> hooks.spec_events() == e0 + header_events(hs.subrange(0, i as int), keep@),
                k0 ==> forall|j: int| 0 <= j < i ==> keep@[j],
                all ==> forall|j: int| 0 <= j < i ==> keep@[j],
            decreases n - i,
        {
            if all {
                keep.push(true);
            } else {
                let h = &ctx.headers()[i];
                let ghost before = hooks.spec_events();
                let ghost kb = keep@;
                let verdict = hooks.on_header(h.name(), h.value());
                keep.push(verdict);
                assert(header_events(hs.subrange(0, i + 1), keep@) =~= header_events(
                    hs.subrange(0, i as int),
                    kb,
                ).push(HookEvent::Header(hs[i as int].spec_name(), hs[i as int].spec_value(), verdict)));
            }
            i = i + 1;
        }
        assert(hs.subrange(0, n as int) =~= hs);
        let ghost after_headers = hooks.spec_events();
        hooks.on_status(ctx.status_code());
        let mut m: usize = 0;
        let count = ctx.messages().len();
        while m < count
            invariant
                count == ms.len(),
                ms == ctx.spec_messages(),
                m <= count,
                hooks.spec_keeps_all() == k0,
                hooks.spec_events() == after_headers.push(HookEvent::Status(ctx.spec_status()))
                    + message_events(ms.subrange(0, m as int)),
            decreases count - m,
        {
            hooks.on_php_message(&ctx.messages()[m]);
            m = m + 1;
            assert(message_events(ms.subrange(0, m as int)) =~= message_events(
                ms.subrange(0, m - 1),
            ).push(HookEvent::Message(ms[m - 1])));
        }
        assert(ms.subrange(0, count as int) =~= ms);
        let ghost out = ctx.spec_output();
        let ghost st = ctx.spec_status();
        let action = hooks.on_output(ctx.output());
        let result = assemble(ctx, &keep, action);
        hooks.on_request_finished(&result);
        proof {
            let tail = seq![HookEvent::Status(st)] + message_events(ms) + seq![
                HookEvent::Output(out, action),
                HookEvent::RequestFinished(result),
            ];
            assert(after_headers.push(HookEvent::Status(st)) + message_events(ms) == after_headers
                + (seq![HookEvent::Status(st)] + message_events(ms))) by {
                assert(after_headers.push(HookEvent::Status(st)) + message_events(ms) =~= after_headers
                    + (seq![HookEvent::Status(st)] + message_events(ms)));
            }
            assert(hooks.spec_events() =~= after_headers + tail);
            if all {
                assert(hooks.spec_events() =~= e0 + tail);
            } else {
                assert(hooks.spec_events() =~= e0 + header_events(hs, keep@) + tail);
            }
            if k0 {
                lemma_kept_all(hs, keep@);
            }
            assert(finished_with(*old(hooks), *hooks, self.spec_context(), keep@, action, result));
        }
        result
    }

    /// Ends a request run with the no-op hooks: every header is kept, in
    /// order, and the whole output is the body.
    pub fn finish_buffered(self) -> (r: ExecutionResult)
        requires
            self.spec_phase() == Phase::RequestFinishing,
        ensures
            r.spec_status() == self.spec_context().spec_status(),
            r.spec_headers() == self.spec_context().spec_headers(),
            r.spec_messages() == self.spec_context().spec_messages(),
            r.spec_body() == self.spec_context().spec_output(),
    {
        let mut ctx = self.context;
        let output = ctx.take_output();
        ctx.into_result(output)
    }

    /// Ends a request whose output went to a per-write callback: the body
    /// is empty and no hook is asked.
    pub fn finish_streaming(self) -> (r: ExecutionResult)
        requires
            self.spec_phase() == Phase::RequestFinishing,
        ensures
            r.spec_status() == self.spec_context().spec_status(),
            r.spec_headers() == self.spec_context().spec_headers(),
            r.spec_messages() == self.spec_context().spec_messages(),
            r.spec_body().len() == 0,
    {
        self.context.into_result(Vec::new())
    }
}

} // verus!
