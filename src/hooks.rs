//! Observers of a request's lifecycle.

use vstd::prelude::*;

use crate::message::ExecutionMessage;
use crate::result::ExecutionResult;

verus! {

/// What becomes of the output that a request produced.
#[derive(Debug, Clone, Copy, PartialEq, Eq, Structural)]
#[non_exhaustive]
pub enum OutputAction {
    /// The output is the result's body.
    Buffer,
    /// The hook took the output (streamed it, say): the result's body is empty.
    Handled,
}

/// One call that a hook object received, with what it was handed and, for
/// the calls that answer, what it answered.
pub enum HookEvent {
    ContextCreated,
    RequestStarting,
    RequestStarted,
    ScriptExecuting(Seq<char>),
    ScriptExecuted(bool),
    Output(Seq<u8>, OutputAction),
    Flush,
    Header(Seq<char>, Seq<char>, bool),
    Status(u16),
    Message(ExecutionMessage),
    RequestFinishing,
    RequestFinished(ExecutionResult),
}

/// Callbacks at fixed points of one request. Each call is recorded in
/// `spec_events`, so that what the library hands to a hook, and in which
/// order, is part of its contracts.
pub trait ExecutionHooks: Sized {
    /// The calls received so far, oldest first. An implementation that
    /// Verus checks defines it; the default stands for implementations
    /// outside of it.
    closed spec fn spec_events(&self) -> Seq<HookEvent> {
        Seq::empty()
    }

    /// Whether `on_header` keeps every header.
    closed spec fn spec_keeps_all(&self) -> bool {
        false
    }

    /// After the request's server context was built.
    fn on_context_created(&mut self)
        ensures
            final(self).spec_events() == old(self).spec_events().push(HookEvent::ContextCreated),
            final(self).spec_keeps_all() == old(self).spec_keeps_all(),
    ;

    /// Before the engine starts the request.
    fn on_request_starting(&mut self)
        ensures
            final(self).spec_events() == old(self).spec_events().push(HookEvent::RequestStarting),
            final(self).spec_keeps_all() == old(self).spec_keeps_all(),
    ;

    /// After the engine started the request.
    fn on_request_started(&mut self)
        ensures
            final(self).spec_events() == old(self).spec_events().push(HookEvent::RequestStarted),
            final(self).spec_keeps_all() == old(self).spec_keeps_all(),
    ;

    /// Before the script runs.
    fn on_script_executing(&mut self, script_path: &str)
        ensures
            final(self).spec_events() == old(self).spec_events().push(HookEvent::ScriptExecuting(script_path@)),
            final(self).spec_keeps_all() == old(self).spec_keeps_all(),
    ;

    /// After the script ran; `success` is false where the engine reported a failure.
    fn on_script_executed(&mut self, success: bool)
        ensures
            final(self).spec_events() == old(self).spec_events().push(HookEvent::ScriptExecuted(success)),
            final(self).spec_keeps_all() == old(self).spec_keeps_all(),
    ;

    /// Once, with all the output of the request. `Handled` leaves the body empty.
    fn on_output(&mut self, data: &[u8]) -> (r: OutputAction)
        ensures
            final(self).spec_events() == old(self).spec_events().push(HookEvent::Output(data@, r)),
            final(self).spec_keeps_all() == old(self).spec_keeps_all(),
    ;

    /// When the engine flushes its output.
    fn on_flush(&mut self)
        ensures
            final(self).spec_events() == old(self).spec_events().push(HookEvent::Flush),
            final(self).spec_keeps_all() == old(self).spec_keeps_all(),
    ;

    /// For each response header; `false` leaves it out of the result.
    fn on_header(&mut self, name: &str, value: &str) -> (r: bool)
        ensures
            final(self).spec_events() == old(self).spec_events().push(HookEvent::Header(name@, value@, r)),
            final(self).spec_keeps_all() == old(self).spec_keeps_all(),
            old(self).spec_keeps_all() ==> r,
    ;

    /// With the final status code.
    fn on_status(&mut self, code: u16)
        ensures
            final(self).spec_events() == old(self).spec_events().push(HookEvent::Status(code)),
            final(self).spec_keeps_all() == old(self).spec_keeps_all(),
    ;

    /// For each diagnostic, in emission order.
    fn on_php_message(&mut self, message: &ExecutionMessage)
        ensures
            final(self).spec_events() == old(self).spec_events().push(HookEvent::Message(*message)),
            final(self).spec_keeps_all() == old(self).spec_keeps_all(),
    ;

    /// Before the engine shuts the request down.
    fn on_request_finishing(&mut self)
        ensures
            final(self).spec_events() == old(self).spec_events().push(HookEvent::RequestFinishing),
            final(self).spec_keeps_all() == old(self).spec_keeps_all(),
    ;

    /// With the final result.
    fn on_request_finished(&mut self, result: &ExecutionResult)
        ensures
            final(self).spec_events() == old(self).spec_events().push(HookEvent::RequestFinished(*result)),
            final(self).spec_keeps_all() == old(self).spec_keeps_all(),
    ;

    /// Whether the client still listens; advisory.
    fn is_connection_alive(&self) -> (r: bool)
        default_ensures
            r,
    {
        true
    }

    /// Whether asking `on_header` for each header can be skipped because it
    /// keeps every one.
    fn keeps_all_headers(&self) -> (r: bool)
        ensures
            r ==> self.spec_keeps_all(),
        default_ensures
            !r,
    {
        false
    }
}

/// Hooks that do nothing: every header is kept and the output buffered.
pub struct NoOpHooks {
    events: Ghost<Seq<HookEvent>>,
}

impl NoOpHooks {
    pub fn new() -> (r: Self)
        ensures
            r.spec_events().len() == 0,
            r.spec_keeps_all(),
    {
        NoOpHooks { events: Ghost(Seq::empty()) }
    }
}

impl ExecutionHooks for NoOpHooks {
    closed spec fn spec_events(&self) -> Seq<HookEvent> {
        self.events@
    }

    open spec fn spec_keeps_all(&self) -> bool {
        true
    }

    fn on_context_created(&mut self) {
        self.events = Ghost(self.events@.push(HookEvent::ContextCreated));
    }

    fn on_request_starting(&mut self) {
        self.events = Ghost(self.events@.push(HookEvent::RequestStarting));
    }

    fn on_request_started(&mut self) {
        self.events = Ghost(self.events@.push(HookEvent::RequestStarted));
    }

    fn on_script_executing(&mut self, script_path: &str) {
        self.events = Ghost(self.events@.push(HookEvent::ScriptExecuting(script_path@)));
    }

    fn on_script_executed(&mut self, success: bool) {
        self.events = Ghost(self.events@.push(HookEvent::ScriptExecuted(success)));
    }

    fn on_output(&mut self, data: &[u8]) -> (r: OutputAction) {
        self.events = Ghost(self.events@.push(HookEvent::Output(data@, OutputAction::Buffer)));
        OutputAction::Buffer
    }

    fn on_flush(&mut self) {
        self.events = Ghost(self.events@.push(HookEvent::Flush));
    }

    fn on_header(&mut self, name: &str, value: &str) -> (r: bool) {
        self.events = Ghost(self.events@.push(HookEvent::Header(name@, value@, true)));
        true
    }

    fn on_status(&mut self, code: u16) {
        self.events = Ghost(self.events@.push(HookEvent::Status(code)));
    }

    fn on_php_message(&mut self, message: &ExecutionMessage) {
        self.events = Ghost(self.events@.push(HookEvent::Message(*message)));
    }

    fn on_request_finishing(&mut self) {
        self.events = Ghost(self.events@.push(HookEvent::RequestFinishing));
    }

    fn on_request_finished(&mut self, result: &ExecutionResult) {
        self.events = Ghost(self.events@.push(HookEvent::RequestFinished(*result)));
    }

    fn keeps_all_headers(&self) -> (r: bool) {
        true
    }
}

/// Hooks that hand all of the output to a closure and leave the body empty.
pub struct StreamingCallback<F: Fn(&[u8])> {
    output_fn: F,
    events: Ghost<Seq<HookEvent>>,
}

impl<F: Fn(&[u8])> StreamingCallback<F> {
    pub closed spec fn spec_output_fn(&self) -> F {
        self.output_fn
    }

    /// The closure accepts every chunk.
    #[verifier::type_invariant]
    closed spec fn accepts_all(&self) -> bool {
        forall|d: &[u8]| #[trigger] self.output_fn.requires((d,))
    }

    pub fn new(output_fn: F) -> (r: Self)
        requires
            forall|d: &[u8]| #[trigger] output_fn.requires((d,)),
        ensures
            r.spec_output_fn() == output_fn,
            r.spec_events().len() == 0,
    {
        StreamingCallback { output_fn, events: Ghost(Seq::empty()) }
    }
}

impl<F: Fn(&[u8])> ExecutionHooks for StreamingCallback<F> {
    closed spec fn spec_events(&self) -> Seq<HookEvent> {
        self.events@
    }

    open spec fn spec_keeps_all(&self) -> bool {
        true
    }

    fn on_context_created(&mut self) {
        proof {
            use_type_invariant(&*self);
        }
        self.events = Ghost(self.events@.push(HookEvent::ContextCreated));
    }

    fn on_request_starting(&mut self) {
        proof {
            use_type_invariant(&*self);
        }
        self.events = Ghost(self.events@.push(HookEvent::RequestStarting));
    }

    fn on_request_started(&mut self) {
        proof {
            use_type_invariant(&*self);
        }
        self.events = Ghost(self.events@.push(HookEvent::RequestStarted));
    }

    fn on_script_executing(&mut self, script_path: &str) {
        proof {
            use_type_invariant(&*self);
        }
        self.events = Ghost(self.events@.push(HookEvent::ScriptExecuting(script_path@)));
    }

    fn on_script_executed(&mut self, success: bool) {
        proof {
            use_type_invariant(&*self);
        }
        self.events = Ghost(self.events@.push(HookEvent::ScriptExecuted(success)));
    }

    fn on_output(&mut self, data: &[u8]) -> (r: OutputAction) {
        proof {
            use_type_invariant(&*self);
        }
        (self.output_fn)(data);
        proof {
            use_type_invariant(&*self);
        }
        self.events = Ghost(self.events@.push(HookEvent::Output(data@, OutputAction::Handled)));
        OutputAction::Handled
    }

    fn on_flush(&mut self) {
        proof {
            use_type_invariant(&*self);
        }
        self.events = Ghost(self.events@.push(HookEvent::Flush));
    }

    fn on_header(&mut self, name: &str, value: &str) -> (r: bool) {
        proof {
            use_type_invariant(&*self);
        }
        self.events = Ghost(self.events@.push(HookEvent::Header(name@, value@, true)));
        true
    }

    fn on_status(&mut self, code: u16) {
        proof {
            use_type_invariant(&*self);
        }
        self.events = Ghost(self.events@.push(HookEvent::Status(code)));
    }

    fn on_php_message(&mut self, message: &ExecutionMessage) {
        proof {
            use_type_invariant(&*self);
        }
        self.events = Ghost(self.events@.push(HookEvent::Message(*message)));
    }

    fn on_request_finishing(&mut self) {
        proof {
            use_type_invariant(&*self);
        }
        self.events = Ghost(self.events@.push(HookEvent::RequestFinishing));
    }

    fn on_request_finished(&mut self, result: &ExecutionResult) {
        proof {
            use_type_invariant(&*self);
        }
        self.events = Ghost(self.events@.push(HookEvent::RequestFinished(*result)));
    }
}

} // verus!
