//! The engine singleton: started at most once, its outcome kept for good.

use vstd::prelude::*;

use crate::buffer::BufferPolicy;
use crate::context::ExecutionContext;
use crate::executor::{starts, ExecutionError, Phase, Request};
use crate::header::utf8_text;
use crate::server_context::{built_from, nul_free};
use crate::text::{concat, owned};

verus! {

/// Why the engine could not be started or configured.
#[derive(Debug, Clone)]
#[non_exhaustive]
pub enum SapiError {
    NotInitialized,
    InitializationFailed(String),
    InvalidIniKey,
    InvalidIniValue,
    IniSetFailed(String),
    LibraryNotFound,
}

impl SapiError {
    /// A sentence for people.
    pub fn to_string(&self) -> (r: String)
        ensures
            match self {
                SapiError::NotInitialized => r@ == "PHP engine not initialized"@,
                SapiError::InitializationFailed(m) => r@ == "PHP initialization failed: "@ + m@,
                SapiError::InvalidIniKey => r@ == "INI key contains null byte"@,
                SapiError::InvalidIniValue => r@ == "INI value contains null byte"@,
                SapiError::IniSetFailed(k) => r@ == "Failed to set INI: "@ + k@,
                SapiError::LibraryNotFound => r@
                    == "PHP library not found. Build PHP with --enable-embed=static and set RIPHT_PHP_SAPI_PREFIX"@,
            },
    {
        match self {
            SapiError::NotInitialized => owned("PHP engine not initialized"),
            SapiError::InitializationFailed(m) => concat("PHP initialization failed: ", m.as_str()),
            SapiError::InvalidIniKey => owned("INI key contains null byte"),
            SapiError::InvalidIniValue => owned("INI value contains null byte"),
            SapiError::IniSetFailed(k) => concat("Failed to set INI: ", k.as_str()),
            SapiError::LibraryNotFound => owned(
                "PHP library not found. Build PHP with --enable-embed=static and set RIPHT_PHP_SAPI_PREFIX",
            ),
        }
    }
}

/// Where the engine stands in the life of the process.
#[derive(Debug, Clone, Copy, PartialEq, Eq, Structural)]
pub enum EngineState {
    /// Startup has not been tried.
    Uninitialized,
    /// Startup succeeded.
    Ready,
    /// Startup failed; it is not tried again.
    Failed,
    /// The engine was shut down; it is not started again.
    ShutDown,
}

/// The state after the singleton is asked for: startup runs, with the
/// given outcome, only where it was never tried.
pub open spec fn accessed(s: EngineState, startup_ok: bool) -> EngineState {
    if s == EngineState::Uninitialized {
        if startup_ok {
            EngineState::Ready
        } else {
            EngineState::Failed
        }
    } else {
        s
    }
}


/// Asking for the singleton twice: startup runs at most once, and the
/// second answer is the first.
pub proof fn lemma_startup_at_most_once(s: EngineState, first_ok: bool, second_ok: bool)
    ensures
        accessed(s, first_ok) != EngineState::Uninitialized,
        accessed(accessed(s, first_ok), second_ok) == accessed(s, first_ok),
        (accessed(accessed(s, first_ok), second_ok) == EngineState::Ready) == (accessed(s, first_ok)
            == EngineState::Ready),
{
}

/// The embedded engine, as the process sees it.
pub struct RiphtSapi {
    state: EngineState,
}

/// Runs requests once the engine is ready.
pub struct Executor<'sapi> {
    sapi: &'sapi RiphtSapi,
}

impl RiphtSapi {
    pub closed spec fn spec_state(&self) -> EngineState {
        self.state
    }

    /// An engine that has not been started.
    pub fn new() -> (r: Self)
        ensures
            r.spec_state() == EngineState::Uninitialized,
    {
        RiphtSapi { state: EngineState::Uninitialized }
    }

    pub fn state(&self) -> (r: EngineState)
        ensures
            r == self.spec_state(),
    {
        self.state
    }

    /// Whether asking for the singleton must run the engine's startup.
    pub fn needs_startup(&self) -> (r: bool)
        ensures
            r == (self.spec_state() == EngineState::Uninitialized),
    {
        self.state == EngineState::Uninitialized
    }

    /// Records how the one startup went.
    pub fn record_startup(&mut self, startup_ok: bool)
        requires
            old(self).spec_state() == EngineState::Uninitialized,
        ensures
            final(self).spec_state() == accessed(old(self).spec_state(), startup_ok),
    {
        self.state = if startup_ok {
            EngineState::Ready
        } else {
            EngineState::Failed
        };
    }

    /// The outcome of startup, the same on every call.
    pub fn init_result(&self) -> (r: Result<(), SapiError>)
        ensures
            self.spec_state() == EngineState::Ready ==> r is Ok,
            self.spec_state() == EngineState::Failed ==> (r matches Err(
                SapiError::InitializationFailed(m),
            ) && m@ == "SAPI module initialization failed"@),
            self.spec_state() == EngineState::Uninitialized || self.spec_state()
                == EngineState::ShutDown ==> r matches Err(SapiError::NotInitialized),
    {
        match self.state {
            EngineState::Ready => Ok(()),
            EngineState::Failed => Err(
                SapiError::InitializationFailed(owned("SAPI module initialization failed")),
            ),
            _ => Err(SapiError::NotInitialized),
        }
    }

    pub fn is_initialized(&self) -> (r: bool)
        ensures
            r == (self.spec_state() == EngineState::Ready),
    {
        self.state == EngineState::Ready
    }

    /// Records that the engine was shut down; it stays down.
    pub fn shutdown(&mut self)
        ensures
            final(self).spec_state() == EngineState::ShutDown,
    {
        self.state = EngineState::ShutDown;
    }

    /// An executor, where the engine is ready.
    pub fn executor(&self) -> (r: Result<Executor<'_>, SapiError>)
        ensures
            self.spec_state() == EngineState::Ready ==> (r matches Ok(e) && e.spec_sapi() == *self),
            self.spec_state() != EngineState::Ready ==> r matches Err(SapiError::NotInitialized),
    {
        if self.is_initialized() {
            Ok(Executor { sapi: self })
        } else {
            Err(SapiError::NotInitialized)
        }
    }

    /// Checks a configuration change before it reaches the engine: neither
    /// key nor value may hold a NUL byte.
    pub fn check_ini(&self, key: &[u8], value: &[u8]) -> (r: Result<(), SapiError>)
        ensures
            (exists|i: int| 0 <= i < key@.len() && key@[i] == 0) ==> r matches Err(
                SapiError::InvalidIniKey,
            ),
            !(exists|i: int| 0 <= i < key@.len() && key@[i] == 0) && (exists|i: int|
                0 <= i < value@.len() && value@[i] == 0) ==> r matches Err(
                SapiError::InvalidIniValue,
            ),
            !(exists|i: int| 0 <= i < key@.len() && key@[i] == 0) && !(exists|i: int|
                0 <= i < value@.len() && value@[i] == 0) ==> r is Ok,
    {
        if has_zero(key) {
            return Err(SapiError::InvalidIniKey);
        }
        if has_zero(value) {
            return Err(SapiError::InvalidIniValue);
        }
        Ok(())
    }

    /// The error for a configuration change that the engine refused: it
    /// names the key where the key is UTF-8, and is empty otherwise.
    pub fn ini_failure(key: &[u8]) -> (r: SapiError)
        ensures
            r matches SapiError::IniSetFailed(k) && (vstd::utf8::valid_utf8(key@) ==> k@
                == vstd::utf8::decode_utf8(key@)) && (!vstd::utf8::valid_utf8(key@) ==> k@.len()
                == 0),
    {
        match utf8_text(key) {
            Ok(k) => SapiError::IniSetFailed(owned(k)),
            Err(_) => SapiError::IniSetFailed(String::new()),
        }
    }
}

/// Whether a zero byte occurs.
fn has_zero(b: &[u8]) -> (r: bool)
    ensures
        r == exists|i: int| 0 <= i < b@.len() && b@[i] == 0,
{
    let mut i: usize = 0;
    while i < b.len()
        invariant
            i <= b@.len(),
            forall|j: int| 0 <= j < i ==> b@[j] != 0,
        decreases b@.len() - i,
    {
        if b[i] == 0 {
            return true;
        }
        i = i + 1;
    }
    false
}

impl<'sapi> Executor<'sapi> {
    pub closed spec fn spec_sapi(&self) -> RiphtSapi {
        *self.sapi
    }

    /// Starts a request, as `Request::begin` does with the engine's readiness.
    pub fn begin(
        &self,
        script_exists: bool,
        ctx: ExecutionContext,
        policy: BufferPolicy,
        streaming: bool,
    ) -> (r: Result<Request, ExecutionError>)
        requires
            ctx.wf(),
            policy.wf(),
        ensures
            self.spec_sapi().spec_state() != EngineState::Ready ==> r matches Err(
                ExecutionError::NotInitialized,
            ),
            self.spec_sapi().spec_state() == EngineState::Ready && !script_exists ==> (r matches Err(
                ExecutionError::ScriptNotFound(p),
            ) && p@ == ctx.script_path@),
            r is Ok <==> starts(
                self.spec_sapi().spec_state() == EngineState::Ready,
                script_exists,
                ctx.script_path@,
            ),
            self.spec_sapi().spec_state() == EngineState::Ready && script_exists && nul_free(
                ctx.script_path@,
            ) ==> (r matches Ok(req) && req.wf() && req.spec_phase() == Phase::ContextCreated
                && req.spec_script_path() == ctx.script_path@ && req.spec_context().spec_streaming()
                == streaming && built_from(req.spec_context(), ctx)),
    {
        Request::begin(self.sapi.is_initialized(), script_exists, ctx, policy, streaming)
    }
}

} // verus!
