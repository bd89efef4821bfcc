//! The controller's side of the pipeline: the resource-lifecycle state
//! machine for the loaded module, the resolved callback and the installed
//! hook, and the decisions of the message loop.
//!
//! The operating-system calls (loading and freeing the module, resolving
//! the symbol, installing and unregistering the hook, retrieving messages)
//! are performed by the surrounding binary, which feeds their raw results
//! into these transitions and performs the releases they yield — so the
//! ordering discipline, uninstall strictly before unload, is enforced here
//! on every path.

use vstd::prelude::*;

verus! {

/// The fixed period, in milliseconds, of the wakeup timer. It exists only
/// to make the blocking retrieval call return periodically, so the quit
/// signal is observed within one interval of being set.
pub const TIMER_INTERVAL_MS: u32 = 1000;

/// A fatal controller failure: startup or the loop aborts immediately,
/// with no retry.
#[derive(Clone, Copy, Debug, PartialEq, Eq, Structural)]
pub enum ControllerError {
    LoadError,
    SymbolError,
    InstallError,
    LoopError,
}

/// The message a fatal failure is reported with.
pub open spec fn spec_error_message(e: ControllerError) -> Seq<char> {
    match e {
        ControllerError::LoadError => "failed to load hook library"@,
        ControllerError::SymbolError => "failed to find hook function"@,
        ControllerError::InstallError => "failed to install debug hook"@,
        ControllerError::LoopError => "an error occurred in GetMessage"@,
    }
}

impl ControllerError {
    /// The message this failure is reported with.
    pub fn message(&self) -> (r: &'static str)
        ensures
            r@ == spec_error_message(*self),
    {
        match self {
            ControllerError::LoadError => "failed to load hook library",
            ControllerError::SymbolError => "failed to find hook function",
            ControllerError::InstallError => "failed to install debug hook",
            ControllerError::LoopError => "an error occurred in GetMessage",
        }
    }
}

/// The next thing the controller must do to bring the hook up.
#[derive(Clone, Copy, Debug, PartialEq, Eq, Structural)]
pub enum SetupStep {
    LoadModule,
    ResolveCallback,
    InstallHook,
    Ready,
    Abort,
}

/// The controller's resource state: the raw handle of the loaded module,
/// the raw callback address resolved from it, the raw handle of the
/// installed hook, and the failure that aborted setup, if any. Each raw
/// value is held here exactly as the operating system returned it, and
/// yielded back exactly once for release.
pub struct Session {
    pub module: Option<usize>,
    pub callback: Option<usize>,
    pub hook: Option<usize>,
    pub failed: Option<ControllerError>,
}

impl Session {
    /// The ordering invariant of the two owned resources: a callback
    /// address is valid only while its module stays loaded, and an
    /// installed hook presupposes both. It is what makes the strict
    /// uninstall-before-unload discipline expressible at all.
    pub open spec fn wf(self) -> bool {
        &&& self.callback is Some ==> self.module is Some
        &&& self.hook is Some ==> self.callback is Some
    }

    /// A fresh session: nothing loaded, resolved or installed.
    pub fn new() -> (s: Session)
        ensures
            s.wf(),
            s.module is None,
            s.callback is None,
            s.hook is None,
            s.failed is None,
            s.spec_next_setup_step() == SetupStep::LoadModule,
    {
        Session { module: None, callback: None, hook: None, failed: None }
    }

    /// The setup step this state calls for: the three acquisitions in
    /// order, `Ready` once the hook stands — and `Abort` forever after any
    /// failure, so a failed load never reaches installation.
    pub open spec fn spec_next_setup_step(self) -> SetupStep {
        if self.failed is Some {
            SetupStep::Abort
        } else if self.module is None {
            SetupStep::LoadModule
        } else if self.callback is None {
            SetupStep::ResolveCallback
        } else if self.hook is None {
            SetupStep::InstallHook
        } else {
            SetupStep::Ready
        }
    }

    /// The setup step this state calls for.
    pub fn next_setup_step(&self) -> (step: SetupStep)
        ensures
            step == self.spec_next_setup_step(),
    {
        if self.failed.is_some() {
            SetupStep::Abort
        } else if self.module.is_none() {
            SetupStep::LoadModule
        } else if self.callback.is_none() {
            SetupStep::ResolveCallback
        } else if self.hook.is_none() {
            SetupStep::InstallHook
        } else {
            SetupStep::Ready
        }
    }

    /// Accepts the result of loading the fixed-name shared module: the raw
    /// module handle, or nothing if the load failed — reported as
    /// `LoadError`, after which setup aborts.
    pub fn on_module_loaded(&mut self, handle: Option<usize>) -> (r: Result<(), ControllerError>)
        requires
            old(self).wf(),
            old(self).spec_next_setup_step() == SetupStep::LoadModule,
        ensures
            final(self).wf(),
            final(self).hook is None,
            handle matches Some(h) ==> {
                &&& final(self).module == Some(h)
                &&& final(self).failed is None
                &&& r is Ok
                &&& final(self).spec_next_setup_step() == SetupStep::ResolveCallback
            },
            handle is None ==> {
                &&& final(self).module is None
                &&& final(self).failed == Some(ControllerError::LoadError)
                &&& (r matches Result::Err(e) && e == ControllerError::LoadError)
                &&& final(self).spec_next_setup_step() == SetupStep::Abort
            },
    {
        match handle {
            Some(h) => {
                self.module = Some(h);
                Result::Ok(())
            },
            None => {
                self.failed = Some(ControllerError::LoadError);
                Result::Err(ControllerError::LoadError)
            },
        }
    }

    /// Accepts the result of resolving the fixed exported symbol from the
    /// loaded module: the raw callback address, or nothing if the symbol
    /// was absent — reported as `SymbolError`, after which setup aborts.
    pub fn on_callback_resolved(&mut self, address: Option<usize>) -> (r: Result<
        (),
        ControllerError,
    >)
        requires
            old(self).wf(),
            old(self).spec_next_setup_step() == SetupStep::ResolveCallback,
        ensures
            final(self).wf(),
            final(self).module == old(self).module,
            final(self).hook is None,
            address matches Some(a) ==> {
                &&& final(self).callback == Some(a)
                &&& final(self).failed is None
                &&& r is Ok
                &&& final(self).spec_next_setup_step() == SetupStep::InstallHook
            },
            address is None ==> {
                &&& final(self).callback is None
                &&& final(self).failed == Some(ControllerError::SymbolError)
                &&& (r matches Result::Err(e) && e == ControllerError::SymbolError)
                &&& final(self).spec_next_setup_step() == SetupStep::Abort
            },
    {
        match address {
            Some(a) => {
                self.callback = Some(a);
                Result::Ok(())
            },
            None => {
                self.failed = Some(ControllerError::SymbolError);
                Result::Err(ControllerError::SymbolError)
            },
        }
    }

    /// Accepts the result of registering the global debug-category hook
    /// bound to the resolved callback: the raw hook handle, or nothing if
    /// registration was refused — reported as `InstallError`, after which
    /// setup aborts.
    pub fn on_hook_installed(&mut self, handle: Option<usize>) -> (r: Result<(), ControllerError>)
        requires
            old(self).wf(),
            old(self).spec_next_setup_step() == SetupStep::InstallHook,
        ensures
            final(self).wf(),
            final(self).module == old(self).module,
            final(self).callback == old(self).callback,
            handle matches Some(h) ==> {
                &&& final(self).hook == Some(h)
                &&& final(self).failed is None
                &&& r is Ok
                &&& final(self).spec_next_setup_step() == SetupStep::Ready
            },
            handle is None ==> {
                &&& final(self).hook is None
                &&& final(self).failed == Some(ControllerError::InstallError)
                &&& (r matches Result::Err(e) && e == ControllerError::InstallError)
                &&& final(self).spec_next_setup_step() == SetupStep::Abort
            },
    {
        match handle {
            Some(h) => {
                self.hook = Some(h);
                Result::Ok(())
            },
            None => {
                self.failed = Some(ControllerError::InstallError);
                Result::Err(ControllerError::InstallError)
            },
        }
    }

    /// The state after the hook registration is released.
    pub open spec fn spec_after_release_hook(self) -> Session {
        Session { hook: None, ..self }
    }

    /// The state after the module is released; the callback address
    /// resolved from it dies with it.
    pub open spec fn spec_after_release_module(self) -> Session {
        Session { module: None, callback: None, ..self }
    }

    /// First half of teardown: yields the raw hook handle to unregister,
    /// or nothing if no registration is active — so a repeated teardown
    /// releases nothing. The module stays loaded throughout.
    pub fn release_hook(&mut self) -> (h: Option<usize>)
        requires
            old(self).wf(),
        ensures
            final(self).wf(),
            h == old(self).hook,
            *final(self) == old(self).spec_after_release_hook(),
            final(self).hook is None,
            final(self).module == old(self).module,
    {
        let h = self.hook;
        self.hook = None;
        h
    }

    /// Second half of teardown: yields the raw module handle to unload, or
    /// nothing on a repeated teardown. It demands that the hook
    /// registration is already released — the module is never unloaded
    /// while its registration is still active.
    pub fn release_module(&mut self) -> (m: Option<usize>)
        requires
            old(self).wf(),
            old(self).hook is None,
        ensures
            final(self).wf(),
            m == old(self).module,
            *final(self) == old(self).spec_after_release_module(),
            final(self).module is None,
            final(self).callback is None,
            final(self).hook is None,
    {
        self.callback = None;
        let m = self.module;
        self.module = None;
        m
    }
}

/// Teardown is idempotent: releasing the hook or the module a second time
/// finds nothing to yield and changes nothing, so neither resource is ever
/// released twice.
pub proof fn lemma_teardown_idempotent(s: Session)
    ensures
        s.spec_after_release_hook().hook is None,
        s.spec_after_release_hook().spec_after_release_hook() == s.spec_after_release_hook(),
        s.spec_after_release_module().module is None,
        s.spec_after_release_module().spec_after_release_module() == s.spec_after_release_module(),
{
}

/// Registration liveness implies module liveness: in every well-formed
/// state an active hook registration keeps its module loaded — and
/// `release_module` refuses to run at all while the registration stands.
pub proof fn lemma_hook_keeps_module_loaded(s: Session)
    requires
        s.wf(),
        s.hook is Some,
    ensures
        s.module is Some,
{
}

/// Once any setup step has failed, the next setup step is `Abort`, now and
/// in every later state that keeps the failure: a load failure in
/// particular never reaches installation.
pub proof fn lemma_failure_aborts(s: Session)
    requires
        s.failed is Some,
    ensures
        s.spec_next_setup_step() == SetupStep::Abort,
{
}

/// What the controller loop does at the top of one iteration.
#[derive(Clone, Copy, Debug, PartialEq, Eq, Structural)]
pub enum LoopStep {
    ExitSuccess,
    PumpMessage,
}

/// Observes the quit signal: the loop exits successfully the moment the
/// signal reads true — which the wakeup timer makes happen within one
/// interval of it being set — and otherwise pumps one more message.
pub fn loop_step(quit: bool) -> (step: LoopStep)
    ensures
        quit <==> step == LoopStep::ExitSuccess,
        !quit <==> step == LoopStep::PumpMessage,
{
    if quit {
        LoopStep::ExitSuccess
    } else {
        LoopStep::PumpMessage
    }
}

/// Judges one result of the blocking retrieval primitive: a negative
/// status is the primitive's failure report and ends the loop with
/// `LoopError`; every other message — the timer's empty wakeups included —
/// carries nothing the loop needs and is discarded after this check.
pub fn message_status(status: i32) -> (r: Result<(), ControllerError>)
    ensures
        r is Ok <==> status >= 0,
        status < 0 ==> (r matches Result::Err(e) && e == ControllerError::LoopError),
{
    if status < 0 {
        Result::Err(ControllerError::LoopError)
    } else {
        Result::Ok(())
    }
}

/// The fixed file name of the shared callback module; a missing or
/// incompatible module is a fatal startup error.
pub fn module_file_name() -> (r: &'static str)
    ensures
        r@ == "hook_debug.dll"@,
{
    "hook_debug.dll"
}

/// The fixed exported symbol resolved from the module; its absence is a
/// fatal startup error.
pub fn callback_symbol_name() -> (r: &'static str)
    ensures
        r@ == "debug_hook"@,
{
    "debug_hook"
}

} // verus!
