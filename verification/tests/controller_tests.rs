use hook_debug::controller::{
    callback_symbol_name, loop_step, message_status, module_file_name, ControllerError, LoopStep,
    Session, SetupStep, TIMER_INTERVAL_MS,
};

#[test]
fn setup_acquires_in_order() {
    let mut s = Session::new();
    assert_eq!(s.next_setup_step(), SetupStep::LoadModule);
    s.on_module_loaded(Some(0x7000)).unwrap();
    assert_eq!(s.next_setup_step(), SetupStep::ResolveCallback);
    s.on_callback_resolved(Some(0x7abc)).unwrap();
    assert_eq!(s.next_setup_step(), SetupStep::InstallHook);
    s.on_hook_installed(Some(0x99)).unwrap();
    assert_eq!(s.next_setup_step(), SetupStep::Ready);
}

#[test]
fn load_failure_reports_load_error_and_never_installs() {
    let mut s = Session::new();
    let r = s.on_module_loaded(None);
    assert_eq!(r.unwrap_err(), ControllerError::LoadError);
    assert_eq!(s.next_setup_step(), SetupStep::Abort);
    assert!(s.hook.is_none());
    assert!(s.release_hook().is_none());
    assert!(s.release_module().is_none());
}

#[test]
fn symbol_failure_reports_symbol_error() {
    let mut s = Session::new();
    s.on_module_loaded(Some(0x7000)).unwrap();
    let r = s.on_callback_resolved(None);
    assert_eq!(r.unwrap_err(), ControllerError::SymbolError);
    assert_eq!(s.next_setup_step(), SetupStep::Abort);
    // The partially acquired module is still released, hook first as always.
    assert!(s.release_hook().is_none());
    assert_eq!(s.release_module(), Some(0x7000));
}

#[test]
fn install_failure_reports_install_error() {
    let mut s = Session::new();
    s.on_module_loaded(Some(0x7000)).unwrap();
    s.on_callback_resolved(Some(0x7abc)).unwrap();
    let r = s.on_hook_installed(None);
    assert_eq!(r.unwrap_err(), ControllerError::InstallError);
    assert_eq!(s.next_setup_step(), SetupStep::Abort);
}

#[test]
fn teardown_releases_hook_then_module() {
    let mut s = Session::new();
    s.on_module_loaded(Some(0x7000)).unwrap();
    s.on_callback_resolved(Some(0x7abc)).unwrap();
    s.on_hook_installed(Some(0x99)).unwrap();
    assert_eq!(s.release_hook(), Some(0x99));
    assert_eq!(s.release_module(), Some(0x7000));
}

#[test]
fn teardown_twice_releases_nothing_twice() {
    let mut s = Session::new();
    s.on_module_loaded(Some(0x7000)).unwrap();
    s.on_callback_resolved(Some(0x7abc)).unwrap();
    s.on_hook_installed(Some(0x99)).unwrap();
    assert_eq!(s.release_hook(), Some(0x99));
    assert_eq!(s.release_module(), Some(0x7000));
    assert!(s.release_hook().is_none());
    assert!(s.release_module().is_none());
}

#[test]
fn quit_signal_ends_loop_then_tears_down_in_order() {
    let mut s = Session::new();
    s.on_module_loaded(Some(0x7000)).unwrap();
    s.on_callback_resolved(Some(0x7abc)).unwrap();
    s.on_hook_installed(Some(0x99)).unwrap();

    // While the signal is unset the loop keeps pumping; empty timer
    // wakeups report a non-negative status and are discarded.
    assert_eq!(loop_step(false), LoopStep::PumpMessage);
    assert!(message_status(0).is_ok());
    assert!(message_status(1).is_ok());

    // The signal is set while the loop is blocked; the next wakeup
    // observes it and the loop exits successfully.
    assert_eq!(loop_step(true), LoopStep::ExitSuccess);

    // Unregister strictly before unload, then exit with success.
    assert_eq!(s.release_hook(), Some(0x99));
    assert_eq!(s.release_module(), Some(0x7000));
}

#[test]
fn negative_retrieval_status_is_loop_error() {
    assert_eq!(message_status(-1).unwrap_err(), ControllerError::LoopError);
    assert_eq!(message_status(i32::MIN).unwrap_err(), ControllerError::LoopError);
}

#[test]
fn fatal_error_messages() {
    assert_eq!(ControllerError::LoadError.message(), "failed to load hook library");
    assert_eq!(ControllerError::SymbolError.message(), "failed to find hook function");
    assert_eq!(ControllerError::InstallError.message(), "failed to install debug hook");
    assert_eq!(ControllerError::LoopError.message(), "an error occurred in GetMessage");
}

#[test]
fn fixed_names_and_timer_interval() {
    assert_eq!(module_file_name(), "hook_debug.dll");
    assert_eq!(callback_symbol_name(), "debug_hook");
    assert_eq!(TIMER_INTERVAL_MS, 1000);
}
