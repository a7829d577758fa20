use ngx::bbr::{
    bbr_access_handler, bbr_done_handler, ngx_http_bbr_commands_set_enable, postconfiguration,
    select_loader, AccessAction, AccessEvent, CPULoader, CPUStatProviderName, ModuleConfig,
    NgxBBRCtx, SetupAction, SetupEvent, Status,
};
use std::cell::Cell;

fn on() -> ModuleConfig {
    ModuleConfig { cpu_provider: CPUStatProviderName::CGroup, enable: true }
}

fn off() -> ModuleConfig {
    ModuleConfig { cpu_provider: CPUStatProviderName::CGroup, enable: false }
}

fn directed(conf: ModuleConfig, value: &str) -> ModuleConfig {
    let mut conf = conf;
    ngx_http_bbr_commands_set_enable(&mut conf, value);
    conf
}

fn merged(conf: ModuleConfig, prev: ModuleConfig) -> ModuleConfig {
    let mut conf = conf;
    assert!(conf.merge(&prev).is_ok());
    conf
}

#[test]
fn module_is_off_by_default() {
    let conf = ModuleConfig::default();
    assert_eq!(conf.cpu_provider, CPUStatProviderName::Machine);
    assert!(!conf.enable);
}

#[test]
fn directive_takes_on_in_any_case() {
    for value in ["on", "ON", "On", "oN"] {
        assert_eq!(directed(off(), value), on());
    }
}

#[test]
fn directive_takes_any_other_value_for_off() {
    for value in ["off", "OFF", "oFf", "", "o", "onn", "no", "0n", "true", "oñ", "ön", "on "] {
        assert_eq!(directed(on(), value), off());
    }
}

#[test]
fn last_directive_counts() {
    assert_eq!(directed(directed(off(), "on"), "off"), off());
    assert_eq!(directed(directed(off(), "off"), "on"), on());
}

#[test]
fn merging_keeps_the_module_on() {
    assert_eq!(merged(off(), off()), off());
    assert_eq!(merged(off(), on()), on());
    assert_eq!(merged(on(), off()), on());
    assert_eq!(merged(on(), on()), on());
}

#[test]
fn merging_keeps_the_provider() {
    let outer = ModuleConfig { cpu_provider: CPUStatProviderName::Machine, enable: true };
    assert_eq!(merged(off(), outer), on());
}

#[test]
fn loaders_of_the_providers() {
    assert_eq!(select_loader(CPUStatProviderName::Machine, true), Some(CPULoader::Machine));
    assert_eq!(select_loader(CPUStatProviderName::Machine, false), Some(CPULoader::Machine));
    assert_eq!(select_loader(CPUStatProviderName::CGroup, true), Some(CPULoader::CGroup));
    assert_eq!(select_loader(CPUStatProviderName::CGroup, false), None);
    assert_eq!(select_loader(CPUStatProviderName::Other, true), None);
    assert_eq!(select_loader(CPUStatProviderName::Other, false), None);
}

fn returned<F>(action: AccessAction<F>) -> (Option<NgxBBRCtx<F>>, Status) {
    match action {
        AccessAction::Return { ctx, status } => (ctx, status),
        _ => panic!("the handler does not return yet"),
    }
}

#[test]
fn disabled_module_declines() {
    let (ctx, status) = returned(bbr_access_handler::<u8>(AccessEvent::Called { conf: off() }));
    assert!(ctx.is_none());
    assert_eq!(status, Status::NgxDeclined);
}

#[test]
fn enabled_module_allocates_then_asks() {
    assert!(matches!(
        bbr_access_handler::<u8>(AccessEvent::Called { conf: on() }),
        AccessAction::Allocate
    ));
    assert!(matches!(
        bbr_access_handler::<u8>(AccessEvent::Allocated { null: false }),
        AccessAction::AskLimiter
    ));
}

#[test]
fn failed_allocation_is_an_error() {
    let (ctx, status) = returned(bbr_access_handler::<u8>(AccessEvent::Allocated { null: true }));
    assert!(ctx.is_none());
    assert_eq!(status, Status::NgxError);
}

#[test]
fn admitted_request_keeps_what_the_limiter_gave() {
    let (ctx, status) = returned(bbr_access_handler(AccessEvent::Answered { done: Some(42u8) }));
    assert_eq!(ctx.unwrap().done, Some(42));
    assert_eq!(status, Status::NgxDeclined);
}

#[test]
fn request_without_leave_is_refused() {
    let (ctx, status) = returned(bbr_access_handler::<u8>(AccessEvent::Answered { done: None }));
    assert!(ctx.is_none());
    assert_eq!(status, Status::BandwidthLimitExceeded);
}

#[test]
fn done_runs_once() {
    let runs = Cell::new(0);
    let mut ctx = NgxBBRCtx { done: Some(|| runs.set(runs.get() + 1)) };
    ctx.call_done();
    assert_eq!(runs.get(), 1);
    assert!(ctx.done.is_none());
    ctx.call_done();
    assert_eq!(runs.get(), 1);
}

#[test]
fn log_phase_runs_done_of_the_context() {
    let runs = Cell::new(0);
    let done = || runs.set(runs.get() + 1);
    let (ctx, _) = returned(bbr_access_handler(AccessEvent::Answered { done: Some(done) }));
    let mut ctx = ctx.unwrap();
    bbr_done_handler(Some(&mut ctx));
    assert_eq!(runs.get(), 1);
    bbr_done_handler(Some(&mut ctx));
    assert_eq!(runs.get(), 1);
}

#[test]
fn log_phase_without_a_context_does_nothing() {
    bbr_done_handler::<fn()>(None);
    let mut ctx: NgxBBRCtx<fn()> = NgxBBRCtx::default();
    assert!(ctx.done.is_none());
    bbr_done_handler(Some(&mut ctx));
    assert!(ctx.done.is_none());
}

#[test]
fn handlers_are_registered_in_order() {
    assert_eq!(postconfiguration(SetupEvent::Configured), SetupAction::PushAccess);
    assert_eq!(
        postconfiguration(SetupEvent::AccessPushed { null: false }),
        SetupAction::StoreAccessThenPushLog
    );
    assert_eq!(
        postconfiguration(SetupEvent::LogPushed { null: false }),
        SetupAction::StoreLogThenReturn { status: Status::NgxOk }
    );
}

#[test]
fn registration_fails_without_an_access_slot() {
    assert_eq!(
        postconfiguration(SetupEvent::AccessPushed { null: true }),
        SetupAction::Return { status: Status::NgxError }
    );
}
