use rtic_riscv::analyze::{analyze, Analysis, Dispatcher};
use rtic_riscv::codegen::bindings::{riscv_atalanta, riscv_rt};
use rtic_riscv::codegen::plan::{
    Abort, Enumeration, MutexImpl, Segment, Stmt, Symbol, MAX_LOGICAL_PRIO,
};
use rtic_riscv::codegen::util::rt_err_ident;
use rtic_riscv::export::backend::Interrupt;
use rtic_riscv::syntax::ast::{App, Binding, Resource, Task};

fn sample() -> App {
    App {
        device: String::from("crate::pac"),
        dispatchers: vec![Interrupt(30), Interrupt(31)],
        tasks: vec![
            Task { priority: 3, binding: Binding::Hardware(Interrupt(4)) },
            Task { priority: 2, binding: Binding::Software(Interrupt(30)) },
            Task { priority: 7, binding: Binding::Hardware(Interrupt(9)) },
            Task { priority: 2, binding: Binding::Software(Interrupt(30)) },
        ],
        resources: vec![Resource { accessors: vec![0, 1] }],
    }
}

fn ceilings(app: &App) -> rtic_riscv::syntax::analyze::Analysis {
    rtic_riscv::syntax::analyze::analyze(app)
}

#[test]
fn atalanta_programs_priorities_between_reset_and_activation() {
    let app = sample();
    let analysis = analyze(&app);
    assert_eq!(
        riscv_atalanta::pre_init_enable_interrupts(&app, &analysis),
        vec![
            Stmt::Reset,
            Stmt::Enable { enumeration: Enumeration::Bsp, interrupt: Interrupt(30), priority: 2 },
            Stmt::Enable { enumeration: Enumeration::Bsp, interrupt: Interrupt(4), priority: 3 },
            Stmt::Enable { enumeration: Enumeration::Bsp, interrupt: Interrupt(9), priority: 7 },
            Stmt::Activate,
        ]
    );
}

#[test]
fn riscv_rt_programs_priorities_between_masking_and_unmasking() {
    let app = sample();
    let analysis = analyze(&app);
    assert_eq!(
        riscv_rt::pre_init_enable_interrupts(&app, &analysis),
        vec![
            Stmt::WriteThreshold { value: 255 },
            Stmt::Enable { enumeration: Enumeration::Device, interrupt: Interrupt(30), priority: 2 },
            Stmt::Enable { enumeration: Enumeration::Device, interrupt: Interrupt(4), priority: 3 },
            Stmt::Enable { enumeration: Enumeration::Device, interrupt: Interrupt(9), priority: 7 },
            Stmt::WriteThreshold { value: 0 },
        ]
    );
}

#[test]
fn priority_programming_follows_the_analysis_it_is_given() {
    let app = sample();
    let analysis = Analysis {
        interrupts: vec![
            Dispatcher { priority: 5, interrupt: Interrupt(31) },
            Dispatcher { priority: 1, interrupt: Interrupt(30) },
        ],
        max_async_prio: Some(5),
    };
    let stmts = riscv_rt::pre_init_enable_interrupts(&app, &analysis);
    assert_eq!(
        &stmts[1..3],
        &[
            Stmt::Enable { enumeration: Enumeration::Device, interrupt: Interrupt(31), priority: 5 },
            Stmt::Enable { enumeration: Enumeration::Device, interrupt: Interrupt(30), priority: 1 },
        ]
    );
    assert_eq!(stmts.len(), 6);
}

#[test]
fn application_without_tasks_is_only_masked_and_unmasked() {
    let app =
        App { device: String::from("pac"), dispatchers: vec![], tasks: vec![], resources: vec![] };
    let analysis = analyze(&app);
    assert_eq!(
        riscv_atalanta::pre_init_enable_interrupts(&app, &analysis),
        vec![Stmt::Reset, Stmt::Activate]
    );
    assert_eq!(
        riscv_rt::pre_init_enable_interrupts(&app, &analysis),
        vec![Stmt::WriteThreshold { value: 255 }, Stmt::WriteThreshold { value: 0 }]
    );
    assert!(riscv_rt::pre_init_checks(&app, &ceilings(&app)).is_empty());
}

#[test]
fn every_declared_dispatcher_is_probed() {
    let app = sample();
    let syntax = ceilings(&app);
    assert_eq!(
        riscv_atalanta::pre_init_checks(&app, &syntax),
        vec![
            Stmt::Probe { enumeration: Enumeration::RtErr, interrupt: Interrupt(30) },
            Stmt::Probe { enumeration: Enumeration::RtErr, interrupt: Interrupt(31) },
        ]
    );
    assert_eq!(
        riscv_rt::pre_init_checks(&app, &syntax),
        vec![
            Stmt::Probe { enumeration: Enumeration::Device, interrupt: Interrupt(30) },
            Stmt::Probe { enumeration: Enumeration::Device, interrupt: Interrupt(31) },
        ]
    );
}

#[test]
fn stack_guard_names_the_end_of_static_data_and_the_message() {
    let app = sample();
    let analysis = analyze(&app);
    assert_eq!(
        riscv_atalanta::check_stack_overflow_before_init(&app, &analysis),
        vec![Stmt::StackGuard { static_end: Symbol::BssEnd, abort: Abort::AfterExecutors }]
    );
    assert_eq!(
        riscv_rt::check_stack_overflow_before_init(&app, &analysis),
        vec![Stmt::StackGuard { static_end: Symbol::Ebss, abort: Abort::PreInit }]
    );
    assert_eq!(Symbol::StackStart.name(), "_stack_start");
    assert_eq!(Symbol::BssEnd.name(), "_bss_end");
    assert_eq!(Symbol::Ebss.name(), "_ebss");
    assert_eq!(Abort::AfterExecutors.message(), "Stack overflow after allocating executors");
    assert_eq!(Abort::PreInit.message(), "pre-init sp ovrflw");
}

#[test]
fn atalanta_unpends_the_dispatcher_on_entry() {
    let app = sample();
    let analysis = analyze(&app);
    assert_eq!(
        riscv_atalanta::async_entry(&app, &analysis, Interrupt(30)),
        vec![Stmt::Unpend { enumeration: Enumeration::Export, interrupt: Interrupt(30) }]
    );
    assert!(riscv_rt::async_entry(&app, &analysis, Interrupt(30)).is_empty());
}

#[test]
fn exported_limit_is_the_highest_software_priority() {
    let app = sample();
    let analysis = analyze(&app);
    assert_eq!(analysis.max_async_prio, Some(2));
    assert_eq!(
        riscv_atalanta::async_prio_limit(&app, &analysis),
        vec![Stmt::MaxLogicalPrio { limit: 2 }]
    );
    assert_eq!(
        riscv_rt::async_prio_limit(&app, &analysis),
        vec![Stmt::MaxLogicalPrio { limit: 2 }]
    );
    assert_eq!(MAX_LOGICAL_PRIO, "RTIC_ASYNC_MAX_LOGICAL_PRIO");
}

#[test]
fn exported_limit_without_software_tasks_is_the_highest_value() {
    let app = sample();
    let analysis = Analysis { interrupts: vec![], max_async_prio: None };
    assert_eq!(
        riscv_atalanta::async_prio_limit(&app, &analysis),
        vec![Stmt::MaxLogicalPrio { limit: 255 }]
    );
    assert_eq!(
        riscv_rt::async_prio_limit(&app, &analysis),
        vec![Stmt::MaxLogicalPrio { limit: 255 }]
    );
}

#[test]
fn only_riscv_rt_marks_the_dispatcher_handler() {
    let app = sample();
    let analysis = analyze(&app);
    assert!(riscv_atalanta::handler_config(&app, &analysis, Interrupt(30)).is_empty());
    assert_eq!(
        riscv_rt::handler_config(&app, &analysis, Interrupt(30)),
        vec![Stmt::HandlerAttribute]
    );
}

#[test]
fn nothing_is_planned_where_the_backends_add_nothing() {
    let mut app = sample();
    let analysis = analyze(&app);
    let syntax = ceilings(&app);
    assert!(riscv_atalanta::extra_assertions(&app, &syntax).is_empty());
    assert!(riscv_rt::extra_assertions(&app, &syntax).is_empty());
    assert!(riscv_atalanta::interrupt_entry(&app, &analysis).is_empty());
    assert!(riscv_rt::interrupt_entry(&app, &analysis).is_empty());
    assert!(riscv_atalanta::interrupt_exit(&app, &analysis).is_empty());
    assert!(riscv_rt::interrupt_exit(&app, &analysis).is_empty());
    assert!(riscv_atalanta::extra_modules(&app, &syntax).is_empty());
    assert!(riscv_rt::extra_modules(&app, &syntax).is_empty());
    assert!(riscv_atalanta::architecture_specific_analysis(&app, &syntax).is_ok());
    assert!(riscv_rt::architecture_specific_analysis(&app, &syntax).is_ok());
    assert!(riscv_atalanta::pre_init_preprocessing(&mut app, &syntax).is_ok());
    assert_eq!(app, sample());
    assert!(riscv_rt::pre_init_preprocessing(&mut app, &syntax).is_ok());
    assert_eq!(app, sample());
}

#[test]
fn mutex_plan_holds_the_path_and_the_ceiling() {
    let app = sample();
    let analysis = analyze(&app);
    assert_eq!(
        riscv_atalanta::impl_mutex(&app, &analysis, true, 0, 3),
        MutexImpl { path: vec![Segment::SharedResources, Segment::Resource(0)], ceiling: 3 }
    );
    assert_eq!(
        riscv_rt::impl_mutex(&app, &analysis, false, 4, 255),
        MutexImpl { path: vec![Segment::Resource(4)], ceiling: 255 }
    );
}

#[test]
fn interrupt_enumeration_is_named_interrupt() {
    assert_eq!(riscv_atalanta::interrupt_ident().to_string(), "Interrupt");
    assert_eq!(riscv_rt::interrupt_ident().to_string(), "Interrupt");
}

#[test]
fn interrupt_enumeration_lives_in_the_device_crate() {
    let app = sample();
    let atalanta = riscv_atalanta::interrupt_mod(&app);
    assert_eq!(atalanta.device, "crate::pac");
    assert_eq!(atalanta.ident.to_string(), "Interrupt");
    let rt = riscv_rt::interrupt_mod(&app);
    assert_eq!(rt.device, "crate::pac");
    assert_eq!(rt.ident.to_string(), "Interrupt");
}

#[test]
fn runtime_error_identifier_spells_the_hint() {
    assert_eq!(
        rt_err_ident().to_string(),
        "you_must_enable_the_rt_feature_for_the_pac_in_your_cargo_toml"
    );
}
