//! The plans of the vectored-controller backend.

use vstd::prelude::*;
use proc_macro2::Ident;
use crate::analyze::Analysis as CodegenAnalysis;
use crate::codegen::plan::{
    enables, logical_prio_limit, mutex_path, plan_mutex, probes, push_enables, push_probes, Abort,
    Enumeration, MutexImpl, Stmt, Symbol,
};
use crate::codegen::util::{ident_text, interrupt_enum_ident, InterruptMod};
use crate::export::backend::Interrupt;
use crate::syntax::analyze::Analysis as SyntaxAnalysis;
use crate::syntax::ast::App;
use crate::syntax::parse::Error;

verus! {

/// Plans the mutex of one resource: the implementing type is reached through
/// `shared_resources` where `resources_prefix` says so, and the lock it takes
/// has `ceiling` as a constant.
pub fn impl_mutex(
    app: &App,
    analysis: &CodegenAnalysis,
    resources_prefix: bool,
    resource: usize,
    ceiling: u8,
) -> (m: MutexImpl)
    ensures
        m.path@ == mutex_path(resources_prefix, resource),
        m.ceiling == ceiling,
{
    plan_mutex(resources_prefix, resource, ceiling)
}

/// The identifier of the interrupt enumeration.
pub fn interrupt_ident() -> (ident: Ident)
    ensures
        ident_text(ident) == "Interrupt"@,
{
    interrupt_enum_ident()
}

/// The path of the interrupt enumeration of the application's device crate.
pub fn interrupt_mod(app: &App) -> (m: InterruptMod)
    ensures
        m.device@ == app.device@,
        ident_text(m.ident) == "Interrupt"@,
{
    InterruptMod { device: app.device.clone(), ident: interrupt_ident() }
}

/// The backend adds no assertions.
pub fn extra_assertions(app: &App, analysis: &SyntaxAnalysis) -> (stmts: Vec<Stmt>)
    ensures
        stmts@ == Seq::<Stmt>::empty(),
{
    Vec::new()
}

/// The backend leaves the application as it is.
pub fn pre_init_preprocessing(app: &mut App, analysis: &SyntaxAnalysis) -> (r: Result<(), Error>)
    ensures
        r is Ok,
        *final(app) == *old(app),
{
    Ok(())
}

/// Plans the checks that every declared dispatcher, used or not, exists in
/// the interrupt enumeration that the device crate exports for its runtime.
pub fn pre_init_checks(app: &App, analysis: &SyntaxAnalysis) -> (stmts: Vec<Stmt>)
    ensures
        stmts@ == probes(Enumeration::RtErr, app.dispatchers@),
{
    let mut stmts: Vec<Stmt> = Vec::new();
    push_probes(&mut stmts, Enumeration::RtErr, app);
    stmts
}

/// Plans the priority programming: all interrupts are cleared and
/// globally disabled, then the interrupt of every dispatcher and of every
/// hardware task is enabled at its priority, then interrupts are set and
/// globally enabled.
pub fn pre_init_enable_interrupts(app: &App, analysis: &CodegenAnalysis) -> (stmts: Vec<Stmt>)
    ensures
        stmts@ == seq![Stmt::Reset] + enables(
            Enumeration::Bsp,
            analysis.interrupts@,
            app.tasks@,
        ) + seq![Stmt::Activate],
{
    let mut stmts: Vec<Stmt> = Vec::new();
    stmts.push(Stmt::Reset);
    push_enables(&mut stmts, Enumeration::Bsp, app, analysis);
    stmts.push(Stmt::Activate);
    stmts
}

/// The backend has no checks of its own.
pub fn architecture_specific_analysis(app: &App, analysis: &SyntaxAnalysis) -> (r: Result<
    (),
    Error,
>)
    ensures
        r is Ok,
{
    Ok(())
}

/// Nothing is planned for the entry of an interrupt handler.
pub fn interrupt_entry(app: &App, analysis: &CodegenAnalysis) -> (stmts: Vec<Stmt>)
    ensures
        stmts@ == Seq::<Stmt>::empty(),
{
    Vec::new()
}

/// Nothing is planned for the exit of an interrupt handler.
pub fn interrupt_exit(app: &App, analysis: &CodegenAnalysis) -> (stmts: Vec<Stmt>)
    ensures
        stmts@ == Seq::<Stmt>::empty(),
{
    Vec::new()
}

/// Plans the stack guard that runs before user initialization: static data
/// ends at `_bss_end`.
pub fn check_stack_overflow_before_init(app: &App, analysis: &CodegenAnalysis) -> (stmts: Vec<
    Stmt,
>)
    ensures
        stmts@ == seq![Stmt::StackGuard { static_end: Symbol::BssEnd, abort: Abort::AfterExecutors }],
{
    let mut stmts: Vec<Stmt> = Vec::new();
    stmts.push(Stmt::StackGuard { static_end: Symbol::BssEnd, abort: Abort::AfterExecutors });
    stmts
}

/// Plans the entry of a software-task dispatch: the dispatcher's interrupt is
/// unpended before anything else runs, since the controller does not clear
/// the pending bit on entry. A pend that the task then issues for itself is
/// therefore kept.
pub fn async_entry(app: &App, analysis: &CodegenAnalysis, dispatcher: Interrupt) -> (stmts: Vec<
    Stmt,
>)
    ensures
        stmts@ == seq![Stmt::Unpend { enumeration: Enumeration::Export, interrupt: dispatcher }],
{
    let mut stmts: Vec<Stmt> = Vec::new();
    stmts.push(Stmt::Unpend { enumeration: Enumeration::Export, interrupt: dispatcher });
    stmts
}

/// Plans the exported constant that tells drivers the highest priority of
/// any software task; where there is none it holds the highest value.
pub fn async_prio_limit(app: &App, analysis: &CodegenAnalysis) -> (stmts: Vec<Stmt>)
    ensures
        stmts@ == seq![Stmt::MaxLogicalPrio { limit: logical_prio_limit(analysis.max_async_prio) }],
{
    let limit: u8 = match analysis.max_async_prio {
        Some(max) => max,
        None => u8::MAX,
    };
    let mut stmts: Vec<Stmt> = Vec::new();
    stmts.push(Stmt::MaxLogicalPrio { limit });
    stmts
}

/// A dispatcher's handler needs no attribute.
pub fn handler_config(app: &App, analysis: &CodegenAnalysis, dispatcher: Interrupt) -> (stmts: Vec<
    Stmt,
>)
    ensures
        stmts@ == Seq::<Stmt>::empty(),
{
    Vec::new()
}

/// The backend adds no modules.
pub fn extra_modules(app: &App, analysis: &SyntaxAnalysis) -> (stmts: Vec<Stmt>)
    ensures
        stmts@ == Seq::<Stmt>::empty(),
{
    Vec::new()
}

} // verus!
