//! The plans of the threshold-register backend.

use vstd::prelude::*;
use proc_macro2::Ident;
use crate::analyze::Analysis as CodegenAnalysis;
use crate::codegen::plan::{
    enables, logical_prio_limit, mutex_path, plan_mutex, probes, push_enables, push_probes, Abort,
    Enumeration, MutexImpl, Stmt, Symbol,
};
use crate::codegen::util::{ident_text, interrupt_enum_ident, InterruptMod};
use crate::export::backend::Interrupt;
use crate::syntax::analyze::Analysis as SyntaxAnalysis;
use crate::syntax::ast::App;
use crate::syntax::parse::Error;

verus! {

/// Plans the mutex of one resource: the implementing type is reached through
/// `shared_resources` where `resources_prefix` says so, and the lock it takes
/// has `ceiling` as a constant.
pub fn impl_mutex(
    app: &App,
    analysis: &CodegenAnalysis,
    resources_prefix: bool,
    resource: usize,
    ceiling: u8,
) -> (m: MutexImpl)
    ensures
        m.path@ == mutex_path(resources_prefix, resource),
        m.ceiling == ceiling,
{
    plan_mutex(resources_prefix, resource, ceiling)
}

/// The identifier of the interrupt enumeration.
pub fn interrupt_ident() -> (ident: Ident)
    ensures
        ident_text(ident) == "Interrupt"@,
{
    interrupt_enum_ident()
}

/// The path of the interrupt enumeration of the application's device crate.
pub fn interrupt_mod(app: &App) -> (m: InterruptMod)
    ensures
        m.device@ == app.device@,
        ident_text(m.ident) == "Interrupt"@,
{
    InterruptMod { device: app.device.clone(), ident: interrupt_ident() }
}

/// The backend adds no assertions.
pub fn extra_assertions(app: &App, analysis: &SyntaxAnalysis) -> (stmts: Vec<Stmt>)
    ensures
        stmts@ == Seq::<Stmt>::empty(),
{
    Vec::new()
}

/// The backend leaves the application as it is.
pub fn pre_init_preprocessing(app: &mut App, analysis: &SyntaxAnalysis) -> (r: Result<(), Error>)
    ensures
        r is Ok,
        *final(app) == *old(app),
{
    Ok(())
}

/// Plans the checks that every declared dispatcher, used or not, exists in
/// the interrupt enumeration of the device crate.
pub fn pre_init_checks(app: &App, analysis: &SyntaxAnalysis) -> (stmts: Vec<Stmt>)
    ensures
        stmts@ == probes(Enumeration::Device, app.dispatchers@),
{
    let mut stmts: Vec<Stmt> = Vec::new();
    push_probes(&mut stmts, Enumeration::Device, app);
    stmts
}

/// Plans the priority programming: the threshold is written with the
/// value that masks every level, then the interrupt of every dispatcher and
/// of every hardware task is enabled at its priority, then the threshold is
/// written with 0.
pub fn pre_init_enable_interrupts(app: &App, analysis: &CodegenAnalysis) -> (stmts: Vec<Stmt>)
    ensures
        stmts@ == seq![Stmt::WriteThreshold { value: 255 }] + enables(
            Enumeration::Device,
            analysis.interrupts@,
            app.tasks@,
        ) + seq![Stmt::WriteThreshold { value: 0 }],
{
    let mut stmts: Vec<Stmt> = Vec::new();
    stmts.push(Stmt::WriteThreshold { value: 255 });
    push_enables(&mut stmts, Enumeration::Device, app, analysis);
    stmts.push(Stmt::WriteThreshold { value: 0 });
    stmts
}

/// The backend has no checks of its own.
pub fn architecture_specific_analysis(app: &App, analysis: &SyntaxAnalysis) -> (r: Result<
    (),
    Error,
>)
    ensures
        r is Ok,
{
    Ok(())
}

/// Nothing is planned for the entry of an interrupt handler.
pub fn interrupt_entry(app: &App, analysis: &CodegenAnalysis) -> (stmts: Vec<Stmt>)
    ensures
        stmts@ == Seq::<Stmt>::empty(),
{
    Vec::new()
}

/// Nothing is planned for the exit of an interrupt handler.
pub fn interrupt_exit(app: &App, analysis: &CodegenAnalysis) -> (stmts: Vec<Stmt>)
    ensures
        stmts@ == Seq::<Stmt>::empty(),
{
    Vec::new()
}

/// Plans the stack guard that runs before user initialization: static data
/// ends at `_ebss`.
pub fn check_stack_overflow_before_init(app: &App, analysis: &CodegenAnalysis) -> (stmts: Vec<
    Stmt,
>)
    ensures
        stmts@ == seq![Stmt::StackGuard { static_end: Symbol::Ebss, abort: Abort::PreInit }],
{
    let mut stmts: Vec<Stmt> = Vec::new();
    stmts.push(Stmt::StackGuard { static_end: Symbol::Ebss, abort: Abort::PreInit });
    stmts
}

/// Nothing is planned for the entry of a software-task dispatch: the
/// controller clears the pending bit itself.
pub fn async_entry(app: &App, analysis: &CodegenAnalysis, dispatcher: Interrupt) -> (stmts: Vec<
    Stmt,
>)
    ensures
        stmts@ == Seq::<Stmt>::empty(),
{
    Vec::new()
}

/// Plans the exported constant that tells drivers the highest priority of
/// any software task; where there is none it holds the highest value.
pub fn async_prio_limit(app: &App, analysis: &CodegenAnalysis) -> (stmts: Vec<Stmt>)
    ensures
        stmts@ == seq![Stmt::MaxLogicalPrio { limit: logical_prio_limit(analysis.max_async_prio) }],
{
    let limit: u8 = match analysis.max_async_prio {
        Some(max) => max,
        None => u8::MAX,
    };
    let mut stmts: Vec<Stmt> = Vec::new();
    stmts.push(Stmt::MaxLogicalPrio { limit });
    stmts
}

/// Plans the attribute that marks a dispatcher's handler as an interrupt
/// handler of the runtime.
pub fn handler_config(app: &App, analysis: &CodegenAnalysis, dispatcher: Interrupt) -> (stmts: Vec<
    Stmt,
>)
    ensures
        stmts@ == seq![Stmt::HandlerAttribute],
{
    let mut stmts: Vec<Stmt> = Vec::new();
    stmts.push(Stmt::HandlerAttribute);
    stmts
}

/// The backend adds no modules.
pub fn extra_modules(app: &App, analysis: &SyntaxAnalysis) -> (stmts: Vec<Stmt>)
    ensures
        stmts@ == Seq::<Stmt>::empty(),
{
    Vec::new()
}

} // verus!
