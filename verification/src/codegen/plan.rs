//! The vocabulary of a plan.

use vstd::prelude::*;
use crate::analyze::{Analysis, Dispatcher};
use crate::export::backend::{Backend, Interrupt};
use crate::export::protocol::lock;
use crate::syntax::ast::{App, Binding, Task};

verus! {

/// The enumeration through which a statement names an interrupt.
#[derive(Clone, Copy, PartialEq, Eq, Debug, Structural)]
pub enum Enumeration {
    /// The interrupt enumeration of the device crate.
    Device,
    /// `bsp::interrupt::Interrupt`.
    Bsp,
    /// The interrupt enumeration reached through the identifier that
    /// [`rt_err_ident`](crate::codegen::util::rt_err_ident) gives.
    RtErr,
    /// `rtic::export::Interrupt`.
    Export,
}

/// A symbol that the linker provides.
#[derive(Clone, Copy, PartialEq, Eq, Debug, Structural)]
pub enum Symbol {
    StackStart,
    BssEnd,
    Ebss,
}

/// Why start-up stops.
#[derive(Clone, Copy, PartialEq, Eq, Debug, Structural)]
pub enum Abort {
    AfterExecutors,
    PreInit,
}

/// One planned statement.
#[derive(Clone, Copy, PartialEq, Eq, Debug, Structural)]
pub enum Stmt {
    /// `let _ = <enumeration>::<interrupt>;`: does not compile unless the
    /// enumeration has the interrupt.
    Probe { enumeration: Enumeration, interrupt: Interrupt },
    /// `rtic::export::clear_interrupts(); rtic::export::interrupt::disable();`
    Reset,
    /// `rtic::export::mintthresh::write(<value>);`
    WriteThreshold { value: usize },
    /// `rtic::export::enable(<enumeration>::<interrupt>, <priority>);`
    Enable { enumeration: Enumeration, interrupt: Interrupt, priority: u8 },
    /// `rtic::export::set_interrupts(); rtic::export::interrupt::enable();`
    Activate,
    /// `rtic::export::unpend(<enumeration>::<interrupt>);`
    Unpend { enumeration: Enumeration, interrupt: Interrupt },
    /// The stack guard: where the symbol `_stack_start` lies above
    /// `static_end` and the stack pointer at or below `static_end`, panic
    /// with the message of `abort`.
    StackGuard { static_end: Symbol, abort: Abort },
    /// `#[no_mangle] static RTIC_ASYNC_MAX_LOGICAL_PRIO: u8 = <limit>;`
    MaxLogicalPrio { limit: u8 },
    /// `#[bsp::rt::interrupt]`
    HandlerAttribute,
}

/// One segment of the path of the type that implements a mutex.
#[derive(Clone, Copy, PartialEq, Eq, Debug, Structural)]
pub enum Segment {
    /// The module `shared_resources`.
    SharedResources,
    /// The proxy type of a resource, by position in the application.
    Resource(usize),
}

/// The planned implementation of the mutex of one resource.
#[derive(Clone, PartialEq, Eq, Debug)]
pub struct MutexImpl {
    /// The path of the implementing type, outermost segment first.
    pub path: Vec<Segment>,
    /// The ceiling, a constant of the implementation.
    pub ceiling: u8,
}

/// The path of the type that implements the mutex of `resource`: its proxy
/// type, reached through `shared_resources` where `prefixed` says so.
pub open spec fn mutex_path(prefixed: bool, resource: usize) -> Seq<Segment> {
    if prefixed {
        seq![Segment::SharedResources, Segment::Resource(resource)]
    } else {
        seq![Segment::Resource(resource)]
    }
}

/// Plans the mutex of `resource` with `ceiling` as its constant.
pub fn plan_mutex(prefixed: bool, resource: usize, ceiling: u8) -> (m: MutexImpl)
    ensures
        m.path@ == mutex_path(prefixed, resource),
        m.ceiling == ceiling,
{
    let mut path: Vec<Segment> = Vec::new();
    if prefixed {
        path.push(Segment::SharedResources);
    }
    path.push(Segment::Resource(resource));
    assert(path@ =~= mutex_path(prefixed, resource));
    MutexImpl { path, ceiling }
}

/// The name of the exported constant that holds the highest priority of any
/// software task.
pub const MAX_LOGICAL_PRIO: &'static str = "RTIC_ASYNC_MAX_LOGICAL_PRIO";

impl Symbol {
    /// The name of the symbol.
    pub fn name(&self) -> (name: &'static str)
        ensures
            name@ == match *self {
                Symbol::StackStart => "_stack_start"@,
                Symbol::BssEnd => "_bss_end"@,
                Symbol::Ebss => "_ebss"@,
            },
    {
        match self {
            Symbol::StackStart => "_stack_start",
            Symbol::BssEnd => "_bss_end",
            Symbol::Ebss => "_ebss",
        }
    }
}

impl Abort {
    /// The message that start-up panics with.
    pub fn message(&self) -> (message: &'static str)
        ensures
            message@ == match *self {
                Abort::AfterExecutors => "Stack overflow after allocating executors"@,
                Abort::PreInit => "pre-init sp ovrflw"@,
            },
    {
        match self {
            Abort::AfterExecutors => "Stack overflow after allocating executors",
            Abort::PreInit => "pre-init sp ovrflw",
        }
    }
}

impl MutexImpl {
    /// What the planned implementation does when the resource is locked: it
    /// takes the lock with its own ceiling.
    pub fn lock<B, T, R, F>(&self, hw: &mut B, resource: &mut T, f: F) -> (r: R) where
        B: Backend,
        F: FnOnce(&mut B, &mut T) -> R,

        requires
            forall|b: &mut B, t: &mut T|
                b.state() == old(hw).state().enter(self.ceiling) && *t == *old(resource)
                    ==> call_requires(f, (b, t)),
        ensures
            exists|b: &mut B, t: &mut T|
                {
                    &&& b.state() == old(hw).state().enter(self.ceiling)
                    &&& *t == *old(resource)
                    &&& call_ensures(f, (b, t), r)
                    &&& *final(resource) == *final(t)
                    &&& final(hw).state() == final(b).state().leave(
                        old(hw).state(),
                        self.ceiling,
                    )
                },
    {
        lock(hw, resource, self.ceiling, f)
    }
}

/// The statement that enables the interrupt of a dispatcher at its level.
pub open spec fn enable_dispatcher(enumeration: Enumeration, d: Dispatcher) -> Stmt {
    Stmt::Enable { enumeration, interrupt: d.interrupt, priority: d.priority }
}

/// The statement that enables the interrupt of a hardware task at the
/// priority of the task; none for a software task.
pub open spec fn enable_task(enumeration: Enumeration, task: Task) -> Option<Stmt> {
    match task.binding {
        Binding::Hardware(interrupt) => Some(
            Stmt::Enable { enumeration, interrupt, priority: task.priority },
        ),
        Binding::Software(_) => None,
    }
}

/// The statements that enable every dispatcher of the analysis, in its
/// order, and then every hardware task of the application, in its order.
pub open spec fn enables(
    enumeration: Enumeration,
    interrupts: Seq<Dispatcher>,
    tasks: Seq<Task>,
) -> Seq<Stmt> {
    interrupts.map_values(|d: Dispatcher| enable_dispatcher(enumeration, d)) + tasks.filter_map(
        |task: Task| enable_task(enumeration, task),
    )
}

/// The statement that probes `enumeration` for an interrupt.
pub open spec fn probe(enumeration: Enumeration, interrupt: Interrupt) -> Stmt {
    Stmt::Probe { enumeration, interrupt }
}

/// The statements that probe `enumeration` for every declared dispatcher, in
/// the order of their declaration.
pub open spec fn probes(enumeration: Enumeration, dispatchers: Seq<Interrupt>) -> Seq<Stmt> {
    dispatchers.map_values(|interrupt: Interrupt| probe(enumeration, interrupt))
}

/// Appends to `stmts` the statements that enable every dispatcher and every
/// hardware task.
pub fn push_enables(
    stmts: &mut Vec<Stmt>,
    enumeration: Enumeration,
    app: &App,
    analysis: &Analysis,
)
    ensures
        final(stmts)@ == old(stmts)@ + enables(enumeration, analysis.interrupts@, app.tasks@),
{
    let ghost start = stmts@;
    let ghost of_dispatcher = |d: Dispatcher| enable_dispatcher(enumeration, d);
    let ghost of_task = |task: Task| enable_task(enumeration, task);
    let mut i: usize = 0;
    while i < analysis.interrupts.len()
        invariant
            i <= analysis.interrupts@.len(),
            of_dispatcher == |d: Dispatcher| enable_dispatcher(enumeration, d),
            stmts@ == start + analysis.interrupts@.take(i as int).map_values(of_dispatcher),
        decreases analysis.interrupts@.len() - i,
    {
        let d: Dispatcher = analysis.interrupts[i];
        stmts.push(Stmt::Enable { enumeration, interrupt: d.interrupt, priority: d.priority });
        i = i + 1;
        assert(stmts@ =~= start + analysis.interrupts@.take(i as int).map_values(of_dispatcher));
    }
    assert(analysis.interrupts@.take(i as int) =~= analysis.interrupts@);
    let ghost middle = stmts@;
    let mut j: usize = 0;
    while j < app.tasks.len()
        invariant
            j <= app.tasks@.len(),
            of_task == |task: Task| enable_task(enumeration, task),
            stmts@ == middle + app.tasks@.take(j as int).filter_map(of_task),
        decreases app.tasks@.len() - j,
    {
        let task: Task = app.tasks[j];
        proof {
            app.tasks@.lemma_filter_map_take_succ(of_task, j as int);
        }
        match task.binding {
            Binding::Hardware(interrupt) => {
                stmts.push(Stmt::Enable { enumeration, interrupt, priority: task.priority });
            },
            Binding::Software(_) => {},
        }
        j = j + 1;
        assert(stmts@ =~= middle + app.tasks@.take(j as int).filter_map(of_task));
    }
    assert(app.tasks@.take(j as int) =~= app.tasks@);
    assert(stmts@ =~= start + enables(enumeration, analysis.interrupts@, app.tasks@));
}

/// The statements that probe `enumeration` for every declared dispatcher.
pub fn push_probes(stmts: &mut Vec<Stmt>, enumeration: Enumeration, app: &App)
    ensures
        final(stmts)@ == old(stmts)@ + probes(enumeration, app.dispatchers@),
{
    let ghost start = stmts@;
    let ghost of_dispatcher = |interrupt: Interrupt| probe(enumeration, interrupt);
    let mut i: usize = 0;
    while i < app.dispatchers.len()
        invariant
            i <= app.dispatchers@.len(),
            of_dispatcher == |interrupt: Interrupt| probe(enumeration, interrupt),
            stmts@ == start + app.dispatchers@.take(i as int).map_values(of_dispatcher),
        decreases app.dispatchers@.len() - i,
    {
        stmts.push(Stmt::Probe { enumeration, interrupt: app.dispatchers[i] });
        i = i + 1;
        assert(stmts@ =~= start + app.dispatchers@.take(i as int).map_values(of_dispatcher));
    }
    assert(app.dispatchers@.take(i as int) =~= app.dispatchers@);
}

/// The value of the exported constant: the highest priority of any software
/// task, or, where the analysis found none, the highest value there is,
/// which stands for no limit.
pub open spec fn logical_prio_limit(max_async_prio: Option<u8>) -> u8 {
    match max_async_prio {
        Some(max) => max,
        None => u8::MAX,
    }
}

} // verus!
