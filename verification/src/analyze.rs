//! The analysis that the planner needs: the dispatcher of each level that
//! hosts software tasks, and the highest priority of any software task.

use vstd::prelude::*;
use crate::export::backend::Interrupt;
use crate::syntax::ast::{App, Binding, Task};

verus! {


/// A level that hosts software tasks, and the interrupt that dispatches them.
#[derive(Clone, Copy, PartialEq, Eq, Debug, Structural)]
pub struct Dispatcher {
    pub priority: u8,
    pub interrupt: Interrupt,
}

/// What the planner's analysis derives from an application.
#[derive(Clone, PartialEq, Eq, Debug)]
pub struct Analysis {
    /// The dispatchers, one per level that hosts software tasks, by rising
    /// level.
    pub interrupts: Vec<Dispatcher>,
    /// The highest priority of any software task, if there is a software task.
    pub max_async_prio: Option<u8>,
}

/// Whether `m` is the highest priority of any software task among `tasks`,
/// or `None` where none of them is a software task.
pub open spec fn is_max_async_prio(tasks: Seq<Task>, m: Option<u8>) -> bool {
    match m {
        None => forall|i: int| 0 <= i < tasks.len() ==> !(#[trigger] tasks[i]).is_software(),
        Some(p) => {
            &&& forall|i: int|
                0 <= i < tasks.len() && (#[trigger] tasks[i]).is_software() ==> tasks[i].priority
                    <= p
            &&& exists|i: int|
                0 <= i < tasks.len() && (#[trigger] tasks[i]).is_software() && tasks[i].priority
                    == p
        },
    }
}

/// Whether `tasks[i]` is the first software task at `level`.
pub open spec fn first_at(tasks: Seq<Task>, level: u8, i: int) -> bool {
    &&& 0 <= i < tasks.len()
    &&& tasks[i].is_software()
    &&& tasks[i].priority == level
    &&& forall|j: int|
        0 <= j < i ==> !((#[trigger] tasks[j]).is_software() && tasks[j].priority == level)
}

/// Whether `d` is the dispatcher of the first software task at `level`, or
/// `None` where no software task runs at `level`.
pub open spec fn is_dispatcher_at(tasks: Seq<Task>, level: u8, d: Option<Interrupt>) -> bool {
    match d {
        None => forall|i: int|
            0 <= i < tasks.len() ==> !((#[trigger] tasks[i]).is_software() && tasks[i].priority
                == level),
        Some(intr) => exists|i: int| first_at(tasks, level, i) && tasks[i].interrupt() == intr,
    }
}

/// Whether `out` lists the dispatchers of `tasks` for the levels from 1 up to
/// and excluding `bound`: by strictly rising level, one entry for each level
/// that hosts a software task, with the dispatcher of the first such task.
pub open spec fn is_dispatch_table(tasks: Seq<Task>, bound: int, out: Seq<Dispatcher>) -> bool {
    &&& forall|a: int, b: int|
        0 <= a < b < out.len() ==> (#[trigger] out[a]).priority < (#[trigger] out[b]).priority
    &&& forall|a: int|
        0 <= a < out.len() ==> 1 <= (#[trigger] out[a]).priority < bound && is_dispatcher_at(
            tasks,
            out[a].priority,
            Some(out[a].interrupt),
        )
    &&& forall|i: int|
        0 <= i < tasks.len() && (#[trigger] tasks[i]).is_software() && 1 <= tasks[i].priority
            < bound ==> exists|a: int|
            0 <= a < out.len() && (#[trigger] out[a]).priority == tasks[i].priority
}

/// The highest priority of any software task, or `None` where the
/// application has no software task.
pub fn max_async_prio(app: &App) -> (m: Option<u8>)
    ensures
        is_max_async_prio(app.tasks@, m),
{
    let mut m: Option<u8> = None;
    let mut i: usize = 0;
    while i < app.tasks.len()
        invariant
            i <= app.tasks@.len(),
            is_max_async_prio(app.tasks@.take(i as int), m),
        decreases app.tasks@.len() - i,
    {
        let task: Task = app.tasks[i];
        let ghost before = app.tasks@.take(i as int);
        let ghost after = app.tasks@.take(i + 1);
        let ghost old_m = m;
        proof {
            assert(after[i as int] == task);
            assert forall|j: int| 0 <= j < i implies after[j] == before[j] by {}
        }
        match task.binding {
            Binding::Software(_) => {
                match m {
                    Some(p) => {
                        if task.priority > p {
                            m = Some(task.priority);
                        } else {
                            proof {
                                let w = choose|w: int|
                                    0 <= w < before.len() && (#[trigger] before[w]).is_software()
                                        && before[w].priority == p;
                                assert(after[w].is_software() && after[w].priority == p);
                            }
                        }
                    },
                    None => {
                        m = Some(task.priority);
                    },
                }
                proof {
                    if m == Some(task.priority) {
                        assert(after[i as int].is_software() && after[i as int].priority
                            == task.priority);
                    }
                }
            },
            Binding::Hardware(_) => {
                proof {
                    if let Some(p) = m {
                        let w = choose|w: int|
                            0 <= w < before.len() && (#[trigger] before[w]).is_software()
                                && before[w].priority == p;
                        assert(after[w].is_software() && after[w].priority == p);
                    }
                }
            },
        }
        i = i + 1;
    }
    assert(app.tasks@.take(i as int) =~= app.tasks@);
    m
}

/// The dispatcher of the first software task at `level`, or `None` where no
/// software task runs at `level`.
pub fn dispatcher_at(app: &App, level: u8) -> (d: Option<Interrupt>)
    ensures
        is_dispatcher_at(app.tasks@, level, d),
{
    let mut i: usize = 0;
    while i < app.tasks.len()
        invariant
            i <= app.tasks@.len(),
            forall|j: int|
                0 <= j < i ==> !((#[trigger] app.tasks@[j]).is_software() && app.tasks@[j].priority
                    == level),
        decreases app.tasks@.len() - i,
    {
        let task: Task = app.tasks[i];
        if task.priority == level {
            match task.binding {
                Binding::Software(intr) => {
                    assert(first_at(app.tasks@, level, i as int));
                    return Some(intr);
                },
                Binding::Hardware(_) => {},
            }
        }
        i = i + 1;
    }
    None
}

/// The dispatchers of the application: by rising level, one for each level
/// from 1 up that hosts a software task.
pub fn interrupts(app: &App) -> (out: Vec<Dispatcher>)
    ensures
        is_dispatch_table(app.tasks@, 256, out@),
{
    let mut out: Vec<Dispatcher> = Vec::new();
    let mut level: u8 = 1;
    loop
        invariant_except_break
            is_dispatch_table(app.tasks@, level as int, out@),
        invariant
            1 <= level,
        ensures
            is_dispatch_table(app.tasks@, 256, out@),
        decreases 256 - level,
    {
        let ghost before = out@;
        match dispatcher_at(app, level) {
            Some(interrupt) => {
                out.push(Dispatcher { priority: level, interrupt });
                proof {
                    let last = before.len() as int;
                    assert(out@[last].priority == level);
                    assert forall|a: int| 0 <= a < before.len() implies out@[a] == before[a] by {}
                    assert forall|i: int|
                        0 <= i < app.tasks@.len() && (#[trigger] app.tasks@[i]).is_software() && 1
                            <= app.tasks@[i].priority < level + 1 implies exists|a: int|
                        0 <= a < out@.len() && (#[trigger] out@[a]).priority
                            == app.tasks@[i].priority by {
                        if app.tasks@[i].priority == level {
                            assert(out@[last].priority == app.tasks@[i].priority);
                        } else {
                            let a = choose|a: int|
                                0 <= a < before.len() && (#[trigger] before[a]).priority
                                    == app.tasks@[i].priority;
                            assert(out@[a].priority == app.tasks@[i].priority);
                        }
                    }
                }
            },
            None => {},
        }
        assert(is_dispatch_table(app.tasks@, level + 1, out@));
        if level == u8::MAX {
            break ;
        }
        level = level + 1;
    }
    out
}

/// Derives the dispatchers and the highest software priority of an
/// application.
pub fn analyze(app: &App) -> (analysis: Analysis)
    ensures
        is_dispatch_table(app.tasks@, 256, analysis.interrupts@),
        is_max_async_prio(app.tasks@, analysis.max_async_prio),
{
    Analysis { interrupts: interrupts(app), max_async_prio: max_async_prio(app) }
}

} // verus!
