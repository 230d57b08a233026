//! The resolved task and resource graph.

use vstd::prelude::*;
use crate::export::backend::Interrupt;

verus! {

/// What activates a task.
#[derive(Clone, Copy, PartialEq, Eq, Debug, Structural)]
pub enum Binding {
    /// A hardware task: the interrupt source it is bound to.
    Hardware(Interrupt),
    /// A software task: the dispatcher interrupt of its group.
    Software(Interrupt),
}

/// A task. Its identity is its position in [`App::tasks`].
#[derive(Clone, Copy, PartialEq, Eq, Debug, Structural)]
pub struct Task {
    /// The static priority: 0 is the idle level, 1 the lowest level that
    /// preempts, higher is more urgent.
    pub priority: u8,
    pub binding: Binding,
}

/// A shared resource. Its identity is its position in [`App::resources`].
#[derive(Clone, PartialEq, Eq, Debug)]
pub struct Resource {
    /// The tasks that access the resource, by position in [`App::tasks`].
    pub accessors: Vec<usize>,
}

/// The application: tasks, resources and the declared dispatchers.
#[derive(Clone, PartialEq, Eq, Debug)]
pub struct App {
    /// The path of the device crate, as the application attribute gives it.
    pub device: String,
    /// The interrupts set aside for dispatching software tasks, used or not.
    pub dispatchers: Vec<Interrupt>,
    pub tasks: Vec<Task>,
    pub resources: Vec<Resource>,
}

impl Task {
    /// Whether this is a software task.
    pub open spec fn is_software(self) -> bool {
        self.binding is Software
    }

    /// Whether this is a hardware task.
    pub open spec fn is_hardware(self) -> bool {
        self.binding is Hardware
    }

    /// The interrupt that activates the task: the one it is bound to, or its
    /// dispatcher.
    pub open spec fn interrupt(self) -> Interrupt {
        match self.binding {
            Binding::Hardware(intr) => intr,
            Binding::Software(intr) => intr,
        }
    }
}

impl App {
    /// Every accessor of every resource is a task of the application.
    pub open spec fn wf(&self) -> bool {
        forall|r: int, k: int|
            0 <= r < self.resources@.len() && 0 <= k < self.resources@[r].accessors@.len()
                ==> (#[trigger] self.resources@[r].accessors@[k]) < self.tasks@.len()
    }

    /// The priorities of the accessors of resource `r`, in the order in which
    /// the resource lists them.
    pub open spec fn priorities(&self, r: int) -> Seq<u8> {
        Seq::new(
            self.resources@[r].accessors@.len(),
            |k: int| self.tasks@[self.resources@[r].accessors@[k] as int].priority,
        )
    }

    /// Whether every accessor of every resource is a task of the application.
    pub fn is_well_formed(&self) -> (ok: bool)
        ensures
            ok == self.wf(),
    {
        let mut r: usize = 0;
        while r < self.resources.len()
            invariant
                r <= self.resources@.len(),
                forall|i: int, k: int|
                    0 <= i < r && 0 <= k < self.resources@[i].accessors@.len()
                        ==> (#[trigger] self.resources@[i].accessors@[k]) < self.tasks@.len(),
            decreases self.resources@.len() - r,
        {
            let accessors = &self.resources[r].accessors;
            let mut k: usize = 0;
            while k < accessors.len()
                invariant
                    r < self.resources@.len(),
                    accessors == &self.resources@[r as int].accessors,
                    k <= accessors@.len(),
                    forall|j: int| 0 <= j < k ==> (#[trigger] accessors@[j]) < self.tasks@.len(),
                decreases accessors@.len() - k,
            {
                if accessors[k] >= self.tasks.len() {
                    assert(self.resources@[r as int].accessors@[k as int] >= self.tasks@.len());
                    return false;
                }
                k = k + 1;
            }
            r = r + 1;
        }
        true
    }
}

} // verus!
