//! The priority ceiling of each shared resource.

use vstd::prelude::*;
use crate::syntax::ast::App;

verus! {

/// What the analysis of the resources derives from an application.
#[derive(Clone, PartialEq, Eq, Debug)]
pub struct Analysis {
    /// The ceiling of each resource, by position in the application.
    pub ceilings: Vec<u8>,
}

/// Whether `c` is the highest of `priorities`, or 0 where there are none.
pub open spec fn is_highest(priorities: Seq<u8>, c: u8) -> bool {
    &&& forall|k: int| 0 <= k < priorities.len() ==> priorities[k] <= c
    &&& priorities.len() == 0 ==> c == 0
    &&& priorities.len() > 0 ==> exists|k: int| 0 <= k < priorities.len() && priorities[k] == c
}

/// The ceiling of a resource: the highest priority among the tasks that
/// access it, and 0 for a resource that no task accesses.
pub fn ceiling(app: &App, resource: usize) -> (c: u8)
    requires
        app.wf(),
        resource < app.resources@.len(),
    ensures
        is_highest(app.priorities(resource as int), c),
{
    let accessors = &app.resources[resource].accessors;
    let ghost all = app.priorities(resource as int);
    let mut c: u8 = 0;
    let mut k: usize = 0;
    while k < accessors.len()
        invariant
            app.wf(),
            resource < app.resources@.len(),
            accessors == &app.resources@[resource as int].accessors,
            all == app.priorities(resource as int),
            k <= accessors@.len(),
            is_highest(all.take(k as int), c),
        decreases accessors@.len() - k,
    {
        let p: u8 = app.tasks[accessors[k]].priority;
        proof {
            let before = all.take(k as int);
            let after = all.take(k + 1);
            assert(after[k as int] == p);
            assert forall|j: int| 0 <= j < k implies after[j] == before[j] by {}
            if p <= c && k > 0 {
                let w = choose|w: int| 0 <= w < before.len() && before[w] == c;
                assert(after[w] == c);
            }
        }
        if p > c {
            c = p;
        }
        k = k + 1;
    }
    assert(all.take(k as int) =~= all);
    c
}

/// Derives the ceiling of every resource of an application.
pub fn analyze(app: &App) -> (analysis: Analysis)
    requires
        app.wf(),
    ensures
        analysis.ceilings@.len() == app.resources@.len(),
        forall|r: int|
            0 <= r < app.resources@.len() ==> is_highest(
                app.priorities(r),
                #[trigger] analysis.ceilings@[r],
            ),
{
    let mut ceilings: Vec<u8> = Vec::new();
    let mut r: usize = 0;
    while r < app.resources.len()
        invariant
            app.wf(),
            r <= app.resources@.len(),
            ceilings@.len() == r,
            forall|i: int| 0 <= i < r ==> is_highest(app.priorities(i), #[trigger] ceilings@[i]),
        decreases app.resources@.len() - r,
    {
        let c: u8 = ceiling(app, r);
        ceilings.push(c);
        r = r + 1;
    }
    Analysis { ceilings }
}

/// A sequence of priorities has one highest: the contract of [`ceiling`]
/// leaves no choice.
pub proof fn lemma_highest_unique(priorities: Seq<u8>, a: u8, b: u8)
    requires
        is_highest(priorities, a),
        is_highest(priorities, b),
    ensures
        a == b,
{
}

/// An accessor more never lowers the ceiling: the new ceiling is the old
/// one, or the priority of the new accessor where that is higher.
pub proof fn lemma_accessor_added(priorities: Seq<u8>, priority: u8, before: u8, after: u8)
    requires
        is_highest(priorities, before),
        is_highest(priorities.push(priority), after),
    ensures
        after >= before,
        after == if priority > before {
            priority
        } else {
            before
        },
{
    let more = priorities.push(priority);
    assert(more[priorities.len() as int] == priority);
    assert forall|k: int| 0 <= k < priorities.len() implies priorities[k] == more[k] by {}
    if priorities.len() > 0 {
        let w = choose|w: int| 0 <= w < priorities.len() && priorities[w] == before;
        assert(more[w] == before);
    }
    let v = choose|v: int| 0 <= v < more.len() && more[v] == after;
    if v < priorities.len() {
        assert(priorities[v] == after);
    }
}

/// An accessor less never raises the ceiling, and lowers it only where the
/// accessor that went had the ceiling as its priority.
pub proof fn lemma_accessor_removed(priorities: Seq<u8>, k: int, before: u8, after: u8)
    requires
        0 <= k < priorities.len(),
        is_highest(priorities, before),
        is_highest(priorities.remove(k), after),
    ensures
        after <= before,
        priorities[k] < before ==> after == before,
{
    let fewer = priorities.remove(k);
    assert forall|j: int| 0 <= j < fewer.len() implies fewer[j] == priorities[if j < k {
        j
    } else {
        j + 1
    }] by {}
    if fewer.len() > 0 {
        let v = choose|v: int| 0 <= v < fewer.len() && fewer[v] == after;
        assert(fewer[v] <= before);
    }
    if priorities[k] < before {
        let w = choose|w: int| 0 <= w < priorities.len() && priorities[w] == before;
        let j = if w < k {
            w
        } else {
            w - 1
        };
        assert(fewer[j] == before);
    }
}

} // verus!
