//! What holds of the protocol and the driver, whatever the task set.

use vstd::prelude::*;
use crate::export::backend::{Interrupt, Profile, State, Write};
use crate::syntax::analyze::is_highest;

verus! {

/// What a stretch of code does to the mask: a sequence of locks and of
/// preempting task activations, each with what happens inside it.
pub enum Nesting {
    /// Nothing further.
    End,
    /// A lock with `ceiling` around `body`, then `rest`.
    Lock { ceiling: u8, body: Box<Nesting>, rest: Box<Nesting> },
    /// A task activation wrapped at `level` around `body`, then `rest`.
    Run { level: u8, body: Box<Nesting>, rest: Box<Nesting> },
}

impl Nesting {
    /// No task activation in the nesting is wrapped at `floor`.
    pub open spec fn above_floor(self, floor: u8) -> bool
        decreases self,
    {
        match self {
            Nesting::End => true,
            Nesting::Lock { ceiling, body, rest } => body.above_floor(floor) && rest.above_floor(
                floor,
            ),
            Nesting::Run { level, body, rest } => level != floor && body.above_floor(floor)
                && rest.above_floor(floor),
        }
    }

    /// Every lock in the nesting has a ceiling of at least `ceiling`, and
    /// every activation a level of at least `ceiling`.
    pub open spec fn ordered(self, ceiling: u8) -> bool
        decreases self,
    {
        match self {
            Nesting::End => true,
            Nesting::Lock { ceiling: inner, body, rest } => inner >= ceiling && body.ordered(
                ceiling,
            ) && rest.ordered(ceiling),
            Nesting::Run { level, body, rest } => level >= ceiling && body.ordered(ceiling)
                && rest.ordered(ceiling),
        }
    }
}

impl State {
    /// Whether every source at a level up to `ceiling` is held back.
    pub open spec fn covers(self, ceiling: u8) -> bool {
        forall|level: u8| level <= ceiling ==> self.holds_back(level)
    }

    /// The state after a nesting has run from this state.
    pub open spec fn after(self, nesting: Nesting) -> State
        decreases nesting,
    {
        match nesting {
            Nesting::End => self,
            Nesting::Lock { ceiling, body, rest } => self.enter(ceiling).after(*body).leave(
                self,
                ceiling,
            ).after(*rest),
            Nesting::Run { level, body, rest } => self.start(level).after(*body).finish(
                self,
                level,
            ).after(*rest),
        }
    }

    /// Whether every source at a level up to `ceiling` is held back in this
    /// state and in every state that a nesting run from it passes through.
    pub open spec fn keeps(self, nesting: Nesting, ceiling: u8) -> bool
        decreases nesting,
    {
        &&& self.covers(ceiling)
        &&& match nesting {
            Nesting::End => true,
            Nesting::Lock { ceiling: inner, body, rest } => {
                &&& self.enter(inner).keeps(*body, ceiling)
                &&& self.enter(inner).after(*body).leave(self, inner).keeps(*rest, ceiling)
            },
            Nesting::Run { level, body, rest } => {
                &&& self.start(level).keeps(*body, ceiling)
                &&& self.start(level).after(*body).finish(self, level).keeps(*rest, ceiling)
            },
        }
    }
}

/// The threshold value that a backend writes for a ceiling holds back
/// exactly the levels up to that ceiling.
pub proof fn lemma_raised_holds_back(profile: Profile, ceiling: u8, level: u8)
    ensures
        profile.holds_back(profile.raised(ceiling), level) <==> level <= ceiling,
{
}

/// After any nesting of locks and of task activations above the floor, the
/// threshold and the global interrupt-enable flag are what they were before
/// it, and no source has changed.
pub proof fn lemma_nesting_restores_mask(state: State, nesting: Nesting)
    requires
        nesting.above_floor(state.profile.floor),
    ensures
        state.after(nesting).threshold == state.threshold,
        state.after(nesting).interrupts_on == state.interrupts_on,
        state.after(nesting).profile == state.profile,
        state.after(nesting).sources == state.sources,
        state.after(nesting).source_writes == state.source_writes,
    decreases nesting,
{
    match nesting {
        Nesting::End => {},
        Nesting::Lock { ceiling, body, rest } => {
            lemma_nesting_restores_mask(state.enter(ceiling), *body);
            lemma_nesting_restores_mask(
                state.enter(ceiling).after(*body).leave(state, ceiling),
                *rest,
            );
        },
        Nesting::Run { level, body, rest } => {
            lemma_nesting_restores_mask(state.start(level), *body);
            lemma_nesting_restores_mask(
                state.start(level).after(*body).finish(state, level),
                *rest,
            );
        },
    }
}

/// A task activation at the floor leaves the threshold at the floor,
/// whatever it was before.
pub proof fn lemma_floor_run_ends_at_floor(state: State, body: Nesting)
    requires
        body.above_floor(state.profile.floor),
    ensures
        state.after(
            Nesting::Run {
                level: state.profile.floor,
                body: Box::new(body),
                rest: Box::new(Nesting::End),
            },
        ).threshold == state.profile.floor,
{
    lemma_nesting_restores_mask(state.start(state.profile.floor), body);
    reveal_with_fuel(State::after, 2);
}

/// The body of a lock starts with every source up to the ceiling held back.
pub proof fn lemma_enter_covers(state: State, ceiling: u8)
    ensures
        state.enter(ceiling).covers(ceiling),
{
}

/// A source that is held back is not dispatched, pending or not.
pub proof fn lemma_covered_source_waits(state: State, ceiling: u8, intr: Interrupt)
    requires
        state.covers(ceiling),
        state.source(intr).level <= ceiling,
    ensures
        !state.takes(intr),
{
}

/// From a state that holds back every source up to `ceiling`, a nesting
/// whose locks and activations all lie at `ceiling` or above, and none of
/// whose activations is at the floor, never passes through a state that lets
/// such a source through.
pub proof fn lemma_ordered_nesting_keeps_cover(state: State, nesting: Nesting, ceiling: u8)
    requires
        state.covers(ceiling),
        nesting.ordered(ceiling),
        nesting.above_floor(state.profile.floor),
    ensures
        state.keeps(nesting, ceiling),
    decreases nesting,
{
    match nesting {
        Nesting::End => {},
        Nesting::Lock { ceiling: inner, body, rest } => {
            let inside = state.enter(inner);
            let back = inside.after(*body).leave(state, inner);
            lemma_nesting_restores_mask(inside, *body);
            assert(inside.covers(ceiling)) by {
                assert forall|level: u8| level <= ceiling implies inside.holds_back(level) by {
                    assert(state.holds_back(level));
                }
            }
            assert(back.covers(ceiling)) by {
                assert forall|level: u8| level <= ceiling implies back.holds_back(level) by {
                    assert(state.holds_back(level));
                }
            }
            lemma_ordered_nesting_keeps_cover(inside, *body, ceiling);
            lemma_ordered_nesting_keeps_cover(back, *rest, ceiling);
        },
        Nesting::Run { level, body, rest } => {
            let inside = state.start(level);
            let back = inside.after(*body).finish(state, level);
            lemma_nesting_restores_mask(inside, *body);
            assert(inside.covers(ceiling)) by {
                assert forall|l: u8| l <= ceiling implies inside.holds_back(l) by {
                    assert(state.holds_back(l));
                }
            }
            assert(back.covers(ceiling)) by {
                assert forall|l: u8| l <= ceiling implies back.holds_back(l) by {
                    assert(state.holds_back(l));
                }
            }
            lemma_ordered_nesting_keeps_cover(inside, *body, ceiling);
            lemma_ordered_nesting_keeps_cover(back, *rest, ceiling);
        },
    }
}

/// While a lock with `ceiling` is held, and whatever well-ordered nesting
/// runs inside it, every source up to `ceiling` is held back: no task that
/// shares the resource can enter.
pub proof fn lemma_lock_excludes(state: State, ceiling: u8, body: Nesting)
    requires
        body.ordered(ceiling),
        body.above_floor(state.profile.floor),
    ensures
        state.enter(ceiling).keeps(body, ceiling),
{
    lemma_enter_covers(state, ceiling);
    lemma_ordered_nesting_keeps_cover(state.enter(ceiling), body, ceiling);
}

/// Where `ceiling` is the highest of the priorities of the accessors of a
/// resource, the body of a lock with `ceiling` starts with each of them held
/// back.
pub proof fn lemma_accessors_wait(state: State, priorities: Seq<u8>, ceiling: u8, k: int)
    requires
        is_highest(priorities, ceiling),
        0 <= k < priorities.len(),
    ensures
        state.enter(ceiling).holds_back(priorities[k]),
{
}

/// Enabling a source twice at the same level leaves every register of the
/// controller as enabling it once does.
pub proof fn lemma_enable_idempotent(state: State, intr: Interrupt, level: u8)
    requires
        state.has(intr),
    ensures
        state.enable(intr, level).enable(intr, level).agrees(state.enable(intr, level)),
        state.enable(intr, level).enable(intr, level).threshold_writes == state.enable(
            intr,
            level,
        ).threshold_writes,
{
    assert(state.enable(intr, level).enable(intr, level).sources =~= state.enable(
        intr,
        level,
    ).sources);
}

/// Enabling two different sources leaves every register of the controller
/// the same in either order.
pub proof fn lemma_enable_commutes(state: State, a: Interrupt, la: u8, b: Interrupt, lb: u8)
    requires
        state.has(a),
        state.has(b),
        a != b,
    ensures
        state.enable(a, la).enable(b, lb).agrees(state.enable(b, lb).enable(a, la)),
{
    assert(state.enable(a, la).enable(b, lb).sources =~= state.enable(b, lb).enable(
        a,
        la,
    ).sources);
}

/// Of the writes of `enable`, the one that unmasks the source is the last:
/// trigger, polarity, level and vectoring are programmed before it. Of the
/// writes of `disable`, the one that masks the source is the first.
pub proof fn lemma_unmasked_last_masked_first(state: State, intr: Interrupt, level: u8)
    ensures
        state.enable(intr, level).source_writes.len() == state.source_writes.len() + 5,
        state.enable(intr, level).source_writes.last() == Write::Enabled(intr, true),
        forall|i: int|
            state.source_writes.len() <= i < state.source_writes.len() + 4 ==> !(
            #[trigger] state.enable(intr, level).source_writes[i] is Enabled),
        state.disable(intr).source_writes.len() == state.source_writes.len() + 5,
        state.disable(intr).source_writes[state.source_writes.len() as int] == Write::Enabled(
            intr,
            false,
        ),
        forall|i: int|
            state.source_writes.len() < i < state.source_writes.len() + 5 ==> !(
            #[trigger] state.disable(intr).source_writes[i] is Enabled),
{
}

/// After `pend` the pending bit is set, so that an enabled source which is
/// not held back is dispatched, and the bit was not written with interrupts
/// on; after `pend` and `unpend` the bit is clear, and no register has
/// changed but that bit.
pub proof fn lemma_pend_unpend(state: State, intr: Interrupt)
    requires
        state.has(intr),
    ensures
        state.pend(intr).source(intr).pending,
        state.pend(intr).unguarded_pend == state.unguarded_pend,
        state.pend(intr).takes(intr) <==> state.source(intr).enabled && !state.holds_back(
            state.source(intr).level,
        ),
        !state.pend(intr).unpend(intr).source(intr).pending,
        state.pend(intr).unpend(intr).agrees(state.unpend(intr)),
        !state.source(intr).pending ==> state.pend(intr).unpend(intr).agrees(state),
{
    assert(state.pend(intr).unpend(intr).sources =~= state.unpend(intr).sources);
    if !state.source(intr).pending {
        assert(state.unpend(intr).sources =~= state.sources);
    }
}

/// A lock whose body hands back the threshold and the global
/// interrupt-enable flag as it found them hands both back as the lock found
/// them, whatever the ceiling and however the backend masks.
pub proof fn lemma_lock_restores_mask(before: State, end: State, ceiling: u8)
    requires
        end.threshold == before.enter(ceiling).threshold,
        end.interrupts_on == before.enter(ceiling).interrupts_on,
    ensures
        end.leave(before, ceiling).threshold == before.threshold,
        end.leave(before, ceiling).interrupts_on == before.interrupts_on,
{
}

/// The body of a task wrapped at `level` starts with every source up to
/// `level` held back by the threshold, at the floor as at any other level.
pub proof fn lemma_start_covers(state: State, level: u8, other: u8)
    requires
        other <= level,
    ensures
        state.start(level).threshold == state.profile.raised(level),
        state.profile.holds_back(state.start(level).threshold, other),
{
}

} // verus!
