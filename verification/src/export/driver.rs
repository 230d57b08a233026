//! The interrupt controller driver: the operations that planned start-up and
//! dispatch statements call. None of them can fail.

use vstd::prelude::*;
use crate::export::backend::{Backend, Interrupt, Polarity, Trig};

verus! {

/// Configures a source for edge-triggered, positive-polarity, vectored
/// dispatch at `level`, then unmasks it: the enable bit is the last field
/// written.
pub fn enable<B: Backend>(hw: &mut B, intr: Interrupt, level: u8)
    requires
        old(hw).state().has(intr),
    ensures
        final(hw).state() == old(hw).state().enable(intr, level),
{
    hw.set_trig(intr, Trig::Edge);
    hw.set_polarity(intr, Polarity::Pos);
    hw.set_source_level(intr, level);
    hw.set_vectored(intr, true);
    hw.set_enabled(intr, true);
    assert(hw.state().sources =~= old(hw).state().enable(intr, level).sources);
    assert(hw.state().source_writes =~= old(hw).state().enable(intr, level).source_writes);
}

/// Masks a source, then puts its level and attributes back to their reset
/// values: the enable bit is the first field written.
pub fn disable<B: Backend>(hw: &mut B, intr: Interrupt)
    requires
        old(hw).state().has(intr),
    ensures
        final(hw).state() == old(hw).state().disable(intr),
{
    hw.set_enabled(intr, false);
    hw.set_source_level(intr, 0);
    hw.set_vectored(intr, false);
    hw.set_trig(intr, Trig::Level);
    hw.set_polarity(intr, Polarity::Pos);
    assert(hw.state().sources =~= old(hw).state().disable(intr).sources);
    assert(hw.state().source_writes =~= old(hw).state().disable(intr).source_writes);
}

/// Sets the pending bit of a source.
///
/// The bit is written with interrupts globally disabled, so that the write
/// cannot race with the controller clearing the same bit on dispatch. The
/// global flag is then put back.
pub fn pend<B: Backend>(hw: &mut B, intr: Interrupt)
    requires
        old(hw).state().has(intr),
    ensures
        final(hw).state() == old(hw).state().pend(intr),
{
    let on: bool = hw.interrupts_on();
    hw.set_interrupts(false);
    hw.set_pending(intr, true);
    hw.set_interrupts(on);
    assert(hw.state().sources =~= old(hw).state().pend(intr).sources);
}

/// Clears the pending bit of a source.
pub fn unpend<B: Backend>(hw: &mut B, intr: Interrupt)
    requires
        old(hw).state().has(intr),
    ensures
        final(hw).state() == old(hw).state().unpend(intr),
{
    hw.set_pending(intr, false);
    assert(hw.state().sources =~= old(hw).state().unpend(intr).sources);
}

/// Changes the level of a source and nothing else about it.
pub fn set_level<B: Backend>(hw: &mut B, intr: Interrupt, level: u8)
    requires
        old(hw).state().has(intr),
    ensures
        final(hw).state() == old(hw).state().set_level(intr, level),
{
    hw.set_source_level(intr, level);
}

/// Sets the global interrupt-enable flag.
pub fn global_enable<B: Backend>(hw: &mut B)
    ensures
        final(hw).state() == old(hw).state().set_interrupts(true),
{
    hw.set_interrupts(true);
}

/// Clears the global interrupt-enable flag.
pub fn global_disable<B: Backend>(hw: &mut B)
    ensures
        final(hw).state() == old(hw).state().set_interrupts(false),
{
    hw.set_interrupts(false);
}

} // verus!
