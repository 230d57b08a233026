//! A controller kept in memory, for trying out a task set without hardware.

use vstd::prelude::*;
use crate::export::backend::{
    Backend, Interrupt, Polarity, Profile, Source, State, Trig, Write,
};

verus! {

/// A simulated interrupt controller.
///
/// It keeps every register as a plain value, records each write to the
/// threshold register and to a field of a source, and notes when a pending
/// bit is set with interrupts globally on.
pub struct Simulator {
    profile: Profile,
    threshold: usize,
    interrupts_on: bool,
    sources: Vec<Source>,
    threshold_writes: Vec<usize>,
    source_writes: Vec<Write>,
    unguarded_pend: bool,
}

impl Simulator {
    /// A controller with `sources` sources as it is before hardware
    /// initialization: every source in its reset state, interrupts globally
    /// off, and the threshold at the value that masks every level.
    pub fn new(profile: Profile, sources: u16) -> (sim: Simulator)
        ensures
            sim.state() == (State {
                profile,
                threshold: profile.raised(u8::MAX),
                interrupts_on: false,
                sources: Seq::new(sources as nat, |i: int| Source::reset()),
                threshold_writes: Seq::empty(),
                source_writes: Seq::empty(),
                unguarded_pend: false,
            }),
    {
        let mut table: Vec<Source> = Vec::new();
        let mut i: u16 = 0;
        while i < sources
            invariant
                i <= sources,
                table@ == Seq::new(i as nat, |i: int| Source::reset()),
            decreases sources - i,
        {
            table.push(
                Source {
                    trig: Trig::Level,
                    polarity: Polarity::Pos,
                    level: 0,
                    vectored: false,
                    enabled: false,
                    pending: false,
                },
            );
            i = i + 1;
            assert(table@ =~= Seq::new(i as nat, |i: int| Source::reset()));
        }
        Simulator {
            profile,
            threshold: profile.threshold_for(u8::MAX),
            interrupts_on: false,
            sources: table,
            threshold_writes: Vec::new(),
            source_writes: Vec::new(),
            unguarded_pend: false,
        }
    }

    /// How many sources the controller has.
    pub fn source_count(&self) -> (n: usize)
        ensures
            n == self.state().sources.len(),
    {
        self.sources.len()
    }

    /// All fields of one source.
    pub fn source(&self, intr: Interrupt) -> (source: Source)
        requires
            self.state().has(intr),
        ensures
            source == self.state().source(intr),
    {
        self.sources[intr.0 as usize]
    }

    /// Whether the controller would dispatch this source now: it is unmasked
    /// and pending, interrupts are on, and the threshold lets its level
    /// through.
    pub fn accepts(&self, intr: Interrupt) -> (taken: bool)
        requires
            self.state().has(intr),
        ensures
            taken == self.state().takes(intr),
    {
        let source: Source = self.sources[intr.0 as usize];
        source.enabled && source.pending && self.interrupts_on && !self.profile.masks(
            self.threshold,
            source.level,
        )
    }

    /// Whether a pending bit was ever set while interrupts were globally on.
    pub fn unguarded_pend(&self) -> (unguarded: bool)
        ensures
            unguarded == self.state().unguarded_pend,
    {
        self.unguarded_pend
    }

    /// Every write to a field of a source so far, oldest first.
    pub fn source_writes(&self) -> (writes: &Vec<Write>)
        ensures
            writes@ == self.state().source_writes,
    {
        &self.source_writes
    }

    /// Every value written to the threshold register so far, oldest first.
    pub fn threshold_writes(&self) -> (writes: &Vec<usize>)
        ensures
            writes@ == self.state().threshold_writes,
    {
        &self.threshold_writes
    }
}

impl Backend for Simulator {
    closed spec fn state(&self) -> State {
        State {
            profile: self.profile,
            threshold: self.threshold,
            interrupts_on: self.interrupts_on,
            sources: self.sources@,
            threshold_writes: self.threshold_writes@,
            source_writes: self.source_writes@,
            unguarded_pend: self.unguarded_pend,
        }
    }

    fn profile(&self) -> (p: Profile) {
        self.profile
    }

    fn read_threshold(&self) -> (value: usize) {
        self.threshold
    }

    fn write_threshold(&mut self, value: usize) {
        self.threshold = value;
        self.threshold_writes.push(value);
    }

    fn interrupts_on(&self) -> (on: bool) {
        self.interrupts_on
    }

    fn set_interrupts(&mut self, on: bool) {
        self.interrupts_on = on;
    }

    fn set_trig(&mut self, intr: Interrupt, trig: Trig) {
        let source: Source = self.sources[intr.0 as usize];
        self.sources.set(intr.0 as usize, Source { trig, ..source });
        self.source_writes.push(Write::Trig(intr, trig));
        assert(self.source_writes@ =~= old(self).source_writes@ + seq![Write::Trig(intr, trig)]);
    }

    fn set_polarity(&mut self, intr: Interrupt, polarity: Polarity) {
        let source: Source = self.sources[intr.0 as usize];
        self.sources.set(intr.0 as usize, Source { polarity, ..source });
        self.source_writes.push(Write::Polarity(intr, polarity));
        assert(self.source_writes@ =~= old(self).source_writes@ + seq![Write::Polarity(intr, polarity)]);
    }

    fn set_source_level(&mut self, intr: Interrupt, level: u8) {
        let source: Source = self.sources[intr.0 as usize];
        self.sources.set(intr.0 as usize, Source { level, ..source });
        self.source_writes.push(Write::Level(intr, level));
        assert(self.source_writes@ =~= old(self).source_writes@ + seq![Write::Level(intr, level)]);
    }

    fn set_vectored(&mut self, intr: Interrupt, vectored: bool) {
        let source: Source = self.sources[intr.0 as usize];
        self.sources.set(intr.0 as usize, Source { vectored, ..source });
        self.source_writes.push(Write::Vectored(intr, vectored));
        assert(self.source_writes@ =~= old(self).source_writes@ + seq![Write::Vectored(intr, vectored)]);
    }

    fn set_enabled(&mut self, intr: Interrupt, enabled: bool) {
        let source: Source = self.sources[intr.0 as usize];
        self.sources.set(intr.0 as usize, Source { enabled, ..source });
        self.source_writes.push(Write::Enabled(intr, enabled));
        assert(self.source_writes@ =~= old(self).source_writes@ + seq![Write::Enabled(intr, enabled)]);
    }

    fn set_pending(&mut self, intr: Interrupt, pending: bool) {
        let source: Source = self.sources[intr.0 as usize];
        self.sources.set(intr.0 as usize, Source { pending, ..source });
        self.source_writes.push(Write::Pending(intr, pending));
        assert(self.source_writes@ =~= old(self).source_writes@ + seq![Write::Pending(intr, pending)]);
        if pending && self.interrupts_on {
            self.unguarded_pend = true;
        }
    }
}

} // verus!
