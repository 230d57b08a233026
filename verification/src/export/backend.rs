//! The contract between the protocol and an interrupt controller.
//!
//! A backend is nothing but register access: a threshold register that can
//! be read and written, a global interrupt-enable flag that can be read and
//! written, and, per interrupt source, writes to its trigger, polarity,
//! level, vectoring, enable and pending fields. Policy lives in the functions
//! written against this contract, never in a backend.

use vstd::prelude::*;

verus! {

/// An interrupt source, named by its number in the controller.
#[derive(Clone, Copy, PartialEq, Eq, Debug, Structural)]
pub struct Interrupt(pub u16);

/// What makes a source fire.
#[derive(Clone, Copy, PartialEq, Eq, Debug, Structural)]
pub enum Trig {
    Level,
    Edge,
}

/// Which signal direction counts as active.
#[derive(Clone, Copy, PartialEq, Eq, Debug, Structural)]
pub enum Polarity {
    Pos,
    Neg,
}

/// The configuration and pending bit of one interrupt source.
#[derive(Clone, Copy, PartialEq, Eq, Debug, Structural)]
pub struct Source {
    pub trig: Trig,
    pub polarity: Polarity,
    pub level: u8,
    pub vectored: bool,
    pub enabled: bool,
    pub pending: bool,
}

impl Source {
    /// A source as it is after reset: masked, at the lowest level, level
    /// triggered, not vectored, nothing pending.
    pub open spec fn reset() -> Source {
        Source {
            trig: Trig::Level,
            polarity: Polarity::Pos,
            level: 0,
            vectored: false,
            enabled: false,
            pending: false,
        }
    }

    /// This source configured for dispatch at `level`: edge triggered,
    /// positive polarity, vectored and unmasked. The pending bit is kept.
    pub open spec fn armed(self, level: u8) -> Source {
        Source {
            trig: Trig::Edge,
            polarity: Polarity::Pos,
            level,
            vectored: true,
            enabled: true,
            pending: self.pending,
        }
    }

    /// This source taken out of service: masked, at the lowest level, with
    /// the reset attributes. The pending bit is kept.
    pub open spec fn retired(self) -> Source {
        Source { pending: self.pending, ..Source::reset() }
    }
}

/// One write to a field of a source.
#[derive(Clone, Copy, PartialEq, Eq, Debug, Structural)]
pub enum Write {
    Trig(Interrupt, Trig),
    Polarity(Interrupt, Polarity),
    Level(Interrupt, u8),
    Vectored(Interrupt, bool),
    Enabled(Interrupt, bool),
    Pending(Interrupt, bool),
}

/// How one backend realizes masking. Chosen once, when the backend is built.
#[derive(Clone, Copy, PartialEq, Eq, Debug)]
pub struct Profile {
    /// The lowest level at which a task body runs.
    pub floor: u8,
    /// Whether a source whose level equals the threshold is let through.
    /// Where it is, a ceiling is masked by writing the ceiling plus one.
    pub equal_passes: bool,
    /// The lowest ceiling that the threshold register cannot mask, if there is
    /// one. From this ceiling on a lock disables interrupts globally instead.
    pub critical_from: Option<u8>,
}

impl Profile {
    /// Whether a lock with this ceiling is a global critical section.
    pub open spec fn critical(self, ceiling: u8) -> bool {
        match self.critical_from {
            Some(top) => ceiling >= top,
            None => false,
        }
    }

    /// The threshold value that holds back `level` and everything below it.
    pub open spec fn raised(self, level: u8) -> usize {
        if self.equal_passes {
            (level + 1) as usize
        } else {
            level as usize
        }
    }

    /// Whether a threshold of `threshold` holds back a source at `level`.
    pub open spec fn holds_back(self, threshold: usize, level: u8) -> bool {
        if self.equal_passes {
            level < threshold
        } else {
            level <= threshold
        }
    }

    /// The parameters that `clic` returns.
    pub open spec fn spec_clic() -> Profile {
        Profile { floor: 1, equal_passes: false, critical_from: None }
    }

    /// The parameters that `passing_threshold` returns.
    pub open spec fn spec_passing_threshold(top: u8) -> Profile {
        Profile { floor: 1, equal_passes: true, critical_from: Some(top) }
    }

    /// The parameters that `critical_section_only` returns.
    pub open spec fn spec_critical_section_only() -> Profile {
        Profile { floor: 1, equal_passes: false, critical_from: Some(0) }
    }

    /// A vectored controller with a level threshold that masks its own level:
    /// ceilings are written as they are and every ceiling can be masked.
    #[verifier::when_used_as_spec(spec_clic)]
    pub fn clic() -> (p: Profile)
        ensures
            p == Profile::spec_clic(),
    {
        Profile { floor: 1, equal_passes: false, critical_from: None }
    }

    /// A threshold register that lets its own level through and cannot hold a
    /// value above `top`: ceilings are written plus one, and a ceiling of
    /// `top` or more becomes a global critical section.
    #[verifier::when_used_as_spec(spec_passing_threshold)]
    pub fn passing_threshold(top: u8) -> (p: Profile)
        ensures
            p == Profile::spec_passing_threshold(top),
    {
        Profile { floor: 1, equal_passes: true, critical_from: Some(top) }
    }

    /// A backend without a usable threshold: every lock is a global critical
    /// section.
    #[verifier::when_used_as_spec(spec_critical_section_only)]
    pub fn critical_section_only() -> (p: Profile)
        ensures
            p == Profile::spec_critical_section_only(),
    {
        Profile { floor: 1, equal_passes: false, critical_from: Some(0) }
    }

    /// Whether a lock with this ceiling is a global critical section.
    pub fn is_critical(&self, ceiling: u8) -> (b: bool)
        ensures
            b == self.critical(ceiling),
    {
        match self.critical_from {
            Some(top) => ceiling >= top,
            None => false,
        }
    }

    /// The threshold value that holds back `level` and everything below it.
    pub fn threshold_for(&self, level: u8) -> (t: usize)
        ensures
            t == self.raised(level),
    {
        if self.equal_passes {
            level as usize + 1
        } else {
            level as usize
        }
    }

    /// Whether a threshold of `threshold` holds back a source at `level`.
    pub fn masks(&self, threshold: usize, level: u8) -> (b: bool)
        ensures
            b == self.holds_back(threshold, level),
    {
        if self.equal_passes {
            (level as usize) < threshold
        } else {
            level as usize <= threshold
        }
    }
}

/// The state of a controller, as the contracts speak of it.
pub struct State {
    /// The masking parameters of the backend. No operation changes them.
    pub profile: Profile,
    /// The current masking threshold.
    pub threshold: usize,
    /// The global interrupt-enable flag.
    pub interrupts_on: bool,
    /// The sources, indexed by interrupt number.
    pub sources: Seq<Source>,
    /// Every value written to the threshold register so far, oldest first.
    pub threshold_writes: Seq<usize>,
    /// Every write to a field of a source so far, oldest first.
    pub source_writes: Seq<Write>,
    /// Whether a pending bit was ever set while interrupts were globally on,
    /// where the write can race with the controller clearing the same bit.
    pub unguarded_pend: bool,
}

impl State {
    /// Whether the controller has a source with this number.
    pub open spec fn has(self, intr: Interrupt) -> bool {
        (intr.0 as int) < self.sources.len()
    }

    /// The source with this number.
    pub open spec fn source(self, intr: Interrupt) -> Source {
        self.sources[intr.0 as int]
    }

    /// The state after one write of `value` to the threshold register.
    pub open spec fn write_threshold(self, value: usize) -> State {
        State {
            threshold: value,
            threshold_writes: self.threshold_writes.push(value),
            ..self
        }
    }

    /// The state with the global interrupt-enable flag set to `on`.
    pub open spec fn set_interrupts(self, on: bool) -> State {
        State { interrupts_on: on, ..self }
    }

    /// The state with one source replaced.
    pub open spec fn with_source(self, intr: Interrupt, source: Source) -> State {
        State { sources: self.sources.update(intr.0 as int, source), ..self }
    }

    /// The state with some writes added to the log of source writes.
    pub open spec fn logged(self, writes: Seq<Write>) -> State {
        State { source_writes: self.source_writes + writes, ..self }
    }

    /// Whether the two states hold the same in every register: the masking
    /// parameters, the threshold, the global flag and every source. Only
    /// what they record of the past may differ.
    pub open spec fn agrees(self, other: State) -> bool {
        &&& self.profile == other.profile
        &&& self.threshold == other.threshold
        &&& self.interrupts_on == other.interrupts_on
        &&& self.sources == other.sources
    }

    /// The state after one write of the trigger field of a source.
    pub open spec fn set_trig(self, intr: Interrupt, trig: Trig) -> State {
        self.with_source(intr, Source { trig, ..self.source(intr) }).logged(
            seq![Write::Trig(intr, trig)],
        )
    }

    /// The state after one write of the polarity field of a source.
    pub open spec fn set_polarity(self, intr: Interrupt, polarity: Polarity) -> State {
        self.with_source(intr, Source { polarity, ..self.source(intr) }).logged(
            seq![Write::Polarity(intr, polarity)],
        )
    }

    /// The state after one write of the level field of a source.
    pub open spec fn set_source_level(self, intr: Interrupt, level: u8) -> State {
        self.with_source(intr, Source { level, ..self.source(intr) }).logged(
            seq![Write::Level(intr, level)],
        )
    }

    /// The state after one write of the vectoring field of a source.
    pub open spec fn set_vectored(self, intr: Interrupt, vectored: bool) -> State {
        self.with_source(intr, Source { vectored, ..self.source(intr) }).logged(
            seq![Write::Vectored(intr, vectored)],
        )
    }

    /// The state after one write of the enable bit of a source.
    pub open spec fn set_enabled(self, intr: Interrupt, enabled: bool) -> State {
        self.with_source(intr, Source { enabled, ..self.source(intr) }).logged(
            seq![Write::Enabled(intr, enabled)],
        )
    }

    /// The state after one write of the pending bit of a source.
    pub open spec fn set_pending(self, intr: Interrupt, pending: bool) -> State {
        State {
            unguarded_pend: self.unguarded_pend || (pending && self.interrupts_on),
            ..self.with_source(intr, Source { pending, ..self.source(intr) }).logged(
                seq![Write::Pending(intr, pending)],
            )
        }
    }

    /// Whether a source at `level` is held back, pending or not.
    pub open spec fn holds_back(self, level: u8) -> bool {
        !self.interrupts_on || self.profile.holds_back(self.threshold, level)
    }

    /// Whether the controller would dispatch this source now.
    pub open spec fn takes(self, intr: Interrupt) -> bool {
        &&& self.source(intr).enabled
        &&& self.source(intr).pending
        &&& !self.holds_back(self.source(intr).level)
    }

    /// The state after `enable`: the source is armed at `level`, and the
    /// writes that did it end with the one that unmasks the source.
    pub open spec fn enable(self, intr: Interrupt, level: u8) -> State {
        self.with_source(intr, self.source(intr).armed(level)).logged(
            seq![
                Write::Trig(intr, Trig::Edge),
                Write::Polarity(intr, Polarity::Pos),
                Write::Level(intr, level),
                Write::Vectored(intr, true),
                Write::Enabled(intr, true),
            ],
        )
    }

    /// The state after `disable`: the source is retired, and the writes that
    /// did it begin with the one that masks the source.
    pub open spec fn disable(self, intr: Interrupt) -> State {
        self.with_source(intr, self.source(intr).retired()).logged(
            seq![
                Write::Enabled(intr, false),
                Write::Level(intr, 0),
                Write::Vectored(intr, false),
                Write::Trig(intr, Trig::Level),
                Write::Polarity(intr, Polarity::Pos),
            ],
        )
    }

    /// The state after `pend`: the pending bit is set by one write, and it
    /// was not set while interrupts were on.
    pub open spec fn pend(self, intr: Interrupt) -> State {
        self.with_source(intr, Source { pending: true, ..self.source(intr) }).logged(
            seq![Write::Pending(intr, true)],
        )
    }

    /// The state after `unpend`: the pending bit is cleared by one write.
    pub open spec fn unpend(self, intr: Interrupt) -> State {
        self.with_source(intr, Source { pending: false, ..self.source(intr) }).logged(
            seq![Write::Pending(intr, false)],
        )
    }

    /// The state after `set_level`: the level is changed by one write.
    pub open spec fn set_level(self, intr: Interrupt, level: u8) -> State {
        self.with_source(intr, Source { level, ..self.source(intr) }).logged(
            seq![Write::Level(intr, level)],
        )
    }

    /// The state in which the body of a lock with this ceiling starts.
    pub open spec fn enter(self, ceiling: u8) -> State {
        if self.profile.critical(ceiling) {
            self.set_interrupts(false)
        } else {
            self.write_threshold(self.profile.raised(ceiling))
        }
    }

    /// The state a lock with this ceiling returns in, where `self` is the
    /// state its body ended in and `before` the state the lock was called in.
    pub open spec fn leave(self, before: State, ceiling: u8) -> State {
        if before.profile.critical(ceiling) {
            self.set_interrupts(before.interrupts_on)
        } else {
            self.write_threshold(before.threshold)
        }
    }

    /// The state in which a task body wrapped at `level` starts: the
    /// threshold holds back `level` and everything below it.
    pub open spec fn start(self, level: u8) -> State {
        self.write_threshold(self.profile.raised(level))
    }

    /// The state a wrapped task body at `level` returns in, where `self` is
    /// the state the body ended in and `before` the state at activation.
    pub open spec fn finish(self, before: State, level: u8) -> State {
        if level == before.profile.floor {
            self.write_threshold(before.profile.floor as usize)
        } else {
            self.write_threshold(before.threshold)
        }
    }
}

/// Register access to one interrupt controller.
///
/// Each method is one register read or one register write, and says which
/// field of the state it returns or replaces. Nothing else changes.
///
/// A source is named by its number, which must be one that the controller
/// has.
pub trait Backend {
    /// The controller's state.
    spec fn state(&self) -> State;

    /// The masking parameters of this backend.
    fn profile(&self) -> (p: Profile)
        ensures
            p == self.state().profile,
    ;

    /// Reads the threshold register.
    fn read_threshold(&self) -> (value: usize)
        ensures
            value == self.state().threshold,
    ;

    /// Writes the threshold register.
    fn write_threshold(&mut self, value: usize)
        ensures
            final(self).state() == old(self).state().write_threshold(value),
    ;

    /// Reads the global interrupt-enable flag.
    fn interrupts_on(&self) -> (on: bool)
        ensures
            on == self.state().interrupts_on,
    ;

    /// Writes the global interrupt-enable flag.
    fn set_interrupts(&mut self, on: bool)
        ensures
            final(self).state() == old(self).state().set_interrupts(on),
    ;

    /// Writes the trigger field of one source.
    fn set_trig(&mut self, intr: Interrupt, trig: Trig)
        requires
            old(self).state().has(intr),
        ensures
            final(self).state() == old(self).state().set_trig(intr, trig),
    ;

    /// Writes the polarity field of one source.
    fn set_polarity(&mut self, intr: Interrupt, polarity: Polarity)
        requires
            old(self).state().has(intr),
        ensures
            final(self).state() == old(self).state().set_polarity(intr, polarity),
    ;

    /// Writes the level field of one source.
    fn set_source_level(&mut self, intr: Interrupt, level: u8)
        requires
            old(self).state().has(intr),
        ensures
            final(self).state() == old(self).state().set_source_level(intr, level),
    ;

    /// Writes the vectoring field of one source.
    fn set_vectored(&mut self, intr: Interrupt, vectored: bool)
        requires
            old(self).state().has(intr),
        ensures
            final(self).state() == old(self).state().set_vectored(intr, vectored),
    ;

    /// Writes the enable bit of one source.
    fn set_enabled(&mut self, intr: Interrupt, enabled: bool)
        requires
            old(self).state().has(intr),
        ensures
            final(self).state() == old(self).state().set_enabled(intr, enabled),
    ;

    /// Writes the pending bit of one source.
    fn set_pending(&mut self, intr: Interrupt, pending: bool)
        requires
            old(self).state().has(intr),
        ensures
            final(self).state() == old(self).state().set_pending(intr, pending),
    ;
}

} // verus!
