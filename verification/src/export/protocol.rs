//! The priority-ceiling lock and the task wrapper.
//!
//! Both bracket a caller's closure between one write that raises the mask and
//! one write that puts back exactly what was read before the raise. The
//! closure receives the backend, so that it can take further locks.

use vstd::prelude::*;
use crate::export::backend::Backend;

verus! {

/// Runs `f` on `resource` with every task up to `ceiling` held back, and
/// returns what `f` returns.
///
/// Where the backend can mask `ceiling` with its threshold, the threshold is
/// read, written once with the value that masks `ceiling`, and after `f`
/// written once more with the value read. Where it cannot, the global
/// interrupt-enable flag is read, cleared, and after `f` put back.
///
/// `ceiling` must be the resource's ceiling. Taking a lock whose ceiling lies
/// below one that is already held is not detected.
pub fn lock<B, T, R, F>(hw: &mut B, resource: &mut T, ceiling: u8, f: F) -> (r: R) where
    B: Backend,
    F: FnOnce(&mut B, &mut T) -> R,

    requires
        forall|b: &mut B, t: &mut T|
            b.state() == old(hw).state().enter(ceiling) && *t == *old(resource)
                ==> call_requires(f, (b, t)),
    ensures
        exists|b: &mut B, t: &mut T|
            {
                &&& b.state() == old(hw).state().enter(ceiling)
                &&& *t == *old(resource)
                &&& call_ensures(f, (b, t), r)
                &&& *final(resource) == *final(t)
                &&& final(hw).state() == final(b).state().leave(old(hw).state(), ceiling)
            },
        !old(hw).state().profile.critical(ceiling) ==> final(hw).state().threshold == old(
            hw,
        ).state().threshold,
        old(hw).state().profile.critical(ceiling) ==> final(hw).state().interrupts_on == old(
            hw,
        ).state().interrupts_on,
{
    let profile = hw.profile();
    if profile.is_critical(ceiling) {
        let on: bool = hw.interrupts_on();
        hw.set_interrupts(false);
        let r = f(hw, resource);
        hw.set_interrupts(on);
        r
    } else {
        let previous: usize = hw.read_threshold();
        hw.write_threshold(profile.threshold_for(ceiling));
        let r = f(hw, resource);
        hw.write_threshold(previous);
        r
    }
}

/// Runs the task body `f` at static priority `level`.
///
/// The threshold is written with the value that masks `level` before the
/// body runs, at every level. At the floor level the threshold is set to the
/// floor after the body, whatever it was before: nothing below the floor is
/// ever current outside a task body. At any other level the threshold is read
/// before it is raised, and the value read is written back after the body.
pub fn run<B, F>(hw: &mut B, level: u8, f: F) where B: Backend, F: FnOnce(&mut B)
    requires
        forall|b: &mut B| b.state() == old(hw).state().start(level) ==> call_requires(f, (b,)),
    ensures
        exists|b: &mut B|
            {
                &&& b.state() == old(hw).state().start(level)
                &&& call_ensures(f, (b,), ())
                &&& final(hw).state() == final(b).state().finish(old(hw).state(), level)
            },
        level == old(hw).state().profile.floor ==> final(hw).state().threshold == level,
        level != old(hw).state().profile.floor ==> final(hw).state().threshold == old(
            hw,
        ).state().threshold,
{
    let profile = hw.profile();
    if level == profile.floor {
        hw.write_threshold(profile.threshold_for(level));
        f(hw);
        hw.write_threshold(profile.floor as usize);
    } else {
        let initial: usize = hw.read_threshold();
        hw.write_threshold(profile.threshold_for(level));
        f(hw);
        hw.write_threshold(initial);
    }
}

} // verus!
