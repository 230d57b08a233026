use rtic_riscv::export::backend::{Backend, Interrupt, Polarity, Profile, Source, Trig, Write};
use rtic_riscv::export::driver::{
    disable, enable, global_disable, global_enable, pend, set_level, unpend,
};
use rtic_riscv::export::simulator::Simulator;

const RESET: Source = Source {
    trig: Trig::Level,
    polarity: Polarity::Pos,
    level: 0,
    vectored: false,
    enabled: false,
    pending: false,
};

fn sources(sim: &Simulator) -> Vec<Source> {
    (0..sim.source_count()).map(|n| sim.source(Interrupt(n as u16))).collect()
}

#[test]
fn new_controller_masks_everything() {
    let sim = Simulator::new(Profile::clic(), 3);
    assert_eq!(sim.source_count(), 3);
    assert_eq!(sources(&sim), vec![RESET, RESET, RESET]);
    assert_eq!(sim.read_threshold(), 255);
    assert!(!sim.interrupts_on());
    assert!(sim.threshold_writes().is_empty());
    assert!(!sim.unguarded_pend());
    assert_eq!(sim.profile(), Profile::clic());
}

#[test]
fn new_controller_with_a_passing_threshold_masks_the_top_level_too() {
    let sim = Simulator::new(Profile::passing_threshold(15), 1);
    assert_eq!(sim.read_threshold(), 256);
}

#[test]
fn enable_arms_the_source_at_its_level() {
    let mut sim = Simulator::new(Profile::clic(), 4);
    enable(&mut sim, Interrupt(2), 6);
    assert_eq!(
        sim.source(Interrupt(2)),
        Source {
            trig: Trig::Edge,
            polarity: Polarity::Pos,
            level: 6,
            vectored: true,
            enabled: true,
            pending: false,
        }
    );
    assert_eq!(sim.source(Interrupt(1)), RESET);
    assert_eq!(sim.source(Interrupt(3)), RESET);
}

#[test]
fn enable_unmasks_after_everything_else_is_programmed() {
    let intr = Interrupt(2);
    let mut sim = Simulator::new(Profile::clic(), 4);
    assert!(sim.source_writes().is_empty());
    enable(&mut sim, intr, 6);
    assert_eq!(
        sim.source_writes(),
        &vec![
            Write::Trig(intr, Trig::Edge),
            Write::Polarity(intr, Polarity::Pos),
            Write::Level(intr, 6),
            Write::Vectored(intr, true),
            Write::Enabled(intr, true),
        ]
    );
}

#[test]
fn disable_masks_before_anything_else_is_reset() {
    let intr = Interrupt(1);
    let mut sim = Simulator::new(Profile::clic(), 2);
    disable(&mut sim, intr);
    assert_eq!(
        sim.source_writes(),
        &vec![
            Write::Enabled(intr, false),
            Write::Level(intr, 0),
            Write::Vectored(intr, false),
            Write::Trig(intr, Trig::Level),
            Write::Polarity(intr, Polarity::Pos),
        ]
    );
}

#[test]
fn pend_unpend_and_set_level_are_one_write_each() {
    let intr = Interrupt(0);
    let mut sim = Simulator::new(Profile::clic(), 1);
    pend(&mut sim, intr);
    unpend(&mut sim, intr);
    set_level(&mut sim, intr, 4);
    assert_eq!(
        sim.source_writes(),
        &vec![Write::Pending(intr, true), Write::Pending(intr, false), Write::Level(intr, 4)]
    );
}

#[test]
fn enable_twice_is_enable_once() {
    let mut once = Simulator::new(Profile::clic(), 4);
    enable(&mut once, Interrupt(1), 3);
    let mut twice = Simulator::new(Profile::clic(), 4);
    enable(&mut twice, Interrupt(1), 3);
    enable(&mut twice, Interrupt(1), 3);
    assert_eq!(sources(&once), sources(&twice));
    assert_eq!(once.read_threshold(), twice.read_threshold());
    assert_eq!(once.interrupts_on(), twice.interrupts_on());
    assert_eq!(once.threshold_writes(), twice.threshold_writes());
}

#[test]
fn enable_order_does_not_matter() {
    let mut ab = Simulator::new(Profile::clic(), 4);
    enable(&mut ab, Interrupt(0), 2);
    enable(&mut ab, Interrupt(3), 5);
    let mut ba = Simulator::new(Profile::clic(), 4);
    enable(&mut ba, Interrupt(3), 5);
    enable(&mut ba, Interrupt(0), 2);
    assert_eq!(sources(&ab), sources(&ba));
}

#[test]
fn enable_keeps_a_pending_bit() {
    let mut sim = Simulator::new(Profile::clic(), 2);
    pend(&mut sim, Interrupt(0));
    enable(&mut sim, Interrupt(0), 1);
    assert!(sim.source(Interrupt(0)).pending);
}

#[test]
fn disable_masks_and_resets_the_source() {
    let mut sim = Simulator::new(Profile::clic(), 2);
    enable(&mut sim, Interrupt(1), 9);
    pend(&mut sim, Interrupt(1));
    disable(&mut sim, Interrupt(1));
    assert_eq!(sim.source(Interrupt(1)), Source { pending: true, ..RESET });
}

#[test]
fn pend_then_unpend_leaves_the_bit_clear() {
    let mut sim = Simulator::new(Profile::clic(), 2);
    enable(&mut sim, Interrupt(0), 1);
    let before = sources(&sim);
    pend(&mut sim, Interrupt(0));
    assert!(sim.source(Interrupt(0)).pending);
    unpend(&mut sim, Interrupt(0));
    assert!(!sim.source(Interrupt(0)).pending);
    assert_eq!(sources(&sim), before);
}

#[test]
fn pend_is_seen_by_the_next_poll() {
    let mut sim = Simulator::new(Profile::clic(), 2);
    sim.write_threshold(0);
    global_enable(&mut sim);
    enable(&mut sim, Interrupt(1), 1);
    assert!(!sim.accepts(Interrupt(1)));
    pend(&mut sim, Interrupt(1));
    assert!(sim.accepts(Interrupt(1)));
}

#[test]
fn pend_writes_the_bit_with_interrupts_off_and_puts_the_flag_back() {
    let mut sim = Simulator::new(Profile::clic(), 2);
    global_enable(&mut sim);
    pend(&mut sim, Interrupt(0));
    assert!(sim.interrupts_on());
    assert!(!sim.unguarded_pend());

    sim.set_pending(Interrupt(1), true);
    assert!(sim.unguarded_pend());
}

#[test]
fn pend_with_interrupts_off_leaves_them_off() {
    let mut sim = Simulator::new(Profile::clic(), 1);
    pend(&mut sim, Interrupt(0));
    assert!(!sim.interrupts_on());
    assert!(sim.source(Interrupt(0)).pending);
}

#[test]
fn set_level_changes_only_the_level() {
    let mut sim = Simulator::new(Profile::clic(), 2);
    enable(&mut sim, Interrupt(0), 2);
    let before = sim.source(Interrupt(0));
    set_level(&mut sim, Interrupt(0), 7);
    assert_eq!(sim.source(Interrupt(0)), Source { level: 7, ..before });
    assert_eq!(sim.source(Interrupt(1)), RESET);
}

#[test]
fn global_flag_is_independent_of_the_sources() {
    let mut sim = Simulator::new(Profile::clic(), 2);
    enable(&mut sim, Interrupt(0), 2);
    let before = sources(&sim);
    global_enable(&mut sim);
    assert!(sim.interrupts_on());
    assert_eq!(sources(&sim), before);
    global_disable(&mut sim);
    assert!(!sim.interrupts_on());
    assert_eq!(sources(&sim), before);
}

#[test]
fn source_is_taken_only_when_enabled_pending_and_let_through() {
    let mut sim = Simulator::new(Profile::clic(), 1);
    let intr = Interrupt(0);
    sim.write_threshold(2);
    global_enable(&mut sim);
    enable(&mut sim, intr, 3);
    assert!(!sim.accepts(intr));
    pend(&mut sim, intr);
    assert!(sim.accepts(intr));
    sim.write_threshold(3);
    assert!(!sim.accepts(intr));
    sim.write_threshold(2);
    global_disable(&mut sim);
    assert!(!sim.accepts(intr));
    global_enable(&mut sim);
    disable(&mut sim, intr);
    assert!(!sim.accepts(intr));
}

#[test]
fn profiles_differ_in_what_the_threshold_lets_through() {
    let clic = Profile::clic();
    assert_eq!((clic.floor, clic.equal_passes, clic.critical_from), (1, false, None));
    assert_eq!(clic.threshold_for(5), 5);
    assert!(clic.masks(5, 5));
    assert!(!clic.masks(5, 6));
    assert!(!clic.is_critical(255));

    let passing = Profile::passing_threshold(15);
    assert_eq!((passing.floor, passing.equal_passes, passing.critical_from), (1, true, Some(15)));
    assert_eq!(passing.threshold_for(5), 6);
    assert_eq!(passing.threshold_for(255), 256);
    assert!(passing.masks(6, 5));
    assert!(!passing.masks(5, 5));
    assert!(!passing.is_critical(14));
    assert!(passing.is_critical(15));

    let critical = Profile::critical_section_only();
    assert_eq!(critical.critical_from, Some(0));
    assert!(critical.is_critical(0));
    assert!(critical.is_critical(200));
}
