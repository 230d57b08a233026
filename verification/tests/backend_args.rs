use rtic_riscv::export::backend::Profile;
use rtic_riscv::syntax::backend::{riscv_atalanta, riscv_rt, select, Target};
use rtic_riscv::syntax::parse::Error;

#[test]
fn atalanta_backend_accepts_no_arguments() {
    let e = riscv_atalanta::BackendArgs::parse("foo = 1").unwrap_err();
    assert_eq!(e.message(), "riscv-atalanta backend does not accept any arguments");
    let e = riscv_atalanta::BackendArgs::parse("").unwrap_err();
    assert_eq!(e.message(), "riscv-atalanta backend does not accept any arguments");
}

#[test]
fn riscv_rt_backend_accepts_no_arguments() {
    let e = riscv_rt::BackendArgs::parse("foo = 1").unwrap_err();
    assert_eq!(e.message(), "riscv-rt backend does not accept any arguments");
    let e = riscv_rt::BackendArgs::parse("").unwrap_err();
    assert_eq!(e.message(), "riscv-rt backend does not accept any arguments");
}

#[test]
fn error_carries_its_message() {
    let e = Error::new("no such thing");
    assert_eq!(e.message(), "no such thing");
    assert_eq!(e, Error::new("no such thing"));
}

#[test]
fn exactly_one_backend_is_selected() {
    assert_eq!(select(&vec![Target::RiscvRt]), Ok(Target::RiscvRt));
    assert_eq!(select(&vec![Target::RiscvAtalanta]), Ok(Target::RiscvAtalanta));
}

#[test]
fn no_backend_fails_the_build() {
    assert_eq!(select(&vec![]).unwrap_err().message(), "No backend selected");
}

#[test]
fn two_backends_fail_the_build() {
    assert_eq!(
        select(&vec![Target::RiscvAtalanta, Target::RiscvRt]).unwrap_err().message(),
        "More than one backend selected"
    );
}

#[test]
fn both_backends_mask_at_and_below_the_threshold() {
    assert_eq!(Target::RiscvAtalanta.profile(), Profile::clic());
    assert_eq!(Target::RiscvRt.profile(), Profile::clic());
}
