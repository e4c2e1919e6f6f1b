use std::cell::Cell;

use libkernel::boot::{prepare_el2_to_el1_transition, El2ToEl1Transition};
use libkernel::driver::init_drivers;
use libkernel::exception::{
    current_privillege_level, exec_with_irq_masked, is_local_irq_masked, local_irq_mask,
    local_irq_mask_save, local_irq_restore, local_irq_unmask, IRQContext, IRQNumber,
    PrivilegeLevel,
};
use libkernel::time::{resolution, spin_for, uptime, SpinPlan};

#[test]
fn mask_save_restore_is_identity() {
    for initial in [0u64, 0x80, 0x3C0, 0x340, 0x200, u64::MAX] {
        let mut daif = initial;
        let saved = local_irq_mask_save(&mut daif);
        assert_eq!(saved, initial);
        assert_eq!(daif, initial | 0x80);
        local_irq_restore(&mut daif, saved);
        assert_eq!(daif, initial);
    }
}

#[test]
fn mask_and_unmask_touch_only_irq_bit() {
    let mut daif: u64 = 0x340;
    local_irq_mask(&mut daif);
    assert_eq!(daif, 0x3C0);
    assert!(is_local_irq_masked(daif));
    local_irq_unmask(&mut daif);
    assert_eq!(daif, 0x340);
    assert!(!is_local_irq_masked(daif));
}

#[test]
fn closure_runs_masked_and_state_is_restored() {
    let mut daif: u64 = 0x300;
    let seen = Cell::new(0u64);
    let r = exec_with_irq_masked(&mut daif, |d| {
        seen.set(d);
        if d & 0x80 != 0 {
            return 7;
        }
        8
    });
    assert_eq!(r, 7);
    assert_eq!(seen.get(), 0x380);
    assert_eq!(daif, 0x300);

    let mut already: u64 = 0x3C0;
    let r2 = exec_with_irq_masked(&mut already, |d| d);
    assert_eq!(r2, 0x3C0);
    assert_eq!(already, 0x3C0);
}

#[test]
fn nested_critical_sections_restore_in_order() {
    let mut outer: u64 = 0;
    let inner_seen = exec_with_irq_masked(&mut outer, |d| {
        let mut inner = d;
        let v = exec_with_irq_masked(&mut inner, |e| e);
        (v, inner)
    });
    assert_eq!(inner_seen, (0x80, 0x80));
    assert_eq!(outer, 0);
}

#[test]
fn privilege_levels() {
    assert_eq!(current_privillege_level(0b1000), (PrivilegeLevel::Hypervisor, "EL2"));
    assert_eq!(current_privillege_level(0b0100), (PrivilegeLevel::Kernel, "EL1"));
    assert_eq!(current_privillege_level(0), (PrivilegeLevel::User, "EL0"));
    assert_eq!(current_privillege_level(0b1100), (PrivilegeLevel::Unknown, "Unknown"));
}

#[test]
fn irq_number_and_context() {
    let n = IRQNumber::<63>::new(17);
    assert_eq!(n.get(), 17);
    let _ctx = IRQContext::new();
}

#[test]
fn el2_to_el1_values() {
    let t = prepare_el2_to_el1_transition(0x8_0000, 0x8_1234);
    assert_eq!(
        t,
        El2ToEl1Transition {
            cnthctl_el2: 0b11,
            cntvoff_el2: 0,
            hcr_el2: 1 << 31,
            spsr_el2: 0x3C5,
            elr_el2: 0x8_1234,
            sp_el1: 0x8_0000,
        }
    );
}

#[test]
fn spin_plans() {
    assert_eq!(spin_for(62_500_000, 0), SpinPlan::NoWait);
    assert_eq!(spin_for(62_500_000, 1_000_000_000), SpinPlan::Wait(62_500_000));
    assert_eq!(spin_for(62_500_000, 16), SpinPlan::Wait(1));
    assert_eq!(spin_for(62_500_000, 15), SpinPlan::SmallerThanSupported);
    assert_eq!(spin_for(u64::MAX, 2), SpinPlan::TooLong);
    assert_eq!(spin_for(1, (1u128 << 64) + 1_000_000_000), SpinPlan::TooLong);
    assert_eq!(spin_for(1, u64::MAX as u128 + 1), SpinPlan::TooLong);
    assert_eq!(spin_for(1, u64::MAX as u128), SpinPlan::BiggerThanSupported);
    assert_eq!(spin_for(1, 4_000_000_000_000_000_000), SpinPlan::Wait(4_000_000_000));
    assert_eq!(spin_for(1_000_000_000, 10_000_000_000), SpinPlan::BiggerThanSupported);
    assert_eq!(spin_for(1_000_000_000, 4_294_967_295), SpinPlan::Wait(4_294_967_295));
    assert_eq!(SpinPlan::TooLong.warning(), Some("Spin duration too long, skipping"));
    assert_eq!(
        SpinPlan::BiggerThanSupported.warning(),
        Some("Spin duration bigger than architecture supported, skipping")
    );
    assert_eq!(SpinPlan::Wait(3).warning(), None);
}

#[test]
fn timer_arithmetic() {
    assert_eq!(resolution(62_500_000), 16);
    assert_eq!(resolution(19_200_000), 52);
    assert_eq!(uptime(62_500_000, 62_500_000), 1_000_000_000);
    assert_eq!(uptime(1, 62_500_000), 16);
}

#[test]
fn drivers_init_in_order_and_stop_at_failure() {
    let calls = Cell::new(0usize);
    let posted = Cell::new(false);
    let ok = init_drivers(
        3,
        |i| {
            assert_eq!(i, calls.get());
            assert!(!posted.get());
            calls.set(calls.get() + 1);
            Ok(())
        },
        || posted.set(true),
    );
    assert_eq!(ok, Ok(()));
    assert_eq!(calls.get(), 3);
    assert!(posted.get());

    let calls = Cell::new(0usize);
    let posted = Cell::new(false);
    let failed = init_drivers(
        3,
        |i| {
            calls.set(calls.get() + 1);
            if i == 1 { Err("no pins") } else { Ok(()) }
        },
        || posted.set(true),
    );
    assert_eq!(failed, Err((1, "no pins")));
    assert_eq!(calls.get(), 2);
    assert!(!posted.get());
}
