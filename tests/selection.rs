use blazer::error::InitError;
use blazer::selector::{
    choose_accelerator, contains_flags, graphics_family, queue_family_requests, select_families,
    transfer_family, AcceleratorKind, QueueFamily, Selection, COMPUTE, GRAPHICS, TRANSFER,
};

fn family(queue_count: u32, flags: u32) -> QueueFamily {
    QueueFamily { queue_count, flags }
}

#[test]
fn picks_discrete_after_integrated() {
    let kinds = vec![AcceleratorKind::IntegratedGpu, AcceleratorKind::DiscreteGpu];
    assert_eq!(choose_accelerator(&kinds), Ok(1));
}

#[test]
fn last_discrete_wins() {
    let kinds = vec![
        AcceleratorKind::DiscreteGpu,
        AcceleratorKind::Cpu,
        AcceleratorKind::DiscreteGpu,
        AcceleratorKind::VirtualGpu,
    ];
    assert_eq!(choose_accelerator(&kinds), Ok(2));
}

#[test]
fn no_discrete_fails() {
    let kinds = vec![AcceleratorKind::IntegratedGpu, AcceleratorKind::VirtualGpu, AcceleratorKind::Cpu];
    assert_eq!(choose_accelerator(&kinds), Err(InitError::NoSuitableAccelerator));
}

#[test]
fn empty_enumeration_fails() {
    assert_eq!(choose_accelerator(&vec![]), Err(InitError::NoSuitableAccelerator));
}

#[test]
fn kind_from_raw_codes() {
    assert_eq!(AcceleratorKind::from_raw(0), AcceleratorKind::Other);
    assert_eq!(AcceleratorKind::from_raw(1), AcceleratorKind::IntegratedGpu);
    assert_eq!(AcceleratorKind::from_raw(2), AcceleratorKind::DiscreteGpu);
    assert_eq!(AcceleratorKind::from_raw(3), AcceleratorKind::VirtualGpu);
    assert_eq!(AcceleratorKind::from_raw(4), AcceleratorKind::Cpu);
    assert_eq!(AcceleratorKind::from_raw(99), AcceleratorKind::Other);
    assert_eq!(AcceleratorKind::from_raw(-1), AcceleratorKind::Other);
}

#[test]
fn flag_containment() {
    assert!(contains_flags(GRAPHICS | TRANSFER, TRANSFER));
    assert!(contains_flags(GRAPHICS | TRANSFER, GRAPHICS | TRANSFER));
    assert!(!contains_flags(GRAPHICS | COMPUTE, TRANSFER | GRAPHICS));
    assert!(contains_flags(0, 0));
}

#[test]
fn graphics_present_then_transfer_only() {
    let families = vec![family(1, GRAPHICS), family(1, GRAPHICS), family(1, TRANSFER)];
    let present = vec![false, true, false];
    assert_eq!(
        select_families(0, &families, &present),
        Ok(Selection { accelerator: 0, graphics_family: 1, transfer_family: 2 })
    );
}

#[test]
fn single_combined_family() {
    let families = vec![family(1, GRAPHICS | TRANSFER)];
    let present = vec![true];
    assert_eq!(
        select_families(0, &families, &present),
        Ok(Selection { accelerator: 0, graphics_family: 0, transfer_family: 0 })
    );
}

#[test]
fn graphics_first_match_wins() {
    let families = vec![family(0, GRAPHICS), family(2, COMPUTE), family(1, GRAPHICS), family(1, GRAPHICS)];
    let present = vec![true, true, true, true];
    assert_eq!(graphics_family(&families, &present), Some(2));
}

#[test]
fn graphics_needs_presentation() {
    let families = vec![family(1, GRAPHICS), family(1, GRAPHICS | TRANSFER)];
    let present = vec![false, false];
    assert_eq!(graphics_family(&families, &present), None);
}

#[test]
fn transfer_only_preferred_regardless_of_order() {
    let families = vec![family(1, TRANSFER), family(1, GRAPHICS | TRANSFER)];
    assert_eq!(transfer_family(&families), Some(0));
    let families = vec![family(1, GRAPHICS | TRANSFER), family(1, TRANSFER | COMPUTE)];
    assert_eq!(transfer_family(&families), Some(1));
}

#[test]
fn transfer_last_transfer_only_wins() {
    let families = vec![
        family(1, GRAPHICS | TRANSFER),
        family(1, TRANSFER),
        family(1, GRAPHICS | TRANSFER),
        family(1, COMPUTE | TRANSFER),
        family(1, GRAPHICS | TRANSFER),
    ];
    assert_eq!(transfer_family(&families), Some(3));
}

#[test]
fn transfer_first_combined_when_no_transfer_only() {
    let families = vec![family(1, GRAPHICS), family(1, GRAPHICS | TRANSFER), family(1, GRAPHICS | TRANSFER)];
    assert_eq!(transfer_family(&families), Some(1));
}

#[test]
fn transfer_ignores_empty_families() {
    let families = vec![family(0, TRANSFER), family(1, GRAPHICS)];
    assert_eq!(transfer_family(&families), None);
}

#[test]
fn no_graphics_family_fails_selection() {
    let families = vec![family(1, TRANSFER), family(1, COMPUTE)];
    let present = vec![true, true];
    assert_eq!(select_families(0, &families, &present), Err(InitError::NoSuitableAccelerator));
}

#[test]
fn no_transfer_family_fails_selection() {
    let families = vec![family(1, GRAPHICS)];
    let present = vec![true];
    assert_eq!(select_families(3, &families, &present), Err(InitError::NoSuitableAccelerator));
}

#[test]
fn present_query_only_for_graphics_families() {
    assert!(family(1, GRAPHICS).needs_present_query());
    assert!(!family(0, GRAPHICS).needs_present_query());
    assert!(!family(4, TRANSFER | COMPUTE).needs_present_query());
}

#[test]
fn one_queue_request_per_distinct_family() {
    let same = Selection { accelerator: 0, graphics_family: 2, transfer_family: 2 };
    assert_eq!(queue_family_requests(&same), vec![2]);
    let apart = Selection { accelerator: 0, graphics_family: 0, transfer_family: 1 };
    assert_eq!(queue_family_requests(&apart), vec![0, 1]);
}
