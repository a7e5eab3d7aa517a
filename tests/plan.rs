use oe_update_db::plan::{
    plan_for, Resolution, Step, COL_ACCOUNT_BLOOM, OE_3_0_1_VERSION, OE_3_1_0_VERSION,
    PARITY_2_5_13_VERSION, PARITY_2_7_2_VERSION,
};

fn migrate(version: u32) -> (u32, Vec<Step>) {
    match plan_for(version) {
        Ok(Resolution::Migrate(plan)) => (plan.columns(), plan.steps().to_vec()),
        _ => panic!("no plan for {}", version),
    }
}

#[test]
fn plan_for_parity_2_5_purges_bloom_and_drops_light_chain() {
    let (columns, steps) = migrate(PARITY_2_5_13_VERSION);
    assert_eq!(columns, 8);
    assert_eq!(steps, vec![Step::PurgeColumn(COL_ACCOUNT_BLOOM), Step::DropTrailingColumn]);
}

#[test]
fn plan_for_parity_2_7_purges_bloom_and_drops_two_columns() {
    let (columns, steps) = migrate(PARITY_2_7_2_VERSION);
    assert_eq!(columns, 9);
    assert_eq!(
        steps,
        vec![Step::PurgeColumn(5), Step::DropTrailingColumn, Step::DropTrailingColumn]
    );
}

#[test]
fn plan_for_oe_3_0_drops_two_columns() {
    let (columns, steps) = migrate(OE_3_0_1_VERSION);
    assert_eq!(columns, 9);
    assert_eq!(steps, vec![Step::DropTrailingColumn, Step::DropTrailingColumn]);
}

#[test]
fn plan_for_current_version_is_already_current() {
    assert!(matches!(plan_for(OE_3_1_0_VERSION), Ok(Resolution::AlreadyCurrent)));
}

#[test]
fn plan_for_unknown_versions_fails() {
    for v in [0u32, 1, 12, 17, 100, u32::MAX] {
        assert!(matches!(plan_for(v), Err(x) if x == v));
    }
}

#[test]
fn every_legacy_plan_ends_with_seven_columns() {
    for v in [13u32, 14, 15] {
        let (columns, steps) = migrate(v);
        assert!(!steps.is_empty());
        let drops = steps.iter().filter(|s| **s == Step::DropTrailingColumn).count() as u32;
        assert_eq!(columns - drops, 7);
    }
}
