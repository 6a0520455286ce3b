use meridian_contracts::multisig::{verify_multisig, AdminConfig};

const A1: [u8; 32] = [1u8; 32];
const A2: [u8; 32] = [2u8; 32];
const A3: [u8; 32] = [3u8; 32];
const OUTSIDER: [u8; 32] = [9u8; 32];

fn config(threshold: u32) -> AdminConfig {
    AdminConfig { admins: vec![A1, A2, A3], threshold }
}

#[test]
fn counts_distinct_admins_up_to_the_threshold() {
    let (ok, counted) = verify_multisig(vec![OUTSIDER, A2, A2, A1, A3], &config(2));
    assert!(ok);
    assert_eq!(counted, vec![A2, A1]);
}

#[test]
fn too_few_distinct_admins_fail_but_report_whom_they_counted() {
    let (ok, counted) = verify_multisig(vec![A1, A1, OUTSIDER], &config(2));
    assert!(!ok);
    assert_eq!(counted, vec![A1]);
}

#[test]
fn refused_configurations_count_nobody() {
    assert_eq!(verify_multisig(vec![A1, A2], &config(0)), (false, vec![]));
    assert_eq!(verify_multisig(vec![A1, A2], &config(4)), (false, vec![]));
    let many = vec![A1; 21];
    assert_eq!(verify_multisig(many, &config(1)), (false, vec![]));
}
