use me_rpc::tls_front::{effective_cert_len, plan_app_data_records};

#[test]
fn cert_len_has_a_floor() {
    assert_eq!(effective_cert_len(0), 1024);
    assert_eq!(effective_cert_len(1023), 1024);
    assert_eq!(effective_cert_len(1024), 1024);
    assert_eq!(effective_cert_len(5000), 5000);
}

#[test]
fn small_total_is_one_record() {
    assert_eq!(plan_app_data_records(1024), vec![1024]);
    assert_eq!(plan_app_data_records(3000), vec![3000]);
}

#[test]
fn large_total_splits_in_two() {
    assert_eq!(plan_app_data_records(3001), vec![1500, 1501]);
    assert_eq!(plan_app_data_records(6000), vec![3000, 3000]);
    let sizes = plan_app_data_records(7777);
    assert_eq!(sizes.iter().sum::<usize>(), 7777);
}
