use test_contract::CustomOption;
use test_contract::Error;
use test_contract::IntStorageChanged;
use test_contract::MapStorageChanged;
use test_contract::Notification;
use test_contract::PaidFromContract;
use test_contract::TestContract;

#[test]
fn ping_returns_pong() {
    let c = TestContract::new();
    assert_eq!(c.ping(), "pong");
}

#[test]
fn echo_returns_input() {
    let c = TestContract::new();
    assert_eq!(c.echo(String::from("hello world")), "hello world");
    assert_eq!(c.echo(String::new()), "");
}

#[test]
fn echo_int_returns_input() {
    let c = TestContract::new();
    assert_eq!(c.echo_int(0), 0);
    assert_eq!(c.echo_int(42), 42);
    assert_eq!(c.echo_int(u64::MAX), u64::MAX);
}

#[test]
fn echo_128_returns_input() {
    let c = TestContract::new();
    assert_eq!(c.echo_128(0), 0);
    assert_eq!(c.echo_128(42), 42);
    assert_eq!(c.echo_128(u128::MAX), u128::MAX);
}

#[test]
fn counter_starts_at_one() {
    let c = TestContract::new();
    assert_eq!(c.get_int_storage(), 1);
    assert!(c.notifications().is_empty());
}

#[test]
fn add_storage_adds_and_notifies() {
    let mut c = TestContract::new();
    assert_eq!(c.add_storage(5), 6);
    assert_eq!(c.get_int_storage(), 6);
    assert_eq!(
        c.notifications().as_slice(),
        &[Notification::IntStorageChanged(IntStorageChanged { current: 6 })]
    );
}

#[test]
fn add_storage_overflow_keeps_old_value() {
    let mut c = TestContract::new();
    // counter is 1, so u64::MAX - counter + 1 == u64::MAX triggers overflow
    assert_eq!(c.add_storage(u64::MAX), 1);
    assert_eq!(c.get_int_storage(), 1);
    // the non-reporting increment notifies either way, with the kept value
    assert_eq!(
        c.notifications().as_slice(),
        &[Notification::IntStorageChanged(IntStorageChanged { current: 1 })]
    );
}

#[test]
fn add_storage_largest_representable_step() {
    let mut c = TestContract::new();
    // counter is 1, so u64::MAX - 1 is the largest increment that still fits
    assert_eq!(c.add_storage(u64::MAX - 1), u64::MAX);
    assert_eq!(c.get_int_storage(), u64::MAX);
}

#[test]
fn add_storage_two_args_sums_first() {
    let mut c = TestContract::new();
    assert_eq!(c.add_storage_two_args(2, 3), 6);
    assert_eq!(c.get_int_storage(), 6);
}

#[test]
fn add_storage_three_args_sums_first() {
    let mut c = TestContract::new();
    assert_eq!(c.add_storage_three_args(2, 3, 4), 10);
    assert_eq!(c.get_int_storage(), 10);
}

#[test]
fn add_storage_result_ok() {
    let mut c = TestContract::new();
    assert_eq!(c.add_storage_result(41), Ok(42));
    assert_eq!(c.get_int_storage(), 42);
    assert_eq!(
        c.notifications().as_slice(),
        &[Notification::IntStorageChanged(IntStorageChanged { current: 42 })]
    );
}

#[test]
fn add_storage_result_overflow_fails_without_mutation() {
    let mut c = TestContract::new();
    assert_eq!(c.add_storage_result(u64::MAX), Err(Error::TestError));
    assert_eq!(c.get_int_storage(), 1);
    assert!(c.notifications().is_empty());
}

#[test]
fn add_storage_option_absent_changes_nothing() {
    let mut c = TestContract::new();
    assert_eq!(c.add_storage_option(None), 1);
    assert_eq!(c.get_int_storage(), 1);
    assert!(c.notifications().is_empty());
}

#[test]
fn add_storage_option_present_matches_plain_add() {
    let mut with_option = TestContract::new();
    let mut plain = TestContract::new();
    assert_eq!(with_option.add_storage_option(Some(5)), plain.add_storage(5));
    assert_eq!(with_option.get_int_storage(), plain.get_int_storage());
    assert_eq!(with_option.notifications(), plain.notifications());
}

#[test]
fn get_map_storage_unset_key_is_empty() {
    let c = TestContract::new();
    assert_eq!(c.get_map_storage(9), Vec::<u64>::new());
}

#[test]
fn get_map_storage_result_unset_key_fails() {
    let c = TestContract::new();
    assert_eq!(c.get_map_storage_result(9), Err(Error::TestError));
}

#[test]
fn get_map_storage_option_unset_key_is_nothing() {
    let c = TestContract::new();
    assert_eq!(c.get_map_storage_option(9), None);
}

#[test]
fn swap_then_get_round_trips() {
    let mut c = TestContract::new();
    assert_eq!(c.swap_map_storage(7, CustomOption::Present(vec![1, 2, 3])), Ok(()));
    assert_eq!(c.get_map_storage(7), vec![1, 2, 3]);
    assert_eq!(c.get_map_storage_result(7), Ok(vec![1, 2, 3]));
    assert_eq!(c.get_map_storage_option(7), Some(vec![1, 2, 3]));
    assert_eq!(
        c.notifications().as_slice(),
        &[Notification::MapStorageChanged(MapStorageChanged {
            key: 7,
            current: CustomOption::Present(vec![1, 2, 3]),
        })]
    );
}

#[test]
fn swap_absent_stores_empty_not_nothing() {
    let mut c = TestContract::new();
    assert_eq!(c.swap_map_storage(7, CustomOption::Absent), Ok(()));
    assert_eq!(c.get_map_storage(7), Vec::<u64>::new());
    assert_eq!(c.get_map_storage_option(7), Some(Vec::<u64>::new()));
    assert_eq!(c.get_map_storage_result(7), Ok(Vec::<u64>::new()));
    assert_eq!(
        c.notifications().as_slice(),
        &[Notification::MapStorageChanged(MapStorageChanged {
            key: 7,
            current: CustomOption::Absent,
        })]
    );
}

#[test]
fn swap_same_key_replaces_wholesale() {
    let mut c = TestContract::new();
    assert_eq!(c.swap_map_storage(7, CustomOption::Present(vec![1, 2, 3])), Ok(()));
    assert_eq!(c.swap_map_storage(7, CustomOption::Present(vec![9])), Ok(()));
    assert_eq!(c.get_map_storage(7), vec![9]);
    assert_eq!(c.swap_map_storage(7, CustomOption::Absent), Ok(()));
    assert_eq!(c.get_map_storage(7), Vec::<u64>::new());
}

#[test]
fn swap_leaves_other_keys_alone() {
    let mut c = TestContract::new();
    assert_eq!(c.swap_map_storage(1, CustomOption::Present(vec![10])), Ok(()));
    assert_eq!(c.swap_map_storage(2, CustomOption::Present(vec![20])), Ok(()));
    assert_eq!(c.get_map_storage(1), vec![10]);
    assert_eq!(c.get_map_storage(2), vec![20]);
    assert_eq!(c.get_map_storage_option(3), None);
}

#[test]
fn echo_payable_returns_and_notifies_amount() {
    let mut c = TestContract::new();
    assert_eq!(c.echo_payable(42), 42);
    assert_eq!(
        c.notifications().as_slice(),
        &[Notification::PaidFromContract(PaidFromContract { amount: 42 })]
    );
    assert_eq!(c.get_int_storage(), 1);
}

#[test]
fn echo_payable_zero_amount() {
    let mut c = TestContract::new();
    assert_eq!(c.echo_payable(0), 0);
    assert_eq!(
        c.notifications().as_slice(),
        &[Notification::PaidFromContract(PaidFromContract { amount: 0 })]
    );
}

#[test]
fn result_payable_below_compare_fails() {
    let mut c = TestContract::new();
    assert_eq!(c.result_payable(10, 9), Err(Error::TestError));
    assert!(c.notifications().is_empty());
    assert_eq!(c.get_int_storage(), 1);
}

#[test]
fn result_payable_boundary_equal_succeeds() {
    let mut c = TestContract::new();
    assert_eq!(c.result_payable(10, 10), Ok(()));
    assert_eq!(
        c.notifications().as_slice(),
        &[Notification::PaidFromContract(PaidFromContract { amount: 10 })]
    );
}

#[test]
fn result_payable_above_compare_succeeds() {
    let mut c = TestContract::new();
    assert_eq!(c.result_payable(10, 11), Ok(()));
    assert_eq!(
        c.notifications().as_slice(),
        &[Notification::PaidFromContract(PaidFromContract { amount: 11 })]
    );
}

#[test]
fn notification_log_is_append_only_across_calls() {
    let mut c = TestContract::new();
    c.add_storage(5);
    c.swap_map_storage(7, CustomOption::Absent).unwrap();
    c.echo_payable(3);
    assert_eq!(
        c.notifications().as_slice(),
        &[
            Notification::IntStorageChanged(IntStorageChanged { current: 6 }),
            Notification::MapStorageChanged(MapStorageChanged {
                key: 7,
                current: CustomOption::Absent,
            }),
            Notification::PaidFromContract(PaidFromContract { amount: 3 }),
        ]
    );
}
