use mujoco_app::vfs::{add_result, delete_found, is_known_add_status, AddError};

#[test]
fn add_status_zero_is_success() {
    assert_eq!(add_result(0), Ok(()));
}

#[test]
fn add_status_one_is_full() {
    assert_eq!(add_result(1), Err(AddError::VfsFull));
}

#[test]
fn add_status_two_is_repeated_name() {
    assert_eq!(add_result(2), Err(AddError::RepeatedName));
}

#[test]
fn delete_status_tells_whether_the_file_was_there() {
    assert!(delete_found(0));
    assert!(!delete_found(-1));
}

#[test]
fn add_errors_are_named() {
    assert_eq!(AddError::VfsFull.describe(), "VfsFull");
    assert_eq!(AddError::RepeatedName.describe(), "RepeatedName");
}

#[test]
fn only_three_add_statuses_are_known() {
    assert!(is_known_add_status(0));
    assert!(is_known_add_status(1));
    assert!(is_known_add_status(2));
    assert!(!is_known_add_status(3));
    assert!(!is_known_add_status(-1));
}
