use input::context::{dispatch_result, open_restricted_code, status_result};

#[test]
fn an_opened_descriptor_is_handed_on() {
    assert_eq!(open_restricted_code(Some(Ok(0))), 0);
    assert_eq!(open_restricted_code(Some(Ok(17))), 17);
    assert_eq!(open_restricted_code(Some(Ok(i32::MAX))), i32::MAX);
}

#[test]
fn an_errno_goes_out_negative() {
    assert_eq!(open_restricted_code(Some(Err(13))), -13);
    assert_eq!(open_restricted_code(Some(Err(-13))), -13);
    assert_eq!(open_restricted_code(Some(Err(1))), -1);
    assert_eq!(open_restricted_code(Some(Err(0))), 0);
    assert_eq!(open_restricted_code(Some(Err(i32::MAX))), -i32::MAX);
    assert_eq!(open_restricted_code(Some(Err(i32::MIN))), i32::MIN);
}

#[test]
fn without_an_interface_opening_fails() {
    assert_eq!(open_restricted_code(None), -1);
}

#[test]
fn seat_and_resume_report_zero_or_minus_one() {
    assert_eq!(status_result(0), Some(Ok(())));
    assert_eq!(status_result(-1), Some(Err(())));
    assert_eq!(status_result(1), None);
    assert_eq!(status_result(-2), None);
}

#[test]
fn a_dispatch_reports_a_negative_errno() {
    assert_eq!(dispatch_result(0), Some(Ok(())));
    assert_eq!(dispatch_result(-1), Some(Err(1)));
    assert_eq!(dispatch_result(-4), Some(Err(4)));
    assert_eq!(dispatch_result(-i32::MAX), Some(Err(i32::MAX)));
    assert_eq!(dispatch_result(1), None);
    assert_eq!(dispatch_result(i32::MAX), None);
    assert_eq!(dispatch_result(i32::MIN), None);
}
