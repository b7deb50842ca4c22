use kbus_mqtt_bridge::dal::{cycle_result, DalResult, Error};

#[test]
fn test_dal_result_codes() {
    assert_eq!(DalResult::from(0), DalResult::Success);
    assert_eq!(DalResult::from(-1), DalResult::Failure);
    assert_eq!(DalResult::from(1), DalResult::NotUsed);
    // Any unexpected code is treated as a failure.
    assert_eq!(DalResult::from(7), DalResult::Failure);
    assert_eq!(DalResult::from(-2), DalResult::Failure);
}

#[test]
fn test_cycle_result_mapping() {
    assert_eq!(cycle_result(0), Ok(()));
    assert_eq!(cycle_result(-1), Err(Error::DalError));
    assert_eq!(cycle_result(1), Err(Error::Unimplemented));
    assert_eq!(cycle_result(99), Err(Error::DalError));
}

#[test]
fn test_error_messages() {
    assert_eq!(Error::DeviceNotFound.message(), "device not found");
    assert_eq!(Error::DalError.message(), "Operation failed");
}
