use openvr::applications::mk_err;
use openvr::enums::ApplicationError;

#[test]
fn application_status_none_is_success() {
    assert_eq!(mk_err(0), Ok(()));
}

#[test]
fn application_status_other_is_the_error() {
    assert_eq!(mk_err(100), Err(ApplicationError(100)));
    assert_eq!(mk_err(107), Err(ApplicationError::from_raw(107)));
    assert_eq!(ApplicationError::from_raw(300).as_raw(), 300);
}
