use openvr::enums::InputError;
use openvr::input::{bone_name, compressed_bone_data_step, mk_err};

#[test]
fn input_status_none_is_success() {
    assert_eq!(mk_err(0), Ok(()));
}

#[test]
fn input_status_other_is_the_error() {
    assert_eq!(mk_err(1), Err(InputError(1)));
    assert_eq!(mk_err(14), Err(InputError::from_raw(14)));
    assert_eq!(InputError::from_raw(20).as_raw(), 20);
}

#[test]
fn compressed_data_grows_on_buffer_too_small() {
    let mut buffer: Vec<u8> = Vec::new();
    assert_eq!(compressed_bone_data_step(&mut buffer, 14, 6), Ok(false));
    assert_eq!(buffer, vec![0u8; 6]);
}

#[test]
fn compressed_data_keeps_what_it_has_when_growing() {
    let mut buffer = vec![9u8, 8];
    assert_eq!(compressed_bone_data_step(&mut buffer, 14, 4), Ok(false));
    assert_eq!(buffer, vec![9, 8, 0, 0]);
}

#[test]
fn compressed_data_is_done_on_success() {
    let mut buffer = vec![1u8, 2, 3, 4, 5, 6];
    assert_eq!(compressed_bone_data_step(&mut buffer, 0, 4), Ok(true));
    assert_eq!(buffer, vec![1, 2, 3, 4]);
}

#[test]
fn compressed_data_fails_on_any_other_code() {
    let mut buffer = vec![1u8, 2, 3];
    assert_eq!(compressed_bone_data_step(&mut buffer, 3, 99), Err(InputError(3)));
    assert_eq!(buffer, vec![1, 2, 3]);
}

#[test]
fn bone_name_of_a_filled_buffer() {
    let mut buffer = vec![0u8; 32];
    buffer[..10].copy_from_slice(b"finger_idx");
    assert_eq!(bone_name(0, buffer), Ok(Some(b"finger_idx".to_vec())));
}

#[test]
fn bone_name_hands_on_the_error() {
    assert_eq!(bone_name(17, vec![0u8; 32]), Err(InputError(17)));
    assert_eq!(bone_name(17, vec![1u8; 32]), Err(InputError(17)));
}

#[test]
fn bone_name_without_terminator_is_missing() {
    assert_eq!(bone_name(0, vec![b'x'; 32]), Ok(None));
}
