use openvr::enums::{FirmwareError, TrackedPropertyError};
use openvr::system::{
    adapter_index, array_byte_size, array_property_step, array_property_tag, debug_response,
    firmware_result,
    pose_count, property_result, string_property_buffer, string_property_step, PropertyType,
    PropertyTypeImpl,
};

#[test]
fn property_result_success_is_ok() {
    assert_eq!(property_result(0), Ok(()));
}

#[test]
fn property_result_other_is_the_error() {
    assert_eq!(property_result(1), Err(TrackedPropertyError(1)));
    assert_eq!(property_result(3), Err(TrackedPropertyError::from_raw(3)));
    assert_eq!(TrackedPropertyError::from_raw(15).as_raw(), 15);
}

#[test]
fn firmware_result_none_is_ok() {
    assert_eq!(firmware_result(0), Ok(()));
}

#[test]
fn firmware_result_other_is_the_error() {
    assert_eq!(firmware_result(1), Err(FirmwareError(1)));
    assert_eq!(firmware_result(2), Err(FirmwareError::from_raw(2)));
    assert_eq!(FirmwareError::from_raw(2).as_raw(), 2);
}

#[test]
fn property_tags_follow_the_element_type() {
    assert_eq!(<i32 as PropertyTypeImpl>::get_type(), 2);
    assert_eq!(<u64 as PropertyTypeImpl>::get_type(), 3);
    assert_eq!(<bool as PropertyTypeImpl>::get_type(), 4);
    assert_eq!(array_property_tag::<i32>(), 2);
    assert_eq!(array_property_tag::<u64>(), 3);
    assert_eq!(array_property_tag::<bool>(), 4);
}

#[test]
fn array_byte_size_multiplies_length_and_item_size() {
    assert_eq!(array_byte_size(0, 8), Some(0));
    assert_eq!(array_byte_size(3, 8), Some(24));
    assert_eq!(array_byte_size(5, 1), Some(5));
    assert_eq!(array_byte_size(4, 48), Some(192));
    assert_eq!(array_byte_size(7, 0), Some(0));
    assert_eq!(array_byte_size(1_073_741_823, 4), Some(4_294_967_292));
    assert_eq!(array_byte_size(u32::MAX as usize, 1), Some(u32::MAX));
}

#[test]
fn array_byte_size_refuses_what_a_count_cannot_name() {
    assert_eq!(array_byte_size(1_073_741_824, 4), None);
    assert_eq!(array_byte_size(usize::MAX, 2), None);
    assert_eq!(array_byte_size(usize::MAX, usize::MAX), None);
    if usize::MAX as u128 > u32::MAX as u128 {
        assert_eq!(array_byte_size(u32::MAX as usize + 1, 1), None);
    }
}

#[test]
fn array_property_keeps_the_whole_items_on_success() {
    let mut buffer = vec![7i32, 8, 9, 0];
    assert_eq!(array_property_step(&mut buffer, 0, 12, 4, 0), Ok(true));
    assert_eq!(buffer, vec![7, 8, 9]);
    let mut wide = vec![1u64, 2, 3];
    assert_eq!(array_property_step(&mut wide, 0, 16, 8, 0), Ok(true));
    assert_eq!(wide, vec![1, 2]);
    let mut flags = vec![true, false, true];
    assert_eq!(array_property_step(&mut flags, 0, 2, 1, false), Ok(true));
    assert_eq!(flags, vec![true, false]);
}

#[test]
fn array_property_leaves_a_broken_item_out_on_success() {
    let mut wide = vec![1u64, 2, 3];
    assert_eq!(array_property_step(&mut wide, 0, 15, 8, 0), Ok(true));
    assert_eq!(wide, vec![1]);
    let mut none = vec![1u64, 2, 3];
    assert_eq!(array_property_step(&mut none, 0, 0, 8, 0), Ok(true));
    assert_eq!(none, Vec::<u64>::new());
}

#[test]
fn array_property_never_keeps_more_than_it_has() {
    let mut wide = vec![1u64, 2];
    assert_eq!(array_property_step(&mut wide, 0, 800, 8, 0), Ok(true));
    assert_eq!(wide, vec![1, 2]);
}

#[test]
fn array_property_grows_to_hold_the_reported_bytes() {
    let mut buffer: Vec<u64> = Vec::new();
    assert_eq!(array_property_step(&mut buffer, 3, 16, 8, 0), Ok(false));
    assert_eq!(buffer, vec![0, 0]);
    assert_eq!(array_byte_size(buffer.len(), 8), Some(16));
    let mut flags = vec![true];
    assert_eq!(array_property_step(&mut flags, 3, 3, 1, false), Ok(false));
    assert_eq!(flags, vec![true, false, false]);
}

#[test]
fn array_property_grows_by_a_whole_item_for_a_broken_one() {
    let mut buffer: Vec<i32> = vec![5];
    assert_eq!(array_property_step(&mut buffer, 3, 9, 4, -1), Ok(false));
    assert_eq!(buffer, vec![5, -1, -1]);
    let mut wide: Vec<u64> = Vec::new();
    assert_eq!(array_property_step(&mut wide, 3, 1, 8, 0), Ok(false));
    assert_eq!(wide, vec![0]);
}

#[test]
fn array_property_does_not_shrink_when_growing() {
    let mut buffer = vec![1u64, 2, 3];
    assert_eq!(array_property_step(&mut buffer, 3, 8, 8, 0), Ok(false));
    assert_eq!(buffer, vec![1, 2, 3]);
    assert_eq!(array_property_step(&mut buffer, 3, 0, 8, 0), Ok(false));
    assert_eq!(buffer, vec![1, 2, 3]);
}

#[test]
fn array_property_fails_on_any_other_code() {
    let mut buffer = vec![7i32];
    assert_eq!(array_property_step(&mut buffer, 4, 12, 4, 0), Err(TrackedPropertyError(4)));
    assert_eq!(buffer, vec![7]);
}

#[test]
fn string_property_starts_with_one_byte() {
    assert_eq!(string_property_buffer(), vec![0u8]);
}

#[test]
fn string_property_is_the_whole_buffer_on_success() {
    let mut buffer = b"lighthouse\0".to_vec();
    assert_eq!(string_property_step(&mut buffer, 0, 11), Ok(true));
    assert_eq!(buffer, b"lighthouse\0".to_vec());
}

#[test]
fn string_property_takes_a_fresh_buffer_on_buffer_too_small() {
    let mut buffer = vec![b'l'];
    assert_eq!(string_property_step(&mut buffer, 3, 11), Ok(false));
    assert_eq!(buffer, vec![0u8; 11]);
    assert_eq!(string_property_step(&mut buffer, 3, 2), Ok(false));
    assert_eq!(buffer, vec![0u8; 2]);
}

#[test]
fn string_property_fails_on_any_other_code() {
    let mut buffer = vec![0u8];
    assert_eq!(string_property_step(&mut buffer, 5, 11), Err(TrackedPropertyError(5)));
    assert_eq!(buffer, vec![0u8]);
}

#[test]
fn debug_response_keeps_the_reported_bytes() {
    assert_eq!(debug_response(b"ok\0garbage".to_vec(), 3), b"ok\0".to_vec());
    assert_eq!(debug_response(b"ok".to_vec(), 40), b"ok".to_vec());
}

#[test]
fn adapter_index_of_a_present_adapter() {
    assert_eq!(adapter_index(0), Some(0));
    assert_eq!(adapter_index(3), Some(3));
    assert_eq!(adapter_index(i32::MAX), Some(2_147_483_647));
}

#[test]
fn adapter_index_of_no_adapter() {
    assert_eq!(adapter_index(-1), None);
}

#[test]
fn adapter_index_reads_the_bits_unsigned() {
    assert_eq!(adapter_index(-2), Some(4_294_967_294));
    assert_eq!(adapter_index(i32::MIN), Some(2_147_483_648));
    assert_eq!(adapter_index(-2), Some(-2i32 as u32));
}

#[test]
fn pose_count_of_a_buffer() {
    assert_eq!(pose_count(0), Some(0));
    assert_eq!(pose_count(64), Some(64));
    assert_eq!(pose_count(u32::MAX as usize), Some(u32::MAX));
}

#[test]
fn pose_count_refuses_too_long_a_buffer() {
    if usize::MAX as u128 > u32::MAX as u128 {
        assert_eq!(pose_count(u32::MAX as usize + 1), None);
        assert_eq!(pose_count(usize::MAX), None);
    }
}

fn tag_of<T: PropertyType>() -> u32 {
    T::get_type()
}

#[test]
fn property_types_are_sealed_element_types() {
    assert_eq!(tag_of::<i32>(), 2);
    assert_eq!(tag_of::<u64>(), 3);
    assert_eq!(tag_of::<bool>(), 4);
}
