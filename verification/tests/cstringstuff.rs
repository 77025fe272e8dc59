use opencubes::cstringstuff::{
    clone_name, contains_name, i8_slice_to_cstring, name_from_str, names_equal,
};

#[test]
fn name_ends_at_the_first_zero() {
    let buffer: Vec<i8> = vec![72, 105, 0, 33, 0];
    assert_eq!(i8_slice_to_cstring(&buffer), b"Hi".to_vec());
}

#[test]
fn name_without_zero_is_the_whole_buffer() {
    let buffer: Vec<i8> = vec![86, 75];
    assert_eq!(i8_slice_to_cstring(&buffer), b"VK".to_vec());
}

#[test]
fn empty_buffer_is_the_empty_name() {
    let buffer: Vec<i8> = Vec::new();
    assert_eq!(i8_slice_to_cstring(&buffer), Vec::<u8>::new());
    let buffer: Vec<i8> = vec![0, 65];
    assert_eq!(i8_slice_to_cstring(&buffer), Vec::<u8>::new());
}

#[test]
fn negative_bytes_are_reread_as_unsigned() {
    let buffer: Vec<i8> = vec![-1, -128, 127, 0];
    assert_eq!(i8_slice_to_cstring(&buffer), vec![255u8, 128, 127]);
}

#[test]
fn names_are_equal_byte_for_byte() {
    assert!(names_equal(&b"VK_KHR_swapchain".to_vec(), &b"VK_KHR_swapchain".to_vec()));
    assert!(!names_equal(&b"VK_KHR_swapchain".to_vec(), &b"VK_KHR_swapchaim".to_vec()));
    assert!(!names_equal(&b"VK_KHR_swapchain".to_vec(), &b"VK_KHR_swapchai".to_vec()));
    assert!(!names_equal(&b"".to_vec(), &b"a".to_vec()));
    assert!(names_equal(&b"".to_vec(), &b"".to_vec()));
}

#[test]
fn a_list_contains_its_names_only() {
    let list = vec![b"one".to_vec(), b"two".to_vec()];
    assert!(contains_name(&list, &b"one".to_vec()));
    assert!(contains_name(&list, &b"two".to_vec()));
    assert!(!contains_name(&list, &b"three".to_vec()));
    assert!(!contains_name(&Vec::new(), &b"one".to_vec()));
}

#[test]
fn a_cloned_name_is_the_same_name() {
    assert_eq!(clone_name(&b"main".to_vec()), b"main".to_vec());
}

#[test]
fn a_name_from_text_is_its_bytes() {
    assert_eq!(name_from_str("VK_EXT_debug_utils"), b"VK_EXT_debug_utils".to_vec());
    assert_eq!(name_from_str(""), Vec::<u8>::new());
}
