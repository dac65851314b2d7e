use hyper_line::status::{i32_bit_mask, Status};

#[test]
fn bit_mask_of_the_code_bits() {
    assert_eq!(i32_bit_mask(0, 9), 1023);
    assert_eq!(i32_bit_mask(0, 9), Status::STATUS_CODE_BITMASK);
}

#[test]
fn bit_mask_ranges() {
    assert_eq!(i32_bit_mask(3, 5), 0b111000);
    assert_eq!(i32_bit_mask(4, 4), 16);
    assert_eq!(i32_bit_mask(10, 14), Status::LIFECYCLE_FLAGS);
    assert_eq!(i32_bit_mask(0, 31), -1);
    assert_eq!(i32_bit_mask(31, 31), i32::MIN);
    assert_eq!(i32_bit_mask(1, 31), -2);
}

#[test]
fn flag_queries() {
    let s = Status(200 | Status::INPUT_CONSUMED);
    assert!(s.any_flags(Status(Status::INPUT_CONSUMED | Status::OUTPUT_CONSUMED)));
    assert!(!s.all_flags(Status(Status::INPUT_CONSUMED | Status::OUTPUT_CONSUMED)));
    assert!(!s.all_flags(Status(Status::INPUT_CONSUMED)));
    assert!(s.all_flags(Status(Status::OUTPUT_CONSUMED)));
    assert!(Status(0).all_flags(Status(1)));
    assert!(s.any_flags_clear(Status(Status::INPUT_CONSUMED | Status::OUTPUT_CONSUMED)));
    assert!(!s.any_flags_clear(Status(Status::INPUT_CONSUMED)));
    assert!(s.all_flags_clear(Status(Status::OUTPUT_CONSUMED)));
    assert!(!s.all_flags_clear(Status(Status::INPUT_CONSUMED)));
    assert_eq!(s.response_code(), 200);
}

#[test]
fn status_operators() {
    let mut s = Status(200);
    s |= Status(Status::OUTPUT_BUFFERED);
    assert_eq!(s.0, 200 | 0x10000);
    s &= Status(Status::STATUS_CODE_BITMASK);
    assert_eq!(s.0, 200);
    assert!((s | Status(Status::INPUT_BUFFERED)) == Status(200 | 0x8000));
    assert_eq!((s & Status(8)).0, 8);
    assert_eq!((!s).0, !200);
    assert_eq!(s.with_code(404).0, 404);
}
