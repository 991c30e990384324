use rustos::isr::{
    ExceptionStackFrame, PageFaultErrorCode, CAUSED_BY_WRITE, INSTRUCTION_FETCH, MALFORMED_TABLE,
    PROTECTION_VIOLATION, USER_MODE,
};

#[test]
fn page_fault_code_known_bits() {
    let code = PageFaultErrorCode::from_bits(PROTECTION_VIOLATION | CAUSED_BY_WRITE).unwrap();
    assert_eq!(code.bits(), 3);
    let all = PROTECTION_VIOLATION | CAUSED_BY_WRITE | USER_MODE | MALFORMED_TABLE | INSTRUCTION_FETCH;
    assert_eq!(PageFaultErrorCode::from_bits(all).unwrap().bits(), 31);
    assert_eq!(PageFaultErrorCode::from_bits(0).unwrap().bits(), 0);
}

#[test]
fn page_fault_code_unknown_bits() {
    assert!(PageFaultErrorCode::from_bits(32).is_none());
    assert!(PageFaultErrorCode::from_bits(0x8000_0000_0000_0001).is_none());
    assert!(PageFaultErrorCode::from_bits(1 << 15).is_none());
}

#[test]
fn stack_frame_instruction_pointer() {
    let f = ExceptionStackFrame::new(0xdead_beef, 8, 0x202, 0x7000, 0x10);
    assert_eq!(f.instruction_pointer(), 0xdead_beef);
}
