use sbi_rs::error::error_from_code;
use sbi_rs::salus::EXT_SALUS_TEST;
use sbi_rs::{
    EcallMessage, Error, MemCopyArgs, SalusExtension, SalusSbiMessage, SalusTestFunction,
    SbiMessage, SbiReturn, VendorSbiMessage, EXT_PUT_CHAR, EXT_VENDOR_RANGE_END,
    EXT_VENDOR_RANGE_START,
};

fn slots_of<M: EcallMessage>(m: &M) -> [u64; 8] {
    [
        m.a0(),
        m.a1(),
        m.a2(),
        m.a3(),
        m.a4(),
        m.a5(),
        m.a6(),
        m.a7(),
    ]
}

#[test]
fn memcopy_frame_decodes_and_reencodes() {
    let args: [u64; 8] = [0x1000, 0x2000, 64, 0, 0, 0, 0, 0x09FF_FFFF];
    let decoded = SalusSbiMessage::from_regs(&args).unwrap();
    assert_eq!(
        decoded,
        VendorSbiMessage::Vendor(SalusExtension::SalusTest(SalusTestFunction::MemCopy(
            MemCopyArgs {
                to: 0x1000,
                from: 0x2000,
                len: 64,
            }
        )))
    );
    assert_eq!(slots_of(&decoded), args);
}

#[test]
fn unknown_salus_function_is_not_supported() {
    let args: [u64; 8] = [0, 0, 0, 0, 0, 0, 99, 0x09FF_FFFF];
    assert_eq!(SalusSbiMessage::from_regs(&args), Err(Error::NotSupported));
}

#[test]
fn unknown_salus_extension_id_is_not_supported() {
    let args: [u64; 8] = [0, 0, 0, 0, 0, 0, 0, EXT_VENDOR_RANGE_START];
    assert_eq!(SalusSbiMessage::from_regs(&args), Err(Error::NotSupported));
}

#[test]
fn just_below_vendor_range_goes_to_base_catalogue() {
    let args: [u64; 8] = [0, 0, 0, 0, 0, 0, 0, EXT_VENDOR_RANGE_START - 1];
    assert_eq!(SalusSbiMessage::from_regs(&args), Err(Error::NotSupported));
}

#[test]
fn unknown_base_extension_id_is_not_supported() {
    let args: [u64; 8] = [0, 0, 0, 0, 0, 0, 0, 0x02];
    assert_eq!(SalusSbiMessage::from_regs(&args), Err(Error::NotSupported));
}

#[test]
fn putchar_frame_decodes_and_reencodes() {
    let args: [u64; 8] = [65, 0, 0, 0, 0, 0, 0, EXT_PUT_CHAR];
    let decoded = SalusSbiMessage::from_regs(&args).unwrap();
    assert_eq!(decoded, VendorSbiMessage::Sbi(SbiMessage::PutChar(65)));
    assert_eq!(slots_of(&decoded), args);
}

#[test]
fn vendor_round_trip_from_constructed_value() {
    let v: SalusSbiMessage = VendorSbiMessage::Vendor(SalusExtension::SalusTest(
        SalusTestFunction::MemCopy(MemCopyArgs {
            to: 0xdead_0000,
            from: 0xbeef_0000,
            len: 4096,
        }),
    ));
    let frame = slots_of(&v);
    assert_eq!(frame[7], EXT_SALUS_TEST);
    assert_eq!(SalusSbiMessage::from_regs(&frame), Ok(v));
}

#[test]
fn base_round_trip_from_constructed_value() {
    let v: SalusSbiMessage = VendorSbiMessage::Sbi(SbiMessage::PutChar(b'!' as u64));
    let frame = slots_of(&v);
    assert_eq!(SalusSbiMessage::from_regs(&frame), Ok(v));
}

#[test]
fn vendor_range_end_is_salus_test_extension() {
    assert_eq!(EXT_SALUS_TEST, EXT_VENDOR_RANGE_END);
    assert!(EXT_VENDOR_RANGE_START <= EXT_SALUS_TEST);
}

#[test]
fn memcopy_slot_accessors() {
    let f = SalusTestFunction::MemCopy(MemCopyArgs {
        to: 1,
        from: 2,
        len: 3,
    });
    assert_eq!(f.a0(), 1);
    assert_eq!(f.a1(), 2);
    assert_eq!(f.a2(), 3);
    assert_eq!(f.a6(), 0);
    let e = SalusExtension::SalusTest(f);
    assert_eq!(e.a3(), 0);
    assert_eq!(e.a4(), 0);
    assert_eq!(e.a5(), 0);
    assert_eq!(e.a7(), EXT_SALUS_TEST);
}

#[test]
fn result_pair_zero_is_success() {
    let msg: SalusSbiMessage = VendorSbiMessage::Sbi(SbiMessage::PutChar(0));
    assert_eq!(msg.result(0, 42), Ok(42));
}

#[test]
fn result_pair_negative_one_is_failed() {
    let msg: SalusSbiMessage = VendorSbiMessage::Sbi(SbiMessage::PutChar(0));
    assert_eq!(msg.result((-1i64) as u64, 0), Err(Error::Failed));
}

#[test]
fn result_error_code_ignores_return_value() {
    let msg: SalusSbiMessage = VendorSbiMessage::Sbi(SbiMessage::PutChar(0));
    assert_eq!(msg.result((-2i64) as u64, 7777), Err(Error::NotSupported));
}

#[test]
fn sbi_return_decodes_success() {
    let ret = SbiReturn {
        error_code: 0,
        return_value: 99,
    };
    assert_eq!(ret.to_result(), Ok(99));
}

#[test]
fn sbi_return_decodes_each_error_kind() {
    assert_eq!(error_from_code(-1), Error::Failed);
    assert_eq!(error_from_code(-2), Error::NotSupported);
    assert_eq!(error_from_code(-3), Error::InvalidParam);
    assert_eq!(error_from_code(-4), Error::Denied);
    assert_eq!(error_from_code(-5), Error::InvalidAddress);
    assert_eq!(error_from_code(-100), Error::UnknownSbiError(-100));
    assert_eq!(error_from_code(17), Error::UnknownSbiError(17));
}
