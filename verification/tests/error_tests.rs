use nrf_softdevice::error::NRF_SUCCESS;
use nrf_softdevice::RawError;

#[test]
fn convert_success_is_ok() {
    assert_eq!(RawError::convert(NRF_SUCCESS), Ok(()));
}

#[test]
fn convert_generic_codes() {
    assert_eq!(RawError::convert(1), Err(RawError::SvcHandlerMissing));
    assert_eq!(RawError::convert(2), Err(RawError::SoftdeviceNotEnabled));
    assert_eq!(RawError::convert(3), Err(RawError::Internal));
    assert_eq!(RawError::convert(4), Err(RawError::NoMem));
    assert_eq!(RawError::convert(5), Err(RawError::NotFound));
    assert_eq!(RawError::convert(6), Err(RawError::NotSupported));
    assert_eq!(RawError::convert(7), Err(RawError::InvalidParam));
    assert_eq!(RawError::convert(8), Err(RawError::InvalidState));
    assert_eq!(RawError::convert(9), Err(RawError::InvalidLength));
    assert_eq!(RawError::convert(10), Err(RawError::InvalidFlags));
    assert_eq!(RawError::convert(11), Err(RawError::InvalidData));
    assert_eq!(RawError::convert(12), Err(RawError::DataSize));
    assert_eq!(RawError::convert(13), Err(RawError::Timeout));
    assert_eq!(RawError::convert(14), Err(RawError::Null));
    assert_eq!(RawError::convert(15), Err(RawError::Forbidden));
    assert_eq!(RawError::convert(16), Err(RawError::InvalidAddr));
    assert_eq!(RawError::convert(17), Err(RawError::Busy));
    assert_eq!(RawError::convert(18), Err(RawError::ConnCount));
    assert_eq!(RawError::convert(19), Err(RawError::Resources));
}

#[test]
fn convert_module_specific_codes_keep_the_code() {
    assert_eq!(RawError::convert(20), Err(RawError::Other(20)));
    assert_eq!(RawError::convert(0x4015), Err(RawError::Other(0x4015)));
    assert_eq!(RawError::convert(0xFFFF_FFFF), Err(RawError::Other(0xFFFF_FFFF)));
}

#[test]
fn code_round_trip() {
    for code in 1u32..=300 {
        assert_eq!(RawError::from_code(code).code(), code);
    }
    assert_eq!(RawError::from_code(0x3001).code(), 0x3001);
    assert_eq!(RawError::NoMem.code(), 4);
    assert_eq!(RawError::from_code(RawError::Busy.code()), RawError::Busy);
}
