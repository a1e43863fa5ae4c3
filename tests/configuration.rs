use blink_rs::{usart0, IncompatibleSettings, USARTCharSize, USARTMode, USARTStopBit};

#[test]
fn starting_settings() {
    let mut peripheral = usart0();
    assert!(peripheral.is_present());
    let usart = peripheral.take();
    assert_eq!(usart.clockrate_hz(), 16_000_000);
    assert_eq!(usart.baudrate_scaler(), 103);
    assert_eq!(usart.stop_bits(), USARTStopBit::Two);
    assert_eq!(usart.character_size(), USARTCharSize::EightBit);
    assert_eq!(usart.mode(), USARTMode::Transmit);
}

#[test]
fn take_leaves_container_empty() {
    let mut peripheral = usart0();
    let _usart = peripheral.take();
    assert!(!peripheral.is_present());
}

#[test]
fn divisor_for_9600_baud_at_16_mhz() {
    let usart = usart0().take();
    let usart = usart.set_clockrate_hz_and_baudrate(16_000_000, 9600).unwrap();
    assert_eq!(usart.clockrate_hz(), 16_000_000);
    assert_eq!(usart.baudrate_scaler(), 103);
}

#[test]
fn divisor_is_rounded_down() {
    // 16_000_000 / (16 * 115_200) = 8.68..., so the divisor is 8 - 1.
    let usart = usart0().take();
    let usart = usart.set_clockrate_hz_and_baudrate(16_000_000, 115_200).unwrap();
    assert_eq!(usart.baudrate_scaler(), 7);
}

#[test]
fn divisor_changes_clock_rate_too() {
    let usart = usart0().take();
    let usart = usart.set_clockrate_hz_and_baudrate(8_000_000, 4800).unwrap();
    assert_eq!(usart.clockrate_hz(), 8_000_000);
    assert_eq!(usart.baudrate_scaler(), 103);
}

#[test]
fn largest_divisor_is_accepted() {
    let usart = usart0().take();
    let usart = usart.set_clockrate_hz_and_baudrate(16 * 4096, 1).unwrap();
    assert_eq!(usart.baudrate_scaler(), 4095);
}

#[test]
fn divisor_above_field_is_refused() {
    let usart = usart0().take();
    let result = usart.set_clockrate_hz_and_baudrate(16 * 4097, 1);
    assert_eq!(result.err(), Some(IncompatibleSettings));
}

#[test]
fn zero_divisor_is_accepted() {
    let usart = usart0().take();
    let usart = usart.set_clockrate_hz_and_baudrate(16 * 9600, 9600).unwrap();
    assert_eq!(usart.baudrate_scaler(), 0);
    assert_eq!(usart.clockrate_hz(), 153_600);
}

#[test]
fn baud_rate_above_clock_sixteenth_is_refused() {
    let usart = usart0().take();
    let result = usart.set_clockrate_hz_and_baudrate(16 * 9600 - 1, 9600);
    assert_eq!(result.err(), Some(IncompatibleSettings));
}

#[test]
fn huge_baud_rate_is_refused() {
    let usart = usart0().take();
    let result = usart.set_clockrate_hz_and_baudrate(u32::MAX, u32::MAX);
    assert_eq!(result.err(), Some(IncompatibleSettings));
}

#[test]
fn error_message() {
    assert_eq!(IncompatibleSettings.message(), "incompatible settings");
}

#[test]
fn stop_bits_and_char_size_in_either_order() {
    let first = usart0()
        .take()
        .stop_bit_select(USARTStopBit::One)
        .char_size(USARTCharSize::SixBit);
    let second = usart0()
        .take()
        .char_size(USARTCharSize::SixBit)
        .stop_bit_select(USARTStopBit::One);
    assert_eq!(first.stop_bits(), second.stop_bits());
    assert_eq!(first.character_size(), second.character_size());
    assert_eq!(first.mode(), second.mode());
    assert_eq!(first.clockrate_hz(), second.clockrate_hz());
    assert_eq!(first.baudrate_scaler(), second.baudrate_scaler());
    assert_eq!(first.stop_bits(), USARTStopBit::One);
    assert_eq!(first.character_size(), USARTCharSize::SixBit);
}

#[test]
fn set_mode_changes_only_mode() {
    let usart = usart0().take().set_mode(USARTMode::TransmitAndReceive);
    assert_eq!(usart.mode(), USARTMode::TransmitAndReceive);
    assert_eq!(usart.stop_bits(), USARTStopBit::Two);
    assert_eq!(usart.character_size(), USARTCharSize::EightBit);
    assert_eq!(usart.baudrate_scaler(), 103);
}

#[test]
fn selector_encodings() {
    assert_eq!(USARTStopBit::One.bits(), 0);
    assert_eq!(USARTStopBit::Two.bits(), 8);
    assert_eq!(USARTCharSize::FiveBit.bits(), 0);
    assert_eq!(USARTCharSize::SixBit.bits(), 2);
    assert_eq!(USARTCharSize::SevenBit.bits(), 4);
    assert_eq!(USARTCharSize::EightBit.bits(), 6);
    assert_eq!(USARTMode::Disabled.bits(), 0);
    assert_eq!(USARTMode::Transmit.bits(), 8);
    assert_eq!(USARTMode::Receive.bits(), 16);
    assert_eq!(USARTMode::TransmitAndReceive.bits(), 24);
}
