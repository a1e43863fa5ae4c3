use blink_rs::{usart0, Access, RegisterBank, USARTCharSize, USARTMode, USARTStopBit};

fn write(address: u8, value: u8) -> Access {
    Access::Write { address, value }
}

#[test]
fn commit_of_starting_settings() {
    let mut io = RegisterBank::new();
    let usart = usart0().take();
    let usart = usart.set_clockrate_hz_and_baudrate(16_000_000, 9600).unwrap();
    let driver = usart.initialize(&mut io);
    assert_eq!(
        io.log(),
        vec![write(0xC4, 103), write(0xC5, 0), write(0xC2, 14), write(0xC1, 8)]
    );
    assert_eq!(io.peek(0xC4), 103);
    assert_eq!(io.peek(0xC5), 0);
    assert_eq!(io.peek(0xC2), 14);
    assert_eq!(io.peek(0xC1), 8);
    assert_eq!(driver.baudrate_scaler(), 103);
    assert_eq!(driver.clockrate_hz(), 16_000_000);
}

#[test]
fn commit_splits_divisor_into_bytes() {
    let mut io = RegisterBank::new();
    let usart = usart0().take().set_clockrate_hz_and_baudrate(16 * 4096, 1).unwrap();
    usart.initialize(&mut io);
    assert_eq!(io.log()[0], write(0xC4, 0xFF));
    assert_eq!(io.log()[1], write(0xC5, 0x0F));
}

#[test]
fn commit_frame_and_mode() {
    let mut io = RegisterBank::new();
    let usart = usart0()
        .take()
        .stop_bit_select(USARTStopBit::One)
        .char_size(USARTCharSize::SevenBit)
        .set_mode(USARTMode::Receive);
    usart.initialize(&mut io);
    assert_eq!(
        io.log(),
        vec![write(0xC4, 103), write(0xC5, 0), write(0xC2, 4), write(0xC1, 16)]
    );
}

#[test]
fn commit_touches_no_other_cell() {
    let mut io = RegisterBank::new();
    usart0().take().initialize(&mut io);
    for address in 0..=255u8 {
        if ![0xC4, 0xC5, 0xC2, 0xC1].contains(&address) {
            assert_eq!(io.peek(address), 0);
        }
    }
    assert_eq!(io.log().len(), 4);
}
