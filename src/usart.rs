use vstd::prelude::*;
use vstd::string::StringSliceAdditionalSpecFns;

use core::marker::PhantomData;

use crate::peripheral::Peripheral;
use crate::register::{Access, BankState, Register, RegisterBank, IO_SPACE_SIZE};

verus! {

/// Address of the data register: a byte written here is sent.
pub const DATA_ADDRESS: u8 = 0xC6;

/// Address of the low byte of the baud-rate divisor.
pub const BAUD_LOW_ADDRESS: u8 = 0xC4;

/// Address of the high byte of the baud-rate divisor.
pub const BAUD_HIGH_ADDRESS: u8 = 0xC5;

/// Address of the status register, which holds the ready flag.
pub const STATUS_ADDRESS: u8 = 0xC0;

/// Address of the control register that takes the mode selector.
pub const MODE_ADDRESS: u8 = 0xC1;

/// Address of the control register that takes the frame format.
pub const FRAME_ADDRESS: u8 = 0xC2;

/// The status bit that is set while the transmitter can take a byte.
pub const READY_BIT: u8 = 0b0001_0000;

/// The largest divisor the hardware's divisor field can hold.
pub const MAX_DIVISOR: u64 = 4095;

/// Clock rate the peripheral starts out with.
pub const DEFAULT_CLOCKRATE_HZ: u32 = 16_000_000;

/// Divisor the peripheral starts out with: 9600 baud at the default clock rate.
pub const DEFAULT_BAUDRATE_SCALER: u16 = 103;

/// How many stop bits end each frame.
#[derive(Clone, Copy, Debug, PartialEq, Eq, Structural)]
pub enum USARTStopBit {
    One,
    Two,
}

impl USARTStopBit {
    pub open spec fn spec_bits(self) -> u8 {
        match self {
            USARTStopBit::One => 0,
            USARTStopBit::Two => 8,
        }
    }

    /// The selector's encoding in the frame-format register.
    #[verifier::when_used_as_spec(spec_bits)]
    pub fn bits(self) -> (r: u8)
        ensures
            r == self.spec_bits(),
    {
        match self {
            USARTStopBit::One => 0,
            USARTStopBit::Two => 8,
        }
    }
}

/// How many data bits each frame carries.
#[derive(Clone, Copy, Debug, PartialEq, Eq, Structural)]
pub enum USARTCharSize {
    FiveBit,
    SixBit,
    SevenBit,
    EightBit,
}

impl USARTCharSize {
    pub open spec fn spec_bits(self) -> u8 {
        match self {
            USARTCharSize::FiveBit => 0,
            USARTCharSize::SixBit => 2,
            USARTCharSize::SevenBit => 4,
            USARTCharSize::EightBit => 6,
        }
    }

    /// The selector's encoding in the frame-format register.
    #[verifier::when_used_as_spec(spec_bits)]
    pub fn bits(self) -> (r: u8)
        ensures
            r == self.spec_bits(),
    {
        match self {
            USARTCharSize::FiveBit => 0,
            USARTCharSize::SixBit => 2,
            USARTCharSize::SevenBit => 4,
            USARTCharSize::EightBit => 6,
        }
    }
}

/// Which directions the peripheral works in.
#[derive(Clone, Copy, Debug, PartialEq, Eq, Structural)]
pub enum USARTMode {
    Disabled,
    Transmit,
    Receive,
    TransmitAndReceive,
}

impl USARTMode {
    pub open spec fn spec_bits(self) -> u8 {
        match self {
            USARTMode::Disabled => 0,
            USARTMode::Transmit => 8,
            USARTMode::Receive => 16,
            USARTMode::TransmitAndReceive => 24,
        }
    }

    /// The selector's encoding in the mode register.
    #[verifier::when_used_as_spec(spec_bits)]
    pub fn bits(self) -> (r: u8)
        ensures
            r == self.spec_bits(),
    {
        match self {
            USARTMode::Disabled => 0,
            USARTMode::Transmit => 8,
            USARTMode::Receive => 16,
            USARTMode::TransmitAndReceive => 24,
        }
    }
}

/// Marks a driver whose settings have not reached the hardware yet.
pub struct Unitialized;

/// Marks a driver whose settings have been written to the hardware.
pub struct Initialized;

/// The settings a driver carries.
pub ghost struct Settings {
    pub clockrate_hz: u32,
    pub baudrate_scaler: u16,
    pub stop_bit: USARTStopBit,
    pub char_size: USARTCharSize,
    pub mode: USARTMode,
}

impl Settings {
    pub open spec fn with_clock(self, clockrate_hz: u32, baudrate_scaler: u16) -> Settings {
        Settings { clockrate_hz, baudrate_scaler, ..self }
    }

    pub open spec fn with_stop_bit(self, stop_bit: USARTStopBit) -> Settings {
        Settings { stop_bit, ..self }
    }

    pub open spec fn with_char_size(self, char_size: USARTCharSize) -> Settings {
        Settings { char_size, ..self }
    }

    pub open spec fn with_mode(self, mode: USARTMode) -> Settings {
        Settings { mode, ..self }
    }
}

/// The divisor for a clock rate and a baud rate, before any range check.
pub open spec fn divisor_for(clockrate_hz: nat, baudrate: nat) -> int {
    (clockrate_hz / (16 * baudrate)) as int - 1
}

/// The hardware can run at `baudrate` from `clockrate_hz`: the division leaves
/// at least one, and the divisor fits its field.
pub open spec fn compatible(clockrate_hz: nat, baudrate: nat) -> bool {
    &&& 16 * baudrate <= clockrate_hz
    &&& divisor_for(clockrate_hz, baudrate) <= MAX_DIVISOR
}

/// The frame-format register's value: the two selectors occupy distinct bits.
pub open spec fn frame_format(stop_bit: USARTStopBit, char_size: USARTCharSize) -> u8 {
    (stop_bit.spec_bits() + char_size.spec_bits()) as u8
}

/// The writes that commit `s` to the hardware, in order.
pub open spec fn commit_writes(s: Settings) -> Seq<Access> {
    seq![
        Access::Write { address: BAUD_LOW_ADDRESS, value: (s.baudrate_scaler % 256) as u8 },
        Access::Write { address: BAUD_HIGH_ADDRESS, value: (s.baudrate_scaler / 256) as u8 },
        Access::Write { address: FRAME_ADDRESS, value: frame_format(s.stop_bit, s.char_size) },
        Access::Write { address: MODE_ADDRESS, value: s.mode.spec_bits() },
    ]
}

/// The cells after the writes of `commit_writes(s)`.
pub open spec fn committed_cells(cells: Seq<u8>, s: Settings) -> Seq<u8> {
    cells.update(BAUD_LOW_ADDRESS as int, (s.baudrate_scaler % 256) as u8).update(
        BAUD_HIGH_ADDRESS as int,
        (s.baudrate_scaler / 256) as u8,
    ).update(FRAME_ADDRESS as int, frame_format(s.stop_bit, s.char_size)).update(
        MODE_ADDRESS as int,
        s.mode.spec_bits(),
    )
}

/// The transmitter reports that it can take a byte.
pub open spec fn is_ready(status: u8) -> bool {
    status & READY_BIT != 0
}

/// Some value among `values` reports ready.
pub open spec fn ready_among(values: Seq<u8>) -> bool
    decreases values.len(),
{
    values.len() > 0 && (is_ready(values[0]) || ready_among(values.drop_first()))
}

/// Polling the status register of `s` comes to an end: a value lined up for
/// it reports ready or, with none lined up, its cell does. Once the queue is
/// used up the cell keeps the last value read, so every later read repeats it.
pub open spec fn will_be_ready(s: BankState) -> bool {
    if s.feeds[STATUS_ADDRESS as int].len() > 0 {
        ready_among(s.feeds[STATUS_ADDRESS as int])
    } else {
        is_ready(s.cells[STATUS_ADDRESS as int])
    }
}

/// The state after polling the status register until a read reports ready:
/// one read for each value up to and including the first ready one. It is
/// meant where `will_be_ready(s)`.
pub open spec fn after_wait(s: BankState) -> BankState
    decreases s.feeds[STATUS_ADDRESS as int].len(),
{
    let polled = s.after_read(STATUS_ADDRESS);
    if !s.wf() || is_ready(s.next_value(STATUS_ADDRESS)) || s.feeds[STATUS_ADDRESS as int].len()
        == 0 {
        polled
    } else {
        after_wait(polled)
    }
}

/// The state after sending `byte`: the wait for ready, then one write of the
/// byte to the data register.
pub open spec fn after_send(s: BankState, byte: u8) -> BankState {
    after_wait(s).after_write(DATA_ADDRESS, byte)
}

/// Each byte of `bytes` can be sent from `s`, one after the other: before
/// each, the transmitter comes to report ready.
pub open spec fn can_send(s: BankState, bytes: Seq<u8>) -> bool
    decreases bytes.len(),
{
    bytes.len() > 0 ==> {
        &&& will_be_ready(s)
        &&& can_send(after_send(s, bytes[0]), bytes.drop_first())
    }
}

/// The state after sending each byte of `bytes` in order.
pub open spec fn after_sending(s: BankState, bytes: Seq<u8>) -> BankState
    decreases bytes.len(),
{
    if bytes.len() == 0 {
        s
    } else {
        after_sending(after_send(s, bytes[0]), bytes.drop_first())
    }
}

/// A settings value was refused: the hardware cannot produce that baud rate
/// from that clock rate.
#[derive(Clone, Copy, Debug, PartialEq, Eq, Structural)]
pub struct IncompatibleSettings;

impl IncompatibleSettings {
    /// A short description of the error.
    pub fn message(&self) -> (r: &'static str)
        ensures
            r@ == "incompatible settings"@,
    {
        "incompatible settings"
    }
}

/// The serial transmitter, with its registers and settings. `State` is
/// `Unitialized` while it is being configured and `Initialized` once its
/// settings have been written to the hardware; only then can it send.
pub struct USART<State> {
    udrn: Register,
    ubrrnl: Register,
    ubrrnh: Register,
    ucsrna: Register,
    ucsrnb: Register,
    ucsrnc: Register,
    clockrate_hz: u32,
    baudrate_scaler: u16,
    stop_bit_select: USARTStopBit,
    char_size: USARTCharSize,
    mode: USARTMode,
    state: PhantomData<State>,
}

impl<State> View for USART<State> {
    type V = Settings;

    closed spec fn view(&self) -> Settings {
        Settings {
            clockrate_hz: self.clockrate_hz,
            baudrate_scaler: self.baudrate_scaler,
            stop_bit: self.stop_bit_select,
            char_size: self.char_size,
            mode: self.mode,
        }
    }
}

impl<State> USART<State> {
    /// The registers sit at their fixed addresses, and the divisor fits its field.
    #[verifier::type_invariant]
    closed spec fn inv(&self) -> bool {
        &&& self.udrn.spec_address() == DATA_ADDRESS
        &&& self.ubrrnl.spec_address() == BAUD_LOW_ADDRESS
        &&& self.ubrrnh.spec_address() == BAUD_HIGH_ADDRESS
        &&& self.ucsrna.spec_address() == STATUS_ADDRESS
        &&& self.ucsrnb.spec_address() == MODE_ADDRESS
        &&& self.ucsrnc.spec_address() == FRAME_ADDRESS
        &&& self.baudrate_scaler <= MAX_DIVISOR
    }
}

/// A new container holding a driver for the serial peripheral, with its
/// starting settings: 16 MHz clock, divisor 103, two stop bits, eight data
/// bits, transmit only. Each call makes a fresh container over the same
/// hardware registers, so a program calls this once and keeps the container
/// as its single point of ownership.
pub fn usart0() -> (r: Peripheral<USART<Unitialized>>)
    ensures
        r@ is Some,
        r@->Some_0@ == (Settings {
            clockrate_hz: DEFAULT_CLOCKRATE_HZ,
            baudrate_scaler: DEFAULT_BAUDRATE_SCALER,
            stop_bit: USARTStopBit::Two,
            char_size: USARTCharSize::EightBit,
            mode: USARTMode::Transmit,
        }),
{
    Peripheral::new(
        USART {
            udrn: Register::from(DATA_ADDRESS),
            ubrrnl: Register::from(BAUD_LOW_ADDRESS),
            ubrrnh: Register::from(BAUD_HIGH_ADDRESS),
            ucsrna: Register::from(STATUS_ADDRESS),
            ucsrnb: Register::from(MODE_ADDRESS),
            ucsrnc: Register::from(FRAME_ADDRESS),
            clockrate_hz: DEFAULT_CLOCKRATE_HZ,
            baudrate_scaler: DEFAULT_BAUDRATE_SCALER,
            stop_bit_select: USARTStopBit::Two,
            char_size: USARTCharSize::EightBit,
            mode: USARTMode::Transmit,
            state: PhantomData,
        },
    )
}

impl USART<Unitialized> {
    /// Sets the clock rate and derives the divisor for `baudrate` from it:
    /// `clockrate_hz / (16 * baudrate) - 1`, rounded down. Refused when the
    /// division gives zero or the divisor exceeds its field.
    pub fn set_clockrate_hz_and_baudrate(self, clockrate_hz: u32, baudrate: u32) -> (r: Result<
        Self,
        IncompatibleSettings,
    >)
        requires
            clockrate_hz > 0,
            baudrate > 0,
        ensures
            r is Ok <==> compatible(clockrate_hz as nat, baudrate as nat),
            r is Ok ==> r->Ok_0@ == self@.with_clock(
                clockrate_hz,
                divisor_for(clockrate_hz as nat, baudrate as nat) as u16,
            ),
    {
        proof {
            use_type_invariant(&self);
        }
        let scale: u64 = 16 * (baudrate as u64);
        if scale > clockrate_hz as u64 {
            return Err(IncompatibleSettings);
        }
        let quotient: u64 = clockrate_hz as u64 / scale;
        assert(quotient >= 1) by (nonlinear_arith)
            requires
                quotient == clockrate_hz as u64 / scale,
                0 < scale <= clockrate_hz,
        ;
        let baudrate_scaler: u64 = quotient - 1;
        if baudrate_scaler > MAX_DIVISOR {
            Err(IncompatibleSettings)
        } else {
            let mut next = self;
            next.clockrate_hz = clockrate_hz;
            next.baudrate_scaler = baudrate_scaler as u16;
            Ok(next)
        }
    }

    /// Chooses how many stop bits end each frame.
    pub fn stop_bit_select(self, stop_bit: USARTStopBit) -> (r: Self)
        ensures
            r@ == self@.with_stop_bit(stop_bit),
    {
        proof {
            use_type_invariant(&self);
        }
        let mut next = self;
        next.stop_bit_select = stop_bit;
        next
    }

    /// Chooses how many data bits each frame carries.
    pub fn char_size(self, char_size: USARTCharSize) -> (r: Self)
        ensures
            r@ == self@.with_char_size(char_size),
    {
        proof {
            use_type_invariant(&self);
        }
        let mut next = self;
        next.char_size = char_size;
        next
    }

    /// Chooses the directions the peripheral works in.
    pub fn set_mode(self, mode: USARTMode) -> (r: Self)
        ensures
            r@ == self@.with_mode(mode),
    {
        proof {
            use_type_invariant(&self);
        }
        let mut next = self;
        next.mode = mode;
        next
    }

    /// Writes the settings to the hardware, in this order: the divisor's low
    /// byte, its high byte, the frame format (stop bits and character size),
    /// the mode. Nothing else is accessed.
    pub fn initialize(self, io: &mut RegisterBank) -> (r: USART<Initialized>)
        requires
            old(io).wf(),
        ensures
            r@ == self@,
            final(io).wf(),
            final(io)@.log == old(io)@.log + commit_writes(self@),
            final(io)@.cells == committed_cells(old(io)@.cells, self@),
            final(io)@.feeds == old(io)@.feeds,
    {
        proof {
            use_type_invariant(&self);
        }
        let USART {
            udrn,
            ubrrnl,
            ubrrnh,
            ucsrna,
            ucsrnb,
            ucsrnc,
            clockrate_hz,
            baudrate_scaler,
            stop_bit_select,
            char_size,
            mode,
            state: _,
        } = self;
        let low: u8 = (baudrate_scaler % 256) as u8;
        let high: u8 = (baudrate_scaler / 256) as u8;
        let frame: u8 = stop_bit_select.bits() + char_size.bits();

        ubrrnl.write(io, low);
        ubrrnh.write(io, high);
        ucsrnc.write(io, frame);
        ucsrnb.write(io, mode.bits());
        assert(io@.log =~= old(io)@.log + commit_writes(self@));

        USART {
            udrn,
            ubrrnl,
            ubrrnh,
            ucsrna,
            ucsrnb,
            ucsrnc,
            clockrate_hz,
            baudrate_scaler,
            stop_bit_select,
            char_size,
            mode,
            state: PhantomData,
        }
    }
}

impl USART<Initialized> {
    /// Waits until the status register reports ready, polling it, then writes
    /// `byte` to the data register. On a transmitter that never reports ready
    /// the wait would never end: that is excluded here.
    fn transmit_byte(&mut self, io: &mut RegisterBank, byte: u8)
        requires
            old(io).wf(),
            will_be_ready(old(io)@),
        ensures
            *final(self) == *old(self),
            final(io).wf(),
            final(io)@ == after_send(old(io)@, byte),
    {
        proof {
            use_type_invariant(&*self);
        }
        loop
            invariant_except_break
                will_be_ready(io@),
                after_wait(io@) == after_wait(old(io)@),
            invariant
                io.wf(),
                self.ucsrna.spec_address() == STATUS_ADDRESS,
                self.udrn.spec_address() == DATA_ADDRESS,
            ensures
                io@ == after_wait(old(io)@),
            decreases io@.feeds[STATUS_ADDRESS as int].len(),
        {
            let ghost before = io@;
            let status = self.ucsrna.read(io);
            if status & READY_BIT != 0 {
                break;
            }
            proof {
                let queue = before.feeds[STATUS_ADDRESS as int];
                assert(queue.len() > 0);
                assert(io@.feeds[STATUS_ADDRESS as int] == queue.drop_first());
                assert(ready_among(queue.drop_first()));
            }
        }
        self.udrn.write(io, byte);
    }

    /// Sends each byte of `string`'s UTF-8 encoding in order, each once its
    /// own poll of the status register has reported ready. An empty string
    /// makes no access.
    pub fn transmit_string(&mut self, io: &mut RegisterBank, string: &str)
        requires
            old(io).wf(),
            can_send(old(io)@, string.spec_bytes()),
        ensures
            *final(self) == *old(self),
            final(io).wf(),
            final(io)@ == after_sending(old(io)@, string.spec_bytes()),
    {
        let bytes = string.as_bytes();
        let mut i: usize = 0;
        assert(bytes@.skip(0) =~= bytes@);
        while i < bytes.len()
            invariant
                i <= bytes@.len(),
                bytes@ == string.spec_bytes(),
                *self == *old(self),
                io.wf(),
                can_send(io@, bytes@.skip(i as int)),
                after_sending(io@, bytes@.skip(i as int)) == after_sending(old(io)@, bytes@),
            decreases bytes@.len() - i,
        {
            let ghost rest = bytes@.skip(i as int);
            assert(rest[0] == bytes@[i as int]);
            assert(rest.drop_first() =~= bytes@.skip(i + 1));
            self.transmit_byte(io, bytes[i]);
            i = i + 1;
        }
        assert(bytes@.skip(i as int) =~= Seq::<u8>::empty());
    }
}

impl<State> USART<State> {
    /// The clock rate the divisor was derived from.
    pub fn clockrate_hz(&self) -> (r: u32)
        ensures
            r == self@.clockrate_hz,
    {
        self.clockrate_hz
    }

    /// The baud-rate divisor.
    pub fn baudrate_scaler(&self) -> (r: u16)
        ensures
            r == self@.baudrate_scaler,
            r <= MAX_DIVISOR,
    {
        proof {
            use_type_invariant(self);
        }
        self.baudrate_scaler
    }

    /// The stop-bit selection.
    pub fn stop_bits(&self) -> (r: USARTStopBit)
        ensures
            r == self@.stop_bit,
    {
        self.stop_bit_select
    }

    /// The character-size selection.
    pub fn character_size(&self) -> (r: USARTCharSize)
        ensures
            r == self@.char_size,
    {
        self.char_size
    }

    /// The mode selection.
    pub fn mode(&self) -> (r: USARTMode)
        ensures
            r == self@.mode,
    {
        self.mode
    }
}

/// Choosing the stop bits and the character size gives the same settings in
/// either order.
pub proof fn stop_bit_and_char_size_commute(
    s: Settings,
    stop_bit: USARTStopBit,
    char_size: USARTCharSize,
)
    ensures
        s.with_stop_bit(stop_bit).with_char_size(char_size) == s.with_char_size(
            char_size,
        ).with_stop_bit(stop_bit),
{
}

/// The frame-format value is the sum of the two selectors' encodings, which
/// occupy distinct bits, so both can be read back from it.
pub proof fn frame_format_keeps_both(stop_bit: USARTStopBit, char_size: USARTCharSize)
    ensures
        frame_format(stop_bit, char_size) == stop_bit.spec_bits() + char_size.spec_bits(),
        frame_format(stop_bit, char_size) & 8 == stop_bit.spec_bits(),
        frame_format(stop_bit, char_size) & 6 == char_size.spec_bits(),
{
    let s = stop_bit.spec_bits();
    let c = char_size.spec_bits();
    assert(s == 0 || s == 8);
    assert(c == 0 || c == 2 || c == 4 || c == 6);
    assert((s + c) as u8 & 8 == s && (s + c) as u8 & 6 == c) by (bit_vector)
        requires
            s == 0 || s == 8,
            c == 0 || c == 2 || c == 4 || c == 6,
    ;
}

/// After a commit the divisor registers hold the divisor's two bytes, the
/// frame-format register holds the sum of the stop-bit and character-size
/// encodings, the mode register holds the mode's encoding, and every other
/// cell is as it was.
pub proof fn committed_registers(cells: Seq<u8>, s: Settings)
    requires
        cells.len() == IO_SPACE_SIZE,
    ensures
        committed_cells(cells, s).len() == cells.len(),
        committed_cells(cells, s)[BAUD_LOW_ADDRESS as int] == s.baudrate_scaler % 256,
        committed_cells(cells, s)[BAUD_HIGH_ADDRESS as int] == s.baudrate_scaler / 256,
        committed_cells(cells, s)[FRAME_ADDRESS as int] == s.stop_bit.spec_bits()
            + s.char_size.spec_bits(),
        committed_cells(cells, s)[MODE_ADDRESS as int] == s.mode.spec_bits(),
        forall|a: int|
            0 <= a < cells.len() && a != BAUD_LOW_ADDRESS && a != BAUD_HIGH_ADDRESS && a
                != FRAME_ADDRESS && a != MODE_ADDRESS ==> #[trigger] committed_cells(cells, s)[a]
                == cells[a],
{
    frame_format_keeps_both(s.stop_bit, s.char_size);
}

/// Waiting for ready reads the status register and nothing else: one read
/// for each value, every one but the last not ready, the last one ready.
/// Outside the status register no cell and no queue changes.
pub proof fn waiting_polls_status_only(s: BankState)
    requires
        s.wf(),
        will_be_ready(s),
    ensures
        after_wait(s).wf(),
        after_wait(s).log.len() > s.log.len(),
        after_wait(s).log.subrange(0, s.log.len() as int) == s.log,
        forall|j: int|
            s.log.len() <= j < after_wait(s).log.len() ==> {
                &&& (#[trigger] after_wait(s).log[j]) is Read
                &&& after_wait(s).log[j]->Read_address == STATUS_ADDRESS
                &&& (is_ready(after_wait(s).log[j]->Read_value) <==> j == after_wait(s).log.len()
                    - 1)
            },
        forall|a: int|
            0 <= a < IO_SPACE_SIZE && a != STATUS_ADDRESS ==> {
                &&& #[trigger] after_wait(s).cells[a] == s.cells[a]
                &&& after_wait(s).feeds[a] == s.feeds[a]
            },
    decreases s.feeds[STATUS_ADDRESS as int].len(),
{
    let polled = s.after_read(STATUS_ADDRESS);
    assert(polled.log.subrange(0, s.log.len() as int) =~= s.log);
    if !is_ready(s.next_value(STATUS_ADDRESS)) {
        let queue = s.feeds[STATUS_ADDRESS as int];
        assert(queue.len() > 0);
        assert(polled.feeds[STATUS_ADDRESS as int] == queue.drop_first());
        assert(ready_among(queue.drop_first()));
        waiting_polls_status_only(polled);
        let done = after_wait(polled);
        assert(done == after_wait(s));
        assert(done.log.subrange(0, s.log.len() as int) =~= polled.log.subrange(
            0,
            polled.log.len() as int,
        ).subrange(0, s.log.len() as int));
        assert(done.log[s.log.len() as int] == polled.log[s.log.len() as int]) by {
            assert(done.log.subrange(0, polled.log.len() as int)[s.log.len() as int]
                == done.log[s.log.len() as int]);
        }
    }
}

/// Sending one byte is the wait for ready followed by exactly one write of the
/// byte to the data register, so the byte goes out only after a poll that
/// reported ready.
pub proof fn byte_follows_its_ready_poll(s: BankState, byte: u8)
    requires
        s.wf(),
        will_be_ready(s),
    ensures
        after_send(s, byte).log == after_wait(s).log.push(
            Access::Write { address: DATA_ADDRESS, value: byte },
        ),
        after_send(s, byte).log[after_send(s, byte).log.len() - 2] is Read,
        after_send(s, byte).log[after_send(s, byte).log.len() - 2]->Read_address
            == STATUS_ADDRESS,
        is_ready(after_send(s, byte).log[after_send(s, byte).log.len() - 2]->Read_value),
{
    waiting_polls_status_only(s);
    let w = after_wait(s);
    assert(w.log[w.log.len() - 1] is Read);
}

/// Sending `a + b` is sending `a` and then `b`: it can be done exactly when
/// both parts can, one after the other, and ends in the same state.
pub proof fn sending_splits(s: BankState, a: Seq<u8>, b: Seq<u8>)
    ensures
        can_send(s, a + b) == (can_send(s, a) && can_send(after_sending(s, a), b)),
        after_sending(s, a + b) == after_sending(after_sending(s, a), b),
    decreases a.len(),
{
    if a.len() == 0 {
        assert(a + b =~= b);
    } else {
        assert((a + b).drop_first() =~= a.drop_first() + b);
        assert((a + b)[0] == a[0]);
        sending_splits(after_send(s, a[0]), a.drop_first(), b);
    }
}

} // verus!
