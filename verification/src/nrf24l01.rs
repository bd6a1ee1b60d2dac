//! The register-level protocol of the nRF24L01+ radio: which bytes go over the
//! bus for each operation, and what the answers mean.
//!
//! This is the layer below the wire protocols, which wrap it.

use vstd::prelude::*;

verus! {

/// Why an exchange with the radio failed: on the bus, or at the chip-enable
/// pin.
#[derive(Clone, Copy, Debug, PartialEq, Eq)]
pub enum TransferError<SPIError, PinError> {
    Spi(SPIError),
    Pin(PinError),
}

/// The radio's primary mode.
#[derive(Clone, Copy, Debug, PartialEq, Eq, Structural)]
pub enum Mode {
    /// Receiver (PRX).
    Rx,
    /// Transmitter (PTX).
    Tx,
}

/// Whether the radio is powered up.
#[derive(Clone, Copy, Debug, PartialEq, Eq, Structural)]
pub enum Power {
    On,
    Off,
}

/// The checksum that the radio appends and checks.
#[derive(Clone, Copy, Debug, PartialEq, Eq, Structural)]
pub enum Crc {
    Disabled,
    OneByte,
    TwoBytes,
}

/// A write to the CONFIG register. A field that is `None` leaves its bits as
/// they are.
#[derive(Clone, Copy, Debug, PartialEq, Eq)]
pub struct ConfigRegisterWrite {
    /// The PRIM_RX bit.
    pub mode: Option<Mode>,
    /// The PWR_UP bit.
    pub power: Option<Power>,
    /// The EN_CRC and CRCO bits.
    pub crc: Option<Crc>,
}

/// The radio's registers.
#[allow(non_camel_case_types)]
#[derive(Clone, Copy, Debug, PartialEq, Eq, Structural)]
pub enum Register {
    CONFIG,
    EN_AA,
    EN_RXADDR,
    SETUP_AW,
    SETUP_RETR,
    RF_CH,
    RF_SETUP,
    STATUS,
    OBSERVE_TX,
    CD,
    RX_ADDR_P0,
    RX_ADDR_P1,
    RX_ADDR_P2,
    RX_ADDR_P3,
    RX_ADDR_P4,
    RX_ADDR_P5,
    TX_ADDR,
    RX_PW_P0,
    RX_PW_P1,
    RX_PW_P2,
    RX_PW_P3,
    RX_PW_P4,
    RX_PW_P5,
    FIFO_STATUS,
    DYNPD,
    FEATURE,
}

/// A command byte, the first byte of every exchange.
#[derive(Clone, Copy, Debug, PartialEq, Eq, Structural)]
pub struct Instruction(pub u8);

/// The command that reads the received payload.
pub const READ_RX_PAYLOAD: u8 = 0x61;

/// The command bits of a register write; the register's address fills the
/// low five bits.
pub const WRITE_REGISTER: u8 = 0x20;

/// The value of EN_AA that switches automatic acknowledgement on for all six
/// pipes.
pub const AUTO_ACK_ALL_PIPES: u8 = 0x3f;

/// The most bytes that a receive address can have.
pub const MAX_ADDRESS_BYTES: usize = 5;

/// The highest pipe number.
pub const MAX_PIPE: u8 = 5;

impl Register {
    /// The register's address in the radio's register map.
    pub open spec fn address(self) -> u8 {
        match self {
            Register::CONFIG => 0x00,
            Register::EN_AA => 0x01,
            Register::EN_RXADDR => 0x02,
            Register::SETUP_AW => 0x03,
            Register::SETUP_RETR => 0x04,
            Register::RF_CH => 0x05,
            Register::RF_SETUP => 0x06,
            Register::STATUS => 0x07,
            Register::OBSERVE_TX => 0x08,
            Register::CD => 0x09,
            Register::RX_ADDR_P0 => 0x0a,
            Register::RX_ADDR_P1 => 0x0b,
            Register::RX_ADDR_P2 => 0x0c,
            Register::RX_ADDR_P3 => 0x0d,
            Register::RX_ADDR_P4 => 0x0e,
            Register::RX_ADDR_P5 => 0x0f,
            Register::TX_ADDR => 0x10,
            Register::RX_PW_P0 => 0x11,
            Register::RX_PW_P1 => 0x12,
            Register::RX_PW_P2 => 0x13,
            Register::RX_PW_P3 => 0x14,
            Register::RX_PW_P4 => 0x15,
            Register::RX_PW_P5 => 0x16,
            Register::FIFO_STATUS => 0x17,
            Register::DYNPD => 0x1c,
            Register::FEATURE => 0x1d,
        }
    }

    /// The register's address in the radio's register map.
    pub fn addr(&self) -> (r: u8)
        ensures
            r == self.address(),
            r < 0x20,
    {
        match self {
            Register::CONFIG => 0x00,
            Register::EN_AA => 0x01,
            Register::EN_RXADDR => 0x02,
            Register::SETUP_AW => 0x03,
            Register::SETUP_RETR => 0x04,
            Register::RF_CH => 0x05,
            Register::RF_SETUP => 0x06,
            Register::STATUS => 0x07,
            Register::OBSERVE_TX => 0x08,
            Register::CD => 0x09,
            Register::RX_ADDR_P0 => 0x0a,
            Register::RX_ADDR_P1 => 0x0b,
            Register::RX_ADDR_P2 => 0x0c,
            Register::RX_ADDR_P3 => 0x0d,
            Register::RX_ADDR_P4 => 0x0e,
            Register::RX_ADDR_P5 => 0x0f,
            Register::TX_ADDR => 0x10,
            Register::RX_PW_P0 => 0x11,
            Register::RX_PW_P1 => 0x12,
            Register::RX_PW_P2 => 0x13,
            Register::RX_PW_P3 => 0x14,
            Register::RX_PW_P4 => 0x15,
            Register::RX_PW_P5 => 0x16,
            Register::FIFO_STATUS => 0x17,
            Register::DYNPD => 0x1c,
            Register::FEATURE => 0x1d,
        }
    }
}

/// The command byte that reads a register: the register's address.
pub open spec fn read_command(register: Register) -> u8 {
    register.address()
}

/// The command byte that writes a register: the write command with the
/// register's address in its low five bits.
pub open spec fn write_command(register: Register) -> u8 {
    (WRITE_REGISTER + register.address()) as u8
}

impl Instruction {
    /// The byte that goes over the bus.
    pub fn as_byte(&self) -> (r: u8)
        ensures
            r == self.0,
    {
        self.0
    }

    /// The command that reads a register.
    pub fn read_register(register: Register) -> (r: Instruction)
        ensures
            r.0 == read_command(register),
    {
        let read_register_command: u8 = 0b0000_0000;
        let addr: u8 = register.addr();
        assert(0u8 | addr == addr) by (bit_vector);
        Instruction(read_register_command | addr)
    }

    /// The command that reads the received payload.
    pub fn read_rx_payload() -> (r: Instruction)
        ensures
            r.0 == READ_RX_PAYLOAD,
    {
        Instruction(0b0110_0001)
    }

    /// The command that writes a register.
    pub fn write_register(register: Register) -> (r: Instruction)
        ensures
            r.0 == write_command(register),
    {
        let write_register_command: u8 = 0b0010_0000;
        let addr: u8 = register.addr();
        assert(0x20u8 | addr == 0x20 + addr) by (bit_vector)
            requires
                addr < 0x20,
        ;
        Instruction(write_register_command | addr)
    }
}

/// The bits that a choice of mode sets.
pub open spec fn mode_set(mode: Option<Mode>) -> u8 {
    match mode {
        Some(Mode::Rx) => 0x01,
        _ => 0x00,
    }
}

/// The bits that a choice of mode clears.
pub open spec fn mode_clear(mode: Option<Mode>) -> u8 {
    match mode {
        Some(Mode::Tx) => 0x01,
        _ => 0x00,
    }
}

/// The bits that a choice of power sets.
pub open spec fn power_set(power: Option<Power>) -> u8 {
    match power {
        Some(Power::On) => 0x02,
        _ => 0x00,
    }
}

/// The bits that a choice of power clears.
pub open spec fn power_clear(power: Option<Power>) -> u8 {
    match power {
        Some(Power::Off) => 0x02,
        _ => 0x00,
    }
}

/// The bits that a choice of checksum sets. One byte switches the checksum
/// on and leaves its length bit as it is; two bytes set both bits.
pub open spec fn crc_set(crc: Option<Crc>) -> u8 {
    match crc {
        Some(Crc::OneByte) => 0x08,
        Some(Crc::TwoBytes) => 0x0c,
        _ => 0x00,
    }
}

/// The bits that a choice of checksum clears.
pub open spec fn crc_clear(crc: Option<Crc>) -> u8 {
    match crc {
        Some(Crc::Disabled) => 0x08,
        _ => 0x00,
    }
}

impl ConfigRegisterWrite {
    /// The bits that this write sets.
    pub open spec fn set_mask(self) -> u8 {
        mode_set(self.mode) | power_set(self.power) | crc_set(self.crc)
    }

    /// The bits that this write clears.
    pub open spec fn clear_mask(self) -> u8 {
        mode_clear(self.mode) | power_clear(self.power) | crc_clear(self.crc)
    }

    /// The register value after this write, given the value before it.
    pub open spec fn applied(self, existing_config: u8) -> u8 {
        (existing_config & !self.clear_mask()) | self.set_mask()
    }

    /// A write that leaves every bit as it is.
    pub fn unchanged() -> (r: ConfigRegisterWrite)
        ensures
            r.mode is None,
            r.power is None,
            r.crc is None,
    {
        ConfigRegisterWrite { mode: None, power: None, crc: None }
    }

    /// The register value after this write, given the value before it: the
    /// bits that the write names are set or cleared, all others are kept.
    pub fn apply_on_top_of(self, existing_config: u8) -> (r: u8)
        ensures
            r == self.applied(existing_config),
    {
        let after_mode: u8 = match self.mode {
            Some(Mode::Rx) => existing_config | 0b0000_0001,
            Some(Mode::Tx) => existing_config & 0b1111_1110,
            None => existing_config,
        };
        let after_power: u8 = match self.power {
            Some(Power::On) => after_mode | 0b0000_0010,
            Some(Power::Off) => after_mode & 0b1111_1101,
            None => after_mode,
        };
        let after_crc: u8 = match self.crc {
            Some(Crc::Disabled) => after_power & 0b1111_0111,
            Some(Crc::OneByte) => after_power | 0b0000_1000,
            Some(Crc::TwoBytes) => after_power | 0b0000_1100,
            None => after_power,
        };
        proof {
            let e = existing_config;
            let s1 = mode_set(self.mode);
            let c1 = mode_clear(self.mode);
            let s2 = power_set(self.power);
            let c2 = power_clear(self.power);
            let s3 = crc_set(self.crc);
            let c3 = crc_clear(self.crc);
            assert(after_crc == (e & !(c1 | c2 | c3)) | (s1 | s2 | s3)) by (bit_vector)
                requires
                    (s1 == 1 && c1 == 0 && after_mode == e | 1) || (s1 == 0 && c1 == 1
                        && after_mode == e & 0xfe) || (s1 == 0 && c1 == 0 && after_mode == e),
                    (s2 == 2 && c2 == 0 && after_power == after_mode | 2) || (s2 == 0 && c2 == 2
                        && after_power == after_mode & 0xfd) || (s2 == 0 && c2 == 0 && after_power
                        == after_mode),
                    (s3 == 0 && c3 == 8 && after_crc == after_power & 0xf7) || (s3 == 8 && c3 == 0
                        && after_crc == after_power | 8) || (s3 == 12 && c3 == 0 && after_crc
                        == after_power | 12) || (s3 == 0 && c3 == 0 && after_crc == after_power),
            ;
        }
        after_crc
    }
}

impl Default for ConfigRegisterWrite {
    fn default() -> (r: ConfigRegisterWrite)
        ensures
            r.mode is None,
            r.power is None,
            r.crc is None,
    {
        ConfigRegisterWrite { mode: None, power: None, crc: None }
    }
}

/// A write of one byte to one register.
#[derive(Clone, Copy, Debug, PartialEq, Eq, Structural)]
pub struct RegisterWrite {
    pub register: Register,
    pub value: u8,
}

/// The bytes that write one byte to a register: the write command, then the
/// value.
pub open spec fn write_frame(register: Register, value: u8) -> Seq<u8> {
    seq![write_command(register), value]
}

/// The bytes that read a register: the read command, then a byte that the
/// radio ignores and whose clock pulses carry the answer.
pub open spec fn read_frame(register: Register) -> Seq<u8> {
    seq![read_command(register), 0u8]
}

/// The bytes that write several bytes to a register: the write command, then
/// the values in order.
pub open spec fn write_multi_frame(register: Register, values: Seq<u8>) -> Seq<u8> {
    seq![write_command(register)] + values
}

/// The value of EN_RXADDR that enables one receive pipe and no other.
pub open spec fn pipe_bit(channel: u8) -> u8 {
    1u8 << channel
}

impl RegisterWrite {
    /// The bytes that go over the bus for this write.
    pub fn frame(&self) -> (r: [u8; 2])
        ensures
            r@ == write_frame(self.register, self.value),
    {
        let r = Nrf23L01Plus::write_register(self.register, self.value);
        r
    }
}

/// The radio as the driver has commanded it.
#[derive(Clone, Copy, Debug, PartialEq, Eq, Structural)]
pub struct Nrf23L01Plus {
    chip_enable: bool,
}

impl Nrf23L01Plus {
    /// Whether the chip-enable pin is to be high.
    pub closed spec fn enabled(&self) -> bool {
        self.chip_enable
    }

    /// The radio before it is set up: the chip-enable pin is to be low.
    pub fn new() -> (r: Nrf23L01Plus)
        ensures
            !r.enabled(),
    {
        Nrf23L01Plus { chip_enable: false }
    }

    /// Records the level that the chip-enable pin is set to.
    pub fn set_chip_enable(&mut self, chip_enable: bool)
        ensures
            final(self).enabled() == chip_enable,
    {
        self.chip_enable = chip_enable;
    }

    /// Whether the chip-enable pin is to be high.
    pub fn chip_enable(&self) -> (r: bool)
        ensures
            r == self.enabled(),
    {
        self.chip_enable
    }

    /// The write that brings the CONFIG register from its current value to
    /// the one that an update asks for.
    pub fn configure(current_config: u8, config_update: ConfigRegisterWrite) -> (r: RegisterWrite)
        ensures
            r.register == Register::CONFIG,
            r.value == config_update.applied(current_config),
    {
        let new_config = config_update.apply_on_top_of(current_config);
        RegisterWrite { register: Register::CONFIG, value: new_config }
    }

    /// The write that switches automatic acknowledgement on for all six
    /// pipes, or off for all.
    pub fn set_auto_ack(auto_ack_setting: bool) -> (r: RegisterWrite)
        ensures
            r.register == Register::EN_AA,
            r.value == if auto_ack_setting {
                AUTO_ACK_ALL_PIPES
            } else {
                0u8
            },
    {
        RegisterWrite {
            register: Register::EN_AA,
            value: if auto_ack_setting {
                0b0011_1111
            } else {
                0b0000_0000
            },
        }
    }

    /// The write that enables one receive pipe. It disables all the others.
    pub fn enable_rx_addr(channel: u8) -> (r: RegisterWrite)
        requires
            channel <= MAX_PIPE,
        ensures
            r.register == Register::EN_RXADDR,
            r.value == pipe_bit(channel),
            r.value == if channel == 0 {
                1u8
            } else if channel == 1 {
                2u8
            } else if channel == 2 {
                4u8
            } else if channel == 3 {
                8u8
            } else if channel == 4 {
                16u8
            } else {
                32u8
            },
    {
        let value: u8 = 1u8 << channel;
        assert(value == if channel == 0 {
            1u8
        } else if channel == 1 {
            2u8
        } else if channel == 2 {
            4u8
        } else if channel == 3 {
            8u8
        } else if channel == 4 {
            16u8
        } else {
            32u8
        }) by (bit_vector)
            requires
                value == 1u8 << channel,
                channel <= 5,
        ;
        RegisterWrite { register: Register::EN_RXADDR, value }
    }

    /// The write that sets the RF_SETUP register.
    pub fn rf_setup(desired_register_value: u8) -> (r: RegisterWrite)
        ensures
            r.register == Register::RF_SETUP,
            r.value == desired_register_value,
    {
        RegisterWrite { register: Register::RF_SETUP, value: desired_register_value }
    }

    /// The bytes that set the receive address of pipe 0.
    pub fn set_rx_addr_p0(rx_addr: &[u8]) -> (r: Vec<u8>)
        requires
            rx_addr@.len() <= MAX_ADDRESS_BYTES,
        ensures
            r@ == write_multi_frame(Register::RX_ADDR_P0, rx_addr@),
    {
        Self::write_register_multi(Register::RX_ADDR_P0, rx_addr)
    }

    /// The write that tunes the radio to a channel.
    pub fn set_channel(channel: u8) -> (r: RegisterWrite)
        ensures
            r.register == Register::RF_CH,
            r.value == channel,
    {
        RegisterWrite { register: Register::RF_CH, value: channel }
    }

    /// The write that sets the payload size of pipe 0.
    pub fn set_payload_size_p0(payload_size: u8) -> (r: RegisterWrite)
        ensures
            r.register == Register::RX_PW_P0,
            r.value == payload_size,
    {
        RegisterWrite { register: Register::RX_PW_P0, value: payload_size }
    }

    /// Whether a payload is to be read, given the value of the FIFO_STATUS
    /// register: it is when the bit that marks the receive queue as empty is
    /// clear, that is, when the value is even.
    pub fn read(fifo_status: u8) -> (r: bool)
        ensures
            r == (fifo_status % 2 == 0),
    {
        assert((fifo_status & 1u8 == 0) == (fifo_status % 2 == 0)) by (bit_vector);
        (fifo_status & 0b0000_0001) == 0
    }

    /// The bytes that read a register. The answer comes back in place of the
    /// second byte.
    pub fn read_register(register: Register) -> (r: [u8; 2])
        ensures
            r@ == read_frame(register),
    {
        let r = [Instruction::read_register(register).as_byte(), 0];
        assert(r@ =~= read_frame(register));
        r
    }

    /// The register's value in what came back from the bytes that read it.
    pub fn register_value(answer: &[u8; 2]) -> (r: u8)
        ensures
            r == answer@[1],
    {
        answer[1]
    }

    /// The bytes that write one byte to a register.
    pub fn write_register(register: Register, value: u8) -> (r: [u8; 2])
        ensures
            r@ == write_frame(register, value),
    {
        let r = [Instruction::write_register(register).as_byte(), value];
        assert(r@ =~= write_frame(register, value));
        r
    }

    /// The bytes that write several bytes to a register.
    pub fn write_register_multi(register: Register, values: &[u8]) -> (r: Vec<u8>)
        ensures
            r@ == write_multi_frame(register, values@),
    {
        let mut r: Vec<u8> = Vec::new();
        r.push(Instruction::write_register(register).as_byte());
        let mut i: usize = 0;
        while i < values.len()
            invariant
                i <= values@.len(),
                r@ == seq![write_command(register)] + values@.take(i as int),
            decreases values@.len() - i,
        {
            r.push(values[i]);
            assert(values@.take(i + 1) =~= values@.take(i as int).push(values@[i as int]));
            i = i + 1;
        }
        assert(values@.take(i as int) =~= values@);
        r
    }
}

/// A write that names no bit leaves the register as it is.
pub proof fn empty_write_changes_nothing(existing_config: u8)
    ensures
        (ConfigRegisterWrite { mode: None, power: None, crc: None }).applied(existing_config)
            == existing_config,
{
    let e = existing_config;
    assert((e & !(0u8 | 0u8 | 0u8)) | (0u8 | 0u8 | 0u8) == e) by (bit_vector);
}

/// Applying a write a second time changes nothing more.
pub proof fn write_is_idempotent(write: ConfigRegisterWrite, existing_config: u8)
    ensures
        write.applied(write.applied(existing_config)) == write.applied(existing_config),
{
    let e = existing_config;
    let s = write.set_mask();
    let c = write.clear_mask();
    let s1 = mode_set(write.mode);
    let c1 = mode_clear(write.mode);
    let s2 = power_set(write.power);
    let c2 = power_clear(write.power);
    let s3 = crc_set(write.crc);
    let c3 = crc_clear(write.crc);
    assert(s & c == 0) by (bit_vector)
        requires
            s == s1 | s2 | s3,
            c == c1 | c2 | c3,
            (s1 == 1 && c1 == 0) || (s1 == 0 && c1 == 1) || (s1 == 0 && c1 == 0),
            (s2 == 2 && c2 == 0) || (s2 == 0 && c2 == 2) || (s2 == 0 && c2 == 0),
            (s3 == 0 && c3 == 8) || (s3 == 8 && c3 == 0) || (s3 == 12 && c3 == 0) || (s3 == 0
                && c3 == 0),
    ;
    assert(((((e & !c) | s) & !c) | s) == ((e & !c) | s)) by (bit_vector)
        requires
            s & c == 0,
    ;
}

} // verus!
