use scout::nrf24_syma::{
    data_channel, decode_packet, syma_convert_to_signed, FourChannelRadioData, ReadOutcome,
    SetupStep, SymaX5C,
};
use scout::nrf24l01::{
    ConfigRegisterWrite, Crc, Instruction, Mode, Nrf23L01Plus, Power, Register, RegisterWrite,
    TransferError,
};

const CHANNELS: [u8; 15] = [
    0x1d, 0x2f, 0x26, 0x3d, 0x15, 0x2b, 0x25, 0x24, 0x27, 0x2c, 0x1c, 0x3e, 0x39, 0x2d, 0x22,
];

fn write(mode: Option<Mode>, power: Option<Power>, crc: Option<Crc>) -> ConfigRegisterWrite {
    ConfigRegisterWrite { mode, power, crc }
}

#[test]
fn register_addresses() {
    let registers = [
        (Register::CONFIG, 0x00),
        (Register::EN_AA, 0x01),
        (Register::EN_RXADDR, 0x02),
        (Register::SETUP_AW, 0x03),
        (Register::SETUP_RETR, 0x04),
        (Register::RF_CH, 0x05),
        (Register::RF_SETUP, 0x06),
        (Register::STATUS, 0x07),
        (Register::OBSERVE_TX, 0x08),
        (Register::CD, 0x09),
        (Register::RX_ADDR_P0, 0x0a),
        (Register::RX_ADDR_P1, 0x0b),
        (Register::RX_ADDR_P2, 0x0c),
        (Register::RX_ADDR_P3, 0x0d),
        (Register::RX_ADDR_P4, 0x0e),
        (Register::RX_ADDR_P5, 0x0f),
        (Register::TX_ADDR, 0x10),
        (Register::RX_PW_P0, 0x11),
        (Register::RX_PW_P1, 0x12),
        (Register::RX_PW_P2, 0x13),
        (Register::RX_PW_P3, 0x14),
        (Register::RX_PW_P4, 0x15),
        (Register::RX_PW_P5, 0x16),
        (Register::FIFO_STATUS, 0x17),
        (Register::DYNPD, 0x1c),
        (Register::FEATURE, 0x1d),
    ];
    for (register, addr) in registers.iter() {
        assert_eq!(register.addr(), *addr);
        assert_eq!(Instruction::read_register(*register).as_byte(), *addr);
        assert_eq!(Instruction::write_register(*register).as_byte(), 0x20 | *addr);
    }
}

#[test]
fn instruction_bytes() {
    assert_eq!(Instruction::read_rx_payload().as_byte(), 0b0110_0001);
    assert_eq!(Instruction::read_register(Register::FIFO_STATUS).as_byte(), 0x17);
    assert_eq!(Instruction::write_register(Register::FIFO_STATUS).as_byte(), 0x37);
    assert_eq!(Instruction::write_register(Register::CONFIG).as_byte(), 0x20);
    assert_eq!(Instruction(0xa5).as_byte(), 0xa5);
}

#[test]
fn config_write_sets_and_clears_its_bits() {
    assert_eq!(write(Some(Mode::Rx), None, None).apply_on_top_of(0x00), 0x01);
    assert_eq!(write(Some(Mode::Tx), None, None).apply_on_top_of(0xff), 0xfe);
    assert_eq!(write(None, Some(Power::On), None).apply_on_top_of(0x00), 0x02);
    assert_eq!(write(None, Some(Power::Off), None).apply_on_top_of(0xff), 0xfd);
    assert_eq!(write(None, None, Some(Crc::Disabled)).apply_on_top_of(0xff), 0xf7);
    assert_eq!(write(None, None, Some(Crc::OneByte)).apply_on_top_of(0x00), 0x08);
    assert_eq!(write(None, None, Some(Crc::OneByte)).apply_on_top_of(0x04), 0x0c);
    assert_eq!(write(None, None, Some(Crc::TwoBytes)).apply_on_top_of(0x00), 0x0c);
    let all = write(Some(Mode::Rx), Some(Power::On), Some(Crc::TwoBytes));
    assert_eq!(all.apply_on_top_of(0x00), 0x0f);
    assert_eq!(all.apply_on_top_of(0x70), 0x7f);
    let off = write(Some(Mode::Tx), Some(Power::Off), Some(Crc::Disabled));
    assert_eq!(off.apply_on_top_of(0xff), 0xf4);
    assert_eq!(off.apply_on_top_of(0x08), 0x00);
}

#[test]
fn empty_config_write_changes_nothing() {
    for existing in 0..=255u8 {
        assert_eq!(ConfigRegisterWrite::default().apply_on_top_of(existing), existing);
        assert_eq!(ConfigRegisterWrite::unchanged().apply_on_top_of(existing), existing);
    }
    assert_eq!(ConfigRegisterWrite::default(), write(None, None, None));
}

#[test]
fn config_write_is_idempotent() {
    let writes = [
        write(Some(Mode::Rx), Some(Power::Off), Some(Crc::OneByte)),
        write(Some(Mode::Tx), Some(Power::On), Some(Crc::Disabled)),
        write(None, Some(Power::On), Some(Crc::TwoBytes)),
    ];
    for w in writes.iter() {
        for existing in 0..=255u8 {
            let once = w.apply_on_top_of(existing);
            assert_eq!(w.apply_on_top_of(once), once);
            assert_eq!(once & 0xf0, existing & 0xf0);
        }
    }
}

#[test]
fn register_writes() {
    let update = write(Some(Mode::Rx), Some(Power::On), Some(Crc::TwoBytes));
    assert_eq!(
        Nrf23L01Plus::configure(0x70, update),
        RegisterWrite { register: Register::CONFIG, value: 0x7f }
    );
    assert_eq!(
        Nrf23L01Plus::set_auto_ack(true),
        RegisterWrite { register: Register::EN_AA, value: 0b0011_1111 }
    );
    assert_eq!(
        Nrf23L01Plus::set_auto_ack(false),
        RegisterWrite { register: Register::EN_AA, value: 0 }
    );
    for channel in 0..=5u8 {
        assert_eq!(
            Nrf23L01Plus::enable_rx_addr(channel),
            RegisterWrite { register: Register::EN_RXADDR, value: 1 << channel }
        );
    }
    assert_eq!(
        Nrf23L01Plus::rf_setup(0b0000_0010),
        RegisterWrite { register: Register::RF_SETUP, value: 2 }
    );
    assert_eq!(
        Nrf23L01Plus::set_channel(0x1d),
        RegisterWrite { register: Register::RF_CH, value: 0x1d }
    );
    assert_eq!(
        Nrf23L01Plus::set_payload_size_p0(16),
        RegisterWrite { register: Register::RX_PW_P0, value: 16 }
    );
}

#[test]
fn frames() {
    assert_eq!(Nrf23L01Plus::read_register(Register::FIFO_STATUS), [0x17, 0x00]);
    assert_eq!(Nrf23L01Plus::register_value(&[0x0e, 0x11]), 0x11);
    assert_eq!(Nrf23L01Plus::write_register(Register::RF_CH, 0x2f), [0x25, 0x2f]);
    assert_eq!(Nrf23L01Plus::set_channel(0x2f).frame(), [0x25, 0x2f]);
    assert_eq!(Nrf23L01Plus::enable_rx_addr(3).frame(), [0x22, 0x08]);
    assert_eq!(
        Nrf23L01Plus::write_register_multi(Register::TX_ADDR, &[1, 2, 3]),
        vec![0x30, 1, 2, 3]
    );
    assert_eq!(Nrf23L01Plus::write_register_multi(Register::TX_ADDR, &[]), vec![0x30]);
    assert_eq!(
        Nrf23L01Plus::set_rx_addr_p0(&[0x6d, 0x6a, 0x73, 0x73, 0x73]),
        vec![0x2a, 0x6d, 0x6a, 0x73, 0x73, 0x73]
    );
    assert_eq!(SymaX5C::address_frame(), vec![0x2a, 0x6d, 0x6a, 0x73, 0x73, 0x73]);
}

#[test]
fn payload_is_read_when_the_queue_is_not_empty() {
    assert!(Nrf23L01Plus::read(0b0000_0000));
    assert!(Nrf23L01Plus::read(0b0001_0010));
    assert!(!Nrf23L01Plus::read(0b0000_0001));
    assert!(!Nrf23L01Plus::read(0b0001_0001));
}

#[test]
fn chip_enable_is_recorded() {
    let mut radio = Nrf23L01Plus::new();
    assert!(!radio.chip_enable());
    radio.set_chip_enable(true);
    assert!(radio.chip_enable());
    radio.set_chip_enable(false);
    assert!(!radio.chip_enable());
}

#[test]
fn transfer_errors_keep_their_cause() {
    let spi: TransferError<u8, bool> = TransferError::Spi(7);
    let pin: TransferError<u8, bool> = TransferError::Pin(true);
    assert_eq!(spi, TransferError::Spi(7));
    assert_eq!(pin, TransferError::Pin(true));
    assert_ne!(spi, TransferError::Spi(8));
}

#[test]
fn control_bytes_to_signed_values() {
    assert_eq!(syma_convert_to_signed(0x00), 0);
    assert_eq!(syma_convert_to_signed(0x01), -1);
    assert_eq!(syma_convert_to_signed(0x05), -5);
    assert_eq!(syma_convert_to_signed(0x7f), -127);
    assert_eq!(syma_convert_to_signed(0x80), 0);
    assert_eq!(syma_convert_to_signed(0x81), 1);
    assert_eq!(syma_convert_to_signed(0x85), 5);
    assert_eq!(syma_convert_to_signed(0xff), 127);
}

#[test]
fn packet_to_control_values() {
    let mut packet = [0u8; 16];
    packet[0] = 200;
    packet[1] = 0x85;
    packet[2] = 0x8a;
    packet[3] = 0x14;
    assert_eq!(
        decode_packet(&packet),
        FourChannelRadioData { throttle: 200, yaw: 5, pitch: -10, roll: -20 }
    );
    packet[2] = 0x7f;
    assert_eq!(decode_packet(&packet).pitch, 127);
    packet[2] = 0xff;
    assert_eq!(decode_packet(&packet).pitch, -127);
}

#[test]
fn hop_channels() {
    for (i, channel) in CHANNELS.iter().enumerate() {
        assert_eq!(data_channel(i), *channel);
    }
}

#[test]
fn radio_setup_steps() {
    let (receiver, steps) = SymaX5C::new();
    assert_eq!(receiver.current_channel_idx(), 0);
    assert_eq!(receiver.latest_packet(), [0u8; 16]);
    assert_eq!(
        steps,
        vec![
            SetupStep::DelayMs(100),
            SetupStep::SetChipEnable(false),
            SetupStep::Configure(write(Some(Mode::Rx), Some(Power::On), Some(Crc::TwoBytes))),
            SetupStep::DelayMs(1500),
            SetupStep::Write(RegisterWrite { register: Register::EN_AA, value: 0 }),
            SetupStep::Write(RegisterWrite { register: Register::EN_RXADDR, value: 1 }),
            SetupStep::Write(RegisterWrite { register: Register::RF_SETUP, value: 0b0000_0010 }),
            SetupStep::WriteReceiveAddress,
            SetupStep::Write(RegisterWrite { register: Register::RF_CH, value: 0x1d }),
            SetupStep::Write(RegisterWrite { register: Register::RX_PW_P0, value: 16 }),
            SetupStep::SetChipEnable(true),
        ]
    );
}

#[test]
fn receiver_hops_after_two_packets() {
    let (mut receiver, _) = SymaX5C::new();
    let mut packet = [0u8; 16];
    packet[0] = 9;
    packet[1] = 0x83;
    let data = FourChannelRadioData { throttle: 9, yaw: 3, pitch: 0, roll: 0 };
    assert_eq!(receiver.read(None), ReadOutcome { data: None, hop: None });
    assert_eq!(receiver.latest_packet(), [0u8; 16]);
    for round in 0..40usize {
        let first = receiver.read(Some(packet));
        assert_eq!(first, ReadOutcome { data: Some(data), hop: None });
        assert_eq!(receiver.current_channel_idx(), round % 15);
        assert_eq!(receiver.read(None), ReadOutcome { data: None, hop: None });
        let second = receiver.read(Some(packet));
        let next = (round + 1) % 15;
        let hop = RegisterWrite { register: Register::RF_CH, value: CHANNELS[next] };
        assert_eq!(second, ReadOutcome { data: Some(data), hop: Some(hop) });
        assert_eq!(receiver.current_channel_idx(), next);
        assert_eq!(receiver.latest_packet(), packet);
    }
}
