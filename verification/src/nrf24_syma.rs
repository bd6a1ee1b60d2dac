//! The Syma X5C remote-control protocol on top of the nRF24L01+ radio.

use vstd::prelude::*;
use crate::nrf24l01::{ConfigRegisterWrite, Crc, Mode, Nrf23L01Plus, Power, Register, RegisterWrite};

verus! {

/// The number of bytes in a packet.
pub const PAYLOAD_SIZE: usize = 16;

/// The number of channels that the transmitter hops over.
pub const NUM_DATA_CHANNELS: usize = 15;

/// The number of bytes in the receive address.
pub const ADDR_LEN: usize = 5;

/// The number of packets that are taken on a channel before the receiver
/// hops to the next.
pub const PACKETS_PER_CHANNEL: usize = 2;

/// The time that the radio needs after power is applied, in milliseconds.
pub const POWER_ON_RESET_MS: u32 = 100;

/// The time that is waited after the radio is told to power up, in
/// milliseconds.
pub const POWER_UP_MS: u32 = 1500;

/// The RF_SETUP value for 1 Mbps at -12 dBm.
pub const RF_SETUP_1MBPS_MINUS_12DBM: u8 = 0x02;

/// The channels that the transmitter hops over, in the order of the hops.
pub open spec fn data_channels() -> Seq<u8> {
    seq![
        0x1du8,
        0x2fu8,
        0x26u8,
        0x3du8,
        0x15u8,
        0x2bu8,
        0x25u8,
        0x24u8,
        0x27u8,
        0x2cu8,
        0x1cu8,
        0x3eu8,
        0x39u8,
        0x2du8,
        0x22u8,
    ]
}

/// The address that the transmitter sends to.
pub open spec fn address() -> Seq<u8> {
    seq![0x6du8, 0x6au8, 0x73u8, 0x73u8, 0x73u8]
}

/// The values of the four control channels.
#[derive(Clone, Copy, Debug, PartialEq, Eq, Structural)]
pub struct FourChannelRadioData {
    pub throttle: u8,
    pub yaw: i8,
    pub pitch: i8,
    pub roll: i8,
}

/// One step of bringing the radio up.
#[derive(Clone, Copy, Debug, PartialEq, Eq)]
pub enum SetupStep {
    /// Wait this many milliseconds.
    DelayMs(u32),
    /// Set the chip-enable pin.
    SetChipEnable(bool),
    /// Read the CONFIG register and write it back with this update applied.
    Configure(ConfigRegisterWrite),
    /// Write one byte to a register.
    Write(RegisterWrite),
    /// Write the receive address of pipe 0.
    WriteReceiveAddress,
}

/// What a packet leads to: the control values in it, and the write that hops
/// to the next channel if it is time to hop.
#[derive(Clone, Copy, Debug, PartialEq, Eq)]
pub struct ReadOutcome {
    pub data: Option<FourChannelRadioData>,
    pub hop: Option<RegisterWrite>,
}

/// The receiver's side of the protocol.
#[derive(Clone, Copy, Debug, PartialEq, Eq)]
pub struct SymaX5C {
    radio: Nrf23L01Plus,
    latest_packet: [u8; 16],
    current_channel_idx: usize,
    packets_received_on_current_channel: usize,
}

/// What the receiver holds.
pub struct SymaView {
    /// The last packet taken, or zeros before the first.
    pub latest_packet: Seq<u8>,
    /// The place in the hop order of the channel that is tuned in.
    pub channel_idx: nat,
    /// The packets taken on that channel so far.
    pub packets_on_channel: nat,
    /// Whether the radio's chip-enable pin is to be high.
    pub chip_enable: bool,
}

/// The signed value of a control byte: the low seven bits are the size, and
/// the value is negative when the top bit is clear.
pub open spec fn signed_value(input: u8) -> int {
    if input < 128 {
        -(input as int)
    } else {
        input - 128
    }
}

/// The control values in a packet: the throttle as it is, yaw and roll by
/// their signed values, and pitch by its signed value with the sign turned.
pub open spec fn decode(packet: Seq<u8>) -> FourChannelRadioData {
    FourChannelRadioData {
        throttle: packet[0],
        yaw: signed_value(packet[1]) as i8,
        pitch: (-signed_value(packet[2])) as i8,
        roll: signed_value(packet[3]) as i8,
    }
}

/// The steps that bring the radio up as a receiver on the first channel.
pub open spec fn setup_steps() -> Seq<SetupStep> {
    seq![
        SetupStep::DelayMs(POWER_ON_RESET_MS),
        SetupStep::SetChipEnable(false),
        SetupStep::Configure(
            ConfigRegisterWrite {
                mode: Some(Mode::Rx),
                power: Some(Power::On),
                crc: Some(Crc::TwoBytes),
            },
        ),
        SetupStep::DelayMs(POWER_UP_MS),
        SetupStep::Write(RegisterWrite { register: Register::EN_AA, value: 0 }),
        SetupStep::Write(RegisterWrite { register: Register::EN_RXADDR, value: 1 }),
        SetupStep::Write(
            RegisterWrite { register: Register::RF_SETUP, value: RF_SETUP_1MBPS_MINUS_12DBM },
        ),
        SetupStep::WriteReceiveAddress,
        SetupStep::Write(RegisterWrite { register: Register::RF_CH, value: data_channels()[0] }),
        SetupStep::Write(RegisterWrite { register: Register::RX_PW_P0, value: 16 }),
        SetupStep::SetChipEnable(true),
    ]
}

/// The signed value of a control byte.
pub fn syma_convert_to_signed(input: u8) -> (r: i8)
    ensures
        r == signed_value(input),
        -127 <= r <= 127,
{
    let low: u8 = input & 0b0111_1111;
    assert(low == input % 128 && low <= 127) by (bit_vector)
        requires
            low == input & 0x7f,
    ;
    assert((input & 0x80u8 == 0) == (input < 128)) by (bit_vector);
    let ret = low as i8;
    if (input & 0b1000_0000) == 0 {
        -ret
    } else {
        ret
    }
}

/// The channel at a place in the hop order.
pub fn data_channel(idx: usize) -> (r: u8)
    requires
        idx < NUM_DATA_CHANNELS,
    ensures
        r == data_channels()[idx as int],
{
    let channels: [u8; 15] = [
        0x1d,
        0x2f,
        0x26,
        0x3d,
        0x15,
        0x2b,
        0x25,
        0x24,
        0x27,
        0x2c,
        0x1c,
        0x3e,
        0x39,
        0x2d,
        0x22,
    ];
    assert(channels@ =~= data_channels());
    channels[idx]
}

/// The control values in a packet.
pub fn decode_packet(packet: &[u8; 16]) -> (r: FourChannelRadioData)
    ensures
        r == decode(packet@),
{
    FourChannelRadioData {
        throttle: packet[0],
        yaw: syma_convert_to_signed(packet[1]),
        pitch: -syma_convert_to_signed(packet[2]),
        roll: syma_convert_to_signed(packet[3]),
    }
}

impl View for SymaX5C {
    type V = SymaView;

    closed spec fn view(&self) -> SymaView {
        SymaView {
            latest_packet: self.latest_packet@,
            channel_idx: self.current_channel_idx as nat,
            packets_on_channel: self.packets_received_on_current_channel as nat,
            chip_enable: self.radio.enabled(),
        }
    }
}

impl SymaView {
    /// The receiver after a packet: the packet is kept, and every second
    /// packet moves the receiver on to the next channel, the last channel
    /// leading back to the first.
    pub open spec fn received(self, packet: Seq<u8>) -> SymaView {
        if self.packets_on_channel + 1 == PACKETS_PER_CHANNEL {
            SymaView {
                latest_packet: packet,
                channel_idx: (self.channel_idx + 1) % (NUM_DATA_CHANNELS as nat),
                packets_on_channel: 0,
                ..self
            }
        } else {
            SymaView {
                latest_packet: packet,
                packets_on_channel: self.packets_on_channel + 1,
                ..self
            }
        }
    }

    /// The write that hops to the next channel, if a packet makes the
    /// receiver hop.
    pub open spec fn hop(self) -> Option<RegisterWrite> {
        if self.packets_on_channel + 1 == PACKETS_PER_CHANNEL {
            Some(
                RegisterWrite {
                    register: Register::RF_CH,
                    value: data_channels()[((self.channel_idx + 1) % (NUM_DATA_CHANNELS as nat)) as int],
                },
            )
        } else {
            None
        }
    }
}

impl SymaX5C {
    /// The receiver is tuned to one of the channels and has taken fewer
    /// packets on it than make it hop.
    pub open spec fn wf(&self) -> bool {
        &&& self@.channel_idx < NUM_DATA_CHANNELS
        &&& self@.packets_on_channel < PACKETS_PER_CHANNEL
        &&& self@.latest_packet.len() == PAYLOAD_SIZE
    }

    /// A receiver on the first channel, with the steps that bring the radio
    /// up for it. They are to be carried out in order before the first
    /// packet is read.
    pub fn new() -> (r: (SymaX5C, Vec<SetupStep>))
        ensures
            r.0.wf(),
            r.0@.channel_idx == 0,
            r.0@.packets_on_channel == 0,
            r.0@.latest_packet == Seq::new(16, |i: int| 0u8),
            r.0@.chip_enable,
            r.1@ == setup_steps(),
    {
        let mut steps: Vec<SetupStep> = Vec::new();
        steps.push(SetupStep::DelayMs(POWER_ON_RESET_MS));
        let mut radio = Nrf23L01Plus::new();
        steps.push(SetupStep::SetChipEnable(radio.chip_enable()));
        steps.push(
            SetupStep::Configure(
                ConfigRegisterWrite {
                    mode: Some(Mode::Rx),
                    power: Some(Power::On),
                    crc: Some(Crc::TwoBytes),
                },
            ),
        );
        steps.push(SetupStep::DelayMs(POWER_UP_MS));
        steps.push(SetupStep::Write(Nrf23L01Plus::set_auto_ack(false)));
        steps.push(SetupStep::Write(Nrf23L01Plus::enable_rx_addr(0)));
        steps.push(SetupStep::Write(Nrf23L01Plus::rf_setup(RF_SETUP_1MBPS_MINUS_12DBM)));
        steps.push(SetupStep::WriteReceiveAddress);
        let current_channel_idx: usize = 0;
        steps.push(SetupStep::Write(Nrf23L01Plus::set_channel(data_channel(current_channel_idx))));
        steps.push(SetupStep::Write(Nrf23L01Plus::set_payload_size_p0(16)));
        radio.set_chip_enable(true);
        steps.push(SetupStep::SetChipEnable(radio.chip_enable()));
        let latest_packet: [u8; 16] = [0; 16];
        assert(latest_packet@ =~= Seq::new(16, |i: int| 0u8));
        assert(steps@ =~= setup_steps());
        (
            SymaX5C {
                radio,
                latest_packet,
                current_channel_idx,
                packets_received_on_current_channel: 0,
            },
            steps,
        )
    }

    /// The bytes that write the receive address of pipe 0.
    pub fn address_frame() -> (r: Vec<u8>)
        ensures
            r@ == crate::nrf24l01::write_multi_frame(Register::RX_ADDR_P0, address()),
    {
        let addr: [u8; 5] = [0x6d, 0x6a, 0x73, 0x73, 0x73];
        assert(addr@ =~= address());
        Nrf23L01Plus::set_rx_addr_p0(addr.as_slice())
    }

    /// Takes what the radio had: a packet, or nothing. A packet is decoded
    /// and kept, and every second packet makes the receiver hop to the next
    /// channel; the outcome then holds the write that tunes the radio to it.
    /// Without a packet nothing changes.
    pub fn read(&mut self, packet: Option<[u8; 16]>) -> (r: ReadOutcome)
        requires
            old(self).wf(),
        ensures
            final(self).wf(),
            packet matches Some(p) ==> {
                &&& r.data == Some(decode(p@))
                &&& r.hop == old(self)@.hop()
                &&& final(self)@ == old(self)@.received(p@)
            },
            packet is None ==> r.data is None && r.hop is None && final(self)@ == old(self)@,
    {
        match packet {
            Some(p) => {
                self.latest_packet = p;
                let radio_data = decode_packet(&self.latest_packet);
                let mut hop: Option<RegisterWrite> = None;
                self.packets_received_on_current_channel =
                    self.packets_received_on_current_channel + 1;
                if self.packets_received_on_current_channel == PACKETS_PER_CHANNEL {
                    self.current_channel_idx = (self.current_channel_idx + 1) % NUM_DATA_CHANNELS;
                    hop = Some(Nrf23L01Plus::set_channel(data_channel(self.current_channel_idx)));
                    self.packets_received_on_current_channel = 0;
                }
                ReadOutcome { data: Some(radio_data), hop }
            },
            None => ReadOutcome { data: None, hop: None },
        }
    }

    /// The place in the hop order of the channel that is tuned in.
    pub fn current_channel_idx(&self) -> (r: usize)
        ensures
            r == self@.channel_idx,
    {
        self.current_channel_idx
    }

    /// The last packet taken, or zeros before the first.
    pub fn latest_packet(&self) -> (r: [u8; 16])
        ensures
            r@ == self@.latest_packet,
    {
        self.latest_packet
    }
}

/// Two packets move the receiver on by one channel, the last channel leading
/// back to the first, and leave the count of packets on the channel as it
/// was.
pub proof fn hop_order_is_cyclic(v: SymaView, packet: Seq<u8>)
    requires
        v.channel_idx < NUM_DATA_CHANNELS,
        v.packets_on_channel < PACKETS_PER_CHANNEL,
    ensures
        v.received(packet).channel_idx < NUM_DATA_CHANNELS,
        v.received(packet).packets_on_channel < PACKETS_PER_CHANNEL,
        v.received(packet).received(packet).channel_idx == (v.channel_idx + 1) % (
        NUM_DATA_CHANNELS as nat),
        v.received(packet).received(packet).packets_on_channel == v.packets_on_channel,
{
}

} // verus!
