use vstd::prelude::*;
use crate::apu::Channel;
use crate::apu::pulse::PulseRegister;
use crate::apu::triangle::TriangleRegister;
use crate::apu::noise::NoiseRegister;
use crate::apu::dmc::DMCRegister;
use crate::apu::memory::bytes_loaded;

verus! {

/// What a register offset ($4000 + offset) is wired to.
pub enum MappedAddress {
    Pulse1(PulseRegister),
    Pulse2(PulseRegister),
    Triangle(TriangleRegister),
    Noise(NoiseRegister),
    DMC(DMCRegister),
    StatusRegister,
    NotUsed,
    FrameRegister,
}

/// The register each offset below $18 is wired to; $14 and $16 are not
/// wired.
pub open spec fn mapped_address(address: u8) -> MappedAddress {
    if address == 0x00 {
        MappedAddress::Pulse1(PulseRegister::R0)
    } else if address == 0x01 {
        MappedAddress::Pulse1(PulseRegister::R1)
    } else if address == 0x02 {
        MappedAddress::Pulse1(PulseRegister::R2)
    } else if address == 0x03 {
        MappedAddress::Pulse1(PulseRegister::R3)
    } else if address == 0x04 {
        MappedAddress::Pulse2(PulseRegister::R0)
    } else if address == 0x05 {
        MappedAddress::Pulse2(PulseRegister::R1)
    } else if address == 0x06 {
        MappedAddress::Pulse2(PulseRegister::R2)
    } else if address == 0x07 {
        MappedAddress::Pulse2(PulseRegister::R3)
    } else if address == 0x08 {
        MappedAddress::Triangle(TriangleRegister::R0)
    } else if address == 0x09 {
        MappedAddress::Triangle(TriangleRegister::R1)
    } else if address == 0x0A {
        MappedAddress::Triangle(TriangleRegister::R2)
    } else if address == 0x0B {
        MappedAddress::Triangle(TriangleRegister::R3)
    } else if address == 0x0C {
        MappedAddress::Noise(NoiseRegister::R0)
    } else if address == 0x0D {
        MappedAddress::Noise(NoiseRegister::R1)
    } else if address == 0x0E {
        MappedAddress::Noise(NoiseRegister::R2)
    } else if address == 0x0F {
        MappedAddress::Noise(NoiseRegister::R3)
    } else if address == 0x10 {
        MappedAddress::DMC(DMCRegister::R0)
    } else if address == 0x11 {
        MappedAddress::DMC(DMCRegister::R1)
    } else if address == 0x12 {
        MappedAddress::DMC(DMCRegister::R2)
    } else if address == 0x13 {
        MappedAddress::DMC(DMCRegister::R3)
    } else if address == 0x15 {
        MappedAddress::StatusRegister
    } else if address == 0x17 {
        MappedAddress::FrameRegister
    } else {
        MappedAddress::NotUsed
    }
}

/// The offset of the first of a channel's four registers.
pub open spec fn channel_base(channel: Channel) -> int {
    match channel {
        Channel::Pulse1 => 0x00,
        Channel::Pulse2 => 0x04,
        Channel::Triangle => 0x08,
        Channel::Noise => 0x0C,
        Channel::DMC => 0x10,
    }
}

/// The four register bytes of `channel` in the register file `mem`.
pub open spec fn channel_registers(mem: Seq<u8>, channel: Channel) -> Seq<u8> {
    mem.subrange(channel_base(channel), channel_base(channel) + 4)
}

/// Law: after the registers of a channel are set, reading them back gives
/// what was set, and the registers of every other channel are unchanged.
pub proof fn lemma_channel_registers_read_back(
    mem: Seq<u8>,
    channel: Channel,
    other: Channel,
    bytes: Seq<u8>,
)
    requires
        mem.len() == 0x18,
        bytes.len() == 4,
    ensures
        channel_registers(bytes_loaded(mem, channel_base(channel), bytes), channel) == bytes,
        channel_base(other) != channel_base(channel) ==> channel_registers(
            bytes_loaded(mem, channel_base(channel), bytes),
            other,
        ) == channel_registers(mem, other),
{
    assert(channel_registers(bytes_loaded(mem, channel_base(channel), bytes), channel) =~= bytes);
    assert(channel_base(other) != channel_base(channel) ==> channel_registers(
        bytes_loaded(mem, channel_base(channel), bytes),
        other,
    ) =~= channel_registers(mem, other));
}

/// The memory-mapped register file at $4000-$4017.
pub struct Registers {
    pub memory: [u8; 0x18],
}

impl Registers {
    pub fn new() -> (r: Registers)
        ensures
            r.memory@ == Seq::new(0x18, |i: int| 0u8),
    {
        let r = Registers { memory: [0; 0x18] };
        assert(r.memory@ =~= Seq::new(0x18, |i: int| 0u8));
        r
    }

    pub fn write_register(&mut self, address: u8, byte: u8) -> (r: MappedAddress)
        requires
            address < 0x18,
        ensures
            final(self).memory@ == old(self).memory@.update(address as int, byte),
            r == mapped_address(address),
    {
        self.memory[address as usize] = byte;
        match address {
            0x00 => MappedAddress::Pulse1(PulseRegister::R0),
            0x01 => MappedAddress::Pulse1(PulseRegister::R1),
            0x02 => MappedAddress::Pulse1(PulseRegister::R2),
            0x03 => MappedAddress::Pulse1(PulseRegister::R3),
            0x04 => MappedAddress::Pulse2(PulseRegister::R0),
            0x05 => MappedAddress::Pulse2(PulseRegister::R1),
            0x06 => MappedAddress::Pulse2(PulseRegister::R2),
            0x07 => MappedAddress::Pulse2(PulseRegister::R3),
            0x08 => MappedAddress::Triangle(TriangleRegister::R0),
            0x09 => MappedAddress::Triangle(TriangleRegister::R1),
            0x0A => MappedAddress::Triangle(TriangleRegister::R2),
            0x0B => MappedAddress::Triangle(TriangleRegister::R3),
            0x0C => MappedAddress::Noise(NoiseRegister::R0),
            0x0D => MappedAddress::Noise(NoiseRegister::R1),
            0x0E => MappedAddress::Noise(NoiseRegister::R2),
            0x0F => MappedAddress::Noise(NoiseRegister::R3),
            0x10 => MappedAddress::DMC(DMCRegister::R0),
            0x11 => MappedAddress::DMC(DMCRegister::R1),
            0x12 => MappedAddress::DMC(DMCRegister::R2),
            0x13 => MappedAddress::DMC(DMCRegister::R3),
            0x14 => MappedAddress::NotUsed,
            0x15 => MappedAddress::StatusRegister,
            0x16 => MappedAddress::NotUsed,
            _ => MappedAddress::FrameRegister,
        }
    }

    fn get_register_address(&self, channel: Channel) -> (r: usize)
        ensures
            r == channel_base(channel),
    {
        match channel {
            Channel::Pulse1 => 0x00,
            Channel::Pulse2 => 0x04,
            Channel::Triangle => 0x08,
            Channel::Noise => 0x0C,
            Channel::DMC => 0x10,
        }
    }

    pub fn get_channel_registers(&self, channel: Channel) -> (r: [u8; 4])
        ensures
            r@ == channel_registers(self.memory@, channel),
    {
        let mut bytes: [u8; 4] = [0; 4];
        let addr = self.get_register_address(channel);
        let mut i: usize = 0;
        while i < 4
            invariant
                i <= 4,
                addr <= 0x10,
                bytes@.len() == 4,
                forall|j: int| 0 <= j < i ==> bytes@[j] == self.memory@[addr + j],
            decreases 4 - i,
        {
            bytes[i] = self.memory[addr + i];
            i += 1;
        }
        assert(bytes@ =~= self.memory@.subrange(addr as int, addr + 4));
        bytes
    }

    pub fn set_channel_registers(&mut self, channel: Channel, bytes: [u8; 4])
        ensures
            final(self).memory@ == bytes_loaded(old(self).memory@, channel_base(channel), bytes@),
    {
        let addr = self.get_register_address(channel);
        let mut i: usize = 0;
        while i < 4
            invariant
                i <= 4,
                addr == channel_base(channel),
                self.memory@ == bytes_loaded(old(self).memory@, addr as int, bytes@.take(i as int)),
            decreases 4 - i,
        {
            self.memory[addr + i] = bytes[i];
            i += 1;
            assert(self.memory@ =~= bytes_loaded(old(self).memory@, addr as int, bytes@.take(i as int)));
        }
        assert(bytes@.take(4) =~= bytes@);
    }

    pub fn get_status_register(&self) -> (r: u8)
        ensures
            r == self.memory@[0x15],
    {
        self.memory[0x15]
    }

    pub fn set_status_register(&mut self, value: u8)
        ensures
            final(self).memory@ == old(self).memory@.update(0x15, value),
    {
        self.memory[0x15] = value;
    }

    pub fn get_frame_register(&self) -> (r: u8)
        ensures
            r == self.memory@[0x17],
    {
        self.memory[0x17]
    }

    pub fn set_frame_register(&mut self, value: u8)
        ensures
            final(self).memory@ == old(self).memory@.update(0x17, value),
    {
        self.memory[0x17] = value;
    }
}

} // verus!
