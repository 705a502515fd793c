//! Message Signaled Interrupts: the message address and data words for a
//! fixed-destination interrupt, and the MSI capability record as it is
//! rewritten to enable delivery. Reading and writing the capability's
//! configuration registers is the platform layer's; the words themselves
//! are computed and checked here.

use vstd::prelude::*;

verus! {

#[derive(Copy, Clone, PartialEq, Eq, Hash, Debug, Structural)]
pub enum TriggerMode {
    Edge,
    Level,
}

#[derive(Copy, Clone, PartialEq, Eq, Hash, Debug, Structural)]
pub enum DeliveryMode {
    Fixed,
    LowestPriority,
    SMI,
    NMI,
    INIT,
    ExtINT,
}

impl DeliveryMode {
    /// The three-bit encoding of the delivery mode in the message data.
    pub fn code(self) -> (r: u8)
        ensures
            r == spec_delivery_mode_code(self),
    {
        match self {
            DeliveryMode::Fixed => 0b000,
            DeliveryMode::LowestPriority => 0b001,
            DeliveryMode::SMI => 0b010,
            DeliveryMode::NMI => 0b100,
            DeliveryMode::INIT => 0b101,
            DeliveryMode::ExtINT => 0b111,
        }
    }
}

pub open spec fn spec_delivery_mode_code(d: DeliveryMode) -> u8 {
    match d {
        DeliveryMode::Fixed => 0b000u8,
        DeliveryMode::LowestPriority => 0b001u8,
        DeliveryMode::SMI => 0b010u8,
        DeliveryMode::NMI => 0b100u8,
        DeliveryMode::INIT => 0b101u8,
        DeliveryMode::ExtINT => 0b111u8,
    }
}

/// The message address that routes the interrupt to one local APIC.
pub fn msi_message_address(apic_id: u8) -> (r: u32)
    ensures
        r == 0xFEE00000u32 | ((apic_id as u32) << 12),
{
    0xFEE00000 | ((apic_id as u32) << 12)
}

/// The message data word: delivery mode and vector, with the level-trigger
/// bits set when level triggering is asked for.
pub fn msi_message_data(trigger_mode: TriggerMode, delivery_mode: DeliveryMode, vector: u8) -> (r:
    u32)
    ensures
        trigger_mode is Level ==> r == (((spec_delivery_mode_code(delivery_mode) as u32) << 8) | (
        vector as u32)) | 0xC000,
        trigger_mode is Edge ==> r == ((spec_delivery_mode_code(delivery_mode) as u32) << 8) | (
        vector as u32),
{
    let mut message_data = ((delivery_mode.code() as u32) << 8) | (vector as u32);
    if matches!(trigger_mode, TriggerMode::Level) {
        message_data = message_data | 0xC000;
    }
    message_data
}

/// The first word of the MSI capability, with its bit fields.
#[derive(Copy, Clone, PartialEq, Eq, Hash, Debug, Structural)]
pub struct MSICapabilityHeaderData(pub u32);

impl MSICapabilityHeaderData {
    /// Bits 7..0: which capability this is.
    pub fn capability_id(&self) -> (r: u8)
        ensures
            r == (self.0 & 0xFF) as u8,
    {
        proof {
            let x = self.0;
            assert(x as u8 == (x & 0xFF) as u8) by (bit_vector);
        }
        self.0 as u8
    }

    /// Bits 15..8: configuration-space address of the next capability, or 0.
    pub fn next_ptr(&self) -> (r: u8)
        ensures
            r == ((self.0 >> 8) & 0xFF) as u8,
    {
        proof {
            let x = self.0;
            assert((x >> 8) as u8 == ((x >> 8) & 0xFF) as u8) by (bit_vector);
        }
        (self.0 >> 8) as u8
    }

    /// Bit 16: whether MSI delivery is enabled.
    pub fn msi_enable(&self) -> (r: bool)
        ensures
            r == (self.0 & 0x10000 != 0),
    {
        self.0 & 0x10000 != 0
    }

    /// Sets bit 16, leaving every other bit alone.
    pub fn set_msi_enable(&mut self)
        ensures
            final(self).0 == old(self).0 | 0x10000,
    {
        self.0 = self.0 | 0x10000;
    }

    /// Bits 19..17: how many vectors the function can use, as an exponent.
    pub fn multi_message_capable(&self) -> (r: u8)
        ensures
            r == ((self.0 >> 17) & 0b111) as u8,
    {
        ((self.0 >> 17) & 0b111) as u8
    }

    /// Bits 22..20: how many vectors are enabled, as an exponent.
    pub fn multi_message_enable(&self) -> (r: u8)
        ensures
            r == ((self.0 >> 20) & 0b111) as u8,
    {
        ((self.0 >> 20) & 0b111) as u8
    }

    /// Replaces bits 22..20 with the low three bits of `value`.
    pub fn set_multi_message_enable(&mut self, value: u8)
        ensures
            final(self).0 == (old(self).0 & 0xFF8FFFFF) | (((value & 0b111) as u32) << 20),
    {
        self.0 = (self.0 & 0xFF8FFFFF) | (((value & 0b111) as u32) << 20);
    }

    /// Bit 23: whether the function supports 64-bit message addresses.
    pub fn addr_64_capable(&self) -> (r: bool)
        ensures
            r == (self.0 & 0x800000 != 0),
    {
        self.0 & 0x800000 != 0
    }

    /// Bit 24: whether the function supports per-vector masking.
    pub fn per_vector_mask_capable(&self) -> (r: bool)
        ensures
            r == (self.0 & 0x1000000 != 0),
    {
        self.0 & 0x1000000 != 0
    }
}

/// The MSI capability of a function, as read from and written back to its
/// configuration registers.
#[derive(Copy, Clone, PartialEq, Eq, Hash, Debug, Structural)]
pub struct MSICapability {
    pub header: MSICapabilityHeaderData,
    pub capability_address: u8,
    pub message_address: u32,
    pub message_upper_address: u32,
    pub message_data: u32,
    pub mask_bits: u32,
    pub pending_bits: u32,
}

/// Rewrites a capability so the function delivers interrupts to the given
/// address and data: enables MSI, and enables as many vectors as asked for,
/// capped at what the function is capable of.
pub fn configure_msi_capability(
    capability: MSICapability,
    message_address: u32,
    message_data: u32,
    num_vector_exponent: u8,
) -> (r: MSICapability)
    ensures
        r.capability_address == capability.capability_address,
        r.message_upper_address == capability.message_upper_address,
        r.mask_bits == capability.mask_bits,
        r.pending_bits == capability.pending_bits,
        r.message_address == message_address,
        r.message_data == message_data,
        r.header.0 == ((capability.header.0 & 0xFF8FFFFF) | (((spec_min_u8(
            num_vector_exponent,
            ((capability.header.0 >> 17) & 0b111) as u8,
        ) & 0b111) as u32) << 20)) | 0x10000,
{
    let mut capability = capability;
    let capable = capability.header.multi_message_capable();
    let enable = if num_vector_exponent < capable {
        num_vector_exponent
    } else {
        capable
    };
    capability.header.set_multi_message_enable(enable);
    capability.header.set_msi_enable();
    capability.message_address = message_address;
    capability.message_data = message_data;
    capability
}

pub open spec fn spec_min_u8(a: u8, b: u8) -> u8 {
    if a < b {
        a
    } else {
        b
    }
}

} // verus!
