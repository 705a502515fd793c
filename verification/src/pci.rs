//! PCI configuration-space bookkeeping: the address encoding of the legacy
//! configuration ports, identifier parsing, class codes, and capability
//! headers. The port reads and writes themselves are the platform layer's;
//! everything here computes on the values it passes through.

use vstd::prelude::*;

verus! {

/// The configuration-space address of a register of a device function, as
/// written to the legacy configuration address port: the enable bit, then
/// bus, device and function, then the register address aligned down to a
/// word.
pub open spec fn spec_make_address(bus: u8, device: u8, function: u8, register_address: u8) -> u32 {
    (1u32 << 31) | ((bus as u32) << 16) | ((device as u32) << 11) | ((function as u32) << 8) | ((
    register_address as u32) & 0xFC)
}

pub fn make_address(bus: u8, device: u8, function: u8, register_address: u8) -> (r: u32)
    requires
        device < 32,
        function < 8,
    ensures
        r == spec_make_address(bus, device, function, register_address),
{
    (1u32 << 31) | ((bus as u32) << 16) | ((device as u32) << 11) | ((function as u32) << 8) | ((
    register_address as u32) & 0xFC)
}

/// Splits the word at register `0x00` into vendor and device identifiers;
/// an all-ones vendor means no device answered.
pub fn parse_ids(raw: u32) -> (r: Option<(u16, u16)>)
    ensures
        (raw & 0xFFFF) == 0xFFFF <==> r is None,
        r matches Some(ids) ==> ids.0 == (raw & 0xFFFF) as u16 && ids.1 == ((raw >> 16)
            & 0xFFFF) as u16,
{
    let device_id = (raw >> 16) as u16;
    let vendor_id = raw as u16;
    proof {
        assert(raw as u16 == (raw & 0xFFFF) as u16 && (raw >> 16) as u16 == ((raw >> 16)
            & 0xFFFF) as u16 && ((raw as u16 == 0xFFFF) <==> ((raw & 0xFFFF) == 0xFFFF)))
            by (bit_vector);
    }
    if vendor_id == u16::MAX {
        None
    } else {
        Some((vendor_id, device_id))
    }
}

/// The class of a PCI function, as far as this kernel tells them apart.
#[derive(Copy, Clone, PartialEq, Eq, Hash, Debug, Structural)]
pub enum PCIClass {
    SerialBusController(SerialBusSubclass),
    Unimplemented(u8, u8, u8),
}

#[derive(Copy, Clone, PartialEq, Eq, Hash, Debug, Structural)]
pub enum SerialBusSubclass {
    USBController(USBProgramInterface),
    Unimplemented(u8, u8),
}

#[derive(Copy, Clone, PartialEq, Eq, Hash, Debug, Structural)]
pub enum USBProgramInterface {
    XHCI,
    Unimplemented(u8),
}

impl PCIClass {
    pub fn from_code(base: u8, sub: u8, interface: u8) -> (r: PCIClass)
        ensures
            base == 0x0c ==> r == PCIClass::SerialBusController(
                spec_serial_bus_from_code(sub, interface),
            ),
            base != 0x0c ==> r == PCIClass::Unimplemented(base, sub, interface),
    {
        match base {
            0x0c => Self::SerialBusController(SerialBusSubclass::from_code(sub, interface)),
            _ => Self::Unimplemented(base, sub, interface),
        }
    }

    pub fn to_code(self) -> (r: (u8, u8, u8))
        ensures
            self matches PCIClass::SerialBusController(a) ==> r == (
                0x03u8,
                spec_serial_bus_to_code(a).0,
                spec_serial_bus_to_code(a).1,
            ),
            self matches PCIClass::Unimplemented(a, b, c) ==> r == (a, b, c),
    {
        match self {
            Self::SerialBusController(a) => {
                let (b, c) = a.to_code();
                (0x03, b, c)
            },
            Self::Unimplemented(a, b, c) => (a, b, c),
        }
    }
}

pub open spec fn spec_serial_bus_from_code(sub: u8, interface: u8) -> SerialBusSubclass {
    if sub == 0x03 {
        SerialBusSubclass::USBController(spec_usb_from_code(interface))
    } else {
        SerialBusSubclass::Unimplemented(sub, interface)
    }
}

pub open spec fn spec_serial_bus_to_code(s: SerialBusSubclass) -> (u8, u8) {
    match s {
        SerialBusSubclass::USBController(a) => (0x03u8, spec_usb_to_code(a)),
        SerialBusSubclass::Unimplemented(a, b) => (a, b),
    }
}

impl SerialBusSubclass {
    pub fn from_code(sub: u8, interface: u8) -> (r: SerialBusSubclass)
        ensures
            r == spec_serial_bus_from_code(sub, interface),
    {
        match sub {
            0x03 => Self::USBController(USBProgramInterface::from_code(interface)),
            _ => Self::Unimplemented(sub, interface),
        }
    }

    pub fn to_code(self) -> (r: (u8, u8))
        ensures
            r == spec_serial_bus_to_code(self),
    {
        match self {
            Self::USBController(a) => (0x03, a.to_code()),
            Self::Unimplemented(a, b) => (a, b),
        }
    }
}

pub open spec fn spec_usb_from_code(interface: u8) -> USBProgramInterface {
    if interface == 0x30 {
        USBProgramInterface::XHCI
    } else {
        USBProgramInterface::Unimplemented(interface)
    }
}

pub open spec fn spec_usb_to_code(u: USBProgramInterface) -> u8 {
    match u {
        USBProgramInterface::XHCI => 0x30u8,
        USBProgramInterface::Unimplemented(a) => a,
    }
}

impl USBProgramInterface {
    pub fn from_code(interface: u8) -> (r: USBProgramInterface)
        ensures
            r == spec_usb_from_code(interface),
    {
        match interface {
            0x30 => Self::XHCI,
            _ => Self::Unimplemented(interface),
        }
    }

    pub fn to_code(self) -> (r: u8)
        ensures
            r == spec_usb_to_code(self),
    {
        match self {
            Self::XHCI => 0x30,
            Self::Unimplemented(a) => a,
        }
    }
}

/// The raw first word of a capability, with its bit fields.
#[derive(Copy, Clone, PartialEq, Eq, Hash, Debug, Structural)]
pub struct PCICapabilityHeaderData(pub u32);

impl PCICapabilityHeaderData {
    /// Bits 7..0: which capability this is.
    pub fn capability_id(&self) -> (r: u8)
        ensures
            r == (self.0 & 0xFF) as u8,
    {
        proof {
            let x = self.0;
            assert(x as u8 == (x & 0xFF) as u8) by (bit_vector);
        }
        self.0 as u8
    }

    /// Bits 15..8: configuration-space address of the next capability, or 0.
    pub fn next_ptr(&self) -> (r: u8)
        ensures
            r == ((self.0 >> 8) & 0xFF) as u8,
    {
        proof {
            let x = self.0;
            assert((x >> 8) as u8 == ((x >> 8) & 0xFF) as u8) by (bit_vector);
        }
        (self.0 >> 8) as u8
    }

    /// Bits 31..16: the capability's own header word.
    pub fn capability(&self) -> (r: u16)
        ensures
            r == ((self.0 >> 16) & 0xFFFF) as u16,
    {
        proof {
            let x = self.0;
            assert((x >> 16) as u16 == ((x >> 16) & 0xFFFF) as u16) by (bit_vector);
        }
        (self.0 >> 16) as u16
    }
}

/// One capability header along with the configuration-space address it was
/// read from.
#[derive(Copy, Clone, PartialEq, Eq, Hash, Debug, Structural)]
pub struct PCICapabilityHeader {
    data: PCICapabilityHeaderData,
    capability_address: u8,
}

impl PCICapabilityHeader {
    pub closed spec fn spec_data(&self) -> PCICapabilityHeaderData {
        self.data
    }

    pub closed spec fn spec_capability_address(&self) -> u8 {
        self.capability_address
    }

    pub fn new(data: PCICapabilityHeaderData, capability_address: u8) -> (r: PCICapabilityHeader)
        ensures
            r.spec_data() == data,
            r.spec_capability_address() == capability_address,
    {
        PCICapabilityHeader { data, capability_address }
    }

    pub fn data(&self) -> (r: &PCICapabilityHeaderData)
        ensures
            *r == self.spec_data(),
    {
        &self.data
    }

    pub fn capability_address(&self) -> (r: &u8)
        ensures
            *r == self.spec_capability_address(),
    {
        &self.capability_address
    }
}

/// A device discovered on the bus, before its functions are enumerated.
#[derive(Copy, Clone, PartialEq, Eq, Hash, Debug, Structural)]
pub struct PCIDeviceInfo {
    bus: u8,
    device: u8,
    vendor_id: u16,
    device_id: u16,
}

impl PCIDeviceInfo {
    pub closed spec fn spec_bus(&self) -> u8 {
        self.bus
    }

    pub closed spec fn spec_device(&self) -> u8 {
        self.device
    }

    pub closed spec fn spec_vendor_id(&self) -> u16 {
        self.vendor_id
    }

    pub closed spec fn spec_device_id(&self) -> u16 {
        self.device_id
    }

    pub fn new(bus: u8, device: u8, vendor_id: u16, device_id: u16) -> (r: PCIDeviceInfo)
        ensures
            r.spec_bus() == bus,
            r.spec_device() == device,
            r.spec_vendor_id() == vendor_id,
            r.spec_device_id() == device_id,
    {
        PCIDeviceInfo { bus, device, vendor_id, device_id }
    }

    pub fn bus(&self) -> (r: &u8)
        ensures
            *r == self.spec_bus(),
    {
        &self.bus
    }

    pub fn device(&self) -> (r: &u8)
        ensures
            *r == self.spec_device(),
    {
        &self.device
    }

    pub fn vendor_id(&self) -> (r: &u16)
        ensures
            *r == self.spec_vendor_id(),
    {
        &self.vendor_id
    }

    pub fn device_id(&self) -> (r: &u16)
        ensures
            *r == self.spec_device_id(),
    {
        &self.device_id
    }
}

/// One function of a device, with everything read out of its configuration
/// header.
#[derive(Copy, Clone, PartialEq, Eq, Hash, Debug)]
pub struct PCIFunction {
    bus: u8,
    device: u8,
    function: u8,
    vendor_id: u16,
    device_id: u16,
    header_type: u8,
    class: PCIClass,
    bars: [u32; 6],
}

impl PCIFunction {
    pub closed spec fn spec_bus(&self) -> u8 {
        self.bus
    }

    pub closed spec fn spec_device(&self) -> u8 {
        self.device
    }

    pub closed spec fn spec_function(&self) -> u8 {
        self.function
    }

    pub closed spec fn spec_vendor_id(&self) -> u16 {
        self.vendor_id
    }

    pub closed spec fn spec_device_id(&self) -> u16 {
        self.device_id
    }

    pub closed spec fn spec_header_type(&self) -> u8 {
        self.header_type
    }

    pub closed spec fn spec_class(&self) -> PCIClass {
        self.class
    }

    pub closed spec fn spec_bars(&self) -> [u32; 6] {
        self.bars
    }

    /// Assembles a function record from the values the platform layer read
    /// out of the device's configuration header.
    pub fn new(
        bus: u8,
        device: u8,
        function: u8,
        vendor_id: u16,
        device_id: u16,
        header_type: u8,
        class: PCIClass,
        bars: [u32; 6],
    ) -> (r: PCIFunction)
        ensures
            r.spec_bus() == bus,
            r.spec_device() == device,
            r.spec_function() == function,
            r.spec_vendor_id() == vendor_id,
            r.spec_device_id() == device_id,
            r.spec_header_type() == header_type,
            r.spec_class() == class,
            r.spec_bars() == bars,
    {
        PCIFunction { bus, device, function, vendor_id, device_id, header_type, class, bars }
    }

    pub fn bus(&self) -> (r: &u8)
        ensures
            *r == self.spec_bus(),
    {
        &self.bus
    }

    pub fn device(&self) -> (r: &u8)
        ensures
            *r == self.spec_device(),
    {
        &self.device
    }

    pub fn function(&self) -> (r: &u8)
        ensures
            *r == self.spec_function(),
    {
        &self.function
    }

    pub fn vendor_id(&self) -> (r: &u16)
        ensures
            *r == self.spec_vendor_id(),
    {
        &self.vendor_id
    }

    pub fn device_id(&self) -> (r: &u16)
        ensures
            *r == self.spec_device_id(),
    {
        &self.device_id
    }

    pub fn header_type(&self) -> (r: &u8)
        ensures
            *r == self.spec_header_type(),
    {
        &self.header_type
    }

    pub fn class(&self) -> (r: &PCIClass)
        ensures
            *r == self.spec_class(),
    {
        &self.class
    }

    pub fn bars(&self) -> (r: &[u32; 6])
        ensures
            *r == self.spec_bars(),
    {
        &self.bars
    }

    /// The register address of the `i`-th base address register.
    pub fn bar_register_address(i: u8) -> (r: u8)
        requires
            i < 6,
        ensures
            r == 0x10 + 4 * i,
    {
        0x10 + 4 * i
    }

    /// Whether the header type word marks the device as single-function.
    pub fn is_singleton_header_type(header_type: u8) -> (r: bool)
        ensures
            r == (header_type & 0x80 == 0),
    {
        header_type & 0x80 == 0
    }
}

} // verus!
