use pomelo_kernel::msi::{
    configure_msi_capability, msi_message_address, msi_message_data, DeliveryMode, MSICapability,
    MSICapabilityHeaderData, TriggerMode,
};
use pomelo_kernel::graphic_config::PixelFormat;
use pomelo_kernel::pci::{
    make_address, parse_ids, PCICapabilityHeader, PCICapabilityHeaderData, PCIClass,
    PCIDeviceInfo, PCIFunction, SerialBusSubclass, USBProgramInterface,
};

#[test]
fn config_addresses_encode_the_geographic_address() {
    assert_eq!(make_address(0, 0, 0, 0), 0x8000_0000);
    assert_eq!(make_address(1, 2, 3, 0x10), 0x8001_1310);
    // The register address is aligned down to a word.
    assert_eq!(make_address(0, 0, 0, 0x37), 0x8000_0034);
}

#[test]
fn vendor_ids_of_all_ones_mean_no_device() {
    assert_eq!(parse_ids(0xFFFF_FFFF), None);
    assert_eq!(parse_ids(0x1234_FFFF), None);
    assert_eq!(parse_ids(0x5678_1234), Some((0x1234, 0x5678)));
}

#[test]
fn class_codes_parse_to_usb_controllers() {
    let class = PCIClass::from_code(0x0c, 0x03, 0x30);
    assert_eq!(
        class,
        PCIClass::SerialBusController(SerialBusSubclass::USBController(USBProgramInterface::XHCI))
    );
    assert_eq!(
        PCIClass::from_code(0x0c, 0x03, 0x20),
        PCIClass::SerialBusController(SerialBusSubclass::USBController(
            USBProgramInterface::Unimplemented(0x20)
        ))
    );
    assert_eq!(PCIClass::from_code(0x01, 0x02, 0x03), PCIClass::Unimplemented(0x01, 0x02, 0x03));
    assert_eq!(PCIClass::Unimplemented(1, 2, 3).to_code(), (1, 2, 3));
    assert_eq!(USBProgramInterface::XHCI.to_code(), 0x30);
    assert_eq!(SerialBusSubclass::from_code(0x03, 0x30).to_code(), (0x03, 0x30));
}

#[test]
fn capability_headers_split_their_fields() {
    let data = PCICapabilityHeaderData(0xABCD_1105);
    assert_eq!(data.capability_id(), 0x05);
    assert_eq!(data.next_ptr(), 0x11);
    assert_eq!(data.capability(), 0xABCD);

    let header = PCICapabilityHeader::new(data, 0x40);
    assert_eq!(*header.capability_address(), 0x40);
    assert_eq!(header.data().capability_id(), 0x05);
}

#[test]
fn device_and_function_records_carry_their_fields() {
    let d = PCIDeviceInfo::new(1, 2, 0x8086, 0x1234);
    assert_eq!((*d.bus(), *d.device()), (1, 2));
    assert_eq!((*d.vendor_id(), *d.device_id()), (0x8086, 0x1234));

    let f = PCIFunction::new(1, 2, 0, 0x8086, 0x1234, 0x80, PCIClass::from_code(0x0c, 0x03, 0x30), [0; 6]);
    assert_eq!(*f.function(), 0);
    assert_eq!(*f.header_type(), 0x80);
    assert!(!PCIFunction::is_singleton_header_type(*f.header_type()));
    assert!(PCIFunction::is_singleton_header_type(0x00));
    assert_eq!(PCIFunction::bar_register_address(0), 0x10);
    assert_eq!(PCIFunction::bar_register_address(5), 0x24);
}

#[test]
fn msi_message_words() {
    assert_eq!(msi_message_address(0), 0xFEE0_0000);
    assert_eq!(msi_message_address(1), 0xFEE0_1000);
    assert_eq!(
        msi_message_data(TriggerMode::Edge, DeliveryMode::Fixed, 0x40),
        0x0040
    );
    assert_eq!(
        msi_message_data(TriggerMode::Level, DeliveryMode::Fixed, 0x40),
        0xC040
    );
    assert_eq!(
        msi_message_data(TriggerMode::Level, DeliveryMode::LowestPriority, 0x21),
        0xC121
    );
}

#[test]
fn configuring_a_capability_enables_msi() {
    // Header: id 0x05, next 0, multi-message capable = 2 (bits 19..17).
    let header = MSICapabilityHeaderData(0x05 | (2 << 17));
    let capability = MSICapability {
        header,
        capability_address: 0x50,
        message_address: 0,
        message_upper_address: 0,
        message_data: 0,
        mask_bits: 0,
        pending_bits: 0,
    };
    let configured = configure_msi_capability(capability, 0xFEE0_0000, 0xC040, 5);
    assert!(configured.header.msi_enable());
    // Requested 5 vectors (as an exponent) but only 2 are supported.
    assert_eq!(configured.header.multi_message_enable(), 2);
    assert_eq!(configured.header.multi_message_capable(), 2);
    assert_eq!(configured.message_address, 0xFEE0_0000);
    assert_eq!(configured.message_data, 0xC040);
    assert_eq!(configured.capability_address, 0x50);
}

#[test]
fn pixel_formats_describe_channel_offsets() {
    assert_eq!(PixelFormat::Rgb.bytes_per_pixel(), 4);
    assert_eq!(PixelFormat::Rgb.r_offset(), 0);
    assert_eq!(PixelFormat::Rgb.b_offset(), 2);
    assert_eq!(PixelFormat::Bgr.r_offset(), 2);
    assert_eq!(PixelFormat::Bgr.b_offset(), 0);
    assert_eq!(PixelFormat::Bgr.g_offset(), 1);
}
