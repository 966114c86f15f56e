use pci_scan::hierarchy::{is_present, with_interrupt_line, ABSENT_VENDOR_ID};
use pci_scan::{probe_device, DeviceInfo, FunctionAddress, HeaderType, HeaderTypeByte, InterruptInfo};

#[test]
fn all_ones_vendor_means_absent_device() {
    assert_eq!(probe_device(0, 3, 0xFFFF_FFFF, 0x0080_0000), None);
    assert_eq!(probe_device(0, 3, 0x1234_FFFF, 0x0000_0000), None);
    assert!(!is_present(ABSENT_VENDOR_ID));
}

#[test]
fn present_device_records_multi_function() {
    assert_eq!(
        probe_device(2, 31, 0x1237_8086, 0x0080_0000),
        Some(DeviceInfo { bus_number: 2, device_number: 31, multi_function: true })
    );
    assert_eq!(
        probe_device(0, 0, 0x1237_8086, 0x0001_0000),
        Some(DeviceInfo { bus_number: 0, device_number: 0, multi_function: false })
    );
}

#[test]
fn function_probe() {
    let multi = DeviceInfo { bus_number: 1, device_number: 4, multi_function: true };
    assert_eq!(multi.function_count(), 8);
    assert_eq!(multi.probe_function(7, 0xFFFF), None);
    assert_eq!(
        multi.probe_function(7, 0x8086),
        Some(FunctionAddress { bus_number: 1, device_number: 4, function_number: 7 })
    );
    let single = DeviceInfo { bus_number: 1, device_number: 5, multi_function: false };
    assert_eq!(single.function_count(), 1);
    assert_eq!(single.probe_function(0, 0xFFFF), None);
}

#[test]
fn header_type_byte_fields() {
    let b = HeaderTypeByte(0x81);
    assert!(b.multi_function());
    assert_eq!(b.header_type(), 1);
    assert!(!HeaderTypeByte(0x00).multi_function());
}

#[test]
fn header_layouts() {
    assert_eq!(HeaderType::from_raw(0), Some(HeaderType::GeneralDevice));
    assert_eq!(HeaderType::from_raw(1), Some(HeaderType::PciToPciBridge));
    assert_eq!(HeaderType::from_raw(2), Some(HeaderType::PciToCardBusBridge));
    assert_eq!(HeaderType::from_raw(3), None);
    assert_eq!(HeaderType::GeneralDevice.max_bars(), 6);
    assert_eq!(HeaderType::PciToPciBridge.max_bars(), 2);
    assert_eq!(HeaderType::PciToCardBusBridge.max_bars(), 0);
    assert_eq!(HeaderType::GeneralDevice.capabilities_pointer_offset(), 0x34);
    assert_eq!(HeaderType::PciToPciBridge.capabilities_pointer_offset(), 0x34);
    assert_eq!(HeaderType::PciToCardBusBridge.capabilities_pointer_offset(), 0x14);
    assert_eq!(HeaderType::PciToCardBusBridge.interrupt_reg_addr(), 0x3C);
}

#[test]
fn interrupt_register() {
    assert_eq!(
        InterruptInfo::from_register(0x0000_010B),
        InterruptInfo { interrupt_pin: 1, interrupt_line: 0x0B }
    );
    assert_eq!(with_interrupt_line(0x1234_010B, 0x2A), 0x1234_012A);
}
