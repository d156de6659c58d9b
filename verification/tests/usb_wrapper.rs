use it9910hd::usb_wrapper::{
    find_device, DeviceId, Endpoint, TransferKind, UsbError, UsbWrapper, PRODUCT_ID, VENDOR_ID,
};

fn grabber() -> Option<DeviceId> {
    Some(DeviceId { vendor_id: 0x048D, product_id: 0x9910 })
}

fn bulk(address: u8) -> Endpoint {
    Endpoint { address, kind: TransferKind::Bulk }
}

#[test]
fn the_ids_are_those_of_the_grabber() {
    assert_eq!(VENDOR_ID, 0x048D);
    assert_eq!(PRODUCT_ID, 0x9910);
}

#[test]
fn find_device_takes_the_first_grabber() {
    let devices = vec![
        Some(DeviceId { vendor_id: 0x1D6B, product_id: 0x0002 }),
        None,
        grabber(),
        grabber(),
    ];
    assert_eq!(find_device(&devices), Ok(2));
    assert_eq!(find_device(&vec![grabber()]), Ok(0));
}

#[test]
fn find_device_wants_both_ids() {
    let devices = vec![
        Some(DeviceId { vendor_id: 0x048D, product_id: 0x9911 }),
        Some(DeviceId { vendor_id: 0x048E, product_id: 0x9910 }),
        None,
    ];
    assert_eq!(find_device(&devices), Err(UsbError::DeviceNotFound));
    assert_eq!(find_device(&Vec::new()), Err(UsbError::DeviceNotFound));
}

#[test]
fn session_takes_the_first_three_bulk_endpoints_in_order() {
    let endpoints = vec![bulk(0x81), bulk(0x02), bulk(0x83)];
    let session = UsbWrapper::new(&endpoints, 0, true).unwrap();
    assert_eq!(session.read_addr, 0x81);
    assert_eq!(session.write_addr, 0x02);
    assert_eq!(session.data_addr, 0x83);
    assert_eq!(session.interface_number, 0);
    assert!(session.has_kernel_driver);
}

#[test]
fn session_skips_endpoints_that_are_not_bulk() {
    let endpoints = vec![
        Endpoint { address: 0x84, kind: TransferKind::Interrupt },
        bulk(0x81),
        Endpoint { address: 0x05, kind: TransferKind::Isochronous },
        bulk(0x02),
        Endpoint { address: 0x00, kind: TransferKind::Control },
        bulk(0x83),
        bulk(0x06),
    ];
    let session = UsbWrapper::new(&endpoints, 3, false).unwrap();
    assert_eq!(
        session,
        UsbWrapper {
            read_addr: 0x81,
            write_addr: 0x02,
            data_addr: 0x83,
            has_kernel_driver: false,
            interface_number: 3,
        }
    );
}

#[test]
fn session_needs_three_bulk_endpoints() {
    assert_eq!(UsbWrapper::new(&Vec::new(), 0, false), Err(UsbError::MissingEndpoints));
    let endpoints = vec![
        bulk(0x81),
        bulk(0x02),
        Endpoint { address: 0x83, kind: TransferKind::Interrupt },
    ];
    assert_eq!(UsbWrapper::new(&endpoints, 0, false), Err(UsbError::MissingEndpoints));
}
