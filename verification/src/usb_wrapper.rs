//! What a USB session with the grabber consists of, and how it is chosen
//! from what enumeration found.

use vstd::prelude::*;

verus! {

/// Vendor id of the grabber.
pub const VENDOR_ID: u16 = 0x048D;

/// Product id of the grabber.
pub const PRODUCT_ID: u16 = 0x9910;

/// The two ids of a device descriptor.
#[derive(Clone, Copy, Debug, PartialEq, Eq, Structural)]
pub struct DeviceId {
    pub vendor_id: u16,
    pub product_id: u16,
}

/// How an endpoint transfers.
#[derive(Clone, Copy, Debug, PartialEq, Eq, Structural)]
pub enum TransferKind {
    Control,
    Isochronous,
    Bulk,
    Interrupt,
}

/// An endpoint descriptor, as far as the session needs it.
#[derive(Clone, Copy, Debug, PartialEq, Eq, Structural)]
pub struct Endpoint {
    pub address: u8,
    pub kind: TransferKind,
}

/// Why no session could be described.
#[derive(Clone, Copy, Debug, PartialEq, Eq, Structural)]
pub enum UsbError {
    /// No device on the bus has the grabber's ids.
    DeviceNotFound,
    /// The interface has fewer than three bulk endpoints.
    MissingEndpoints,
}

/// A claimed interface of the grabber: its three bulk endpoints, and what
/// has to be undone when the session ends.
#[derive(Clone, Copy, Debug, PartialEq, Eq, Structural)]
pub struct UsbWrapper {
    /// Endpoint that command responses are read from.
    pub read_addr: u8,
    /// Endpoint that command requests are written to.
    pub write_addr: u8,
    /// Endpoint that the stream is read from.
    pub data_addr: u8,
    /// Whether the kernel driver was detached when the interface was
    /// claimed, and so has to be attached again when the session ends.
    pub has_kernel_driver: bool,
    /// Number of the claimed interface, to release when the session ends.
    pub interface_number: u8,
}

/// Whether a descriptor is the grabber's. A descriptor that could not be
/// read (`None`) is nobody's.
pub open spec fn is_grabber(device: Option<DeviceId>) -> bool {
    device == Some(DeviceId { vendor_id: 0x048D, product_id: 0x9910 })
}

/// The addresses of the bulk endpoints among `endpoints`, in their order.
pub open spec fn bulk_addresses(endpoints: Seq<Endpoint>) -> Seq<u8>
    decreases endpoints.len(),
{
    if endpoints.len() == 0 {
        Seq::empty()
    } else if endpoints.last().kind == TransferKind::Bulk {
        bulk_addresses(endpoints.drop_last()).push(endpoints.last().address)
    } else {
        bulk_addresses(endpoints.drop_last())
    }
}

/// Picks the grabber among the devices that enumeration found, given by
/// their descriptors in bus order: the first one that has its ids.
pub fn find_device(devices: &Vec<Option<DeviceId>>) -> (found: Result<usize, UsbError>)
    ensures
        match found {
            Ok(index) => {
                &&& index < devices.len()
                &&& is_grabber(devices[index as int])
                &&& forall|earlier: int| 0 <= earlier < index ==> !is_grabber(devices[earlier])
            },
            Err(error) => {
                &&& error == UsbError::DeviceNotFound
                &&& forall|any: int| 0 <= any < devices.len() ==> !is_grabber(devices[any])
            },
        },
{
    let mut index: usize = 0;
    while index < devices.len()
        invariant
            index <= devices.len(),
            forall|earlier: int| 0 <= earlier < index ==> !is_grabber(devices[earlier]),
        decreases devices.len() - index,
    {
        match devices[index] {
            Some(id) => {
                if id.vendor_id == VENDOR_ID && id.product_id == PRODUCT_ID {
                    return Ok(index);
                }
            },
            None => {},
        }
        index += 1;
    }
    Err(UsbError::DeviceNotFound)
}

impl UsbWrapper {
    /// Describes the session on interface `interface_number`, whose
    /// endpoints are `endpoints` in descriptor order: the first three bulk
    /// endpoints are, in that order, the one for command responses, the one
    /// for command requests and the one for the stream.
    pub fn new(endpoints: &Vec<Endpoint>, interface_number: u8, has_kernel_driver: bool) -> (made:
        Result<UsbWrapper, UsbError>)
        ensures
            bulk_addresses(endpoints@).len() < 3 ==> made == Err::<UsbWrapper, UsbError>(
                UsbError::MissingEndpoints,
            ),
            bulk_addresses(endpoints@).len() >= 3 ==> {
                &&& made matches Ok(session)
                &&& session.read_addr == bulk_addresses(endpoints@)[0]
                &&& session.write_addr == bulk_addresses(endpoints@)[1]
                &&& session.data_addr == bulk_addresses(endpoints@)[2]
                &&& session.interface_number == interface_number
                &&& session.has_kernel_driver == has_kernel_driver
            },
    {
        let mut bulk: Vec<u8> = Vec::new();
        let mut index: usize = 0;
        while index < endpoints.len()
            invariant
                index <= endpoints.len(),
                bulk@ == bulk_addresses(endpoints@.take(index as int)),
            decreases endpoints.len() - index,
        {
            assert(endpoints@.take(index + 1).drop_last() == endpoints@.take(index as int));
            match endpoints[index].kind {
                TransferKind::Bulk => {
                    bulk.push(endpoints[index].address);
                },
                _ => {},
            }
            index += 1;
        }
        assert(endpoints@.take(index as int) == endpoints@);
        if bulk.len() < 3 {
            return Err(UsbError::MissingEndpoints);
        }
        Ok(
            UsbWrapper {
                read_addr: bulk[0],
                write_addr: bulk[1],
                data_addr: bulk[2],
                has_kernel_driver,
                interface_number,
            },
        )
    }
}

} // verus!
