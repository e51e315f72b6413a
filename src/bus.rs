use vstd::prelude::*;

use crate::identity::{
    find_placement, first_match, identify, well_formed_identity, DeviceIdentity, Placement,
    RawDevice,
};
use crate::machine::StartError;
use crate::usb::{
    attached_devices, bus_number, device_address, device_descriptor, open_context, open_device,
    product_id, read_control, vendor_id, OpenHandle, UsbDevice,
};

verus! {

/// Why the attached devices could not be listed.
#[derive(Clone, Copy, Debug, PartialEq, Eq, Structural)]
pub enum ListError {
    /// The bus layer could not list the attached devices.
    Enumeration,
    /// One device's descriptor could not be read, so the whole listing is abandoned.
    Descriptor,
}

/// A probe of an open device failed.
#[derive(Clone, Copy, Debug, PartialEq, Eq, Structural)]
pub struct DescriptorError;

/// A control request from the device to the host, with the length of the buffer that
/// receives it and how long it may take.
#[derive(Clone, Copy, Debug, PartialEq, Eq, Structural)]
pub struct ControlRequest {
    pub request_type: u8,
    pub request: u8,
    pub value: u16,
    pub index: u16,
    pub length: u16,
    pub timeout_ms: u64,
}

/// Length of a standard USB device descriptor, in bytes.
pub const DEVICE_DESCRIPTOR_LEN: u16 = 18;

/// `bmRequestType` of a standard request from the device to the host, addressed to the device.
pub const REQUEST_TYPE_STANDARD_IN: u8 = 0x80;

/// The standard GET_DESCRIPTOR request.
pub const REQUEST_GET_DESCRIPTOR: u8 = 0x06;

/// `wValue` that asks for the device descriptor: descriptor type 1, index 0.
pub const DEVICE_DESCRIPTOR_VALUE: u16 = 0x0100;

/// How long one probe may take before it counts as failed, in milliseconds.
pub const PROBE_TIMEOUT_MS: u64 = 1000;

/// What one enumeration hands over for one device: its placement, and its vendor and product
/// identifiers if its descriptor could be read.
pub type ListedDevice = (Placement, Result<(u16, u16), ()>);

/// The record of a listed device whose descriptor was read.
pub open spec fn record_of(d: ListedDevice) -> RawDevice {
    RawDevice { placement: d.0, vendor_id: d.1->Ok_0.0, product_id: d.1->Ok_0.1 }
}

/// Whether every listed device's descriptor was read.
pub open spec fn all_read(v: Seq<ListedDevice>) -> bool {
    forall|i: int| 0 <= i < v.len() ==> (#[trigger] v[i]).1 is Ok
}

/// The request that a probe sends: GET_DESCRIPTOR for the device descriptor, into an
/// 18-byte buffer, within one second.
pub fn descriptor_request() -> (q: ControlRequest)
    ensures
        q == (ControlRequest {
            request_type: 0x80,
            request: 0x06,
            value: 0x0100,
            index: 0,
            length: 18,
            timeout_ms: 1000,
        }),
{
    ControlRequest {
        request_type: REQUEST_TYPE_STANDARD_IN,
        request: REQUEST_GET_DESCRIPTOR,
        value: DEVICE_DESCRIPTOR_VALUE,
        index: 0,
        length: DEVICE_DESCRIPTOR_LEN,
        timeout_ms: PROBE_TIMEOUT_MS,
    }
}

/// The outcome of a probe, given what its transfer returned: any failed transfer is a
/// `DescriptorError`, any completed one a success, whatever it read.
pub fn probe_outcome(transfer: Result<usize, rusb::Error>) -> (r: Result<(), DescriptorError>)
    ensures
        r is Ok <==> transfer is Ok,
{
    match transfer {
        Ok(_) => Ok(()),
        Err(_) => Err(DescriptorError),
    }
}

/// Builds the snapshot from what one enumeration handed over. A failed listing is an
/// `Enumeration` error; any one descriptor that could not be read fails the whole snapshot
/// with `Descriptor`; otherwise there is one record per listed device, in the listing's order.
pub fn snapshot_from(listing: Result<Vec<ListedDevice>, ()>) -> (r: Result<Vec<RawDevice>, ListError>)
    ensures
        listing is Err ==> r is Err && r->Err_0 == ListError::Enumeration,
        listing is Ok && !all_read(listing->Ok_0@) ==> r is Err && r->Err_0 == ListError::Descriptor,
        listing is Ok && all_read(listing->Ok_0@) ==> r is Ok && r->Ok_0@ == listing->Ok_0@.map_values(
            |d: ListedDevice| record_of(d),
        ),
{
    let v = match listing {
        Ok(v) => v,
        Err(()) => return Err(ListError::Enumeration),
    };
    let mut raws: Vec<RawDevice> = Vec::new();
    let mut i: usize = 0;
    while i < v.len()
        invariant
            i <= v@.len(),
            listing is Ok && listing->Ok_0@ == v@,
            raws@ == v@.subrange(0, i as int).map_values(|d: ListedDevice| record_of(d)),
            forall|j: int| 0 <= j < i ==> (#[trigger] v@[j]).1 is Ok,
        decreases v@.len() - i,
    {
        let d = v[i];
        match d.1 {
            Ok(ids) => {
                raws.push(RawDevice { placement: d.0, vendor_id: ids.0, product_id: ids.1 });
            },
            Err(()) => {
                assert(!all_read(v@));
                return Err(ListError::Descriptor);
            },
        }
        proof {
            assert(v@.subrange(0, i + 1).map_values(|d: ListedDevice| record_of(d)) =~= raws@);
        }
        i = i + 1;
    }
    proof {
        assert(v@.subrange(0, v@.len() as int) =~= v@);
    }
    Ok(raws)
}

/// Where the device at `(bus, address)` stands in a listing of placements. A failed listing is
/// an `Enumeration` error; a placement that is not listed is `NotFound`; otherwise the first
/// match is found.
pub fn locate_in(listing: &Result<Vec<Placement>, ()>, bus: u8, address: u8) -> (r: Result<usize, StartError>)
    ensures
        listing is Err ==> r is Err && r->Err_0 == StartError::Enumeration,
        listing is Ok && first_match(listing->Ok_0@, bus, address) is None ==> r is Err && r->Err_0
            == StartError::NotFound,
        listing is Ok && first_match(listing->Ok_0@, bus, address) is Some ==> r is Ok && r->Ok_0
            == first_match(listing->Ok_0@, bus, address)->Some_0,
        r is Ok ==> listing is Ok && r->Ok_0 < listing->Ok_0@.len() && listing->Ok_0@[r->Ok_0 as int]
            == (Placement { bus, address }),
{
    match listing {
        Err(()) => Err(StartError::Enumeration),
        Ok(ps) => match find_placement(ps, bus, address) {
            Some(i) => Ok(i),
            None => Err(StartError::NotFound),
        },
    }
}

/// The placements of listed devices, in the listing's order.
fn placements(devs: &Vec<UsbDevice>) -> (ps: Vec<Placement>)
    ensures
        ps@.len() == devs@.len(),
{
    let mut ps: Vec<Placement> = Vec::new();
    let mut i: usize = 0;
    while i < devs.len()
        invariant
            i <= devs@.len(),
            ps@.len() == i,
        decreases devs@.len() - i,
    {
        let d = &devs[i];
        ps.push(Placement { bus: bus_number(d), address: device_address(d) });
        i = i + 1;
    }
    ps
}

/// Asks the bus layer for the attached devices and reads each one's placement and
/// identifiers.
fn read_listing() -> (r: Result<Vec<ListedDevice>, ()>) {
    let ctx = match open_context() {
        Ok(ctx) => ctx,
        Err(_) => return Err(()),
    };
    let devs = match attached_devices(&ctx) {
        Ok(devs) => devs,
        Err(_) => return Err(()),
    };
    let mut listed: Vec<ListedDevice> = Vec::new();
    let mut i: usize = 0;
    while i < devs.len()
        invariant
            i <= devs@.len(),
        decreases devs@.len() - i,
    {
        let d = &devs[i];
        let ids = match device_descriptor(d) {
            Ok(desc) => Ok((vendor_id(&desc), product_id(&desc))),
            Err(_) => Err(()),
        };
        listed.push((Placement { bus: bus_number(d), address: device_address(d) }, ids));
        i = i + 1;
    }
    Ok(listed)
}

/// Reads the placement and identifiers of every attached device, in the order the bus layer
/// lists them, as `snapshot_from` builds them.
pub fn read_snapshot() -> (r: Result<Vec<RawDevice>, ListError>) {
    snapshot_from(read_listing())
}

/// Lists the attached devices as the identities shown to the operator, in enumeration order.
pub fn list_devices() -> (r: Result<Vec<DeviceIdentity>, ListError>)
    ensures
        r matches Ok(ids) ==> forall|i: int| 0 <= i < ids@.len() ==> well_formed_identity(#[trigger] ids@[i]@),
{
    match read_snapshot() {
        Ok(raws) => Ok(identify(&raws)),
        Err(e) => Err(e),
    }
}

/// Scans the attached devices afresh and returns the first one at `(bus, address)`, as
/// `locate_in` picks it from the fresh listing.
pub fn locate(bus: u8, address: u8) -> (r: Result<UsbDevice, StartError>)
    ensures
        r matches Err(e) ==> e == StartError::Enumeration || e == StartError::NotFound,
{
    let mut devs: Vec<UsbDevice> = Vec::new();
    let listing: Result<Vec<Placement>, ()> = match open_context() {
        Err(_) => Err(()),
        Ok(ctx) => match attached_devices(&ctx) {
            Err(_) => Err(()),
            Ok(d) => {
                devs = d;
                Ok(placements(&devs))
            },
        },
    };
    assert(listing is Ok ==> listing->Ok_0@.len() == devs@.len());
    match locate_in(&listing, bus, address) {
        Ok(i) => Ok(devs.remove(i)),
        Err(e) => Err(e),
    }
}

/// Locates the device at a placement afresh and opens it.
pub(crate) fn open_at(p: Placement) -> (r: Result<OpenHandle, StartError>) {
    let dev = match locate(p.bus, p.address) {
        Ok(dev) => dev,
        Err(e) => return Err(e),
    };
    match open_device(&dev) {
        Ok(h) => Ok(h),
        Err(_) => Err(StartError::OpenFailed),
    }
}

/// Sends the device-descriptor request once on an open handle and reports the transfer's
/// outcome as `probe_outcome` maps it; the probe neither retries nor interprets what it read.
pub fn probe(h: &OpenHandle) -> (r: Result<(), DescriptorError>) {
    let q = descriptor_request();
    let mut buf: Vec<u8> = Vec::new();
    let mut i: u16 = 0;
    while i < q.length
        invariant
            i <= q.length,
            buf@.len() == i,
        decreases q.length - i,
    {
        buf.push(0);
        i = i + 1;
    }
    probe_outcome(read_control(h, &q, &mut buf))
}

} // verus!
