use vstd::prelude::*;

use rusb::{Context, Device, DeviceDescriptor, DeviceHandle, UsbContext};

use crate::bus::ControlRequest;


verus! {

#[verifier::external_type_specification]
#[verifier::external_body]
pub struct ExContext(rusb::Context);

/// One attached device as libusb listed it. Verus cannot declare `rusb::Device`, whose type
/// parameter is bound by rusb's `UsbContext`, so the value is held here, out of its sight.
#[verifier::external_body]
pub struct UsbDevice {
    device: Device<Context>,
}

/// An open handle to a device; dropping it closes the device. Held here for the same reason
/// as `UsbDevice`.
#[verifier::external_body]
pub struct OpenHandle {
    handle: DeviceHandle<Context>,
}

#[verifier::external_type_specification]
#[verifier::external_body]
pub struct ExDeviceDescriptor(rusb::DeviceDescriptor);

#[verifier::external_type_specification]
#[verifier::external_body]
pub struct ExError(rusb::Error);

/// Relies on `rusb::Context::new`: opens a libusb session, or reports why it could not.
#[verifier::external_body]
pub(crate) fn open_context() -> (r: Result<Context, rusb::Error>) {
    Context::new()
}

/// Relies on `UsbContext::devices` and `DeviceList::iter`: the devices attached at this
/// moment, in libusb's order.
#[verifier::external_body]
pub(crate) fn attached_devices(ctx: &Context) -> (r: Result<Vec<UsbDevice>, rusb::Error>) {
    ctx.devices().map(|list| list.iter().map(|device| UsbDevice { device }).collect())
}

/// Relies on `Device::bus_number`: the number of the bus the device is connected to.
#[verifier::external_body]
pub(crate) fn bus_number(d: &UsbDevice) -> (r: u8) {
    d.device.bus_number()
}

/// Relies on `Device::address`: the device's address on its bus.
#[verifier::external_body]
pub(crate) fn device_address(d: &UsbDevice) -> (r: u8) {
    d.device.address()
}

/// Relies on `Device::device_descriptor`: the device descriptor that libusb cached.
#[verifier::external_body]
pub(crate) fn device_descriptor(d: &UsbDevice) -> (r: Result<DeviceDescriptor, rusb::Error>) {
    d.device.device_descriptor()
}

/// Relies on `DeviceDescriptor::vendor_id`: the descriptor's vendor identifier.
#[verifier::external_body]
pub(crate) fn vendor_id(desc: &DeviceDescriptor) -> (r: u16) {
    desc.vendor_id()
}

/// Relies on `DeviceDescriptor::product_id`: the descriptor's product identifier.
#[verifier::external_body]
pub(crate) fn product_id(desc: &DeviceDescriptor) -> (r: u16) {
    desc.product_id()
}

/// Relies on `Device::open`: an open handle to the device, or why it could not be opened.
#[verifier::external_body]
pub(crate) fn open_device(d: &UsbDevice) -> (r: Result<OpenHandle, rusb::Error>) {
    d.device.open().map(|handle| OpenHandle { handle })
}

/// Relies on `DeviceHandle::read_control`: one control transfer of request `q` from the
/// device into `buf`, which keeps its length. The transfer's length field is `buf`'s length,
/// so that must fit in 16 bits; the timeout is handed to libusb as a 32-bit count of
/// milliseconds, and one under a millisecond would wait forever.
#[verifier::external_body]
pub(crate) fn read_control(
    h: &OpenHandle,
    q: &ControlRequest,
    buf: &mut Vec<u8>,
) -> (r: Result<usize, rusb::Error>)
    requires
        old(buf)@.len() <= 0xffff,
        1 <= q.timeout_ms <= 0xffff_ffff,
    ensures
        final(buf)@.len() == old(buf)@.len(),
{
    h.handle.read_control(
        q.request_type,
        q.request,
        q.value,
        q.index,
        buf.as_mut_slice(),
        std::time::Duration::from_millis(q.timeout_ms),
    )
}

} // verus!
