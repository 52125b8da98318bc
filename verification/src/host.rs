//! The sndio host and its devices.

use vstd::prelude::*;

use crate::device::Device;
use crate::error::{DevicesError, HostUnavailable};
use crate::par::BufferXrunBehavior;
use crate::state::{StateView, Status};

verus! {

/// The devices of the host, one after the other: there is the default device only.
pub struct Devices {
    /// Whether the device has been handed out.
    pub returned: bool,
}

impl Devices {
    /// The devices, none of which has been handed out.
    pub fn new() -> (devices: Devices)
        ensures
            !devices.returned,
    {
        Devices { returned: false }
    }

    /// The next device: a new one the first time, and none ever after.
    pub fn next<H, I, O, W>(&mut self) -> (device: Option<Device<H, I, O, W>>)
        ensures
            final(self).returned,
            device is None <==> old(self).returned,
            device matches Some(d) ==> is_new(d),
    {
        if self.returned {
            None
        } else {
            self.returned = true;
            Some(Device::new())
        }
    }
}

/// A device as it is handed out.
pub open spec fn is_new<H, I, O, W>(device: Device<H, I, O, W>) -> bool {
    &&& device.inner_state@ == StateView::<H, I, O, W>::fresh()
    &&& device.behavior == BufferXrunBehavior::Sync
}

/// The sndio host.
pub struct Host;

impl Host {
    /// The host, which is always to be had.
    pub fn new() -> (res: Result<Host, HostUnavailable>)
        ensures
            res is Ok,
    {
        Ok(Host)
    }

    /// A new default device for output.
    pub fn default_output_device<H, I, O, W>() -> (device: Option<Device<H, I, O, W>>)
        ensures
            device matches Some(d) && is_new(d),
    {
        Some(Device::new())
    }

    /// Whether the host is to be had on this system. It is taken to be always.
    pub fn is_available() -> (res: bool)
        ensures
            res,
    {
        true
    }

    /// The devices of the host.
    pub fn devices(&self) -> (res: Result<Devices, DevicesError>)
        ensures
            res matches Ok(devices) && !devices.returned,
    {
        Ok(Devices::new())
    }

    /// A new default device for input.
    pub fn default_input_device<H, I, O, W>(&self) -> (device: Option<Device<H, I, O, W>>)
        ensures
            device matches Some(d) && is_new(d),
    {
        Some(Device::new())
    }
}

/// A device that is handed out has never been opened, configured or used, and
/// is to catch up after an under- or overrun.
pub proof fn law_handed_out_device_is_untouched<H, I, O, W>(device: Device<H, I, O, W>)
    requires
        is_new(device),
    ensures
        device.inner_state.hdl is None,
        device.inner_state.config is None,
        device.inner_state.par is None,
        device.inner_state.buffer_size is None,
        device.inner_state.wakeup_sender is None,
        device.inner_state.status == Status::Stopped,
        device.inner_state.input_callbacks@.len() == 0,
        device.inner_state.output_callbacks@.len() == 0,
        device.behavior == BufferXrunBehavior::Sync,
{
    assert(device.inner_state@.hdl is None);
    assert(device.inner_state@.input_callbacks.len() == 0);
}

} // verus!
