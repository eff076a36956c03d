//! The devices that the provider lists.
use crate::casts::count_to_usize;
use crate::ctx::Context;
use crate::device::guid::Guid;
use crate::error::{last_error, Error};
use crate::handle::creation;
use crate::resource::ResourceKind;
use crate::table::ResourceTable;
use vstd::prelude::*;

verus! {

/// One listed device. It is valid as long as the list that it came with.
pub struct Device {
    pub raw: usize,
    pub name: String,
    pub guid: Guid,
}

/// The devices that the provider listed, in its order, and the provider's
/// handle of the list.
pub struct DeviceList {
    arr: usize,
    devices: Vec<Device>,
}

impl View for DeviceList {
    type V = Seq<Device>;

    closed spec fn view(&self) -> Seq<Device> {
        self.devices@
    }
}

/// The number of bytes of one entry of the provider's list.
pub open spec fn entry_size() -> int {
    usize::BITS as int / 8
}

/// Whether a list of `num_devices` entries can be addressed: the number is
/// not negative, and where it could be as large as a `usize`, the list takes
/// less than half of what a `usize` counts.
pub open spec fn addressable(num_devices: i32) -> bool {
    &&& num_devices >= 0
    &&& usize::BITS <= 32 ==> num_devices * entry_size() < usize::MAX / 2
}

impl DeviceList {
    /// Decides [`addressable`].
    pub fn is_addressable(num_devices: i32) -> (b: bool)
        ensures
            b == addressable(num_devices),
    {
        if num_devices < 0 {
            return false;
        }
        if usize::BITS <= 32 {
            let len: usize = count_to_usize(num_devices);
            assert(usize::BITS == 32);
            let total = len as u64 * 4;
            total < (usize::MAX / 2) as u64
        } else {
            true
        }
    }

    /// Takes the provider's answer to a request for its list of devices: the
    /// handle `arr` of the list, the OS error code `errno` current after the
    /// call, the number `num_devices` that it reported, and the devices
    /// `devices` that the list holds. A null handle is an operation failure
    /// with that code; otherwise the result is the list of the first
    /// `num_devices` devices.
    ///
    /// The number must be addressable, see [`addressable`], and `devices`
    /// must hold at least as many devices.
    pub fn available(arr: usize, errno: i32, num_devices: i32, devices: Vec<Device>) -> (r: Result<
        Self,
        Error,
    >)
        requires
            arr != 0 ==> addressable(num_devices) && num_devices <= devices@.len(),
        ensures
            arr == 0 ==> r == Err::<DeviceList, Error>(Error::Operation { code: errno }),
            arr != 0 ==> r is Ok && r->Ok_0@ == devices@.take(num_devices as int)
                && r->Ok_0.ffi_ptr() == arr,
    {
        if arr == 0 {
            return Err(last_error(errno));
        }
        let len: usize = count_to_usize(num_devices);
        let mut devices = devices;
        devices.truncate(len);
        Ok(DeviceList { arr, devices })
    }

    /// The provider's handle of the list, as an address.
    pub closed spec fn spec_ffi_ptr(&self) -> usize {
        self.arr
    }

    /// The provider's handle of the list, as an address. It is owed back to
    /// the provider when the list is dropped.
    #[verifier::when_used_as_spec(spec_ffi_ptr)]
    pub fn ffi_ptr(&self) -> (r: usize)
        ensures
            r == self.ffi_ptr(),
    {
        self.arr
    }

    /// The devices, in the provider's order.
    pub fn as_slice(&self) -> (r: &[Device])
        ensures
            r@ == self@,
    {
        self.devices.as_slice()
    }
}

impl Device {
    /// The provider's handle of the device, as an address.
    pub fn ffi_ptr(&self) -> (r: usize)
        ensures
            r == self.raw,
    {
        self.raw
    }

    /// The kernel's name of the device.
    pub fn name(&self) -> (r: &str)
        ensures
            r@ == self.name@,
    {
        self.name.as_str()
    }

    /// The node GUID of the device.
    pub fn guid(&self) -> (r: Guid)
        ensures
            r == self.guid,
    {
        self.guid
    }

    /// Enters the context that the provider returned as `raw` when it was
    /// asked to open this device, see [`Context::open`].
    pub fn open(&self, table: &mut ResourceTable, raw: usize, errno: i32) -> (r: Result<
        Context,
        Error,
    >)
        requires
            old(table).wf(),
        ensures
            final(table).wf(),
            creation(
                old(table)@,
                final(table)@,
                ResourceKind::Context,
                raw,
                0,
                errno,
                "failed to open device",
                Context::parents(),
                match r {
                    Ok(x) => Ok(x.handle.id()),
                    Err(e) => Err(e),
                },
            ),
            r is Ok ==> r->Ok_0.handle.ffi_ptr() == raw,
    {
        Context::open(table, raw, errno)
    }
}

} // verus!
