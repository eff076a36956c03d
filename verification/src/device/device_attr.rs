//! The attributes of a device.
use crate::error::{check_status, Error};
use vstd::prelude::*;

verus! {

/// What the provider tells about a device.
#[derive(Debug, Clone, Copy, PartialEq, Eq)]
pub struct DeviceAttr {
    pub max_qp: i32,
    pub max_cq: i32,
    pub max_mr: i32,
    pub max_pd: i32,
    pub phys_port_cnt: u8,
}

impl DeviceAttr {
    /// Sorts the provider's answer to a query for the attributes of a
    /// device: the status `ret` and the attributes `attr` that it filled in.
    /// Zero is success; any other status is the OS error code of an operation
    /// failure.
    pub fn query(ret: i32, attr: DeviceAttr) -> (r: Result<Self, Error>)
        ensures
            ret == 0 ==> r == Ok::<DeviceAttr, Error>(attr),
            ret != 0 ==> r == Err::<DeviceAttr, Error>(Error::Operation { code: ret }),
    {
        match check_status(ret) {
            Ok(()) => Ok(attr),
            Err(e) => Err(e),
        }
    }
}

} // verus!
