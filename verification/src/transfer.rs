//! The control transfer that the kernel module forwards to the device, and
//! how the outcome of one is read.
//!
//! The layout matches `struct evo_ctrl_xfer` of the `evo_raw` kernel module:
//! the setup packet fields followed by a 256-byte data buffer.

use vstd::prelude::*;
use crate::controls::{REQ_CUR, REQ_TYPE_GET, REQ_TYPE_SET};
use crate::error::DriverError;

verus! {

/// Size of the data buffer of a transfer.
pub const EVO_MAX_DATA: usize = 256;

/// One control transfer: the setup packet and its data buffer.
pub struct EvoCtrlXfer {
    pub b_request_type: u8,
    pub b_request: u8,
    pub w_value: u16,
    pub w_index: u16,
    pub w_length: u16,
    pub data: [u8; EVO_MAX_DATA],
}

/// `payload` followed by zero bytes up to the size of the data buffer.
pub open spec fn spec_padded(payload: Seq<u8>) -> Seq<u8> {
    payload + Seq::new((EVO_MAX_DATA - payload.len()) as nat, |i: int| 0u8)
}

/// The errno of a transfer to a device that has gone away.
pub open spec fn spec_enodev() -> i32 {
    19
}

/// `libc::ENODEV`. On Linux, the only target of this crate, libc defines it
/// as 19; the contract states that value.
#[verifier::external_body]
fn errno_no_device() -> (e: i32)
    ensures
        e == spec_enodev(),
{
    libc::ENODEV
}

impl EvoCtrlXfer {
    /// A GET_CUR request for `length` bytes of control (w_value, w_index).
    pub open spec fn is_get(&self, w_value: u16, w_index: u16, length: u16) -> bool {
        &&& self.b_request_type == REQ_TYPE_GET
        &&& self.b_request == REQ_CUR
        &&& self.w_value == w_value
        &&& self.w_index == w_index
        &&& self.w_length == length
        &&& self.data@ == spec_padded(Seq::empty())
    }

    /// A SET_CUR request that writes `payload` to control (w_value, w_index).
    pub open spec fn is_set(&self, w_value: u16, w_index: u16, payload: Seq<u8>) -> bool {
        &&& self.b_request_type == REQ_TYPE_SET
        &&& self.b_request == REQ_CUR
        &&& self.w_value == w_value
        &&& self.w_index == w_index
        &&& self.w_length as int == payload.len()
        &&& payload.len() <= EVO_MAX_DATA
        &&& self.data@ == spec_padded(payload)
    }

    /// A GET_CUR request (Device to Host, Class, Interface).
    pub fn get_request(w_value: u16, w_index: u16, length: u16) -> (xfer: EvoCtrlXfer)
        ensures
            xfer.is_get(w_value, w_index, length),
    {
        let data = [0u8; EVO_MAX_DATA];
        assert(data@ =~= spec_padded(Seq::empty()));
        EvoCtrlXfer {
            b_request_type: REQ_TYPE_GET,
            b_request: REQ_CUR,
            w_value,
            w_index,
            w_length: length,
            data,
        }
    }

    /// A SET_CUR request (Host to Device, Class, Interface) carrying `payload`.
    ///
    /// The payload has to fit in the data buffer.
    pub fn set_request(w_value: u16, w_index: u16, payload: &[u8]) -> (xfer: EvoCtrlXfer)
        requires
            payload@.len() <= EVO_MAX_DATA,
        ensures
            xfer.is_set(w_value, w_index, payload@),
    {
        let mut data = [0u8; EVO_MAX_DATA];
        let n = payload.len();
        let mut i: usize = 0;
        while i < n
            invariant
                n == payload@.len(),
                n <= EVO_MAX_DATA,
                i <= n,
                data@.len() == EVO_MAX_DATA,
                forall|k: int| 0 <= k < i ==> data@[k] == payload@[k],
                forall|k: int| i <= k < EVO_MAX_DATA ==> data@[k] == 0u8,
            decreases n - i,
        {
            data[i] = payload[i];
            i = i + 1;
        }
        assert(data@ =~= spec_padded(payload@));
        EvoCtrlXfer {
            b_request_type: REQ_TYPE_SET,
            b_request: REQ_CUR,
            w_value,
            w_index,
            w_length: n as u16,
            data,
        }
    }

    /// The number of reply bytes a GET_CUR request returned when the ioctl
    /// answered `ret`: never more than were asked for, nor than the buffer
    /// holds.
    pub open spec fn spec_reply_len(&self, ret: i32) -> int {
        let asked = if self.w_length as int <= EVO_MAX_DATA {
            self.w_length as int
        } else {
            EVO_MAX_DATA as int
        };
        if ret as int <= asked {
            ret as int
        } else {
            asked
        }
    }

    /// What a GET_CUR request yields once the ioctl has answered `ret` with
    /// `errno` set: a negative answer is an error (ENODEV means the device
    /// went away), otherwise the first bytes of the buffer that were answered.
    pub fn get_outcome(&self, ret: i32, errno: i32) -> (r: Result<Vec<u8>, DriverError>)
        ensures
            ret < 0 && errno == spec_enodev() ==> r matches Err(DriverError::Disconnected),
            ret < 0 && errno != spec_enodev() ==> (r matches Err(DriverError::Transfer(e))
                && e == errno),
            ret >= 0 ==> (r matches Ok(v) && v@ == self.data@.take(self.spec_reply_len(ret))),
    {
        if ret < 0 {
            return Err(transfer_error(errno));
        }
        let asked: usize = if (self.w_length as usize) <= EVO_MAX_DATA {
            self.w_length as usize
        } else {
            EVO_MAX_DATA
        };
        let actual: usize = if (ret as usize) <= asked {
            ret as usize
        } else {
            asked
        };
        let mut out: Vec<u8> = Vec::new();
        let mut i: usize = 0;
        while i < actual
            invariant
                actual as int == self.spec_reply_len(ret),
                actual <= EVO_MAX_DATA,
                i <= actual,
                self.data@.len() == EVO_MAX_DATA,
                out@ == self.data@.take(i as int),
            decreases actual - i,
        {
            out.push(self.data[i]);
            i = i + 1;
            assert(out@ =~= self.data@.take(i as int));
        }
        Ok(out)
    }
}

/// The error of a failed ioctl, from its errno.
fn transfer_error(errno: i32) -> (e: DriverError)
    ensures
        errno == spec_enodev() ==> e matches DriverError::Disconnected,
        errno != spec_enodev() ==> (e matches DriverError::Transfer(x) && x == errno),
{
    if errno == errno_no_device() {
        DriverError::Disconnected
    } else {
        DriverError::Transfer(errno)
    }
}

/// What a SET_CUR request yields once the ioctl has answered `ret` with
/// `errno` set.
pub fn set_outcome(ret: i32, errno: i32) -> (r: Result<(), DriverError>)
    ensures
        ret < 0 && errno == spec_enodev() ==> r matches Err(DriverError::Disconnected),
        ret < 0 && errno != spec_enodev() ==> (r matches Err(DriverError::Transfer(e))
            && e == errno),
        ret >= 0 ==> r is Ok,
{
    if ret < 0 {
        Err(transfer_error(errno))
    } else {
        Ok(())
    }
}

} // verus!
