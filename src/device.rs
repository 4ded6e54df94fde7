use vstd::prelude::*;
use libc::c_int;
use crate::driver::Driver;
use crate::error::Error;
use crate::format::{AoFormat, Format};
use crate::settings::{pairs_view, Settings};

verus! {

/// Everything that the native open call takes: the driver id, the format
/// descriptor, and the option pairs (`None` for a null option list).
pub struct OpenRequest<'a> {
    pub driver_id: c_int,
    pub format: AoFormat,
    pub options: Option<&'a Vec<(String, String)>>,
}

/// A live playback device of the native layer, known by its non-null handle
/// (the native pointer, as an address). It owes one native close, made
/// through `release`, and only while it is still open.
pub struct Device {
    handle: usize,
    open: bool,
}

impl Device {
    #[verifier::type_invariant]
    closed spec fn inv(&self) -> bool {
        self.handle != 0
    }

    /// The native handle of this device.
    pub closed spec fn spec_handle(&self) -> usize {
        self.handle
    }

    /// Whether the native close is still owed.
    pub closed spec fn spec_is_open(&self) -> bool {
        self.open
    }

    /// The outcome of a native open that returned `handle`, with `errno` the
    /// native error code left after it: a null handle is a failure and
    /// leaves no device behind; any other is an open device.
    pub open spec fn open_outcome(handle: usize, errno: i32, r: Result<Device, Error>) -> bool {
        if handle == 0 {
            r == Err::<Device, Error>(Error::spec_from_code(errno))
        } else {
            r matches Ok(d) && d.spec_handle() == handle && d.spec_is_open()
        }
    }

    /// What `release` returns: the handle to close while the device is open,
    /// else nothing.
    pub open spec fn spec_release(&self) -> Option<usize> {
        if self.spec_is_open() {
            Some(self.spec_handle())
        } else {
            None
        }
    }

    /// Gathers what the native open call takes: the driver's id, the
    /// format's descriptor, and the option pairs, with a null list when no
    /// settings are given or when they hold no pair.
    pub fn open_request<'a>(driver: &Driver, format: &Format, settings: Option<&'a Settings>) -> (r:
        OpenRequest<'a>)
        ensures
            r.driver_id == driver.id(),
            format.describes(r.format),
            r.options is Some <==> (settings matches Some(s) && s@.len() > 0),
            r.options matches Some(v) ==> (settings matches Some(s) && pairs_view(v@) == s@),
    {
        let options = match settings {
            Some(s) => s.as_ao_option(),
            None => None,
        };
        OpenRequest { driver_id: driver.driver_id(), format: format.to_ao_format(), options }
    }

    /// Turns the result of the native open call into a device or an error.
    pub fn from_open_result(handle: usize, errno: i32) -> (r: Result<Device, Error>)
        ensures
            Self::open_outcome(handle, errno, r),
    {
        if handle == 0 {
            Err(Error::from_code(errno))
        } else {
            Ok(Device { handle, open: true })
        }
    }

    /// Returns the native handle, which is never null.
    pub fn handle(&self) -> (r: usize)
        ensures
            r == self.spec_handle(),
            r != 0,
    {
        proof {
            use_type_invariant(self);
        }
        self.handle
    }

    /// Whether the native close is still owed.
    pub fn is_open(&self) -> (r: bool)
        ensures
            r == self.spec_is_open(),
    {
        self.open
    }

    /// The sample count that the native play call takes for `buffer`: its
    /// length, when the device is open and the length fits the native 32-bit
    /// count; else nothing, and nothing may be played.
    pub fn play_len(&self, buffer: &[i8]) -> (r: Option<u32>)
        ensures
            r is Some <==> self.spec_is_open() && buffer@.len() <= u32::MAX,
            r matches Some(n) ==> n == buffer@.len(),
    {
        if self.open && buffer.len() <= u32::MAX as usize {
            Some(buffer.len() as u32)
        } else {
            None
        }
    }

    /// Gives the handle to close natively if the close is still owed, and
    /// marks it as made: a second call gives nothing.
    pub fn release(&mut self) -> (r: Option<usize>)
        ensures
            r == old(self).spec_release(),
            final(self).spec_handle() == old(self).spec_handle(),
            !final(self).spec_is_open(),
    {
        proof {
            use_type_invariant(&*self);
        }
        if self.open {
            self.open = false;
            Some(self.handle)
        } else {
            None
        }
    }
}

/// A native open that returns a null handle gives an error and no device,
/// so nothing is there to close for it.
pub proof fn lemma_failed_open_owes_no_close(errno: i32, r: Result<Device, Error>)
    requires
        Device::open_outcome(0, errno, r),
    ensures
        r is Err,
{
}

/// An opened device is closed exactly once: the first release gives its
/// handle, and a release of the device after that gives nothing.
pub proof fn lemma_close_exactly_once(handle: usize, errno: i32, d: Device, after: Device)
    requires
        handle != 0,
        Device::open_outcome(handle, errno, Ok(d)),
        after.spec_handle() == d.spec_handle(),
        !after.spec_is_open(),
    ensures
        d.spec_release() == Some(handle),
        after.spec_release() is None,
{
}

} // verus!
