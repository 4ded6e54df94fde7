use vstd::prelude::*;
use crate::error::Error;

verus! {

/// An audio driver of the native layer, known by its non-negative id.
pub struct Driver {
    driver_id: i32,
}

impl Driver {
    #[verifier::type_invariant]
    closed spec fn inv(&self) -> bool {
        self.driver_id >= 0
    }

    /// The id of this driver.
    pub closed spec fn id(&self) -> i32 {
        self.driver_id
    }

    /// The outcome of a native driver lookup that returned `id`, with
    /// `errno` the native error code left after it: a negative id is a
    /// failure, never a driver.
    pub open spec fn lookup_outcome(id: i32, errno: i32, r: Result<Driver, Error>) -> bool {
        if id >= 0 {
            r matches Ok(d) && d.id() == id
        } else {
            r == Err::<Driver, Error>(Error::spec_from_code(errno))
        }
    }

    /// Turns the result of a native lookup (of the default driver or of a
    /// driver by short name) into a driver or an error.
    pub fn from_lookup(id: i32, errno: i32) -> (r: Result<Driver, Error>)
        ensures
            Self::lookup_outcome(id, errno, r),
    {
        if id >= 0 {
            Ok(Driver { driver_id: id })
        } else {
            Err(Error::from_code(errno))
        }
    }

    /// Returns the driver id, which is never negative.
    pub fn driver_id(&self) -> (r: i32)
        ensures
            r == self.id(),
            r >= 0,
    {
        proof {
            use_type_invariant(self);
        }
        self.driver_id
    }
}

/// A lookup whose native result is a negative id gives an error, never a
/// driver; one with a non-negative id gives the driver with that id.
pub proof fn lemma_negative_id_is_error(id: i32, errno: i32, r: Result<Driver, Error>)
    requires
        Driver::lookup_outcome(id, errno, r),
    ensures
        id < 0 <==> r is Err,
        r matches Ok(d) ==> d.id() == id && d.id() >= 0,
{
}

} // verus!
