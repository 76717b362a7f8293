//! Channels to the broker and to its services.

use vstd::prelude::*;
use crate::error::OsError;

verus! {

/// One open connection to the broker or to one of its services.
///
/// A channel stands for one native handle, which is never null. It cannot be
/// copied: a second channel comes only from the broker, through
/// [`Casper::try_clone`].
#[derive(Debug)]
pub struct CapChannel {
    handle: usize,
}

impl CapChannel {
    #[verifier::type_invariant]
    spec fn inv(self) -> bool {
        self.handle != 0
    }

    /// The address of the native handle.
    pub closed spec fn addr(self) -> usize {
        self.handle
    }

    /// Decides what a native call that opens a channel has produced: `raw` is
    /// the handle it returned, as an address, and `errno` the error code read
    /// right after the call.
    pub fn from_raw(raw: usize, errno: i32) -> (r: Result<CapChannel, OsError>)
        ensures
            raw == 0 ==> r == Err::<CapChannel, OsError>(OsError { code: errno }),
            raw != 0 ==> r is Ok && r->Ok_0.addr() == raw,
    {
        if raw == 0 {
            Err(OsError { code: errno })
        } else {
            Ok(CapChannel { handle: raw })
        }
    }

    /// The address of the native handle, for a call that may change what it
    /// points to.
    pub fn as_mut_ptr(&mut self) -> (addr: usize)
        ensures
            addr == old(self).addr(),
            addr != 0,
            *final(self) == *old(self),
    {
        proof {
            use_type_invariant(&*self);
        }
        self.handle
    }

    /// The address of the native handle.
    pub fn as_ptr(&self) -> (addr: usize)
        ensures
            addr == self.addr(),
            addr != 0,
    {
        proof {
            use_type_invariant(self);
        }
        self.handle
    }
}

/// A channel to the broker itself.
#[derive(Debug)]
pub struct Casper {
    chan: CapChannel,
}

impl Casper {
    /// The channel to the broker.
    pub closed spec fn spec_channel(&self) -> &CapChannel {
        &self.chan
    }

    /// The channel to the broker.
    #[verifier::when_used_as_spec(spec_channel)]
    pub fn channel(&self) -> (chan: &CapChannel)
        ensures
            chan == self.spec_channel(),
    {
        &self.chan
    }

    /// Completes a connection to the broker. `raw` is the handle that the
    /// native call returned and `errno` the error code read right after it.
    ///
    /// A null handle is the failure of the call, reported with that code; any
    /// other handle becomes the broker's channel.
    pub fn new(raw: usize, errno: i32) -> (r: Result<Casper, OsError>)
        ensures
            raw == 0 ==> r == Err::<Casper, OsError>(OsError { code: errno }),
            raw != 0 ==> r is Ok && r->Ok_0.channel().addr() == raw,
    {
        match CapChannel::from_raw(raw, errno) {
            Ok(chan) => Ok(Casper { chan }),
            Err(e) => Err(e),
        }
    }

    /// Completes the opening of a named service over this channel. `raw` is
    /// the handle that the broker returned and `errno` the error code read
    /// right after the call.
    pub fn service_open(&self, raw: usize, errno: i32) -> (r: Result<CapChannel, OsError>)
        ensures
            raw == 0 ==> r == Err::<CapChannel, OsError>(OsError { code: errno }),
            raw != 0 ==> r is Ok && r->Ok_0.addr() == raw,
    {
        CapChannel::from_raw(raw, errno)
    }

    /// Completes the duplication of this channel by the broker. `raw` is the
    /// handle of the duplicate and `errno` the error code read right after the
    /// call.
    ///
    /// The duplicate holds the handle that the broker made for it, whatever
    /// this channel holds, and this channel is left as it was.
    pub fn try_clone(&self, raw: usize, errno: i32) -> (r: Result<Casper, OsError>)
        ensures
            raw == 0 ==> r == Err::<Casper, OsError>(OsError { code: errno }),
            raw != 0 ==> r is Ok && r->Ok_0.channel().addr() == raw,
    {
        Casper::new(raw, errno)
    }
}

} // verus!
