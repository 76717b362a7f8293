//! The sysctl service: building the list of sysctls that the process may
//! still use, and sealing it.

use vstd::prelude::*;
use libc::c_int;
use crate::channel::{CapChannel, Casper};
use crate::error::{CapErr, CapErrType, CapResult};

verus! {

/// The name under which the broker knows the sysctl service.
pub const SERVICE_NAME: &'static str = "system.sysctl";

/// The service's name can be handed to the broker as a C string: it holds no
/// NUL.
pub proof fn lemma_service_name()
    ensures
        SERVICE_NAME@.len() == 13,
        forall|i: int| 0 <= i < SERVICE_NAME@.len() ==> SERVICE_NAME@[i] != '\0',
{
    reveal_strlit("system.sysctl");
}

/// The sysctl may be read.
pub const CAP_SYSCTL_READ: c_int = 0x01;

/// The sysctl may be written.
pub const CAP_SYSCTL_WRITE: c_int = 0x02;

/// The sysctl may be read and written.
pub const CAP_SYSCTL_RDWR: c_int = 0x03;

/// The rights reach every sysctl below the named one.
pub const CAP_SYSCTL_RECURSIVE: c_int = 0x04;

/// Every bit that stands for a right.
pub const CAP_SYSCTL_ALL: c_int = 0x07;

/// Whether every bit of `bits` stands for a right.
pub open spec fn known_bits(bits: c_int) -> bool {
    0 <= bits <= CAP_SYSCTL_ALL
}

/// A set of access rights to a sysctl, one bit each.
#[derive(Debug, Clone, Copy, PartialEq, Eq, Hash, Structural)]
pub struct CapSysctlFlags {
    bits: c_int,
}

impl CapSysctlFlags {
    #[verifier::type_invariant]
    spec fn inv(self) -> bool {
        known_bits(self.bits)
    }

    /// The set as a mask for the native calls.
    pub closed spec fn spec_bits(self) -> c_int {
        self.bits
    }

    /// Whether the set holds every right of `other`.
    pub open spec fn spec_contains(self, other: CapSysctlFlags) -> bool {
        self.bits() & other.bits() == other.bits()
    }

    /// The set as a mask for the native calls.
    #[verifier::when_used_as_spec(spec_bits)]
    pub fn bits(self) -> (bits: c_int)
        ensures
            bits == self.spec_bits(),
            known_bits(bits),
    {
        proof {
            use_type_invariant(self);
        }
        self.bits
    }

    /// No right.
    pub fn empty() -> (flags: CapSysctlFlags)
        ensures
            flags.bits() == 0,
    {
        CapSysctlFlags { bits: 0 }
    }

    /// Every right.
    pub fn all() -> (flags: CapSysctlFlags)
        ensures
            flags.bits() == CAP_SYSCTL_ALL,
    {
        CapSysctlFlags { bits: CAP_SYSCTL_ALL }
    }

    /// The right to read.
    pub fn read() -> (flags: CapSysctlFlags)
        ensures
            flags.bits() == CAP_SYSCTL_READ,
    {
        CapSysctlFlags { bits: CAP_SYSCTL_READ }
    }

    /// The right to write.
    pub fn write() -> (flags: CapSysctlFlags)
        ensures
            flags.bits() == CAP_SYSCTL_WRITE,
    {
        CapSysctlFlags { bits: CAP_SYSCTL_WRITE }
    }

    /// The rights to read and to write.
    pub fn rdwr() -> (flags: CapSysctlFlags)
        ensures
            flags.bits() == CAP_SYSCTL_RDWR,
    {
        CapSysctlFlags { bits: CAP_SYSCTL_RDWR }
    }

    /// The reach of the other rights over every sysctl below the named one.
    pub fn recursive() -> (flags: CapSysctlFlags)
        ensures
            flags.bits() == CAP_SYSCTL_RECURSIVE,
    {
        CapSysctlFlags { bits: CAP_SYSCTL_RECURSIVE }
    }

    /// The set with the mask `bits`, if every bit of it stands for a right.
    pub fn from_bits(bits: c_int) -> (r: Option<CapSysctlFlags>)
        ensures
            r is Some <==> known_bits(bits),
            r is Some ==> r->Some_0.bits() == bits,
    {
        if 0 <= bits && bits <= CAP_SYSCTL_ALL {
            Some(CapSysctlFlags { bits })
        } else {
            None
        }
    }

    /// Whether the set holds no right.
    pub fn is_empty(self) -> (b: bool)
        ensures
            b <==> self.bits() == 0,
    {
        self.bits == 0
    }

    /// Whether the set holds every right of `other`.
    #[verifier::when_used_as_spec(spec_contains)]
    pub fn contains(self, other: CapSysctlFlags) -> (b: bool)
        ensures
            b == self.spec_contains(other),
    {
        self.bits & other.bits == other.bits
    }

    /// The rights of both sets.
    pub closed spec fn spec_union(self, other: CapSysctlFlags) -> CapSysctlFlags {
        CapSysctlFlags { bits: self.bits | other.bits }
    }

    /// The rights of both sets.
    #[verifier::when_used_as_spec(spec_union)]
    pub fn union(self, other: CapSysctlFlags) -> (flags: CapSysctlFlags)
        ensures
            flags == self.spec_union(other),
            flags.bits() == self.bits() | other.bits(),
    {
        proof {
            use_type_invariant(self);
            use_type_invariant(other);
            lemma_known_bits_or(self.bits, other.bits);
        }
        CapSysctlFlags { bits: self.bits | other.bits }
    }
}

/// The union of two masks of rights is a mask of rights.
pub proof fn lemma_known_bits_or(a: c_int, b: c_int)
    requires
        known_bits(a),
        known_bits(b),
    ensures
        known_bits(a | b),
{
    assert(0 <= (a | b) <= 7) by (bit_vector)
        requires
            0 <= a <= 7,
            0 <= b <= 7,
    ;
}

/// Rights compose by or: the mask of a union is the or of the masks, which
/// does not depend on the order of its sides; a union holds both sides, and
/// whatever holds both sides holds the union.
pub proof fn lemma_union(a: CapSysctlFlags, b: CapSysctlFlags, c: CapSysctlFlags)
    ensures
        a.union(b).bits() == a.bits() | b.bits(),
        a.union(b) == b.union(a),
        a.union(a) == a,
        a.union(b).contains(a),
        a.union(b).contains(b),
        c.contains(a) && c.contains(b) <==> c.contains(a.union(b)),
{
    let (x, y, z) = (a.bits(), b.bits(), c.bits());
    assert(x | y == y | x && x | x == x) by (bit_vector);
    assert((x | y) & x == x && (x | y) & y == y) by (bit_vector);
    assert((z & x == x && z & y == y) <==> z & (x | y) == (x | y)) by (bit_vector);
}

/// To read and write is to read and to write; the three rights together are
/// every right, and no two of them share a bit.
pub proof fn lemma_rights()
    ensures
        CAP_SYSCTL_RDWR == CAP_SYSCTL_READ | CAP_SYSCTL_WRITE,
        CAP_SYSCTL_ALL == CAP_SYSCTL_RDWR | CAP_SYSCTL_RECURSIVE,
        CAP_SYSCTL_READ & CAP_SYSCTL_WRITE == 0,
        CAP_SYSCTL_RDWR & CAP_SYSCTL_RECURSIVE == 0,
{
    assert(0x03i32 == 0x01i32 | 0x02i32) by (bit_vector);
    assert(0x07i32 == 0x03i32 | 0x04i32) by (bit_vector);
    assert(0x01i32 & 0x02i32 == 0) by (bit_vector);
    assert(0x03i32 & 0x04i32 == 0) by (bit_vector);
}

/// One line of a limit list: a sysctl by name, and the rights to it.
pub ghost struct LimitEntry {
    pub name: Seq<u8>,
    pub rights: c_int,
}

/// A handle to the sysctl service.
#[derive(Debug)]
pub struct CapSysctl {
    chan: CapChannel,
}

impl CapSysctl {
    /// The channel to the service.
    pub closed spec fn spec_channel(&self) -> &CapChannel {
        &self.chan
    }

    /// The channel to the service.
    #[verifier::when_used_as_spec(spec_channel)]
    pub fn channel(&self) -> (chan: &CapChannel)
        ensures
            chan == self.spec_channel(),
    {
        &self.chan
    }

    pub(crate) fn new(chan: CapChannel) -> (service: CapSysctl)
        ensures
            service.channel() == chan,
    {
        CapSysctl { chan }
    }

    /// Completes the start of a limit list. `raw` is the handle that the
    /// broker returned for the list; a null handle is its refusal.
    ///
    /// The list starts empty.
    pub fn limit(&self, raw: usize) -> (r: CapResult<CapSysctlLimit>)
        ensures
            raw == 0 ==> r == Err::<CapSysctlLimit, CapErr>(CapErr { kind: CapErrType::Invalid }),
            raw != 0 ==> r is Ok && r->Ok_0.addr() == raw && r->Ok_0.allowed() == Seq::<
                LimitEntry,
            >::empty(),
    {
        if raw == 0 {
            Err(CapErr::from(CapErrType::Invalid))
        } else {
            Ok(CapSysctlLimit { handle: raw, allowed: Ghost(Seq::empty()) })
        }
    }
}

/// A limit list in progress: the sysctls that the process may still use once
/// the list is sealed, and the rights to each.
///
/// Every step takes the list and hands back the next one, or nothing: a list
/// cannot be used twice, and a sealed list cannot be opened again.
pub struct CapSysctlLimit {
    handle: usize,
    allowed: Ghost<Seq<LimitEntry>>,
}

impl CapSysctlLimit {
    #[verifier::type_invariant]
    spec fn inv(self) -> bool {
        self.handle != 0
    }

    /// The address of the native handle of the list.
    pub closed spec fn addr(self) -> usize {
        self.handle
    }

    /// The lines added so far, in the order in which they were added.
    pub closed spec fn allowed(self) -> Seq<LimitEntry> {
        self.allowed@
    }

    /// The address of the native handle of the list.
    pub fn as_ptr(&self) -> (addr: usize)
        ensures
            addr == self.addr(),
            addr != 0,
    {
        proof {
            use_type_invariant(self);
        }
        self.handle
    }

    /// Completes the addition of the sysctl `name` with the rights `flags`.
    /// `raw` is the handle that the native call returned for the extended
    /// list; a null handle is its refusal.
    ///
    /// The new list is the old one with this line at its end. After a
    /// refusal there is no list any more.
    pub fn add_name(self, name: &[u8], flags: CapSysctlFlags, raw: usize) -> (r: CapResult<
        CapSysctlLimit,
    >)
        ensures
            raw == 0 ==> r == Err::<CapSysctlLimit, CapErr>(CapErr { kind: CapErrType::Invalid }),
            raw != 0 ==> r is Ok && r->Ok_0.addr() == raw && r->Ok_0.allowed()
                == self.allowed().push(LimitEntry { name: name@, rights: flags.bits() }),
    {
        if raw == 0 {
            Err(CapErr::from(CapErrType::Invalid))
        } else {
            let ghost line = LimitEntry { name: name@, rights: flags.bits() };
            Ok(CapSysctlLimit { handle: raw, allowed: Ghost(self.allowed@.push(line)) })
        }
    }

    /// Completes the sealing of the list. `status` is what the native call
    /// returned: a negative number where it failed.
    ///
    /// Either way the list is gone.
    pub fn limit(self, status: c_int) -> (r: CapResult<()>)
        ensures
            status < 0 ==> r == Err::<(), CapErr>(CapErr { kind: CapErrType::Invalid }),
            status >= 0 ==> r == Ok::<(), CapErr>(()),
    {
        if status < 0 {
            Err(CapErr::from(CapErrType::Invalid))
        } else {
            Ok(())
        }
    }
}

impl Casper {
    /// Completes the opening of the sysctl service. `raw` is the handle that
    /// the broker returned for [`SERVICE_NAME`]; a null handle is its
    /// refusal.
    pub fn sysctl(&self, raw: usize) -> (r: CapResult<CapSysctl>)
        ensures
            raw == 0 ==> r == Err::<CapSysctl, CapErr>(CapErr { kind: CapErrType::Invalid }),
            raw != 0 ==> r is Ok && r->Ok_0.channel().addr() == raw,
    {
        match self.service_open(raw, 0) {
            Ok(chan) => Ok(CapSysctl::new(chan)),
            Err(_) => Err(CapErr::from(CapErrType::Invalid)),
        }
    }
}

} // verus!
