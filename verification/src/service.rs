//! Flags that a service hands to the broker when it registers.

use vstd::prelude::*;

verus! {

/// Options of a service registration, one bit each.
#[derive(Debug, Clone, Copy, PartialEq, Eq, Hash, Structural)]
pub struct ServiceRegisterFlags(i32);

impl ServiceRegisterFlags {
    /// The flag word as the broker reads it.
    pub closed spec fn spec_bits(self) -> i32 {
        self.0
    }

    /// The flag word as the broker reads it.
    #[verifier::when_used_as_spec(spec_bits)]
    pub fn bits(self) -> (bits: i32)
        ensures
            bits == self.spec_bits(),
    {
        self.0
    }

    /// The service keeps the standard streams of the process that started it.
    pub fn stdio() -> (flags: ServiceRegisterFlags)
        ensures
            flags.bits() == 1,
    {
        ServiceRegisterFlags(1)
    }

    /// The service keeps every descriptor of the process that started it.
    pub fn fd() -> (flags: ServiceRegisterFlags)
        ensures
            flags.bits() == 2,
    {
        ServiceRegisterFlags(2)
    }

    /// Limits set on one channel to the service do not reach its clones.
    pub fn no_uniq_limits() -> (flags: ServiceRegisterFlags)
        ensures
            flags.bits() == 4,
    {
        ServiceRegisterFlags(4)
    }
}

/// Two flag values with the same word are the same value.
pub proof fn lemma_register_flags_by_bits(a: ServiceRegisterFlags, b: ServiceRegisterFlags)
    ensures
        a.bits() == b.bits() <==> a == b,
{
}

} // verus!
