//! Packed status codes returned by every fallible native entry point.
use vstd::prelude::*;

verus! {

/// Number of low bits that hold the module identifier.
pub const MODULE_BITS: u32 = 10;

/// Mask of the module identifier.
pub const MODULE_MASK: u32 = 0x3ff;

/// Mask of the description code, before it is shifted into place.
pub const DESCRIPTION_MASK: u32 = 0x1fff;

/// The raw value of a status that packs `module` and `description`: the
/// module in the low ten bits, the description in the thirteen bits above.
pub open spec fn spec_pack(module: u32, description: u32) -> u32 {
    ((module % 1024) + (description % 8192) * 1024) as u32
}

/// The module identifier held by a raw status value.
pub open spec fn spec_module(raw: u32) -> u32 {
    raw % 1024
}

/// The description code held by a raw status value.
pub open spec fn spec_description(raw: u32) -> u32 {
    (raw / 1024) % 8192
}

/// A native status code. The all-zero value means success.
#[derive(Debug, Copy, Clone)]
pub struct Result(u32);

impl Result {
    /// The raw packed value.
    pub closed spec fn spec_raw(&self) -> u32 {
        self.0
    }

    /// Packs a module identifier and a description code; bits beyond each
    /// field's width are dropped.
    pub fn new(module: u32, description: u32) -> (r: Self)
        ensures
            r.spec_raw() == spec_pack(module, description),
    {
        let d = (description & DESCRIPTION_MASK) << MODULE_BITS;
        let m = module & MODULE_MASK;
        proof {
            assert(((description & 0x1fff) << 10u32) | (module & 0x3ff) == (module % 1024) + (
            description % 8192) * 1024) by (bit_vector);
        }
        Result(d | m)
    }

    /// Wraps a raw value as the native side returned it.
    pub fn from_raw(raw: u32) -> (r: Self)
        ensures
            r.spec_raw() == raw,
    {
        Result(raw)
    }

    /// The raw packed value.
    pub fn raw(&self) -> (r: u32)
        ensures
            r == self.spec_raw(),
    {
        self.0
    }

    /// Splits the status into its module identifier and description code.
    pub fn get(self) -> (r: (u32, u32))
        ensures
            r == (spec_module(self.spec_raw()), spec_description(self.spec_raw())),
    {
        let inner = self.0;
        let module = inner & MODULE_MASK;
        let description = (inner >> MODULE_BITS) & DESCRIPTION_MASK;
        proof {
            assert(inner & 0x3ff == inner % 1024) by (bit_vector);
            assert((inner >> 10u32) & 0x1fff == (inner / 1024) % 8192) by (bit_vector);
        }
        (module, description)
    }

    /// Whether the status reports success.
    pub fn is_success(&self) -> (r: bool)
        ensures
            r == (self.spec_raw() == 0),
    {
        self.0 == 0
    }

    /// Turns the status into `Ok(value)` on success and into `Err(self)`
    /// otherwise.
    pub fn into_result<T>(self, value: T) -> (r: core::result::Result<T, Result>)
        ensures
            self.spec_raw() == 0 ==> r == core::result::Result::<T, Result>::Ok(value),
            self.spec_raw() != 0 ==> r == core::result::Result::<T, Result>::Err(self),
    {
        if self.is_success() {
            Ok(value)
        } else {
            Err(self)
        }
    }
}

/// Unpacking a packed status gives back the module identifier and the
/// description code, for every module below 2^10 and every description below
/// 2^13.
pub proof fn lemma_pack_unpack(module: u32, description: u32)
    requires
        module < 1024,
        description < 8192,
    ensures
        spec_module(spec_pack(module, description)) == module,
        spec_description(spec_pack(module, description)) == description,
{
    assert(module + description * 1024 < 0x80_0000) by (nonlinear_arith)
        requires
            module < 1024,
            description < 8192,
    ;
    assert((module + description * 1024) % 1024 == module) by (nonlinear_arith)
        requires
            module < 1024,
    ;
    assert((module + description * 1024) / 1024 == description) by (nonlinear_arith)
        requires
            module < 1024,
    ;
}

} // verus!
