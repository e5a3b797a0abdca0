//! Flag registers: latched fault diagnostics and fault masks, one bit per flag.
use vstd::prelude::*;

verus! {

/// Latched over-voltage, over-temperature and under-temperature faults (DIAG_OV_OT_UT). Cleared by writing 1 to a bit.
#[derive(Clone, Copy, Debug, PartialEq, Eq, Structural)]
pub struct DiagOvOtUt(pub u16);

impl DiagOvOtUt {
    /// Cell 1 over-voltage
    pub const CELL1_OV: u16 = 0x0001;

    /// Cell 2 over-voltage
    pub const CELL2_OV: u16 = 0x0002;

    /// Cell 3 over-voltage
    pub const CELL3_OV: u16 = 0x0004;

    /// Cell 4 over-voltage
    pub const CELL4_OV: u16 = 0x0008;

    /// Cell 5 over-voltage
    pub const CELL5_OV: u16 = 0x0010;

    /// Pack over-voltage
    pub const PACK_OV: u16 = 0x0020;

    /// Cell 1 severe over-voltage
    pub const CELL1_SEVERE_OV: u16 = 0x0040;

    /// Cell 2 severe over-voltage
    pub const CELL2_SEVERE_OV: u16 = 0x0080;

    /// Cell 3 severe over-voltage
    pub const CELL3_SEVERE_OV: u16 = 0x0100;

    /// Cell 4 severe over-voltage
    pub const CELL4_SEVERE_OV: u16 = 0x0200;

    /// Cell 5 severe over-voltage
    pub const CELL5_SEVERE_OV: u16 = 0x0400;

    /// Pack voltage and cell sum disagree
    pub const VB_SUM_CHECK_FAIL: u16 = 0x0800;

    /// NTC over-temperature
    pub const NTC_OT: u16 = 0x1000;

    /// NTC severe over-temperature
    pub const NTC_SEVERE_OT: u16 = 0x2000;

    /// NTC under-temperature
    pub const NTC_UT: u16 = 0x4000;

    /// Die over-temperature
    pub const DIE_OT: u16 = 0x8000;

    /// The bits that carry a flag.
    pub const ALL_BITS: u16 = 0xFFFF;

    /// Every flag set.
    pub fn all() -> (r: Self)
        ensures
            r.0 == Self::ALL_BITS,
    {
        Self(Self::ALL_BITS)
    }

    /// The flags of a raw word; the bits that carry no flag are dropped.
    pub fn from_bits_truncate(bits: u16) -> (r: Self)
        ensures
            r.0 == bits & Self::ALL_BITS,
    {
        Self(bits & Self::ALL_BITS)
    }

    /// Whether every flag of `flags` is set.
    pub fn contains(&self, flags: u16) -> (r: bool)
        ensures
            r == (self.0 & flags == flags),
    {
        self.0 & flags == flags
    }
}

/// Latched under-voltage faults (DIAG_UV). Cleared by writing 1 to a bit.
#[derive(Clone, Copy, Debug, PartialEq, Eq, Structural)]
pub struct DiagUv(pub u16);

impl DiagUv {
    /// Cell 1 under-voltage
    pub const CELL1_UV: u16 = 0x0001;

    /// Cell 2 under-voltage
    pub const CELL2_UV: u16 = 0x0002;

    /// Cell 3 under-voltage
    pub const CELL3_UV: u16 = 0x0004;

    /// Cell 4 under-voltage
    pub const CELL4_UV: u16 = 0x0008;

    /// Cell 5 under-voltage
    pub const CELL5_UV: u16 = 0x0010;

    /// Cell 1 under-voltage for balancing
    pub const BAL1_UV: u16 = 0x0020;

    /// Cell 2 under-voltage for balancing
    pub const BAL2_UV: u16 = 0x0040;

    /// Cell 3 under-voltage for balancing
    pub const BAL3_UV: u16 = 0x0080;

    /// Cell 4 under-voltage for balancing
    pub const BAL4_UV: u16 = 0x0100;

    /// Cell 5 under-voltage for balancing
    pub const BAL5_UV: u16 = 0x0200;

    /// Pack under-voltage
    pub const VB_UV: u16 = 0x0400;

    /// Cell 1 severe under-voltage
    pub const V_SEVERE_CELL1_UV: u16 = 0x0800;

    /// Cell 2 severe under-voltage
    pub const V_SEVERE_CELL2_UV: u16 = 0x1000;

    /// Cell 3 severe under-voltage
    pub const V_SEVERE_CELL3_UV: u16 = 0x2000;

    /// Cell 4 severe under-voltage
    pub const V_SEVERE_CELL4_UV: u16 = 0x4000;

    /// Cell 5 severe under-voltage
    pub const V_SEVERE_CELL5_UV: u16 = 0x8000;

    /// The bits that carry a flag.
    pub const ALL_BITS: u16 = 0xFFFF;

    /// Every flag set.
    pub fn all() -> (r: Self)
        ensures
            r.0 == Self::ALL_BITS,
    {
        Self(Self::ALL_BITS)
    }

    /// The flags of a raw word; the bits that carry no flag are dropped.
    pub fn from_bits_truncate(bits: u16) -> (r: Self)
        ensures
            r.0 == bits & Self::ALL_BITS,
    {
        Self(bits & Self::ALL_BITS)
    }

    /// Whether every flag of `flags` is set.
    pub fn contains(&self, flags: u16) -> (r: bool)
        ensures
            r == (self.0 & flags == flags),
    {
        self.0 & flags == flags
    }
}

/// Latched current faults (DIAG_CURR). Cleared by writing 1 to a bit.
#[derive(Clone, Copy, Debug, PartialEq, Eq, Structural)]
pub struct DiagCurr(pub u16);

impl DiagCurr {
    /// Coulomb counter saturated
    pub const CC_SAT: u16 = 0x0001;

    /// Over-current in charge
    pub const OVC_CHG: u16 = 0x0002;

    /// Over-current in discharge
    pub const OVC_DCHG: u16 = 0x0004;

    /// Persistent over-current in charge
    pub const PERSIST_OVC_CHG: u16 = 0x0008;

    /// Persistent over-current in discharge
    pub const PERSIST_OVC_DCHG: u16 = 0x0010;

    /// Short circuit in discharge
    pub const SC_DCHG: u16 = 0x0020;

    /// Persistent short circuit in discharge
    pub const PERSIST_SC_DCHG: u16 = 0x0040;

    /// External fuse fault
    pub const FUSE_EXT: u16 = 0x0080;

    /// External FAULTN fault
    pub const FAULTN_EXT: u16 = 0x0100;

    /// The bits that carry a flag.
    pub const ALL_BITS: u16 = 0x01FF;

    /// Every flag set.
    pub fn all() -> (r: Self)
        ensures
            r.0 == Self::ALL_BITS,
    {
        Self(Self::ALL_BITS)
    }

    /// The flags of a raw word; the bits that carry no flag are dropped.
    pub fn from_bits_truncate(bits: u16) -> (r: Self)
        ensures
            r.0 == bits & Self::ALL_BITS,
    {
        Self(bits & Self::ALL_BITS)
    }

    /// Whether every flag of `flags` is set.
    pub fn contains(&self, flags: u16) -> (r: bool)
        ensures
            r == (self.0 & flags == flags),
    {
        self.0 & flags == flags
    }
}

/// Masks of the current faults (CURR_MSK).
#[derive(Clone, Copy, Debug, PartialEq, Eq, Structural)]
pub struct CurrMsk(pub u16);

impl CurrMsk {
    /// Over-current in charge does not act on the pre-drivers
    pub const OVC_CHG_PRDRV_MSK: u16 = 0x0001;

    /// Over-current in discharge does not act on the pre-drivers
    pub const OVC_DCHG_PRDRV_MSK: u16 = 0x0002;

    /// Short circuit in discharge does not act on the pre-drivers
    pub const SC_DCHG_PRDRV_MSK: u16 = 0x0004;

    /// Persistent over-current in charge does not blow the fuse
    pub const PERSIST_OVC_CHG_FUSE_MSK: u16 = 0x0008;

    /// Persistent over-current in discharge does not blow the fuse
    pub const PERSIST_OVC_DCHG_FUSE_MSK: u16 = 0x0010;

    /// Persistent short circuit in discharge does not blow the fuse
    pub const PERSIST_SC_DCHG_FUSE_MSK: u16 = 0x0020;

    /// Over-current in charge does not assert FAULTN
    pub const OVC_CHG_FAULTN_MSK: u16 = 0x0040;

    /// Over-current in discharge does not assert FAULTN
    pub const OV_DCHG_FAULTN_MSK: u16 = 0x0080;

    /// Short circuit in discharge does not assert FAULTN
    pub const SC_DCHG_FAULTN_MSK: u16 = 0x0100;

    /// Persistent short circuit in discharge does not assert FAULTN
    pub const PERSIST_SC_DCHG_FAULTN_MSK: u16 = 0x0200;

    /// Persistent over-current in charge does not assert FAULTN
    pub const PERSIST_OVC_CHG_FAULTN_MSK: u16 = 0x0400;

    /// Persistent over-current in discharge does not assert FAULTN
    pub const PERSIST_OVC_DCHG_FAULTN_MSK: u16 = 0x0800;

    /// The bits that carry a flag.
    pub const ALL_BITS: u16 = 0x0FFF;

    /// Every flag set.
    pub fn all() -> (r: Self)
        ensures
            r.0 == Self::ALL_BITS,
    {
        Self(Self::ALL_BITS)
    }

    /// The flags of a raw word; the bits that carry no flag are dropped.
    pub fn from_bits_truncate(bits: u16) -> (r: Self)
        ensures
            r.0 == bits & Self::ALL_BITS,
    {
        Self(bits & Self::ALL_BITS)
    }

    /// Whether every flag of `flags` is set.
    pub fn contains(&self, flags: u16) -> (r: bool)
        ensures
            r == (self.0 & flags == flags),
    {
        self.0 & flags == flags
    }
}

/// Masks of the faults that assert FAULTN (TO_FAULTN_MSK).
#[derive(Clone, Copy, Debug, PartialEq, Eq, Structural)]
pub struct ToFaultnMsk(pub u16);

impl ToFaultnMsk {
    /// Cell under-voltage
    pub const CELL_UF_FAULTN_MSK: u16 = 0x0001;

    /// Cell severe under-voltage
    pub const CELL_SEVERE_UV_FAULTN_MSK: u16 = 0x0002;

    /// Cell over-voltage
    pub const CELL_OV_FAULTN_MSK: u16 = 0x0004;

    /// Cell severe over-voltage
    pub const CELL_SEVERE_OV_FAULTN_MSK: u16 = 0x0008;

    /// Balancing under-voltage
    pub const BAL_UV_FAULTN_MSK: u16 = 0x0010;

    /// Pack under-voltage
    pub const VB_UV_FAULTN_MSK: u16 = 0x0020;

    /// Pack over-voltage
    pub const VB_OV_FAULTN_MSK: u16 = 0x0040;

    /// Pack and cell sum mismatch
    pub const VB_SUM_CHECK_FAULTN_MSK: u16 = 0x0080;

    /// NTC over-temperature
    pub const NTC_OT_FAULTN_MSK: u16 = 0x0100;

    /// NTC severe over-temperature
    pub const NTC_SEVERE_OT_FAULTN_MSK: u16 = 0x0200;

    /// NTC under-temperature
    pub const NTC_UT_FAULTN_MSK: u16 = 0x0400;

    /// Die over-temperature
    pub const DIE_OT_FAULTN_MSK: u16 = 0x0800;

    /// The bits that carry a flag.
    pub const ALL_BITS: u16 = 0x0FFF;

    /// Every flag set.
    pub fn all() -> (r: Self)
        ensures
            r.0 == Self::ALL_BITS,
    {
        Self(Self::ALL_BITS)
    }

    /// The flags of a raw word; the bits that carry no flag are dropped.
    pub fn from_bits_truncate(bits: u16) -> (r: Self)
        ensures
            r.0 == bits & Self::ALL_BITS,
    {
        Self(bits & Self::ALL_BITS)
    }

    /// Whether every flag of `flags` is set.
    pub fn contains(&self, flags: u16) -> (r: bool)
        ensures
            r == (self.0 & flags == flags),
    {
        self.0 & flags == flags
    }
}

/// Masks of the faults that blow the fuse or reset (TO_FUSE_RST_MSK).
#[derive(Clone, Copy, Debug, PartialEq, Eq, Structural)]
pub struct ToFuseRstMask(pub u16);

impl ToFuseRstMask {
    /// Cell severe under-voltage does not blow the fuse
    pub const CELL_SEVERE_UV_FUSE_MSK: u16 = 0x0001;

    /// Cell severe over-voltage does not blow the fuse
    pub const CELL_SEVERE_OV_FUSE_MSK: u16 = 0x0002;

    /// Pack and cell sum mismatch does not blow the fuse
    pub const VB_SUM_CHECK_FUSE_MSK: u16 = 0x0004;

    /// NTC severe over-temperature does not blow the fuse
    pub const NTC_SEVERE_OT_FUSE_MSK: u16 = 0x0008;

    /// Cell over-voltage does not reset
    pub const CELL_OV_RST_MSK: u16 = 0x0010;

    /// Cell severe over-voltage does not reset
    pub const CELL_SEVERE_OV_RST_MSK: u16 = 0x0020;

    /// Pack over-voltage does not reset
    pub const VB_OV_RST_MSK: u16 = 0x0040;

    /// The bits that carry a flag.
    pub const ALL_BITS: u16 = 0x007F;

    /// Every flag set.
    pub fn all() -> (r: Self)
        ensures
            r.0 == Self::ALL_BITS,
    {
        Self(Self::ALL_BITS)
    }

    /// The flags of a raw word; the bits that carry no flag are dropped.
    pub fn from_bits_truncate(bits: u16) -> (r: Self)
        ensures
            r.0 == bits & Self::ALL_BITS,
    {
        Self(bits & Self::ALL_BITS)
    }

    /// Whether every flag of `flags` is set.
    pub fn contains(&self, flags: u16) -> (r: bool)
        ensures
            r == (self.0 & flags == flags),
    {
        self.0 & flags == flags
    }
}

/// Masks of the faults that act on the pre-drivers or on balancing (TO_PRDRV_BAL_MASK).
#[derive(Clone, Copy, Debug, PartialEq, Eq, Structural)]
pub struct ToPrdrvBalMask(pub u16);

impl ToPrdrvBalMask {
    /// Cell under-voltage
    pub const CELL_UV_PRDRV_MSK: u16 = 0x0001;

    /// Cell severe under-voltage
    pub const CELL_SEVERE_UV_PRDRV_MSK: u16 = 0x0002;

    /// Cell over-voltage
    pub const CELL_OV_PRDRV_MSK: u16 = 0x0004;

    /// Cell severe over-voltage
    pub const CELL_SEVERE_OV_PRDRV_MSK: u16 = 0x0008;

    /// Pack under-voltage
    pub const VB_UV_PRDRV_MSK: u16 = 0x0010;

    /// Pack over-voltage
    pub const VB_OV_PRDRV_MSK: u16 = 0x0020;

    /// Pack and cell sum mismatch
    pub const VB_SUM_CHECK_PRDRV_MSK: u16 = 0x0040;

    /// NTC over-temperature
    pub const NTC_OT_PRDRV_MSK: u16 = 0x0080;

    /// NTC severe over-temperature
    pub const NTC_SEVERE_OT_PRDRV_MSK: u16 = 0x0100;

    /// NTC under-temperature
    pub const NTC_UT_PRDRV_MSK: u16 = 0x0200;

    /// Die over-temperature
    pub const DIE_OT_PRDRV_MSK: u16 = 0x0400;

    /// Balancing under-voltage stops balancing
    pub const BAL_UV_BAL_MSK: u16 = 0x0800;

    /// NTC severe over-temperature stops balancing
    pub const NTC_SEVERE_OT_BAL_MSK: u16 = 0x1000;

    /// Die over-temperature stops balancing
    pub const DIE_OT_BAL_MSK: u16 = 0x2000;

    /// Pack and cell sum mismatch stops balancing
    pub const VB_SUM_CHECK_BAL_MSK: u16 = 0x4000;

    /// The bits that carry a flag.
    pub const ALL_BITS: u16 = 0x7FFF;

    /// Every flag set.
    pub fn all() -> (r: Self)
        ensures
            r.0 == Self::ALL_BITS,
    {
        Self(Self::ALL_BITS)
    }

    /// The flags of a raw word; the bits that carry no flag are dropped.
    pub fn from_bits_truncate(bits: u16) -> (r: Self)
        ensures
            r.0 == bits & Self::ALL_BITS,
    {
        Self(bits & Self::ALL_BITS)
    }

    /// Whether every flag of `flags` is set.
    pub fn contains(&self, flags: u16) -> (r: bool)
        ensures
            r == (self.0 & flags == flags),
    {
        self.0 & flags == flags
    }
}

} // verus!
