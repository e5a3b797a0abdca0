//! # Registers
//! The register map of the L9961, and one typed view for each register that has fields.
//! Every view is a thin interpretation of one 16-bit word: building one from a raw word
//! never fails (the word comes from the device), while building one from field values
//! rejects the values that do not fit their field.
use vstd::prelude::*;

mod cfg1_filters_cycles;
mod cfg2_enables;
mod cfg3_act;
mod current;
mod flags;
mod identity;
pub mod measurements;
mod thresholds;

pub use self::cfg1_filters_cycles::{Cfg1FiltersCycles, TCellFilter, TCurFilter, TMeasCycle, TSCFilter};
pub use self::cfg2_enables::{Cfg2Enables, FetConfig};
pub use self::cfg3_act::Cfg3Act;
pub use self::current::{OvCThresholds, PersistentOvCThreshold, PersistentOvCThresholds, SCThreshold};
pub use self::flags::{CurrMsk, DiagCurr, DiagOvOtUt, DiagUv, ToFaultnMsk, ToFuseRstMask, ToPrdrvBalMask};
pub use self::identity::{CCAccLsbCntr, ChipID, CsaGainFactor, DevAddr, VCell1Faults};
pub use self::measurements::{DieTemp, NtcGpio, VCell, VCellSum, VB};
pub use self::thresholds::{
    VBOvTh, VBSumMaxDiffTh, VBUvTh, VCellBalUvDeltaTh, VCellOvTh, VCellSevereDeltaThrs, VCellUvTh,
    VNTCOTTh, VNTCSevereOTTh, VNTCUTTh,
};

verus! {

/// The registers of the L9961 chip
#[derive(Clone, Copy, Debug, PartialEq, Eq, Structural)]
pub enum Registers {
    /// The chip ID register
    ChipID,
    /// The FET and balancing activation register
    Cfg3Act,
    /// Configuration register for the filters and cycles
    Cfg1FiltersCycles,
    /// The device address register
    DevAddr,
    /// Configuration register for enables
    Cfg2Enables,
    /// Configuration register for the CSA gain factor
    CsaGainFactor,
    /// Configuration register for the VCELL overvoltage threshold
    VCellOvTh,
    /// Configuration register for the VCELL undervoltage threshold
    VCellUvTh,
    /// Configuration register for the VCELL severe undervoltage and overvoltage thresholds
    VCellSevereDeltaThrs,
    /// Configuration register for the VCELL balancing undervoltage delta threshold
    VCellBalUvDeltaTh,
    /// Configuration register for the VBAT overvoltage threshold
    VBOvTh,
    /// Configuration register for the VBAT undervoltage threshold
    VBUvTh,
    /// Configuration register for the VBAT sum max diff threshold
    VBSumMaxDiffTh,
    /// Configuration register for the VNTC over temperature threshold
    VNTCOTTh,
    /// Configuration register for the VNTC under temperature threshold
    VNTCUTTh,
    /// Configuration register for the VNTC severe overtemperature threshold
    VNTCSevereOTTh,
    /// Configuration register for overcurrent protection
    OvCThresholds,
    /// Configuration register for persistent overcurrent protection
    PersistentOvCThresholds,
    /// Configuration register for short circuit threshold protection
    SCThreshold,
    /// Configuration register for the TO_PRDRV_BAL_MASK
    ToPrdrvBalMask,
    /// Configuration register for the TO_FUSE_RST_MSK
    ToFuseRstMask,
    /// Configuration register for the TO_FAULTN_MSK
    ToFaultnMsk,
    /// Configuration register for the CURR_MASK
    CurrMsk,
    /// Manufacturer Name MSB Register
    ManufacturerNameMsb,
    /// Manufacturer Name LSB Register
    ManufacturerNameLsb,
    /// Manufacturing Date Register
    ManufacturingDate,
    /// First usage date register
    FirstUsageDate,
    /// Serial Number MSB Register
    SerialNumberMsb,
    /// Serial Number LSB Register
    SerialNumberLsb,
    /// Device Name MSB Register
    DeviceNameMsb,
    /// Device Name LSB Register
    DeviceNameLsb,
    /// NVM1 Register
    Nvm1,
    /// NVM2 Register
    Nvm2,
    /// VCELL1 Register
    VCell1,
    /// VCELL2 Register
    VCell2,
    /// VCELL3 Register
    VCell3,
    /// VCELL4 Register
    VCell4,
    /// VCELL5 Register
    VCell5,
    /// VCELLSUM Register
    VCellSum,
    /// VB Register
    VB,
    /// NTC_GPIO Register
    NtcGpio,
    /// Die Temp Register
    DieTemp,
    /// DIAG_OV_OT_UT Register
    DiagOvOtUt,
    /// DIAG_UV Register
    DiagUv,
    /// CC_INST_MEAS Register
    CCInstMeas,
    /// CC_ACC_MSB Register
    CCAccMsb,
    /// CC_ACC_LSB_CNTR Register
    CCAccLsbCntr,
    /// DIAG_CURR Register
    DiagCurr,
}

impl Registers {
    /// The one-byte address of the register on the bus.
    pub open spec fn address_of(self) -> u8 {
        match self {
            Registers::ChipID => 0x00,
            Registers::Cfg3Act => 0x01,
            Registers::Cfg1FiltersCycles => 0x02,
            Registers::DevAddr => 0x03,
            Registers::Cfg2Enables => 0x04,
            Registers::CsaGainFactor => 0x05,
            Registers::VCellOvTh => 0x06,
            Registers::VCellUvTh => 0x07,
            Registers::VCellSevereDeltaThrs => 0x08,
            Registers::VCellBalUvDeltaTh => 0x09,
            Registers::VBOvTh => 0x0A,
            Registers::VBUvTh => 0x0B,
            Registers::VBSumMaxDiffTh => 0x0C,
            Registers::VNTCOTTh => 0x0D,
            Registers::VNTCUTTh => 0x0E,
            Registers::VNTCSevereOTTh => 0x0F,
            Registers::OvCThresholds => 0x10,
            Registers::PersistentOvCThresholds => 0x11,
            Registers::SCThreshold => 0x12,
            Registers::ToPrdrvBalMask => 0x13,
            Registers::ToFuseRstMask => 0x14,
            Registers::ToFaultnMsk => 0x15,
            Registers::CurrMsk => 0x16,
            Registers::ManufacturerNameMsb => 0x17,
            Registers::ManufacturerNameLsb => 0x18,
            Registers::ManufacturingDate => 0x19,
            Registers::FirstUsageDate => 0x1A,
            Registers::SerialNumberMsb => 0x1B,
            Registers::SerialNumberLsb => 0x1C,
            Registers::DeviceNameMsb => 0x1D,
            Registers::DeviceNameLsb => 0x1E,
            Registers::Nvm1 => 0x1F,
            Registers::Nvm2 => 0x20,
            Registers::VCell1 => 0x21,
            Registers::VCell2 => 0x22,
            Registers::VCell3 => 0x23,
            Registers::VCell4 => 0x24,
            Registers::VCell5 => 0x25,
            Registers::VCellSum => 0x26,
            Registers::VB => 0x27,
            Registers::NtcGpio => 0x28,
            Registers::DieTemp => 0x29,
            Registers::DiagOvOtUt => 0x2A,
            Registers::DiagUv => 0x2B,
            Registers::CCInstMeas => 0x2C,
            Registers::CCAccMsb => 0x2D,
            Registers::CCAccLsbCntr => 0x2E,
            Registers::DiagCurr => 0x2F,
        }
    }

    /// The one-byte address of the register on the bus.
    pub fn address(self) -> (r: u8)
        ensures
            r == self.address_of(),
    {
        match self {
            Registers::ChipID => 0x00,
            Registers::Cfg3Act => 0x01,
            Registers::Cfg1FiltersCycles => 0x02,
            Registers::DevAddr => 0x03,
            Registers::Cfg2Enables => 0x04,
            Registers::CsaGainFactor => 0x05,
            Registers::VCellOvTh => 0x06,
            Registers::VCellUvTh => 0x07,
            Registers::VCellSevereDeltaThrs => 0x08,
            Registers::VCellBalUvDeltaTh => 0x09,
            Registers::VBOvTh => 0x0A,
            Registers::VBUvTh => 0x0B,
            Registers::VBSumMaxDiffTh => 0x0C,
            Registers::VNTCOTTh => 0x0D,
            Registers::VNTCUTTh => 0x0E,
            Registers::VNTCSevereOTTh => 0x0F,
            Registers::OvCThresholds => 0x10,
            Registers::PersistentOvCThresholds => 0x11,
            Registers::SCThreshold => 0x12,
            Registers::ToPrdrvBalMask => 0x13,
            Registers::ToFuseRstMask => 0x14,
            Registers::ToFaultnMsk => 0x15,
            Registers::CurrMsk => 0x16,
            Registers::ManufacturerNameMsb => 0x17,
            Registers::ManufacturerNameLsb => 0x18,
            Registers::ManufacturingDate => 0x19,
            Registers::FirstUsageDate => 0x1A,
            Registers::SerialNumberMsb => 0x1B,
            Registers::SerialNumberLsb => 0x1C,
            Registers::DeviceNameMsb => 0x1D,
            Registers::DeviceNameLsb => 0x1E,
            Registers::Nvm1 => 0x1F,
            Registers::Nvm2 => 0x20,
            Registers::VCell1 => 0x21,
            Registers::VCell2 => 0x22,
            Registers::VCell3 => 0x23,
            Registers::VCell4 => 0x24,
            Registers::VCell5 => 0x25,
            Registers::VCellSum => 0x26,
            Registers::VB => 0x27,
            Registers::NtcGpio => 0x28,
            Registers::DieTemp => 0x29,
            Registers::DiagOvOtUt => 0x2A,
            Registers::DiagUv => 0x2B,
            Registers::CCInstMeas => 0x2C,
            Registers::CCAccMsb => 0x2D,
            Registers::CCAccLsbCntr => 0x2E,
            Registers::DiagCurr => 0x2F,
        }
    }
}

} // verus!
