//! The measurement module holds the values collected in one measurement cycle, and the
//! decoding of the measurement block and of the diagnostic registers into them.
use crate::bitfield::field;
use crate::conversions::{
    cell_voltage_measurement_mv_from_code, mv_of, pack_voltage_measurement_mv_from_code,
    CELL_MEASUREMENT_STEP_UV, NTC_STEP_UV, PACK_MEASUREMENT_STEP_UV,
};
use crate::faults::{
    curr_pack_faults, curr_pack_flags, ov_ot_ut_cell_faults, ov_ot_ut_cell_flags,
    ov_ot_ut_pack_faults, ov_ot_ut_pack_flags, uv_cell_faults, uv_cell_flags, uv_pack_faults,
    uv_pack_flags, CellFaults, PackFaults,
};
use crate::registers::measurements::die_temp_kelvin_of;
use crate::registers::{DiagCurr, DiagOvOtUt, DiagUv, DieTemp, NtcGpio, VCell, VCellSum, VB};
use vstd::prelude::*;

verus! {

/// Number of registers in the measurement block, VCELL1 to DIE_TEMP.
pub const MEASUREMENT_BLOCK_LEN: usize = 9;

/// A single cell measurement
#[derive(Clone, Copy, Debug, PartialEq, Eq, Structural)]
pub struct CellMeasurement {
    /// Cell voltage in mV
    pub voltage_mv: u16,
    /// Active faults, if any
    pub faults: CellFaults,
}

impl Default for CellMeasurement {
    fn default() -> (r: Self)
        ensures
            r.voltage_mv == 0,
            r.faults.0 == 0,
    {
        Self { voltage_mv: 0, faults: CellFaults::empty() }
    }
}

/// Data collected from a single measurement cycle. Cells beyond the pack's cell count
/// keep their default values.
#[derive(Clone, Copy, Debug, PartialEq, Eq, Structural)]
pub struct Measurement {
    /// Cell 1 measurement
    pub cell_1: CellMeasurement,
    /// Cell 2 measurement
    pub cell_2: CellMeasurement,
    /// Cell 3 measurement
    pub cell_3: CellMeasurement,
    /// Cell 4 measurement
    pub cell_4: CellMeasurement,
    /// Cell 5 measurement
    pub cell_5: CellMeasurement,
    /// Sum of all cell voltages in millivolts
    pub cell_sum_mv: u16,
    /// Battery voltage in millivolts
    pub vbat_mv: u16,
    /// NTC voltage in millivolts
    pub ntc_mv: u16,
    /// Die temperature in kelvin
    pub die_temp: u16,
    /// Pack or BMS level faults
    pub pack_faults: PackFaults,
}

/// The measurement that a cycle starts from: every value zero, no fault.
pub open spec fn zero_measurement() -> Measurement {
    let c = CellMeasurement { voltage_mv: 0, faults: CellFaults(0) };
    Measurement {
        cell_1: c,
        cell_2: c,
        cell_3: c,
        cell_4: c,
        cell_5: c,
        cell_sum_mv: 0,
        vbat_mv: 0,
        ntc_mv: 0,
        die_temp: 0,
        pack_faults: PackFaults(0),
    }
}

impl Default for Measurement {
    fn default() -> (r: Self)
        ensures
            r == zero_measurement(),
    {
        Self {
            cell_1: CellMeasurement::default(),
            cell_2: CellMeasurement::default(),
            cell_3: CellMeasurement::default(),
            cell_4: CellMeasurement::default(),
            cell_5: CellMeasurement::default(),
            cell_sum_mv: 0,
            vbat_mv: 0,
            ntc_mv: 0,
            die_temp: 0,
            pack_faults: PackFaults::empty(),
        }
    }
}

/// `c` with the cell flags `flags` added.
pub open spec fn cell_with_faults(c: CellMeasurement, flags: u8) -> CellMeasurement {
    CellMeasurement { voltage_mv: c.voltage_mv, faults: CellFaults(c.faults.0 | flags) }
}

/// `m` with flags added to each cell and to the pack; every value kept.
pub open spec fn with_faults(
    m: Measurement,
    c1: u8,
    c2: u8,
    c3: u8,
    c4: u8,
    c5: u8,
    pack: u16,
) -> Measurement {
    Measurement {
        cell_1: cell_with_faults(m.cell_1, c1),
        cell_2: cell_with_faults(m.cell_2, c2),
        cell_3: cell_with_faults(m.cell_3, c3),
        cell_4: cell_with_faults(m.cell_4, c4),
        cell_5: cell_with_faults(m.cell_5, c5),
        cell_sum_mv: m.cell_sum_mv,
        vbat_mv: m.vbat_mv,
        ntc_mv: m.ntc_mv,
        die_temp: m.die_temp,
        pack_faults: PackFaults(m.pack_faults.0 | pack),
    }
}

/// `m` with the flags of DIAG_OV_OT_UT added.
pub open spec fn with_ov_ot_ut(m: Measurement, diag: u16, cell_count: u8) -> Measurement {
    with_faults(
        m,
        ov_ot_ut_cell_flags(diag, 1, cell_count),
        ov_ot_ut_cell_flags(diag, 2, cell_count),
        ov_ot_ut_cell_flags(diag, 3, cell_count),
        ov_ot_ut_cell_flags(diag, 4, cell_count),
        ov_ot_ut_cell_flags(diag, 5, cell_count),
        ov_ot_ut_pack_flags(diag),
    )
}

/// `m` with the flags of DIAG_UV added.
pub open spec fn with_uv(m: Measurement, diag: u16, cell_count: u8) -> Measurement {
    with_faults(
        m,
        uv_cell_flags(diag, 1, cell_count),
        uv_cell_flags(diag, 2, cell_count),
        uv_cell_flags(diag, 3, cell_count),
        uv_cell_flags(diag, 4, cell_count),
        uv_cell_flags(diag, 5, cell_count),
        uv_pack_flags(diag),
    )
}

/// `m` with the flags of DIAG_CURR added.
pub open spec fn with_curr(m: Measurement, diag: u16) -> Measurement {
    with_faults(m, 0, 0, 0, 0, 0, curr_pack_flags(diag))
}

/// Voltage in mV of a cell voltage measurement word.
pub open spec fn cell_mv_of(raw: u16) -> u16 {
    mv_of(field(raw, 0, 12) as int, CELL_MEASUREMENT_STEP_UV as int) as u16
}

/// `c` with its voltage decoded from `raw` when the cell is populated.
pub open spec fn cell_with_voltage(c: CellMeasurement, raw: u16, populated: bool) -> CellMeasurement {
    if populated {
        CellMeasurement { voltage_mv: cell_mv_of(raw), faults: c.faults }
    } else {
        c
    }
}

/// `m` with the values of the measurement block `block` (VCELL1 to VCELL5, VCELLSUM, VB,
/// NTC_GPIO, DIE_TEMP) decoded into it; the faults are kept.
pub open spec fn with_block(m: Measurement, block: Seq<u16>, cell_count: u8) -> Measurement {
    Measurement {
        cell_1: cell_with_voltage(m.cell_1, block[0], 1 <= cell_count),
        cell_2: cell_with_voltage(m.cell_2, block[1], 2 <= cell_count),
        cell_3: cell_with_voltage(m.cell_3, block[2], 3 <= cell_count),
        cell_4: cell_with_voltage(m.cell_4, block[3], 4 <= cell_count),
        cell_5: cell_with_voltage(m.cell_5, block[4], 5 <= cell_count),
        cell_sum_mv: mv_of(field(block[5], 0, 15) as int, CELL_MEASUREMENT_STEP_UV as int) as u16,
        vbat_mv: mv_of(field(block[6], 0, 15) as int, PACK_MEASUREMENT_STEP_UV as int) as u16,
        ntc_mv: mv_of(field(block[7], 0, 12) as int, NTC_STEP_UV as int) as u16,
        die_temp: die_temp_kelvin_of(field(block[8], 0, 12) as int) as u16,
        pack_faults: m.pack_faults,
    }
}

impl Measurement {
    /// Adds flags to each cell and to the pack.
    fn add_faults(&mut self, c1: u8, c2: u8, c3: u8, c4: u8, c5: u8, pack: u16)
        ensures
            *final(self) == with_faults(*old(self), c1, c2, c3, c4, c5, pack),
    {
        self.cell_1.faults = CellFaults(self.cell_1.faults.0 | c1);
        self.cell_2.faults = CellFaults(self.cell_2.faults.0 | c2);
        self.cell_3.faults = CellFaults(self.cell_3.faults.0 | c3);
        self.cell_4.faults = CellFaults(self.cell_4.faults.0 | c4);
        self.cell_5.faults = CellFaults(self.cell_5.faults.0 | c5);
        self.pack_faults = PackFaults(self.pack_faults.0 | pack);
    }

    /// Adds the faults latched in DIAG_OV_OT_UT, for the first `cell_count` cells and the pack.
    pub fn apply_diag_ov_ot_ut(&mut self, diag: DiagOvOtUt, cell_count: u8)
        ensures
            *final(self) == with_ov_ot_ut(*old(self), diag.0, cell_count),
    {
        let d = diag.0;
        let c1 = ov_ot_ut_cell_faults(d, 1, cell_count);
        let c2 = ov_ot_ut_cell_faults(d, 2, cell_count);
        let c3 = ov_ot_ut_cell_faults(d, 3, cell_count);
        let c4 = ov_ot_ut_cell_faults(d, 4, cell_count);
        let c5 = ov_ot_ut_cell_faults(d, 5, cell_count);
        let pack = ov_ot_ut_pack_faults(d);
        self.add_faults(c1, c2, c3, c4, c5, pack);
    }

    /// Adds the faults latched in DIAG_UV, for the first `cell_count` cells and the pack.
    pub fn apply_diag_uv(&mut self, diag: DiagUv, cell_count: u8)
        ensures
            *final(self) == with_uv(*old(self), diag.0, cell_count),
    {
        let d = diag.0;
        let c1 = uv_cell_faults(d, 1, cell_count);
        let c2 = uv_cell_faults(d, 2, cell_count);
        let c3 = uv_cell_faults(d, 3, cell_count);
        let c4 = uv_cell_faults(d, 4, cell_count);
        let c5 = uv_cell_faults(d, 5, cell_count);
        let pack = uv_pack_faults(d);
        self.add_faults(c1, c2, c3, c4, c5, pack);
    }

    /// Adds the faults latched in DIAG_CURR to the pack.
    pub fn apply_diag_curr(&mut self, diag: DiagCurr)
        ensures
            *final(self) == with_curr(*old(self), diag.0),
    {
        let pack = curr_pack_faults(diag);
        self.add_faults(0, 0, 0, 0, 0, pack);
    }

    /// Decodes the measurement block (VCELL1 to VCELL5, VCELLSUM, VB, NTC_GPIO, DIE_TEMP)
    /// into the voltages and the temperature of the first `cell_count` cells and the pack.
    pub fn apply_measurement_block(&mut self, block: &[u16], cell_count: u8)
        requires
            block@.len() == MEASUREMENT_BLOCK_LEN,
        ensures
            *final(self) == with_block(*old(self), block@, cell_count),
    {
        if 1 <= cell_count {
            self.cell_1.voltage_mv = cell_voltage_measurement_mv_from_code(
                VCell(block[0]).get_vcell_meas_code(),
            );
        }
        if 2 <= cell_count {
            self.cell_2.voltage_mv = cell_voltage_measurement_mv_from_code(
                VCell(block[1]).get_vcell_meas_code(),
            );
        }
        if 3 <= cell_count {
            self.cell_3.voltage_mv = cell_voltage_measurement_mv_from_code(
                VCell(block[2]).get_vcell_meas_code(),
            );
        }
        if 4 <= cell_count {
            self.cell_4.voltage_mv = cell_voltage_measurement_mv_from_code(
                VCell(block[3]).get_vcell_meas_code(),
            );
        }
        if 5 <= cell_count {
            self.cell_5.voltage_mv = cell_voltage_measurement_mv_from_code(
                VCell(block[4]).get_vcell_meas_code(),
            );
        }
        self.cell_sum_mv = cell_voltage_measurement_mv_from_code(
            VCellSum(block[5]).get_vcellsum_meas(),
        );
        self.vbat_mv = pack_voltage_measurement_mv_from_code(VB(block[6]).get_vb_meas_code());
        self.ntc_mv = NtcGpio(block[7]).get_ntc_meas_mv();
        self.die_temp = DieTemp(block[8]).get_die_temp_kelvin();
    }
}

proof fn lemma_or_swap_u8(x: u8, a: u8, b: u8)
    by (bit_vector)
    ensures
        (x | a) | b == (x | b) | a,
        (x | a) | b == x | (a | b),
{
}

proof fn lemma_or_swap_u16(x: u16, a: u16, b: u16)
    by (bit_vector)
    ensures
        (x | a) | b == (x | b) | a,
        (x | a) | b == x | (a | b),
{
}

/// Adding two sets of flags gives their union, in either order.
pub proof fn lemma_with_faults_commute(
    m: Measurement,
    a1: u8,
    a2: u8,
    a3: u8,
    a4: u8,
    a5: u8,
    ap: u16,
    b1: u8,
    b2: u8,
    b3: u8,
    b4: u8,
    b5: u8,
    bp: u16,
)
    ensures
        with_faults(with_faults(m, a1, a2, a3, a4, a5, ap), b1, b2, b3, b4, b5, bp) == with_faults(
            with_faults(m, b1, b2, b3, b4, b5, bp),
            a1,
            a2,
            a3,
            a4,
            a5,
            ap,
        ),
        with_faults(with_faults(m, a1, a2, a3, a4, a5, ap), b1, b2, b3, b4, b5, bp) == with_faults(
            m,
            a1 | b1,
            a2 | b2,
            a3 | b3,
            a4 | b4,
            a5 | b5,
            ap | bp,
        ),
{
    lemma_or_swap_u8(m.cell_1.faults.0, a1, b1);
    lemma_or_swap_u8(m.cell_2.faults.0, a2, b2);
    lemma_or_swap_u8(m.cell_3.faults.0, a3, b3);
    lemma_or_swap_u8(m.cell_4.faults.0, a4, b4);
    lemma_or_swap_u8(m.cell_5.faults.0, a5, b5);
    lemma_or_swap_u16(m.pack_faults.0, ap, bp);
}

/// Decoding the diagnostic registers into a measurement only adds flags: decoding two of
/// them one after the other, in either order, gives the union of their flags, and keeps
/// every flag and value that was there before.
pub proof fn lemma_fault_decoding_is_additive(
    m: Measurement,
    diag_ov_ot_ut: u16,
    diag_uv: u16,
    diag_curr: u16,
    cell_count: u8,
)
    ensures
        with_uv(with_ov_ot_ut(m, diag_ov_ot_ut, cell_count), diag_uv, cell_count) == with_ov_ot_ut(
            with_uv(m, diag_uv, cell_count),
            diag_ov_ot_ut,
            cell_count,
        ),
        with_curr(with_ov_ot_ut(m, diag_ov_ot_ut, cell_count), diag_curr) == with_ov_ot_ut(
            with_curr(m, diag_curr),
            diag_ov_ot_ut,
            cell_count,
        ),
        with_curr(with_uv(m, diag_uv, cell_count), diag_curr) == with_uv(
            with_curr(m, diag_curr),
            diag_uv,
            cell_count,
        ),
        with_uv(with_ov_ot_ut(m, diag_ov_ot_ut, cell_count), diag_uv, cell_count) == with_faults(
            m,
            ov_ot_ut_cell_flags(diag_ov_ot_ut, 1, cell_count) | uv_cell_flags(
                diag_uv,
                1,
                cell_count,
            ),
            ov_ot_ut_cell_flags(diag_ov_ot_ut, 2, cell_count) | uv_cell_flags(
                diag_uv,
                2,
                cell_count,
            ),
            ov_ot_ut_cell_flags(diag_ov_ot_ut, 3, cell_count) | uv_cell_flags(
                diag_uv,
                3,
                cell_count,
            ),
            ov_ot_ut_cell_flags(diag_ov_ot_ut, 4, cell_count) | uv_cell_flags(
                diag_uv,
                4,
                cell_count,
            ),
            ov_ot_ut_cell_flags(diag_ov_ot_ut, 5, cell_count) | uv_cell_flags(
                diag_uv,
                5,
                cell_count,
            ),
            ov_ot_ut_pack_flags(diag_ov_ot_ut) | uv_pack_flags(diag_uv),
        ),
{
    let d1 = diag_ov_ot_ut;
    let d2 = diag_uv;
    let cc = cell_count;
    lemma_with_faults_commute(
        m,
        ov_ot_ut_cell_flags(d1, 1, cc),
        ov_ot_ut_cell_flags(d1, 2, cc),
        ov_ot_ut_cell_flags(d1, 3, cc),
        ov_ot_ut_cell_flags(d1, 4, cc),
        ov_ot_ut_cell_flags(d1, 5, cc),
        ov_ot_ut_pack_flags(d1),
        uv_cell_flags(d2, 1, cc),
        uv_cell_flags(d2, 2, cc),
        uv_cell_flags(d2, 3, cc),
        uv_cell_flags(d2, 4, cc),
        uv_cell_flags(d2, 5, cc),
        uv_pack_flags(d2),
    );
    lemma_with_faults_commute(
        m,
        ov_ot_ut_cell_flags(d1, 1, cc),
        ov_ot_ut_cell_flags(d1, 2, cc),
        ov_ot_ut_cell_flags(d1, 3, cc),
        ov_ot_ut_cell_flags(d1, 4, cc),
        ov_ot_ut_cell_flags(d1, 5, cc),
        ov_ot_ut_pack_flags(d1),
        0,
        0,
        0,
        0,
        0,
        curr_pack_flags(diag_curr),
    );
    lemma_with_faults_commute(
        m,
        uv_cell_flags(d2, 1, cc),
        uv_cell_flags(d2, 2, cc),
        uv_cell_flags(d2, 3, cc),
        uv_cell_flags(d2, 4, cc),
        uv_cell_flags(d2, 5, cc),
        uv_pack_flags(d2),
        0,
        0,
        0,
        0,
        0,
        curr_pack_flags(diag_curr),
    );
}

} // verus!
