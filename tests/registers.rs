use l9961::registers::{
    Cfg1FiltersCycles, Cfg2Enables, Cfg3Act, ChipID, DevAddr, FetConfig, SCThreshold,
    TCellFilter, TCurFilter, TMeasCycle, TSCFilter, VBOvTh, VCell, VCellOvTh,
    VCellSevereDeltaThrs, VNTCOTTh, VNTCSevereOTTh, VNTCUTTh,
};
use l9961::Registers;

fn enables_of(c: &Cfg2Enables) -> [u16; 14] {
    [
        c.get_vcell_en_1() as u16,
        c.get_vcell_en_2() as u16,
        c.get_vcell_en_3() as u16,
        c.get_vcell_en_4() as u16,
        c.get_vcell_en_5() as u16,
        c.get_vb_en() as u16,
        c.get_ntc_en() as u16,
        c.get_csa_en() as u16,
        c.get_cc_acc_en() as u16,
        c.get_ovc_en() as u16,
        c.get_sc_en() as u16,
        (c.get_dchg_hs_ls() == FetConfig::LowSide) as u16,
        (c.get_chg_hs_ls() == FetConfig::LowSide) as u16,
        c.get_crc_en() as u16,
    ]
}

fn toggle(c: &mut Cfg2Enables, i: usize) {
    let fet = |on: bool| if on { FetConfig::HighSide } else { FetConfig::LowSide };
    match i {
        0 => c.set_vcell_en_1(!c.get_vcell_en_1()),
        1 => c.set_vcell_en_2(!c.get_vcell_en_2()),
        2 => c.set_vcell_en_3(!c.get_vcell_en_3()),
        3 => c.set_vcell_en_4(!c.get_vcell_en_4()),
        4 => c.set_vcell_en_5(!c.get_vcell_en_5()),
        5 => c.set_vb_en(!c.get_vb_en()),
        6 => c.set_ntc_en(!c.get_ntc_en()),
        7 => c.set_csa_en(!c.get_csa_en()),
        8 => c.set_cc_acc_en(!c.get_cc_acc_en()),
        9 => c.set_ovc_en(!c.get_ovc_en()),
        10 => c.set_sc_en(!c.get_sc_en()),
        11 => c.set_dchg_hs_ls(fet(c.get_dchg_hs_ls() == FetConfig::LowSide)),
        12 => c.set_chg_hs_ls(fet(c.get_chg_hs_ls() == FetConfig::LowSide)),
        _ => c.set_crc_en(!c.get_crc_en()),
    }
}

#[test]
fn cfg2_enables_fields_are_isolated() {
    for start in [0x0000u16, 0x3FFF, 0x2AAA, 0x1555, 0xFFFF] {
        for i in 0..14 {
            let mut c = Cfg2Enables(start);
            let before = enables_of(&c);
            toggle(&mut c, i);
            let after = enables_of(&c);
            for j in 0..14 {
                if j == i {
                    assert_ne!(before[j], after[j]);
                } else {
                    assert_eq!(before[j], after[j]);
                }
            }
            assert_eq!(c.0 & 0xC000, start & 0xC000);
        }
    }
}

#[test]
fn cfg2_enables_new_places_each_bit() {
    let c = Cfg2Enables::new(
        true, false, true, false, true, true, false, true, false, true, false,
        FetConfig::LowSide, FetConfig::HighSide, true,
    );
    assert_eq!(
        c.0,
        (1 << 0) | (1 << 2) | (1 << 4) | (1 << 5) | (1 << 7) | (1 << 9) | (1 << 11) | (1 << 13)
    );
    assert!(c.get_vcell_en_1());
    assert!(!c.get_vcell_en_2());
    assert_eq!(c.get_dchg_hs_ls(), FetConfig::LowSide);
    assert_eq!(c.get_chg_hs_ls(), FetConfig::HighSide);
    assert!(c.get_crc_en());
}

#[test]
fn counter_threshold_of_sixteen_is_rejected() {
    assert!(VCellOvTh::new(215, 16).is_none());
    let ok = VCellOvTh::new(215, 15).unwrap();
    assert_eq!(ok.0, 0x0FD7);
    assert_eq!(ok.get_vcell_ov_th(), 215);
    assert_eq!(ok.get_ncell_ov_cnt_th(), 15);
    assert!(VBOvTh::new(1, 200).is_none());
}

#[test]
fn vcell_ov_th_literal_word() {
    let v = VCellOvTh::new(215, 10).unwrap();
    assert_eq!(v.0, 0x0AD7);
    let back = VCellOvTh(0x0AD7);
    assert_eq!(back.get_vcell_ov_th(), 215);
    assert_eq!(back.get_ncell_ov_cnt_th(), 10);
}

#[test]
fn threshold_setters_keep_the_other_field() {
    let mut v = VCellOvTh::new(215, 10).unwrap();
    v.set_vcell_ov_th(1);
    assert_eq!(v.get_ncell_ov_cnt_th(), 10);
    v.set_ncell_ov_cnt_th(3);
    assert_eq!(v.get_vcell_ov_th(), 1);
    assert_eq!(v.0, 0x0301);
    let mut s = VCellSevereDeltaThrs::new(0x12, 0x34);
    assert_eq!(s.0, 0x3412);
    s.set_vcell_severe_uv_delta_th(0xAB);
    assert_eq!(s.get_vcell_severe_ov_delta_th(), 0x12);
    assert_eq!(s.get_vcell_severe_uv_delta_th(), 0xAB);
}

#[test]
fn chip_id_fields() {
    let id = ChipID(0x0034);
    assert_eq!(id.metal_id(), 0x4);
    assert_eq!(id.silicon_id(), 0x3);
}

#[test]
fn ntc_threshold_counter_is_read_from_top_nibble() {
    let v = VNTCOTTh::new(0x123, 9).unwrap();
    assert_eq!(v.0, 0x9123);
    assert_eq!(v.get_ntc_ot_th(), 0x123);
    assert_eq!(v.get_nntc_ot_cnt_th(), 9);
    assert!(VNTCOTTh::new(0x1000, 1).is_none());
    let u = VNTCUTTh::new(0xFFF, 15).unwrap();
    assert_eq!(u.0, 0xFFFF);
    assert_eq!(u.get_nntc_ut_cnt_th(), 15);
    assert!(VNTCSevereOTTh::new(0x1000).is_none());
    assert_eq!(VNTCSevereOTTh::new(0x0ABC).unwrap().get_ntc_severe_ot_th(), 0x0ABC);
}

#[test]
fn short_circuit_fields_are_separate() {
    let mut sc = SCThreshold(0x00A5);
    assert_eq!(sc.get_sc_th(), 5);
    assert_eq!(sc.get_sc_persist_th(), 10);
    sc.set_sc_persist_th(3);
    assert_eq!(sc.get_sc_th(), 5);
    assert_eq!(sc.0, 0x0035);
}

#[test]
fn cfg1_default_and_fields() {
    let c = Cfg1FiltersCycles::default();
    assert_eq!(c.0, 0x0F4A);
    assert_eq!(c.get_t_cell_filter(), TCellFilter::T4_38Ms);
    assert_eq!(c.get_t_sc_filter(), TSCFilter::T128us);
    assert_eq!(c.get_t_curr_filter(), TCurFilter::T16_9Ms);
    assert_eq!(c.get_t_meas_cycle().period_ms(), 300);
    assert_eq!(Cfg1FiltersCycles::deactivate().0, 0);
    assert!(Cfg1FiltersCycles::deactivate().get_t_meas_cycle().is_disabled());
    let mut d = c;
    d.set_t_meas_cycle(TMeasCycle::new_ms(100));
    assert_eq!(d.get_t_meas_cycle(), TMeasCycle(10));
    assert_eq!(d.get_t_cell_filter(), TCellFilter::T4_38Ms);
}

#[test]
fn reserved_short_circuit_filter_code_reads_as_longest() {
    assert_eq!(Cfg1FiltersCycles(7 << 2).get_t_sc_filter(), TSCFilter::T512us);
    assert_eq!(TSCFilter::from_code(5), TSCFilter::T512us);
    assert_eq!(TSCFilter::T256us.code(), 3);
}

#[test]
fn vcell_constructor_checks_the_cell_number() {
    assert!(VCell::new(0, 100).is_none());
    assert!(VCell::new(6, 100).is_none());
    let v = VCell::new(3, 0xF123).unwrap();
    assert_eq!(v.0, 0x3123);
    assert_eq!(v.get_cell(), 3);
    assert_eq!(v.get_vcell_meas_code(), 0x123);
}

#[test]
fn cfg3_act_flags() {
    let mut c = Cfg3Act::new(true, false, false, false, true, true, false);
    assert_eq!(c.0, 0b0110001);
    c.set_discharge_enabled(true);
    assert!(c.get_discharge_enabled());
    assert!(c.get_cell_5_balance_enabled());
    c.set_cell_1_balance_enabled(false);
    assert_eq!(c.0, 0b1110000);
}

#[test]
fn device_address_field() {
    let mut a = DevAddr(0x00C9);
    assert_eq!(a.get_device_address(), 0x49);
    a.set_device_address(0x21);
    assert_eq!(a.get_device_address(), 0x21);
}

#[test]
fn register_addresses() {
    assert_eq!(Registers::ChipID.address(), 0x00);
    assert_eq!(Registers::VCellOvTh.address(), 0x06);
    assert_eq!(Registers::VCell1.address(), 0x21);
    assert_eq!(Registers::DiagOvOtUt.address(), 0x2A);
    assert_eq!(Registers::DiagCurr.address(), 0x2F);
}
