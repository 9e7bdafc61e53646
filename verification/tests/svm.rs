use hsakmt_rs::fmm::{aperture_allocate_area, aperture_release_area, mmap_aperture_request, MapRequest};
use hsakmt_rs::fmm_globals::{
    manageable_aperture_ops_t, svm_aperture_type, vm_area, HsaKmtFmmGlobal, SvmState,
};
use hsakmt_rs::hsakmttypes::HsakmtStatus;
use hsakmt_rs::svm::{
    init_mmap_apertures, init_mmap_apertures_probed, init_svm_apertures,
    init_svm_apertures_reserved, svm_align_range, svm_reserve_first, svm_reserve_judge,
    svm_reserve_next, SvmInitStep, SvmReserveCursor, SvmVerdict, SVM_MIN_VM_SIZE,
};

const PAGE: u64 = 0x1000;
const TOP_40: u64 = 0xFF_FFFF_FFFF;
const TOP_47: u64 = 0x7FFF_FFFF_FFFF;

fn window(fmm: &HsaKmtFmmGlobal, which: svm_aperture_type) -> (u64, u64) {
    let aperture = fmm.svm.aperture(which).unwrap();
    (aperture.base, aperture.limit)
}

fn reserved_state() -> HsaKmtFmmGlobal {
    let mut fmm = HsaKmtFmmGlobal::new();
    let step = init_svm_apertures(&mut fmm, 0x1000, TOP_40, 0x1000, 1, PAGE);
    let (cursor, map_size) = match step {
        SvmInitStep::Reserve { cursor, map_size } => (cursor, map_size),
        other => panic!("{other:?}"),
    };
    let (step, unmap) =
        init_svm_apertures_reserved(&mut fmm, cursor, map_size, Some(0x20_0000), 0x1000, 1, PAGE);
    assert_eq!(step, SvmInitStep::Done(HsakmtStatus::HSAKMT_STATUS_SUCCESS));
    assert_eq!(unmap.size, 0);
    fmm
}

#[test]
fn ranges_are_cut_to_whole_huge_pages() {
    assert_eq!(svm_align_range(0x1000, TOP_40), Some((0x20_0000, TOP_40)));
    assert_eq!(svm_align_range(0x20_0000, 0x7F_FFFF), Some((0x20_0000, 0x7F_FFFF)));
    assert_eq!(svm_align_range(0x20_0001, 0x7F_FFFE), Some((0x40_0000, 0x5F_FFFF)));
    assert_eq!(svm_align_range(0, u64::MAX), Some((0, u64::MAX)));
    assert_eq!(svm_align_range(0, 0x1F_FFFE), None);
    assert_eq!(svm_align_range(u64::MAX, u64::MAX), None);
}

#[test]
fn the_full_range_is_probed_and_mapped_directly() {
    let mut fmm = HsaKmtFmmGlobal::new();
    let step = init_svm_apertures(&mut fmm, 0x1000, TOP_47, 0x1000, 1, PAGE);
    assert_eq!(step, SvmInitStep::ProbeDirect);
    assert_eq!(fmm.svm.state, SvmState::Uninitialized);
    assert_eq!(window(&fmm, svm_aperture_type::SVM_DEFAULT), (0x20_0000, TOP_47));
    assert_eq!(window(&fmm, svm_aperture_type::SVM_COHERENT), (0, 0));
    assert_eq!(fmm.svm.default_aperture.ops, manageable_aperture_ops_t::MmapBacked);
    assert!(fmm.svm.default_aperture.is_cpu_accessible);
    assert_eq!(fmm.svm.default_aperture.guard_pages, 1);
    assert!(fmm.svm.dgpu_aperture().is_none());

    let request = mmap_aperture_request(&fmm.svm.default_aperture, None, PAGE, PAGE, PAGE, 0);
    assert_eq!(request, Ok(MapRequest::Anywhere { length: 0x3000, align: PAGE, guard_size: PAGE }));
    let grant = aperture_allocate_area(&mut fmm.svm.default_aperture, None, PAGE, PAGE, 0, Some(0x7000_0000_0000)).unwrap();
    assert_eq!(grant.address, 0x7000_0000_1000);
    let area = aperture_release_area(&mut fmm.svm.default_aperture, grant.address, PAGE, PAGE);
    assert_eq!(area, Ok(vm_area { start: 0x7000_0000_1000, size: 0x2000 }));

    let step = init_mmap_apertures_probed(&mut fmm, true, PAGE);
    assert_eq!(step, SvmInitStep::Done(HsakmtStatus::HSAKMT_STATUS_SUCCESS));
    assert_eq!(fmm.svm.state, SvmState::DirectMapped);
    assert_eq!(fmm.dgpu_shared_aperture_base, 0x20_0000);
    assert_eq!(fmm.dgpu_shared_aperture_limit, TOP_47);
    assert_eq!(fmm.svm.dgpu_aperture().map(|a| a.base), Some(0x20_0000));
    assert_eq!(fmm.svm.dgpu_alt_aperture().map(|a| a.base), Some(0x20_0000));
}

#[test]
fn more_than_a_page_of_alignment_rules_direct_mapping_out() {
    let mut fmm = HsaKmtFmmGlobal::new();
    assert_eq!(init_mmap_apertures(&mut fmm, 0x20_0000, TOP_47, 0x8000, 1, PAGE), HsakmtStatus::HSAKMT_STATUS_ERROR);
    assert_eq!(window(&fmm, svm_aperture_type::SVM_DEFAULT), (0, 0));
    assert_eq!(init_mmap_apertures(&mut fmm, 0x20_0000, TOP_47, 0x1000, 2, PAGE), HsakmtStatus::HSAKMT_STATUS_SUCCESS);
    assert_eq!(window(&fmm, svm_aperture_type::SVM_DEFAULT), (0x20_0000, TOP_47));
    let mut other = HsaKmtFmmGlobal::new();
    let step = init_svm_apertures(&mut other, 0, TOP_47, 0x8000, 1, PAGE);
    assert!(matches!(step, SvmInitStep::Reserve { .. }));
}

#[test]
fn a_failed_probe_falls_back_to_reserving() {
    let mut fmm = HsaKmtFmmGlobal::new();
    assert_eq!(init_svm_apertures(&mut fmm, 0, TOP_47, 0x1000, 1, PAGE), SvmInitStep::ProbeDirect);
    let step = init_mmap_apertures_probed(&mut fmm, false, PAGE);
    assert_eq!(
        step,
        SvmInitStep::Reserve {
            cursor: SvmReserveCursor { base: 0, limit: TOP_47, len: 0x8000_0000_0000, addr: 0 },
            map_size: 0x8000_0000_0000,
        }
    );
    assert_eq!(window(&fmm, svm_aperture_type::SVM_DEFAULT), (0, 0));
    assert_eq!(fmm.svm.state, SvmState::Uninitialized);
    assert_eq!(fmm.dgpu_shared_aperture_limit, 0);
}

#[test]
fn forced_reservation_skips_the_probe() {
    let mut fmm = HsaKmtFmmGlobal::new();
    fmm.svm.reserve_svm = true;
    let step = init_svm_apertures(&mut fmm, 0, TOP_47, 0x1000, 1, PAGE);
    assert!(matches!(step, SvmInitStep::Reserve { .. }));
}

#[test]
fn a_limited_range_is_reserved_and_split_in_two() {
    let mut fmm = HsaKmtFmmGlobal::new();
    let step = init_svm_apertures(&mut fmm, 0x1000, TOP_40, 0x1000, 1, PAGE);
    let cursor = SvmReserveCursor { base: 0x20_0000, limit: TOP_40, len: 0xFF_FFE0_0000, addr: 0x20_0000 };
    assert_eq!(step, SvmInitStep::Reserve { cursor, map_size: 0xFF_FFE0_0000 });
    let (step, unmap) =
        init_svm_apertures_reserved(&mut fmm, cursor, 0xFF_FFE0_0000, Some(0x20_0000), 0x1000, 1, PAGE);
    assert_eq!(step, SvmInitStep::Done(HsakmtStatus::HSAKMT_STATUS_SUCCESS));
    assert_eq!(unmap, vm_area { start: 0x20_0000, size: 0 });
    assert_eq!(fmm.svm.state, SvmState::ReservedRange);
    assert_eq!(fmm.dgpu_shared_aperture_base, 0x20_0000);
    assert_eq!(fmm.dgpu_shared_aperture_limit, TOP_40);
    assert_eq!(window(&fmm, svm_aperture_type::SVM_COHERENT), (0x20_0000, 0x40_0017_FFFF));
    assert_eq!(window(&fmm, svm_aperture_type::SVM_DEFAULT), (0x40_0018_0000, TOP_40));
    assert_eq!(fmm.svm.coherent_aperture.ops, manageable_aperture_ops_t::ReservedRange);
    assert_eq!(fmm.svm.default_aperture.ops, manageable_aperture_ops_t::ReservedRange);
    assert_eq!(fmm.svm.coherent_aperture.base % 0x1_0000, 0);
    assert_eq!((fmm.svm.coherent_aperture.limit + 1 - fmm.svm.coherent_aperture.base) % 0x1_0000, 0);
    assert_eq!(fmm.svm.dgpu_aperture().map(|a| a.base), Some(0x40_0018_0000));
    assert_eq!(fmm.svm.dgpu_alt_aperture().map(|a| a.base), Some(0x20_0000));
    assert!(fmm.svm.aperture(svm_aperture_type::SVM_APERTURE_NUM).is_none());
}

#[test]
fn setting_up_twice_changes_nothing() {
    let mut fmm = reserved_state();
    let before = (
        window(&fmm, svm_aperture_type::SVM_DEFAULT),
        window(&fmm, svm_aperture_type::SVM_COHERENT),
        fmm.dgpu_shared_aperture_base,
        fmm.dgpu_shared_aperture_limit,
    );
    let again = init_svm_apertures(&mut fmm, 0x4000_0000, 0x3FFF_FFFF_FFFF, 0x1000, 3, PAGE);
    assert_eq!(again, SvmInitStep::Done(HsakmtStatus::HSAKMT_STATUS_SUCCESS));
    let after = (
        window(&fmm, svm_aperture_type::SVM_DEFAULT),
        window(&fmm, svm_aperture_type::SVM_COHERENT),
        fmm.dgpu_shared_aperture_base,
        fmm.dgpu_shared_aperture_limit,
    );
    assert_eq!(before, after);
    assert_eq!(fmm.svm.state, SvmState::ReservedRange);
    assert_eq!(fmm.svm.default_aperture.guard_pages, 1);
}

#[test]
fn no_range_is_an_error_for_good() {
    let mut fmm = HsaKmtFmmGlobal::new();
    let step = init_svm_apertures(&mut fmm, 0x4000_0000, 0x3FFF_FFFF, 0x1000, 1, PAGE);
    assert_eq!(step, SvmInitStep::Done(HsakmtStatus::HSAKMT_STATUS_ERROR));
    assert_eq!(fmm.svm.state, SvmState::Error);
    let again = init_svm_apertures(&mut fmm, 0, TOP_47, 0x1000, 1, PAGE);
    assert_eq!(again, SvmInitStep::Done(HsakmtStatus::HSAKMT_STATUS_ERROR));
    let mut small = HsaKmtFmmGlobal::new();
    let step = init_svm_apertures(&mut small, 0, 0xFFFF_FFFE, 0x1000, 1, PAGE);
    assert_eq!(step, SvmInitStep::Done(HsakmtStatus::HSAKMT_STATUS_ERROR));
}

#[test]
fn the_search_halves_the_length_when_nothing_is_left_to_try() {
    let limit = 0x1_FFFF_FFFF;
    assert_eq!(SVM_MIN_VM_SIZE, 0x1_0000_0000);
    let first = svm_reserve_first(0, limit, PAGE);
    let cursor = SvmReserveCursor { base: 0, limit, len: 0x2_0000_0000, addr: 0 };
    assert_eq!(first, SvmInitStep::Reserve { cursor, map_size: 0x2_0000_0000 });
    assert_eq!(
        svm_reserve_next(0, limit, 0x2_0000_0000, 0x1_0000_0000, PAGE),
        SvmInitStep::Reserve {
            cursor: SvmReserveCursor { base: 0, limit, len: 0x2_0000_0000, addr: 0x1_0000_0000 },
            map_size: 0x1_0000_0000,
        }
    );
    assert_eq!(
        svm_reserve_next(0, limit, 0x2_0000_0000, 0x1_0020_0000, PAGE),
        SvmInitStep::Reserve {
            cursor: SvmReserveCursor { base: 0, limit, len: 0x1_0000_0000, addr: 0 },
            map_size: 0x1_0000_0000,
        }
    );
    assert_eq!(
        svm_reserve_next(0, limit, 0xFFFF_FFFF, 0, PAGE),
        SvmInitStep::Done(HsakmtStatus::HSAKMT_STATUS_ERROR)
    );
    assert_eq!(svm_reserve_first(5, 5, PAGE), SvmInitStep::Done(HsakmtStatus::HSAKMT_STATUS_ERROR));
}

#[test]
fn an_attempt_is_judged_by_where_the_block_lies() {
    let limit = 0xF_FFFF_FFFF;
    let cursor = SvmReserveCursor { base: 0, limit, len: 0x10_0000_0000, addr: 0 };
    let size = 0x10_0000_0000;
    assert_eq!(
        svm_reserve_judge(cursor, size, Some(0x1000), PAGE),
        SvmVerdict::Taken {
            base: 0x1000,
            limit,
            unmap: vm_area { start: 0x10_0000_0000, size: 0x1000 },
        }
    );
    assert_eq!(
        svm_reserve_judge(cursor, 0x2_0000_0000, Some(0x4000_0000), PAGE),
        SvmVerdict::Taken {
            base: 0x4000_0000,
            limit: 0x2_3FFF_FFFF,
            unmap: vm_area { start: 0x4000_0000, size: 0 },
        }
    );
    assert_eq!(
        svm_reserve_judge(cursor, size, Some(0x7000_0000_0000), PAGE),
        SvmVerdict::Next {
            step: SvmInitStep::Reserve {
                cursor: SvmReserveCursor { base: 0, limit, len: size, addr: 0x20_0000 },
                map_size: 0xF_FFE0_0000,
            },
            unmap: vm_area { start: 0x7000_0000_0000, size },
        }
    );
    assert_eq!(
        svm_reserve_judge(cursor, size, None, PAGE),
        SvmVerdict::Next {
            step: SvmInitStep::Reserve {
                cursor: SvmReserveCursor { base: 0, limit, len: 0x8_0000_0000, addr: 0 },
                map_size: 0x8_0000_0000,
            },
            unmap: vm_area { start: 0, size: 0 },
        }
    );
    let short = SvmReserveCursor { base: 0, limit: 0x1_7FFF_FFFF, len: 0x1_0000_0000, addr: 0 };
    assert_eq!(
        svm_reserve_judge(short, 0x1_0000_0000, Some(0xC000_0000), PAGE),
        SvmVerdict::Next {
            step: SvmInitStep::Done(HsakmtStatus::HSAKMT_STATUS_ERROR),
            unmap: vm_area { start: 0xC000_0000, size: 0x1_0000_0000 },
        }
    );
}
