use doca::mmap::{DOCAMmap, MemRegion, MmapCall, MmapRequest, TeardownCall};
use doca::status::DocaStatus;

const DEV_A: u64 = 11;
const DEV_B: u64 = 22;
const DEV_C: u64 = 33;

fn region(len: usize) -> MemRegion {
    MemRegion { addr: 0x7f00_0000_0000, len }
}

fn fresh() -> DOCAMmap {
    DOCAMmap::new(DocaStatus::Success).unwrap()
}

fn add(map: &mut DOCAMmap, dev: u64) -> usize {
    assert_eq!(map.native_call(&MmapRequest::AddDevice(dev)), Ok(MmapCall::DevAdd(dev)));
    map.add_device(dev, DocaStatus::Success).unwrap()
}

fn set_range_and_start(map: &mut DOCAMmap, mr: MemRegion) {
    assert_eq!(map.native_call(&MmapRequest::SetMemrange(mr)), Ok(MmapCall::SetMemrange(mr)));
    map.set_memrange(mr, DocaStatus::Success).unwrap();
    assert_eq!(map.native_call(&MmapRequest::Start), Ok(MmapCall::Start));
    map.start(DocaStatus::Success).unwrap();
}

#[test]
fn test_memory_create() {
    let device_ctx = DEV_A;
    let mut doca_mmap = fresh();
    add(&mut doca_mmap, device_ctx);

    let test_len = 1024;
    let mr = region(test_len);

    doca_mmap.native_call(&MmapRequest::SetMemrange(mr)).unwrap();
    doca_mmap.set_memrange(mr, DocaStatus::Success).unwrap();

    doca_mmap.native_call(&MmapRequest::Start).unwrap();
    doca_mmap.start(DocaStatus::Success).unwrap();
}

#[test]
fn test_mmap_rm_device() {
    let device_ctx = DEV_A;
    let mut doca_mmap = fresh();
    let dev_idx = add(&mut doca_mmap, device_ctx);

    let test_len = 1024;
    let mr = region(test_len);
    doca_mmap.native_call(&MmapRequest::SetMemrange(mr)).unwrap();
    doca_mmap.set_memrange(mr, DocaStatus::Success).unwrap();
    let dpu_read_only: u32 = 0x10;
    doca_mmap.native_call(&MmapRequest::SetPermission(dpu_read_only)).unwrap();
    doca_mmap.set_permission(dpu_read_only, DocaStatus::Success).unwrap();

    doca_mmap.native_call(&MmapRequest::Start).unwrap();
    doca_mmap.start(DocaStatus::Success).unwrap();

    assert_eq!(
        doca_mmap.native_call(&MmapRequest::Export(dev_idx)),
        Ok(MmapCall::ExportDpu(device_ctx))
    );
    let _ = doca_mmap.export_dpu(dev_idx, DocaStatus::Success, Some(region(64))).unwrap();

    assert!(!doca_mmap.native_call(&MmapRequest::RemoveDevice(dev_idx)).is_ok());
}

#[test]
fn new_reports_native_failure() {
    assert!(matches!(DOCAMmap::new(DocaStatus::NoMemory), Err(DocaStatus::NoMemory)));
    assert!(matches!(
        DOCAMmap::new_from_export(region(64), DEV_A, DocaStatus::NotSupported),
        Err(DocaStatus::NotSupported)
    ));
}

#[test]
fn add_device_returns_increasing_indices() {
    let mut map = fresh();
    assert_eq!(add(&mut map, DEV_A), 0);
    assert_eq!(add(&mut map, DEV_B), 1);
    assert_eq!(add(&mut map, DEV_C), 2);
}

#[test]
fn add_device_twice_is_refused() {
    let mut map = fresh();
    add(&mut map, DEV_A);
    assert_eq!(map.native_call(&MmapRequest::AddDevice(DEV_A)), Err(DocaStatus::InUse));
}

#[test]
fn add_device_native_failure_leaves_map_unchanged() {
    let mut map = fresh();
    assert_eq!(map.add_device(DEV_A, DocaStatus::NotSupported), Err(DocaStatus::NotSupported));
    assert_eq!(map.drop_sequence(), vec![TeardownCall::Stop, TeardownCall::Destroy]);
    assert_eq!(map.native_call(&MmapRequest::AddDevice(DEV_A)), Ok(MmapCall::DevAdd(DEV_A)));
}

#[test]
fn rm_device_shifts_later_devices() {
    let mut map = fresh();
    add(&mut map, DEV_A);
    add(&mut map, DEV_B);
    add(&mut map, DEV_C);
    assert_eq!(map.native_call(&MmapRequest::RemoveDevice(0)), Ok(MmapCall::DevRm(DEV_A)));
    assert_eq!(map.rm_device(0, DocaStatus::Success), Ok(()));
    assert_eq!(map.native_call(&MmapRequest::RemoveDevice(0)), Ok(MmapCall::DevRm(DEV_B)));
    assert_eq!(
        map.drop_sequence(),
        vec![
            TeardownCall::Stop,
            TeardownCall::DevRm(DEV_B),
            TeardownCall::DevRm(DEV_C),
            TeardownCall::Destroy
        ]
    );
}

#[test]
fn rm_device_out_of_range_is_refused() {
    let mut map = fresh();
    add(&mut map, DEV_A);
    assert_eq!(map.native_call(&MmapRequest::RemoveDevice(1)), Err(DocaStatus::InvalidValue));
}

#[test]
fn rm_device_native_failure_keeps_device() {
    let mut map = fresh();
    add(&mut map, DEV_A);
    assert_eq!(map.rm_device(0, DocaStatus::NotPermitted), Err(DocaStatus::NotPermitted));
    assert_eq!(map.native_call(&MmapRequest::RemoveDevice(0)), Ok(MmapCall::DevRm(DEV_A)));
}

#[test]
fn rm_device_succeeds_once_per_device() {
    let mut map = fresh();
    add(&mut map, DEV_A);
    assert_eq!(map.rm_device(0, DocaStatus::Success), Ok(()));
    assert_eq!(map.native_call(&MmapRequest::RemoveDevice(0)), Err(DocaStatus::InvalidValue));
}

#[test]
fn rm_device_refused_after_export_and_on_import() {
    let mut map = fresh();
    add(&mut map, DEV_A);
    map.start(DocaStatus::Success).unwrap();
    assert!(map.is_extendable());
    map.export_dpu(0, DocaStatus::Success, Some(region(64))).unwrap();
    assert!(!map.is_extendable());
    assert_eq!(map.native_call(&MmapRequest::RemoveDevice(0)), Err(DocaStatus::NotPermitted));
    assert_eq!(map.native_call(&MmapRequest::AddDevice(DEV_B)), Err(DocaStatus::NotPermitted));

    assert_eq!(map.rm_device(0, DocaStatus::Success), Err(DocaStatus::NotPermitted));
    assert_eq!(map.rm_device(7, DocaStatus::Success), Err(DocaStatus::NotPermitted));
    assert_eq!(map.drop_sequence(), vec![TeardownCall::Destroy]);

    let mut remote = DOCAMmap::new_from_export(region(64), DEV_B, DocaStatus::Success).unwrap();
    assert!(!remote.is_extendable());
    assert_eq!(remote.native_call(&MmapRequest::RemoveDevice(0)), Err(DocaStatus::NotPermitted));
    assert_eq!(remote.rm_device(0, DocaStatus::Success), Err(DocaStatus::NotPermitted));
}

#[test]
fn set_memrange_and_permission_after_start_are_refused() {
    let mut map = fresh();
    set_range_and_start(&mut map, region(1024));
    assert_eq!(
        map.native_call(&MmapRequest::SetMemrange(region(2048))),
        Err(DocaStatus::NotSupported)
    );
    assert_eq!(map.native_call(&MmapRequest::SetPermission(1)), Err(DocaStatus::NotSupported));
}

#[test]
fn set_memrange_may_repeat_before_start() {
    let mut map = fresh();
    map.set_memrange(region(1024), DocaStatus::Success).unwrap();
    assert_eq!(
        map.native_call(&MmapRequest::SetMemrange(region(4096))),
        Ok(MmapCall::SetMemrange(region(4096)))
    );
    assert_eq!(map.set_memrange(region(4096), DocaStatus::InvalidValue), Err(DocaStatus::InvalidValue));
    assert_eq!(map.set_permission(3, DocaStatus::Driver), Err(DocaStatus::Driver));
}

#[test]
fn start_twice_is_rejected() {
    let mut map = fresh();
    assert_eq!(map.native_call(&MmapRequest::Start), Ok(MmapCall::Start));
    map.start(DocaStatus::Success).unwrap();
    assert_eq!(map.native_call(&MmapRequest::Start), Err(DocaStatus::BadState));
}

#[test]
fn failed_start_may_be_tried_again() {
    let mut map = fresh();
    assert_eq!(map.start(DocaStatus::Driver), Err(DocaStatus::Driver));
    assert_eq!(map.native_call(&MmapRequest::Start), Ok(MmapCall::Start));
}

#[test]
fn started_map_serves_every_added_device() {
    let mut map = fresh();
    add(&mut map, DEV_A);
    add(&mut map, DEV_B);
    assert!(!map.serves_device(DEV_A));
    set_range_and_start(&mut map, region(1024));
    assert!(map.serves_device(DEV_A));
    assert!(map.serves_device(DEV_B));
    assert!(!map.serves_device(DEV_C));
}

#[test]
fn start_without_memrange_serves_nothing() {
    let mut map = fresh();
    add(&mut map, DEV_A);
    map.start(DocaStatus::Success).unwrap();
    assert!(!map.serves_device(DEV_A));
}

#[test]
fn export_then_import_keeps_descriptor() {
    let mut local = fresh();
    let idx = add(&mut local, DEV_A);
    set_range_and_start(&mut local, region(1024));
    let blob = MemRegion { addr: 0x5555_0000, len: 0x1d3 };
    let desc = local.export_dpu(idx, DocaStatus::Success, Some(blob)).unwrap();
    assert_eq!(desc, blob);
    assert_eq!(desc.len, 0x1d3);

    let remote = DOCAMmap::new_from_export(desc, DEV_B, DocaStatus::Success).unwrap();
    assert_eq!(remote.drop_sequence(), vec![TeardownCall::Destroy]);
    assert_eq!(remote.native_call(&MmapRequest::Export(0)), Err(DocaStatus::NotPermitted));
}

#[test]
fn export_out_of_range_is_refused() {
    let mut map = fresh();
    add(&mut map, DEV_A);
    assert_eq!(map.native_call(&MmapRequest::Export(1)), Err(DocaStatus::InvalidValue));
}

#[test]
fn export_native_failure_keeps_map_extendable() {
    let mut map = fresh();
    add(&mut map, DEV_A);
    map.start(DocaStatus::Success).unwrap();
    assert_eq!(map.export_dpu(0, DocaStatus::NotPermitted, None), Err(DocaStatus::NotPermitted));
    assert!(map.is_extendable());
}

#[test]
fn export_with_null_descriptor_fails_but_seals_map() {
    let mut map = fresh();
    add(&mut map, DEV_A);
    map.start(DocaStatus::Success).unwrap();
    assert_eq!(map.export_dpu(0, DocaStatus::Success, None), Err(DocaStatus::InvalidValue));
    assert!(!map.is_extendable());
    assert_eq!(map.drop_sequence(), vec![TeardownCall::Destroy]);
}

#[test]
fn export_may_repeat_on_exported_map() {
    let mut map = fresh();
    add(&mut map, DEV_A);
    map.start(DocaStatus::Success).unwrap();
    map.export_dpu(0, DocaStatus::Success, Some(region(64))).unwrap();
    assert_eq!(map.native_call(&MmapRequest::Export(0)), Ok(MmapCall::ExportDpu(DEV_A)));
}

#[test]
fn teardown_of_sealed_map_skips_stop_and_removal() {
    let mut map = fresh();
    add(&mut map, DEV_A);
    add(&mut map, DEV_B);
    set_range_and_start(&mut map, region(1024));
    map.export_dpu(1, DocaStatus::Success, Some(region(64))).unwrap();
    let calls = map.drop_sequence();
    assert_eq!(calls, vec![TeardownCall::Destroy]);
    assert!(!calls.iter().any(|c| matches!(c, TeardownCall::Stop | TeardownCall::DevRm(_))));
}

#[test]
fn teardown_of_extendable_map_stops_then_removes_each_device() {
    let mut map = fresh();
    add(&mut map, DEV_A);
    add(&mut map, DEV_B);
    add(&mut map, DEV_C);
    set_range_and_start(&mut map, region(1024));
    assert_eq!(
        map.drop_sequence(),
        vec![
            TeardownCall::Stop,
            TeardownCall::DevRm(DEV_A),
            TeardownCall::DevRm(DEV_B),
            TeardownCall::DevRm(DEV_C),
            TeardownCall::Destroy
        ]
    );
}

#[test]
fn status_into_result() {
    assert_eq!(DocaStatus::Success.into_result(), Ok(()));
    assert_eq!(DocaStatus::Again.into_result(), Err(DocaStatus::Again));
    assert!(DocaStatus::Success.is_success());
    assert!(!DocaStatus::Driver.is_success());
}

#[test]
fn export_before_start_is_refused() {
    let mut map = fresh();
    add(&mut map, DEV_A);
    assert_eq!(map.native_call(&MmapRequest::Export(0)), Err(DocaStatus::BadState));
    assert_eq!(map.export_dpu(0, DocaStatus::Success, Some(region(64))), Err(DocaStatus::BadState));
    assert!(map.is_extendable());
}

#[test]
fn export_checks_index_before_origin() {
    let remote = DOCAMmap::new_from_export(region(64), DEV_B, DocaStatus::Success).unwrap();
    assert_eq!(remote.native_call(&MmapRequest::Export(1)), Err(DocaStatus::InvalidValue));
    assert_eq!(remote.native_call(&MmapRequest::Export(0)), Err(DocaStatus::NotPermitted));
}

#[test]
fn refused_completions_leave_map_unchanged() {
    let mut map = fresh();
    add(&mut map, DEV_A);
    assert_eq!(map.add_device(DEV_A, DocaStatus::Success), Err(DocaStatus::InUse));
    assert_eq!(map.rm_device(3, DocaStatus::Success), Err(DocaStatus::InvalidValue));
    map.start(DocaStatus::Success).unwrap();
    assert_eq!(map.start(DocaStatus::Success), Err(DocaStatus::BadState));
    assert_eq!(map.set_memrange(region(8), DocaStatus::Success), Err(DocaStatus::NotSupported));
    assert_eq!(map.set_permission(1, DocaStatus::Success), Err(DocaStatus::NotSupported));
    assert!(!map.serves_device(DEV_A));
    assert_eq!(
        map.drop_sequence(),
        vec![TeardownCall::Stop, TeardownCall::DevRm(DEV_A), TeardownCall::Destroy]
    );
}

#[test]
fn start_returns_ok_at_most_once() {
    let mut map = fresh();
    let mut oks = 0;
    for st in [DocaStatus::Driver, DocaStatus::Success, DocaStatus::Success, DocaStatus::Success] {
        if map.start(st).is_ok() {
            oks += 1;
        }
        let _ = map.add_device(DEV_A, DocaStatus::Success);
    }
    assert_eq!(oks, 1);
}
