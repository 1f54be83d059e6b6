//! Properties of the memory-map lifecycle, stated over [`MmapView`] and the
//! transitions that the completion methods of `DOCAMmap` promise.

use vstd::prelude::*;
use crate::status::DocaStatus;
use crate::mmap::{MmapView, MmapRequest, MmapCall, MemRegion, MapOrigin, TeardownCall, export_result, imported_map, dev_rm_call};

verus! {

/// Once a memory range is set and the map is started, every device bound
/// before may be used for DMA against it, and neither step was refused.
pub proof fn lemma_started_map_serves_devices(m: MmapView, mr: MemRegion)
    requires
        !m.started,
    ensures
        m.call_for(MmapRequest::SetMemrange(mr)) == Ok::<MmapCall, DocaStatus>(MmapCall::SetMemrange(mr)),
        m.with_memrange(mr).call_for(MmapRequest::Start) == Ok::<MmapCall, DocaStatus>(MmapCall::Start),
        forall|d: u64| #[trigger] m.devices.contains(d) ==> m.with_memrange(mr).started_map().serves(d),
{
}

/// Removing a device is refused on a map that is not extendable, whatever
/// the index. On an extendable map, removing a bound device by its index
/// is admitted, and once it succeeded no later removal request reaches that
/// device again.
pub proof fn lemma_remove_device_policy(m: MmapView, i: usize)
    requires
        m.wf(),
    ensures
        !m.extendable() ==> m.call_for(MmapRequest::RemoveDevice(i)) == Err::<MmapCall, DocaStatus>(
            DocaStatus::NotPermitted,
        ),
        m.extendable() && i < m.devices.len() ==> {
            &&& m.call_for(MmapRequest::RemoveDevice(i)) == Ok::<MmapCall, DocaStatus>(
                MmapCall::DevRm(m.devices[i as int]),
            )
            &&& m.without_device(i as int).wf()
            &&& forall|j: usize| #[trigger]
                m.without_device(i as int).call_for(MmapRequest::RemoveDevice(j)) != Ok::<MmapCall, DocaStatus>(
                    MmapCall::DevRm(m.devices[i as int]),
                )
        },
{
    if m.extendable() && i < m.devices.len() {
        let t = m.without_device(i as int);
        let s = m.devices;
        assert forall|j: usize| #[trigger]
            t.call_for(MmapRequest::RemoveDevice(j)) != Ok::<MmapCall, DocaStatus>(MmapCall::DevRm(s[i as int])) by {
            if j < t.devices.len() {
                let b = if (j as int) < (i as int) { j as int } else { j + 1 };
                assert(t.devices[j as int] == s[b]);
            }
        }
        assert forall|a: int, b: int| 0 <= a < t.devices.len() && 0 <= b < t.devices.len() && a != b implies t.devices[a]
            != t.devices[b] by {
            let a2 = if a < i { a } else { a + 1 };
            let b2 = if b < i { b } else { b + 1 };
            assert(t.devices[a] == s[a2] && t.devices[b] == s[b2]);
        }
    }
}

/// The descriptor round trip: a successful export hands back the
/// descriptor that the native call produced, and a remote map built from it
/// records that same descriptor, address and length bit for bit. Neither
/// map is extendable afterwards. What memory the remote map then reaches is
/// known to the native layer alone, and is not stated here.
pub proof fn lemma_export_import_round_trip(m: MmapView, i: usize, desc: MemRegion, dev: u64)
    requires
        m.admits(MmapRequest::Export(i)),
    ensures
        export_result(DocaStatus::Success, Some(desc)) == Ok::<MemRegion, DocaStatus>(desc),
        !m.exported().extendable(),
        imported_map(desc, dev).origin == MapOrigin::RemoteImported(desc),
        imported_map(desc, dev).devices == seq![dev],
        !imported_map(desc, dev).extendable(),
{
}

/// A started map refuses a second start, so starting never succeeds twice.
pub proof fn lemma_start_once(m: MmapView)
    ensures
        m.started ==> m.call_for(MmapRequest::Start) == Err::<MmapCall, DocaStatus>(DocaStatus::BadState),
        m.started_map().call_for(MmapRequest::Start) == Err::<MmapCall, DocaStatus>(DocaStatus::BadState),
{
}

/// The map after a run of requests, each completed with its native status.
pub open spec fn run(m: MmapView, ops: Seq<(MmapRequest, DocaStatus)>) -> MmapView
    decreases ops.len(),
{
    if ops.len() == 0 {
        m
    } else {
        run(m.after(ops[0].0, ops[0].1), ops.drop_first())
    }
}

/// Whether completing `req` with `status` is a start that returns `Ok`.
pub open spec fn start_succeeds(m: MmapView, req: MmapRequest, status: DocaStatus) -> bool {
    req == MmapRequest::Start && m.admits(MmapRequest::Start) && status == DocaStatus::Success
}

/// How many starts of a run of requests return `Ok`.
pub open spec fn successful_starts(m: MmapView, ops: Seq<(MmapRequest, DocaStatus)>) -> nat
    decreases ops.len(),
{
    if ops.len() == 0 {
        0
    } else {
        (if start_succeeds(m, ops[0].0, ops[0].1) { 1nat } else { 0nat }) + successful_starts(
            m.after(ops[0].0, ops[0].1),
            ops.drop_first(),
        )
    }
}

/// No completion stops a started map.
pub proof fn lemma_started_stays_started(m: MmapView, req: MmapRequest, status: DocaStatus)
    requires
        m.started,
    ensures
        m.after(req, status).started,
{
}

/// However many requests a map goes through, and whatever the native
/// layer answers, at most one start returns `Ok`; none does once the map
/// is started.
pub proof fn lemma_start_succeeds_at_most_once(m: MmapView, ops: Seq<(MmapRequest, DocaStatus)>)
    ensures
        successful_starts(m, ops) <= 1,
        m.started ==> successful_starts(m, ops) == 0,
    decreases ops.len(),
{
    if ops.len() > 0 {
        let next = m.after(ops[0].0, ops[0].1);
        lemma_start_succeeds_at_most_once(next, ops.drop_first());
        if m.started {
            lemma_started_stays_started(m, ops[0].0, ops[0].1);
        } else if start_succeeds(m, ops[0].0, ops[0].1) {
            assert(next.started);
        }
    }
}

/// Destroying a map that is not extendable makes no stop and no device
/// removal; destroying an extendable one stops it first and then removes
/// each bound device, in the order they are bound, before the destroy.
pub proof fn lemma_teardown_order(m: MmapView)
    ensures
        !m.extendable() ==> m.teardown() == seq![TeardownCall::Destroy],
        !m.extendable() ==> forall|k: int| 0 <= k < m.teardown().len() ==> !(#[trigger] m.teardown()[k] is Stop)
            && !(m.teardown()[k] is DevRm),
        m.extendable() ==> {
            &&& m.teardown().len() == m.devices.len() + 2
            &&& m.teardown()[0] == TeardownCall::Stop
            &&& forall|k: int| 0 <= k < m.devices.len() ==> #[trigger] m.teardown()[k + 1] == dev_rm_call(m.devices[k])
            &&& m.teardown().last() == TeardownCall::Destroy
        },
{
    if m.extendable() {
        let mid = m.devices.map_values(|d: u64| dev_rm_call(d));
        assert forall|k: int| 0 <= k < m.devices.len() implies #[trigger] m.teardown()[k + 1] == dev_rm_call(m.devices[k]) by {
            assert(m.teardown()[k + 1] == mid[k]);
        }
    }
}

} // verus!
