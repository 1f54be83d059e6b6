//! Memory-map registration: which devices a map is bound to, which native
//! call each request needs, and how the map changes with the native answer.
//!
//! A request goes in two steps. [`DOCAMmap::native_call`] decides, from the
//! local state alone, whether the request may go ahead and which native call
//! it needs. Once that call has run, the completion method of the same name
//! as the request (`add_device`, `rm_device`, ...) takes its status and
//! updates the map. A completion decides admission again by itself: a
//! refused request is answered with its refusal and leaves the map as it is.

use vstd::prelude::*;
use crate::status::{DocaStatus, DOCAResult};

verus! {

/// A contiguous span of memory: start address and length in bytes.
///
/// It is a plain value; the memory it describes is owned elsewhere.
#[derive(Debug, Clone, Copy, PartialEq, Eq, Structural)]
pub struct MemRegion {
    pub addr: usize,
    pub len: usize,
}

/// How a map came to be, which decides what may still be done with it.
#[derive(Debug, Clone, Copy, PartialEq, Eq, Structural)]
pub enum MapOrigin {
    /// Built locally and never exported: devices may be added and removed,
    /// and teardown stops the map and deregisters every device.
    LocalFresh,
    /// Built locally and exported to a peer, which may hold live references.
    LocalExported,
    /// Built from the export descriptor of a remote map.
    RemoteImported(MemRegion),
}

/// A request on an existing map.
#[derive(Debug, Clone, Copy, PartialEq, Eq, Structural)]
pub enum MmapRequest {
    AddDevice(u64),
    RemoveDevice(usize),
    SetMemrange(MemRegion),
    SetPermission(u32),
    Start,
    Export(usize),
}

/// A native call on the map object; devices are named by their handle id.
#[derive(Debug, Clone, Copy, PartialEq, Eq, Structural)]
pub enum MmapCall {
    DevAdd(u64),
    DevRm(u64),
    SetMemrange(MemRegion),
    SetPermissions(u32),
    Start,
    ExportDpu(u64),
}

/// A native call made when a map is destroyed.
#[derive(Debug, Clone, Copy, PartialEq, Eq, Structural)]
pub enum TeardownCall {
    Stop,
    DevRm(u64),
    Destroy,
}

/// The state of a memory map as the library tracks it.
///
/// Devices are named by the id of their handle; the index that
/// `add_device` returns is a position in `devices`.
pub struct MmapView {
    pub devices: Seq<u64>,
    pub origin: MapOrigin,
    pub started: bool,
    pub memrange: Option<MemRegion>,
    pub permissions: Option<u32>,
}

pub open spec fn dev_rm_call(d: u64) -> TeardownCall {
    TeardownCall::DevRm(d)
}

impl MmapView {
    /// Devices are bound at most once.
    pub open spec fn wf(self) -> bool {
        self.devices.no_duplicates()
    }

    /// Whether devices may still be added and removed, and teardown may
    /// take the full path.
    pub open spec fn extendable(self) -> bool {
        self.origin == MapOrigin::LocalFresh
    }

    /// The native call that `req` needs, or the error it is refused with.
    pub open spec fn call_for(self, req: MmapRequest) -> DOCAResult<MmapCall> {
        match req {
            MmapRequest::AddDevice(dev) => {
                if !self.extendable() {
                    Err(DocaStatus::NotPermitted)
                } else if self.devices.contains(dev) {
                    Err(DocaStatus::InUse)
                } else {
                    Ok(MmapCall::DevAdd(dev))
                }
            },
            MmapRequest::RemoveDevice(i) => {
                if !self.extendable() {
                    Err(DocaStatus::NotPermitted)
                } else if i >= self.devices.len() {
                    Err(DocaStatus::InvalidValue)
                } else {
                    Ok(MmapCall::DevRm(self.devices[i as int]))
                }
            },
            MmapRequest::SetMemrange(mr) => {
                if self.started {
                    Err(DocaStatus::NotSupported)
                } else {
                    Ok(MmapCall::SetMemrange(mr))
                }
            },
            MmapRequest::SetPermission(mask) => {
                if self.started {
                    Err(DocaStatus::NotSupported)
                } else {
                    Ok(MmapCall::SetPermissions(mask))
                }
            },
            MmapRequest::Start => {
                if self.started {
                    Err(DocaStatus::BadState)
                } else {
                    Ok(MmapCall::Start)
                }
            },
            MmapRequest::Export(i) => {
                if i >= self.devices.len() {
                    Err(DocaStatus::InvalidValue)
                } else if self.origin is RemoteImported {
                    Err(DocaStatus::NotPermitted)
                } else if !self.started {
                    Err(DocaStatus::BadState)
                } else {
                    Ok(MmapCall::ExportDpu(self.devices[i as int]))
                }
            },
        }
    }

    pub open spec fn admits(self, req: MmapRequest) -> bool {
        self.call_for(req) is Ok
    }

    pub open spec fn with_device(self, dev: u64) -> MmapView {
        MmapView { devices: self.devices.push(dev), ..self }
    }

    pub open spec fn without_device(self, i: int) -> MmapView {
        MmapView { devices: self.devices.remove(i), ..self }
    }

    pub open spec fn with_memrange(self, mr: MemRegion) -> MmapView {
        MmapView { memrange: Some(mr), ..self }
    }

    pub open spec fn with_permissions(self, mask: u32) -> MmapView {
        MmapView { permissions: Some(mask), ..self }
    }

    pub open spec fn started_map(self) -> MmapView {
        MmapView { started: true, ..self }
    }

    pub open spec fn exported(self) -> MmapView {
        MmapView { origin: MapOrigin::LocalExported, ..self }
    }

    /// The map once `req` has been completed with native status `status`:
    /// unchanged where the request is refused or the native call failed.
    pub open spec fn after(self, req: MmapRequest, status: DocaStatus) -> MmapView {
        if !self.admits(req) || status != DocaStatus::Success {
            self
        } else {
            match req {
                MmapRequest::AddDevice(dev) => self.with_device(dev),
                MmapRequest::RemoveDevice(i) => self.without_device(i as int),
                MmapRequest::SetMemrange(mr) => self.with_memrange(mr),
                MmapRequest::SetPermission(mask) => self.with_permissions(mask),
                MmapRequest::Start => self.started_map(),
                MmapRequest::Export(_) => self.exported(),
            }
        }
    }

    /// Whether DMA against the map's memory may use device `dev`.
    pub open spec fn serves(self, dev: u64) -> bool {
        &&& self.started
        &&& self.memrange is Some
        &&& self.devices.contains(dev)
    }

    /// The native calls that destroying the map makes, in order.
    pub open spec fn teardown(self) -> Seq<TeardownCall> {
        if self.extendable() {
            seq![TeardownCall::Stop] + self.devices.map_values(|d: u64| dev_rm_call(d))
                + seq![TeardownCall::Destroy]
        } else {
            seq![TeardownCall::Destroy]
        }
    }
}

/// The map a fresh native map object stands for.
pub open spec fn fresh_map() -> MmapView {
    MmapView {
        devices: Seq::empty(),
        origin: MapOrigin::LocalFresh,
        started: false,
        memrange: None,
        permissions: None,
    }
}

/// The map built from export descriptor `desc` on device `dev`.
pub open spec fn imported_map(desc: MemRegion, dev: u64) -> MmapView {
    MmapView {
        devices: seq![dev],
        origin: MapOrigin::RemoteImported(desc),
        started: false,
        memrange: None,
        permissions: None,
    }
}

/// What an export returns, given the native status and the descriptor the
/// native call handed back (`None` for a null descriptor).
pub open spec fn export_result(status: DocaStatus, desc: Option<MemRegion>) -> DOCAResult<MemRegion> {
    if status != DocaStatus::Success {
        Err(status)
    } else {
        match desc {
            Some(d) => Ok(d),
            None => Err(DocaStatus::InvalidValue),
        }
    }
}

/// Local bookkeeping of one native memory map.
pub struct DOCAMmap {
    devices: Vec<u64>,
    origin: MapOrigin,
    started: bool,
    memrange: Option<MemRegion>,
    permissions: Option<u32>,
}

impl View for DOCAMmap {
    type V = MmapView;

    closed spec fn view(&self) -> MmapView {
        MmapView {
            devices: self.devices@,
            origin: self.origin,
            started: self.started,
            memrange: self.memrange,
            permissions: self.permissions,
        }
    }
}

impl DOCAMmap {
    /// A map for a freshly created native map object, given the status of
    /// that creation.
    pub fn new(status: DocaStatus) -> (r: DOCAResult<DOCAMmap>)
        ensures
            status == DocaStatus::Success ==> r is Ok && r->Ok_0@ == fresh_map(),
            status != DocaStatus::Success ==> r is Err && r->Err_0 == status,
    {
        if status.is_success() {
            Ok(DOCAMmap {
                devices: Vec::new(),
                origin: MapOrigin::LocalFresh,
                started: false,
                memrange: None,
                permissions: None,
            })
        } else {
            Err(status)
        }
    }

    /// A map for a native map object built from the remote export
    /// descriptor `desc` on device `dev`, given the status of that build.
    /// Such a map is never extendable.
    pub fn new_from_export(desc: MemRegion, dev: u64, status: DocaStatus) -> (r: DOCAResult<DOCAMmap>)
        ensures
            status == DocaStatus::Success ==> r is Ok && r->Ok_0@ == imported_map(desc, dev),
            status != DocaStatus::Success ==> r is Err && r->Err_0 == status,
    {
        if status.is_success() {
            let mut devices: Vec<u64> = Vec::new();
            devices.push(dev);
            Ok(DOCAMmap {
                devices,
                origin: MapOrigin::RemoteImported(desc),
                started: false,
                memrange: None,
                permissions: None,
            })
        } else {
            Err(status)
        }
    }

    /// Whether `dev` is bound to the map.
    fn has_device(&self, dev: u64) -> (r: bool)
        ensures
            r == self@.devices.contains(dev),
    {
        let mut i: usize = 0;
        while i < self.devices.len()
            invariant
                0 <= i <= self.devices@.len(),
                forall|j: int| 0 <= j < i ==> self.devices@[j] != dev,
            decreases self.devices@.len() - i,
        {
            if self.devices[i] == dev {
                return true;
            }
            i = i + 1;
        }
        false
    }

    /// Decides, from the local state alone, whether `req` may go ahead and
    /// which native call it needs.
    pub fn native_call(&self, req: &MmapRequest) -> (r: DOCAResult<MmapCall>)
        ensures
            r == self@.call_for(*req),
    {
        match *req {
            MmapRequest::AddDevice(dev) => {
                if self.origin != MapOrigin::LocalFresh {
                    Err(DocaStatus::NotPermitted)
                } else if self.has_device(dev) {
                    Err(DocaStatus::InUse)
                } else {
                    Ok(MmapCall::DevAdd(dev))
                }
            },
            MmapRequest::RemoveDevice(i) => {
                if self.origin != MapOrigin::LocalFresh {
                    Err(DocaStatus::NotPermitted)
                } else if i >= self.devices.len() {
                    Err(DocaStatus::InvalidValue)
                } else {
                    Ok(MmapCall::DevRm(self.devices[i]))
                }
            },
            MmapRequest::SetMemrange(mr) => {
                if self.started {
                    Err(DocaStatus::NotSupported)
                } else {
                    Ok(MmapCall::SetMemrange(mr))
                }
            },
            MmapRequest::SetPermission(mask) => {
                if self.started {
                    Err(DocaStatus::NotSupported)
                } else {
                    Ok(MmapCall::SetPermissions(mask))
                }
            },
            MmapRequest::Start => {
                if self.started {
                    Err(DocaStatus::BadState)
                } else {
                    Ok(MmapCall::Start)
                }
            },
            MmapRequest::Export(i) => {
                if i >= self.devices.len() {
                    Err(DocaStatus::InvalidValue)
                } else if let MapOrigin::RemoteImported(_) = self.origin {
                    Err(DocaStatus::NotPermitted)
                } else if !self.started {
                    Err(DocaStatus::BadState)
                } else {
                    Ok(MmapCall::ExportDpu(self.devices[i]))
                }
            },
        }
    }

    /// Completes `AddDevice(dev)`: on success the device is bound and its
    /// index returned. A refused request is answered with its refusal, and
    /// `status` is then not looked at.
    pub fn add_device(&mut self, dev: u64, status: DocaStatus) -> (r: DOCAResult<usize>)
        requires
            old(self)@.wf(),
        ensures
            final(self)@.wf(),
            final(self)@ == old(self)@.after(MmapRequest::AddDevice(dev), status),
            !old(self)@.admits(MmapRequest::AddDevice(dev)) ==> r is Err && r->Err_0
                == old(self)@.call_for(MmapRequest::AddDevice(dev))->Err_0,
            old(self)@.admits(MmapRequest::AddDevice(dev)) && status == DocaStatus::Success ==> r == Ok::<
                usize,
                DocaStatus,
            >(old(self)@.devices.len() as usize),
            old(self)@.admits(MmapRequest::AddDevice(dev)) && status != DocaStatus::Success ==> r == Err::<
                usize,
                DocaStatus,
            >(status),
    {
        if let Err(e) = self.native_call(&MmapRequest::AddDevice(dev)) {
            return Err(e);
        }
        if status.is_success() {
            let idx = self.devices.len();
            self.devices.push(dev);
            proof {
                lemma_push_no_duplicates(old(self)@.devices, dev);
            }
            Ok(idx)
        } else {
            Err(status)
        }
    }

    /// Completes `RemoveDevice(dev_idx)`: on success the device leaves the
    /// map, and devices added after it move down by one. On a map that is not
    /// extendable this always fails, whatever `status` says.
    pub fn rm_device(&mut self, dev_idx: usize, status: DocaStatus) -> (r: DOCAResult<()>)
        requires
            old(self)@.wf(),
        ensures
            final(self)@.wf(),
            final(self)@ == old(self)@.after(MmapRequest::RemoveDevice(dev_idx), status),
            !old(self)@.extendable() ==> r == Err::<(), DocaStatus>(DocaStatus::NotPermitted),
            !old(self)@.admits(MmapRequest::RemoveDevice(dev_idx)) ==> r is Err && r->Err_0
                == old(self)@.call_for(MmapRequest::RemoveDevice(dev_idx))->Err_0,
            old(self)@.admits(MmapRequest::RemoveDevice(dev_idx)) && status == DocaStatus::Success ==> r == Ok::<
                (),
                DocaStatus,
            >(()),
            old(self)@.admits(MmapRequest::RemoveDevice(dev_idx)) && status != DocaStatus::Success ==> r == Err::<
                (),
                DocaStatus,
            >(status),
    {
        if let Err(e) = self.native_call(&MmapRequest::RemoveDevice(dev_idx)) {
            return Err(e);
        }
        if status.is_success() {
            let _gone = self.devices.remove(dev_idx);
            proof {
                lemma_remove_no_duplicates(old(self)@.devices, dev_idx as int);
            }
            Ok(())
        } else {
            Err(status)
        }
    }

    /// Completes `SetMemrange(mr)`: on success the map covers `mr`.
    pub fn set_memrange(&mut self, mr: MemRegion, status: DocaStatus) -> (r: DOCAResult<()>)
        requires
            old(self)@.wf(),
        ensures
            final(self)@.wf(),
            final(self)@ == old(self)@.after(MmapRequest::SetMemrange(mr), status),
            old(self)@.started ==> r == Err::<(), DocaStatus>(DocaStatus::NotSupported),
            !old(self)@.started && status == DocaStatus::Success ==> r == Ok::<(), DocaStatus>(()),
            !old(self)@.started && status != DocaStatus::Success ==> r == Err::<(), DocaStatus>(status),
    {
        if let Err(e) = self.native_call(&MmapRequest::SetMemrange(mr)) {
            return Err(e);
        }
        if status.is_success() {
            self.memrange = Some(mr);
            Ok(())
        } else {
            Err(status)
        }
    }

    /// Completes `SetPermission(mask)`: on success `mask` governs later DMA.
    pub fn set_permission(&mut self, mask: u32, status: DocaStatus) -> (r: DOCAResult<()>)
        requires
            old(self)@.wf(),
        ensures
            final(self)@.wf(),
            final(self)@ == old(self)@.after(MmapRequest::SetPermission(mask), status),
            old(self)@.started ==> r == Err::<(), DocaStatus>(DocaStatus::NotSupported),
            !old(self)@.started && status == DocaStatus::Success ==> r == Ok::<(), DocaStatus>(()),
            !old(self)@.started && status != DocaStatus::Success ==> r == Err::<(), DocaStatus>(status),
    {
        if let Err(e) = self.native_call(&MmapRequest::SetPermission(mask)) {
            return Err(e);
        }
        if status.is_success() {
            self.permissions = Some(mask);
            Ok(())
        } else {
            Err(status)
        }
    }

    /// Completes `Start`: on success the map is active. A started map
    /// refuses to start again.
    pub fn start(&mut self, status: DocaStatus) -> (r: DOCAResult<()>)
        requires
            old(self)@.wf(),
        ensures
            final(self)@.wf(),
            final(self)@ == old(self)@.after(MmapRequest::Start, status),
            old(self)@.started ==> r == Err::<(), DocaStatus>(DocaStatus::BadState),
            !old(self)@.started && status == DocaStatus::Success ==> r == Ok::<(), DocaStatus>(()),
            !old(self)@.started && status != DocaStatus::Success ==> r == Err::<(), DocaStatus>(status),
    {
        if let Err(e) = self.native_call(&MmapRequest::Start) {
            return Err(e);
        }
        if status.is_success() {
            self.started = true;
            Ok(())
        } else {
            Err(status)
        }
    }

    /// Completes `Export(dev_index)`, given the native status and the
    /// descriptor the native call produced (`None` where it was null).
    /// Once the native export succeeded the map is no longer extendable,
    /// even where the descriptor is missing.
    pub fn export_dpu(&mut self, dev_index: usize, status: DocaStatus, desc: Option<MemRegion>) -> (r: DOCAResult<MemRegion>)
        requires
            old(self)@.wf(),
        ensures
            final(self)@.wf(),
            final(self)@ == old(self)@.after(MmapRequest::Export(dev_index), status),
            !old(self)@.admits(MmapRequest::Export(dev_index)) ==> r is Err && r->Err_0
                == old(self)@.call_for(MmapRequest::Export(dev_index))->Err_0,
            old(self)@.admits(MmapRequest::Export(dev_index)) ==> r == export_result(status, desc),
    {
        if let Err(e) = self.native_call(&MmapRequest::Export(dev_index)) {
            return Err(e);
        }
        if !status.is_success() {
            return Err(status);
        }
        self.origin = MapOrigin::LocalExported;
        match desc {
            Some(d) => Ok(d),
            None => Err(DocaStatus::InvalidValue),
        }
    }

    /// Whether devices may still be added and removed.
    pub fn is_extendable(&self) -> (r: bool)
        ensures
            r == self@.extendable(),
    {
        self.origin == MapOrigin::LocalFresh
    }

    /// Whether DMA against the map's memory may use device `dev`.
    pub fn serves_device(&self, dev: u64) -> (r: bool)
        ensures
            r == self@.serves(dev),
    {
        self.started && self.memrange.is_some() && self.has_device(dev)
    }

    /// The native calls that destroying the map makes, in order: on an
    /// extendable map, stop, then deregister every bound device, then
    /// destroy; on any other map, destroy alone.
    pub fn drop_sequence(&self) -> (r: Vec<TeardownCall>)
        ensures
            r@ == self@.teardown(),
    {
        let mut calls: Vec<TeardownCall> = Vec::new();
        if self.origin == MapOrigin::LocalFresh {
            calls.push(TeardownCall::Stop);
            let mut i: usize = 0;
            while i < self.devices.len()
                invariant
                    0 <= i <= self.devices@.len(),
                    calls@ == seq![TeardownCall::Stop]
                        + self.devices@.subrange(0, i as int).map_values(|d: u64| dev_rm_call(d)),
                decreases self.devices@.len() - i,
            {
                calls.push(TeardownCall::DevRm(self.devices[i]));
                proof {
                    assert(self.devices@.subrange(0, i + 1) =~= self.devices@.subrange(0, i as int).push(
                        self.devices@[i as int],
                    ));
                    assert(self.devices@.subrange(0, i + 1).map_values(|d: u64| dev_rm_call(d))
                        =~= self.devices@.subrange(0, i as int).map_values(|d: u64| dev_rm_call(d)).push(
                        dev_rm_call(self.devices@[i as int]),
                    ));
                }
                i = i + 1;
            }
            assert(self.devices@.subrange(0, self.devices@.len() as int) =~= self.devices@);
        }
        calls.push(TeardownCall::Destroy);
        calls
    }
}

proof fn lemma_push_no_duplicates(s: Seq<u64>, x: u64)
    requires
        s.no_duplicates(),
        !s.contains(x),
    ensures
        s.push(x).no_duplicates(),
{
    assert forall|i: int, j: int| 0 <= i < s.push(x).len() && 0 <= j < s.push(x).len() && i != j implies s.push(x)[i]
        != s.push(x)[j] by {
        if i == s.len() as int {
            assert(s.contains(s[j]));
        } else if j == s.len() as int {
            assert(s.contains(s[i]));
        }
    }
}

proof fn lemma_remove_no_duplicates(s: Seq<u64>, k: int)
    requires
        s.no_duplicates(),
        0 <= k < s.len(),
    ensures
        s.remove(k).no_duplicates(),
        !s.remove(k).contains(s[k]),
{
    let t = s.remove(k);
    assert forall|i: int, j: int| 0 <= i < t.len() && 0 <= j < t.len() && i != j implies t[i] != t[j] by {
        let a = if i < k { i } else { i + 1 };
        let b = if j < k { j } else { j + 1 };
        assert(t[i] == s[a] && t[j] == s[b]);
    }
    if t.contains(s[k]) {
        let i = choose|i: int| 0 <= i < t.len() && t[i] == s[k];
        let a = if i < k { i } else { i + 1 };
        assert(t[i] == s[a]);
    }
}

} // verus!
