use vstd::prelude::*;
use linear_map::LinearMap;
use crate::copy_map::{copy_map_get, copy_map_insert, copy_map_model, copy_map_new, copy_map_remove};
use crate::device::{Device, DeviceError};
use crate::memory::MemoryCopy;

verus! {

/// Errors that can occur when registering devices or synchronizing copies.
#[derive(Debug, Clone, Copy)]
pub enum Error {
    /// No copy on the source device.
    MissingSource(&'static str),
    /// No copy on the destination device.
    MissingDestination(&'static str),
    /// A copy whose backend tag does not match its device.
    InvalidMemory(&'static str),
    /// No memory allocation on the specified device happened.
    InvalidMemoryAllocation(&'static str),
    /// Backend failure at memory allocation.
    MemoryAllocationError(DeviceError),
    /// Backend failure at memory synchronization.
    MemorySynchronizationError(DeviceError),
}

/// The coherence tracker for one logical buffer.
///
/// A `SharedMemory` owns at most one [`MemoryCopy`] per device, all allocated
/// with the same byte size `capacity * element_size`, fixed at construction.
/// Exactly one tracked device is authoritative at any time: its copy is
/// guaranteed to hold the most recent write the tracker accepted. The
/// authoritative copy is cached in a slot of its own; `copies` maps the
/// identity of every *other* tracked device to that device's copy and never
/// holds an entry for the authoritative device.
///
/// The logical element type has no runtime trace beyond the one
/// `element_size` integer taken at construction.
pub struct SharedMemory {
    latest_location: u64,
    latest_copy: MemoryCopy,
    copies: LinearMap<u64, MemoryCopy>,
    cap: usize,
    element_size: usize,
}

impl SharedMemory {
    /// The identity of the authoritative device.
    pub closed spec fn latest_id(&self) -> u64 {
        self.latest_location
    }

    /// The authoritative copy.
    pub closed spec fn latest_copy_spec(&self) -> MemoryCopy {
        self.latest_copy
    }

    /// The copies of the non-authoritative tracked devices, by device
    /// identity.
    pub closed spec fn copies_model(&self) -> Map<u64, MemoryCopy> {
        copy_map_model(self.copies)
    }

    /// The number of logical elements the buffer was allocated for.
    pub closed spec fn cap_spec(&self) -> usize {
        self.cap
    }

    /// The byte size of one logical element.
    pub closed spec fn element_size_spec(&self) -> usize {
        self.element_size
    }

    /// The byte size of every copy this tracker owns.
    pub open spec fn byte_size(&self) -> int {
        (self.cap_spec() as int) * (self.element_size_spec() as int)
    }

    /// A device is tracked iff it is the authoritative device or has an entry
    /// in `copies`.
    pub open spec fn is_tracked(&self, id: u64) -> bool {
        id == self.latest_id() || self.copies_model().contains_key(id)
    }

    /// A device is authoritative iff it is the one whose copy the tracker
    /// holds in the authoritative slot.
    pub open spec fn is_authoritative(&self, id: u64) -> bool {
        id == self.latest_id()
    }

    /// The copy tracked for device `id`.
    pub open spec fn copy_at(&self, id: u64) -> MemoryCopy {
        if id == self.latest_id() {
            self.latest_copy_spec()
        } else {
            self.copies_model()[id]
        }
    }

    /// Well-formedness: the authoritative device has no entry in `copies`,
    /// and every copy has exactly the fixed byte size.
    pub open spec fn wf(&self) -> bool {
        &&& !self.copies_model().contains_key(self.latest_id())
        &&& self.byte_size() <= usize::MAX as int
        &&& self.latest_copy_spec()@.len() == self.byte_size()
        &&& forall|id: u64|
            self.copies_model().contains_key(id) ==> (#[trigger] self.copies_model()[id])@.len()
                == self.byte_size()
    }

    /// Two trackers are in the same state when every observable part of them
    /// agrees.
    pub open spec fn same_state(&self, other: SharedMemory) -> bool {
        &&& self.latest_id() == other.latest_id()
        &&& self.latest_copy_spec() == other.latest_copy_spec()
        &&& self.copies_model() == other.copies_model()
        &&& self.cap_spec() == other.cap_spec()
        &&& self.element_size_spec() == other.element_size_spec()
    }

    /// Creates a tracker by allocating `capacity * element_size` bytes on
    /// `device`; that allocation becomes the initial authoritative copy. A
    /// backend allocation failure is wrapped and surfaced.
    pub fn new<D: Device>(device: &D, capacity: usize, element_size: usize) -> (r: Result<
        SharedMemory,
        Error,
    >)
        requires
            (capacity as int) * (element_size as int) <= usize::MAX as int,
        ensures
            r matches Ok(m) ==> m.wf() && m.cap_spec() == capacity && m.element_size_spec()
                == element_size && m.is_authoritative(device.id_spec())
                && m.latest_copy_spec().kind_spec() == device.kind_spec() && m.copies_model()
                == Map::<u64, MemoryCopy>::empty(),
            r matches Ok(m) ==> m.latest_copy_spec()@.len() == (capacity as int) * (
            element_size as int),
            r matches Err(e) ==> e is MemoryAllocationError,
            r matches Err(Error::MemoryAllocationError(de)) ==> de is Allocation,
    {
        let alloc_size = capacity * element_size;
        match device.allocate(alloc_size) {
            Ok(copy) => Ok(
                SharedMemory {
                    latest_location: device.id(),
                    latest_copy: copy,
                    copies: copy_map_new(),
                    cap: capacity,
                    element_size,
                },
            ),
            Err(e) => Err(Error::MemoryAllocationError(e)),
        }
    }

    /// Tracks a new `device` and allocates a copy of the fixed byte size on
    /// it. The new copy is not synchronized: it holds whatever the backend
    /// left there until a `sync` call populates it.
    ///
    /// Registering an already tracked device fails with
    /// [`Error::InvalidMemoryAllocation`]; registration is intentionally not
    /// idempotent.
    pub fn add_device<'a, D: Device>(&'a mut self, device: &D) -> (r: Result<
        &'a mut SharedMemory,
        Error,
    >)
        requires
            old(self).wf(),
        ensures
            old(self).is_tracked(device.id_spec()) ==> r matches Err(
                Error::InvalidMemoryAllocation(_),
            ),
            r is Err ==> final (self).same_state(*old(self)),
            r matches Err(e) ==> e is InvalidMemoryAllocation || e is MemoryAllocationError,
            !old(self).is_tracked(device.id_spec()) && r is Err ==> r matches Err(
                Error::MemoryAllocationError(_),
            ),
            r matches Err(Error::MemoryAllocationError(de)) ==> de is Allocation
                && !old(self).is_tracked(device.id_spec()),
            r is Ok ==> !old(self).is_tracked(device.id_spec()) && (*r.unwrap()).wf() && (
            *r.unwrap()).latest_id() == old(self).latest_id() && (*r.unwrap()).latest_copy_spec()
                == old(self).latest_copy_spec() && (*r.unwrap()).cap_spec() == old(self).cap_spec()
                && (*r.unwrap()).element_size_spec() == old(self).element_size_spec() && (
            *r.unwrap()).copies_model() == old(self).copies_model().insert(
                device.id_spec(),
                (*r.unwrap()).copies_model()[device.id_spec()],
            ) && (*r.unwrap()).copies_model()[device.id_spec()].kind_spec() == device.kind_spec()
                && (*r.unwrap()).copies_model()[device.id_spec()]@.len() == old(self).byte_size()
                && *final (self) == *final (r.unwrap()),
    {
        let id = device.id();
        if id == self.latest_location {
            return Err(
                Error::InvalidMemoryAllocation(
                    "SharedMemory already tracks memory for this device. No memory allocation.",
                ),
            );
        }
        let already_tracked = copy_map_get(&self.copies, id).is_some();
        if already_tracked {
            return Err(
                Error::InvalidMemoryAllocation(
                    "SharedMemory already tracks memory for this device. No memory allocation.",
                ),
            );
        }
        let alloc_size = self.cap * self.element_size;
        match device.allocate(alloc_size) {
            Ok(copy) => {
                copy_map_insert(&mut self.copies, id, copy);
                Ok(self)
            },
            Err(e) => Err(Error::MemoryAllocationError(e)),
        }
    }

    /// A reference to the copy on `device`, or `None` if the device is not
    /// tracked — absence is an expected, checkable condition, never an error.
    pub fn get<'a, D: Device>(&'a self, device: &D) -> (r: Option<&'a MemoryCopy>)
        ensures
            match r {
                Some(c) => self.is_tracked(device.id_spec()) && *c == self.copy_at(
                    device.id_spec(),
                ),
                None => !self.is_tracked(device.id_spec()),
            },
    {
        let id = device.id();
        if id == self.latest_location {
            return Some(&self.latest_copy);
        }
        copy_map_get(&self.copies, id)
    }

    /// A mutable reference to the copy on `device`, or `None`.
    ///
    /// Mutable access is granted only on the authoritative device, so that a
    /// write can never land in a stale copy and be silently discarded by a
    /// later `sync`; on any other device — tracked or not — the result is
    /// `None`, never an error. Mutation through the reference cannot change
    /// the copy's size or tag, so the tracker stays well-formed.
    pub fn get_mut<'a, D: Device>(&'a mut self, device: &D) -> (r: Option<&'a mut MemoryCopy>)
        ensures
            old(self).is_authoritative(device.id_spec()) ==> r is Some && *r.unwrap() == old(
                self,
            ).latest_copy_spec() && final (self).latest_copy_spec() == *final (r.unwrap()) && final (
            self).latest_id() == old(self).latest_id() && final (self).copies_model() == old(
                self,
            ).copies_model() && final (self).cap_spec() == old(self).cap_spec() && final (
            self).element_size_spec() == old(self).element_size_spec(),
            !old(self).is_authoritative(device.id_spec()) ==> r is None && final (self).same_state(
                *old(self),
            ),
    {
        let id = device.id();
        if id == self.latest_location {
            Some(&mut self.latest_copy)
        } else {
            None
        }
    }

    /// Makes `destination`'s copy byte-for-byte equal to the authoritative
    /// copy, then makes `destination` the new authoritative device.
    ///
    /// A destination that already is authoritative is a no-op that never
    /// invokes the transfer contract. A destination that is not tracked is
    /// refused with [`Error::MissingDestination`] — a copy is never allocated
    /// on demand. A destination copy whose backend tag does not match the
    /// destination device is refused with [`Error::InvalidMemory`]. A backend
    /// transfer failure is wrapped in [`Error::MemorySynchronizationError`]
    /// and surfaced; authority does not move, and no copy leaks: ownership of
    /// both copies returns to the tracker before the error propagates.
    ///
    /// On success the old authoritative copy is demoted into `copies`,
    /// untouched, and the destination's copy — now holding the authoritative
    /// bytes — is promoted into the authoritative slot.
    pub fn sync<D: Device>(&mut self, destination: &D) -> (r: Result<(), Error>)
        requires
            old(self).wf(),
        ensures
            final (self).wf(),
            final (self).cap_spec() == old(self).cap_spec(),
            final (self).element_size_spec() == old(self).element_size_spec(),
            old(self).is_authoritative(destination.id_spec()) ==> r is Ok && final (
            self).same_state(*old(self)),
            r is Ok ==> final (self).is_authoritative(destination.id_spec()) && final (
            self).latest_copy_spec()@ == old(self).latest_copy_spec()@,
            r is Ok && !old(self).is_authoritative(destination.id_spec()) ==> final (
            self).latest_copy_spec().kind_spec() == old(self).copies_model()[destination.id_spec()].kind_spec()
                && final (self).copies_model() == old(self).copies_model().remove(
                destination.id_spec(),
            ).insert(old(self).latest_id(), old(self).latest_copy_spec()),
            !old(self).is_tracked(destination.id_spec()) ==> (r matches Err(
                Error::MissingDestination(_),
            )) && final (self).same_state(*old(self)),
            old(self).copies_model().contains_key(destination.id_spec()) && old(
                self,
            ).copies_model()[destination.id_spec()].kind_spec() != destination.kind_spec() ==> (
            r matches Err(Error::InvalidMemory(_))) && final (self).same_state(*old(self)),
            r matches Err(e) ==> e is MissingDestination || e is InvalidMemory
                || e is MemorySynchronizationError,
            r is Err ==> final (self).latest_id() == old(self).latest_id() && final (
            self).latest_copy_spec() == old(self).latest_copy_spec(),
            r matches Err(Error::MissingDestination(_)) ==> !old(self).is_tracked(
                destination.id_spec(),
            ),
            r matches Err(Error::InvalidMemory(_)) ==> old(self).copies_model().contains_key(
                destination.id_spec(),
            ) && old(self).copies_model()[destination.id_spec()].kind_spec()
                != destination.kind_spec(),
            r matches Err(Error::MemorySynchronizationError(de)) ==> de is Transfer && old(
                self,
            ).copies_model()[destination.id_spec()].kind_spec() == destination.kind_spec(),
            r matches Err(Error::MemorySynchronizationError(_)) ==> old(
                self,
            ).copies_model().contains_key(destination.id_spec()) && final (self).latest_id() == old(
                self,
            ).latest_id() && final (self).latest_copy_spec() == old(self).latest_copy_spec()
                && final (self).copies_model().dom() == old(self).copies_model().dom() && (
            forall|id: u64|
                id != destination.id_spec() && old(self).copies_model().contains_key(id)
                    ==> final (self).copies_model()[id] == old(self).copies_model()[id]) && final (
            self).copies_model()[destination.id_spec()].kind_spec() == old(
                self,
            ).copies_model()[destination.id_spec()].kind_spec(),
    {
        let dest_id = destination.id();
        if dest_id == self.latest_location {
            return Ok(());
        }
        let taken = copy_map_remove(&mut self.copies, dest_id);
        match taken {
            None => Err(
                Error::MissingDestination(
                    "SharedMemory does not hold a copy on destination device.",
                ),
            ),
            Some(mut dest_copy) => {
                if dest_copy.kind() != destination.kind() {
                    copy_map_insert(&mut self.copies, dest_id, dest_copy);
                    proof {
                        assert(self.copies_model() =~= old(self).copies_model());
                    }
                    return Err(
                        Error::InvalidMemory(
                            "The copy on the destination device does not belong to its backend.",
                        ),
                    );
                }
                match destination.transfer_in(
                    self.latest_location,
                    &self.latest_copy,
                    &mut dest_copy,
                ) {
                    Ok(()) => {
                        core::mem::swap(&mut self.latest_copy, &mut dest_copy);
                        copy_map_insert(&mut self.copies, self.latest_location, dest_copy);
                        self.latest_location = dest_id;
                        Ok(())
                    },
                    Err(e) => {
                        copy_map_insert(&mut self.copies, dest_id, dest_copy);
                        proof {
                            assert(self.copies_model().dom() =~= old(self).copies_model().dom());
                        }
                        Err(Error::MemorySynchronizationError(e))
                    },
                }
            },
        }
    }

    /// The identity of the device that holds the up-to-date copy.
    pub fn latest_device(&self) -> (r: u64)
        ensures
            r == self.latest_id(),
    {
        self.latest_location
    }

    /// The number of logical elements the tracker was allocated for.
    pub fn capacity(&self) -> (r: usize)
        ensures
            r == self.cap_spec(),
    {
        self.cap
    }
}

/// Every tracked device's copy has exactly the fixed byte size
/// `capacity * element_size`.
pub proof fn lemma_tracked_copy_size(m: SharedMemory, id: u64)
    requires
        m.wf(),
        m.is_tracked(id),
    ensures
        m.copy_at(id)@.len() == m.byte_size(),
{
}

/// At most one device is authoritative at any time, and the authoritative
/// device is always a tracked device.
pub proof fn lemma_authoritative_unique(m: SharedMemory, a: u64, b: u64)
    requires
        m.is_authoritative(a),
        m.is_authoritative(b),
    ensures
        a == b,
        m.is_tracked(a),
{
}

} // verus!
