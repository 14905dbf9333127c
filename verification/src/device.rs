use vstd::prelude::*;
use crate::memory::MemoryCopy;

verus! {

/// The backend kind tag used by [`HostDevice`].
pub const KIND_HOST: u64 = 0;

/// The backend kind tag used by [`AcceleratorDevice`].
pub const KIND_ACCELERATOR: u64 = 1;

/// A failure reported by a device backend, wrapped by the tracker rather than
/// re-interpreted.
#[derive(Debug, Clone, Copy)]
pub enum DeviceError {
    /// The backend could not allocate the requested bytes.
    Allocation(&'static str),
    /// The backend could not carry out a transfer.
    Transfer(&'static str),
}

/// The capability contract a device backend must expose to back copies of a
/// shared buffer.
///
/// A device is an equality-comparable identity (`id`) of one backend kind
/// (`kind`), together with the two raw primitives the tracker needs: an
/// allocator and a pull-style transfer. Distinct device instances used with
/// one tracker must report distinct identities; the tracker compares devices
/// by identity alone. New backend kinds can be added without changing the
/// tracker.
pub trait Device: Sized {
    /// The identity of this device instance.
    spec fn id_spec(&self) -> u64;

    /// The backend kind tag this device stamps on its allocations.
    spec fn kind_spec(&self) -> u64;

    /// The identity of this device instance.
    fn id(&self) -> (r: u64)
        ensures
            r == self.id_spec(),
    ;

    /// The backend kind tag this device stamps on its allocations.
    fn kind(&self) -> (r: u64)
        ensures
            r == self.kind_spec(),
    ;

    /// Allocates `byte_size` bytes on this device. A successful allocation has
    /// exactly the requested size and carries this device's kind tag; its
    /// contents are whatever the backend leaves there.
    fn allocate(&self, byte_size: usize) -> (r: Result<MemoryCopy, DeviceError>)
        ensures
            r matches Ok(c) ==> c@.len() == byte_size && c.kind_spec() == self.kind_spec(),
            r matches Err(e) ==> e is Allocation,
    ;

    /// Pulls the bytes of `source` into `dest`, blocking until the transfer is
    /// complete. `source_id` names the device that owns `source`; the backend
    /// may refuse a source kind it cannot service. On success `dest` holds
    /// exactly the bytes of `source`; on failure `dest` keeps its size, and in
    /// either case it keeps its kind tag.
    fn transfer_in(
        &self,
        source_id: u64,
        source: &MemoryCopy,
        dest: &mut MemoryCopy,
    ) -> (r: Result<(), DeviceError>)
        requires
            old(dest).kind_spec() == self.kind_spec(),
        ensures
            r is Ok ==> final(dest)@ == source@,
            r matches Err(e) ==> e is Transfer && final(dest)@.len() == old(dest)@.len(),
            final(dest).kind_spec() == old(dest).kind_spec(),
    ;
}

/// The host (main memory) backend: allocation never fails observably, and a
/// transfer can pull from a source of any backend kind.
pub struct HostDevice {
    id: u64,
}

impl HostDevice {
    /// A host device with the given identity.
    pub fn new(id: u64) -> (r: HostDevice)
        ensures
            r.id_spec() == id,
            r.kind_spec() == KIND_HOST,
    {
        HostDevice { id }
    }
}

impl Device for HostDevice {
    closed spec fn id_spec(&self) -> u64 {
        self.id
    }

    closed spec fn kind_spec(&self) -> u64 {
        KIND_HOST
    }

    fn id(&self) -> u64 {
        self.id
    }

    fn kind(&self) -> u64 {
        KIND_HOST
    }

    fn allocate(&self, byte_size: usize) -> Result<MemoryCopy, DeviceError> {
        Ok(MemoryCopy::new(KIND_HOST, byte_size))
    }

    fn transfer_in(
        &self,
        source_id: u64,
        source: &MemoryCopy,
        dest: &mut MemoryCopy,
    ) -> Result<(), DeviceError> {
        dest.copy_bytes_from(source);
        Ok(())
    }
}

/// An accelerator backend whose device memory is modelled in host bytes. Like
/// the host backend it can pull from a source of any kind; it exists so that
/// cross-kind coherence can be exercised.
pub struct AcceleratorDevice {
    id: u64,
}

impl AcceleratorDevice {
    /// An accelerator device with the given identity.
    pub fn new(id: u64) -> (r: AcceleratorDevice)
        ensures
            r.id_spec() == id,
            r.kind_spec() == KIND_ACCELERATOR,
    {
        AcceleratorDevice { id }
    }
}

impl Device for AcceleratorDevice {
    closed spec fn id_spec(&self) -> u64 {
        self.id
    }

    closed spec fn kind_spec(&self) -> u64 {
        KIND_ACCELERATOR
    }

    fn id(&self) -> u64 {
        self.id
    }

    fn kind(&self) -> u64 {
        KIND_ACCELERATOR
    }

    fn allocate(&self, byte_size: usize) -> Result<MemoryCopy, DeviceError> {
        Ok(MemoryCopy::new(KIND_ACCELERATOR, byte_size))
    }

    fn transfer_in(
        &self,
        source_id: u64,
        source: &MemoryCopy,
        dest: &mut MemoryCopy,
    ) -> Result<(), DeviceError> {
        dest.copy_bytes_from(source);
        Ok(())
    }
}

/// A diagnostic backend that can be told to refuse allocations or transfers.
/// It makes the tracker's failure paths observable: in particular, a sync
/// whose destination already is the authoritative device must succeed even on
/// a device whose transfer primitive always fails, because that path never
/// invokes the transfer contract.
pub struct StubDevice {
    id: u64,
    kind: u64,
    refuse_allocation: bool,
    refuse_transfer: bool,
}

impl StubDevice {
    /// A stub device with the given identity and kind tag that refuses the
    /// selected primitives.
    pub fn new(id: u64, kind: u64, refuse_allocation: bool, refuse_transfer: bool) -> (r:
        StubDevice)
        ensures
            r.id_spec() == id,
            r.kind_spec() == kind,
    {
        StubDevice { id, kind, refuse_allocation, refuse_transfer }
    }
}

impl Device for StubDevice {
    closed spec fn id_spec(&self) -> u64 {
        self.id
    }

    closed spec fn kind_spec(&self) -> u64 {
        self.kind
    }

    fn id(&self) -> u64 {
        self.id
    }

    fn kind(&self) -> u64 {
        self.kind
    }

    fn allocate(&self, byte_size: usize) -> Result<MemoryCopy, DeviceError> {
        if self.refuse_allocation {
            Err(DeviceError::Allocation("stub device refused the allocation"))
        } else {
            Ok(MemoryCopy::new(self.kind, byte_size))
        }
    }

    fn transfer_in(
        &self,
        source_id: u64,
        source: &MemoryCopy,
        dest: &mut MemoryCopy,
    ) -> Result<(), DeviceError> {
        if self.refuse_transfer {
            Err(DeviceError::Transfer("stub device refused the transfer"))
        } else {
            dest.copy_bytes_from(source);
            Ok(())
        }
    }
}

} // verus!
