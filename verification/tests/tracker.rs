use shared_memory::device::{AcceleratorDevice, HostDevice, StubDevice, KIND_ACCELERATOR, KIND_HOST};
use shared_memory::{Error, SharedMemory};

/// Writes the byte pattern into the authoritative copy through `get_mut`.
fn write_pattern(m: &mut SharedMemory, dev: &HostDevice, pattern: &[u8]) {
    let copy = m.get_mut(dev).expect("authoritative device must give mutable access");
    assert!(pattern.len() <= copy.byte_size());
    let mut i = 0;
    while i < pattern.len() {
        copy.write(i, pattern[i]);
        i += 1;
    }
}

fn read_all(copy: &shared_memory::MemoryCopy) -> Vec<u8> {
    let mut out = Vec::new();
    let mut i = 0;
    while i < copy.byte_size() {
        out.push(copy.read(i));
        i += 1;
    }
    out
}

#[test]
fn construction_reports_capacity_and_device() {
    let a = HostDevice::new(1);
    let m = SharedMemory::new(&a, 5, 4).unwrap();
    assert_eq!(m.capacity(), 5);
    assert_eq!(m.latest_device(), 1);
    let copy = m.get(&a).unwrap();
    assert_eq!(copy.byte_size(), 20);
    assert_eq!(copy.kind(), KIND_HOST);
}

#[test]
fn every_tracked_copy_has_fixed_byte_size() {
    let a = HostDevice::new(1);
    let b = AcceleratorDevice::new(2);
    let mut m = SharedMemory::new(&a, 5, 4).unwrap();
    m.add_device(&b).unwrap();
    assert_eq!(m.get(&a).unwrap().byte_size(), 20);
    assert_eq!(m.get(&b).unwrap().byte_size(), 20);
    assert_eq!(m.get(&b).unwrap().kind(), KIND_ACCELERATOR);
}

#[test]
fn zero_capacity_copies_are_empty() {
    let a = HostDevice::new(1);
    let b = AcceleratorDevice::new(2);
    let mut m = SharedMemory::new(&a, 0, 4).unwrap();
    m.add_device(&b).unwrap();
    assert_eq!(m.get(&a).unwrap().byte_size(), 0);
    assert_eq!(m.get(&b).unwrap().byte_size(), 0);
}

#[test]
fn add_device_twice_fails_with_double_registration() {
    let a = HostDevice::new(1);
    let b = AcceleratorDevice::new(2);
    let mut m = SharedMemory::new(&a, 5, 4).unwrap();
    m.add_device(&b).unwrap();
    let second = m.add_device(&b);
    assert!(matches!(second, Err(Error::InvalidMemoryAllocation(_))));
}

#[test]
fn add_device_on_authoritative_device_fails() {
    let a = HostDevice::new(1);
    let mut m = SharedMemory::new(&a, 5, 4).unwrap();
    let again = m.add_device(&a);
    assert!(matches!(again, Err(Error::InvalidMemoryAllocation(_))));
}

#[test]
fn lookup_on_untracked_device_is_absent_not_an_error() {
    let a = HostDevice::new(1);
    let c = AcceleratorDevice::new(3);
    let mut m = SharedMemory::new(&a, 5, 4).unwrap();
    assert!(m.get(&c).is_none());
    assert!(m.get_mut(&c).is_none());
}

#[test]
fn mutable_access_is_authoritative_only() {
    let a = HostDevice::new(1);
    let b = AcceleratorDevice::new(2);
    let mut m = SharedMemory::new(&a, 5, 4).unwrap();
    m.add_device(&b).unwrap();
    assert!(m.get_mut(&a).is_some());
    assert!(m.get_mut(&b).is_none());
    assert!(m.get(&b).is_some());
}

#[test]
fn write_then_sync_moves_bytes_and_authority() {
    let a = HostDevice::new(1);
    let b = AcceleratorDevice::new(2);
    let mut m = SharedMemory::new(&a, 5, 4).unwrap();
    m.add_device(&b).unwrap();
    let mut pattern = vec![0u8; 20];
    for e in 0..5 {
        pattern[4 * e] = e as u8;
    }
    write_pattern(&mut m, &a, &pattern);
    m.sync(&b).unwrap();
    assert_eq!(m.latest_device(), 2);
    assert_eq!(read_all(m.get(&b).unwrap()), pattern);
}

#[test]
fn sync_to_untracked_device_is_missing_destination() {
    let a = HostDevice::new(1);
    let b = AcceleratorDevice::new(2);
    let mut m = SharedMemory::new(&a, 5, 4).unwrap();
    let r = m.sync(&b);
    assert!(matches!(r, Err(Error::MissingDestination(_))));
    assert_eq!(m.latest_device(), 1);
}

#[test]
fn two_hop_propagation_keeps_bytes_and_demoted_copy() {
    let a = HostDevice::new(1);
    let b = AcceleratorDevice::new(2);
    let c = AcceleratorDevice::new(3);
    let mut m = SharedMemory::new(&a, 4, 1).unwrap();
    m.add_device(&b).unwrap();
    m.add_device(&c).unwrap();
    let pattern = vec![9u8, 8, 7, 6];
    write_pattern(&mut m, &a, &pattern);
    m.sync(&b).unwrap();
    m.sync(&c).unwrap();
    assert_eq!(m.latest_device(), 3);
    assert_eq!(read_all(m.get(&c).unwrap()), pattern);
    // The copy demoted on the first hop still exists, untouched.
    assert_eq!(read_all(m.get(&a).unwrap()), pattern);
    assert_eq!(read_all(m.get(&b).unwrap()), pattern);
}

#[test]
fn sync_is_idempotent() {
    let a = HostDevice::new(1);
    let b = AcceleratorDevice::new(2);
    let mut m = SharedMemory::new(&a, 4, 1).unwrap();
    m.add_device(&b).unwrap();
    let pattern = vec![1u8, 2, 3, 4];
    write_pattern(&mut m, &a, &pattern);
    m.sync(&b).unwrap();
    let bytes_after_first = read_all(m.get(&b).unwrap());
    m.sync(&b).unwrap();
    assert_eq!(m.latest_device(), 2);
    assert_eq!(read_all(m.get(&b).unwrap()), bytes_after_first);
}

#[test]
fn sync_to_authoritative_device_never_invokes_transfer() {
    // The stub refuses every transfer, so an Ok sync proves the transfer
    // contract was never invoked.
    let a = StubDevice::new(1, KIND_HOST, false, true);
    let mut m = SharedMemory::new(&a, 5, 4).unwrap();
    let r = m.sync(&a);
    assert!(r.is_ok());
    assert_eq!(m.latest_device(), 1);
}

#[test]
fn second_sync_takes_the_no_op_path() {
    let a = HostDevice::new(1);
    let b = AcceleratorDevice::new(2);
    let mut m = SharedMemory::new(&a, 4, 1).unwrap();
    m.add_device(&b).unwrap();
    m.sync(&b).unwrap();
    // Same identity and kind as `b`, but it refuses every transfer: the
    // second sync still succeeds, so it took the no-op path.
    let b_refusing = StubDevice::new(2, KIND_ACCELERATOR, false, true);
    let r = m.sync(&b_refusing);
    assert!(r.is_ok());
    assert_eq!(m.latest_device(), 2);
}

#[test]
fn refused_transfer_is_wrapped_and_authority_stays() {
    let a = HostDevice::new(1);
    let b = StubDevice::new(2, KIND_ACCELERATOR, false, true);
    let mut m = SharedMemory::new(&a, 5, 4).unwrap();
    m.add_device(&b).unwrap();
    let r = m.sync(&b);
    assert!(matches!(r, Err(Error::MemorySynchronizationError(_))));
    assert_eq!(m.latest_device(), 1);
    // The destination copy is still tracked after the failure.
    assert!(m.get(&b).is_some());
}

#[test]
fn refused_allocation_is_wrapped() {
    let bad = StubDevice::new(1, KIND_HOST, true, false);
    let r = SharedMemory::new(&bad, 5, 4);
    assert!(matches!(r, Err(Error::MemoryAllocationError(_))));

    let a = HostDevice::new(1);
    let mut m = SharedMemory::new(&a, 5, 4).unwrap();
    let bad2 = StubDevice::new(2, KIND_ACCELERATOR, true, false);
    let r2 = m.add_device(&bad2);
    assert!(matches!(r2, Err(Error::MemoryAllocationError(_))));
    assert!(m.get(&bad2).is_none());
}

#[test]
fn cross_backend_tag_mismatch_is_invalid_memory() {
    let a = HostDevice::new(1);
    let b = StubDevice::new(2, KIND_ACCELERATOR, false, false);
    let mut m = SharedMemory::new(&a, 5, 4).unwrap();
    m.add_device(&b).unwrap();
    // A device that claims identity 2 but belongs to another backend: the
    // tracked copy under identity 2 carries the accelerator tag.
    let impostor = StubDevice::new(2, KIND_HOST, false, false);
    let r = m.sync(&impostor);
    assert!(matches!(r, Err(Error::InvalidMemory(_))));
    assert_eq!(m.latest_device(), 1);
}

#[test]
fn add_device_builder_style_chains() {
    let a = HostDevice::new(1);
    let b = AcceleratorDevice::new(2);
    let c = AcceleratorDevice::new(3);
    let mut m = SharedMemory::new(&a, 2, 1).unwrap();
    m.add_device(&b).unwrap().add_device(&c).unwrap();
    assert!(m.get(&b).is_some());
    assert!(m.get(&c).is_some());
}
