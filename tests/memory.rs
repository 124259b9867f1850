use freecam::chain::{ChainAction, ChainError, ChainWalk, MemoryError};
use freecam::patch::{CodePatch, PatchCommand, PatchError, PatchJob, NOP, PAGE_EXECUTE_READWRITE};

/// A target address space: one region of bytes, with a page protection, and
/// switches that make the next operation of a kind fail.
struct FakeMemory {
    start: usize,
    bytes: Vec<u8>,
    protection: u32,
    protect_calls: Vec<u32>,
    fail_read: bool,
    fail_protect: bool,
    fail_write: bool,
}

impl FakeMemory {
    fn new(start: usize, len: usize) -> Self {
        FakeMemory {
            start,
            bytes: vec![0; len],
            protection: 0x20,
            protect_calls: Vec::new(),
            fail_read: false,
            fail_protect: false,
            fail_write: false,
        }
    }

    fn put_u32(&mut self, address: usize, v: u32) {
        let i = address - self.start;
        self.bytes[i..i + 4].copy_from_slice(&v.to_le_bytes());
    }

    fn read(&self, address: usize, length: usize) -> Result<Vec<u8>, MemoryError> {
        if self.fail_read || address < self.start || address + length > self.start + self.bytes.len() {
            return Err(MemoryError { address, code: 299 });
        }
        let i = address - self.start;
        Ok(self.bytes[i..i + length].to_vec())
    }

    fn read_u32(&self, address: usize) -> Result<u32, MemoryError> {
        let b = self.read(address, 4)?;
        Ok(u32::from_le_bytes([b[0], b[1], b[2], b[3]]))
    }

    fn protect(&mut self, address: usize, protection: u32) -> Result<u32, MemoryError> {
        self.protect_calls.push(protection);
        if self.fail_protect {
            return Err(MemoryError { address, code: 487 });
        }
        let previous = self.protection;
        self.protection = protection;
        Ok(previous)
    }

    fn write(&mut self, address: usize, data: &[u8]) -> Result<(), MemoryError> {
        if self.fail_write {
            return Err(MemoryError { address, code: 998 });
        }
        let i = address - self.start;
        self.bytes[i..i + data.len()].copy_from_slice(data);
        Ok(())
    }
}

fn resolve(mem: &FakeMemory, base: usize, offsets: &[usize]) -> (Result<usize, ChainError>, usize) {
    let mut walk = ChainWalk::new(base, offsets.to_vec());
    let mut reads = 0;
    loop {
        match walk.next_action() {
            ChainAction::Done(outcome) => return (outcome, reads),
            ChainAction::Read { address } => {
                reads += 1;
                walk.feed(mem.read_u32(address));
            }
        }
    }
}

fn run(mem: &mut FakeMemory, mut job: PatchJob) -> PatchJob {
    loop {
        match job.command() {
            PatchCommand::Read { address, length } => job.on_read(mem.read(address, length)),
            PatchCommand::Protect { address, protection, .. } => {
                let r = mem.protect(address, protection);
                job.on_protect(r)
            }
            PatchCommand::Write { address, bytes } => {
                let r = mem.write(address, &bytes);
                job.on_write(r)
            }
            PatchCommand::Finish => return job,
        }
    }
}

fn apply(mem: &mut FakeMemory, address: usize, length: usize) -> Result<CodePatch, PatchError> {
    run(mem, PatchJob::apply(address, length)).finish_apply()
}

fn restore(mem: &mut FakeMemory, patch: &mut CodePatch) -> Result<(), PatchError> {
    let job = PatchJob::restore(patch)?;
    run(mem, job).finish_restore(patch)
}

#[test]
fn single_offset_adds_without_reading() {
    let mem = FakeMemory::new(0x10000, 16);
    let (r, reads) = resolve(&mem, 0x400000, &[0x2F4]);
    assert_eq!(r, Ok(0x4002F4));
    assert_eq!(reads, 0);
}

#[test]
fn empty_chain_is_the_base() {
    let mem = FakeMemory::new(0x10000, 16);
    assert_eq!(resolve(&mem, 0x1234, &[]), (Ok(0x1234), 0));
}

#[test]
fn chain_follows_each_pointer() {
    let mut mem = FakeMemory::new(0x10000, 0x1000);
    mem.put_u32(0x10010, 0x10100);
    mem.put_u32(0x10108, 0x10200);
    let (r, reads) = resolve(&mem, 0x10010, &[0x8, 0x4, 0x324]);
    assert_eq!(r, Ok(0x10204 + 0x324));
    assert_eq!(reads, 2);
}

#[test]
fn null_pointer_reports_its_step() {
    let mut mem = FakeMemory::new(0x10000, 0x1000);
    mem.put_u32(0x10010, 0x10100);
    mem.put_u32(0x10108, 0);
    let (r, reads) = resolve(&mem, 0x10010, &[0x8, 0x4, 0x324]);
    assert_eq!(r, Err(ChainError::NullPointerInChain { step: 1 }));
    assert_eq!(reads, 2);
}

#[test]
fn null_pointer_at_first_step() {
    let mem = FakeMemory::new(0x10000, 0x1000);
    let (r, _) = resolve(&mem, 0x10010, &[0x8, 0x4]);
    assert_eq!(r, Err(ChainError::NullPointerInChain { step: 0 }));
}

#[test]
fn low_pointer_is_invalid() {
    let mut mem = FakeMemory::new(0x10000, 0x1000);
    mem.put_u32(0x10010, 0xFFFF);
    let (r, _) = resolve(&mem, 0x10010, &[0x8, 0x4]);
    assert_eq!(r, Err(ChainError::InvalidPointerInChain { step: 0, value: 0xFFFF }));
}

#[test]
fn high_pointer_is_invalid() {
    let mut mem = FakeMemory::new(0x10000, 0x1000);
    mem.put_u32(0x10010, 0x8000_0000);
    let (r, _) = resolve(&mem, 0x10010, &[0x8, 0x4]);
    assert_eq!(r, Err(ChainError::InvalidPointerInChain { step: 0, value: 0x8000_0000 }));
}

#[test]
fn pointer_bounds_are_inclusive() {
    let mut mem = FakeMemory::new(0x10000, 0x1000);
    mem.put_u32(0x10010, 0x10000);
    assert_eq!(resolve(&mem, 0x10010, &[0x8, 0x4]).0, Ok(0x1000C));
    mem.put_u32(0x10010, 0x7FFF_FFFF);
    assert_eq!(resolve(&mem, 0x10010, &[0x8, 0x4]).0, Ok(0x8000_000B));
}

#[test]
fn failed_read_stops_chain() {
    let mem = FakeMemory::new(0x10000, 0x100);
    let (r, reads) = resolve(&mem, 0x20000, &[0x8, 0x4]);
    assert_eq!(
        r,
        Err(ChainError::ReadFailed { step: 0, error: MemoryError { address: 0x20000, code: 299 } })
    );
    assert_eq!(reads, 1);
}

#[test]
fn final_offset_overflow_is_reported() {
    let mem = FakeMemory::new(0x10000, 0x100);
    let (r, _) = resolve(&mem, usize::MAX - 1, &[2]);
    assert_eq!(r, Err(ChainError::AddressOverflow { step: 0 }));
}

#[test]
fn apply_then_restore_leaves_bytes() {
    let mut mem = FakeMemory::new(0x1000, 16);
    mem.bytes[4] = 0xF3;
    mem.bytes[5] = 0xA5;
    let before = mem.bytes.clone();
    let mut patch = apply(&mut mem, 0x1004, 2).unwrap();
    assert!(patch.is_applied);
    assert_eq!(patch.address, 0x1004);
    assert_eq!(patch.original_bytes, vec![0xF3, 0xA5]);
    assert_eq!(&mem.bytes[4..6], &[NOP, NOP]);
    assert_eq!(mem.protection, 0x20);
    restore(&mut mem, &mut patch).unwrap();
    assert!(!patch.is_applied);
    assert_eq!(mem.bytes, before);
    assert_eq!(mem.protection, 0x20);
}

#[test]
fn restore_twice_is_refused() {
    let mut mem = FakeMemory::new(0x1000, 16);
    let mut patch = apply(&mut mem, 0x1000, 3).unwrap();
    assert_eq!(restore(&mut mem, &mut patch), Ok(()));
    assert_eq!(restore(&mut mem, &mut patch), Err(PatchError::NotApplied));
}

#[test]
fn reapply_recaptures_restored_bytes() {
    let mut mem = FakeMemory::new(0x1000, 8);
    mem.bytes = vec![1, 2, 3, 4, 5, 6, 7, 8];
    let mut patch = apply(&mut mem, 0x1002, 2).unwrap();
    restore(&mut mem, &mut patch).unwrap();
    let again = apply(&mut mem, 0x1002, 2).unwrap();
    assert_eq!(again.original_bytes, vec![3, 4]);
}

#[test]
fn protection_is_relaxed_then_put_back() {
    let mut mem = FakeMemory::new(0x1000, 8);
    apply(&mut mem, 0x1000, 2).unwrap();
    assert_eq!(mem.protect_calls, vec![PAGE_EXECUTE_READWRITE, 0x20]);
}

#[test]
fn failed_capture_writes_nothing() {
    let mut mem = FakeMemory::new(0x1000, 8);
    mem.fail_read = true;
    let r = apply(&mut mem, 0x1000, 2);
    assert_eq!(r.unwrap_err(), PatchError::ReadFailed(MemoryError { address: 0x1000, code: 299 }));
    assert!(mem.protect_calls.is_empty());
    assert_eq!(mem.bytes, vec![0; 8]);
}

#[test]
fn failed_protection_writes_nothing() {
    let mut mem = FakeMemory::new(0x1000, 8);
    mem.fail_protect = true;
    let r = apply(&mut mem, 0x1000, 2);
    assert_eq!(r.unwrap_err(), PatchError::ProtectFailed(MemoryError { address: 0x1000, code: 487 }));
    assert_eq!(mem.protect_calls.len(), 1);
    assert_eq!(mem.bytes, vec![0; 8]);
}

#[test]
fn failed_write_puts_protection_back() {
    let mut mem = FakeMemory::new(0x1000, 8);
    mem.fail_write = true;
    let r = apply(&mut mem, 0x1000, 2);
    assert_eq!(r.unwrap_err(), PatchError::WriteFailed(MemoryError { address: 0x1000, code: 998 }));
    assert_eq!(mem.protect_calls, vec![PAGE_EXECUTE_READWRITE, 0x20]);
    assert_eq!(mem.protection, 0x20);
}

#[test]
fn failed_restore_keeps_patch_applied() {
    let mut mem = FakeMemory::new(0x1000, 8);
    let mut patch = apply(&mut mem, 0x1000, 2).unwrap();
    mem.fail_write = true;
    let r = restore(&mut mem, &mut patch);
    assert!(matches!(r, Err(PatchError::WriteFailed(_))));
    assert!(patch.is_applied);
    assert_eq!(mem.protection, 0x20);
}

#[test]
fn restore_of_unapplied_patch_is_refused() {
    let patch = CodePatch { address: 0x1000, original_bytes: vec![1, 2], is_applied: false };
    assert!(matches!(PatchJob::restore(&patch), Err(PatchError::NotApplied)));
}
