//! In-place code patches: the bytes at an address are captured, overwritten
//! with no-op instructions under a temporarily relaxed page protection, and
//! later written back.
//!
//! Each operation is a `PatchJob`, a state machine that names the next
//! command for the host (read, protect, write) and takes its result. The
//! protection is relaxed just around the write and put back before a job
//! finishes, after a failed write too; a failed read or protection change
//! finishes a job before anything was written.
use vstd::prelude::*;
use crate::chain::MemoryError;

verus! {

/// The x86 no-op instruction.
pub const NOP: u8 = 0x90;

/// The page protection that allows reading, writing and executing.
pub const PAGE_EXECUTE_READWRITE: u32 = 0x40;

/// The bytes written over a patch site of `length` bytes.
pub open spec fn nop_bytes(length: nat) -> Seq<u8> {
    Seq::new(length, |i: int| NOP)
}

/// A patch site: its address, the bytes that were there before it was patched,
/// and whether the no-op bytes are in place.
#[derive(Clone, Debug)]
pub struct CodePatch {
    pub address: usize,
    pub original_bytes: Vec<u8>,
    pub is_applied: bool,
}

impl CodePatch {
    /// The patch once its original bytes are back in place.
    pub open spec fn restored(&self) -> CodePatch {
        CodePatch { is_applied: false, ..*self }
    }
}

/// Why applying or restoring a patch failed.
#[derive(Clone, Copy, Debug, PartialEq, Eq, Structural)]
pub enum PatchError {
    /// Restoring a patch whose no-op bytes are not in place.
    NotApplied,
    /// Capturing the original bytes failed.
    ReadFailed(MemoryError),
    /// Relaxing the page protection failed.
    ProtectFailed(MemoryError),
    /// Writing the bytes failed.
    WriteFailed(MemoryError),
}

/// How far a job has come.
#[derive(Clone, Copy, Debug, PartialEq, Eq, Structural)]
pub enum PatchStage {
    /// Capturing the bytes at the site.
    Capture,
    /// Relaxing the page protection.
    Unlock,
    /// Writing the new bytes.
    Store,
    /// Putting the previous protection back.
    Relock,
    /// Nothing more to do.
    Finished,
}

/// What the host is to do next for a job.
#[derive(Clone, Debug, PartialEq, Eq)]
pub enum PatchCommand {
    /// Read `length` bytes at `address` and hand them to `on_read`.
    Read { address: usize, length: usize },
    /// Set the protection of `length` bytes at `address` and hand the previous
    /// protection to `on_protect`.
    Protect { address: usize, length: usize, protection: u32 },
    /// Write `bytes` at `address` and hand the result to `on_write`.
    Write { address: usize, bytes: Vec<u8> },
    /// The job is over.
    Finish,
}

/// What a job holds, as plain values.
pub struct JobView {
    pub address: usize,
    pub length: usize,
    /// The bytes the job writes.
    pub payload: Seq<u8>,
    /// The bytes that the site held before it was patched.
    pub original: Seq<u8>,
    /// Whether the job restores a patch (else it applies one).
    pub restoring: bool,
    pub stage: PatchStage,
    /// The protection to put back.
    pub old_protect: u32,
    pub failure: Option<PatchError>,
}

/// The command that a job in `v` asks for.
pub open spec fn command_of(v: JobView, c: PatchCommand) -> bool {
    match v.stage {
        PatchStage::Capture => c == PatchCommand::Read { address: v.address, length: v.length },
        PatchStage::Unlock => c == PatchCommand::Protect {
            address: v.address,
            length: v.length,
            protection: PAGE_EXECUTE_READWRITE,
        },
        PatchStage::Store => c matches PatchCommand::Write { address, bytes } && address
            == v.address && bytes@ == v.payload,
        PatchStage::Relock => c == PatchCommand::Protect {
            address: v.address,
            length: v.length,
            protection: v.old_protect,
        },
        PatchStage::Finished => c == PatchCommand::Finish,
    }
}

/// The `length` bytes at `address` of a memory image.
pub open spec fn load(mem: spec_fn(int) -> u8, address: int, length: nat) -> Seq<u8> {
    Seq::new(length, |i: int| mem(address + i))
}

/// A memory image once `bytes` are written from `address` on.
pub open spec fn store(mem: spec_fn(int) -> u8, address: int, bytes: Seq<u8>) -> spec_fn(int) -> u8 {
    |a: int|
        if address <= a < address + bytes.len() {
            bytes[a - address]
        } else {
            mem(a)
        }
}

/// Restoring a patch undoes applying it. An application writes the no-op
/// bytes at the site and keeps what it read there; a restoration writes those
/// kept bytes back. When they are what memory held at the site, memory ends
/// as it was before the patch, byte for byte.
pub proof fn lemma_restore_undoes_apply(mem: spec_fn(int) -> u8, patch: CodePatch)
    requires
        patch.original_bytes@ == load(mem, patch.address as int, patch.original_bytes@.len()),
    ensures
        store(
            store(mem, patch.address as int, nop_bytes(patch.original_bytes@.len())),
            patch.address as int,
            patch.original_bytes@,
        ) == mem,
{
    let a = patch.address as int;
    let n = patch.original_bytes@.len();
    let after = store(store(mem, a, nop_bytes(n)), a, patch.original_bytes@);
    assert forall|x: int| #[trigger] after(x) == mem(x) by {
        if a <= x < a + n {
            assert(patch.original_bytes@[x - a] == mem(a + (x - a)));
        }
    }
    assert(after =~= mem);
}

/// A restored patch is no longer applied, so restoring it a second time,
/// before it is applied anew, is refused with `NotApplied`.
pub proof fn lemma_restore_twice_refused(patch: CodePatch)
    ensures
        !patch.restored().is_applied,
        patch.restored().address == patch.address,
        patch.restored().original_bytes == patch.original_bytes,
{
}

/// One application or restoration of a patch.
pub struct PatchJob {
    address: usize,
    length: usize,
    payload: Vec<u8>,
    original: Vec<u8>,
    restoring: bool,
    stage: PatchStage,
    old_protect: u32,
    failure: Option<PatchError>,
}

impl View for PatchJob {
    type V = JobView;

    closed spec fn view(&self) -> JobView {
        JobView {
            address: self.address,
            length: self.length,
            payload: self.payload@,
            original: self.original@,
            restoring: self.restoring,
            stage: self.stage,
            old_protect: self.old_protect,
            failure: self.failure,
        }
    }
}

fn fill_nops(length: usize) -> (r: Vec<u8>)
    ensures
        r@ == nop_bytes(length as nat),
{
    let mut r: Vec<u8> = Vec::new();
    let mut i: usize = 0;
    while i < length
        invariant
            i <= length,
            r@ == nop_bytes(i as nat),
        decreases length - i,
    {
        r.push(NOP);
        i += 1;
        assert(r@ =~= nop_bytes(i as nat));
    }
    r
}

impl PatchJob {
    pub open spec fn wf(&self) -> bool {
        &&& self@.payload.len() == self@.length
        &&& self@.stage != PatchStage::Capture && self@.failure is None ==> self@.original.len()
            == self@.length
        &&& self@.restoring ==> self@.payload == self@.original && self@.stage
            != PatchStage::Capture
        &&& !self@.restoring ==> self@.payload == nop_bytes(self@.length as nat)
        &&& self@.failure is Some ==> self@.stage == PatchStage::Relock || self@.stage
            == PatchStage::Finished
    }

    /// Starts putting no-op bytes over `length` bytes at `address`.
    pub fn apply(address: usize, length: usize) -> (r: PatchJob)
        ensures
            r.wf(),
            r@.address == address,
            r@.length == length,
            !r@.restoring,
            r@.stage == PatchStage::Capture,
            r@.failure is None,
    {
        PatchJob {
            address,
            length,
            payload: fill_nops(length),
            original: Vec::new(),
            restoring: false,
            stage: PatchStage::Capture,
            old_protect: 0,
            failure: None,
        }
    }

    /// Starts writing a patch's original bytes back; refused with `NotApplied`
    /// when its no-op bytes are not in place.
    pub fn restore(patch: &CodePatch) -> (r: Result<PatchJob, PatchError>)
        ensures
            !patch.is_applied ==> r == Err::<PatchJob, PatchError>(PatchError::NotApplied),
            patch.is_applied ==> r is Ok,
            r matches Ok(job) ==> {
                &&& job.wf()
                &&& job@.address == patch.address
                &&& job@.length == patch.original_bytes@.len()
                &&& job@.payload == patch.original_bytes@
                &&& job@.original == patch.original_bytes@
                &&& job@.restoring
                &&& job@.stage == PatchStage::Unlock
                &&& job@.failure is None
            },
    {
        if !patch.is_applied {
            return Err(PatchError::NotApplied);
        }
        Ok(
            PatchJob {
                address: patch.address,
                length: patch.original_bytes.len(),
                payload: patch.original_bytes.clone(),
                original: patch.original_bytes.clone(),
                restoring: true,
                stage: PatchStage::Unlock,
                old_protect: 0,
                failure: None,
            },
        )
    }

    /// What the host is to do next.
    pub fn command(&self) -> (r: PatchCommand)
        requires
            self.wf(),
        ensures
            command_of(self@, r),
    {
        match self.stage {
            PatchStage::Capture => PatchCommand::Read { address: self.address, length: self.length },
            PatchStage::Unlock => PatchCommand::Protect {
                address: self.address,
                length: self.length,
                protection: PAGE_EXECUTE_READWRITE,
            },
            PatchStage::Store => PatchCommand::Write {
                address: self.address,
                bytes: self.payload.clone(),
            },
            PatchStage::Relock => PatchCommand::Protect {
                address: self.address,
                length: self.length,
                protection: self.old_protect,
            },
            PatchStage::Finished => PatchCommand::Finish,
        }
    }

    /// Takes the bytes captured at the site. A failed read ends the job with
    /// nothing written.
    pub fn on_read(&mut self, read: Result<Vec<u8>, MemoryError>)
        requires
            old(self).wf(),
            old(self)@.stage == PatchStage::Capture,
            read is Ok ==> read->Ok_0@.len() == old(self)@.length,
        ensures
            final(self).wf(),
            match read {
                Ok(bytes) => final(self)@ == (JobView {
                    original: bytes@,
                    stage: PatchStage::Unlock,
                    ..old(self)@
                }),
                Err(e) => final(self)@ == (JobView {
                    stage: PatchStage::Finished,
                    failure: Some(PatchError::ReadFailed(e)),
                    ..old(self)@
                }),
            },
    {
        match read {
            Ok(bytes) => {
                self.original = bytes;
                self.stage = PatchStage::Unlock;
            },
            Err(e) => {
                self.stage = PatchStage::Finished;
                self.failure = Some(PatchError::ReadFailed(e));
            },
        }
    }

    /// Takes the result of a protection change. When relaxing it failed, the
    /// job ends with nothing written; the result of putting it back changes
    /// nothing but the stage.
    pub fn on_protect(&mut self, previous: Result<u32, MemoryError>)
        requires
            old(self).wf(),
            old(self)@.stage == PatchStage::Unlock || old(self)@.stage == PatchStage::Relock,
        ensures
            final(self).wf(),
            old(self)@.stage == PatchStage::Relock ==> final(self)@ == (JobView {
                stage: PatchStage::Finished,
                ..old(self)@
            }),
            old(self)@.stage == PatchStage::Unlock ==> match previous {
                Ok(p) => final(self)@ == (JobView {
                    stage: PatchStage::Store,
                    old_protect: p,
                    ..old(self)@
                }),
                Err(e) => final(self)@ == (JobView {
                    stage: PatchStage::Finished,
                    failure: Some(PatchError::ProtectFailed(e)),
                    ..old(self)@
                }),
            },
    {
        if self.stage == PatchStage::Relock {
            self.stage = PatchStage::Finished;
        } else {
            match previous {
                Ok(p) => {
                    self.old_protect = p;
                    self.stage = PatchStage::Store;
                },
                Err(e) => {
                    self.stage = PatchStage::Finished;
                    self.failure = Some(PatchError::ProtectFailed(e));
                },
            }
        }
    }

    /// Takes the result of the write. The previous protection is put back
    /// either way.
    pub fn on_write(&mut self, written: Result<(), MemoryError>)
        requires
            old(self).wf(),
            old(self)@.stage == PatchStage::Store,
        ensures
            final(self).wf(),
            match written {
                Ok(_) => final(self)@ == (JobView { stage: PatchStage::Relock, ..old(self)@ }),
                Err(e) => final(self)@ == (JobView {
                    stage: PatchStage::Relock,
                    failure: Some(PatchError::WriteFailed(e)),
                    ..old(self)@
                }),
            },
    {
        self.stage = PatchStage::Relock;
        if let Err(e) = written {
            self.failure = Some(PatchError::WriteFailed(e));
        }
    }

    /// The patch that a finished application made, or why it failed.
    pub fn finish_apply(self) -> (r: Result<CodePatch, PatchError>)
        requires
            self.wf(),
            !self@.restoring,
            self@.stage == PatchStage::Finished,
        ensures
            match self@.failure {
                Some(e) => r == Err::<CodePatch, PatchError>(e),
                None => r matches Ok(p) && p.address == self@.address && p.original_bytes@
                    == self@.original && p.is_applied,
            },
    {
        match self.failure {
            Some(e) => Err(e),
            None => Ok(CodePatch { address: self.address, original_bytes: self.original, is_applied: true }),
        }
    }

    /// Ends a finished restoration: on success the patch is marked as no
    /// longer applied, on failure it is left as it was.
    pub fn finish_restore(self, patch: &mut CodePatch) -> (r: Result<(), PatchError>)
        requires
            self.wf(),
            self@.restoring,
            self@.stage == PatchStage::Finished,
            self@.address == old(patch).address,
            self@.original == old(patch).original_bytes@,
        ensures
            match self@.failure {
                Some(e) => r == Err::<(), PatchError>(e) && *final(patch) == *old(patch),
                None => r is Ok && *final(patch) == old(patch).restored(),
            },
    {
        match self.failure {
            Some(e) => Err(e),
            None => {
                patch.is_applied = false;
                Ok(())
            },
        }
    }
}

} // verus!
