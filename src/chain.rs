//! Pointer-chain resolution inside a foreign 32-bit address space.
//!
//! A chain is a base address and a list of offsets: every offset but the last
//! is "read a 4-byte pointer here, check it, then add the offset"; the last is
//! added without a read. The reads themselves are the host's work, so the
//! resolver is a state machine: `ChainWalk::next_action` names the address to
//! read (or the outcome), and `ChainWalk::feed` takes what the read returned.
//! Its whole behaviour is `replay`, a function of the reads so far.
use vstd::prelude::*;

verus! {

/// A failed transfer between this process and the target.
#[derive(Clone, Copy, Debug, PartialEq, Eq, Structural)]
pub struct MemoryError {
    /// The address that could not be read or written.
    pub address: usize,
    /// The code that the operating system reported.
    pub code: u32,
}

/// Why a pointer chain could not be resolved.
#[derive(Clone, Copy, Debug, PartialEq, Eq, Structural)]
pub enum ChainError {
    /// The read at `step` failed.
    ReadFailed { step: usize, error: MemoryError },
    /// The pointer read at `step` was zero.
    NullPointerInChain { step: usize },
    /// The pointer read at `step` lies outside the target's user range.
    InvalidPointerInChain { step: usize, value: u32 },
    /// Adding the offset of `step` left the address space.
    AddressOverflow { step: usize },
}

/// Lowest pointer value accepted in a chain. The target is a 32-bit process:
/// its pointers are 4 bytes wide and lie in the low half of its space.
pub const MIN_POINTER: u32 = 0x1_0000;

/// Highest pointer value accepted in a chain.
pub const MAX_POINTER: u32 = 0x7FFF_FFFF;

/// Whether a pointer value read from the target may be followed.
pub open spec fn pointer_in_range(v: u32) -> bool {
    MIN_POINTER <= v && v <= MAX_POINTER
}

/// Where a walk stands: the address reached, the index of the offset to apply
/// next, and the outcome once there is one.
#[derive(Clone, Copy, Debug, PartialEq, Eq)]
pub struct WalkState {
    pub current: usize,
    pub step: usize,
    pub outcome: Option<Result<usize, ChainError>>,
}

/// What the host is to do next for a walk.
#[derive(Clone, Copy, Debug, PartialEq, Eq)]
pub enum ChainAction {
    /// Read a 4-byte pointer at `address` and feed the result.
    Read { address: usize },
    /// The walk is over.
    Done(Result<usize, ChainError>),
}

/// The state at `current` before offset `step`: when only the last offset (or
/// none) remains, it is added and the walk is over.
pub open spec fn settle(current: usize, step: usize, offsets: Seq<usize>) -> WalkState {
    if step + 1 >= offsets.len() {
        let end: int = if step < offsets.len() {
            current + offsets[step as int]
        } else {
            current as int
        };
        WalkState {
            current,
            step,
            outcome: Some(
                if end <= usize::MAX {
                    Ok(end as usize)
                } else {
                    Err(ChainError::AddressOverflow { step })
                },
            ),
        }
    } else {
        WalkState { current, step, outcome: None }
    }
}

/// The state of a fresh walk.
pub open spec fn start_state(base: usize, offsets: Seq<usize>) -> WalkState {
    settle(base, 0, offsets)
}

/// The state after the read at `s.current` returned `read`.
pub open spec fn advance(
    s: WalkState,
    offsets: Seq<usize>,
    read: Result<u32, MemoryError>,
) -> WalkState {
    match read {
        Err(error) => WalkState {
            outcome: Some(Err(ChainError::ReadFailed { step: s.step, error })),
            ..s
        },
        Ok(v) => if v == 0 {
            WalkState { outcome: Some(Err(ChainError::NullPointerInChain { step: s.step })), ..s }
        } else if !pointer_in_range(v) {
            WalkState {
                outcome: Some(Err(ChainError::InvalidPointerInChain { step: s.step, value: v })),
                ..s
            }
        } else if v + offsets[s.step as int] > usize::MAX {
            WalkState { outcome: Some(Err(ChainError::AddressOverflow { step: s.step })), ..s }
        } else {
            settle((v + offsets[s.step as int]) as usize, (s.step + 1) as usize, offsets)
        },
    }
}

/// The state of the walk from `base` along `offsets` once the reads have
/// returned `reads`, in order. Reads past the end of the walk change nothing.
pub open spec fn replay(
    base: usize,
    offsets: Seq<usize>,
    reads: Seq<Result<u32, MemoryError>>,
) -> WalkState
    decreases reads.len(),
{
    if reads.len() == 0 {
        start_state(base, offsets)
    } else {
        let s = replay(base, offsets, reads.drop_last());
        if s.outcome is Some {
            s
        } else {
            advance(s, offsets, reads.last())
        }
    }
}

/// The outcome of resolving the chain when the reads return `reads`; `None`
/// while a read is still owed.
pub open spec fn resolved(
    base: usize,
    offsets: Seq<usize>,
    reads: Seq<Result<u32, MemoryError>>,
) -> Option<Result<usize, ChainError>> {
    replay(base, offsets, reads).outcome
}

/// The address that the read after `reads` goes to.
pub open spec fn next_read_address(
    base: usize,
    offsets: Seq<usize>,
    reads: Seq<Result<u32, MemoryError>>,
) -> usize {
    replay(base, offsets, reads).current
}

/// Whether each of the first `n` reads returned a pointer that the walk
/// follows: non-zero, in range, and with room for its offset.
pub open spec fn follows(offsets: Seq<usize>, reads: Seq<Result<u32, MemoryError>>, n: int) -> bool {
    forall|k: int|
        0 <= k < n ==> {
            &&& #[trigger] reads[k] is Ok
            &&& reads[k]->Ok_0 != 0
            &&& pointer_in_range(reads[k]->Ok_0)
            &&& reads[k]->Ok_0 + offsets[k] <= usize::MAX
        }
}

/// A chain of a single offset is resolved without any read: its outcome is the
/// base plus that offset, whatever the reads would return.
pub proof fn lemma_single_offset_needs_no_read(
    base: usize,
    offset: usize,
    reads: Seq<Result<u32, MemoryError>>,
)
    requires
        base + offset <= usize::MAX,
    ensures
        resolved(base, seq![offset], reads) == Some(Ok::<usize, ChainError>((base + offset) as usize)),
    decreases reads.len(),
{
    if reads.len() > 0 {
        lemma_single_offset_needs_no_read(base, offset, reads.drop_last());
    }
}

/// While every read so far was followed and offsets other than the last
/// remain, the walk is still going and waits at the next step.
pub proof fn lemma_walk_reaches_step(
    base: usize,
    offsets: Seq<usize>,
    reads: Seq<Result<u32, MemoryError>>,
    k: int,
)
    requires
        0 <= k <= reads.len(),
        k + 1 < offsets.len() <= usize::MAX,
        follows(offsets, reads, k),
    ensures
        replay(base, offsets, reads.take(k)).outcome is None,
        replay(base, offsets, reads.take(k)).step == k,
    decreases k,
{
    if k > 0 {
        lemma_walk_reaches_step(base, offsets, reads, k - 1);
        assert(reads.take(k).drop_last() =~= reads.take(k - 1));
        assert(reads.take(k).last() == reads[k - 1]);
    }
}

/// When the read at step `i` returns zero, the chain fails there with
/// `NullPointerInChain`; when it returns a non-zero value outside the accepted
/// range, with `InvalidPointerInChain` and that value. The reads before it
/// returned pointers that the walk follows, and `i` is not the last offset.
pub proof fn lemma_bad_pointer_stops_walk(
    base: usize,
    offsets: Seq<usize>,
    reads: Seq<Result<u32, MemoryError>>,
    i: int,
)
    requires
        0 <= i,
        i + 1 < offsets.len() <= usize::MAX,
        reads.len() == i + 1,
        follows(offsets, reads, i),
    ensures
        reads[i] == Ok::<u32, MemoryError>(0) ==> resolved(base, offsets, reads) == Some(
            Err::<usize, ChainError>(ChainError::NullPointerInChain { step: i as usize }),
        ),
        forall|v: u32|
            v != 0 && !pointer_in_range(v) && reads[i] == Ok::<u32, MemoryError>(v) ==> resolved(
                base,
                offsets,
                reads,
            ) == Some(
                Err::<usize, ChainError>(
                    ChainError::InvalidPointerInChain { step: i as usize, value: v },
                ),
            ),
{
    lemma_walk_reaches_step(base, offsets, reads, i);
    assert(reads.drop_last() =~= reads.take(i));
}

/// A pointer chain being resolved.
pub struct ChainWalk {
    offsets: Vec<usize>,
    state: WalkState,
    base: Ghost<usize>,
    reads: Ghost<Seq<Result<u32, MemoryError>>>,
}

impl ChainWalk {
    /// The address the walk starts from.
    pub closed spec fn base(&self) -> usize {
        self.base@
    }

    pub closed spec fn offsets(&self) -> Seq<usize> {
        self.offsets@
    }

    /// What the reads of this walk have returned so far, in order.
    pub closed spec fn reads(&self) -> Seq<Result<u32, MemoryError>> {
        self.reads@
    }

    pub closed spec fn state(&self) -> WalkState {
        self.state
    }

    pub closed spec fn wf(&self) -> bool {
        &&& self.state == replay(self.base@, self.offsets@, self.reads@)
        &&& self.state.outcome is None ==> self.state.step + 1 < self.offsets@.len()
        &&& self.offsets@.len() <= usize::MAX
    }

    /// A walk's offsets are those of a vector, so their count fits in `usize`.
    pub proof fn lemma_offsets_fit(&self)
        requires
            self.wf(),
        ensures
            self.offsets().len() <= usize::MAX,
    {
    }

    pub fn new(base_address: usize, offsets: Vec<usize>) -> (r: ChainWalk)
        ensures
            r.wf(),
            r.base() == base_address,
            r.offsets() == offsets@,
            r.offsets().len() <= usize::MAX,
            r.reads() == Seq::<Result<u32, MemoryError>>::empty(),
            r.state() == start_state(base_address, offsets@),
    {
        let count = offsets.len();
        assert(offsets@.len() == count);
        let state = Self::settle_exec(base_address, 0, &offsets);
        ChainWalk { offsets, state, base: Ghost(base_address), reads: Ghost(Seq::empty()) }
    }

    fn settle_exec(current: usize, step: usize, offsets: &Vec<usize>) -> (r: WalkState)
        requires
            step <= offsets@.len(),
        ensures
            r == settle(current, step, offsets@),
    {
        if offsets.len() - step <= 1 {
            let outcome = if step < offsets.len() {
                match current.checked_add(offsets[step]) {
                    Some(end) => Ok(end),
                    None => Err(ChainError::AddressOverflow { step }),
                }
            } else {
                Ok(current)
            };
            WalkState { current, step, outcome: Some(outcome) }
        } else {
            WalkState { current, step, outcome: None }
        }
    }

    /// The read the walk waits for, or its outcome.
    pub fn next_action(&self) -> (r: ChainAction)
        requires
            self.wf(),
        ensures
            match resolved(self.base(), self.offsets(), self.reads()) {
                Some(outcome) => r == ChainAction::Done(outcome),
                None => r == (ChainAction::Read {
                    address: next_read_address(self.base(), self.offsets(), self.reads()),
                }),
            },
    {
        match self.state.outcome {
            Some(outcome) => ChainAction::Done(outcome),
            None => ChainAction::Read { address: self.state.current },
        }
    }

    /// Takes what the read at `next_action`'s address returned.
    pub fn feed(&mut self, read: Result<u32, MemoryError>)
        requires
            old(self).wf(),
            resolved(old(self).base(), old(self).offsets(), old(self).reads()) is None,
        ensures
            final(self).wf(),
            final(self).base() == old(self).base(),
            final(self).offsets() == old(self).offsets(),
            final(self).reads() == old(self).reads().push(read),
            final(self).state() == advance(old(self).state(), old(self).offsets(), read),
    {
        let ghost new_reads = self.reads@.push(read);
        assert(new_reads.drop_last() =~= self.reads@);
        let s = self.state;
        let n = self.offsets.len();
        assert(s.step + 1 < n);
        let next = match read {
            Err(error) => WalkState {
                outcome: Some(Err(ChainError::ReadFailed { step: s.step, error })),
                ..s
            },
            Ok(v) => if v == 0 {
                WalkState { outcome: Some(Err(ChainError::NullPointerInChain { step: s.step })), ..s }
            } else if v < MIN_POINTER || v > MAX_POINTER {
                WalkState {
                    outcome: Some(Err(ChainError::InvalidPointerInChain { step: s.step, value: v })),
                    ..s
                }
            } else {
                match (v as usize).checked_add(self.offsets[s.step]) {
                    Some(addr) => Self::settle_exec(addr, s.step + 1, &self.offsets),
                    None => WalkState {
                        outcome: Some(Err(ChainError::AddressOverflow { step: s.step })),
                        ..s
                    },
                }
            },
        };
        self.state = next;
        self.reads = Ghost(new_reads);
    }
}

} // verus!
