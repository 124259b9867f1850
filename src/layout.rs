//! Where the camera and the camera-write instruction live in the target:
//! the game-specific offsets as data, and the address arithmetic around them.
use vstd::prelude::*;

verus! {

/// Offset of the camera pointer chain's start from the module base.
pub const CAMERA_BASE_OFFSET: usize = 0x004E_1E78;

/// Offset of the camera's x position in the camera structure.
pub const X_FIELD: usize = 0x324;

/// Offset of the camera's y position.
pub const Y_FIELD: usize = 0x328;

/// Offset of the camera's z position.
pub const Z_FIELD: usize = 0x32C;

/// Offset of the camera's 4x4 transform; its position row sits at the three
/// fields above.
pub const MATRIX_FIELD: usize = 0x2F4;

/// Number of elements of the transform.
pub const MATRIX_ELEMENTS: usize = 16;

/// Size of one transform element in bytes.
pub const ELEMENT_SIZE: usize = 4;

/// Offset of the instruction that copies the game's camera over ours, from
/// the start of the code section.
pub const INSTRUCTION_OFFSET: usize = 0x0016_B2E4;

/// Usual offset of the code section from the module base.
pub const TEXT_SECTION_OFFSET: usize = 0x1000;

/// Length of that instruction (`rep movsd`).
pub const PATCH_LENGTH: usize = 2;

/// First byte of the instruction.
pub const SIGNATURE_0: u8 = 0xF3;

/// Second byte of the instruction.
pub const SIGNATURE_1: u8 = 0xA5;

/// The offsets from the chain start to the camera structure, each followed by
/// a dereference.
pub open spec fn outer_offsets() -> Seq<usize> {
    seq![0x34C, 0x8, 0x4, 0x8C, 0x0]
}

/// The chain to the camera field at `terminal`.
pub open spec fn field_chain_spec(terminal: usize) -> Seq<usize> {
    outer_offsets().push(terminal)
}

/// The offsets of the camera chain up to the field at `terminal`.
pub fn field_chain(terminal: usize) -> (r: Vec<usize>)
    ensures
        r@ == field_chain_spec(terminal),
{
    let r = vec![0x34C, 0x8, 0x4, 0x8C, 0x0, terminal];
    assert(r@ =~= field_chain_spec(terminal));
    r
}

/// Where the camera chain starts in a module loaded at `module_base`; `None`
/// when that lies past the end of the address space.
pub fn chain_base(module_base: usize) -> (r: Option<usize>)
    ensures
        module_base + CAMERA_BASE_OFFSET <= usize::MAX ==> r == Some(
            (module_base + CAMERA_BASE_OFFSET) as usize,
        ),
        module_base + CAMERA_BASE_OFFSET > usize::MAX ==> r is None,
{
    module_base.checked_add(CAMERA_BASE_OFFSET)
}

/// The address of element `index` of a transform stored at `matrix_address`;
/// `None` when that lies past the end of the address space.
pub fn element_address(matrix_address: usize, index: usize) -> (r: Option<usize>)
    requires
        index < MATRIX_ELEMENTS,
    ensures
        matrix_address + ELEMENT_SIZE * index <= usize::MAX ==> r == Some(
            (matrix_address + ELEMENT_SIZE * index) as usize,
        ),
        matrix_address + ELEMENT_SIZE * index > usize::MAX ==> r is None,
{
    matrix_address.checked_add(ELEMENT_SIZE * index)
}

/// Where the camera-write instruction may be in a module loaded at `base`,
/// under three assumptions on where the code section starts: at the base, one
/// section offset past it, one section offset before it.
pub open spec fn patch_candidates_spec(base: usize) -> Seq<usize> {
    let direct = (base + INSTRUCTION_OFFSET) as usize;
    let past_section = (base + TEXT_SECTION_OFFSET + INSTRUCTION_OFFSET) as usize;
    let before_section = (base + INSTRUCTION_OFFSET - TEXT_SECTION_OFFSET) as usize;
    seq![direct, past_section, before_section]
}

pub fn patch_candidates(base: usize) -> (r: Vec<usize>)
    requires
        base + TEXT_SECTION_OFFSET + INSTRUCTION_OFFSET <= usize::MAX,
    ensures
        r@ == patch_candidates_spec(base),
{
    let direct = base + INSTRUCTION_OFFSET;
    let past_section = base + TEXT_SECTION_OFFSET + INSTRUCTION_OFFSET;
    let before_section = base + INSTRUCTION_OFFSET - TEXT_SECTION_OFFSET;
    let r = vec![direct, past_section, before_section];
    assert(r@ =~= patch_candidates_spec(base));
    r
}

/// Whether bytes probed at a candidate hold the instruction.
pub open spec fn is_signature(probe: Option<Seq<u8>>) -> bool {
    probe == Some(seq![SIGNATURE_0, SIGNATURE_1])
}

/// The index of the first probe that holds the instruction, if one does.
pub open spec fn first_match(probes: Seq<Option<Seq<u8>>>) -> Option<int>
    decreases probes.len(),
{
    if probes.len() == 0 {
        None
    } else if is_signature(probes[0]) {
        Some(0)
    } else {
        match first_match(probes.drop_first()) {
            Some(i) => Some(i + 1),
            None => None,
        }
    }
}

/// The views of what was probed at each candidate.
pub open spec fn probe_views(probes: Seq<Option<Vec<u8>>>) -> Seq<Option<Seq<u8>>> {
    probes.map_values(
        |p: Option<Vec<u8>>|
            match p {
                Some(b) => Some(b@),
                None => None,
            },
    )
}

fn probe_matches(probe: &Option<Vec<u8>>) -> (r: bool)
    ensures
        r == is_signature(
            match probe {
                Some(b) => Some(b@),
                None => None,
            },
        ),
{
    match probe {
        Some(b) => {
            let r = b.len() == 2 && b[0] == SIGNATURE_0 && b[1] == SIGNATURE_1;
            if r {
                assert(b@ =~= seq![SIGNATURE_0, SIGNATURE_1]);
            }
            r
        },
        None => false,
    }
}

/// Picks the patch site among `candidates`: the first whose probe (the two
/// bytes read there, `None` where the read failed) is the instruction, else
/// the first candidate.
pub fn choose_patch_address(candidates: &Vec<usize>, probes: &Vec<Option<Vec<u8>>>) -> (r: usize)
    requires
        candidates@.len() > 0,
        probes@.len() == candidates@.len(),
    ensures
        match first_match(probe_views(probes@)) {
            Some(i) => r == candidates@[i],
            None => r == candidates@[0],
        },
{
    let ghost views = probe_views(probes@);
    assert(views.subrange(0, views.len() as int) =~= views);
    let mut i: usize = 0;
    while i < probes.len()
        invariant
            i <= probes@.len(),
            probes@.len() == candidates@.len(),
            views == probe_views(probes@),
            first_match(views) == match first_match(views.subrange(i as int, views.len() as int)) {
                Some(j) => Some(j + i),
                None => None::<int>,
            },
        decreases probes@.len() - i,
    {
        assert(views.subrange(i as int, views.len() as int).drop_first() =~= views.subrange(
            i + 1,
            views.len() as int,
        ));
        if probe_matches(&probes[i]) {
            return candidates[i];
        }
        i += 1;
    }
    assert(views.subrange(i as int, views.len() as int).len() == 0);
    candidates[0]
}

} // verus!
