//! What SPIR-V modules declare, read off modules that are put together.

use crate::ir::shader::{EntryPointView, ShaderStage, ENTRY_POINT_OPCODE};
use vstd::prelude::*;

verus! {

/// The execution model of a stage.
pub open spec fn model_of(stage: ShaderStage) -> u32 {
    match stage {
        ShaderStage::Vertex => 0,
        ShaderStage::Fragment => 4,
        ShaderStage::Compute => 5,
    }
}

/// A byte of a name, or zero past its end.
pub open spec fn byte_or_zero(name: Seq<u8>, k: int) -> int {
    if 0 <= k < name.len() {
        name[k] as int
    } else {
        0
    }
}

/// One word of a name: four bytes, the first one least significant, zero past the end.
pub open spec fn name_word(name: Seq<u8>, w: int) -> u32 {
    (byte_or_zero(name, 4 * w) + 0x100 * byte_or_zero(name, 4 * w + 1) + 0x1_0000 * byte_or_zero(
        name,
        4 * w + 2,
    ) + 0x100_0000 * byte_or_zero(name, 4 * w + 3)) as u32
}

/// The words of a name, with at least one zero byte after it.
pub open spec fn name_words(name: Seq<u8>) -> Seq<u32> {
    Seq::new(name.len() / 4 + 1, |w: int| name_word(name, w))
}

/// The declaration of an entry point: its stage, its function, its name and the variables
/// that it uses.
pub open spec fn declaration(stage: ShaderStage, id: u32, name: Seq<u8>, variables: Seq<u32>)
    -> Seq<u32> {
    let rest = name_words(name) + variables;
    let first = (0x1_0000 * (3 + rest.len()) + 15) as u32;
    seq![first, model_of(stage), id] + rest
}

proof fn lemma_name_byte(instruction: Seq<u32>, name: Seq<u8>, k: int)
    requires
        0 <= k < 4 * (name.len() / 4 + 1),
        instruction.len() >= 3 + name.len() / 4 + 1,
        instruction[3 + k / 4] == name_word(name, k / 4),
    ensures
        crate::ir::shader::name_byte(instruction, k) == byte_or_zero(name, k),
{
    let w = k / 4;
    let a = byte_or_zero(name, 4 * w);
    let b = byte_or_zero(name, 4 * w + 1);
    let c = byte_or_zero(name, 4 * w + 2);
    let d = byte_or_zero(name, 4 * w + 3);
    let word = a + 0x100 * b + 0x1_0000 * c + 0x100_0000 * d;
    assert(name_word(name, w) == word);
    let r = k % 4;
    assert(k == 4 * w + r);
    if r == 0 {
        assert((word / 1) % 0x100 == a);
    } else if r == 1 {
        assert((word / 0x100) % 0x100 == b);
    } else if r == 2 {
        assert((word / 0x1_0000) % 0x100 == c);
    } else {
        assert((word / 0x100_0000) % 0x100 == d);
    }
}

/// A declaration that is put together from a stage, a name and identifiers below the bound
/// is read as that stage and that name.
pub proof fn law_declarations_read_back(
    stage: ShaderStage,
    id: u32,
    name: Seq<u8>,
    variables: Seq<u32>,
    bound: u32,
)
    requires
        0 < id < bound,
        name.len() > 0,
        forall|k: int| 0 <= k < name.len() ==> #[trigger] name[k] != 0,
        vstd::utf8::valid_utf8(name),
        forall|i: int| 0 <= i < variables.len() ==> 0 < #[trigger] variables[i] < bound,
        declaration(stage, id, name, variables).len() < 0x1_0000,
    ensures
        crate::ir::shader::instruction_length(declaration(stage, id, name, variables)[0])
            == declaration(stage, id, name, variables).len(),
        crate::ir::shader::instruction_opcode(declaration(stage, id, name, variables)[0])
            == ENTRY_POINT_OPCODE,
        crate::ir::shader::declared_entry_point(declaration(stage, id, name, variables), bound)
            == Some(EntryPointView { stage, name: vstd::utf8::decode_utf8(name) }),
{
    let instruction = declaration(stage, id, name, variables);
    let length = name.len() as int;
    lemma_declaration_words(stage, id, name, variables);
    lemma_declared_name(instruction, name);
    assert forall|i: int| 4 + length / 4 <= i < instruction.len() implies
        crate::ir::shader::identifier_valid(#[trigger] instruction[i], bound) by {
        assert(instruction[i] == variables[i - (4 + length / 4)]);
    }
    assert(crate::ir::shader::declaration_valid(instruction, bound, length));
    let found = choose|found: int|
        crate::ir::shader::declaration_valid(instruction, bound, found);
    lemma_one_end(instruction, length, found);
}

/// A name has one end.
proof fn lemma_one_end(instruction: Seq<u32>, left: int, right: int)
    requires
        crate::ir::shader::name_ends_at(instruction, left),
        crate::ir::shader::name_ends_at(instruction, right),
    ensures
        left == right,
{
    if right < left {
        assert(crate::ir::shader::name_byte(instruction, right) != 0);
    }
    if right > left {
        assert(crate::ir::shader::name_byte(instruction, left) != 0);
    }
}

/// The words of a declaration.
proof fn lemma_declaration_words(
    stage: ShaderStage,
    id: u32,
    name: Seq<u8>,
    variables: Seq<u32>,
)
    requires
        declaration(stage, id, name, variables).len() < 0x1_0000,
    ensures
        ({
            let instruction = declaration(stage, id, name, variables);
            &&& instruction.len() == 4 + name.len() / 4 + variables.len()
            &&& instruction[0] == 0x1_0000 * instruction.len() + 15
            &&& instruction[1] == model_of(stage)
            &&& instruction[2] == id
            &&& forall|w: int|
                0 <= w <= name.len() / 4 ==> (#[trigger] instruction[3 + w]) == name_word(name, w)
            &&& forall|i: int|
                4 + name.len() / 4 <= i < instruction.len() ==> (#[trigger] instruction[i])
                    == variables[i - (4 + name.len() / 4)]
        }),
{
    let instruction = declaration(stage, id, name, variables);
    let words = name_words(name);
    assert(instruction.len() == 3 + words.len() + variables.len());
    assert forall|w: int| 0 <= w <= name.len() / 4 implies (#[trigger] instruction[3 + w])
        == name_word(name, w) by {
        assert(instruction[3 + w] == words[w]);
    }
}

/// The name that is read from its words.
proof fn lemma_declared_name(instruction: Seq<u32>, name: Seq<u8>)
    requires
        instruction.len() >= 4 + name.len() / 4,
        forall|w: int|
            0 <= w <= name.len() / 4 ==> (#[trigger] instruction[3 + w]) == name_word(name, w),
        forall|k: int| 0 <= k < name.len() ==> #[trigger] name[k] != 0,
    ensures
        crate::ir::shader::name_bytes(instruction, name.len() as int) == name,
        crate::ir::shader::name_ends_at(instruction, name.len() as int),
        forall|k: int|
            name.len() <= k < 4 * (name.len() / 4 + 1) ==> #[trigger] crate::ir::shader::name_byte(
                instruction,
                k,
            ) == 0,
{
    let length = name.len() as int;
    assert forall|k: int| 0 <= k < 4 * (length / 4 + 1) implies #[trigger]
        crate::ir::shader::name_byte(instruction, k) == byte_or_zero(name, k) by {
        let w = k / 4;
        assert(0 <= w <= length / 4);
        assert(instruction[3 + w] == name_word(name, w));
        lemma_name_byte(instruction, name, k);
    }
    assert forall|k: int| 0 <= k < length implies #[trigger] crate::ir::shader::name_byte(
        instruction,
        k,
    ) == name[k] by {
        assert(k < 4 * (length / 4 + 1));
        assert(crate::ir::shader::name_byte(instruction, k) == byte_or_zero(name, k));
    }
    assert(crate::ir::shader::name_bytes(instruction, length) =~= name);
    assert(length < 4 * (length / 4 + 1));
    assert(crate::ir::shader::name_byte(instruction, length) == byte_or_zero(name, length));
}

/// The entry points of a module are those of its declarations, in order: a declaration in
/// front of other instructions adds its entry point in front of theirs, and any other
/// instruction adds none.
pub proof fn law_modules_declare_their_entry_points(
    before: Seq<u32>,
    instruction: Seq<u32>,
    after: Seq<u32>,
    bound: u32,
)
    requires
        instruction.len() > 0,
        crate::ir::shader::instruction_length(instruction[0]) == instruction.len(),
    ensures
        ({
            let words = before + instruction + after;
            let rest = crate::ir::shader::declared_entry_points(
                words,
                (before.len() + instruction.len()) as nat,
                bound,
            );
            let all = crate::ir::shader::declared_entry_points(words, before.len(), bound);
            if instruction[0] % 0x1_0000 == 15 {
                match crate::ir::shader::declared_entry_point(instruction, bound) {
                    Some(entry) => rest matches Some(entries) && all == Some(
                        seq![entry] + entries,
                    ) || rest is None && all is None,
                    None => all is None,
                }
            } else {
                all == rest
            }
        }),
        crate::ir::shader::declared_entry_points(
            before,
            before.len(),
            bound,
        ) == Some(Seq::<EntryPointView>::empty()),
{
    let words = before + instruction + after;
    assert(words[before.len() as int] == instruction[0]);
    assert(words.subrange(
        before.len() as int,
        (before.len() + instruction.len()) as int,
    ) =~= instruction);
}

} // verus!
