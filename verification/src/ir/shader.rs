//! Shader sources and their structural, backend-independent validation.

use crate::ir::types::Error;
use crate::memory::Memory;
use vstd::prelude::*;

verus! {

/// Maximum number of words in a portable SPIR-V module.
pub const MAX_SPIRV_WORDS: usize = 0x10_0000;

/// Maximum number of UTF-8 bytes in a portable WGSL module.
pub const MAX_WGSL_BYTES: usize = 0x40_0000;

/// A programmable pipeline stage supported by the portable IR.
#[derive(Debug, Clone, Copy, PartialEq, Eq, Structural)]
pub enum ShaderStage {
    /// Per-vertex graphics processing.
    Vertex,
    /// Per-fragment graphics processing.
    Fragment,
    /// Compute workgroup processing.
    Compute,
}

/// Shader stages allowed to access a resource binding.
#[derive(Debug, Clone, Copy, PartialEq, Eq, Structural)]
pub struct ShaderStages {
    bits: u8,
}

impl View for ShaderStages {
    type V = u8;

    closed spec fn view(&self) -> u8 {
        self.bits
    }
}

impl ShaderStages {
    /// Bit of the flag that allows access from vertex shaders.
    pub const VERTEX_BIT: u8 = 1;

    /// Bit of the flag that allows access from fragment shaders.
    pub const FRAGMENT_BIT: u8 = 2;

    /// Bit of the flag that allows access from compute shaders.
    pub const COMPUTE_BIT: u8 = 4;

    /// Whether every flag in `mask` is present.
    pub open spec fn allows(self, mask: u8) -> bool {
        self@ & mask == mask
    }

    /// The set with the flags of both operands.
    pub closed spec fn spec_union(self, other: Self) -> Self {
        Self { bits: self.bits | other.bits }
    }

    /// Return the flag that allows access from vertex shaders.
    pub fn vertex() -> (r: Self)
        ensures
            r@ == Self::VERTEX_BIT,
    {
        Self { bits: Self::VERTEX_BIT }
    }

    /// Return the flag that allows access from fragment shaders.
    pub fn fragment() -> (r: Self)
        ensures
            r@ == Self::FRAGMENT_BIT,
    {
        Self { bits: Self::FRAGMENT_BIT }
    }

    /// Return the flag that allows access from compute shaders.
    pub fn compute() -> (r: Self)
        ensures
            r@ == Self::COMPUTE_BIT,
    {
        Self { bits: Self::COMPUTE_BIT }
    }

    /// Return the empty set.
    pub fn empty() -> (r: Self)
        ensures
            r@ == 0,
    {
        Self { bits: 0 }
    }

    /// Return whether no flag is present.
    pub fn is_empty(self) -> (r: bool)
        ensures
            r == (self@ == 0),
    {
        self.bits == 0
    }

    /// Return the flags as bits.
    pub fn bits(self) -> (r: u8)
        ensures
            r == self@,
    {
        self.bits
    }

    /// Return whether all flags in `other` are present.
    pub fn contains(self, other: Self) -> (r: bool)
        ensures
            r == self.allows(other@),
    {
        self.bits & other.bits == other.bits
    }

    /// Return the union of this set and `other`.
    pub fn union(self, other: Self) -> (r: Self)
        ensures
            r == self.spec_union(other),
            r@ == self@ | other@,
    {
        Self { bits: self.bits | other.bits }
    }
}

impl core::ops::BitOr for ShaderStages {
    type Output = Self;

    fn bitor(self, rhs: Self) -> Self {
        self.union(rhs)
    }
}

impl core::ops::BitOrAssign for ShaderStages {
    fn bitor_assign(&mut self, rhs: Self)
        ensures
            *final(self) == old(self).spec_union(rhs),
    {
        *self = self.union(rhs);
    }
}

impl vstd::std_specs::ops::BitOrSpecImpl for ShaderStages {
    open spec fn obeys_bitor_spec() -> bool {
        true
    }

    open spec fn bitor_req(self, rhs: Self) -> bool {
        true
    }

    open spec fn bitor_spec(self, rhs: Self) -> Self {
        self.spec_union(rhs)
    }
}

impl ShaderStages {
    /// The set that holds one stage.
    pub closed spec fn spec_of_stage(stage: ShaderStage) -> Self {
        match stage {
            ShaderStage::Vertex => Self { bits: 1 },
            ShaderStage::Fragment => Self { bits: 2 },
            ShaderStage::Compute => Self { bits: 4 },
        }
    }

    /// The bit of one stage.
    pub open spec fn stage_bit(stage: ShaderStage) -> u8 {
        match stage {
            ShaderStage::Vertex => Self::VERTEX_BIT,
            ShaderStage::Fragment => Self::FRAGMENT_BIT,
            ShaderStage::Compute => Self::COMPUTE_BIT,
        }
    }

    /// Return the set that holds one stage.
    pub fn of_stage(stage: ShaderStage) -> (r: Self)
        ensures
            r == Self::spec_of_stage(stage),
            r@ == Self::stage_bit(stage),
    {
        match stage {
            ShaderStage::Vertex => Self::vertex(),
            ShaderStage::Fragment => Self::fragment(),
            ShaderStage::Compute => Self::compute(),
        }
    }
}

impl From<ShaderStage> for ShaderStages {
    fn from(stage: ShaderStage) -> Self {
        Self::of_stage(stage)
    }
}

impl vstd::std_specs::convert::FromSpecImpl<ShaderStage> for ShaderStages {
    open spec fn obeys_from_spec() -> bool {
        true
    }

    open spec fn from_spec(stage: ShaderStage) -> Self {
        Self::spec_of_stage(stage)
    }
}

/// The contents of a shader source.
#[verifier::ext_equal]
pub enum ShaderSourceView {
    SpirV(Seq<u32>),
    Wgsl(Seq<char>),
}

/// Owned shader source submitted to a backend compiler and validator.
#[derive(Debug, PartialEq, Eq)]
pub enum ShaderSource {
    /// SPIR-V represented as decoded words, independent of host byte order.
    SpirV(Vec<u32>),
    /// UTF-8 WGSL source text.
    Wgsl(String),
}

impl View for ShaderSource {
    type V = ShaderSourceView;

    open spec fn view(&self) -> ShaderSourceView {
        match self {
            ShaderSource::SpirV(words) => ShaderSourceView::SpirV(words@),
            ShaderSource::Wgsl(text) => ShaderSourceView::Wgsl(text@),
        }
    }
}

impl Clone for ShaderSource {
    fn clone(&self) -> (r: Self)
        ensures
            r@ == self@,
    {
        match self {
            ShaderSource::SpirV(words) => {
                ShaderSource::SpirV(vstd::slice::slice_to_vec(words.as_slice()))
            },
            ShaderSource::Wgsl(text) => ShaderSource::Wgsl(text.clone()),
        }
    }
}

/// Stage and name of an entry point.
#[verifier::ext_equal]
pub struct EntryPointView {
    pub stage: ShaderStage,
    pub name: Seq<char>,
}

#[derive(Debug, PartialEq, Eq)]
struct DeclaredEntryPoint {
    stage: ShaderStage,
    name: String,
}

impl DeclaredEntryPoint {
    spec fn view(&self) -> EntryPointView {
        EntryPointView { stage: self.stage, name: self.name@ }
    }
}

spec fn entry_point_views(entries: Seq<DeclaredEntryPoint>) -> Seq<EntryPointView> {
    Seq::new(entries.len(), |i: int| entries[i].view())
}

/// Whether a module starts with a header of SPIR-V 1.0 through 1.6, a non-zero
/// identifier bound of at most 22 bits, and schema zero.
pub open spec fn spirv_header_valid(words: Seq<u32>) -> bool {
    &&& words.len() >= 5
    &&& words[0] == 0x0723_0203
    &&& 0x1_0000 <= words[1] <= 0x1_0600
    &&& words[1] % 0x100 == 0
    &&& 1 <= words[3] <= 0x3f_ffff
    &&& words[4] == 0
}

/// Words of the instruction whose first word is given.
pub open spec fn instruction_length(first: u32) -> nat {
    (first / 0x1_0000) as nat
}

/// Operation of the instruction whose first word is given.
pub open spec fn instruction_opcode(first: u32) -> u32 {
    first % 0x1_0000
}

/// Operation code of an entry-point declaration.
pub const ENTRY_POINT_OPCODE: u32 = 15;

/// Stage that an execution model selects, where it is a portable one.
pub open spec fn execution_model_stage(model: u32) -> Option<ShaderStage> {
    if model == 0 {
        Some(ShaderStage::Vertex)
    } else if model == 4 {
        Some(ShaderStage::Fragment)
    } else if model == 5 {
        Some(ShaderStage::Compute)
    } else {
        None
    }
}

/// Two to the power of eight times `byte`, for a byte position within a word.
pub open spec fn byte_weight(byte: int) -> u32 {
    if byte == 0 {
        1
    } else if byte == 1 {
        0x100
    } else if byte == 2 {
        0x1_0000
    } else {
        0x100_0000
    }
}

/// Byte `k` of the name that starts at the fourth word of a declaration, with
/// the least significant byte of each word first.
pub open spec fn name_byte(instruction: Seq<u32>, k: int) -> u8 {
    ((instruction[3 + k / 4] / byte_weight(k % 4)) % 0x100) as u8
}

/// The first `count` name bytes.
pub open spec fn name_bytes(instruction: Seq<u32>, count: int) -> Seq<u8> {
    Seq::new(count as nat, |k: int| name_byte(instruction, k))
}

/// Whether the name has `length` bytes: the byte after them is the first zero.
pub open spec fn name_ends_at(instruction: Seq<u32>, length: int) -> bool {
    &&& 0 <= length < 4 * (instruction.len() - 3)
    &&& name_byte(instruction, length) == 0
    &&& forall|k: int| 0 <= k < length ==> #[trigger] name_byte(instruction, k) != 0
}

/// Whether an identifier is below the bound and not zero.
pub open spec fn identifier_valid(id: u32, bound: u32) -> bool {
    0 < id < bound
}

/// Whether an entry-point declaration with a name of `length` bytes is well formed.
pub open spec fn declaration_valid(instruction: Seq<u32>, bound: u32, length: int) -> bool {
    &&& instruction.len() >= 4
    &&& identifier_valid(instruction[2], bound)
    &&& execution_model_stage(instruction[1]) is Some
    &&& name_ends_at(instruction, length)
    &&& length > 0
    &&& forall|k: int|
        length <= k < 4 * (length / 4 + 1) ==> #[trigger] name_byte(instruction, k) == 0
    &&& forall|i: int|
        4 + length / 4 <= i < instruction.len() ==> identifier_valid(
            #[trigger] instruction[i],
            bound,
        )
    &&& vstd::utf8::valid_utf8(name_bytes(instruction, length))
}

/// The entry point that a declaration declares, if it is well formed.
pub open spec fn declared_entry_point(instruction: Seq<u32>, bound: u32) -> Option<
    EntryPointView,
> {
    if exists|length: int| declaration_valid(instruction, bound, length) {
        let length = choose|length: int| declaration_valid(instruction, bound, length);
        Some(
            EntryPointView {
                stage: execution_model_stage(instruction[1]).unwrap(),
                name: vstd::utf8::decode_utf8(name_bytes(instruction, length)),
            },
        )
    } else {
        None
    }
}

/// The entry points declared by the instructions from a word on, in order, if
/// the instructions divide the rest of the module and every declaration is
/// well formed.
pub open spec fn declared_entry_points(words: Seq<u32>, offset: nat, bound: u32) -> Option<
    Seq<EntryPointView>,
>
    decreases words.len() - offset,
{
    if offset >= words.len() {
        Some(Seq::empty())
    } else {
        let length = instruction_length(words[offset as int]);
        if length == 0 || offset + length > words.len() {
            None
        } else {
            let rest = declared_entry_points(words, offset + length, bound);
            if instruction_opcode(words[offset as int]) == ENTRY_POINT_OPCODE {
                let entry = declared_entry_point(
                    words.subrange(offset as int, (offset + length) as int),
                    bound,
                );
                match (entry, rest) {
                    (Some(entry), Some(rest)) => Some(seq![entry] + rest),
                    _ => None,
                }
            } else {
                rest
            }
        }
    }
}

/// Whether the stage, the identifier and the length of a declaration pass, so that
/// its name is read.
pub open spec fn declaration_read(instruction: Seq<u32>, bound: u32) -> bool {
    &&& instruction.len() >= 4
    &&& identifier_valid(instruction[2], bound)
    &&& execution_model_stage(instruction[1]) is Some
}

/// Whether well-formed instructions from a word on lead to an entry-point
/// declaration, and the name of the first one is read.
pub open spec fn reaches_declaration(words: Seq<u32>, offset: nat, bound: u32) -> bool
    decreases words.len() - offset,
{
    if offset >= words.len() {
        false
    } else {
        let length = instruction_length(words[offset as int]);
        if length == 0 || offset + length > words.len() {
            false
        } else if instruction_opcode(words[offset as int]) == ENTRY_POINT_OPCODE {
            declaration_read(words.subrange(offset as int, (offset + length) as int), bound)
        } else {
            reaches_declaration(words, offset + length, bound)
        }
    }
}

/// The entry point that a declaration declares, or why there is none, where room for
/// it is granted or refused.
pub open spec fn parsed(instruction: Seq<u32>, bound: u32, granted: bool) -> Result<
    EntryPointView,
    Error,
> {
    if !declaration_read(instruction, bound) {
        Err(Error::InvalidDescriptor)
    } else if !granted {
        Err(Error::OutOfMemory)
    } else {
        match declared_entry_point(instruction, bound) {
            Some(entry) => Ok(entry),
            None => Err(Error::InvalidDescriptor),
        }
    }
}

/// The entry points that the instructions from a word on declare, or why the first
/// of them fails, where room for the declaration at each word is granted or refused
/// as listed.
pub open spec fn scanned(words: Seq<u32>, offset: nat, bound: u32, answers: Seq<bool>) -> Result<
    Seq<EntryPointView>,
    Error,
>
    decreases words.len() - offset,
{
    if offset >= words.len() {
        Ok(Seq::empty())
    } else {
        let length = instruction_length(words[offset as int]);
        if length == 0 || offset + length > words.len() {
            Err(Error::InvalidDescriptor)
        } else if instruction_opcode(words[offset as int]) == ENTRY_POINT_OPCODE {
            match parsed(
                words.subrange(offset as int, (offset + length) as int),
                bound,
                answers[offset as int],
            ) {
                Err(error) => Err(error),
                Ok(entry) => prepended(
                    seq![entry],
                    scanned(words, offset + length, bound, answers),
                ),
            }
        } else {
            scanned(words, offset + length, bound, answers)
        }
    }
}

/// Entry points before those of a scan.
pub open spec fn prepended(
    entries: Seq<EntryPointView>,
    rest: Result<Seq<EntryPointView>, Error>,
) -> Result<Seq<EntryPointView>, Error> {
    match rest {
        Err(error) => Err(error),
        Ok(rest) => Ok(entries + rest),
    }
}

/// The module that words hold, or why they hold none, where room for the declaration
/// at each word is granted or refused as listed.
pub open spec fn spirv_answered(words: Seq<u32>, answers: Seq<bool>) -> Result<
    ShaderModuleView,
    Error,
> {
    if words.len() > MAX_SPIRV_WORDS {
        Err(Error::ResourceLimitExceeded)
    } else if !spirv_header_valid(words) {
        Err(Error::InvalidDescriptor)
    } else {
        match scanned(words, 5, words[3], answers) {
            Err(error) => Err(error),
            Ok(entry_points) => Ok(
                ShaderModuleView { source: ShaderSourceView::SpirV(words), entry_points },
            ),
        }
    }
}

/// Whether words may become a module or be refused, with some answers to the requests
/// for room.
pub open spec fn scans_to(
    words: Seq<u32>,
    memory: Memory,
    outcome: Result<ShaderModuleView, Error>,
) -> bool {
    exists|answers: Seq<bool>|
        answers.len() == words.len() && memory.may_answer(answers) && #[trigger] spirv_answered(
            words,
            answers,
        ) == outcome
}

/// Where room for every declaration is granted, a scan finds the declared entry
/// points, and fails exactly where an instruction or a declaration is malformed.
pub proof fn law_granted_scans_find_entry_points(
    words: Seq<u32>,
    offset: nat,
    bound: u32,
    answers: Seq<bool>,
)
    requires
        answers.len() == words.len(),
        forall|i: int| 0 <= i < answers.len() ==> #[trigger] answers[i],
    ensures
        scanned(words, offset, bound, answers) == (match declared_entry_points(
            words,
            offset,
            bound,
        ) {
            Some(entries) => Ok::<Seq<EntryPointView>, Error>(entries),
            None => Err(Error::InvalidDescriptor),
        }),
    decreases words.len() - offset,
{
    if offset < words.len() {
        let length = instruction_length(words[offset as int]);
        if length > 0 && offset + length <= words.len() {
            law_granted_scans_find_entry_points(words, offset + length, bound, answers);
            assert(answers[offset as int]);
            let instruction = words.subrange(offset as int, (offset + length) as int);
            if declared_entry_point(instruction, bound) is Some {
                let size = choose|size: int| declaration_valid(instruction, bound, size);
                assert(declaration_read(instruction, bound));
            }
        }
    }
}

/// A module without entry points has no declaration.
proof fn lemma_no_entry_points(words: Seq<u32>, offset: nat, bound: u32)
    requires
        declared_entry_points(words, offset, bound) == Some(Seq::<EntryPointView>::empty()),
    ensures
        !reaches_declaration(words, offset, bound),
    decreases words.len() - offset,
{
    if offset < words.len() {
        let length = instruction_length(words[offset as int]);
        if instruction_opcode(words[offset as int]) == ENTRY_POINT_OPCODE {
            let entry = declared_entry_point(
                words.subrange(offset as int, (offset + length) as int),
                bound,
            );
            let rest = declared_entry_points(words, offset + length, bound);
            assert((seq![entry->0] + rest->0).len() > 0);
        } else {
            lemma_no_entry_points(words, offset + length, bound);
        }
    }
}

/// Whether a character has the Unicode property `White_Space`.
pub open spec fn white_space(c: char) -> bool {
    let code = c as u32;
    ||| 0x9 <= code <= 0xd
    ||| code == 0x20
    ||| code == 0x85
    ||| code == 0xa0
    ||| code == 0x1680
    ||| 0x2000 <= code <= 0x200a
    ||| code == 0x2028
    ||| code == 0x2029
    ||| code == 0x202f
    ||| code == 0x205f
    ||| code == 0x3000
}

/// Whether text holds only white space.
pub open spec fn blank(text: Seq<char>) -> bool {
    forall|i: int| 0 <= i < text.len() ==> white_space(#[trigger] text[i])
}

/// The contents of a shader module.
#[verifier::ext_equal]
pub struct ShaderModuleView {
    pub source: ShaderSourceView,
    pub entry_points: Seq<EntryPointView>,
}

impl ShaderModuleView {
    /// Whether a stage and name can be used as an entry point.
    pub open spec fn has_entry_point(self, stage: ShaderStage, name: Seq<char>) -> bool {
        match self.source {
            ShaderSourceView::SpirV(_) => self.entry_points.contains(
                EntryPointView { stage, name },
            ),
            ShaderSourceView::Wgsl(_) => name.len() > 0 && !name.contains('\0'),
        }
    }
}

/// An immutable, structurally checked shader module descriptor.
///
/// SPIR-V validation here covers the header, instruction framing, and entry-point
/// metadata. WGSL receives only source-size and basic text checks. Backends must
/// parse and semantically validate the complete module before executing it;
/// successful construction does not establish shader validity or device support.
#[derive(Debug, PartialEq, Eq)]
pub struct ShaderModuleDesc {
    source: ShaderSource,
    entry_points: Vec<DeclaredEntryPoint>,
}

impl View for ShaderModuleDesc {
    type V = ShaderModuleView;

    closed spec fn view(&self) -> ShaderModuleView {
        ShaderModuleView {
            source: self.source@,
            entry_points: entry_point_views(self.entry_points@),
        }
    }
}

impl Clone for ShaderModuleDesc {
    fn clone(&self) -> (r: Self)
        ensures
            r@ == self@,
    {
        let mut entry_points: Vec<DeclaredEntryPoint> = Vec::new();
        let mut i: usize = 0;
        while i < self.entry_points.len()
            invariant
                i <= self.entry_points.len(),
                entry_points.len() == i,
                forall|k: int|
                    0 <= k < i ==> (#[trigger] entry_points@[k]).view()
                        == self.entry_points@[k].view(),
            decreases self.entry_points.len() - i,
        {
            let entry = &self.entry_points[i];
            entry_points.push(DeclaredEntryPoint { stage: entry.stage, name: entry.name.clone() });
            i = i + 1;
        }
        assert(entry_point_views(entry_points@) =~= entry_point_views(self.entry_points@));
        Self { source: self.source.clone(), entry_points }
    }
}

/// `String::from_utf8`: succeeds exactly on valid UTF-8, and then holds the
/// characters that the bytes encode.
#[verifier::external_body]
fn string_from_utf8(bytes: Vec<u8>) -> (r: Option<String>)
    ensures
        match r {
            Some(text) => vstd::utf8::valid_utf8(bytes@) && text@ == vstd::utf8::decode_utf8(
                bytes@,
            ),
            None => !vstd::utf8::valid_utf8(bytes@),
        },
{
    String::from_utf8(bytes).ok()
}

/// Return whether text holds only white space.
fn is_blank(text: &str) -> (r: bool)
    ensures
        r == blank(text@),
{
    for c in iter: text.chars()
        invariant
            iter.seq() == text@,
            forall|i: int| 0 <= i < iter.index() ==> white_space(#[trigger] text@[i]),
    {
        let code: u32 = c as u32;
        let white: bool = (0x9 <= code && code <= 0xd) || code == 0x20 || code == 0x85 || code
            == 0xa0 || code == 0x1680 || (0x2000 <= code && code <= 0x200a) || code == 0x2028
            || code == 0x2029 || code == 0x202f || code == 0x205f || code == 0x3000;
        if !white {
            assert(!white_space(text@[iter.index()]));
            return false;
        }
    }
    true
}

/// Return whether text holds a NUL character.
fn contains_nul(text: &str) -> (r: bool)
    ensures
        r == text@.contains('\0'),
{
    for c in iter: text.chars()
        invariant
            iter.seq() == text@,
            forall|i: int| 0 <= i < iter.index() ==> #[trigger] text@[i] != '\0',
    {
        if c == '\0' {
            assert(text@[iter.index()] == '\0');
            return true;
        }
    }
    false
}

/// The first zero byte of a name is unique.
proof fn lemma_name_end_unique(instruction: Seq<u32>, a: int, b: int)
    requires
        name_ends_at(instruction, a),
        name_ends_at(instruction, b),
    ensures
        a == b,
{
    if a < b {
        assert(name_byte(instruction, a) != 0);
    }
    if b < a {
        assert(name_byte(instruction, b) != 0);
    }
}

/// Return the bytes that the words of a name hold, which room is asked for.
fn name_capacity(instruction: &[u32]) -> (r: usize)
    requires
        3 <= instruction@.len() <= MAX_SPIRV_WORDS,
    ensures
        r == 4 * (instruction@.len() - 3),
{
    (instruction.len() - 3) * 4
}

spec fn entry_point_outcome(result: Result<DeclaredEntryPoint, Error>) -> Result<
    EntryPointView,
    Error,
> {
    match result {
        Ok(entry) => Ok(entry.view()),
        Err(error) => Err(error),
    }
}

/// Parse one entry-point declaration.
fn parse_entry_point(instruction: &[u32], bound: u32, memory: Memory) -> (r: Result<
    DeclaredEntryPoint,
    Error,
>)
    requires
        instruction@.len() <= MAX_SPIRV_WORDS,
    ensures
        exists|granted: bool| #[trigger]
            memory.may(granted) && entry_point_outcome(r) == parsed(instruction@, bound, granted),
{
    assert(memory.may(true) || memory.may(false));
    if instruction.len() < 4 || instruction[2] == 0 || instruction[2] >= bound {
        return Err(Error::InvalidDescriptor);
    }
    let model: u32 = instruction[1];
    let stage = if model == 0 {
        ShaderStage::Vertex
    } else if model == 4 {
        ShaderStage::Fragment
    } else if model == 5 {
        ShaderStage::Compute
    } else {
        return Err(Error::InvalidDescriptor);
    };
    let mut name: Vec<u8> = Vec::new();
    let total: usize = name_capacity(instruction);
    let granted: bool = memory.reserve(&mut name, total);
    if !granted {
        return Err(Error::OutOfMemory);
    }
    let mut k: usize = 0;
    while k < total
        invariant
            memory.may(true),
            instruction@.len() >= 4,
            instruction@.len() <= MAX_SPIRV_WORDS,
            total == (instruction@.len() - 3) * 4,
            k <= total,
            name@ == name_bytes(instruction@, k as int),
            forall|j: int| 0 <= j < k ==> #[trigger] name_byte(instruction@, j) != 0,
            identifier_valid(instruction@[2], bound),
            execution_model_stage(instruction@[1]) == Some(stage),
        decreases total - k,
    {
        let word: u32 = instruction[3 + k / 4];
        let position: usize = k % 4;
        let byte: u8 = byte_of_word(word, position);
        assert(byte == name_byte(instruction@, k as int));
        if byte == 0 {
            proof {
                assert(name_ends_at(instruction@, k as int));
                assert forall|length: int|
                    declaration_valid(instruction@, bound, length) implies length == k by {
                    lemma_name_end_unique(instruction@, length, k as int);
                }
            }
            if k == 0 {
                return Err(Error::InvalidDescriptor);
            }
            let mut padding: usize = position;
            let ghost start = k - position;
            while padding < 4
                invariant
                    memory.may(true),
                    position <= padding <= 4,
                    position == k % 4,
                    start == k - position,
                    start == 4 * (k / 4),
                    k < total,
                    total == (instruction@.len() - 3) * 4,
                    word == instruction@[3 + k as int / 4],
                    forall|j: int|
                        k <= j < start + padding ==> #[trigger] name_byte(instruction@, j) == 0,
                    forall|length: int|
                        declaration_valid(instruction@, bound, length) ==> length == k,
                decreases 4 - padding,
            {
                assert((start + padding) / 4 == k as int / 4);
                assert((start + padding) % 4 == padding);
                if byte_of_word(word, padding) != 0 {
                    assert(name_byte(instruction@, start + padding) != 0);
                    assert(!declaration_valid(instruction@, bound, k as int));
                    return Err(Error::InvalidDescriptor);
                }
                assert(name_byte(instruction@, start + padding) == 0);
                padding = padding + 1;
            }
            let mut index: usize = 4 + k / 4;
            while index < instruction.len()
                invariant
                    memory.may(true),
                    4 + k as int / 4 <= index <= instruction@.len(),
                    forall|i: int|
                        4 + k as int / 4 <= i < index ==> identifier_valid(
                            #[trigger] instruction@[i],
                            bound,
                        ),
                    forall|length: int|
                        declaration_valid(instruction@, bound, length) ==> length == k,
                decreases instruction@.len() - index,
            {
                let id: u32 = instruction[index];
                if id == 0 || id >= bound {
                    assert(!identifier_valid(instruction@[index as int], bound));
                    assert(!declaration_valid(instruction@, bound, k as int));
                    return Err(Error::InvalidDescriptor);
                }
                index = index + 1;
            }
            return match string_from_utf8(name) {
                Some(name) => {
                    assert(declaration_valid(instruction@, bound, k as int));
                    Ok(DeclaredEntryPoint { stage, name })
                },
                None => {
                    assert(!declaration_valid(instruction@, bound, k as int));
                    Err(Error::InvalidDescriptor)
                },
            };
        }
        name.push(byte);
        assert(name@ =~= name_bytes(instruction@, k + 1));
        k = k + 1;
    }
    proof {
        assert forall|length: int| !declaration_valid(instruction@, bound, length) by {
            if name_ends_at(instruction@, length) {
                assert(name_byte(instruction@, length) != 0);
            }
        }
    }
    Err(Error::InvalidDescriptor)
}

/// Return one byte of a word, the least significant first.
fn byte_of_word(word: u32, position: usize) -> (r: u8)
    requires
        position < 4,
    ensures
        r == ((word / byte_weight(position as int)) % 0x100) as u8,
{
    let weight: u32 = if position == 0 {
        1
    } else if position == 1 {
        0x100
    } else if position == 2 {
        0x1_0000
    } else {
        0x100_0000
    };
    ((word / weight) % 0x100) as u8
}

/// What a result of a module holds.
pub open spec fn module_outcome(result: Result<ShaderModuleDesc, Error>) -> Result<
    ShaderModuleView,
    Error,
> {
    match result {
        Ok(module) => Ok(module@),
        Err(error) => Err(error),
    }
}

/// Answers that grant room where it may be granted below a word, and then answer alike.
spec fn scan_answers(length: nat, offset: int, memory: Memory, later: bool) -> Seq<bool> {
    Seq::new(length, |i: int| if i < offset { memory.may(true) } else { later })
}

/// Whether answers grant room below a word.
spec fn granted_below(answers: Seq<bool>, offset: int) -> bool {
    forall|i: int| 0 <= i < offset ==> #[trigger] answers[i]
}

impl ShaderModuleDesc {
    /// Check and own a SPIR-V 1.0 through 1.6 module.
    ///
    /// The header must use the decoded SPIR-V magic, a non-zero identifier bound
    /// no greater than `0x3fffff`, and schema zero. Entry points must use a
    /// portable vertex, fragment, or compute stage and contain a non-empty UTF-8
    /// name.
    ///
    /// Returns `Error::InvalidDescriptor` for malformed structure,
    /// `Error::ResourceLimitExceeded` above `MAX_SPIRV_WORDS`, or
    /// `Error::OutOfMemory` if metadata allocation fails. Opcode semantics,
    /// definitions of referenced identifiers, and complete shader validity are
    /// checked by the backend.
    pub fn spirv(words: Vec<u32>) -> (r: Result<Self, Error>)
        ensures
            scans_to(words@, Memory::System, module_outcome(r)),
            match r {
                Ok(desc) => words@.len() <= MAX_SPIRV_WORDS && spirv_header_valid(words@)
                    && desc@.source == ShaderSourceView::SpirV(words@) && declared_entry_points(
                    words@,
                    5,
                    words@[3],
                ) == Some(desc@.entry_points),
                Err(Error::ResourceLimitExceeded) => words@.len() > MAX_SPIRV_WORDS,
                Err(Error::InvalidDescriptor) => words@.len() <= MAX_SPIRV_WORDS && (
                !spirv_header_valid(words@) || declared_entry_points(words@, 5, words@[3]) is None),
                Err(error) => error == Error::OutOfMemory && words@.len() <= MAX_SPIRV_WORDS
                    && spirv_header_valid(words@) && reaches_declaration(words@, 5, words@[3]),
            },
            words@.len() <= MAX_SPIRV_WORDS && spirv_header_valid(words@) && declared_entry_points(
                words@,
                5,
                words@[3],
            ) == Some(Seq::<EntryPointView>::empty()) ==> r is Ok,
    {
        Self::spirv_with(words, Memory::System)
    }

    /// Check and own a SPIR-V module, where requests for room are answered as given.
    pub fn spirv_with(words: Vec<u32>, memory: Memory) -> (r: Result<Self, Error>)
        ensures
            scans_to(words@, memory, module_outcome(r)),
            match r {
                Ok(desc) => words@.len() <= MAX_SPIRV_WORDS && spirv_header_valid(words@)
                    && desc@.source == ShaderSourceView::SpirV(words@) && declared_entry_points(
                    words@,
                    5,
                    words@[3],
                ) == Some(desc@.entry_points),
                Err(Error::ResourceLimitExceeded) => words@.len() > MAX_SPIRV_WORDS,
                Err(Error::InvalidDescriptor) => words@.len() <= MAX_SPIRV_WORDS && (
                !spirv_header_valid(words@) || declared_entry_points(words@, 5, words@[3]) is None),
                Err(error) => error == Error::OutOfMemory && memory.may(false)
                    && words@.len() <= MAX_SPIRV_WORDS
                    && spirv_header_valid(words@) && reaches_declaration(words@, 5, words@[3]),
            },
            words@.len() <= MAX_SPIRV_WORDS && spirv_header_valid(words@) && declared_entry_points(
                words@,
                5,
                words@[3],
            ) == Some(Seq::<EntryPointView>::empty()) ==> r is Ok,
    {
        let ghost any = scan_answers(words@.len(), 0, memory, memory.may(true));
        assert(memory.may_answer(any));
        let ghost start = spirv_answered(words@, any);
        if words.len() > MAX_SPIRV_WORDS {
            return Err(Error::ResourceLimitExceeded);
        }
        if words.len() < 5 || words[0] != 0x0723_0203 {
            return Err(Error::InvalidDescriptor);
        }
        let version: u32 = words[1];
        if version < 0x1_0000 || version > 0x1_0600 || version % 0x100 != 0 || words[3] == 0
            || words[3] > 0x3f_ffff || words[4] != 0 {
            return Err(Error::InvalidDescriptor);
        }
        let bound: u32 = words[3];
        let mut entry_points: Vec<DeclaredEntryPoint> = Vec::new();
        let mut offset: usize = 5;
        assert(entry_point_views(entry_points@) =~= Seq::<EntryPointView>::empty());
        proof {
            if let Some(rest) = declared_entry_points(words@, 5, bound) {
                assert(Seq::<EntryPointView>::empty() + rest =~= rest);
                if rest == Seq::<EntryPointView>::empty() {
                    lemma_no_entry_points(words@, 5, bound);
                }
            }
            assert forall|answers: Seq<bool>| #[trigger] scanned(
                words@,
                5,
                bound,
                answers,
            ) == prepended(
                entry_point_views(entry_points@),
                scanned(words@, offset as nat, bound, answers),
            ) by {
                if let Ok(rest) = scanned(words@, 5, bound, answers) {
                    assert(Seq::<EntryPointView>::empty() + rest =~= rest);
                }
            }
        }
        while offset < words.len()
            invariant
                5 <= offset <= words@.len() <= MAX_SPIRV_WORDS,
                spirv_header_valid(words@),
                bound == words@[3],
                match declared_entry_points(words@, offset as nat, bound) {
                    Some(rest) => declared_entry_points(words@, 5, bound) == Some(
                        entry_point_views(entry_points@) + rest,
                    ),
                    None => declared_entry_points(words@, 5, bound) is None,
                },
                reaches_declaration(words@, offset as nat, bound) ==> reaches_declaration(
                    words@,
                    5,
                    bound,
                ),
                entry_points@.len() > 0 ==> reaches_declaration(words@, 5, bound),
                declared_entry_points(words@, 5, bound) == Some(Seq::<EntryPointView>::empty())
                    ==> !reaches_declaration(words@, 5, bound),
                entry_points@.len() > 0 ==> memory.may(true),
                forall|answers: Seq<bool>|
                    (entry_points@.len() > 0 ==> granted_below(answers, offset as int))
                        ==> #[trigger] scanned(words@, 5, bound, answers) == prepended(
                        entry_point_views(entry_points@),
                        scanned(words@, offset as nat, bound, answers),
                    ),
            decreases words@.len() - offset,
        {
            let first: u32 = words[offset];
            let word_count: usize = (first / 0x1_0000) as usize;
            if word_count == 0 || word_count > words.len() - offset {
                proof {
                    let answers = scan_answers(
                        words@.len(),
                        offset as int,
                        memory,
                        memory.may(true),
                    );
                    assert(memory.may_answer(answers));
                    assert(spirv_answered(words@, answers) is Err);
                }
                return Err(Error::InvalidDescriptor);
            }
            if first % 0x1_0000 == ENTRY_POINT_OPCODE {
                let instruction = vstd::slice::slice_subrange(
                    words.as_slice(),
                    offset,
                    offset + word_count,
                );
                let entry_point = match parse_entry_point(instruction, bound, memory) {
                    Ok(entry_point) => entry_point,
                    Err(error) => {
                        proof {
                            let granted = choose|granted: bool| #[trigger]
                                memory.may(granted) && Err::<EntryPointView, Error>(error)
                                    == parsed(instruction@, bound, granted);
                            let answers = scan_answers(
                                words@.len(),
                                offset as int,
                                memory,
                                granted,
                            );
                            assert(memory.may_answer(answers));
                            assert(answers[offset as int] == granted);
                            assert(spirv_answered(words@, answers) is Err);
                        }
                        return Err(error);
                    },
                };
                assert(memory.may(true) && declaration_read(instruction@, bound));
                if !memory.reserve(&mut entry_points, 1) {
                    proof {
                        let answers = scan_answers(words@.len(), offset as int, memory, false);
                        assert(memory.may_answer(answers));
                        assert(!answers[offset as int]);
                        assert(spirv_answered(words@, answers) is Err);
                    }
                    return Err(Error::OutOfMemory);
                }
                let ghost before = entry_points@;
                let ghost entry = entry_point.view();
                entry_points.push(entry_point);
                proof {
                    assert(entry_point_views(entry_points@) =~= entry_point_views(before).push(
                        entry,
                    ));
                    if let Some(rest) = declared_entry_points(
                        words@,
                        (offset + word_count) as nat,
                        bound,
                    ) {
                        assert(entry_point_views(before) + (seq![entry] + rest)
                            =~= entry_point_views(entry_points@) + rest);
                    }
                    let next = (offset + word_count) as nat;
                    assert forall|answers: Seq<bool>|
                        granted_below(answers, next as int) implies #[trigger] scanned(
                        words@,
                        5,
                        bound,
                        answers,
                    ) == prepended(
                        entry_point_views(entry_points@),
                        scanned(words@, next, bound, answers),
                    ) by {
                        assert(granted_below(answers, offset as int));
                        assert(answers[offset as int]);
                        if let Ok(rest) = scanned(words@, next, bound, answers) {
                            assert(entry_point_views(before) + (seq![entry] + rest)
                                =~= entry_point_views(entry_points@) + rest);
                        }
                    }
                }
            }
            offset = offset + word_count;
        }
        proof {
            assert(entry_point_views(entry_points@) + Seq::<EntryPointView>::empty()
                =~= entry_point_views(entry_points@));
            let answers = scan_answers(words@.len(), offset as int, memory, memory.may(true));
            assert(memory.may_answer(answers));
            assert(spirv_answered(words@, answers) is Ok);
        }
        Ok(Self { source: ShaderSource::SpirV(words), entry_points })
    }

    /// Own non-empty WGSL text for subsequent backend parsing and validation.
    ///
    /// Returns `Error::InvalidDescriptor` for blank text or embedded NUL,
    /// or `Error::ResourceLimitExceeded` above `MAX_WGSL_BYTES`. This method
    /// does not parse WGSL or prove that any entry point exists.
    pub fn wgsl(source: String) -> (r: Result<Self, Error>)
        ensures
            match r {
                Ok(desc) => vstd::utf8::encode_utf8(source@).len() <= MAX_WGSL_BYTES && !blank(
                    source@,
                ) && !source@.contains('\0') && desc@ == (ShaderModuleView {
                    source: ShaderSourceView::Wgsl(source@),
                    entry_points: Seq::empty(),
                }),
                Err(Error::ResourceLimitExceeded) => vstd::utf8::encode_utf8(source@).len()
                    > MAX_WGSL_BYTES,
                Err(error) => error == Error::InvalidDescriptor && vstd::utf8::encode_utf8(
                    source@,
                ).len() <= MAX_WGSL_BYTES && (blank(source@) || source@.contains('\0')),
            },
    {
        let bytes = source.as_str().as_bytes();
        if bytes.len() > MAX_WGSL_BYTES {
            return Err(Error::ResourceLimitExceeded);
        }
        if is_blank(source.as_str()) || contains_nul(source.as_str()) {
            return Err(Error::InvalidDescriptor);
        }
        let entry_points: Vec<DeclaredEntryPoint> = Vec::new();
        assert(entry_point_views(entry_points@) =~= Seq::<EntryPointView>::empty());
        Ok(Self { source: ShaderSource::Wgsl(source), entry_points })
    }

    /// Return the immutable source passed to the backend shader compiler.
    pub fn source(&self) -> (r: &ShaderSource)
        ensures
            r@ == self@.source,
    {
        &self.source
    }

    /// Check whether a stage and name can be used as a module entry point.
    ///
    /// For SPIR-V this checks declared entry-point metadata. For WGSL it only
    /// checks for a non-empty name without NUL; the backend must validate the
    /// full identifier syntax, declaration, and shader stage when compiling.
    pub fn has_entry_point(&self, stage: ShaderStage, name: &str) -> (r: bool)
        ensures
            r == self@.has_entry_point(stage, name@),
    {
        match &self.source {
            ShaderSource::SpirV(_) => {
                let wanted: String = name.to_owned();
                let ghost view = EntryPointView { stage, name: name@ };
                let mut i: usize = 0;
                while i < self.entry_points.len()
                    invariant
                        i <= self.entry_points.len(),
                        view == (EntryPointView { stage, name: name@ }),
                        wanted@ == name@,
                        self@.entry_points == entry_point_views(self.entry_points@),
                        self@.source is SpirV,
                        forall|k: int| 0 <= k < i ==> #[trigger] self@.entry_points[k] != view,
                    decreases self.entry_points.len() - i,
                {
                    let entry = &self.entry_points[i];
                    if entry.stage == stage && entry.name == wanted {
                        assert(self@.entry_points[i as int] == view);
                        return true;
                    }
                    assert(self@.entry_points[i as int] == entry.view());
                    i = i + 1;
                }
                false
            },
            ShaderSource::Wgsl(_) => !name.is_empty() && !contains_nul(name),
        }
    }
}

} // verus!
