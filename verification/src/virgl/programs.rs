//! What the built-in shaders compute.
//!
//! A shader is a text of declarations and numbered instructions over registers of four
//! components. The meaning of inputs and outputs is declared.

use crate::driver::IrFragmentProgram;
use crate::virgl::shaders::{
    COMPOSITION_SOLID_SHADER,
    COMPOSITION_TEXTURE_ALPHA_SHADER,
    COMPOSITION_TEXTURE_OPAQUE_SHADER,
    COMPOSITION_VERTEX_SHADER,
    FRAGMENT_SHADER,
    IR_SOLID_FRAGMENT_SHADER,
    IR_TEXTURE_ALPHA_MASK_FRAGMENT_SHADER,
    IR_TEXTURE_RGBA_FRAGMENT_SHADER,
    IR_TEXTURE_RGB_IGNORE_ALPHA_FRAGMENT_SHADER,
    IR_VERTEX_COLOR_FRAGMENT_SHADER,
    IR_VERTEX_SHADER,
    VERTEX_SHADER,
};
use vstd::prelude::*;

verus! {

/// A declaration.
pub enum Declaration {
    /// `VERT`
    Vertex,
    /// `FRAG`
    Fragment,
    /// `PROPERTY FS_COLOR0_WRITES_ALL_CBUFS 1`
    AllTargets,
    /// `DCL IN[0]`
    Attribute0,
    /// `DCL IN[1]`
    Attribute1,
    /// `DCL IN[2]`
    Attribute2,
    /// `DCL IN[0], COLOR, PERSPECTIVE`
    Color0,
    /// `DCL IN[1], COLOR, PERSPECTIVE`
    Color1,
    /// `DCL IN[0], GENERIC[0], PERSPECTIVE`
    Coordinates0,
    /// `DCL OUT[0], POSITION`
    Position0,
    /// `DCL OUT[1], COLOR`
    ColorOut1,
    /// `DCL OUT[2], COLOR`
    ColorOut2,
    /// `DCL OUT[1], GENERIC[0]`
    CoordinatesOut1,
    /// `DCL OUT[2], GENERIC[0]`
    CoordinatesOut2,
    /// `DCL OUT[0], COLOR`
    ColorOut0,
    /// `DCL CONST[0]`
    Constant,
    /// `DCL CONST[0..3]`
    Constants,
    /// `DCL SAMP[0]`
    Sampler,
    /// `DCL SVIEW[0], 2D, FLOAT`
    View,
    /// `DCL TEMP[0]`
    Temporary,
}

/// A register that is read.
pub enum Register {
    /// `IN[0]`
    Input0,
    /// `IN[1]`
    Input1,
    /// `IN[2]`
    Input2,
    /// `CONST[0]`
    Constant0,
    /// `CONST[1]`
    Constant1,
    /// `CONST[2]`
    Constant2,
    /// `CONST[3]`
    Constant3,
    /// `TEMP[0]`
    Temporary,
}

/// Which components of a register are read.
pub enum Swizzle {
    /// Each in its place.
    Whole,
    /// The color components.
    Color,
    /// The last one for all.
    W,
    /// The first one for all.
    X,
    /// The second one for all.
    Y,
    /// The third one for all.
    Z,
}

/// A register that is written.
pub enum Target {
    /// `OUT[0]`
    Output0,
    /// `OUT[1]`
    Output1,
    /// `OUT[2]`
    Output2,
    /// `TEMP[0]`
    Temporary,
}

/// Which components of a register are written.
pub enum Mask {
    /// All.
    Whole,
    /// The first three.
    Color,
    /// The last.
    Alpha,
}

/// A value that an instruction reads.
pub struct Operand {
    pub register: Register,
    pub swizzle: Swizzle,
}

/// Where an instruction writes.
pub struct Destination {
    pub register: Target,
    pub mask: Mask,
}

/// An instruction.
pub enum Instruction {
    /// Copy a value.
    Move(Destination, Operand),
    /// Multiply two values.
    Multiply(Destination, Operand, Operand),
    /// Multiply two values and add a third.
    MultiplyAdd(Destination, Operand, Operand, Operand),
    /// Sample the texture at coordinates.
    Sample(Destination, Operand),
    /// Stop.
    End,
}

/// A shader program.
pub struct Program {
    pub declarations: Seq<Declaration>,
    pub instructions: Seq<Instruction>,
}

/// A value to read.
pub open spec fn get(register: Register, swizzle: Swizzle) -> Operand {
    Operand { register, swizzle }
}

/// A place to write.
pub open spec fn put(register: Target, mask: Mask) -> Destination {
    Destination { register, mask }
}

/// The text of a declaration.
pub open spec fn declaration_text(declaration: Declaration) -> Seq<char> {
    match declaration {
        Declaration::Vertex => "VERT\n"@,
        Declaration::Fragment => "FRAG\n"@,
        Declaration::AllTargets => "PROPERTY FS_COLOR0_WRITES_ALL_CBUFS 1\n"@,
        Declaration::Attribute0 => "DCL IN[0]\n"@,
        Declaration::Attribute1 => "DCL IN[1]\n"@,
        Declaration::Attribute2 => "DCL IN[2]\n"@,
        Declaration::Color0 => "DCL IN[0], COLOR, PERSPECTIVE\n"@,
        Declaration::Color1 => "DCL IN[1], COLOR, PERSPECTIVE\n"@,
        Declaration::Coordinates0 => "DCL IN[0], GENERIC[0], PERSPECTIVE\n"@,
        Declaration::Position0 => "DCL OUT[0], POSITION\n"@,
        Declaration::ColorOut1 => "DCL OUT[1], COLOR\n"@,
        Declaration::ColorOut2 => "DCL OUT[2], COLOR\n"@,
        Declaration::CoordinatesOut1 => "DCL OUT[1], GENERIC[0]\n"@,
        Declaration::CoordinatesOut2 => "DCL OUT[2], GENERIC[0]\n"@,
        Declaration::ColorOut0 => "DCL OUT[0], COLOR\n"@,
        Declaration::Constant => "DCL CONST[0]\n"@,
        Declaration::Constants => "DCL CONST[0..3]\n"@,
        Declaration::Sampler => "DCL SAMP[0]\n"@,
        Declaration::View => "DCL SVIEW[0], 2D, FLOAT\n"@,
        Declaration::Temporary => "DCL TEMP[0]\n"@,
    }
}

/// The text of a value that is read.
pub open spec fn operand_text(operand: Operand) -> Seq<char> {
    (match operand.register {
        Register::Input0 => "IN[0]"@,
        Register::Input1 => "IN[1]"@,
        Register::Input2 => "IN[2]"@,
        Register::Constant0 => "CONST[0]"@,
        Register::Constant1 => "CONST[1]"@,
        Register::Constant2 => "CONST[2]"@,
        Register::Constant3 => "CONST[3]"@,
        Register::Temporary => "TEMP[0]"@,
    }) + (match operand.swizzle {
        Swizzle::Whole => Seq::empty(),
        Swizzle::Color => ".xyzx"@,
        Swizzle::W => ".wwww"@,
        Swizzle::X => ".xxxx"@,
        Swizzle::Y => ".yyyy"@,
        Swizzle::Z => ".zzzz"@,
    })
}

/// The text of a place that is written.
pub open spec fn destination_text(destination: Destination) -> Seq<char> {
    (match destination.register {
        Target::Output0 => "OUT[0]"@,
        Target::Output1 => "OUT[1]"@,
        Target::Output2 => "OUT[2]"@,
        Target::Temporary => "TEMP[0]"@,
    }) + (match destination.mask {
        Mask::Whole => Seq::empty(),
        Mask::Color => ".xyz"@,
        Mask::Alpha => ".w"@,
    })
}

/// The text of an instruction.
pub open spec fn instruction_text(instruction: Instruction) -> Seq<char> {
    match instruction {
        Instruction::Move(destination, a) => "MOV "@ + destination_text(destination) + ", "@
            + operand_text(a),
        Instruction::Multiply(destination, a, b) => "MUL "@ + destination_text(destination) + ", "@
            + operand_text(a) + ", "@ + operand_text(b),
        Instruction::MultiplyAdd(destination, a, b, c) => "MAD "@ + destination_text(destination)
            + ", "@ + operand_text(a) + ", "@ + operand_text(b) + ", "@ + operand_text(c),
        Instruction::Sample(destination, a) => "TEX "@ + destination_text(destination) + ", "@
            + operand_text(a) + ", SAMP[0], 2D"@,
        Instruction::End => "END"@,
    }
}

/// The line of an instruction.
pub open spec fn line_text(number: nat, instruction: Instruction) -> Seq<char> {
    crate::wgpu_backend::shader::digit(number) + ": "@ + instruction_text(instruction) + "\n"@
}

/// The text of declarations.
pub open spec fn declarations_text(declarations: Seq<Declaration>) -> Seq<char>
    decreases declarations.len(),
{
    if declarations.len() == 0 {
        Seq::empty()
    } else {
        declarations_text(declarations.drop_last()) + declaration_text(declarations.last())
    }
}

/// The text of instructions, numbered from zero.
pub open spec fn instructions_text(instructions: Seq<Instruction>) -> Seq<char>
    decreases instructions.len(),
{
    if instructions.len() == 0 {
        Seq::empty()
    } else {
        instructions_text(instructions.drop_last()) + line_text(
            (instructions.len() - 1) as nat,
            instructions.last(),
        )
    }
}

/// The text of a program.
pub open spec fn program_text(program: Program) -> Seq<char> {
    declarations_text(program.declarations) + instructions_text(program.instructions)
}

/// What a program reads: its inputs, its constants and the texture.
pub struct Inputs {
    pub inputs: Seq<Seq<int>>,
    pub constants: Seq<Seq<int>>,
    pub texture: spec_fn(Seq<int>) -> Seq<int>,
}

/// What a program has written.
#[verifier::ext_equal]
pub struct Registers {
    pub outputs: Seq<Seq<int>>,
    pub temporary: Seq<int>,
}

/// The value of an operand.
pub open spec fn operand_value(operand: Operand, inputs: Inputs, registers: Registers) -> Seq<int> {
    let value = match operand.register {
        Register::Input0 => inputs.inputs[0],
        Register::Input1 => inputs.inputs[1],
        Register::Input2 => inputs.inputs[2],
        Register::Constant0 => inputs.constants[0],
        Register::Constant1 => inputs.constants[1],
        Register::Constant2 => inputs.constants[2],
        Register::Constant3 => inputs.constants[3],
        Register::Temporary => registers.temporary,
    };
    match operand.swizzle {
        Swizzle::Whole => value,
        Swizzle::Color => seq![value[0], value[1], value[2], value[0]],
        Swizzle::W => seq![value[3], value[3], value[3], value[3]],
        Swizzle::X => seq![value[0], value[0], value[0], value[0]],
        Swizzle::Y => seq![value[1], value[1], value[1], value[1]],
        Swizzle::Z => seq![value[2], value[2], value[2], value[2]],
    }
}

/// A register with some components written.
pub open spec fn masked(old_value: Seq<int>, value: Seq<int>, mask: Mask) -> Seq<int> {
    match mask {
        Mask::Whole => seq![value[0], value[1], value[2], value[3]],
        Mask::Color => seq![value[0], value[1], value[2], old_value[3]],
        Mask::Alpha => seq![old_value[0], old_value[1], old_value[2], value[3]],
    }
}

/// The registers after a value was written.
pub open spec fn written(
    registers: Registers,
    destination: Destination,
    value: Seq<int>,
) -> Registers {
    let mask = destination.mask;
    match destination.register {
        Target::Output0 => Registers {
            outputs: registers.outputs.update(0, masked(registers.outputs[0], value, mask)),
            ..registers
        },
        Target::Output1 => Registers {
            outputs: registers.outputs.update(1, masked(registers.outputs[1], value, mask)),
            ..registers
        },
        Target::Output2 => Registers {
            outputs: registers.outputs.update(2, masked(registers.outputs[2], value, mask)),
            ..registers
        },
        Target::Temporary => Registers {
            temporary: masked(registers.temporary, value, mask),
            ..registers
        },
    }
}

/// The registers after an instruction.
pub open spec fn executed_one(
    instruction: Instruction,
    inputs: Inputs,
    registers: Registers,
) -> Registers {
    match instruction {
        Instruction::Move(destination, a) => written(
            registers,
            destination,
            operand_value(a, inputs, registers),
        ),
        Instruction::Multiply(destination, a, b) => {
            let x = operand_value(a, inputs, registers);
            let y = operand_value(b, inputs, registers);
            written(registers, destination, Seq::new(4, |c: int| x[c] * y[c]))
        },
        Instruction::MultiplyAdd(destination, a, b, d) => {
            let x = operand_value(a, inputs, registers);
            let y = operand_value(b, inputs, registers);
            let z = operand_value(d, inputs, registers);
            written(registers, destination, Seq::new(4, |c: int| x[c] * y[c] + z[c]))
        },
        Instruction::Sample(destination, a) => written(
            registers,
            destination,
            (inputs.texture)(operand_value(a, inputs, registers)),
        ),
        Instruction::End => registers,
    }
}

/// The registers after instructions, which start from zeros.
pub open spec fn executed(instructions: Seq<Instruction>, inputs: Inputs) -> Registers
    decreases instructions.len(),
{
    if instructions.len() == 0 {
        let zeros = seq![0int, 0, 0, 0];
        Registers { outputs: seq![zeros, zeros, zeros], temporary: zeros }
    } else {
        executed_one(
            instructions.last(),
            inputs,
            executed(instructions.drop_last(), inputs),
        )
    }
}

/// The color that a fragment program gives out. Its inputs are a color or texture
/// coordinates, as declared.
pub open spec fn fragment_color(
    program: Program,
    color: Seq<int>,
    coordinates: Seq<int>,
    texture: spec_fn(Seq<int>) -> Seq<int>,
    constant: Seq<int>,
) -> Seq<int> {
    let declared = program.declarations;
    let inputs = Inputs {
        inputs: seq![
            if declared.contains(Declaration::Color0) {
                color
            } else {
                coordinates
            },
            color,
        ],
        constants: seq![constant],
        texture,
    };
    executed(program.instructions, inputs).outputs[0]
}

/// What a vertex program gives out.
#[verifier::ext_equal]
pub struct VertexOutputs {
    pub position: Seq<int>,
    pub color: Seq<int>,
    pub coordinates: Seq<int>,
}

/// What a vertex program gives out under each declared meaning.
pub open spec fn vertex_outputs(
    program: Program,
    attributes: Seq<Seq<int>>,
    constants: Seq<Seq<int>>,
) -> VertexOutputs {
    let declared = program.declarations;
    let inputs = Inputs { inputs: attributes, constants, texture: |c: Seq<int>| c };
    let outputs = executed(program.instructions, inputs).outputs;
    VertexOutputs {
        position: outputs[0],
        color: if declared.contains(Declaration::ColorOut1) {
            outputs[1]
        } else {
            outputs[2]
        },
        coordinates: if declared.contains(Declaration::CoordinatesOut1) {
            outputs[1]
        } else {
            outputs[2]
        },
    }
}

proof fn lemma_next_declaration(declarations: Seq<Declaration>, n: int)
    requires
        0 <= n < declarations.len(),
    ensures
        declarations_text(declarations.take(n + 1)) == declarations_text(declarations.take(n))
            + declaration_text(declarations[n]),
{
    assert(declarations.take(n + 1).drop_last() =~= declarations.take(n));
}

proof fn lemma_next_instruction(instructions: Seq<Instruction>, n: int)
    requires
        0 <= n < instructions.len(),
    ensures
        instructions_text(instructions.take(n + 1)) == instructions_text(instructions.take(n))
            + line_text(n as nat, instructions[n]),
{
    assert(instructions.take(n + 1).drop_last() =~= instructions.take(n));
}

proof fn lemma_executed_next(instructions: Seq<Instruction>, inputs: Inputs, n: int)
    requires
        0 <= n < instructions.len(),
    ensures
        executed(instructions.take(n + 1), inputs) == executed_one(
            instructions[n],
            inputs,
            executed(instructions.take(n), inputs),
        ),
{
    assert(instructions.take(n + 1).drop_last() =~= instructions.take(n));
}

/// The program of `VERTEX_SHADER`.
pub open spec fn vertex_shader_program() -> Program {
    Program {
        declarations: seq![
            Declaration::Vertex,
            Declaration::Attribute0,
            Declaration::Attribute1,
            Declaration::Position0,
            Declaration::ColorOut1,
        ],
        instructions: seq![
            Instruction::Move(
                put(Target::Output0, Mask::Whole),
                get(Register::Input0, Swizzle::Whole),
            ),
            Instruction::Move(
                put(Target::Output1, Mask::Whole),
                get(Register::Input1, Swizzle::Whole),
            ),
            Instruction::End,
        ],
    }
}

/// The program of `FRAGMENT_SHADER`.
pub open spec fn fragment_shader_program() -> Program {
    Program {
        declarations: seq![
            Declaration::Fragment,
            Declaration::AllTargets,
            Declaration::Color0,
            Declaration::ColorOut0,
        ],
        instructions: seq![
            Instruction::Move(
                put(Target::Output0, Mask::Whole),
                get(Register::Input0, Swizzle::Whole),
            ),
            Instruction::End,
        ],
    }
}

/// The program of `COMPOSITION_VERTEX_SHADER`.
pub open spec fn composition_vertex_shader_program() -> Program {
    Program {
        declarations: seq![
            Declaration::Vertex,
            Declaration::Attribute0,
            Declaration::Attribute1,
            Declaration::Attribute2,
            Declaration::Position0,
            Declaration::CoordinatesOut1,
            Declaration::ColorOut2,
        ],
        instructions: seq![
            Instruction::Move(
                put(Target::Output0, Mask::Whole),
                get(Register::Input0, Swizzle::Whole),
            ),
            Instruction::Move(
                put(Target::Output1, Mask::Whole),
                get(Register::Input1, Swizzle::Whole),
            ),
            Instruction::Move(
                put(Target::Output2, Mask::Whole),
                get(Register::Input2, Swizzle::Whole),
            ),
            Instruction::End,
        ],
    }
}

/// The program of `COMPOSITION_TEXTURE_ALPHA_SHADER`.
pub open spec fn composition_texture_alpha_shader_program() -> Program {
    Program {
        declarations: seq![
            Declaration::Fragment,
            Declaration::AllTargets,
            Declaration::Coordinates0,
            Declaration::Color1,
            Declaration::Sampler,
            Declaration::View,
            Declaration::ColorOut0,
            Declaration::Temporary,
        ],
        instructions: seq![
            Instruction::Sample(
                put(Target::Temporary, Mask::Whole),
                get(Register::Input0, Swizzle::Whole),
            ),
            Instruction::Move(
                put(Target::Output0, Mask::Color),
                get(Register::Temporary, Swizzle::Color),
            ),
            Instruction::Multiply(
                put(Target::Output0, Mask::Alpha),
                get(Register::Temporary, Swizzle::W),
                get(Register::Input1, Swizzle::W),
            ),
            Instruction::End,
        ],
    }
}

/// The program of `COMPOSITION_TEXTURE_OPAQUE_SHADER`.
pub open spec fn composition_texture_opaque_shader_program() -> Program {
    Program {
        declarations: seq![
            Declaration::Fragment,
            Declaration::AllTargets,
            Declaration::Coordinates0,
            Declaration::Color1,
            Declaration::Sampler,
            Declaration::View,
            Declaration::ColorOut0,
            Declaration::Temporary,
        ],
        instructions: seq![
            Instruction::Sample(
                put(Target::Temporary, Mask::Whole),
                get(Register::Input0, Swizzle::Whole),
            ),
            Instruction::Move(
                put(Target::Output0, Mask::Color),
                get(Register::Temporary, Swizzle::Color),
            ),
            Instruction::Move(put(Target::Output0, Mask::Alpha), get(Register::Input1, Swizzle::W)),
            Instruction::End,
        ],
    }
}

/// The program of `COMPOSITION_SOLID_SHADER`.
pub open spec fn composition_solid_shader_program() -> Program {
    Program {
        declarations: seq![
            Declaration::Fragment,
            Declaration::AllTargets,
            Declaration::Color1,
            Declaration::ColorOut0,
        ],
        instructions: seq![
            Instruction::Move(
                put(Target::Output0, Mask::Whole),
                get(Register::Input1, Swizzle::Whole),
            ),
            Instruction::End,
        ],
    }
}

/// The program of `IR_VERTEX_SHADER`.
pub open spec fn ir_vertex_shader_program() -> Program {
    Program {
        declarations: seq![
            Declaration::Vertex,
            Declaration::Attribute0,
            Declaration::Attribute1,
            Declaration::Constants,
            Declaration::Position0,
            Declaration::ColorOut1,
            Declaration::CoordinatesOut2,
            Declaration::Temporary,
        ],
        instructions: seq![
            Instruction::Multiply(
                put(Target::Temporary, Mask::Whole),
                get(Register::Constant0, Swizzle::Whole),
                get(Register::Input0, Swizzle::X),
            ),
            Instruction::MultiplyAdd(
                put(Target::Temporary, Mask::Whole),
                get(Register::Constant1, Swizzle::Whole),
                get(Register::Input0, Swizzle::Y),
                get(Register::Temporary, Swizzle::Whole),
            ),
            Instruction::MultiplyAdd(
                put(Target::Temporary, Mask::Whole),
                get(Register::Constant2, Swizzle::Whole),
                get(Register::Input0, Swizzle::Z),
                get(Register::Temporary, Swizzle::Whole),
            ),
            Instruction::MultiplyAdd(
                put(Target::Output0, Mask::Whole),
                get(Register::Constant3, Swizzle::Whole),
                get(Register::Input0, Swizzle::W),
                get(Register::Temporary, Swizzle::Whole),
            ),
            Instruction::Move(
                put(Target::Output1, Mask::Whole),
                get(Register::Input1, Swizzle::Whole),
            ),
            Instruction::Move(
                put(Target::Output2, Mask::Whole),
                get(Register::Input1, Swizzle::Whole),
            ),
            Instruction::End,
        ],
    }
}

/// The program of `IR_SOLID_FRAGMENT_SHADER`.
pub open spec fn ir_solid_fragment_shader_program() -> Program {
    Program {
        declarations: seq![
            Declaration::Fragment,
            Declaration::AllTargets,
            Declaration::Constant,
            Declaration::ColorOut0,
        ],
        instructions: seq![
            Instruction::Move(
                put(Target::Output0, Mask::Whole),
                get(Register::Constant0, Swizzle::Whole),
            ),
            Instruction::End,
        ],
    }
}

/// The program of `IR_VERTEX_COLOR_FRAGMENT_SHADER`.
pub open spec fn ir_vertex_color_fragment_shader_program() -> Program {
    Program {
        declarations: seq![
            Declaration::Fragment,
            Declaration::AllTargets,
            Declaration::Color0,
            Declaration::Constant,
            Declaration::ColorOut0,
        ],
        instructions: seq![
            Instruction::Multiply(
                put(Target::Output0, Mask::Whole),
                get(Register::Input0, Swizzle::Whole),
                get(Register::Constant0, Swizzle::Whole),
            ),
            Instruction::End,
        ],
    }
}

/// The program of `IR_TEXTURE_RGBA_FRAGMENT_SHADER`.
pub open spec fn ir_texture_rgba_fragment_shader_program() -> Program {
    Program {
        declarations: seq![
            Declaration::Fragment,
            Declaration::AllTargets,
            Declaration::Coordinates0,
            Declaration::Constant,
            Declaration::Sampler,
            Declaration::View,
            Declaration::ColorOut0,
            Declaration::Temporary,
        ],
        instructions: seq![
            Instruction::Sample(
                put(Target::Temporary, Mask::Whole),
                get(Register::Input0, Swizzle::Whole),
            ),
            Instruction::Multiply(
                put(Target::Output0, Mask::Whole),
                get(Register::Temporary, Swizzle::Whole),
                get(Register::Constant0, Swizzle::Whole),
            ),
            Instruction::End,
        ],
    }
}

/// The program of `IR_TEXTURE_RGB_IGNORE_ALPHA_FRAGMENT_SHADER`.
pub open spec fn ir_texture_rgb_ignore_alpha_fragment_shader_program() -> Program {
    Program {
        declarations: seq![
            Declaration::Fragment,
            Declaration::AllTargets,
            Declaration::Coordinates0,
            Declaration::Constant,
            Declaration::Sampler,
            Declaration::View,
            Declaration::ColorOut0,
            Declaration::Temporary,
        ],
        instructions: seq![
            Instruction::Sample(
                put(Target::Temporary, Mask::Whole),
                get(Register::Input0, Swizzle::Whole),
            ),
            Instruction::Multiply(
                put(Target::Output0, Mask::Color),
                get(Register::Temporary, Swizzle::Color),
                get(Register::Constant0, Swizzle::Color),
            ),
            Instruction::Move(
                put(Target::Output0, Mask::Alpha),
                get(Register::Constant0, Swizzle::W),
            ),
            Instruction::End,
        ],
    }
}

/// The program of `IR_TEXTURE_ALPHA_MASK_FRAGMENT_SHADER`.
pub open spec fn ir_texture_alpha_mask_fragment_shader_program() -> Program {
    Program {
        declarations: seq![
            Declaration::Fragment,
            Declaration::AllTargets,
            Declaration::Coordinates0,
            Declaration::Constant,
            Declaration::Sampler,
            Declaration::View,
            Declaration::ColorOut0,
            Declaration::Temporary,
        ],
        instructions: seq![
            Instruction::Sample(
                put(Target::Temporary, Mask::Whole),
                get(Register::Input0, Swizzle::Whole),
            ),
            Instruction::Move(
                put(Target::Output0, Mask::Color),
                get(Register::Constant0, Swizzle::Color),
            ),
            Instruction::Multiply(
                put(Target::Output0, Mask::Alpha),
                get(Register::Temporary, Swizzle::W),
                get(Register::Constant0, Swizzle::W),
            ),
            Instruction::End,
        ],
    }
}

proof fn lemma_line0()
    ensures
        "0: MOV OUT[0], CONST[0]\n"@ == line_text(0, Instruction::Move(put(Target::Output0, Mask::Whole), get(Register::Constant0, Swizzle::Whole))),
{
    reveal_strlit("\n");
    reveal_strlit(", ");
    reveal_strlit("0");
    reveal_strlit("0: MOV OUT[0], CONST[0]\n");
    reveal_strlit(": ");
    reveal_strlit("CONST[0]");
    reveal_strlit("MOV ");
    reveal_strlit("OUT[0]");
    assert("0: MOV OUT[0], CONST[0]\n"@ =~= line_text(0, Instruction::Move(put(Target::Output0, Mask::Whole), get(Register::Constant0, Swizzle::Whole))));
}

proof fn lemma_line1()
    ensures
        "0: MOV OUT[0], IN[0]\n"@ == line_text(0, Instruction::Move(put(Target::Output0, Mask::Whole), get(Register::Input0, Swizzle::Whole))),
{
    reveal_strlit("\n");
    reveal_strlit(", ");
    reveal_strlit("0");
    reveal_strlit("0: MOV OUT[0], IN[0]\n");
    reveal_strlit(": ");
    reveal_strlit("IN[0]");
    reveal_strlit("MOV ");
    reveal_strlit("OUT[0]");
    assert("0: MOV OUT[0], IN[0]\n"@ =~= line_text(0, Instruction::Move(put(Target::Output0, Mask::Whole), get(Register::Input0, Swizzle::Whole))));
}

proof fn lemma_line2()
    ensures
        "0: MOV OUT[0], IN[1]\n"@ == line_text(0, Instruction::Move(put(Target::Output0, Mask::Whole), get(Register::Input1, Swizzle::Whole))),
{
    reveal_strlit("\n");
    reveal_strlit(", ");
    reveal_strlit("0");
    reveal_strlit("0: MOV OUT[0], IN[1]\n");
    reveal_strlit(": ");
    reveal_strlit("IN[1]");
    reveal_strlit("MOV ");
    reveal_strlit("OUT[0]");
    assert("0: MOV OUT[0], IN[1]\n"@ =~= line_text(0, Instruction::Move(put(Target::Output0, Mask::Whole), get(Register::Input1, Swizzle::Whole))));
}

proof fn lemma_line3()
    ensures
        "0: MUL OUT[0], IN[0], CONST[0]\n"@ == line_text(0, Instruction::Multiply(put(Target::Output0, Mask::Whole), get(Register::Input0, Swizzle::Whole), get(Register::Constant0, Swizzle::Whole))),
{
    reveal_strlit("\n");
    reveal_strlit(", ");
    reveal_strlit("0");
    reveal_strlit("0: MUL OUT[0], IN[0], CONST[0]\n");
    reveal_strlit(": ");
    reveal_strlit("CONST[0]");
    reveal_strlit("IN[0]");
    reveal_strlit("MUL ");
    reveal_strlit("OUT[0]");
    assert("0: MUL OUT[0], IN[0], CONST[0]\n"@ =~= line_text(0, Instruction::Multiply(put(Target::Output0, Mask::Whole), get(Register::Input0, Swizzle::Whole), get(Register::Constant0, Swizzle::Whole))));
}

proof fn lemma_line4()
    ensures
        "0: MUL TEMP[0], CONST[0], IN[0].xxxx\n"@ == line_text(0, Instruction::Multiply(put(Target::Temporary, Mask::Whole), get(Register::Constant0, Swizzle::Whole), get(Register::Input0, Swizzle::X))),
{
    reveal_strlit("\n");
    reveal_strlit(", ");
    reveal_strlit(".xxxx");
    reveal_strlit("0");
    reveal_strlit("0: MUL TEMP[0], CONST[0], IN[0].xxxx\n");
    reveal_strlit(": ");
    reveal_strlit("CONST[0]");
    reveal_strlit("IN[0]");
    reveal_strlit("MUL ");
    reveal_strlit("TEMP[0]");
    assert("0: MUL TEMP[0], CONST[0], IN[0].xxxx\n"@ =~= line_text(0, Instruction::Multiply(put(Target::Temporary, Mask::Whole), get(Register::Constant0, Swizzle::Whole), get(Register::Input0, Swizzle::X))));
}

proof fn lemma_line5()
    ensures
        "0: TEX TEMP[0], IN[0], SAMP[0], 2D\n"@ == line_text(0, Instruction::Sample(put(Target::Temporary, Mask::Whole), get(Register::Input0, Swizzle::Whole))),
{
    reveal_strlit("\n");
    reveal_strlit(", ");
    reveal_strlit(", SAMP[0], 2D");
    reveal_strlit("0");
    reveal_strlit("0: TEX TEMP[0], IN[0], SAMP[0], 2D\n");
    reveal_strlit(": ");
    reveal_strlit("IN[0]");
    reveal_strlit("TEMP[0]");
    reveal_strlit("TEX ");
    assert("0: TEX TEMP[0], IN[0], SAMP[0], 2D\n"@ =~= line_text(0, Instruction::Sample(put(Target::Temporary, Mask::Whole), get(Register::Input0, Swizzle::Whole))));
}

proof fn lemma_line6()
    ensures
        "1: END\n"@ == line_text(1, Instruction::End),
{
    reveal_strlit("\n");
    reveal_strlit("1");
    reveal_strlit("1: END\n");
    reveal_strlit(": ");
    reveal_strlit("END");
    assert("1: END\n"@ =~= line_text(1, Instruction::End));
}

proof fn lemma_line7()
    ensures
        "1: MAD TEMP[0], CONST[1], IN[0].yyyy, TEMP[0]\n"@ == line_text(1, Instruction::MultiplyAdd(put(Target::Temporary, Mask::Whole), get(Register::Constant1, Swizzle::Whole), get(Register::Input0, Swizzle::Y), get(Register::Temporary, Swizzle::Whole))),
{
    reveal_strlit("\n");
    reveal_strlit(", ");
    reveal_strlit(".yyyy");
    reveal_strlit("1");
    reveal_strlit("1: MAD TEMP[0], CONST[1], IN[0].yyyy, TEMP[0]\n");
    reveal_strlit(": ");
    reveal_strlit("CONST[1]");
    reveal_strlit("IN[0]");
    reveal_strlit("MAD ");
    reveal_strlit("TEMP[0]");
    assert("1: MAD TEMP[0], CONST[1], IN[0].yyyy, TEMP[0]\n"@ =~= line_text(1, Instruction::MultiplyAdd(put(Target::Temporary, Mask::Whole), get(Register::Constant1, Swizzle::Whole), get(Register::Input0, Swizzle::Y), get(Register::Temporary, Swizzle::Whole))));
}

proof fn lemma_line8()
    ensures
        "1: MOV OUT[0].xyz, CONST[0].xyzx\n"@ == line_text(1, Instruction::Move(put(Target::Output0, Mask::Color), get(Register::Constant0, Swizzle::Color))),
{
    reveal_strlit("\n");
    reveal_strlit(", ");
    reveal_strlit(".xyz");
    reveal_strlit(".xyzx");
    reveal_strlit("1");
    reveal_strlit("1: MOV OUT[0].xyz, CONST[0].xyzx\n");
    reveal_strlit(": ");
    reveal_strlit("CONST[0]");
    reveal_strlit("MOV ");
    reveal_strlit("OUT[0]");
    assert("1: MOV OUT[0].xyz, CONST[0].xyzx\n"@ =~= line_text(1, Instruction::Move(put(Target::Output0, Mask::Color), get(Register::Constant0, Swizzle::Color))));
}

proof fn lemma_line9()
    ensures
        "1: MOV OUT[0].xyz, TEMP[0].xyzx\n"@ == line_text(1, Instruction::Move(put(Target::Output0, Mask::Color), get(Register::Temporary, Swizzle::Color))),
{
    reveal_strlit("\n");
    reveal_strlit(", ");
    reveal_strlit(".xyz");
    reveal_strlit(".xyzx");
    reveal_strlit("1");
    reveal_strlit("1: MOV OUT[0].xyz, TEMP[0].xyzx\n");
    reveal_strlit(": ");
    reveal_strlit("MOV ");
    reveal_strlit("OUT[0]");
    reveal_strlit("TEMP[0]");
    assert("1: MOV OUT[0].xyz, TEMP[0].xyzx\n"@ =~= line_text(1, Instruction::Move(put(Target::Output0, Mask::Color), get(Register::Temporary, Swizzle::Color))));
}

proof fn lemma_line10()
    ensures
        "1: MOV OUT[1], IN[1]\n"@ == line_text(1, Instruction::Move(put(Target::Output1, Mask::Whole), get(Register::Input1, Swizzle::Whole))),
{
    reveal_strlit("\n");
    reveal_strlit(", ");
    reveal_strlit("1");
    reveal_strlit("1: MOV OUT[1], IN[1]\n");
    reveal_strlit(": ");
    reveal_strlit("IN[1]");
    reveal_strlit("MOV ");
    reveal_strlit("OUT[1]");
    assert("1: MOV OUT[1], IN[1]\n"@ =~= line_text(1, Instruction::Move(put(Target::Output1, Mask::Whole), get(Register::Input1, Swizzle::Whole))));
}

proof fn lemma_line11()
    ensures
        "1: MUL OUT[0], TEMP[0], CONST[0]\n"@ == line_text(1, Instruction::Multiply(put(Target::Output0, Mask::Whole), get(Register::Temporary, Swizzle::Whole), get(Register::Constant0, Swizzle::Whole))),
{
    reveal_strlit("\n");
    reveal_strlit(", ");
    reveal_strlit("1");
    reveal_strlit("1: MUL OUT[0], TEMP[0], CONST[0]\n");
    reveal_strlit(": ");
    reveal_strlit("CONST[0]");
    reveal_strlit("MUL ");
    reveal_strlit("OUT[0]");
    reveal_strlit("TEMP[0]");
    assert("1: MUL OUT[0], TEMP[0], CONST[0]\n"@ =~= line_text(1, Instruction::Multiply(put(Target::Output0, Mask::Whole), get(Register::Temporary, Swizzle::Whole), get(Register::Constant0, Swizzle::Whole))));
}

proof fn lemma_line12()
    ensures
        "1: MUL OUT[0].xyz, TEMP[0].xyzx, CONST[0].xyzx\n"@ == line_text(1, Instruction::Multiply(put(Target::Output0, Mask::Color), get(Register::Temporary, Swizzle::Color), get(Register::Constant0, Swizzle::Color))),
{
    reveal_strlit("\n");
    reveal_strlit(", ");
    reveal_strlit(".xyz");
    reveal_strlit(".xyzx");
    reveal_strlit("1");
    reveal_strlit("1: MUL OUT[0].xyz, TEMP[0].xyzx, CONST[0].xyzx\n");
    reveal_strlit(": ");
    reveal_strlit("CONST[0]");
    reveal_strlit("MUL ");
    reveal_strlit("OUT[0]");
    reveal_strlit("TEMP[0]");
    assert("1: MUL OUT[0].xyz, TEMP[0].xyzx, CONST[0].xyzx\n"@ =~= line_text(1, Instruction::Multiply(put(Target::Output0, Mask::Color), get(Register::Temporary, Swizzle::Color), get(Register::Constant0, Swizzle::Color))));
}

proof fn lemma_line13()
    ensures
        "2: END\n"@ == line_text(2, Instruction::End),
{
    reveal_strlit("\n");
    reveal_strlit("2");
    reveal_strlit("2: END\n");
    reveal_strlit(": ");
    reveal_strlit("END");
    assert("2: END\n"@ =~= line_text(2, Instruction::End));
}

proof fn lemma_line14()
    ensures
        "2: MAD TEMP[0], CONST[2], IN[0].zzzz, TEMP[0]\n"@ == line_text(2, Instruction::MultiplyAdd(put(Target::Temporary, Mask::Whole), get(Register::Constant2, Swizzle::Whole), get(Register::Input0, Swizzle::Z), get(Register::Temporary, Swizzle::Whole))),
{
    reveal_strlit("\n");
    reveal_strlit(", ");
    reveal_strlit(".zzzz");
    reveal_strlit("2");
    reveal_strlit("2: MAD TEMP[0], CONST[2], IN[0].zzzz, TEMP[0]\n");
    reveal_strlit(": ");
    reveal_strlit("CONST[2]");
    reveal_strlit("IN[0]");
    reveal_strlit("MAD ");
    reveal_strlit("TEMP[0]");
    assert("2: MAD TEMP[0], CONST[2], IN[0].zzzz, TEMP[0]\n"@ =~= line_text(2, Instruction::MultiplyAdd(put(Target::Temporary, Mask::Whole), get(Register::Constant2, Swizzle::Whole), get(Register::Input0, Swizzle::Z), get(Register::Temporary, Swizzle::Whole))));
}

proof fn lemma_line15()
    ensures
        "2: MOV OUT[0].w, CONST[0].wwww\n"@ == line_text(2, Instruction::Move(put(Target::Output0, Mask::Alpha), get(Register::Constant0, Swizzle::W))),
{
    reveal_strlit("\n");
    reveal_strlit(", ");
    reveal_strlit(".w");
    reveal_strlit(".wwww");
    reveal_strlit("2");
    reveal_strlit("2: MOV OUT[0].w, CONST[0].wwww\n");
    reveal_strlit(": ");
    reveal_strlit("CONST[0]");
    reveal_strlit("MOV ");
    reveal_strlit("OUT[0]");
    assert("2: MOV OUT[0].w, CONST[0].wwww\n"@ =~= line_text(2, Instruction::Move(put(Target::Output0, Mask::Alpha), get(Register::Constant0, Swizzle::W))));
}

proof fn lemma_line16()
    ensures
        "2: MOV OUT[0].w, IN[1].wwww\n"@ == line_text(2, Instruction::Move(put(Target::Output0, Mask::Alpha), get(Register::Input1, Swizzle::W))),
{
    reveal_strlit("\n");
    reveal_strlit(", ");
    reveal_strlit(".w");
    reveal_strlit(".wwww");
    reveal_strlit("2");
    reveal_strlit("2: MOV OUT[0].w, IN[1].wwww\n");
    reveal_strlit(": ");
    reveal_strlit("IN[1]");
    reveal_strlit("MOV ");
    reveal_strlit("OUT[0]");
    assert("2: MOV OUT[0].w, IN[1].wwww\n"@ =~= line_text(2, Instruction::Move(put(Target::Output0, Mask::Alpha), get(Register::Input1, Swizzle::W))));
}

proof fn lemma_line17()
    ensures
        "2: MOV OUT[2], IN[2]\n"@ == line_text(2, Instruction::Move(put(Target::Output2, Mask::Whole), get(Register::Input2, Swizzle::Whole))),
{
    reveal_strlit("\n");
    reveal_strlit(", ");
    reveal_strlit("2");
    reveal_strlit("2: MOV OUT[2], IN[2]\n");
    reveal_strlit(": ");
    reveal_strlit("IN[2]");
    reveal_strlit("MOV ");
    reveal_strlit("OUT[2]");
    assert("2: MOV OUT[2], IN[2]\n"@ =~= line_text(2, Instruction::Move(put(Target::Output2, Mask::Whole), get(Register::Input2, Swizzle::Whole))));
}

proof fn lemma_line18()
    ensures
        "2: MUL OUT[0].w, TEMP[0].wwww, CONST[0].wwww\n"@ == line_text(2, Instruction::Multiply(put(Target::Output0, Mask::Alpha), get(Register::Temporary, Swizzle::W), get(Register::Constant0, Swizzle::W))),
{
    reveal_strlit("\n");
    reveal_strlit(", ");
    reveal_strlit(".w");
    reveal_strlit(".wwww");
    reveal_strlit("2");
    reveal_strlit("2: MUL OUT[0].w, TEMP[0].wwww, CONST[0].wwww\n");
    reveal_strlit(": ");
    reveal_strlit("CONST[0]");
    reveal_strlit("MUL ");
    reveal_strlit("OUT[0]");
    reveal_strlit("TEMP[0]");
    assert("2: MUL OUT[0].w, TEMP[0].wwww, CONST[0].wwww\n"@ =~= line_text(2, Instruction::Multiply(put(Target::Output0, Mask::Alpha), get(Register::Temporary, Swizzle::W), get(Register::Constant0, Swizzle::W))));
}

proof fn lemma_line19()
    ensures
        "2: MUL OUT[0].w, TEMP[0].wwww, IN[1].wwww\n"@ == line_text(2, Instruction::Multiply(put(Target::Output0, Mask::Alpha), get(Register::Temporary, Swizzle::W), get(Register::Input1, Swizzle::W))),
{
    reveal_strlit("\n");
    reveal_strlit(", ");
    reveal_strlit(".w");
    reveal_strlit(".wwww");
    reveal_strlit("2");
    reveal_strlit("2: MUL OUT[0].w, TEMP[0].wwww, IN[1].wwww\n");
    reveal_strlit(": ");
    reveal_strlit("IN[1]");
    reveal_strlit("MUL ");
    reveal_strlit("OUT[0]");
    reveal_strlit("TEMP[0]");
    assert("2: MUL OUT[0].w, TEMP[0].wwww, IN[1].wwww\n"@ =~= line_text(2, Instruction::Multiply(put(Target::Output0, Mask::Alpha), get(Register::Temporary, Swizzle::W), get(Register::Input1, Swizzle::W))));
}

proof fn lemma_line20()
    ensures
        "3: END\n"@ == line_text(3, Instruction::End),
{
    reveal_strlit("\n");
    reveal_strlit("3");
    reveal_strlit("3: END\n");
    reveal_strlit(": ");
    reveal_strlit("END");
    assert("3: END\n"@ =~= line_text(3, Instruction::End));
}

proof fn lemma_line21()
    ensures
        "3: MAD OUT[0], CONST[3], IN[0].wwww, TEMP[0]\n"@ == line_text(3, Instruction::MultiplyAdd(put(Target::Output0, Mask::Whole), get(Register::Constant3, Swizzle::Whole), get(Register::Input0, Swizzle::W), get(Register::Temporary, Swizzle::Whole))),
{
    reveal_strlit("\n");
    reveal_strlit(", ");
    reveal_strlit(".wwww");
    reveal_strlit("3");
    reveal_strlit("3: MAD OUT[0], CONST[3], IN[0].wwww, TEMP[0]\n");
    reveal_strlit(": ");
    reveal_strlit("CONST[3]");
    reveal_strlit("IN[0]");
    reveal_strlit("MAD ");
    reveal_strlit("OUT[0]");
    reveal_strlit("TEMP[0]");
    assert("3: MAD OUT[0], CONST[3], IN[0].wwww, TEMP[0]\n"@ =~= line_text(3, Instruction::MultiplyAdd(put(Target::Output0, Mask::Whole), get(Register::Constant3, Swizzle::Whole), get(Register::Input0, Swizzle::W), get(Register::Temporary, Swizzle::Whole))));
}

proof fn lemma_line22()
    ensures
        "4: MOV OUT[1], IN[1]\n"@ == line_text(4, Instruction::Move(put(Target::Output1, Mask::Whole), get(Register::Input1, Swizzle::Whole))),
{
    reveal_strlit("\n");
    reveal_strlit(", ");
    reveal_strlit("4");
    reveal_strlit("4: MOV OUT[1], IN[1]\n");
    reveal_strlit(": ");
    reveal_strlit("IN[1]");
    reveal_strlit("MOV ");
    reveal_strlit("OUT[1]");
    assert("4: MOV OUT[1], IN[1]\n"@ =~= line_text(4, Instruction::Move(put(Target::Output1, Mask::Whole), get(Register::Input1, Swizzle::Whole))));
}

proof fn lemma_line23()
    ensures
        "5: MOV OUT[2], IN[1]\n"@ == line_text(5, Instruction::Move(put(Target::Output2, Mask::Whole), get(Register::Input1, Swizzle::Whole))),
{
    reveal_strlit("\n");
    reveal_strlit(", ");
    reveal_strlit("5");
    reveal_strlit("5: MOV OUT[2], IN[1]\n");
    reveal_strlit(": ");
    reveal_strlit("IN[1]");
    reveal_strlit("MOV ");
    reveal_strlit("OUT[2]");
    assert("5: MOV OUT[2], IN[1]\n"@ =~= line_text(5, Instruction::Move(put(Target::Output2, Mask::Whole), get(Register::Input1, Swizzle::Whole))));
}

proof fn lemma_line24()
    ensures
        "6: END\n"@ == line_text(6, Instruction::End),
{
    reveal_strlit("\n");
    reveal_strlit("6");
    reveal_strlit("6: END\n");
    reveal_strlit(": ");
    reveal_strlit("END");
    assert("6: END\n"@ =~= line_text(6, Instruction::End));
}

/// The text of `VERTEX_SHADER` is that of its program.
#[verifier::rlimit(40)]
#[verifier::spinoff_prover]
pub proof fn lemma_vertex_shader_text()
    ensures
        VERTEX_SHADER@ == program_text(vertex_shader_program()),
{
    let text = VERTEX_SHADER@;
    reveal_strlit("VERT\nDCL IN[0]\nDCL IN[1]\nDCL OUT[0], POSITION\nDCL OUT[1], COLOR\n0: MOV OUT[0], IN[0]\n1: MOV OUT[1], IN[1]\n2: END\n");
    assert(text.subrange(0, 5) =~= "VERT\n"@) by {
        reveal_strlit("VERT\n");
    }
    assert(text.subrange(5, 15) =~= "DCL IN[0]\n"@) by {
        reveal_strlit("DCL IN[0]\n");
    }
    assert(text.subrange(15, 25) =~= "DCL IN[1]\n"@) by {
        reveal_strlit("DCL IN[1]\n");
    }
    assert(text.subrange(25, 46) =~= "DCL OUT[0], POSITION\n"@) by {
        reveal_strlit("DCL OUT[0], POSITION\n");
    }
    assert(text.subrange(46, 64) =~= "DCL OUT[1], COLOR\n"@) by {
        reveal_strlit("DCL OUT[1], COLOR\n");
    }
    assert(text.subrange(64, 85) =~= "0: MOV OUT[0], IN[0]\n"@) by {
        reveal_strlit("0: MOV OUT[0], IN[0]\n");
    }
    assert(text.subrange(85, 106) =~= "1: MOV OUT[1], IN[1]\n"@) by {
        reveal_strlit("1: MOV OUT[1], IN[1]\n");
    }
    assert(text.subrange(106, 113) =~= "2: END\n"@) by {
        reveal_strlit("2: END\n");
    }
    assert(text.subrange(0, 5) + text.subrange(5, 15) =~= text.subrange(0, 15));
    assert(text.subrange(0, 15) + text.subrange(15, 25) =~= text.subrange(0, 25));
    assert(text.subrange(0, 25) + text.subrange(25, 46) =~= text.subrange(0, 46));
    assert(text.subrange(0, 46) + text.subrange(46, 64) =~= text.subrange(0, 64));
    assert(text.subrange(0, 64) + text.subrange(64, 85) =~= text.subrange(0, 85));
    assert(text.subrange(0, 85) + text.subrange(85, 106) =~= text.subrange(0, 106));
    assert(text.subrange(0, 106) + text.subrange(106, 113) =~= text.subrange(0, 113));
    assert(text.subrange(0, 113) =~= text);
    let program = vertex_shader_program();
    assert(program.declarations.take(0) =~= Seq::empty());
    assert(declarations_text(program.declarations.take(0)) =~= Seq::<char>::empty());
    assert(text.subrange(0, 0) =~= Seq::<char>::empty());
    lemma_next_declaration(program.declarations, 0);
    assert(Seq::<char>::empty() + text.subrange(0, 5) =~= text.subrange(0, 5));
    assert(declarations_text(program.declarations.take(1)) == text.subrange(0, 5));
    lemma_next_declaration(program.declarations, 1);
    assert(declarations_text(program.declarations.take(2)) == text.subrange(0, 15));
    lemma_next_declaration(program.declarations, 2);
    assert(declarations_text(program.declarations.take(3)) == text.subrange(0, 25));
    lemma_next_declaration(program.declarations, 3);
    assert(declarations_text(program.declarations.take(4)) == text.subrange(0, 46));
    lemma_next_declaration(program.declarations, 4);
    assert(declarations_text(program.declarations.take(5)) == text.subrange(0, 64));
    assert(program.declarations.take(5) =~= program.declarations);
    assert(instructions_text(program.instructions.take(0)) =~= Seq::<char>::empty());
    lemma_line1();
    lemma_next_instruction(program.instructions, 0);
    assert(Seq::<char>::empty() + text.subrange(64, 85) =~= text.subrange(64, 85));
    assert(instructions_text(program.instructions.take(1)) == text.subrange(64, 85));
    lemma_line10();
    lemma_next_instruction(program.instructions, 1);
    assert(text.subrange(64, 85) + text.subrange(85, 106) =~= text.subrange(64, 106));
    assert(instructions_text(program.instructions.take(2)) == text.subrange(64, 106));
    lemma_line13();
    lemma_next_instruction(program.instructions, 2);
    assert(text.subrange(64, 106) + text.subrange(106, 113) =~= text.subrange(64, 113));
    assert(instructions_text(program.instructions.take(3)) == text.subrange(64, 113));
    assert(program.instructions.take(3) =~= program.instructions);
    assert(text.subrange(0, 64) + text.subrange(64, 113) =~= text);
}

/// The text of `FRAGMENT_SHADER` is that of its program.
#[verifier::rlimit(40)]
#[verifier::spinoff_prover]
pub proof fn lemma_fragment_shader_text()
    ensures
        FRAGMENT_SHADER@ == program_text(fragment_shader_program()),
{
    let text = FRAGMENT_SHADER@;
    reveal_strlit("FRAG\nPROPERTY FS_COLOR0_WRITES_ALL_CBUFS 1\nDCL IN[0], COLOR, PERSPECTIVE\nDCL OUT[0], COLOR\n0: MOV OUT[0], IN[0]\n1: END\n");
    assert(text.subrange(0, 5) =~= "FRAG\n"@) by {
        reveal_strlit("FRAG\n");
    }
    assert(text.subrange(5, 43) =~= "PROPERTY FS_COLOR0_WRITES_ALL_CBUFS 1\n"@) by {
        reveal_strlit("PROPERTY FS_COLOR0_WRITES_ALL_CBUFS 1\n");
    }
    assert(text.subrange(43, 73) =~= "DCL IN[0], COLOR, PERSPECTIVE\n"@) by {
        reveal_strlit("DCL IN[0], COLOR, PERSPECTIVE\n");
    }
    assert(text.subrange(73, 91) =~= "DCL OUT[0], COLOR\n"@) by {
        reveal_strlit("DCL OUT[0], COLOR\n");
    }
    assert(text.subrange(91, 112) =~= "0: MOV OUT[0], IN[0]\n"@) by {
        reveal_strlit("0: MOV OUT[0], IN[0]\n");
    }
    assert(text.subrange(112, 119) =~= "1: END\n"@) by {
        reveal_strlit("1: END\n");
    }
    assert(text.subrange(0, 5) + text.subrange(5, 43) =~= text.subrange(0, 43));
    assert(text.subrange(0, 43) + text.subrange(43, 73) =~= text.subrange(0, 73));
    assert(text.subrange(0, 73) + text.subrange(73, 91) =~= text.subrange(0, 91));
    assert(text.subrange(0, 91) + text.subrange(91, 112) =~= text.subrange(0, 112));
    assert(text.subrange(0, 112) + text.subrange(112, 119) =~= text.subrange(0, 119));
    assert(text.subrange(0, 119) =~= text);
    let program = fragment_shader_program();
    assert(program.declarations.take(0) =~= Seq::empty());
    assert(declarations_text(program.declarations.take(0)) =~= Seq::<char>::empty());
    assert(text.subrange(0, 0) =~= Seq::<char>::empty());
    lemma_next_declaration(program.declarations, 0);
    assert(Seq::<char>::empty() + text.subrange(0, 5) =~= text.subrange(0, 5));
    assert(declarations_text(program.declarations.take(1)) == text.subrange(0, 5));
    lemma_next_declaration(program.declarations, 1);
    assert(declarations_text(program.declarations.take(2)) == text.subrange(0, 43));
    lemma_next_declaration(program.declarations, 2);
    assert(declarations_text(program.declarations.take(3)) == text.subrange(0, 73));
    lemma_next_declaration(program.declarations, 3);
    assert(declarations_text(program.declarations.take(4)) == text.subrange(0, 91));
    assert(program.declarations.take(4) =~= program.declarations);
    assert(instructions_text(program.instructions.take(0)) =~= Seq::<char>::empty());
    lemma_line1();
    lemma_next_instruction(program.instructions, 0);
    assert(Seq::<char>::empty() + text.subrange(91, 112) =~= text.subrange(91, 112));
    assert(instructions_text(program.instructions.take(1)) == text.subrange(91, 112));
    lemma_line6();
    lemma_next_instruction(program.instructions, 1);
    assert(text.subrange(91, 112) + text.subrange(112, 119) =~= text.subrange(91, 119));
    assert(instructions_text(program.instructions.take(2)) == text.subrange(91, 119));
    assert(program.instructions.take(2) =~= program.instructions);
    assert(text.subrange(0, 91) + text.subrange(91, 119) =~= text);
}

/// The text of `COMPOSITION_VERTEX_SHADER` is that of its program.
#[verifier::rlimit(40)]
#[verifier::spinoff_prover]
pub proof fn lemma_composition_vertex_shader_text()
    ensures
        COMPOSITION_VERTEX_SHADER@ == program_text(composition_vertex_shader_program()),
{
    let text = COMPOSITION_VERTEX_SHADER@;
    reveal_strlit("VERT\nDCL IN[0]\nDCL IN[1]\nDCL IN[2]\nDCL OUT[0], POSITION\nDCL OUT[1], GENERIC[0]\nDCL OUT[2], COLOR\n0: MOV OUT[0], IN[0]\n1: MOV OUT[1], IN[1]\n2: MOV OUT[2], IN[2]\n3: END\n");
    assert(text.subrange(0, 5) =~= "VERT\n"@) by {
        reveal_strlit("VERT\n");
    }
    assert(text.subrange(5, 15) =~= "DCL IN[0]\n"@) by {
        reveal_strlit("DCL IN[0]\n");
    }
    assert(text.subrange(15, 25) =~= "DCL IN[1]\n"@) by {
        reveal_strlit("DCL IN[1]\n");
    }
    assert(text.subrange(25, 35) =~= "DCL IN[2]\n"@) by {
        reveal_strlit("DCL IN[2]\n");
    }
    assert(text.subrange(35, 56) =~= "DCL OUT[0], POSITION\n"@) by {
        reveal_strlit("DCL OUT[0], POSITION\n");
    }
    assert(text.subrange(56, 79) =~= "DCL OUT[1], GENERIC[0]\n"@) by {
        reveal_strlit("DCL OUT[1], GENERIC[0]\n");
    }
    assert(text.subrange(79, 97) =~= "DCL OUT[2], COLOR\n"@) by {
        reveal_strlit("DCL OUT[2], COLOR\n");
    }
    assert(text.subrange(97, 118) =~= "0: MOV OUT[0], IN[0]\n"@) by {
        reveal_strlit("0: MOV OUT[0], IN[0]\n");
    }
    assert(text.subrange(118, 139) =~= "1: MOV OUT[1], IN[1]\n"@) by {
        reveal_strlit("1: MOV OUT[1], IN[1]\n");
    }
    assert(text.subrange(139, 160) =~= "2: MOV OUT[2], IN[2]\n"@) by {
        reveal_strlit("2: MOV OUT[2], IN[2]\n");
    }
    assert(text.subrange(160, 167) =~= "3: END\n"@) by {
        reveal_strlit("3: END\n");
    }
    assert(text.subrange(0, 5) + text.subrange(5, 15) =~= text.subrange(0, 15));
    assert(text.subrange(0, 15) + text.subrange(15, 25) =~= text.subrange(0, 25));
    assert(text.subrange(0, 25) + text.subrange(25, 35) =~= text.subrange(0, 35));
    assert(text.subrange(0, 35) + text.subrange(35, 56) =~= text.subrange(0, 56));
    assert(text.subrange(0, 56) + text.subrange(56, 79) =~= text.subrange(0, 79));
    assert(text.subrange(0, 79) + text.subrange(79, 97) =~= text.subrange(0, 97));
    assert(text.subrange(0, 97) + text.subrange(97, 118) =~= text.subrange(0, 118));
    assert(text.subrange(0, 118) + text.subrange(118, 139) =~= text.subrange(0, 139));
    assert(text.subrange(0, 139) + text.subrange(139, 160) =~= text.subrange(0, 160));
    assert(text.subrange(0, 160) + text.subrange(160, 167) =~= text.subrange(0, 167));
    assert(text.subrange(0, 167) =~= text);
    let program = composition_vertex_shader_program();
    assert(program.declarations.take(0) =~= Seq::empty());
    assert(declarations_text(program.declarations.take(0)) =~= Seq::<char>::empty());
    assert(text.subrange(0, 0) =~= Seq::<char>::empty());
    lemma_next_declaration(program.declarations, 0);
    assert(Seq::<char>::empty() + text.subrange(0, 5) =~= text.subrange(0, 5));
    assert(declarations_text(program.declarations.take(1)) == text.subrange(0, 5));
    lemma_next_declaration(program.declarations, 1);
    assert(declarations_text(program.declarations.take(2)) == text.subrange(0, 15));
    lemma_next_declaration(program.declarations, 2);
    assert(declarations_text(program.declarations.take(3)) == text.subrange(0, 25));
    lemma_next_declaration(program.declarations, 3);
    assert(declarations_text(program.declarations.take(4)) == text.subrange(0, 35));
    lemma_next_declaration(program.declarations, 4);
    assert(declarations_text(program.declarations.take(5)) == text.subrange(0, 56));
    lemma_next_declaration(program.declarations, 5);
    assert(declarations_text(program.declarations.take(6)) == text.subrange(0, 79));
    lemma_next_declaration(program.declarations, 6);
    assert(declarations_text(program.declarations.take(7)) == text.subrange(0, 97));
    assert(program.declarations.take(7) =~= program.declarations);
    assert(instructions_text(program.instructions.take(0)) =~= Seq::<char>::empty());
    lemma_line1();
    lemma_next_instruction(program.instructions, 0);
    assert(Seq::<char>::empty() + text.subrange(97, 118) =~= text.subrange(97, 118));
    assert(instructions_text(program.instructions.take(1)) == text.subrange(97, 118));
    lemma_line10();
    lemma_next_instruction(program.instructions, 1);
    assert(text.subrange(97, 118) + text.subrange(118, 139) =~= text.subrange(97, 139));
    assert(instructions_text(program.instructions.take(2)) == text.subrange(97, 139));
    lemma_line17();
    lemma_next_instruction(program.instructions, 2);
    assert(text.subrange(97, 139) + text.subrange(139, 160) =~= text.subrange(97, 160));
    assert(instructions_text(program.instructions.take(3)) == text.subrange(97, 160));
    lemma_line20();
    lemma_next_instruction(program.instructions, 3);
    assert(text.subrange(97, 160) + text.subrange(160, 167) =~= text.subrange(97, 167));
    assert(instructions_text(program.instructions.take(4)) == text.subrange(97, 167));
    assert(program.instructions.take(4) =~= program.instructions);
    assert(text.subrange(0, 97) + text.subrange(97, 167) =~= text);
}

/// The text of `COMPOSITION_TEXTURE_ALPHA_SHADER` is that of its program.
#[verifier::rlimit(40)]
#[verifier::spinoff_prover]
pub proof fn lemma_composition_texture_alpha_shader_text()
    ensures
        COMPOSITION_TEXTURE_ALPHA_SHADER@ == program_text(
            composition_texture_alpha_shader_program(),
        ),
{
    let text = COMPOSITION_TEXTURE_ALPHA_SHADER@;
    reveal_strlit("FRAG\nPROPERTY FS_COLOR0_WRITES_ALL_CBUFS 1\nDCL IN[0], GENERIC[0], PERSPECTIVE\nDCL IN[1], COLOR, PERSPECTIVE\nDCL SAMP[0]\nDCL SVIEW[0], 2D, FLOAT\nDCL OUT[0], COLOR\nDCL TEMP[0]\n0: TEX TEMP[0], IN[0], SAMP[0], 2D\n1: MOV OUT[0].xyz, TEMP[0].xyzx\n2: MUL OUT[0].w, TEMP[0].wwww, IN[1].wwww\n3: END\n");
    assert(text.subrange(0, 5) =~= "FRAG\n"@) by {
        reveal_strlit("FRAG\n");
    }
    assert(text.subrange(5, 43) =~= "PROPERTY FS_COLOR0_WRITES_ALL_CBUFS 1\n"@) by {
        reveal_strlit("PROPERTY FS_COLOR0_WRITES_ALL_CBUFS 1\n");
    }
    assert(text.subrange(43, 78) =~= "DCL IN[0], GENERIC[0], PERSPECTIVE\n"@) by {
        reveal_strlit("DCL IN[0], GENERIC[0], PERSPECTIVE\n");
    }
    assert(text.subrange(78, 108) =~= "DCL IN[1], COLOR, PERSPECTIVE\n"@) by {
        reveal_strlit("DCL IN[1], COLOR, PERSPECTIVE\n");
    }
    assert(text.subrange(108, 120) =~= "DCL SAMP[0]\n"@) by {
        reveal_strlit("DCL SAMP[0]\n");
    }
    assert(text.subrange(120, 144) =~= "DCL SVIEW[0], 2D, FLOAT\n"@) by {
        reveal_strlit("DCL SVIEW[0], 2D, FLOAT\n");
    }
    assert(text.subrange(144, 162) =~= "DCL OUT[0], COLOR\n"@) by {
        reveal_strlit("DCL OUT[0], COLOR\n");
    }
    assert(text.subrange(162, 174) =~= "DCL TEMP[0]\n"@) by {
        reveal_strlit("DCL TEMP[0]\n");
    }
    assert(text.subrange(174, 209) =~= "0: TEX TEMP[0], IN[0], SAMP[0], 2D\n"@) by {
        reveal_strlit("0: TEX TEMP[0], IN[0], SAMP[0], 2D\n");
    }
    assert(text.subrange(209, 241) =~= "1: MOV OUT[0].xyz, TEMP[0].xyzx\n"@) by {
        reveal_strlit("1: MOV OUT[0].xyz, TEMP[0].xyzx\n");
    }
    assert(text.subrange(241, 283) =~= "2: MUL OUT[0].w, TEMP[0].wwww, IN[1].wwww\n"@) by {
        reveal_strlit("2: MUL OUT[0].w, TEMP[0].wwww, IN[1].wwww\n");
    }
    assert(text.subrange(283, 290) =~= "3: END\n"@) by {
        reveal_strlit("3: END\n");
    }
    assert(text.subrange(0, 5) + text.subrange(5, 43) =~= text.subrange(0, 43));
    assert(text.subrange(0, 43) + text.subrange(43, 78) =~= text.subrange(0, 78));
    assert(text.subrange(0, 78) + text.subrange(78, 108) =~= text.subrange(0, 108));
    assert(text.subrange(0, 108) + text.subrange(108, 120) =~= text.subrange(0, 120));
    assert(text.subrange(0, 120) + text.subrange(120, 144) =~= text.subrange(0, 144));
    assert(text.subrange(0, 144) + text.subrange(144, 162) =~= text.subrange(0, 162));
    assert(text.subrange(0, 162) + text.subrange(162, 174) =~= text.subrange(0, 174));
    assert(text.subrange(0, 174) + text.subrange(174, 209) =~= text.subrange(0, 209));
    assert(text.subrange(0, 209) + text.subrange(209, 241) =~= text.subrange(0, 241));
    assert(text.subrange(0, 241) + text.subrange(241, 283) =~= text.subrange(0, 283));
    assert(text.subrange(0, 283) + text.subrange(283, 290) =~= text.subrange(0, 290));
    assert(text.subrange(0, 290) =~= text);
    let program = composition_texture_alpha_shader_program();
    assert(program.declarations.take(0) =~= Seq::empty());
    assert(declarations_text(program.declarations.take(0)) =~= Seq::<char>::empty());
    assert(text.subrange(0, 0) =~= Seq::<char>::empty());
    lemma_next_declaration(program.declarations, 0);
    assert(Seq::<char>::empty() + text.subrange(0, 5) =~= text.subrange(0, 5));
    assert(declarations_text(program.declarations.take(1)) == text.subrange(0, 5));
    lemma_next_declaration(program.declarations, 1);
    assert(declarations_text(program.declarations.take(2)) == text.subrange(0, 43));
    lemma_next_declaration(program.declarations, 2);
    assert(declarations_text(program.declarations.take(3)) == text.subrange(0, 78));
    lemma_next_declaration(program.declarations, 3);
    assert(declarations_text(program.declarations.take(4)) == text.subrange(0, 108));
    lemma_next_declaration(program.declarations, 4);
    assert(declarations_text(program.declarations.take(5)) == text.subrange(0, 120));
    lemma_next_declaration(program.declarations, 5);
    assert(declarations_text(program.declarations.take(6)) == text.subrange(0, 144));
    lemma_next_declaration(program.declarations, 6);
    assert(declarations_text(program.declarations.take(7)) == text.subrange(0, 162));
    lemma_next_declaration(program.declarations, 7);
    assert(declarations_text(program.declarations.take(8)) == text.subrange(0, 174));
    assert(program.declarations.take(8) =~= program.declarations);
    assert(instructions_text(program.instructions.take(0)) =~= Seq::<char>::empty());
    lemma_line5();
    lemma_next_instruction(program.instructions, 0);
    assert(Seq::<char>::empty() + text.subrange(174, 209) =~= text.subrange(174, 209));
    assert(instructions_text(program.instructions.take(1)) == text.subrange(174, 209));
    lemma_line9();
    lemma_next_instruction(program.instructions, 1);
    assert(text.subrange(174, 209) + text.subrange(209, 241) =~= text.subrange(174, 241));
    assert(instructions_text(program.instructions.take(2)) == text.subrange(174, 241));
    lemma_line19();
    lemma_next_instruction(program.instructions, 2);
    assert(text.subrange(174, 241) + text.subrange(241, 283) =~= text.subrange(174, 283));
    assert(instructions_text(program.instructions.take(3)) == text.subrange(174, 283));
    lemma_line20();
    lemma_next_instruction(program.instructions, 3);
    assert(text.subrange(174, 283) + text.subrange(283, 290) =~= text.subrange(174, 290));
    assert(instructions_text(program.instructions.take(4)) == text.subrange(174, 290));
    assert(program.instructions.take(4) =~= program.instructions);
    assert(text.subrange(0, 174) + text.subrange(174, 290) =~= text);
}

/// The text of `COMPOSITION_TEXTURE_OPAQUE_SHADER` is that of its program.
#[verifier::rlimit(40)]
#[verifier::spinoff_prover]
pub proof fn lemma_composition_texture_opaque_shader_text()
    ensures
        COMPOSITION_TEXTURE_OPAQUE_SHADER@ == program_text(
            composition_texture_opaque_shader_program(),
        ),
{
    let text = COMPOSITION_TEXTURE_OPAQUE_SHADER@;
    reveal_strlit("FRAG\nPROPERTY FS_COLOR0_WRITES_ALL_CBUFS 1\nDCL IN[0], GENERIC[0], PERSPECTIVE\nDCL IN[1], COLOR, PERSPECTIVE\nDCL SAMP[0]\nDCL SVIEW[0], 2D, FLOAT\nDCL OUT[0], COLOR\nDCL TEMP[0]\n0: TEX TEMP[0], IN[0], SAMP[0], 2D\n1: MOV OUT[0].xyz, TEMP[0].xyzx\n2: MOV OUT[0].w, IN[1].wwww\n3: END\n");
    assert(text.subrange(0, 5) =~= "FRAG\n"@) by {
        reveal_strlit("FRAG\n");
    }
    assert(text.subrange(5, 43) =~= "PROPERTY FS_COLOR0_WRITES_ALL_CBUFS 1\n"@) by {
        reveal_strlit("PROPERTY FS_COLOR0_WRITES_ALL_CBUFS 1\n");
    }
    assert(text.subrange(43, 78) =~= "DCL IN[0], GENERIC[0], PERSPECTIVE\n"@) by {
        reveal_strlit("DCL IN[0], GENERIC[0], PERSPECTIVE\n");
    }
    assert(text.subrange(78, 108) =~= "DCL IN[1], COLOR, PERSPECTIVE\n"@) by {
        reveal_strlit("DCL IN[1], COLOR, PERSPECTIVE\n");
    }
    assert(text.subrange(108, 120) =~= "DCL SAMP[0]\n"@) by {
        reveal_strlit("DCL SAMP[0]\n");
    }
    assert(text.subrange(120, 144) =~= "DCL SVIEW[0], 2D, FLOAT\n"@) by {
        reveal_strlit("DCL SVIEW[0], 2D, FLOAT\n");
    }
    assert(text.subrange(144, 162) =~= "DCL OUT[0], COLOR\n"@) by {
        reveal_strlit("DCL OUT[0], COLOR\n");
    }
    assert(text.subrange(162, 174) =~= "DCL TEMP[0]\n"@) by {
        reveal_strlit("DCL TEMP[0]\n");
    }
    assert(text.subrange(174, 209) =~= "0: TEX TEMP[0], IN[0], SAMP[0], 2D\n"@) by {
        reveal_strlit("0: TEX TEMP[0], IN[0], SAMP[0], 2D\n");
    }
    assert(text.subrange(209, 241) =~= "1: MOV OUT[0].xyz, TEMP[0].xyzx\n"@) by {
        reveal_strlit("1: MOV OUT[0].xyz, TEMP[0].xyzx\n");
    }
    assert(text.subrange(241, 269) =~= "2: MOV OUT[0].w, IN[1].wwww\n"@) by {
        reveal_strlit("2: MOV OUT[0].w, IN[1].wwww\n");
    }
    assert(text.subrange(269, 276) =~= "3: END\n"@) by {
        reveal_strlit("3: END\n");
    }
    assert(text.subrange(0, 5) + text.subrange(5, 43) =~= text.subrange(0, 43));
    assert(text.subrange(0, 43) + text.subrange(43, 78) =~= text.subrange(0, 78));
    assert(text.subrange(0, 78) + text.subrange(78, 108) =~= text.subrange(0, 108));
    assert(text.subrange(0, 108) + text.subrange(108, 120) =~= text.subrange(0, 120));
    assert(text.subrange(0, 120) + text.subrange(120, 144) =~= text.subrange(0, 144));
    assert(text.subrange(0, 144) + text.subrange(144, 162) =~= text.subrange(0, 162));
    assert(text.subrange(0, 162) + text.subrange(162, 174) =~= text.subrange(0, 174));
    assert(text.subrange(0, 174) + text.subrange(174, 209) =~= text.subrange(0, 209));
    assert(text.subrange(0, 209) + text.subrange(209, 241) =~= text.subrange(0, 241));
    assert(text.subrange(0, 241) + text.subrange(241, 269) =~= text.subrange(0, 269));
    assert(text.subrange(0, 269) + text.subrange(269, 276) =~= text.subrange(0, 276));
    assert(text.subrange(0, 276) =~= text);
    let program = composition_texture_opaque_shader_program();
    assert(program.declarations.take(0) =~= Seq::empty());
    assert(declarations_text(program.declarations.take(0)) =~= Seq::<char>::empty());
    assert(text.subrange(0, 0) =~= Seq::<char>::empty());
    lemma_next_declaration(program.declarations, 0);
    assert(Seq::<char>::empty() + text.subrange(0, 5) =~= text.subrange(0, 5));
    assert(declarations_text(program.declarations.take(1)) == text.subrange(0, 5));
    lemma_next_declaration(program.declarations, 1);
    assert(declarations_text(program.declarations.take(2)) == text.subrange(0, 43));
    lemma_next_declaration(program.declarations, 2);
    assert(declarations_text(program.declarations.take(3)) == text.subrange(0, 78));
    lemma_next_declaration(program.declarations, 3);
    assert(declarations_text(program.declarations.take(4)) == text.subrange(0, 108));
    lemma_next_declaration(program.declarations, 4);
    assert(declarations_text(program.declarations.take(5)) == text.subrange(0, 120));
    lemma_next_declaration(program.declarations, 5);
    assert(declarations_text(program.declarations.take(6)) == text.subrange(0, 144));
    lemma_next_declaration(program.declarations, 6);
    assert(declarations_text(program.declarations.take(7)) == text.subrange(0, 162));
    lemma_next_declaration(program.declarations, 7);
    assert(declarations_text(program.declarations.take(8)) == text.subrange(0, 174));
    assert(program.declarations.take(8) =~= program.declarations);
    assert(instructions_text(program.instructions.take(0)) =~= Seq::<char>::empty());
    lemma_line5();
    lemma_next_instruction(program.instructions, 0);
    assert(Seq::<char>::empty() + text.subrange(174, 209) =~= text.subrange(174, 209));
    assert(instructions_text(program.instructions.take(1)) == text.subrange(174, 209));
    lemma_line9();
    lemma_next_instruction(program.instructions, 1);
    assert(text.subrange(174, 209) + text.subrange(209, 241) =~= text.subrange(174, 241));
    assert(instructions_text(program.instructions.take(2)) == text.subrange(174, 241));
    lemma_line16();
    lemma_next_instruction(program.instructions, 2);
    assert(text.subrange(174, 241) + text.subrange(241, 269) =~= text.subrange(174, 269));
    assert(instructions_text(program.instructions.take(3)) == text.subrange(174, 269));
    lemma_line20();
    lemma_next_instruction(program.instructions, 3);
    assert(text.subrange(174, 269) + text.subrange(269, 276) =~= text.subrange(174, 276));
    assert(instructions_text(program.instructions.take(4)) == text.subrange(174, 276));
    assert(program.instructions.take(4) =~= program.instructions);
    assert(text.subrange(0, 174) + text.subrange(174, 276) =~= text);
}

/// The text of `COMPOSITION_SOLID_SHADER` is that of its program.
#[verifier::rlimit(40)]
#[verifier::spinoff_prover]
pub proof fn lemma_composition_solid_shader_text()
    ensures
        COMPOSITION_SOLID_SHADER@ == program_text(composition_solid_shader_program()),
{
    let text = COMPOSITION_SOLID_SHADER@;
    reveal_strlit("FRAG\nPROPERTY FS_COLOR0_WRITES_ALL_CBUFS 1\nDCL IN[1], COLOR, PERSPECTIVE\nDCL OUT[0], COLOR\n0: MOV OUT[0], IN[1]\n1: END\n");
    assert(text.subrange(0, 5) =~= "FRAG\n"@) by {
        reveal_strlit("FRAG\n");
    }
    assert(text.subrange(5, 43) =~= "PROPERTY FS_COLOR0_WRITES_ALL_CBUFS 1\n"@) by {
        reveal_strlit("PROPERTY FS_COLOR0_WRITES_ALL_CBUFS 1\n");
    }
    assert(text.subrange(43, 73) =~= "DCL IN[1], COLOR, PERSPECTIVE\n"@) by {
        reveal_strlit("DCL IN[1], COLOR, PERSPECTIVE\n");
    }
    assert(text.subrange(73, 91) =~= "DCL OUT[0], COLOR\n"@) by {
        reveal_strlit("DCL OUT[0], COLOR\n");
    }
    assert(text.subrange(91, 112) =~= "0: MOV OUT[0], IN[1]\n"@) by {
        reveal_strlit("0: MOV OUT[0], IN[1]\n");
    }
    assert(text.subrange(112, 119) =~= "1: END\n"@) by {
        reveal_strlit("1: END\n");
    }
    assert(text.subrange(0, 5) + text.subrange(5, 43) =~= text.subrange(0, 43));
    assert(text.subrange(0, 43) + text.subrange(43, 73) =~= text.subrange(0, 73));
    assert(text.subrange(0, 73) + text.subrange(73, 91) =~= text.subrange(0, 91));
    assert(text.subrange(0, 91) + text.subrange(91, 112) =~= text.subrange(0, 112));
    assert(text.subrange(0, 112) + text.subrange(112, 119) =~= text.subrange(0, 119));
    assert(text.subrange(0, 119) =~= text);
    let program = composition_solid_shader_program();
    assert(program.declarations.take(0) =~= Seq::empty());
    assert(declarations_text(program.declarations.take(0)) =~= Seq::<char>::empty());
    assert(text.subrange(0, 0) =~= Seq::<char>::empty());
    lemma_next_declaration(program.declarations, 0);
    assert(Seq::<char>::empty() + text.subrange(0, 5) =~= text.subrange(0, 5));
    assert(declarations_text(program.declarations.take(1)) == text.subrange(0, 5));
    lemma_next_declaration(program.declarations, 1);
    assert(declarations_text(program.declarations.take(2)) == text.subrange(0, 43));
    lemma_next_declaration(program.declarations, 2);
    assert(declarations_text(program.declarations.take(3)) == text.subrange(0, 73));
    lemma_next_declaration(program.declarations, 3);
    assert(declarations_text(program.declarations.take(4)) == text.subrange(0, 91));
    assert(program.declarations.take(4) =~= program.declarations);
    assert(instructions_text(program.instructions.take(0)) =~= Seq::<char>::empty());
    lemma_line2();
    lemma_next_instruction(program.instructions, 0);
    assert(Seq::<char>::empty() + text.subrange(91, 112) =~= text.subrange(91, 112));
    assert(instructions_text(program.instructions.take(1)) == text.subrange(91, 112));
    lemma_line6();
    lemma_next_instruction(program.instructions, 1);
    assert(text.subrange(91, 112) + text.subrange(112, 119) =~= text.subrange(91, 119));
    assert(instructions_text(program.instructions.take(2)) == text.subrange(91, 119));
    assert(program.instructions.take(2) =~= program.instructions);
    assert(text.subrange(0, 91) + text.subrange(91, 119) =~= text);
}

/// The text of `IR_VERTEX_SHADER` is that of its program.
#[verifier::rlimit(40)]
#[verifier::spinoff_prover]
pub proof fn lemma_ir_vertex_shader_text()
    ensures
        IR_VERTEX_SHADER@ == program_text(ir_vertex_shader_program()),
{
    let text = IR_VERTEX_SHADER@;
    reveal_strlit("VERT\nDCL IN[0]\nDCL IN[1]\nDCL CONST[0..3]\nDCL OUT[0], POSITION\nDCL OUT[1], COLOR\nDCL OUT[2], GENERIC[0]\nDCL TEMP[0]\n0: MUL TEMP[0], CONST[0], IN[0].xxxx\n1: MAD TEMP[0], CONST[1], IN[0].yyyy, TEMP[0]\n2: MAD TEMP[0], CONST[2], IN[0].zzzz, TEMP[0]\n3: MAD OUT[0], CONST[3], IN[0].wwww, TEMP[0]\n4: MOV OUT[1], IN[1]\n5: MOV OUT[2], IN[1]\n6: END\n");
    assert(text.subrange(0, 5) =~= "VERT\n"@) by {
        reveal_strlit("VERT\n");
    }
    assert(text.subrange(5, 15) =~= "DCL IN[0]\n"@) by {
        reveal_strlit("DCL IN[0]\n");
    }
    assert(text.subrange(15, 25) =~= "DCL IN[1]\n"@) by {
        reveal_strlit("DCL IN[1]\n");
    }
    assert(text.subrange(25, 41) =~= "DCL CONST[0..3]\n"@) by {
        reveal_strlit("DCL CONST[0..3]\n");
    }
    assert(text.subrange(41, 62) =~= "DCL OUT[0], POSITION\n"@) by {
        reveal_strlit("DCL OUT[0], POSITION\n");
    }
    assert(text.subrange(62, 80) =~= "DCL OUT[1], COLOR\n"@) by {
        reveal_strlit("DCL OUT[1], COLOR\n");
    }
    assert(text.subrange(80, 103) =~= "DCL OUT[2], GENERIC[0]\n"@) by {
        reveal_strlit("DCL OUT[2], GENERIC[0]\n");
    }
    assert(text.subrange(103, 115) =~= "DCL TEMP[0]\n"@) by {
        reveal_strlit("DCL TEMP[0]\n");
    }
    assert(text.subrange(115, 152) =~= "0: MUL TEMP[0], CONST[0], IN[0].xxxx\n"@) by {
        reveal_strlit("0: MUL TEMP[0], CONST[0], IN[0].xxxx\n");
    }
    assert(text.subrange(152, 198) =~= "1: MAD TEMP[0], CONST[1], IN[0].yyyy, TEMP[0]\n"@) by {
        reveal_strlit("1: MAD TEMP[0], CONST[1], IN[0].yyyy, TEMP[0]\n");
    }
    assert(text.subrange(198, 244) =~= "2: MAD TEMP[0], CONST[2], IN[0].zzzz, TEMP[0]\n"@) by {
        reveal_strlit("2: MAD TEMP[0], CONST[2], IN[0].zzzz, TEMP[0]\n");
    }
    assert(text.subrange(244, 289) =~= "3: MAD OUT[0], CONST[3], IN[0].wwww, TEMP[0]\n"@) by {
        reveal_strlit("3: MAD OUT[0], CONST[3], IN[0].wwww, TEMP[0]\n");
    }
    assert(text.subrange(289, 310) =~= "4: MOV OUT[1], IN[1]\n"@) by {
        reveal_strlit("4: MOV OUT[1], IN[1]\n");
    }
    assert(text.subrange(310, 331) =~= "5: MOV OUT[2], IN[1]\n"@) by {
        reveal_strlit("5: MOV OUT[2], IN[1]\n");
    }
    assert(text.subrange(331, 338) =~= "6: END\n"@) by {
        reveal_strlit("6: END\n");
    }
    assert(text.subrange(0, 5) + text.subrange(5, 15) =~= text.subrange(0, 15));
    assert(text.subrange(0, 15) + text.subrange(15, 25) =~= text.subrange(0, 25));
    assert(text.subrange(0, 25) + text.subrange(25, 41) =~= text.subrange(0, 41));
    assert(text.subrange(0, 41) + text.subrange(41, 62) =~= text.subrange(0, 62));
    assert(text.subrange(0, 62) + text.subrange(62, 80) =~= text.subrange(0, 80));
    assert(text.subrange(0, 80) + text.subrange(80, 103) =~= text.subrange(0, 103));
    assert(text.subrange(0, 103) + text.subrange(103, 115) =~= text.subrange(0, 115));
    assert(text.subrange(0, 115) + text.subrange(115, 152) =~= text.subrange(0, 152));
    assert(text.subrange(0, 152) + text.subrange(152, 198) =~= text.subrange(0, 198));
    assert(text.subrange(0, 198) + text.subrange(198, 244) =~= text.subrange(0, 244));
    assert(text.subrange(0, 244) + text.subrange(244, 289) =~= text.subrange(0, 289));
    assert(text.subrange(0, 289) + text.subrange(289, 310) =~= text.subrange(0, 310));
    assert(text.subrange(0, 310) + text.subrange(310, 331) =~= text.subrange(0, 331));
    assert(text.subrange(0, 331) + text.subrange(331, 338) =~= text.subrange(0, 338));
    assert(text.subrange(0, 338) =~= text);
    let program = ir_vertex_shader_program();
    assert(program.declarations.take(0) =~= Seq::empty());
    assert(declarations_text(program.declarations.take(0)) =~= Seq::<char>::empty());
    assert(text.subrange(0, 0) =~= Seq::<char>::empty());
    lemma_next_declaration(program.declarations, 0);
    assert(Seq::<char>::empty() + text.subrange(0, 5) =~= text.subrange(0, 5));
    assert(declarations_text(program.declarations.take(1)) == text.subrange(0, 5));
    lemma_next_declaration(program.declarations, 1);
    assert(declarations_text(program.declarations.take(2)) == text.subrange(0, 15));
    lemma_next_declaration(program.declarations, 2);
    assert(declarations_text(program.declarations.take(3)) == text.subrange(0, 25));
    lemma_next_declaration(program.declarations, 3);
    assert(declarations_text(program.declarations.take(4)) == text.subrange(0, 41));
    lemma_next_declaration(program.declarations, 4);
    assert(declarations_text(program.declarations.take(5)) == text.subrange(0, 62));
    lemma_next_declaration(program.declarations, 5);
    assert(declarations_text(program.declarations.take(6)) == text.subrange(0, 80));
    lemma_next_declaration(program.declarations, 6);
    assert(declarations_text(program.declarations.take(7)) == text.subrange(0, 103));
    lemma_next_declaration(program.declarations, 7);
    assert(declarations_text(program.declarations.take(8)) == text.subrange(0, 115));
    assert(program.declarations.take(8) =~= program.declarations);
    assert(instructions_text(program.instructions.take(0)) =~= Seq::<char>::empty());
    lemma_line4();
    lemma_next_instruction(program.instructions, 0);
    assert(Seq::<char>::empty() + text.subrange(115, 152) =~= text.subrange(115, 152));
    assert(instructions_text(program.instructions.take(1)) == text.subrange(115, 152));
    lemma_line7();
    lemma_next_instruction(program.instructions, 1);
    assert(text.subrange(115, 152) + text.subrange(152, 198) =~= text.subrange(115, 198));
    assert(instructions_text(program.instructions.take(2)) == text.subrange(115, 198));
    lemma_line14();
    lemma_next_instruction(program.instructions, 2);
    assert(text.subrange(115, 198) + text.subrange(198, 244) =~= text.subrange(115, 244));
    assert(instructions_text(program.instructions.take(3)) == text.subrange(115, 244));
    lemma_line21();
    lemma_next_instruction(program.instructions, 3);
    assert(text.subrange(115, 244) + text.subrange(244, 289) =~= text.subrange(115, 289));
    assert(instructions_text(program.instructions.take(4)) == text.subrange(115, 289));
    lemma_line22();
    lemma_next_instruction(program.instructions, 4);
    assert(text.subrange(115, 289) + text.subrange(289, 310) =~= text.subrange(115, 310));
    assert(instructions_text(program.instructions.take(5)) == text.subrange(115, 310));
    lemma_line23();
    lemma_next_instruction(program.instructions, 5);
    assert(text.subrange(115, 310) + text.subrange(310, 331) =~= text.subrange(115, 331));
    assert(instructions_text(program.instructions.take(6)) == text.subrange(115, 331));
    lemma_line24();
    lemma_next_instruction(program.instructions, 6);
    assert(text.subrange(115, 331) + text.subrange(331, 338) =~= text.subrange(115, 338));
    assert(instructions_text(program.instructions.take(7)) == text.subrange(115, 338));
    assert(program.instructions.take(7) =~= program.instructions);
    assert(text.subrange(0, 115) + text.subrange(115, 338) =~= text);
}

/// The text of `IR_SOLID_FRAGMENT_SHADER` is that of its program.
#[verifier::rlimit(40)]
#[verifier::spinoff_prover]
pub proof fn lemma_ir_solid_fragment_shader_text()
    ensures
        IR_SOLID_FRAGMENT_SHADER@ == program_text(ir_solid_fragment_shader_program()),
{
    let text = IR_SOLID_FRAGMENT_SHADER@;
    reveal_strlit("FRAG\nPROPERTY FS_COLOR0_WRITES_ALL_CBUFS 1\nDCL CONST[0]\nDCL OUT[0], COLOR\n0: MOV OUT[0], CONST[0]\n1: END\n");
    assert(text.subrange(0, 5) =~= "FRAG\n"@) by {
        reveal_strlit("FRAG\n");
    }
    assert(text.subrange(5, 43) =~= "PROPERTY FS_COLOR0_WRITES_ALL_CBUFS 1\n"@) by {
        reveal_strlit("PROPERTY FS_COLOR0_WRITES_ALL_CBUFS 1\n");
    }
    assert(text.subrange(43, 56) =~= "DCL CONST[0]\n"@) by {
        reveal_strlit("DCL CONST[0]\n");
    }
    assert(text.subrange(56, 74) =~= "DCL OUT[0], COLOR\n"@) by {
        reveal_strlit("DCL OUT[0], COLOR\n");
    }
    assert(text.subrange(74, 98) =~= "0: MOV OUT[0], CONST[0]\n"@) by {
        reveal_strlit("0: MOV OUT[0], CONST[0]\n");
    }
    assert(text.subrange(98, 105) =~= "1: END\n"@) by {
        reveal_strlit("1: END\n");
    }
    assert(text.subrange(0, 5) + text.subrange(5, 43) =~= text.subrange(0, 43));
    assert(text.subrange(0, 43) + text.subrange(43, 56) =~= text.subrange(0, 56));
    assert(text.subrange(0, 56) + text.subrange(56, 74) =~= text.subrange(0, 74));
    assert(text.subrange(0, 74) + text.subrange(74, 98) =~= text.subrange(0, 98));
    assert(text.subrange(0, 98) + text.subrange(98, 105) =~= text.subrange(0, 105));
    assert(text.subrange(0, 105) =~= text);
    let program = ir_solid_fragment_shader_program();
    assert(program.declarations.take(0) =~= Seq::empty());
    assert(declarations_text(program.declarations.take(0)) =~= Seq::<char>::empty());
    assert(text.subrange(0, 0) =~= Seq::<char>::empty());
    lemma_next_declaration(program.declarations, 0);
    assert(Seq::<char>::empty() + text.subrange(0, 5) =~= text.subrange(0, 5));
    assert(declarations_text(program.declarations.take(1)) == text.subrange(0, 5));
    lemma_next_declaration(program.declarations, 1);
    assert(declarations_text(program.declarations.take(2)) == text.subrange(0, 43));
    lemma_next_declaration(program.declarations, 2);
    assert(declarations_text(program.declarations.take(3)) == text.subrange(0, 56));
    lemma_next_declaration(program.declarations, 3);
    assert(declarations_text(program.declarations.take(4)) == text.subrange(0, 74));
    assert(program.declarations.take(4) =~= program.declarations);
    assert(instructions_text(program.instructions.take(0)) =~= Seq::<char>::empty());
    lemma_line0();
    lemma_next_instruction(program.instructions, 0);
    assert(Seq::<char>::empty() + text.subrange(74, 98) =~= text.subrange(74, 98));
    assert(instructions_text(program.instructions.take(1)) == text.subrange(74, 98));
    lemma_line6();
    lemma_next_instruction(program.instructions, 1);
    assert(text.subrange(74, 98) + text.subrange(98, 105) =~= text.subrange(74, 105));
    assert(instructions_text(program.instructions.take(2)) == text.subrange(74, 105));
    assert(program.instructions.take(2) =~= program.instructions);
    assert(text.subrange(0, 74) + text.subrange(74, 105) =~= text);
}

/// The text of `IR_VERTEX_COLOR_FRAGMENT_SHADER` is that of its program.
#[verifier::rlimit(40)]
#[verifier::spinoff_prover]
pub proof fn lemma_ir_vertex_color_fragment_shader_text()
    ensures
        IR_VERTEX_COLOR_FRAGMENT_SHADER@ == program_text(ir_vertex_color_fragment_shader_program()),
{
    let text = IR_VERTEX_COLOR_FRAGMENT_SHADER@;
    reveal_strlit("FRAG\nPROPERTY FS_COLOR0_WRITES_ALL_CBUFS 1\nDCL IN[0], COLOR, PERSPECTIVE\nDCL CONST[0]\nDCL OUT[0], COLOR\n0: MUL OUT[0], IN[0], CONST[0]\n1: END\n");
    assert(text.subrange(0, 5) =~= "FRAG\n"@) by {
        reveal_strlit("FRAG\n");
    }
    assert(text.subrange(5, 43) =~= "PROPERTY FS_COLOR0_WRITES_ALL_CBUFS 1\n"@) by {
        reveal_strlit("PROPERTY FS_COLOR0_WRITES_ALL_CBUFS 1\n");
    }
    assert(text.subrange(43, 73) =~= "DCL IN[0], COLOR, PERSPECTIVE\n"@) by {
        reveal_strlit("DCL IN[0], COLOR, PERSPECTIVE\n");
    }
    assert(text.subrange(73, 86) =~= "DCL CONST[0]\n"@) by {
        reveal_strlit("DCL CONST[0]\n");
    }
    assert(text.subrange(86, 104) =~= "DCL OUT[0], COLOR\n"@) by {
        reveal_strlit("DCL OUT[0], COLOR\n");
    }
    assert(text.subrange(104, 135) =~= "0: MUL OUT[0], IN[0], CONST[0]\n"@) by {
        reveal_strlit("0: MUL OUT[0], IN[0], CONST[0]\n");
    }
    assert(text.subrange(135, 142) =~= "1: END\n"@) by {
        reveal_strlit("1: END\n");
    }
    assert(text.subrange(0, 5) + text.subrange(5, 43) =~= text.subrange(0, 43));
    assert(text.subrange(0, 43) + text.subrange(43, 73) =~= text.subrange(0, 73));
    assert(text.subrange(0, 73) + text.subrange(73, 86) =~= text.subrange(0, 86));
    assert(text.subrange(0, 86) + text.subrange(86, 104) =~= text.subrange(0, 104));
    assert(text.subrange(0, 104) + text.subrange(104, 135) =~= text.subrange(0, 135));
    assert(text.subrange(0, 135) + text.subrange(135, 142) =~= text.subrange(0, 142));
    assert(text.subrange(0, 142) =~= text);
    let program = ir_vertex_color_fragment_shader_program();
    assert(program.declarations.take(0) =~= Seq::empty());
    assert(declarations_text(program.declarations.take(0)) =~= Seq::<char>::empty());
    assert(text.subrange(0, 0) =~= Seq::<char>::empty());
    lemma_next_declaration(program.declarations, 0);
    assert(Seq::<char>::empty() + text.subrange(0, 5) =~= text.subrange(0, 5));
    assert(declarations_text(program.declarations.take(1)) == text.subrange(0, 5));
    lemma_next_declaration(program.declarations, 1);
    assert(declarations_text(program.declarations.take(2)) == text.subrange(0, 43));
    lemma_next_declaration(program.declarations, 2);
    assert(declarations_text(program.declarations.take(3)) == text.subrange(0, 73));
    lemma_next_declaration(program.declarations, 3);
    assert(declarations_text(program.declarations.take(4)) == text.subrange(0, 86));
    lemma_next_declaration(program.declarations, 4);
    assert(declarations_text(program.declarations.take(5)) == text.subrange(0, 104));
    assert(program.declarations.take(5) =~= program.declarations);
    assert(instructions_text(program.instructions.take(0)) =~= Seq::<char>::empty());
    lemma_line3();
    lemma_next_instruction(program.instructions, 0);
    assert(Seq::<char>::empty() + text.subrange(104, 135) =~= text.subrange(104, 135));
    assert(instructions_text(program.instructions.take(1)) == text.subrange(104, 135));
    lemma_line6();
    lemma_next_instruction(program.instructions, 1);
    assert(text.subrange(104, 135) + text.subrange(135, 142) =~= text.subrange(104, 142));
    assert(instructions_text(program.instructions.take(2)) == text.subrange(104, 142));
    assert(program.instructions.take(2) =~= program.instructions);
    assert(text.subrange(0, 104) + text.subrange(104, 142) =~= text);
}

/// The text of `IR_TEXTURE_RGBA_FRAGMENT_SHADER` is that of its program.
#[verifier::rlimit(40)]
#[verifier::spinoff_prover]
pub proof fn lemma_ir_texture_rgba_fragment_shader_text()
    ensures
        IR_TEXTURE_RGBA_FRAGMENT_SHADER@ == program_text(ir_texture_rgba_fragment_shader_program()),
{
    let text = IR_TEXTURE_RGBA_FRAGMENT_SHADER@;
    reveal_strlit("FRAG\nPROPERTY FS_COLOR0_WRITES_ALL_CBUFS 1\nDCL IN[0], GENERIC[0], PERSPECTIVE\nDCL CONST[0]\nDCL SAMP[0]\nDCL SVIEW[0], 2D, FLOAT\nDCL OUT[0], COLOR\nDCL TEMP[0]\n0: TEX TEMP[0], IN[0], SAMP[0], 2D\n1: MUL OUT[0], TEMP[0], CONST[0]\n2: END\n");
    assert(text.subrange(0, 5) =~= "FRAG\n"@) by {
        reveal_strlit("FRAG\n");
    }
    assert(text.subrange(5, 43) =~= "PROPERTY FS_COLOR0_WRITES_ALL_CBUFS 1\n"@) by {
        reveal_strlit("PROPERTY FS_COLOR0_WRITES_ALL_CBUFS 1\n");
    }
    assert(text.subrange(43, 78) =~= "DCL IN[0], GENERIC[0], PERSPECTIVE\n"@) by {
        reveal_strlit("DCL IN[0], GENERIC[0], PERSPECTIVE\n");
    }
    assert(text.subrange(78, 91) =~= "DCL CONST[0]\n"@) by {
        reveal_strlit("DCL CONST[0]\n");
    }
    assert(text.subrange(91, 103) =~= "DCL SAMP[0]\n"@) by {
        reveal_strlit("DCL SAMP[0]\n");
    }
    assert(text.subrange(103, 127) =~= "DCL SVIEW[0], 2D, FLOAT\n"@) by {
        reveal_strlit("DCL SVIEW[0], 2D, FLOAT\n");
    }
    assert(text.subrange(127, 145) =~= "DCL OUT[0], COLOR\n"@) by {
        reveal_strlit("DCL OUT[0], COLOR\n");
    }
    assert(text.subrange(145, 157) =~= "DCL TEMP[0]\n"@) by {
        reveal_strlit("DCL TEMP[0]\n");
    }
    assert(text.subrange(157, 192) =~= "0: TEX TEMP[0], IN[0], SAMP[0], 2D\n"@) by {
        reveal_strlit("0: TEX TEMP[0], IN[0], SAMP[0], 2D\n");
    }
    assert(text.subrange(192, 225) =~= "1: MUL OUT[0], TEMP[0], CONST[0]\n"@) by {
        reveal_strlit("1: MUL OUT[0], TEMP[0], CONST[0]\n");
    }
    assert(text.subrange(225, 232) =~= "2: END\n"@) by {
        reveal_strlit("2: END\n");
    }
    assert(text.subrange(0, 5) + text.subrange(5, 43) =~= text.subrange(0, 43));
    assert(text.subrange(0, 43) + text.subrange(43, 78) =~= text.subrange(0, 78));
    assert(text.subrange(0, 78) + text.subrange(78, 91) =~= text.subrange(0, 91));
    assert(text.subrange(0, 91) + text.subrange(91, 103) =~= text.subrange(0, 103));
    assert(text.subrange(0, 103) + text.subrange(103, 127) =~= text.subrange(0, 127));
    assert(text.subrange(0, 127) + text.subrange(127, 145) =~= text.subrange(0, 145));
    assert(text.subrange(0, 145) + text.subrange(145, 157) =~= text.subrange(0, 157));
    assert(text.subrange(0, 157) + text.subrange(157, 192) =~= text.subrange(0, 192));
    assert(text.subrange(0, 192) + text.subrange(192, 225) =~= text.subrange(0, 225));
    assert(text.subrange(0, 225) + text.subrange(225, 232) =~= text.subrange(0, 232));
    assert(text.subrange(0, 232) =~= text);
    let program = ir_texture_rgba_fragment_shader_program();
    assert(program.declarations.take(0) =~= Seq::empty());
    assert(declarations_text(program.declarations.take(0)) =~= Seq::<char>::empty());
    assert(text.subrange(0, 0) =~= Seq::<char>::empty());
    lemma_next_declaration(program.declarations, 0);
    assert(Seq::<char>::empty() + text.subrange(0, 5) =~= text.subrange(0, 5));
    assert(declarations_text(program.declarations.take(1)) == text.subrange(0, 5));
    lemma_next_declaration(program.declarations, 1);
    assert(declarations_text(program.declarations.take(2)) == text.subrange(0, 43));
    lemma_next_declaration(program.declarations, 2);
    assert(declarations_text(program.declarations.take(3)) == text.subrange(0, 78));
    lemma_next_declaration(program.declarations, 3);
    assert(declarations_text(program.declarations.take(4)) == text.subrange(0, 91));
    lemma_next_declaration(program.declarations, 4);
    assert(declarations_text(program.declarations.take(5)) == text.subrange(0, 103));
    lemma_next_declaration(program.declarations, 5);
    assert(declarations_text(program.declarations.take(6)) == text.subrange(0, 127));
    lemma_next_declaration(program.declarations, 6);
    assert(declarations_text(program.declarations.take(7)) == text.subrange(0, 145));
    lemma_next_declaration(program.declarations, 7);
    assert(declarations_text(program.declarations.take(8)) == text.subrange(0, 157));
    assert(program.declarations.take(8) =~= program.declarations);
    assert(instructions_text(program.instructions.take(0)) =~= Seq::<char>::empty());
    lemma_line5();
    lemma_next_instruction(program.instructions, 0);
    assert(Seq::<char>::empty() + text.subrange(157, 192) =~= text.subrange(157, 192));
    assert(instructions_text(program.instructions.take(1)) == text.subrange(157, 192));
    lemma_line11();
    lemma_next_instruction(program.instructions, 1);
    assert(text.subrange(157, 192) + text.subrange(192, 225) =~= text.subrange(157, 225));
    assert(instructions_text(program.instructions.take(2)) == text.subrange(157, 225));
    lemma_line13();
    lemma_next_instruction(program.instructions, 2);
    assert(text.subrange(157, 225) + text.subrange(225, 232) =~= text.subrange(157, 232));
    assert(instructions_text(program.instructions.take(3)) == text.subrange(157, 232));
    assert(program.instructions.take(3) =~= program.instructions);
    assert(text.subrange(0, 157) + text.subrange(157, 232) =~= text);
}

/// The text of `IR_TEXTURE_RGB_IGNORE_ALPHA_FRAGMENT_SHADER` is that of its program.
#[verifier::rlimit(40)]
#[verifier::spinoff_prover]
pub proof fn lemma_ir_texture_rgb_ignore_alpha_fragment_shader_text()
    ensures
        IR_TEXTURE_RGB_IGNORE_ALPHA_FRAGMENT_SHADER@ == program_text(
            ir_texture_rgb_ignore_alpha_fragment_shader_program(),
        ),
{
    let text = IR_TEXTURE_RGB_IGNORE_ALPHA_FRAGMENT_SHADER@;
    reveal_strlit("FRAG\nPROPERTY FS_COLOR0_WRITES_ALL_CBUFS 1\nDCL IN[0], GENERIC[0], PERSPECTIVE\nDCL CONST[0]\nDCL SAMP[0]\nDCL SVIEW[0], 2D, FLOAT\nDCL OUT[0], COLOR\nDCL TEMP[0]\n0: TEX TEMP[0], IN[0], SAMP[0], 2D\n1: MUL OUT[0].xyz, TEMP[0].xyzx, CONST[0].xyzx\n2: MOV OUT[0].w, CONST[0].wwww\n3: END\n");
    assert(text.subrange(0, 5) =~= "FRAG\n"@) by {
        reveal_strlit("FRAG\n");
    }
    assert(text.subrange(5, 43) =~= "PROPERTY FS_COLOR0_WRITES_ALL_CBUFS 1\n"@) by {
        reveal_strlit("PROPERTY FS_COLOR0_WRITES_ALL_CBUFS 1\n");
    }
    assert(text.subrange(43, 78) =~= "DCL IN[0], GENERIC[0], PERSPECTIVE\n"@) by {
        reveal_strlit("DCL IN[0], GENERIC[0], PERSPECTIVE\n");
    }
    assert(text.subrange(78, 91) =~= "DCL CONST[0]\n"@) by {
        reveal_strlit("DCL CONST[0]\n");
    }
    assert(text.subrange(91, 103) =~= "DCL SAMP[0]\n"@) by {
        reveal_strlit("DCL SAMP[0]\n");
    }
    assert(text.subrange(103, 127) =~= "DCL SVIEW[0], 2D, FLOAT\n"@) by {
        reveal_strlit("DCL SVIEW[0], 2D, FLOAT\n");
    }
    assert(text.subrange(127, 145) =~= "DCL OUT[0], COLOR\n"@) by {
        reveal_strlit("DCL OUT[0], COLOR\n");
    }
    assert(text.subrange(145, 157) =~= "DCL TEMP[0]\n"@) by {
        reveal_strlit("DCL TEMP[0]\n");
    }
    assert(text.subrange(157, 192) =~= "0: TEX TEMP[0], IN[0], SAMP[0], 2D\n"@) by {
        reveal_strlit("0: TEX TEMP[0], IN[0], SAMP[0], 2D\n");
    }
    assert(text.subrange(192, 239) =~= "1: MUL OUT[0].xyz, TEMP[0].xyzx, CONST[0].xyzx\n"@) by {
        reveal_strlit("1: MUL OUT[0].xyz, TEMP[0].xyzx, CONST[0].xyzx\n");
    }
    assert(text.subrange(239, 270) =~= "2: MOV OUT[0].w, CONST[0].wwww\n"@) by {
        reveal_strlit("2: MOV OUT[0].w, CONST[0].wwww\n");
    }
    assert(text.subrange(270, 277) =~= "3: END\n"@) by {
        reveal_strlit("3: END\n");
    }
    assert(text.subrange(0, 5) + text.subrange(5, 43) =~= text.subrange(0, 43));
    assert(text.subrange(0, 43) + text.subrange(43, 78) =~= text.subrange(0, 78));
    assert(text.subrange(0, 78) + text.subrange(78, 91) =~= text.subrange(0, 91));
    assert(text.subrange(0, 91) + text.subrange(91, 103) =~= text.subrange(0, 103));
    assert(text.subrange(0, 103) + text.subrange(103, 127) =~= text.subrange(0, 127));
    assert(text.subrange(0, 127) + text.subrange(127, 145) =~= text.subrange(0, 145));
    assert(text.subrange(0, 145) + text.subrange(145, 157) =~= text.subrange(0, 157));
    assert(text.subrange(0, 157) + text.subrange(157, 192) =~= text.subrange(0, 192));
    assert(text.subrange(0, 192) + text.subrange(192, 239) =~= text.subrange(0, 239));
    assert(text.subrange(0, 239) + text.subrange(239, 270) =~= text.subrange(0, 270));
    assert(text.subrange(0, 270) + text.subrange(270, 277) =~= text.subrange(0, 277));
    assert(text.subrange(0, 277) =~= text);
    let program = ir_texture_rgb_ignore_alpha_fragment_shader_program();
    assert(program.declarations.take(0) =~= Seq::empty());
    assert(declarations_text(program.declarations.take(0)) =~= Seq::<char>::empty());
    assert(text.subrange(0, 0) =~= Seq::<char>::empty());
    lemma_next_declaration(program.declarations, 0);
    assert(Seq::<char>::empty() + text.subrange(0, 5) =~= text.subrange(0, 5));
    assert(declarations_text(program.declarations.take(1)) == text.subrange(0, 5));
    lemma_next_declaration(program.declarations, 1);
    assert(declarations_text(program.declarations.take(2)) == text.subrange(0, 43));
    lemma_next_declaration(program.declarations, 2);
    assert(declarations_text(program.declarations.take(3)) == text.subrange(0, 78));
    lemma_next_declaration(program.declarations, 3);
    assert(declarations_text(program.declarations.take(4)) == text.subrange(0, 91));
    lemma_next_declaration(program.declarations, 4);
    assert(declarations_text(program.declarations.take(5)) == text.subrange(0, 103));
    lemma_next_declaration(program.declarations, 5);
    assert(declarations_text(program.declarations.take(6)) == text.subrange(0, 127));
    lemma_next_declaration(program.declarations, 6);
    assert(declarations_text(program.declarations.take(7)) == text.subrange(0, 145));
    lemma_next_declaration(program.declarations, 7);
    assert(declarations_text(program.declarations.take(8)) == text.subrange(0, 157));
    assert(program.declarations.take(8) =~= program.declarations);
    assert(instructions_text(program.instructions.take(0)) =~= Seq::<char>::empty());
    lemma_line5();
    lemma_next_instruction(program.instructions, 0);
    assert(Seq::<char>::empty() + text.subrange(157, 192) =~= text.subrange(157, 192));
    assert(instructions_text(program.instructions.take(1)) == text.subrange(157, 192));
    lemma_line12();
    lemma_next_instruction(program.instructions, 1);
    assert(text.subrange(157, 192) + text.subrange(192, 239) =~= text.subrange(157, 239));
    assert(instructions_text(program.instructions.take(2)) == text.subrange(157, 239));
    lemma_line15();
    lemma_next_instruction(program.instructions, 2);
    assert(text.subrange(157, 239) + text.subrange(239, 270) =~= text.subrange(157, 270));
    assert(instructions_text(program.instructions.take(3)) == text.subrange(157, 270));
    lemma_line20();
    lemma_next_instruction(program.instructions, 3);
    assert(text.subrange(157, 270) + text.subrange(270, 277) =~= text.subrange(157, 277));
    assert(instructions_text(program.instructions.take(4)) == text.subrange(157, 277));
    assert(program.instructions.take(4) =~= program.instructions);
    assert(text.subrange(0, 157) + text.subrange(157, 277) =~= text);
}

/// The text of `IR_TEXTURE_ALPHA_MASK_FRAGMENT_SHADER` is that of its program.
#[verifier::rlimit(40)]
#[verifier::spinoff_prover]
pub proof fn lemma_ir_texture_alpha_mask_fragment_shader_text()
    ensures
        IR_TEXTURE_ALPHA_MASK_FRAGMENT_SHADER@ == program_text(
            ir_texture_alpha_mask_fragment_shader_program(),
        ),
{
    let text = IR_TEXTURE_ALPHA_MASK_FRAGMENT_SHADER@;
    reveal_strlit("FRAG\nPROPERTY FS_COLOR0_WRITES_ALL_CBUFS 1\nDCL IN[0], GENERIC[0], PERSPECTIVE\nDCL CONST[0]\nDCL SAMP[0]\nDCL SVIEW[0], 2D, FLOAT\nDCL OUT[0], COLOR\nDCL TEMP[0]\n0: TEX TEMP[0], IN[0], SAMP[0], 2D\n1: MOV OUT[0].xyz, CONST[0].xyzx\n2: MUL OUT[0].w, TEMP[0].wwww, CONST[0].wwww\n3: END\n");
    assert(text.subrange(0, 5) =~= "FRAG\n"@) by {
        reveal_strlit("FRAG\n");
    }
    assert(text.subrange(5, 43) =~= "PROPERTY FS_COLOR0_WRITES_ALL_CBUFS 1\n"@) by {
        reveal_strlit("PROPERTY FS_COLOR0_WRITES_ALL_CBUFS 1\n");
    }
    assert(text.subrange(43, 78) =~= "DCL IN[0], GENERIC[0], PERSPECTIVE\n"@) by {
        reveal_strlit("DCL IN[0], GENERIC[0], PERSPECTIVE\n");
    }
    assert(text.subrange(78, 91) =~= "DCL CONST[0]\n"@) by {
        reveal_strlit("DCL CONST[0]\n");
    }
    assert(text.subrange(91, 103) =~= "DCL SAMP[0]\n"@) by {
        reveal_strlit("DCL SAMP[0]\n");
    }
    assert(text.subrange(103, 127) =~= "DCL SVIEW[0], 2D, FLOAT\n"@) by {
        reveal_strlit("DCL SVIEW[0], 2D, FLOAT\n");
    }
    assert(text.subrange(127, 145) =~= "DCL OUT[0], COLOR\n"@) by {
        reveal_strlit("DCL OUT[0], COLOR\n");
    }
    assert(text.subrange(145, 157) =~= "DCL TEMP[0]\n"@) by {
        reveal_strlit("DCL TEMP[0]\n");
    }
    assert(text.subrange(157, 192) =~= "0: TEX TEMP[0], IN[0], SAMP[0], 2D\n"@) by {
        reveal_strlit("0: TEX TEMP[0], IN[0], SAMP[0], 2D\n");
    }
    assert(text.subrange(192, 225) =~= "1: MOV OUT[0].xyz, CONST[0].xyzx\n"@) by {
        reveal_strlit("1: MOV OUT[0].xyz, CONST[0].xyzx\n");
    }
    assert(text.subrange(225, 270) =~= "2: MUL OUT[0].w, TEMP[0].wwww, CONST[0].wwww\n"@) by {
        reveal_strlit("2: MUL OUT[0].w, TEMP[0].wwww, CONST[0].wwww\n");
    }
    assert(text.subrange(270, 277) =~= "3: END\n"@) by {
        reveal_strlit("3: END\n");
    }
    assert(text.subrange(0, 5) + text.subrange(5, 43) =~= text.subrange(0, 43));
    assert(text.subrange(0, 43) + text.subrange(43, 78) =~= text.subrange(0, 78));
    assert(text.subrange(0, 78) + text.subrange(78, 91) =~= text.subrange(0, 91));
    assert(text.subrange(0, 91) + text.subrange(91, 103) =~= text.subrange(0, 103));
    assert(text.subrange(0, 103) + text.subrange(103, 127) =~= text.subrange(0, 127));
    assert(text.subrange(0, 127) + text.subrange(127, 145) =~= text.subrange(0, 145));
    assert(text.subrange(0, 145) + text.subrange(145, 157) =~= text.subrange(0, 157));
    assert(text.subrange(0, 157) + text.subrange(157, 192) =~= text.subrange(0, 192));
    assert(text.subrange(0, 192) + text.subrange(192, 225) =~= text.subrange(0, 225));
    assert(text.subrange(0, 225) + text.subrange(225, 270) =~= text.subrange(0, 270));
    assert(text.subrange(0, 270) + text.subrange(270, 277) =~= text.subrange(0, 277));
    assert(text.subrange(0, 277) =~= text);
    let program = ir_texture_alpha_mask_fragment_shader_program();
    assert(program.declarations.take(0) =~= Seq::empty());
    assert(declarations_text(program.declarations.take(0)) =~= Seq::<char>::empty());
    assert(text.subrange(0, 0) =~= Seq::<char>::empty());
    lemma_next_declaration(program.declarations, 0);
    assert(Seq::<char>::empty() + text.subrange(0, 5) =~= text.subrange(0, 5));
    assert(declarations_text(program.declarations.take(1)) == text.subrange(0, 5));
    lemma_next_declaration(program.declarations, 1);
    assert(declarations_text(program.declarations.take(2)) == text.subrange(0, 43));
    lemma_next_declaration(program.declarations, 2);
    assert(declarations_text(program.declarations.take(3)) == text.subrange(0, 78));
    lemma_next_declaration(program.declarations, 3);
    assert(declarations_text(program.declarations.take(4)) == text.subrange(0, 91));
    lemma_next_declaration(program.declarations, 4);
    assert(declarations_text(program.declarations.take(5)) == text.subrange(0, 103));
    lemma_next_declaration(program.declarations, 5);
    assert(declarations_text(program.declarations.take(6)) == text.subrange(0, 127));
    lemma_next_declaration(program.declarations, 6);
    assert(declarations_text(program.declarations.take(7)) == text.subrange(0, 145));
    lemma_next_declaration(program.declarations, 7);
    assert(declarations_text(program.declarations.take(8)) == text.subrange(0, 157));
    assert(program.declarations.take(8) =~= program.declarations);
    assert(instructions_text(program.instructions.take(0)) =~= Seq::<char>::empty());
    lemma_line5();
    lemma_next_instruction(program.instructions, 0);
    assert(Seq::<char>::empty() + text.subrange(157, 192) =~= text.subrange(157, 192));
    assert(instructions_text(program.instructions.take(1)) == text.subrange(157, 192));
    lemma_line8();
    lemma_next_instruction(program.instructions, 1);
    assert(text.subrange(157, 192) + text.subrange(192, 225) =~= text.subrange(157, 225));
    assert(instructions_text(program.instructions.take(2)) == text.subrange(157, 225));
    lemma_line18();
    lemma_next_instruction(program.instructions, 2);
    assert(text.subrange(157, 225) + text.subrange(225, 270) =~= text.subrange(157, 270));
    assert(instructions_text(program.instructions.take(3)) == text.subrange(157, 270));
    lemma_line20();
    lemma_next_instruction(program.instructions, 3);
    assert(text.subrange(157, 270) + text.subrange(270, 277) =~= text.subrange(157, 277));
    assert(instructions_text(program.instructions.take(4)) == text.subrange(157, 277));
    assert(program.instructions.take(4) =~= program.instructions);
    assert(text.subrange(0, 157) + text.subrange(157, 277) =~= text);
}

/// The source of the shader of a fragment program.
pub open spec fn fragment_source(fragment: IrFragmentProgram) -> Seq<char> {
    match fragment {
        IrFragmentProgram::Solid => IR_SOLID_FRAGMENT_SHADER@,
        IrFragmentProgram::VertexColor => IR_VERTEX_COLOR_FRAGMENT_SHADER@,
        IrFragmentProgram::TextureRgba => IR_TEXTURE_RGBA_FRAGMENT_SHADER@,
        IrFragmentProgram::TextureRgbIgnoreAlpha => IR_TEXTURE_RGB_IGNORE_ALPHA_FRAGMENT_SHADER@,
        IrFragmentProgram::TextureAlphaMask => IR_TEXTURE_ALPHA_MASK_FRAGMENT_SHADER@,
    }
}

/// Whether a text is a program that computes a color from the vertex color, the sample
/// at the texture coordinates and the constant, whatever these are.
pub open spec fn shades(
    text: Seq<char>,
    program: Program,
    result: spec_fn(Seq<int>, Seq<int>, Seq<int>) -> Seq<int>,
) -> bool {
    &&& program_text(program) == text
    &&& forall|
        color: Seq<int>,
        coordinates: Seq<int>,
        texture: spec_fn(Seq<int>) -> Seq<int>,
        constant: Seq<int>,
    |
        #![trigger fragment_color(program, color, coordinates, texture, constant)]
        color.len() == 4 && constant.len() == 4 && texture(coordinates).len() == 4
            ==> fragment_color(program, color, coordinates, texture, constant) == result(
            color,
            texture(coordinates),
            constant,
        )
}

/// The color that a device program computes.
pub open spec fn device_color(fragment: IrFragmentProgram) -> spec_fn(
    Seq<int>,
    Seq<int>,
    Seq<int>,
) -> Seq<int> {
    |color: Seq<int>, sample: Seq<int>, constant: Seq<int>|
        crate::ir_execute::bindings::device_shaded(fragment, color, sample, constant)
}

/// The vertex color.
pub open spec fn vertex_color() -> spec_fn(Seq<int>, Seq<int>, Seq<int>) -> Seq<int> {
    |color: Seq<int>, sample: Seq<int>, constant: Seq<int>| color
}

/// The sample with its alpha scaled by the vertex alpha.
pub open spec fn scaled_sample() -> spec_fn(Seq<int>, Seq<int>, Seq<int>) -> Seq<int> {
    |color: Seq<int>, sample: Seq<int>, constant: Seq<int>|
        seq![sample[0], sample[1], sample[2], sample[3] * color[3]]
}

/// The color of the sample with the vertex alpha.
pub open spec fn opaque_sample() -> spec_fn(Seq<int>, Seq<int>, Seq<int>) -> Seq<int> {
    |color: Seq<int>, sample: Seq<int>, constant: Seq<int>|
        seq![sample[0], sample[1], sample[2], color[3]]
}

proof fn lemma_ir_solid_fragment_shader_shades()
    ensures
        shades(
            IR_SOLID_FRAGMENT_SHADER@,
            ir_solid_fragment_shader_program(),
            device_color(IrFragmentProgram::Solid),
        ),
{
    lemma_ir_solid_fragment_shader_text();
    let program = ir_solid_fragment_shader_program();
    let result = device_color(IrFragmentProgram::Solid);
    assert forall|
        color: Seq<int>,
        coordinates: Seq<int>,
        texture: spec_fn(Seq<int>) -> Seq<int>,
        constant: Seq<int>,
    |
        #![trigger fragment_color(program, color, coordinates, texture, constant)]
        color.len() == 4 && constant.len() == 4 && texture(coordinates).len() == 4 implies
        fragment_color(program, color, coordinates, texture, constant) == result(
        color,
        texture(coordinates),
        constant,
    ) by {
        assert(!program.declarations.contains(Declaration::Color0));
        let inputs = Inputs {
            inputs: seq![
                if program.declarations.contains(Declaration::Color0) {
                    color
                } else {
                    coordinates
                },
                color,
            ],
            constants: seq![constant],
            texture,
        };
        assert(program.instructions.take(0) =~= Seq::<Instruction>::empty());
        lemma_executed_next(program.instructions, inputs, 0);
        lemma_executed_next(program.instructions, inputs, 1);
        assert(program.instructions.take(2) =~= program.instructions);
        assert(fragment_color(program, color, coordinates, texture, constant) =~= result(
            color,
            texture(coordinates),
            constant,
        ));
    }
}

proof fn lemma_ir_vertex_color_fragment_shader_shades()
    ensures
        shades(
            IR_VERTEX_COLOR_FRAGMENT_SHADER@,
            ir_vertex_color_fragment_shader_program(),
            device_color(IrFragmentProgram::VertexColor),
        ),
{
    lemma_ir_vertex_color_fragment_shader_text();
    let program = ir_vertex_color_fragment_shader_program();
    let result = device_color(IrFragmentProgram::VertexColor);
    assert forall|
        color: Seq<int>,
        coordinates: Seq<int>,
        texture: spec_fn(Seq<int>) -> Seq<int>,
        constant: Seq<int>,
    |
        #![trigger fragment_color(program, color, coordinates, texture, constant)]
        color.len() == 4 && constant.len() == 4 && texture(coordinates).len() == 4 implies
        fragment_color(program, color, coordinates, texture, constant) == result(
        color,
        texture(coordinates),
        constant,
    ) by {
        assert(program.declarations[2] is Color0);
        assert(program.declarations.contains(Declaration::Color0));
        let inputs = Inputs {
            inputs: seq![
                if program.declarations.contains(Declaration::Color0) {
                    color
                } else {
                    coordinates
                },
                color,
            ],
            constants: seq![constant],
            texture,
        };
        assert(program.instructions.take(0) =~= Seq::<Instruction>::empty());
        lemma_executed_next(program.instructions, inputs, 0);
        lemma_executed_next(program.instructions, inputs, 1);
        assert(program.instructions.take(2) =~= program.instructions);
        assert(fragment_color(program, color, coordinates, texture, constant) =~= result(
            color,
            texture(coordinates),
            constant,
        ));
    }
}

proof fn lemma_ir_texture_rgba_fragment_shader_shades()
    ensures
        shades(
            IR_TEXTURE_RGBA_FRAGMENT_SHADER@,
            ir_texture_rgba_fragment_shader_program(),
            device_color(IrFragmentProgram::TextureRgba),
        ),
{
    lemma_ir_texture_rgba_fragment_shader_text();
    let program = ir_texture_rgba_fragment_shader_program();
    let result = device_color(IrFragmentProgram::TextureRgba);
    assert forall|
        color: Seq<int>,
        coordinates: Seq<int>,
        texture: spec_fn(Seq<int>) -> Seq<int>,
        constant: Seq<int>,
    |
        #![trigger fragment_color(program, color, coordinates, texture, constant)]
        color.len() == 4 && constant.len() == 4 && texture(coordinates).len() == 4 implies
        fragment_color(program, color, coordinates, texture, constant) == result(
        color,
        texture(coordinates),
        constant,
    ) by {
        assert(!program.declarations.contains(Declaration::Color0));
        let inputs = Inputs {
            inputs: seq![
                if program.declarations.contains(Declaration::Color0) {
                    color
                } else {
                    coordinates
                },
                color,
            ],
            constants: seq![constant],
            texture,
        };
        assert(program.instructions.take(0) =~= Seq::<Instruction>::empty());
        lemma_executed_next(program.instructions, inputs, 0);
        lemma_executed_next(program.instructions, inputs, 1);
        lemma_executed_next(program.instructions, inputs, 2);
        assert(program.instructions.take(3) =~= program.instructions);
        assert(fragment_color(program, color, coordinates, texture, constant) =~= result(
            color,
            texture(coordinates),
            constant,
        ));
    }
}

proof fn lemma_ir_texture_rgb_ignore_alpha_fragment_shader_shades()
    ensures
        shades(
            IR_TEXTURE_RGB_IGNORE_ALPHA_FRAGMENT_SHADER@,
            ir_texture_rgb_ignore_alpha_fragment_shader_program(),
            device_color(IrFragmentProgram::TextureRgbIgnoreAlpha),
        ),
{
    lemma_ir_texture_rgb_ignore_alpha_fragment_shader_text();
    let program = ir_texture_rgb_ignore_alpha_fragment_shader_program();
    let result = device_color(IrFragmentProgram::TextureRgbIgnoreAlpha);
    assert forall|
        color: Seq<int>,
        coordinates: Seq<int>,
        texture: spec_fn(Seq<int>) -> Seq<int>,
        constant: Seq<int>,
    |
        #![trigger fragment_color(program, color, coordinates, texture, constant)]
        color.len() == 4 && constant.len() == 4 && texture(coordinates).len() == 4 implies
        fragment_color(program, color, coordinates, texture, constant) == result(
        color,
        texture(coordinates),
        constant,
    ) by {
        assert(!program.declarations.contains(Declaration::Color0));
        let inputs = Inputs {
            inputs: seq![
                if program.declarations.contains(Declaration::Color0) {
                    color
                } else {
                    coordinates
                },
                color,
            ],
            constants: seq![constant],
            texture,
        };
        assert(program.instructions.take(0) =~= Seq::<Instruction>::empty());
        lemma_executed_next(program.instructions, inputs, 0);
        lemma_executed_next(program.instructions, inputs, 1);
        lemma_executed_next(program.instructions, inputs, 2);
        lemma_executed_next(program.instructions, inputs, 3);
        assert(program.instructions.take(4) =~= program.instructions);
        assert(fragment_color(program, color, coordinates, texture, constant) =~= result(
            color,
            texture(coordinates),
            constant,
        ));
    }
}

proof fn lemma_ir_texture_alpha_mask_fragment_shader_shades()
    ensures
        shades(
            IR_TEXTURE_ALPHA_MASK_FRAGMENT_SHADER@,
            ir_texture_alpha_mask_fragment_shader_program(),
            device_color(IrFragmentProgram::TextureAlphaMask),
        ),
{
    lemma_ir_texture_alpha_mask_fragment_shader_text();
    let program = ir_texture_alpha_mask_fragment_shader_program();
    let result = device_color(IrFragmentProgram::TextureAlphaMask);
    assert forall|
        color: Seq<int>,
        coordinates: Seq<int>,
        texture: spec_fn(Seq<int>) -> Seq<int>,
        constant: Seq<int>,
    |
        #![trigger fragment_color(program, color, coordinates, texture, constant)]
        color.len() == 4 && constant.len() == 4 && texture(coordinates).len() == 4 implies
        fragment_color(program, color, coordinates, texture, constant) == result(
        color,
        texture(coordinates),
        constant,
    ) by {
        assert(!program.declarations.contains(Declaration::Color0));
        let inputs = Inputs {
            inputs: seq![
                if program.declarations.contains(Declaration::Color0) {
                    color
                } else {
                    coordinates
                },
                color,
            ],
            constants: seq![constant],
            texture,
        };
        assert(program.instructions.take(0) =~= Seq::<Instruction>::empty());
        lemma_executed_next(program.instructions, inputs, 0);
        lemma_executed_next(program.instructions, inputs, 1);
        lemma_executed_next(program.instructions, inputs, 2);
        lemma_executed_next(program.instructions, inputs, 3);
        assert(program.instructions.take(4) =~= program.instructions);
        assert(fragment_color(program, color, coordinates, texture, constant) =~= result(
            color,
            texture(coordinates),
            constant,
        ));
    }
}

proof fn lemma_fragment_shader_shades()
    ensures
        shades(FRAGMENT_SHADER@, fragment_shader_program(), vertex_color()),
{
    lemma_fragment_shader_text();
    let program = fragment_shader_program();
    let result = vertex_color();
    assert forall|
        color: Seq<int>,
        coordinates: Seq<int>,
        texture: spec_fn(Seq<int>) -> Seq<int>,
        constant: Seq<int>,
    |
        #![trigger fragment_color(program, color, coordinates, texture, constant)]
        color.len() == 4 && constant.len() == 4 && texture(coordinates).len() == 4 implies
        fragment_color(program, color, coordinates, texture, constant) == result(
        color,
        texture(coordinates),
        constant,
    ) by {
        assert(program.declarations[2] is Color0);
        assert(program.declarations.contains(Declaration::Color0));
        let inputs = Inputs {
            inputs: seq![
                if program.declarations.contains(Declaration::Color0) {
                    color
                } else {
                    coordinates
                },
                color,
            ],
            constants: seq![constant],
            texture,
        };
        assert(program.instructions.take(0) =~= Seq::<Instruction>::empty());
        lemma_executed_next(program.instructions, inputs, 0);
        lemma_executed_next(program.instructions, inputs, 1);
        assert(program.instructions.take(2) =~= program.instructions);
        assert(fragment_color(program, color, coordinates, texture, constant) =~= result(
            color,
            texture(coordinates),
            constant,
        ));
    }
}

proof fn lemma_composition_solid_shader_shades()
    ensures
        shades(COMPOSITION_SOLID_SHADER@, composition_solid_shader_program(), vertex_color()),
{
    lemma_composition_solid_shader_text();
    let program = composition_solid_shader_program();
    let result = vertex_color();
    assert forall|
        color: Seq<int>,
        coordinates: Seq<int>,
        texture: spec_fn(Seq<int>) -> Seq<int>,
        constant: Seq<int>,
    |
        #![trigger fragment_color(program, color, coordinates, texture, constant)]
        color.len() == 4 && constant.len() == 4 && texture(coordinates).len() == 4 implies
        fragment_color(program, color, coordinates, texture, constant) == result(
        color,
        texture(coordinates),
        constant,
    ) by {
        assert(!program.declarations.contains(Declaration::Color0));
        let inputs = Inputs {
            inputs: seq![
                if program.declarations.contains(Declaration::Color0) {
                    color
                } else {
                    coordinates
                },
                color,
            ],
            constants: seq![constant],
            texture,
        };
        assert(program.instructions.take(0) =~= Seq::<Instruction>::empty());
        lemma_executed_next(program.instructions, inputs, 0);
        lemma_executed_next(program.instructions, inputs, 1);
        assert(program.instructions.take(2) =~= program.instructions);
        assert(fragment_color(program, color, coordinates, texture, constant) =~= result(
            color,
            texture(coordinates),
            constant,
        ));
    }
}

proof fn lemma_composition_texture_alpha_shader_shades()
    ensures
        shades(
            COMPOSITION_TEXTURE_ALPHA_SHADER@,
            composition_texture_alpha_shader_program(),
            scaled_sample(),
        ),
{
    lemma_composition_texture_alpha_shader_text();
    let program = composition_texture_alpha_shader_program();
    let result = scaled_sample();
    assert forall|
        color: Seq<int>,
        coordinates: Seq<int>,
        texture: spec_fn(Seq<int>) -> Seq<int>,
        constant: Seq<int>,
    |
        #![trigger fragment_color(program, color, coordinates, texture, constant)]
        color.len() == 4 && constant.len() == 4 && texture(coordinates).len() == 4 implies
        fragment_color(program, color, coordinates, texture, constant) == result(
        color,
        texture(coordinates),
        constant,
    ) by {
        assert(!program.declarations.contains(Declaration::Color0));
        let inputs = Inputs {
            inputs: seq![
                if program.declarations.contains(Declaration::Color0) {
                    color
                } else {
                    coordinates
                },
                color,
            ],
            constants: seq![constant],
            texture,
        };
        assert(program.instructions.take(0) =~= Seq::<Instruction>::empty());
        lemma_executed_next(program.instructions, inputs, 0);
        lemma_executed_next(program.instructions, inputs, 1);
        lemma_executed_next(program.instructions, inputs, 2);
        lemma_executed_next(program.instructions, inputs, 3);
        assert(program.instructions.take(4) =~= program.instructions);
        assert(fragment_color(program, color, coordinates, texture, constant) =~= result(
            color,
            texture(coordinates),
            constant,
        ));
    }
}

proof fn lemma_composition_texture_opaque_shader_shades()
    ensures
        shades(
            COMPOSITION_TEXTURE_OPAQUE_SHADER@,
            composition_texture_opaque_shader_program(),
            opaque_sample(),
        ),
{
    lemma_composition_texture_opaque_shader_text();
    let program = composition_texture_opaque_shader_program();
    let result = opaque_sample();
    assert forall|
        color: Seq<int>,
        coordinates: Seq<int>,
        texture: spec_fn(Seq<int>) -> Seq<int>,
        constant: Seq<int>,
    |
        #![trigger fragment_color(program, color, coordinates, texture, constant)]
        color.len() == 4 && constant.len() == 4 && texture(coordinates).len() == 4 implies
        fragment_color(program, color, coordinates, texture, constant) == result(
        color,
        texture(coordinates),
        constant,
    ) by {
        assert(!program.declarations.contains(Declaration::Color0));
        let inputs = Inputs {
            inputs: seq![
                if program.declarations.contains(Declaration::Color0) {
                    color
                } else {
                    coordinates
                },
                color,
            ],
            constants: seq![constant],
            texture,
        };
        assert(program.instructions.take(0) =~= Seq::<Instruction>::empty());
        lemma_executed_next(program.instructions, inputs, 0);
        lemma_executed_next(program.instructions, inputs, 1);
        lemma_executed_next(program.instructions, inputs, 2);
        lemma_executed_next(program.instructions, inputs, 3);
        assert(program.instructions.take(4) =~= program.instructions);
        assert(fragment_color(program, color, coordinates, texture, constant) =~= result(
            color,
            texture(coordinates),
            constant,
        ));
    }
}

/// The shader of every fragment program computes the color of that program: the draw
/// color, times the vertex color or the sample where the program has them.
pub proof fn law_fragment_shaders_compute_their_program(fragment: IrFragmentProgram)
    ensures
        exists|program: Program|
            #[trigger] shades(fragment_source(fragment), program, device_color(fragment)),
{
    match fragment {
        IrFragmentProgram::Solid => {
            lemma_ir_solid_fragment_shader_shades();
            assert(shades(
                fragment_source(fragment),
                ir_solid_fragment_shader_program(),
                device_color(fragment),
            ));
        },
        IrFragmentProgram::VertexColor => {
            lemma_ir_vertex_color_fragment_shader_shades();
            assert(shades(
                fragment_source(fragment),
                ir_vertex_color_fragment_shader_program(),
                device_color(fragment),
            ));
        },
        IrFragmentProgram::TextureRgba => {
            lemma_ir_texture_rgba_fragment_shader_shades();
            assert(shades(
                fragment_source(fragment),
                ir_texture_rgba_fragment_shader_program(),
                device_color(fragment),
            ));
        },
        IrFragmentProgram::TextureRgbIgnoreAlpha => {
            lemma_ir_texture_rgb_ignore_alpha_fragment_shader_shades();
            assert(shades(
                fragment_source(fragment),
                ir_texture_rgb_ignore_alpha_fragment_shader_program(),
                device_color(fragment),
            ));
        },
        IrFragmentProgram::TextureAlphaMask => {
            lemma_ir_texture_alpha_mask_fragment_shader_shades();
            assert(shades(
                fragment_source(fragment),
                ir_texture_alpha_mask_fragment_shader_program(),
                device_color(fragment),
            ));
        },
    }
}

/// The programs of compositions: a textured rectangle shows the color of the texture,
/// covered by the vertex alpha, and also by the alpha of the texture where that counts.
/// A solid one shows the vertex color, as the program of colored triangles does.
pub proof fn law_composition_shaders_compute_their_color()
    ensures
        exists|program: Program|
            #[trigger] shades(COMPOSITION_TEXTURE_ALPHA_SHADER@, program, scaled_sample()),
        exists|program: Program|
            #[trigger] shades(COMPOSITION_TEXTURE_OPAQUE_SHADER@, program, opaque_sample()),
        exists|program: Program|
            #[trigger] shades(COMPOSITION_SOLID_SHADER@, program, vertex_color()),
        exists|program: Program| #[trigger] shades(FRAGMENT_SHADER@, program, vertex_color()),
{
    lemma_composition_texture_alpha_shader_shades();
    lemma_composition_texture_opaque_shader_shades();
    lemma_composition_solid_shader_shades();
    lemma_fragment_shader_shades();
}

/// A position transformed by the columns of a matrix.
pub open spec fn transformed(columns: Seq<Seq<int>>, position: Seq<int>) -> Seq<int> {
    Seq::new(
        4,
        |c: int|
            columns[0][c] * position[0] + columns[1][c] * position[1] + columns[2][c] * position[2]
                + columns[3][c] * position[3],
    )
}

/// Whether a text is a vertex program that gives out positions, colors and texture
/// coordinates, whatever its attributes and constants are.
pub open spec fn places(
    text: Seq<char>,
    program: Program,
    result: spec_fn(Seq<Seq<int>>, Seq<Seq<int>>) -> VertexOutputs,
    colored: bool,
    textured: bool,
) -> bool {
    &&& program_text(program) == text
    &&& colored == (program.declarations.contains(Declaration::ColorOut1)
        || program.declarations.contains(Declaration::ColorOut2))
    &&& textured == (program.declarations.contains(Declaration::CoordinatesOut1)
        || program.declarations.contains(Declaration::CoordinatesOut2))
    &&& forall|attributes: Seq<Seq<int>>, constants: Seq<Seq<int>>|
        #![trigger vertex_outputs(program, attributes, constants)]
        attributes.len() == 3 && attributes[0].len() == 4 && attributes[1].len() == 4
            && attributes[2].len() == 4 && constants.len() == 4 && constants[0].len() == 4
            && constants[1].len() == 4 && constants[2].len() == 4 && constants[3].len() == 4 ==> {
            let given = vertex_outputs(program, attributes, constants);
            let wanted = result(attributes, constants);
            &&& given.position == wanted.position
            &&& colored ==> given.color == wanted.color
            &&& textured ==> given.coordinates == wanted.coordinates
        }
}

/// The first attribute is the position, the others are color and texture coordinates.
pub open spec fn passed_through(color: int, coordinates: int) -> spec_fn(
    Seq<Seq<int>>,
    Seq<Seq<int>>,
) -> VertexOutputs {
    |attributes: Seq<Seq<int>>, constants: Seq<Seq<int>>|
        VertexOutputs {
            position: attributes[0],
            color: attributes[color],
            coordinates: attributes[coordinates],
        }
}

/// The position is transformed, and the second attribute is color and texture coordinates.
pub open spec fn moved() -> spec_fn(Seq<Seq<int>>, Seq<Seq<int>>) -> VertexOutputs {
    |attributes: Seq<Seq<int>>, constants: Seq<Seq<int>>|
        VertexOutputs {
            position: transformed(constants, attributes[0]),
            color: attributes[1],
            coordinates: attributes[1],
        }
}

proof fn lemma_vertex_shader_places()
    ensures
        places(VERTEX_SHADER@, vertex_shader_program(), passed_through(1, 1), true, false),
{
    lemma_vertex_shader_text();
    let program = vertex_shader_program();
    let result = passed_through(1, 1);
    assert(program.declarations[4] is ColorOut1);
    assert(program.declarations.contains(Declaration::ColorOut1));
    assert(!program.declarations.contains(Declaration::ColorOut2));
    assert(!program.declarations.contains(Declaration::CoordinatesOut1));
    assert(!program.declarations.contains(Declaration::CoordinatesOut2));
    assert forall|attributes: Seq<Seq<int>>, constants: Seq<Seq<int>>|
        #![trigger vertex_outputs(program, attributes, constants)]
        attributes.len() == 3 && attributes[0].len() == 4 && attributes[1].len() == 4
            && attributes[2].len() == 4 && constants.len() == 4 && constants[0].len() == 4
            && constants[1].len() == 4 && constants[2].len() == 4 && constants[3].len() == 4
            implies ({
        let given = vertex_outputs(program, attributes, constants);
        let wanted = result(attributes, constants);
        &&& given.position == wanted.position
        &&& true ==> given.color == wanted.color
        &&& false ==> given.coordinates == wanted.coordinates
    }) by {
        let inputs = Inputs { inputs: attributes, constants, texture: |c: Seq<int>| c };
        assert(program.instructions.take(0) =~= Seq::<Instruction>::empty());
        lemma_executed_next(program.instructions, inputs, 0);
        lemma_executed_next(program.instructions, inputs, 1);
        lemma_executed_next(program.instructions, inputs, 2);
        assert(program.instructions.take(3) =~= program.instructions);
        let given = vertex_outputs(program, attributes, constants);
        let wanted = result(attributes, constants);
        assert(given.position =~= wanted.position);
        if true {
            assert(given.color =~= wanted.color);
        }
        if false {
            assert(given.coordinates =~= wanted.coordinates);
        }
    }
}

proof fn lemma_composition_vertex_shader_places()
    ensures
        places(
            COMPOSITION_VERTEX_SHADER@,
            composition_vertex_shader_program(),
            passed_through(2, 1),
            true,
            true,
        ),
{
    lemma_composition_vertex_shader_text();
    let program = composition_vertex_shader_program();
    let result = passed_through(2, 1);
    assert(!program.declarations.contains(Declaration::ColorOut1));
    assert(program.declarations[6] is ColorOut2);
    assert(program.declarations.contains(Declaration::ColorOut2));
    assert(program.declarations[5] is CoordinatesOut1);
    assert(program.declarations.contains(Declaration::CoordinatesOut1));
    assert(!program.declarations.contains(Declaration::CoordinatesOut2));
    assert forall|attributes: Seq<Seq<int>>, constants: Seq<Seq<int>>|
        #![trigger vertex_outputs(program, attributes, constants)]
        attributes.len() == 3 && attributes[0].len() == 4 && attributes[1].len() == 4
            && attributes[2].len() == 4 && constants.len() == 4 && constants[0].len() == 4
            && constants[1].len() == 4 && constants[2].len() == 4 && constants[3].len() == 4
            implies ({
        let given = vertex_outputs(program, attributes, constants);
        let wanted = result(attributes, constants);
        &&& given.position == wanted.position
        &&& true ==> given.color == wanted.color
        &&& true ==> given.coordinates == wanted.coordinates
    }) by {
        let inputs = Inputs { inputs: attributes, constants, texture: |c: Seq<int>| c };
        assert(program.instructions.take(0) =~= Seq::<Instruction>::empty());
        lemma_executed_next(program.instructions, inputs, 0);
        lemma_executed_next(program.instructions, inputs, 1);
        lemma_executed_next(program.instructions, inputs, 2);
        lemma_executed_next(program.instructions, inputs, 3);
        assert(program.instructions.take(4) =~= program.instructions);
        let given = vertex_outputs(program, attributes, constants);
        let wanted = result(attributes, constants);
        assert(given.position =~= wanted.position);
        if true {
            assert(given.color =~= wanted.color);
        }
        if true {
            assert(given.coordinates =~= wanted.coordinates);
        }
    }
}

proof fn lemma_ir_vertex_shader_places()
    ensures
        places(IR_VERTEX_SHADER@, ir_vertex_shader_program(), moved(), true, true),
{
    lemma_ir_vertex_shader_text();
    let program = ir_vertex_shader_program();
    let result = moved();
    assert(program.declarations[5] is ColorOut1);
    assert(program.declarations.contains(Declaration::ColorOut1));
    assert(!program.declarations.contains(Declaration::ColorOut2));
    assert(!program.declarations.contains(Declaration::CoordinatesOut1));
    assert(program.declarations[6] is CoordinatesOut2);
    assert(program.declarations.contains(Declaration::CoordinatesOut2));
    assert forall|attributes: Seq<Seq<int>>, constants: Seq<Seq<int>>|
        #![trigger vertex_outputs(program, attributes, constants)]
        attributes.len() == 3 && attributes[0].len() == 4 && attributes[1].len() == 4
            && attributes[2].len() == 4 && constants.len() == 4 && constants[0].len() == 4
            && constants[1].len() == 4 && constants[2].len() == 4 && constants[3].len() == 4
            implies ({
        let given = vertex_outputs(program, attributes, constants);
        let wanted = result(attributes, constants);
        &&& given.position == wanted.position
        &&& true ==> given.color == wanted.color
        &&& true ==> given.coordinates == wanted.coordinates
    }) by {
        let inputs = Inputs { inputs: attributes, constants, texture: |c: Seq<int>| c };
        assert(program.instructions.take(0) =~= Seq::<Instruction>::empty());
        lemma_executed_next(program.instructions, inputs, 0);
        lemma_executed_next(program.instructions, inputs, 1);
        lemma_executed_next(program.instructions, inputs, 2);
        lemma_executed_next(program.instructions, inputs, 3);
        lemma_executed_next(program.instructions, inputs, 4);
        lemma_executed_next(program.instructions, inputs, 5);
        lemma_executed_next(program.instructions, inputs, 6);
        assert(program.instructions.take(7) =~= program.instructions);
        let given = vertex_outputs(program, attributes, constants);
        let wanted = result(attributes, constants);
        assert(given.position =~= wanted.position);
        if true {
            assert(given.color =~= wanted.color);
        }
        if true {
            assert(given.coordinates =~= wanted.coordinates);
        }
    }
}

/// The vertex shader of passes transforms positions, and those of compositions and of
/// colored triangles pass them through. Each hands on the colors and texture coordinates
/// of its vertices.
pub proof fn law_vertex_shaders_place_their_vertices()
    ensures
        exists|program: Program|
            #[trigger] places(IR_VERTEX_SHADER@, program, moved(), true, true),
        exists|program: Program|
            #[trigger] places(
                COMPOSITION_VERTEX_SHADER@,
                program,
                passed_through(2, 1),
                true,
                true,
            ),
        exists|program: Program|
            #[trigger] places(VERTEX_SHADER@, program, passed_through(1, 1), true, false),
{
    lemma_ir_vertex_shader_places();
    lemma_composition_vertex_shader_places();
    lemma_vertex_shader_places();
}

} // verus!
