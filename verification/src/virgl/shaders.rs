//! Shader sources of the built-in programs.

use vstd::prelude::*;

verus! {

/// Pass position and color through.
pub const VERTEX_SHADER: &'static str = "VERT\n\
DCL IN[0]\n\
DCL IN[1]\n\
DCL OUT[0], POSITION\n\
DCL OUT[1], COLOR\n\
  0: MOV OUT[0], IN[0]\n\
  1: MOV OUT[1], IN[1]\n\
  2: END\n";

/// Output the vertex color.
pub const FRAGMENT_SHADER: &'static str = "FRAG\n\
PROPERTY FS_COLOR0_WRITES_ALL_CBUFS 1\n\
DCL IN[0], COLOR, PERSPECTIVE\n\
DCL OUT[0], COLOR\n\
  0: MOV OUT[0], IN[0]\n\
   1: END\n";

/// Pass position, texture coordinates and color through.
pub const COMPOSITION_VERTEX_SHADER: &'static str = "VERT\n\
DCL IN[0]\n\
DCL IN[1]\n\
DCL IN[2]\n\
DCL OUT[0], POSITION\n\
DCL OUT[1], GENERIC[0]\n\
DCL OUT[2], COLOR\n\
  0: MOV OUT[0], IN[0]\n\
  1: MOV OUT[1], IN[1]\n\
  2: MOV OUT[2], IN[2]\n\
  3: END\n";

/// Output the texture sample with its alpha scaled by the vertex alpha.
pub const COMPOSITION_TEXTURE_ALPHA_SHADER: &'static str = "FRAG\n\
PROPERTY FS_COLOR0_WRITES_ALL_CBUFS 1\n\
DCL IN[0], GENERIC[0], PERSPECTIVE\n\
DCL IN[1], COLOR, PERSPECTIVE\n\
DCL SAMP[0]\n\
DCL SVIEW[0], 2D, FLOAT\n\
DCL OUT[0], COLOR\n\
DCL TEMP[0]\n\
  0: TEX TEMP[0], IN[0], SAMP[0], 2D\n\
  1: MOV OUT[0].xyz, TEMP[0].xyzx\n\
  2: MUL OUT[0].w, TEMP[0].wwww, IN[1].wwww\n\
  3: END\n";

/// Output the texture color with the vertex alpha.
pub const COMPOSITION_TEXTURE_OPAQUE_SHADER: &'static str = "FRAG\n\
PROPERTY FS_COLOR0_WRITES_ALL_CBUFS 1\n\
DCL IN[0], GENERIC[0], PERSPECTIVE\n\
DCL IN[1], COLOR, PERSPECTIVE\n\
DCL SAMP[0]\n\
DCL SVIEW[0], 2D, FLOAT\n\
DCL OUT[0], COLOR\n\
DCL TEMP[0]\n\
  0: TEX TEMP[0], IN[0], SAMP[0], 2D\n\
  1: MOV OUT[0].xyz, TEMP[0].xyzx\n\
  2: MOV OUT[0].w, IN[1].wwww\n\
  3: END\n";

/// Output the vertex color of a composition.
pub const COMPOSITION_SOLID_SHADER: &'static str = "FRAG\n\
PROPERTY FS_COLOR0_WRITES_ALL_CBUFS 1\n\
DCL IN[1], COLOR, PERSPECTIVE\n\
DCL OUT[0], COLOR\n\
   0: MOV OUT[0], IN[1]\n\
   1: END\n";

/// Transform the position and pass the second input through.
pub const IR_VERTEX_SHADER: &'static str = "VERT\n\
DCL IN[0]\n\
DCL IN[1]\n\
DCL CONST[0..3]\n\
DCL OUT[0], POSITION\n\
DCL OUT[1], COLOR\n\
DCL OUT[2], GENERIC[0]\n\
DCL TEMP[0]\n\
  0: MUL TEMP[0], CONST[0], IN[0].xxxx\n\
  1: MAD TEMP[0], CONST[1], IN[0].yyyy, TEMP[0]\n\
  2: MAD TEMP[0], CONST[2], IN[0].zzzz, TEMP[0]\n\
  3: MAD OUT[0], CONST[3], IN[0].wwww, TEMP[0]\n\
  4: MOV OUT[1], IN[1]\n\
  5: MOV OUT[2], IN[1]\n\
  6: END\n";

/// Output the draw color.
pub const IR_SOLID_FRAGMENT_SHADER: &'static str = "FRAG\n\
PROPERTY FS_COLOR0_WRITES_ALL_CBUFS 1\n\
DCL CONST[0]\n\
DCL OUT[0], COLOR\n\
  0: MOV OUT[0], CONST[0]\n\
  1: END\n";

/// Output the vertex color times the draw color.
pub const IR_VERTEX_COLOR_FRAGMENT_SHADER: &'static str = "FRAG\n\
PROPERTY FS_COLOR0_WRITES_ALL_CBUFS 1\n\
DCL IN[0], COLOR, PERSPECTIVE\n\
DCL CONST[0]\n\
DCL OUT[0], COLOR\n\
  0: MUL OUT[0], IN[0], CONST[0]\n\
  1: END\n";

/// Output the texture sample times the draw color.
pub const IR_TEXTURE_RGBA_FRAGMENT_SHADER: &'static str = "FRAG\n\
PROPERTY FS_COLOR0_WRITES_ALL_CBUFS 1\n\
DCL IN[0], GENERIC[0], PERSPECTIVE\n\
DCL CONST[0]\n\
DCL SAMP[0]\n\
DCL SVIEW[0], 2D, FLOAT\n\
DCL OUT[0], COLOR\n\
DCL TEMP[0]\n\
  0: TEX TEMP[0], IN[0], SAMP[0], 2D\n\
  1: MUL OUT[0], TEMP[0], CONST[0]\n\
  2: END\n";

/// Output the opaque texture sample times the draw color.
pub const IR_TEXTURE_RGB_IGNORE_ALPHA_FRAGMENT_SHADER: &'static str = "FRAG\n\
PROPERTY FS_COLOR0_WRITES_ALL_CBUFS 1\n\
DCL IN[0], GENERIC[0], PERSPECTIVE\n\
DCL CONST[0]\n\
DCL SAMP[0]\n\
DCL SVIEW[0], 2D, FLOAT\n\
DCL OUT[0], COLOR\n\
DCL TEMP[0]\n\
  0: TEX TEMP[0], IN[0], SAMP[0], 2D\n\
  1: MUL OUT[0].xyz, TEMP[0].xyzx, CONST[0].xyzx\n\
  2: MOV OUT[0].w, CONST[0].wwww\n\
  3: END\n";

/// Output the draw color covered by the sampled alpha.
pub const IR_TEXTURE_ALPHA_MASK_FRAGMENT_SHADER: &'static str = "FRAG\n\
PROPERTY FS_COLOR0_WRITES_ALL_CBUFS 1\n\
DCL IN[0], GENERIC[0], PERSPECTIVE\n\
DCL CONST[0]\n\
DCL SAMP[0]\n\
DCL SVIEW[0], 2D, FLOAT\n\
DCL OUT[0], COLOR\n\
DCL TEMP[0]\n\
  0: TEX TEMP[0], IN[0], SAMP[0], 2D\n\
  1: MOV OUT[0].xyz, CONST[0].xyzx\n\
  2: MUL OUT[0].w, TEMP[0].wwww, CONST[0].wwww\n\
  3: END\n";

/// A text has at most four bytes for each character.
pub proof fn lemma_text_length(text: Seq<char>)
    ensures
        vstd::utf8::encode_utf8(text).len() <= 4 * text.len(),
    decreases text.len(),
{
    if text.len() > 0 {
        lemma_text_length(text.drop_first());
    }
}

/// The source of `VERTEX_SHADER` is short.
pub proof fn lemma_vertex_shader_length()
    ensures
        vstd::utf8::encode_utf8(VERTEX_SHADER@).len() <= 0xffff,
{
    reveal_strlit("VERT\n\
DCL IN[0]\n\
DCL IN[1]\n\
DCL OUT[0], POSITION\n\
DCL OUT[1], COLOR\n\
  0: MOV OUT[0], IN[0]\n\
  1: MOV OUT[1], IN[1]\n\
  2: END\n");
    lemma_text_length(VERTEX_SHADER@);
}

/// The source of `FRAGMENT_SHADER` is short.
pub proof fn lemma_fragment_shader_length()
    ensures
        vstd::utf8::encode_utf8(FRAGMENT_SHADER@).len() <= 0xffff,
{
    reveal_strlit("FRAG\n\
PROPERTY FS_COLOR0_WRITES_ALL_CBUFS 1\n\
DCL IN[0], COLOR, PERSPECTIVE\n\
DCL OUT[0], COLOR\n\
  0: MOV OUT[0], IN[0]\n\
   1: END\n");
    lemma_text_length(FRAGMENT_SHADER@);
}

/// The source of `COMPOSITION_VERTEX_SHADER` is short.
pub proof fn lemma_composition_vertex_shader_length()
    ensures
        vstd::utf8::encode_utf8(COMPOSITION_VERTEX_SHADER@).len() <= 0xffff,
{
    reveal_strlit("VERT\n\
DCL IN[0]\n\
DCL IN[1]\n\
DCL IN[2]\n\
DCL OUT[0], POSITION\n\
DCL OUT[1], GENERIC[0]\n\
DCL OUT[2], COLOR\n\
  0: MOV OUT[0], IN[0]\n\
  1: MOV OUT[1], IN[1]\n\
  2: MOV OUT[2], IN[2]\n\
  3: END\n");
    lemma_text_length(COMPOSITION_VERTEX_SHADER@);
}

/// The source of `COMPOSITION_TEXTURE_ALPHA_SHADER` is short.
pub proof fn lemma_composition_texture_alpha_shader_length()
    ensures
        vstd::utf8::encode_utf8(COMPOSITION_TEXTURE_ALPHA_SHADER@).len() <= 0xffff,
{
    reveal_strlit("FRAG\n\
PROPERTY FS_COLOR0_WRITES_ALL_CBUFS 1\n\
DCL IN[0], GENERIC[0], PERSPECTIVE\n\
DCL IN[1], COLOR, PERSPECTIVE\n\
DCL SAMP[0]\n\
DCL SVIEW[0], 2D, FLOAT\n\
DCL OUT[0], COLOR\n\
DCL TEMP[0]\n\
  0: TEX TEMP[0], IN[0], SAMP[0], 2D\n\
  1: MOV OUT[0].xyz, TEMP[0].xyzx\n\
  2: MUL OUT[0].w, TEMP[0].wwww, IN[1].wwww\n\
  3: END\n");
    lemma_text_length(COMPOSITION_TEXTURE_ALPHA_SHADER@);
}

/// The source of `COMPOSITION_TEXTURE_OPAQUE_SHADER` is short.
pub proof fn lemma_composition_texture_opaque_shader_length()
    ensures
        vstd::utf8::encode_utf8(COMPOSITION_TEXTURE_OPAQUE_SHADER@).len() <= 0xffff,
{
    reveal_strlit("FRAG\n\
PROPERTY FS_COLOR0_WRITES_ALL_CBUFS 1\n\
DCL IN[0], GENERIC[0], PERSPECTIVE\n\
DCL IN[1], COLOR, PERSPECTIVE\n\
DCL SAMP[0]\n\
DCL SVIEW[0], 2D, FLOAT\n\
DCL OUT[0], COLOR\n\
DCL TEMP[0]\n\
  0: TEX TEMP[0], IN[0], SAMP[0], 2D\n\
  1: MOV OUT[0].xyz, TEMP[0].xyzx\n\
  2: MOV OUT[0].w, IN[1].wwww\n\
  3: END\n");
    lemma_text_length(COMPOSITION_TEXTURE_OPAQUE_SHADER@);
}

/// The source of `COMPOSITION_SOLID_SHADER` is short.
pub proof fn lemma_composition_solid_shader_length()
    ensures
        vstd::utf8::encode_utf8(COMPOSITION_SOLID_SHADER@).len() <= 0xffff,
{
    reveal_strlit("FRAG\n\
PROPERTY FS_COLOR0_WRITES_ALL_CBUFS 1\n\
DCL IN[1], COLOR, PERSPECTIVE\n\
DCL OUT[0], COLOR\n\
   0: MOV OUT[0], IN[1]\n\
   1: END\n");
    lemma_text_length(COMPOSITION_SOLID_SHADER@);
}

/// The source of `IR_VERTEX_SHADER` is short.
pub proof fn lemma_ir_vertex_shader_length()
    ensures
        vstd::utf8::encode_utf8(IR_VERTEX_SHADER@).len() <= 0xffff,
{
    reveal_strlit("VERT\n\
DCL IN[0]\n\
DCL IN[1]\n\
DCL CONST[0..3]\n\
DCL OUT[0], POSITION\n\
DCL OUT[1], COLOR\n\
DCL OUT[2], GENERIC[0]\n\
DCL TEMP[0]\n\
  0: MUL TEMP[0], CONST[0], IN[0].xxxx\n\
  1: MAD TEMP[0], CONST[1], IN[0].yyyy, TEMP[0]\n\
  2: MAD TEMP[0], CONST[2], IN[0].zzzz, TEMP[0]\n\
  3: MAD OUT[0], CONST[3], IN[0].wwww, TEMP[0]\n\
  4: MOV OUT[1], IN[1]\n\
  5: MOV OUT[2], IN[1]\n\
  6: END\n");
    lemma_text_length(IR_VERTEX_SHADER@);
}

/// The source of `IR_SOLID_FRAGMENT_SHADER` is short.
pub proof fn lemma_ir_solid_fragment_shader_length()
    ensures
        vstd::utf8::encode_utf8(IR_SOLID_FRAGMENT_SHADER@).len() <= 0xffff,
{
    reveal_strlit("FRAG\n\
PROPERTY FS_COLOR0_WRITES_ALL_CBUFS 1\n\
DCL CONST[0]\n\
DCL OUT[0], COLOR\n\
  0: MOV OUT[0], CONST[0]\n\
  1: END\n");
    lemma_text_length(IR_SOLID_FRAGMENT_SHADER@);
}

/// The source of `IR_VERTEX_COLOR_FRAGMENT_SHADER` is short.
pub proof fn lemma_ir_vertex_color_fragment_shader_length()
    ensures
        vstd::utf8::encode_utf8(IR_VERTEX_COLOR_FRAGMENT_SHADER@).len() <= 0xffff,
{
    reveal_strlit("FRAG\n\
PROPERTY FS_COLOR0_WRITES_ALL_CBUFS 1\n\
DCL IN[0], COLOR, PERSPECTIVE\n\
DCL CONST[0]\n\
DCL OUT[0], COLOR\n\
  0: MUL OUT[0], IN[0], CONST[0]\n\
  1: END\n");
    lemma_text_length(IR_VERTEX_COLOR_FRAGMENT_SHADER@);
}

/// The source of `IR_TEXTURE_RGBA_FRAGMENT_SHADER` is short.
pub proof fn lemma_ir_texture_rgba_fragment_shader_length()
    ensures
        vstd::utf8::encode_utf8(IR_TEXTURE_RGBA_FRAGMENT_SHADER@).len() <= 0xffff,
{
    reveal_strlit("FRAG\n\
PROPERTY FS_COLOR0_WRITES_ALL_CBUFS 1\n\
DCL IN[0], GENERIC[0], PERSPECTIVE\n\
DCL CONST[0]\n\
DCL SAMP[0]\n\
DCL SVIEW[0], 2D, FLOAT\n\
DCL OUT[0], COLOR\n\
DCL TEMP[0]\n\
  0: TEX TEMP[0], IN[0], SAMP[0], 2D\n\
  1: MUL OUT[0], TEMP[0], CONST[0]\n\
  2: END\n");
    lemma_text_length(IR_TEXTURE_RGBA_FRAGMENT_SHADER@);
}

/// The source of `IR_TEXTURE_RGB_IGNORE_ALPHA_FRAGMENT_SHADER` is short.
pub proof fn lemma_ir_texture_rgb_ignore_alpha_fragment_shader_length()
    ensures
        vstd::utf8::encode_utf8(IR_TEXTURE_RGB_IGNORE_ALPHA_FRAGMENT_SHADER@).len() <= 0xffff,
{
    reveal_strlit("FRAG\n\
PROPERTY FS_COLOR0_WRITES_ALL_CBUFS 1\n\
DCL IN[0], GENERIC[0], PERSPECTIVE\n\
DCL CONST[0]\n\
DCL SAMP[0]\n\
DCL SVIEW[0], 2D, FLOAT\n\
DCL OUT[0], COLOR\n\
DCL TEMP[0]\n\
  0: TEX TEMP[0], IN[0], SAMP[0], 2D\n\
  1: MUL OUT[0].xyz, TEMP[0].xyzx, CONST[0].xyzx\n\
  2: MOV OUT[0].w, CONST[0].wwww\n\
  3: END\n");
    lemma_text_length(IR_TEXTURE_RGB_IGNORE_ALPHA_FRAGMENT_SHADER@);
}

/// The source of `IR_TEXTURE_ALPHA_MASK_FRAGMENT_SHADER` is short.
pub proof fn lemma_ir_texture_alpha_mask_fragment_shader_length()
    ensures
        vstd::utf8::encode_utf8(IR_TEXTURE_ALPHA_MASK_FRAGMENT_SHADER@).len() <= 0xffff,
{
    reveal_strlit("FRAG\n\
PROPERTY FS_COLOR0_WRITES_ALL_CBUFS 1\n\
DCL IN[0], GENERIC[0], PERSPECTIVE\n\
DCL CONST[0]\n\
DCL SAMP[0]\n\
DCL SVIEW[0], 2D, FLOAT\n\
DCL OUT[0], COLOR\n\
DCL TEMP[0]\n\
  0: TEX TEMP[0], IN[0], SAMP[0], 2D\n\
  1: MOV OUT[0].xyz, CONST[0].xyzx\n\
  2: MUL OUT[0].w, TEMP[0].wwww, CONST[0].wwww\n\
  3: END\n");
    lemma_text_length(IR_TEXTURE_ALPHA_MASK_FRAGMENT_SHADER@);
}

} // verus!
