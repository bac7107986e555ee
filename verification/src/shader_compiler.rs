//! Shader compilation: what kind of source a shader file holds, how its
//! include files are found, which compiler settings it gets, and the work
//! group size that a compiled compute shader declares.

use vstd::prelude::*;
use vstd::string::StringExecFns;
use relative_path::{RelativePath, RelativePathBuf};
use crate::text::{chars_of, extension_of, file_extension, file_stem, stem_of, str_eq};

verus! {

/// The suffix that turns a shader profile into a compiler target.
pub const TARGET_PROFILE_SUFFIX: &'static str = "_6_4";

/// The compiler target of ray-tracing shaders.
pub const RAY_TRACING_TARGET_PROFILE: &'static str = "lib_6_4";

/// The operation code of the instruction that declares an execution mode.
pub const OP_EXECUTION_MODE: u32 = 16;

/// The operation code of the instruction that defines a constant.
pub const OP_CONSTANT: u32 = 43;

/// The operation code of the instruction that defines a specialization constant.
pub const OP_SPEC_CONSTANT: u32 = 50;

/// The operation code of the instruction that defines a specialization
/// constant by an operation on others.
pub const OP_SPEC_CONSTANT_OP: u32 = 52;

/// The operation code of the multi-way branch.
pub const OP_SWITCH: u32 = 251;

/// The number of words of a module's header.
pub const MODULE_HEADER_WORDS: usize = 5;

/// What a shader file holds.
#[derive(Debug, Clone, Copy, PartialEq, Eq, Structural)]
pub enum ShaderSourceKind {
    /// Compiled code, to be loaded as it is.
    Spirv,
    /// Source text, to be run through the include processor and compiled.
    Hlsl,
}

/// Why a shader could not be compiled.
#[derive(Debug, Clone, PartialEq, Eq)]
pub enum ShaderError {
    /// Source text in a language for which there is no compiler.
    UnsupportedLanguage(String),
    /// A file extension that stands for no kind of shader.
    UnrecognizedExtension(String),
}

/// The text of a shader error.
pub open spec fn shader_error_text(error: ShaderError) -> Seq<char> {
    match error {
        ShaderError::UnsupportedLanguage(ext) => "Unsupported shader language: "@ + ext@,
        ShaderError::UnrecognizedExtension(ext) => "Unrecognized shader file extension: "@
            + ext@,
    }
}

impl ShaderError {
    /// The text of the error.
    pub fn message(&self) -> (r: String)
        ensures
            r@ == shader_error_text(*self),
    {
        match self {
            ShaderError::UnsupportedLanguage(ext) => {
                let mut text = String::from_str("Unsupported shader language: ");
                text.append(ext.as_str());
                text
            },
            ShaderError::UnrecognizedExtension(ext) => {
                let mut text = String::from_str("Unrecognized shader file extension: ");
                text.append(ext.as_str());
                text
            },
        }
    }
}

/// The extension of a path, or the empty text where it has none.
pub open spec fn extension_or_empty(path: Seq<char>) -> Seq<char> {
    match extension_of(path) {
        Some(ext) => ext,
        None => Seq::empty(),
    }
}

/// The name of a shader: the stem of its path, or `unknown`.
pub open spec fn shader_name_of(path: Seq<char>) -> Seq<char> {
    match stem_of(path) {
        Some(stem) => stem,
        None => "unknown"@,
    }
}

/// The name of a shader: the stem of its path, or `unknown`.
pub fn shader_name(path: &str) -> (r: String)
    ensures
        r@ == shader_name_of(path@),
{
    match file_stem(path) {
        Some(stem) => String::from_str(stem),
        None => String::from_str("unknown"),
    }
}

/// What the shader file at a path holds, by its extension: `spv` is
/// compiled code and `hlsl` source text; `glsl` has no compiler, and every
/// other extension stands for no shader.
pub fn shader_source_kind(path: &str) -> (r: Result<ShaderSourceKind, ShaderError>)
    ensures
        match r {
            Ok(kind) => kind == if extension_or_empty(path@) == "spv"@ {
                ShaderSourceKind::Spirv
            } else {
                ShaderSourceKind::Hlsl
            } && (extension_or_empty(path@) == "spv"@ || extension_or_empty(path@) == "hlsl"@),
            Err(ShaderError::UnsupportedLanguage(ext)) => ext@ == "glsl"@ && extension_or_empty(
                path@,
            ) == "glsl"@,
            Err(ShaderError::UnrecognizedExtension(ext)) => ext@ == extension_or_empty(path@)
                && ext@ != "spv"@ && ext@ != "hlsl"@ && ext@ != "glsl"@,
        },
{
    let ext = match file_extension(path) {
        Some(ext) => ext,
        None => "",
    };
    proof {
        reveal_strlit("");
        assert(""@ =~= Seq::<char>::empty());
    }
    if str_eq(ext, "glsl") {
        Err(ShaderError::UnsupportedLanguage(String::from_str(ext)))
    } else if str_eq(ext, "spv") {
        Ok(ShaderSourceKind::Spirv)
    } else if str_eq(ext, "hlsl") {
        Ok(ShaderSourceKind::Hlsl)
    } else {
        Err(ShaderError::UnrecognizedExtension(String::from_str(ext)))
    }
}

/// What a ray-tracing shader file holds: only `hlsl` source text can be compiled.
pub fn ray_tracing_source_kind(path: &str) -> (r: Result<ShaderSourceKind, ShaderError>)
    ensures
        match r {
            Ok(kind) => kind == ShaderSourceKind::Hlsl && extension_or_empty(path@) == "hlsl"@,
            Err(ShaderError::UnsupportedLanguage(ext)) => ext@ == "glsl"@ && extension_or_empty(
                path@,
            ) == "glsl"@,
            Err(ShaderError::UnrecognizedExtension(ext)) => ext@ == extension_or_empty(path@)
                && ext@ != "hlsl"@ && ext@ != "glsl"@,
        },
{
    proof {
        reveal_strlit("spv");
        reveal_strlit("hlsl");
        reveal_strlit("glsl");
        assert("spv"@.len() == 3 && "hlsl"@.len() == 4 && "glsl"@.len() == 4);
    }
    match shader_source_kind(path) {
        Ok(ShaderSourceKind::Hlsl) => Ok(ShaderSourceKind::Hlsl),
        Ok(ShaderSourceKind::Spirv) => Err(
            ShaderError::UnrecognizedExtension(String::from_str("spv")),
        ),
        Err(error) => Err(error),
    }
}

/// The compiler target for a shader profile: the profile and `_6_4`.
pub fn target_profile(profile: &str) -> (r: String)
    ensures
        r@ == profile@ + TARGET_PROFILE_SUFFIX@,
{
    let mut target = String::from_str(profile);
    target.append(TARGET_PROFILE_SUFFIX);
    target
}

/// The settings with which every shader is compiled.
pub fn compiler_arguments() -> (r: Vec<&'static str>)
    ensures
        r@.len() == 5,
        r@[0]@ == "-spirv"@,
        r@[1]@ == "-fspv-target-env=vulkan1.2"@,
        r@[2]@ == "-WX"@,
        r@[3]@ == "-Ges"@,
        r@[4]@ == "-HV 2021"@,
{
    let mut arguments: Vec<&'static str> = Vec::new();
    arguments.push("-spirv");
    arguments.push("-fspv-target-env=vulkan1.2");
    arguments.push("-WX");
    arguments.push("-Ges");
    arguments.push("-HV 2021");
    arguments
}

/// The texts one after the other.
pub open spec fn concatenated(chunks: Seq<String>) -> Seq<char>
    decreases chunks.len(),
{
    if chunks.len() == 0 {
        Seq::empty()
    } else {
        concatenated(chunks.drop_last()) + chunks.last()@
    }
}

/// The source text of a shader: its chunks one after the other.
pub fn shader_source_text(source: &Vec<String>) -> (r: String)
    ensures
        r@ == concatenated(source@),
{
    let mut source_text = String::new();
    let mut i: usize = 0;
    assert(source@.subrange(0, 0) =~= Seq::empty());
    while i < source.len()
        invariant
            i <= source.len(),
            source_text@ == concatenated(source@.subrange(0, i as int)),
        decreases source.len() - i,
    {
        proof {
            let next = source@.subrange(0, i + 1);
            assert(next.drop_last() =~= source@.subrange(0, i as int));
            assert(next.last() == source@[i as int]);
        }
        source_text.append(source[i].as_str());
        i += 1;
    }
    assert(source@.subrange(0, i as int) =~= source@);
    source_text
}

/// The result of cutting the last component off a relative path, as
/// `RelativePathBuf::pop` does it.
pub uninterp spec fn relative_parent_of(path: Seq<char>) -> Seq<char>;

/// A relative path with another adjoined: a `/` comes between the two
/// unless the first is empty or ends in one, and a `/` at the start of the
/// second is dropped.
pub open spec fn relative_joined(base: Seq<char>, path: Seq<char>) -> Seq<char> {
    let tail = if path.len() > 0 && path[0] == '/' {
        path.drop_first()
    } else {
        path
    };
    if base.len() > 0 && base.last() != '/' {
        base + "/"@ + tail
    } else {
        base + tail
    }
}

/// Makes a `RelativePathBuf` of the text and calls its `pop`, which cuts
/// the path down to its parent. The result is named by
/// [`relative_parent_of`]; nothing else is claimed of it.
#[verifier::external_body]
fn relative_parent(path: &str) -> (r: String)
    ensures
        r@ == relative_parent_of(path@),
{
    let mut folder = RelativePathBuf::from(path);
    folder.pop();
    folder.into_string()
}

/// Calls `RelativePath::join`, which copies the path and pushes the other
/// on it: the separator is added where the copy is not empty and does not
/// end in one, and the other is appended without a separator at its start.
#[verifier::external_body]
fn relative_join(base: &str, path: &str) -> (r: String)
    ensures
        r@ == relative_joined(base@, path@),
{
    RelativePath::new(base).join(path).into_string()
}

/// The path of an include file as the shader names it: as it stands if it
/// begins with `/`, else adjoined to the directory of the including file.
pub open spec fn resolved_include(path: Seq<char>, parent_file: Seq<char>) -> Seq<char> {
    if path.len() > 0 && path[0] == '/' {
        path
    } else {
        relative_joined(relative_parent_of(parent_file), path)
    }
}

/// Whether the text begins with `/`.
fn starts_with_slash(path: &str) -> (r: bool)
    ensures
        r == (path@.len() > 0 && path@[0] == '/'),
{
    let chars = chars_of(path);
    chars.len() > 0 && chars[0] == '/'
}

/// Resolves the path of an include file against the file that includes it.
pub fn resolve_path(path: &str, parent_file: &str) -> (r: String)
    ensures
        r@ == resolved_include(path@, parent_file@),
{
    if starts_with_slash(path) {
        String::from_str(path)
    } else {
        let folder = relative_parent(parent_file);
        relative_join(folder.as_str(), path)
    }
}

/// Where an include file lies on disk: below `assets` if its resolved path
/// begins with `/`, else below `assets/shaders`.
pub open spec fn include_location(resolved_path: Seq<char>) -> Seq<char> {
    if resolved_path.len() > 0 && resolved_path[0] == '/' {
        "assets"@ + resolved_path
    } else {
        "assets/shaders/"@ + resolved_path
    }
}

/// Where the include file with the given resolved path lies on disk.
pub fn include_file_path(resolved_path: &str) -> (r: String)
    ensures
        r@ == include_location(resolved_path@),
{
    let mut file_path = if starts_with_slash(resolved_path) {
        String::from_str("assets")
    } else {
        String::from_str("assets/shaders/")
    };
    file_path.append(resolved_path);
    file_path
}

/// An instruction of a compiled shader, as far as it is read here: its
/// operation code, and for each operand its value if it is a 32-bit literal.
#[derive(Debug, Clone, PartialEq, Eq)]
pub struct SpirvInstruction {
    pub opcode: u32,
    pub operands: Vec<Option<u32>>,
}

impl View for SpirvInstruction {
    type V = (u32, Seq<Option<u32>>);

    open spec fn view(&self) -> (u32, Seq<Option<u32>>) {
        (self.opcode, self.operands@)
    }
}

/// The views of a sequence of instructions, in order.
pub open spec fn instruction_views(instructions: Seq<SpirvInstruction>) -> Seq<
    (u32, Seq<Option<u32>>),
> {
    instructions.map_values(|instruction: SpirvInstruction| instruction@)
}

/// The global instructions that the SPIR-V parser finds in a module given
/// by its words, each as its operation code and its operands, or nothing
/// where the parser rejects the words.
pub uninterp spec fn spirv_global_instructions(words: Seq<u32>) -> Option<
    Seq<(u32, Seq<Option<u32>>)>,
>;

/// Why no work group size could be read.
#[derive(Debug, Clone, Copy, PartialEq, Eq, Structural)]
pub enum LocalSizeError {
    /// The words are no SPIR-V module.
    InvalidModule,
    /// The module declares no execution mode.
    NoExecutionMode,
    /// The first execution mode does not have three 32-bit literals as its
    /// third to fifth operand.
    UnexpectedOperands,
}

/// The text of an error.
pub open spec fn local_size_error_text(error: LocalSizeError) -> Seq<char> {
    match error {
        LocalSizeError::InvalidModule => "Could not parse the SPIR-V module"@,
        LocalSizeError::NoExecutionMode => "Could not find a ExecutionMode SPIR-V op"@,
        LocalSizeError::UnexpectedOperands => "Could not parse the ExecutionMode SPIR-V op"@,
    }
}

impl LocalSizeError {
    /// The text of the error.
    pub fn message(&self) -> (r: String)
        ensures
            r@ == local_size_error_text(*self),
    {
        match self {
            LocalSizeError::InvalidModule => String::from_str("Could not parse the SPIR-V module"),
            LocalSizeError::NoExecutionMode => String::from_str(
                "Could not find a ExecutionMode SPIR-V op",
            ),
            LocalSizeError::UnexpectedOperands => String::from_str(
                "Could not parse the ExecutionMode SPIR-V op",
            ),
        }
    }
}

/// The position of the first instruction with the given operation code from
/// `from` on, or the number of instructions where there is none.
pub open spec fn next_with_opcode(
    instructions: Seq<(u32, Seq<Option<u32>>)>,
    opcode: u32,
    from: int,
) -> int
    decreases instructions.len() - from,
{
    if from < 0 || from >= instructions.len() {
        instructions.len() as int
    } else if instructions[from].0 == opcode {
        from
    } else {
        next_with_opcode(instructions, opcode, from + 1)
    }
}

/// The work group size that an execution mode declares with the given
/// operands: the third, fourth and fifth of them.
pub open spec fn local_size_of_operands(operands: Seq<Option<u32>>) -> Result<
    [u32; 3],
    LocalSizeError,
> {
    if operands.len() >= 5 && operands[2] is Some && operands[3] is Some && operands[4] is Some {
        Ok([operands[2]->0, operands[3]->0, operands[4]->0])
    } else {
        Err(LocalSizeError::UnexpectedOperands)
    }
}

/// The work group size that the instructions declare: that of the first
/// execution mode among them.
pub open spec fn local_size_of(instructions: Seq<(u32, Seq<Option<u32>>)>) -> Result<
    [u32; 3],
    LocalSizeError,
> {
    let at = next_with_opcode(instructions, OP_EXECUTION_MODE, 0);
    if at >= instructions.len() {
        Err(LocalSizeError::NoExecutionMode)
    } else {
        local_size_of_operands(instructions[at].1)
    }
}

/// The number of words of an instruction, which the upper half of its first
/// word holds.
pub open spec fn word_count_of(word: u32) -> int {
    word as int / 65536
}

/// The operation code of an instruction, which the lower half of its first
/// word holds.
pub open spec fn opcode_of(word: u32) -> int {
    word as int % 65536
}

/// Whether an operation cannot stand inside a specialization-constant
/// operation: its operands have a form that only the instruction itself
/// can give meaning to.
pub open spec fn unfit_for_spec_constant_op(opcode: u32) -> bool {
    opcode == OP_CONSTANT || opcode == OP_SPEC_CONSTANT || opcode == OP_SPEC_CONSTANT_OP || opcode
        == OP_SWITCH
}

/// Whether the instructions from position `from` on are framed as the
/// parser needs them. The instructions are walked by their word counts, up
/// to the end of the words or to an instruction with a word count of zero.
/// Each of them has to lie within the words, and a specialization-constant
/// operation of four words or more may not name, as its fourth word, an
/// operation that is unfit for it.
pub open spec fn instructions_admitted(words: Seq<u32>, from: int) -> bool
    decreases words.len() - from,
{
    if from < 0 || from >= words.len() {
        true
    } else {
        let count = word_count_of(words[from]);
        if count == 0 {
            true
        } else if from + count > words.len() {
            false
        } else if opcode_of(words[from]) == OP_SPEC_CONSTANT_OP && count >= 4
            && unfit_for_spec_constant_op(words[from + 3]) {
            false
        } else {
            instructions_admitted(words, from + count)
        }
    }
}

/// Whether the words may be handed to the parser: the instructions behind
/// the header are framed as [`instructions_admitted`] asks. Words that are
/// not admitted are no module.
pub open spec fn parse_admitted(words: Seq<u32>) -> bool {
    instructions_admitted(words, MODULE_HEADER_WORDS as int)
}

/// The work group size that a module given by its words declares. Words
/// that may not be handed to the parser, and words that the parser rejects,
/// are no module.
pub open spec fn local_size_of_module(words: Seq<u32>) -> Result<[u32; 3], LocalSizeError> {
    if !parse_admitted(words) {
        Err(LocalSizeError::InvalidModule)
    } else {
        match spirv_global_instructions(words) {
            Some(instructions) => local_size_of(instructions),
            None => Err(LocalSizeError::InvalidModule),
        }
    }
}

/// Parses the words with `rspirv::binary::parse_words` into a
/// `rspirv::dr::Loader` and hands out the instructions of
/// `Module::global_inst_iter`, each with the number of its operation code
/// and with the value of every operand that is a `LiteralBit32`. The result
/// is named by [`spirv_global_instructions`]; nothing else is claimed of it.
///
/// The parser does not return on every input. It stops with a panic where a
/// specialization-constant operation names `OpConstant`, `OpSpecConstant`,
/// `OpSpecConstantOp` or `OpSwitch`, and where it looks for the end of a
/// string in an instruction that claims more words than there are. Such
/// words are left out: only those of [`parse_admitted`] may be handed in.
#[verifier::external_body]
fn parse_global_instructions(spirv: &[u32]) -> (r: Option<Vec<SpirvInstruction>>)
    requires
        parse_admitted(spirv@),
    ensures
        match r {
            Some(instructions) => spirv_global_instructions(spirv@) == Some(
                instruction_views(instructions@),
            ),
            None => spirv_global_instructions(spirv@) is None,
        },
{
    let mut loader = rspirv::dr::Loader::new();
    rspirv::binary::parse_words(spirv, &mut loader).ok()?;
    let module = loader.module();
    Some(module.global_inst_iter().map(|inst| SpirvInstruction {
        opcode: inst.class.opcode as u32,
        operands: inst.operands.iter().map(|operand| match operand {
            rspirv::dr::Operand::LiteralBit32(value) => Some(*value),
            _ => None,
        }).collect(),
    }).collect())
}

/// The work group size that the instructions declare.
pub fn local_size_from_instructions(instructions: &Vec<SpirvInstruction>) -> (r: Result<
    [u32; 3],
    LocalSizeError,
>)
    ensures
        r == local_size_of(instruction_views(instructions@)),
{
    let ghost views = instruction_views(instructions@);
    let mut i: usize = 0;
    while i < instructions.len()
        invariant
            i <= instructions.len(),
            views == instruction_views(instructions@),
            views.len() == instructions@.len(),
            next_with_opcode(views, OP_EXECUTION_MODE, 0) == next_with_opcode(
                views,
                OP_EXECUTION_MODE,
                i as int,
            ),
        decreases instructions.len() - i,
    {
        assert(views[i as int] == instructions@[i as int]@);
        if instructions[i].opcode == OP_EXECUTION_MODE {
            let operands = &instructions[i].operands;
            if operands.len() >= 5 {
                match (operands[2], operands[3], operands[4]) {
                    (Some(x), Some(y), Some(z)) => {
                        let size = [x, y, z];
                        assert(size == [operands@[2]->0, operands@[3]->0, operands@[4]->0]);
                        return Ok(size);
                    },
                    _ => {
                        return Err(LocalSizeError::UnexpectedOperands);
                    },
                }
            } else {
                return Err(LocalSizeError::UnexpectedOperands);
            }
        }
        i += 1;
    }
    Err(LocalSizeError::NoExecutionMode)
}

/// Whether the words may be handed to the parser.
pub fn module_is_admitted(spirv: &[u32]) -> (r: bool)
    ensures
        r == parse_admitted(spirv@),
{
    let len = spirv.len();
    let mut at: usize = MODULE_HEADER_WORDS;
    while at < len
        invariant
            len == spirv@.len(),
            MODULE_HEADER_WORDS <= at,
            parse_admitted(spirv@) == instructions_admitted(spirv@, at as int),
        decreases len - at,
    {
        let word = spirv[at];
        let count = (word / 65536) as usize;
        let opcode = word % 65536;
        if count == 0 {
            return true;
        }
        if count > len - at {
            return false;
        }
        if opcode == OP_SPEC_CONSTANT_OP && count >= 4 {
            let inner = spirv[at + 3];
            if inner == OP_CONSTANT || inner == OP_SPEC_CONSTANT || inner == OP_SPEC_CONSTANT_OP
                || inner == OP_SWITCH {
                return false;
            }
        }
        at = at + count;
    }
    true
}

/// The work group size that a compiled compute shader declares. Words that
/// are not framed as a module are turned away before they reach the parser.
pub fn get_cs_local_size_from_spirv(spirv: &[u32]) -> (r: Result<[u32; 3], LocalSizeError>)
    ensures
        r == local_size_of_module(spirv@),
{
    if !module_is_admitted(spirv) {
        return Err(LocalSizeError::InvalidModule);
    }
    match parse_global_instructions(spirv) {
        Some(instructions) => local_size_from_instructions(&instructions),
        None => Err(LocalSizeError::InvalidModule),
    }
}

} // verus!
