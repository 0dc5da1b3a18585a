//! Shader compilation: the generated prelude, the text that is parsed, and
//! what is made of the parser's answer.
//!
//! The parser itself is the host's. A parser may stop the thread on a
//! text that it cannot handle, and no test that could be made beforehand
//! tells on which; the functions of this library always return. So the
//! host parses prelude and user text together and hands over the entry
//! points of the module, or the failure, and the library does the rest.

use vstd::prelude::*;
use vstd::string::*;

verus! {

/// The scalar and vector aliases that user code may use.
pub const PRELUDE_ALIASES: &'static str =
    "type int = i32;type int2 = vec2<i32>;type int3 = vec3<i32>;type int4 = vec4<i32>;type uint = u32;type uint2 = vec2<u32>;type uint3 = vec3<u32>;type uint4 = vec4<u32>;type float = f32;type float2 = vec2<f32>;type float3 = vec3<f32>;type float4 = vec4<f32>;";

/// The layouts of the time and mouse blocks.
pub const PRELUDE_BLOCKS: &'static str = r#"
            struct Time { frame: uint, elapsed: float };
            struct Mouse { pos: uint2, click: int };
        "#;

/// Opens the block of custom parameters.
pub const CUSTOM_OPEN: &'static str = "struct Custom {";

/// Follows the name of each custom parameter: all of them are floats.
pub const CUSTOM_FIELD: &'static str = ": float,";

/// Closes the block of custom parameters.
pub const CUSTOM_CLOSE: &'static str = "};";

/// The field of the custom block when no parameter is declared, so that
/// the block is never empty.
pub const CUSTOM_PLACEHOLDER: &'static str = "_dummy";

/// Binds the custom block.
pub const PRELUDE_CUSTOM_BINDING: &'static str = "@group(0) @binding(0) var<uniform> custom: Custom;";

/// The bindings up to the format of the pass output texture.
pub const PRELUDE_BINDINGS_HEAD: &'static str = r#"
            @group(0) @binding(1) var<uniform> time: Time;
            @group(0) @binding(2) var<uniform> mouse: Mouse;
            @group(0) @binding(3) var<uniform> _keyboard: array<vec4<u32>,2>;
            @group(0) @binding(4) var screen: texture_storage_2d<rgba16float,write>;
            @group(0) @binding(5) var<storage,read_write> atomic_storage: array<atomic<i32>>;
            @group(0) @binding(6) var pass_in: texture_2d_array<f32>;
            @group(0) @binding(7) var pass_out: texture_storage_2d_array<"#;

/// The bindings after the format of the pass output texture.
pub const PRELUDE_BINDINGS_TAIL: &'static str = r#",write>;
            @group(0) @binding(8) var<storage,read_write> _assert_counts: array<atomic<u32>>;
            @group(0) @binding(10) var channel0: texture_2d<f32>;
            @group(0) @binding(11) var channel1: texture_2d<f32>;
            @group(0) @binding(20) var nearest: sampler;
            @group(0) @binding(21) var bilinear: sampler;
            @group(0) @binding(22) var trilinear: sampler;
        "#;

/// The key predicate and the assertion routine.
pub const PRELUDE_HELPERS: &'static str = r#"
            fn keyDown(keycode: uint) -> bool {
                return ((_keyboard[keycode / 128u][(keycode % 128u) / 32u] >> (keycode % 32u)) & 1u) == 1u;
            }
            fn assert(index: int, success: bool) {
                if (!success) {
                    atomicAdd(&_assert_counts[index], 1u);
                }
            }
        "#;

/// Name of the pass texture format at full precision.
pub const PASS_FORMAT_F32: &'static str = "rgba32float";

/// Name of the pass texture format at half precision.
pub const PASS_FORMAT_F16: &'static str = "rgba16float";

/// Stage of a shader entry point.
#[derive(Clone, Copy, Debug, PartialEq, Eq, Structural)]
pub enum ShaderStage {
    Vertex,
    Fragment,
    Compute,
}

/// Threads per workgroup along each axis, as the shader declares them.
#[derive(Clone, Copy, Debug, PartialEq, Eq, Structural)]
pub struct WorkgroupSize {
    pub x: u32,
    pub y: u32,
    pub z: u32,
}

/// An entry point of a parsed shader.
#[derive(Debug)]
pub struct EntryPoint {
    pub name: String,
    pub stage: ShaderStage,
    pub workgroup_size: WorkgroupSize,
}

/// An entry point as a value: its name is a sequence of characters.
pub struct EntryPointView {
    pub name: Seq<char>,
    pub stage: ShaderStage,
    pub workgroup_size: WorkgroupSize,
}

impl View for EntryPoint {
    type V = EntryPointView;

    open spec fn view(&self) -> EntryPointView {
        EntryPointView {
            name: self.name@,
            stage: self.stage,
            workgroup_size: self.workgroup_size,
        }
    }
}

impl DeepView for EntryPoint {
    type V = EntryPointView;

    open spec fn deep_view(&self) -> EntryPointView {
        self@
    }
}

/// A place in a text: line and column, both counted from one, and the
/// offset in bytes from the start of the text.
#[derive(Clone, Copy, Debug, PartialEq, Eq, Structural)]
pub struct SourceLocation {
    pub line: u32,
    pub column: u32,
    pub offset: u32,
}

/// What the host's parser reports of a text it rejects: the rendered
/// diagnostic and, where the error is tied to a place, that place.
#[derive(Debug)]
pub struct ParseFailure {
    pub summary: String,
    pub location: Option<SourceLocation>,
}

/// A rejected shader. Row, column and byte offset lie in the text that
/// was parsed: prelude and user text together.
#[derive(Debug)]
pub struct ParseError {
    pub summary: String,
    pub row: usize,
    pub column: usize,
    pub offset: usize,
}

/// A shader that parsed: the text to hand to the device, its compute
/// entry points in the order of their declaration, and the precision mode
/// of the prelude that it was compiled behind.
#[derive(Debug)]
pub struct CompiledShader {
    pub wgsl: String,
    pub entry_points: Vec<EntryPoint>,
    pub pass_f32: bool,
}

/// The fields of the custom block for a list of names.
pub open spec fn custom_fields(names: Seq<Seq<char>>) -> Seq<char>
    decreases names.len(),
{
    if names.len() == 0 {
        Seq::empty()
    } else {
        custom_fields(names.drop_last()) + names.last() + CUSTOM_FIELD@
    }
}

/// The names that the custom block declares: those given, or the
/// placeholder where none is given.
pub open spec fn declared_names(names: Seq<Seq<char>>) -> Seq<Seq<char>> {
    if names.len() == 0 {
        seq![CUSTOM_PLACEHOLDER@]
    } else {
        names
    }
}

/// Name of the pass texture format for a precision mode.
pub open spec fn pass_format_name(pass_f32: bool) -> Seq<char> {
    if pass_f32 {
        PASS_FORMAT_F32@
    } else {
        PASS_FORMAT_F16@
    }
}

/// The prelude: it depends on the custom parameter names and on the
/// precision mode, and on nothing else.
pub open spec fn prelude_text(names: Seq<Seq<char>>, pass_f32: bool) -> Seq<char> {
    PRELUDE_ALIASES@ + PRELUDE_BLOCKS@ + CUSTOM_OPEN@ + custom_fields(declared_names(names))
        + CUSTOM_CLOSE@ + PRELUDE_CUSTOM_BINDING@ + PRELUDE_BINDINGS_HEAD@ + pass_format_name(
        pass_f32,
    ) + PRELUDE_BINDINGS_TAIL@ + PRELUDE_HELPERS@
}

/// The compute entry points among a list of entry points, in their order.
pub open spec fn compute_stage(entry_points: Seq<EntryPointView>) -> Seq<EntryPointView>
    decreases entry_points.len(),
{
    if entry_points.len() == 0 {
        Seq::empty()
    } else if entry_points.last().stage == ShaderStage::Compute {
        compute_stage(entry_points.drop_last()).push(entry_points.last())
    } else {
        compute_stage(entry_points.drop_last())
    }
}

/// The names of a list of entry points, in their order.
pub open spec fn entry_point_names(entry_points: Seq<EntryPointView>) -> Seq<Seq<char>> {
    entry_points.map_values(|entry_point: EntryPointView| entry_point.name)
}

/// Row, column and offset of a parse error: those of its location, or
/// the start of the text where it has none.
pub open spec fn error_position(location: Option<SourceLocation>) -> (usize, usize, usize) {
    match location {
        Some(at) => (at.line as usize, at.column as usize, at.offset as usize),
        None => (1, 1, 0),
    }
}

/// Generates the prelude that is put before the user's text. It declares
/// the aliases, the uniform blocks, one float field of the custom block
/// for each name in order, every binding of the bind group, and the two
/// helper routines.
pub fn prelude(custom_names: &Vec<String>, pass_f32: bool) -> (text: String)
    ensures
        text@ == prelude_text(custom_names.deep_view(), pass_f32),
{
    let mut text = String::new();
    text.append(PRELUDE_ALIASES);
    text.append(PRELUDE_BLOCKS);
    text.append(CUSTOM_OPEN);
    let ghost head = text@;
    let ghost names = custom_names.deep_view();
    assert(head =~= PRELUDE_ALIASES@ + PRELUDE_BLOCKS@ + CUSTOM_OPEN@);
    if custom_names.len() == 0 {
        text.append(CUSTOM_PLACEHOLDER);
        text.append(CUSTOM_FIELD);
        proof {
            let declared = seq![CUSTOM_PLACEHOLDER@];
            assert(declared.drop_last() =~= Seq::<Seq<char>>::empty());
            assert(custom_fields(declared.drop_last()) =~= Seq::<char>::empty());
            assert(custom_fields(declared) =~= CUSTOM_PLACEHOLDER@ + CUSTOM_FIELD@);
            assert(text@ =~= head + custom_fields(declared_names(names)));
        }
    } else {
        let mut i: usize = 0;
        assert(custom_fields(names.take(0)) =~= Seq::<char>::empty());
        while i < custom_names.len()
            invariant
                i <= custom_names.len(),
                names == custom_names.deep_view(),
                text@ =~= head + custom_fields(names.take(i as int)),
            decreases custom_names.len() - i,
        {
            text.append(custom_names[i].as_str());
            text.append(CUSTOM_FIELD);
            proof {
                let next = names.take(i + 1);
                assert(next.drop_last() =~= names.take(i as int));
                assert(next.last() == custom_names[i as int]@);
                assert(text@ =~= head + custom_fields(next));
            }
            i = i + 1;
        }
        assert(names.take(i as int) =~= names);
    }
    text.append(CUSTOM_CLOSE);
    text.append(PRELUDE_CUSTOM_BINDING);
    text.append(PRELUDE_BINDINGS_HEAD);
    if pass_f32 {
        text.append(PASS_FORMAT_F32);
    } else {
        text.append(PASS_FORMAT_F16);
    }
    text.append(PRELUDE_BINDINGS_TAIL);
    text.append(PRELUDE_HELPERS);
    assert(text@ =~= prelude_text(names, pass_f32));
    text
}

/// Keeps the compute entry points of a parsed shader, in their order.
pub fn compute_entry_points(entry_points: &Vec<EntryPoint>) -> (kept: Vec<EntryPoint>)
    ensures
        kept.deep_view() == compute_stage(entry_points.deep_view()),
{
    let mut kept: Vec<EntryPoint> = Vec::new();
    let ghost all = entry_points.deep_view();
    let mut i: usize = 0;
    assert(kept.deep_view() =~= compute_stage(all.take(0)));
    while i < entry_points.len()
        invariant
            i <= entry_points.len(),
            all == entry_points.deep_view(),
            kept.deep_view() == compute_stage(all.take(i as int)),
        decreases entry_points.len() - i,
    {
        let entry = &entry_points[i];
        let ghost before = kept.deep_view();
        proof {
            assert(all.take(i + 1).drop_last() =~= all.take(i as int));
            assert(all.take(i + 1).last() == entry@);
        }
        if entry.stage == ShaderStage::Compute {
            kept.push(
                EntryPoint {
                    name: entry.name.clone(),
                    stage: entry.stage,
                    workgroup_size: entry.workgroup_size,
                },
            );
            assert(kept.deep_view() =~= before.push(entry@));
        }
        i = i + 1;
    }
    assert(all.take(i as int) =~= all);
    kept
}

/// The text that the host parses and hands to the device: the prelude,
/// then the user's text.
pub open spec fn shader_text(names: Seq<Seq<char>>, pass_f32: bool, source: Seq<char>) -> Seq<
    char,
> {
    prelude_text(names, pass_f32) + source
}

/// The outcome of a compile as a value.
pub enum CompileOutcome {
    /// The text, its compute entry points, and the precision mode.
    Compiled(Seq<char>, Seq<EntryPointView>, bool),
    /// Summary, row, column and offset of the error.
    Rejected(Seq<char>, usize, usize, usize),
}

/// What a compile makes of the parser's answer. A module that parsed
/// keeps the text and, of its entry points, those of the compute stage in
/// their order. A failure keeps its summary and takes its position from
/// its location.
pub open spec fn compile_spec(
    wgsl: Seq<char>,
    pass_f32: bool,
    parsed: Result<Seq<EntryPointView>, (Seq<char>, Option<SourceLocation>)>,
) -> CompileOutcome {
    match parsed {
        Ok(entry_points) => CompileOutcome::Compiled(wgsl, compute_stage(entry_points), pass_f32),
        Err((summary, location)) => CompileOutcome::Rejected(
            summary,
            error_position(location).0,
            error_position(location).1,
            error_position(location).2,
        ),
    }
}

/// The parser's answer as a value.
pub open spec fn parsed_view(parsed: Result<Vec<EntryPoint>, ParseFailure>) -> Result<
    Seq<EntryPointView>,
    (Seq<char>, Option<SourceLocation>),
> {
    match parsed {
        Ok(entry_points) => Ok(entry_points.deep_view()),
        Err(failure) => Err((failure.summary@, failure.location)),
    }
}

/// The outcome of a compile as a value.
pub open spec fn compiled_view(compiled: Result<CompiledShader, ParseError>) -> CompileOutcome {
    match compiled {
        Ok(shader) => CompileOutcome::Compiled(
            shader.wgsl@,
            shader.entry_points.deep_view(),
            shader.pass_f32,
        ),
        Err(error) => CompileOutcome::Rejected(
            error.summary@,
            error.row,
            error.column,
            error.offset,
        ),
    }
}

/// Puts the prelude for the given parameter names and precision mode
/// before the user's text.
pub fn shader_source(source: &str, custom_names: &Vec<String>, pass_f32: bool) -> (wgsl: String)
    ensures
        wgsl@ == shader_text(custom_names.deep_view(), pass_f32, source@),
{
    let mut wgsl = prelude(custom_names, pass_f32);
    wgsl.append(source);
    wgsl
}

/// Turns the outcome of a parse into the outcome of a compile. A module
/// that parsed keeps its text and its compute entry points; a failure
/// keeps its summary and takes its position from its location.
pub fn compiled_from(
    wgsl: String,
    pass_f32: bool,
    parsed: Result<Vec<EntryPoint>, ParseFailure>,
) -> (compiled: Result<CompiledShader, ParseError>)
    ensures
        compiled_view(compiled) == compile_spec(wgsl@, pass_f32, parsed_view(parsed)),
{
    match parsed {
        Ok(entry_points) => Ok(
            CompiledShader { wgsl, entry_points: compute_entry_points(&entry_points), pass_f32 },
        ),
        Err(failure) => {
            let (row, column, offset): (usize, usize, usize) = match failure.location {
                Some(at) => (at.line as usize, at.column as usize, at.offset as usize),
                None => (1, 1, 0),
            };
            Err(ParseError { summary: failure.summary, row, column, offset })
        },
    }
}

/// Compiles a shader from the answer that the host's parser gave for
/// `shader_source` of the same text, names and mode. It succeeds exactly
/// when the parser did, and then holds the whole text and its compute
/// entry points in the order of their declaration. Otherwise the error
/// holds the parser's diagnostic and the position of the error in the
/// whole text.
pub fn compile(
    source: &str,
    custom_names: &Vec<String>,
    pass_f32: bool,
    parsed: Result<Vec<EntryPoint>, ParseFailure>,
) -> (compiled: Result<CompiledShader, ParseError>)
    ensures
        compiled_view(compiled) == compile_spec(
            shader_text(custom_names.deep_view(), pass_f32, source@),
            pass_f32,
            parsed_view(parsed),
        ),
{
    compiled_from(shader_source(source, custom_names, pass_f32), pass_f32, parsed)
}

} // verus!
