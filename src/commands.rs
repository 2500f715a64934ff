use vstd::prelude::*;

verus! {

/// Bind target for vertex data.
pub const ARRAY_BUFFER: u32 = 0x8892;
/// Bind target for index data.
pub const ELEMENT_ARRAY_BUFFER: u32 = 0x8893;
/// Bind target for constant (uniform) data.
pub const UNIFORM_BUFFER: u32 = 0x8A11;
/// Usage hint for storage that is rewritten often.
pub const DYNAMIC_DRAW: u32 = 0x88E8;
/// Component type of 32-bit floats.
pub const FLOAT: u32 = 0x1406;
/// Primitive mode that draws independent triangles.
pub const TRIANGLES: u32 = 0x0004;
/// Clear mask of the color buffer.
pub const COLOR_BUFFER_BIT: u32 = 0x4000;
/// Shader stage kind of vertex shaders.
pub const VERTEX_SHADER: u32 = 0x8B31;
/// Shader stage kind of fragment shaders.
pub const FRAGMENT_SHADER: u32 = 0x8B30;

/// One native graphics call with its arguments, as the context receives it.
#[derive(Debug, PartialEq, Eq)]
pub enum Command {
    BindBuffer { target: u32, buffer: u32 },
    BufferData { target: u32, size: usize, usage: u32 },
    BufferSubData { target: u32, offset: usize, data: Vec<u8> },
    DeleteBuffer { buffer: u32 },
    BindVertexArray { array: u32 },
    EnableVertexAttribArray { index: u32 },
    VertexAttribPointer {
        index: u32,
        components: u32,
        component_type: u32,
        normalized: bool,
        stride: usize,
        offset: usize,
    },
    DeleteVertexArray { array: u32 },
    AttachShader { program: u32, shader: u32 },
    LinkProgram { program: u32 },
    DeleteShader { shader: u32 },
    UseProgram { program: u32 },
    DeleteProgram { program: u32 },
    Clear { mask: u32 },
    DrawArrays { mode: u32, first: i32, count: i32 },
}

/// The mathematical value of a `Command`.
pub ghost enum GlOp {
    BindBuffer { target: u32, buffer: u32 },
    BufferData { target: u32, size: nat, usage: u32 },
    BufferSubData { target: u32, offset: nat, data: Seq<u8> },
    DeleteBuffer { buffer: u32 },
    BindVertexArray { array: u32 },
    EnableVertexAttribArray { index: u32 },
    VertexAttribPointer {
        index: u32,
        components: u32,
        component_type: u32,
        normalized: bool,
        stride: nat,
        offset: nat,
    },
    DeleteVertexArray { array: u32 },
    AttachShader { program: u32, shader: u32 },
    LinkProgram { program: u32 },
    DeleteShader { shader: u32 },
    UseProgram { program: u32 },
    DeleteProgram { program: u32 },
    Clear { mask: u32 },
    DrawArrays { mode: u32, first: i32, count: i32 },
}

impl View for Command {
    type V = GlOp;

    open spec fn view(&self) -> GlOp {
        match self {
            Command::BindBuffer { target, buffer } => GlOp::BindBuffer { target: *target, buffer: *buffer },
            Command::BufferData { target, size, usage } => GlOp::BufferData { target: *target, size: *size as nat, usage: *usage },
            Command::BufferSubData { target, offset, data } => GlOp::BufferSubData { target: *target, offset: *offset as nat, data: data@ },
            Command::DeleteBuffer { buffer } => GlOp::DeleteBuffer { buffer: *buffer },
            Command::BindVertexArray { array } => GlOp::BindVertexArray { array: *array },
            Command::EnableVertexAttribArray { index } => GlOp::EnableVertexAttribArray { index: *index },
            Command::VertexAttribPointer { index, components, component_type, normalized, stride, offset } =>
                GlOp::VertexAttribPointer {
                    index: *index,
                    components: *components,
                    component_type: *component_type,
                    normalized: *normalized,
                    stride: *stride as nat,
                    offset: *offset as nat,
                },
            Command::DeleteVertexArray { array } => GlOp::DeleteVertexArray { array: *array },
            Command::AttachShader { program, shader } => GlOp::AttachShader { program: *program, shader: *shader },
            Command::LinkProgram { program } => GlOp::LinkProgram { program: *program },
            Command::DeleteShader { shader } => GlOp::DeleteShader { shader: *shader },
            Command::UseProgram { program } => GlOp::UseProgram { program: *program },
            Command::DeleteProgram { program } => GlOp::DeleteProgram { program: *program },
            Command::Clear { mask } => GlOp::Clear { mask: *mask },
            Command::DrawArrays { mode, first, count } => GlOp::DrawArrays { mode: *mode, first: *first, count: *count },
        }
    }
}

/// How one vertex attribute reads its values from a buffer.
pub ghost struct AttribFormat {
    pub components: u32,
    pub component_type: u32,
    pub normalized: bool,
    pub stride: nat,
    pub offset: nat,
    /// The buffer bound for vertex data when the format was set.
    pub source: u32,
}

/// One issued draw call, with the program and vertex array current at that time.
pub ghost struct DrawCall {
    pub mode: u32,
    pub first: i32,
    pub count: i32,
    pub program: u32,
    pub array: u32,
}

/// The part of a graphics context's state that the wrappers act on.
pub ghost struct GlState {
    /// Buffer bound to each bind target (absent means none).
    pub bindings: Map<u32, u32>,
    /// Storage of each live buffer; `None` marks a byte never written.
    pub storage: Map<u32, Seq<Option<u8>>>,
    /// The current vertex array (0 is none).
    pub vertex_array: u32,
    /// Enabled attributes, as (vertex array, attribute index).
    pub enabled: Set<(u32, u32)>,
    /// Attribute formats, keyed by (vertex array, attribute index).
    pub attribs: Map<(u32, u32), AttribFormat>,
    /// The current program (0 is none).
    pub program: u32,
    /// Every draw call issued, in order.
    pub draws: Seq<DrawCall>,
}

/// The buffer bound to `target` in `s`, 0 when none is.
pub open spec fn bound_buffer(s: GlState, target: u32) -> u32 {
    if s.bindings.contains_key(target) { s.bindings[target] } else { 0 }
}

/// `old` with `data` written from byte `offset` on.
pub open spec fn splice(old: Seq<Option<u8>>, offset: nat, data: Seq<u8>) -> Seq<Option<u8>> {
    Seq::new(
        old.len(),
        |i: int| if offset <= i < offset + data.len() { Some(data[i - offset]) } else { old[i] },
    )
}

/// The state after the context performs `op` in `s`.
pub open spec fn apply(s: GlState, op: GlOp) -> GlState {
    match op {
        GlOp::BindBuffer { target, buffer } => GlState { bindings: s.bindings.insert(target, buffer), ..s },
        GlOp::BufferData { target, size, usage } => {
            let id = bound_buffer(s, target);
            if id != 0 {
                GlState { storage: s.storage.insert(id, Seq::new(size, |i: int| None)), ..s }
            } else {
                s
            }
        },
        GlOp::BufferSubData { target, offset, data } => {
            let id = bound_buffer(s, target);
            if id != 0 && s.storage.contains_key(id) && offset + data.len() <= s.storage[id].len() {
                GlState { storage: s.storage.insert(id, splice(s.storage[id], offset, data)), ..s }
            } else {
                s
            }
        },
        GlOp::DeleteBuffer { buffer } => GlState { storage: s.storage.remove(buffer), ..s },
        GlOp::BindVertexArray { array } => GlState { vertex_array: array, ..s },
        GlOp::EnableVertexAttribArray { index } => {
            if s.vertex_array != 0 {
                GlState { enabled: s.enabled.insert((s.vertex_array, index)), ..s }
            } else {
                s
            }
        },
        GlOp::VertexAttribPointer { index, components, component_type, normalized, stride, offset } => {
            if s.vertex_array != 0 {
                let f = AttribFormat {
                    components,
                    component_type,
                    normalized,
                    stride,
                    offset,
                    source: bound_buffer(s, ARRAY_BUFFER),
                };
                GlState { attribs: s.attribs.insert((s.vertex_array, index), f), ..s }
            } else {
                s
            }
        },
        GlOp::DeleteVertexArray { array } => {
            if array == s.vertex_array { GlState { vertex_array: 0, ..s } } else { s }
        },
        GlOp::UseProgram { program } => GlState { program, ..s },
        GlOp::DeleteProgram { program } => {
            if program == s.program { GlState { program: 0, ..s } } else { s }
        },
        GlOp::DrawArrays { mode, first, count } => GlState {
            draws: s.draws.push(
                DrawCall { mode, first, count, program: s.program, array: s.vertex_array },
            ),
            ..s
        },
        _ => s,
    }
}

/// The state after the context performs `ops` in order, starting from `s`.
pub open spec fn run(s: GlState, ops: Seq<GlOp>) -> GlState
    decreases ops.len(),
{
    if ops.len() == 0 {
        s
    } else {
        apply(run(s, ops.drop_last()), ops.last())
    }
}

/// Performing two lists in turn is performing their concatenation.
pub proof fn lemma_run_concat(s: GlState, a: Seq<GlOp>, b: Seq<GlOp>)
    ensures
        run(s, a + b) == run(run(s, a), b),
    decreases b.len(),
{
    if b.len() == 0 {
        assert(a + b =~= a);
    } else {
        lemma_run_concat(s, a, b.drop_last());
        assert((a + b).drop_last() =~= a + b.drop_last());
    }
}

/// A list of native calls, recorded in the order they are to be issued.
pub struct CommandList {
    cmds: Vec<Command>,
}

impl View for CommandList {
    type V = Seq<GlOp>;

    closed spec fn view(&self) -> Seq<GlOp> {
        self.cmds@.map_values(|c: Command| c@)
    }
}

impl CommandList {
    pub fn new() -> (r: CommandList)
        ensures
            r@ == Seq::<GlOp>::empty(),
    {
        let r = CommandList { cmds: Vec::new() };
        assert(r@ =~= Seq::<GlOp>::empty());
        r
    }

    /// Appends `c` at the end.
    pub fn push(&mut self, c: Command)
        ensures
            final(self)@ == old(self)@.push(c@),
    {
        let ghost v = c@;
        self.cmds.push(c);
        assert(self@ =~= old(self)@.push(v));
    }

    /// Number of recorded calls.
    pub fn len(&self) -> (r: usize)
        ensures
            r == self@.len(),
    {
        self.cmds.len()
    }

    /// Hands out the recorded calls, in order.
    pub fn into_commands(self) -> (r: Vec<Command>)
        ensures
            r@.map_values(|c: Command| c@) == self@,
    {
        self.cmds
    }
}

} // verus!
