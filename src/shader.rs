use vstd::prelude::*;
use crate::commands::{Command, CommandList, GlOp};
use crate::error::{GpuError, ShaderStage};

verus! {

/// What `String::from_utf8_lossy` makes of a byte sequence.
pub uninterp spec fn utf8_lossy(b: Seq<u8>) -> Seq<char>;

/// Relies on `String::from_utf8_lossy`: decodes the bytes, replacing each
/// invalid sequence by U+FFFD; nothing comes of no bytes, and something of some.
#[verifier::external_body]
fn decode_lossy(b: &[u8]) -> (r: String)
    ensures
        r@ == utf8_lossy(b@),
        b@.len() == 0 <==> r@.len() == 0,
{
    String::from_utf8_lossy(b).into_owned()
}

/// Number of bytes before the first NUL of `b` (all of them when there is none).
pub open spec fn text_len(b: Seq<u8>) -> nat
    decreases b.len(),
{
    if b.len() == 0 || b[0] == 0 {
        0
    } else {
        1 + text_len(b.subrange(1, b.len() as int))
    }
}

/// The text of a diagnostic log buffer that the context filled.
pub open spec fn log_string(b: Seq<u8>) -> Seq<char> {
    utf8_lossy(b.take(text_len(b) as int))
}

proof fn lemma_text_len(b: Seq<u8>, k: int)
    requires
        0 <= k <= b.len(),
        k < b.len() ==> b[k] == 0,
        forall|j: int| 0 <= j < k ==> b[j] != 0,
    ensures
        text_len(b) == k,
    decreases k,
{
    if k > 0 {
        let t = b.subrange(1, b.len() as int);
        assert forall|j: int| 0 <= j < k - 1 implies t[j] != 0 by {
            assert(b[j + 1] != 0);
        }
        lemma_text_len(t, k - 1);
    }
}

/// A buffer of `len` spaces, for the context to write a log of `len` bytes into.
pub fn create_whitespace_cstring_with_len(len: usize) -> (r: Vec<u8>)
    ensures
        r@ == Seq::new(len as nat, |i: int| 0x20u8),
{
    let mut buffer: Vec<u8> = Vec::new();
    let mut i: usize = 0;
    while i < len
        invariant
            i <= len,
            buffer@ == Seq::new(i as nat, |j: int| 0x20u8),
        decreases len - i,
    {
        buffer.push(0x20u8);
        i = i + 1;
        assert(buffer@ =~= Seq::new(i as nat, |j: int| 0x20u8));
    }
    buffer
}

/// The text of a filled log buffer: the bytes before the first NUL, decoded.
pub fn log_text(buf: &[u8]) -> (r: String)
    ensures
        r@ == log_string(buf@),
        r@.len() == 0 <==> text_len(buf@) == 0,
{
    let mut k: usize = 0;
    while k < buf.len() && buf[k] != 0
        invariant
            k <= buf@.len(),
            forall|j: int| 0 <= j < k ==> buf@[j] != 0,
        decreases buf@.len() - k,
    {
        k = k + 1;
    }
    proof {
        lemma_text_len(buf@, k as int);
    }
    let mut text: Vec<u8> = Vec::new();
    let mut i: usize = 0;
    while i < k
        invariant
            i <= k <= buf@.len(),
            text@ == buf@.take(i as int),
        decreases k - i,
    {
        text.push(buf[i]);
        i = i + 1;
        assert(text@ =~= buf@.take(i as int));
    }
    decode_lossy(text.as_slice())
}

/// `e` is a failure of `stage` to compile, with diagnostic text `log`.
pub open spec fn is_compile_error(e: GpuError, stage: ShaderStage, log: Seq<char>) -> bool {
    match e {
        GpuError::Compile { stage: s, log: l } => s == stage && l@ == log,
        _ => false,
    }
}

/// `e` is a failure to link, with diagnostic text `log`.
pub open spec fn is_link_error(e: GpuError, log: Seq<char>) -> bool {
    match e {
        GpuError::Link { log: l } => l@ == log,
        _ => false,
    }
}

/// The calls that join the two compiled stages into `program` and then drop them.
pub open spec fn link_ops(program: u32, vertex: u32, fragment: u32) -> Seq<GlOp> {
    seq![
        GlOp::AttachShader { program, shader: vertex },
        GlOp::AttachShader { program, shader: fragment },
        GlOp::LinkProgram { program },
        GlOp::DeleteShader { shader: vertex },
        GlOp::DeleteShader { shader: fragment },
    ]
}

impl ShaderStage {
    /// The native shader kind of each stage.
    pub open spec fn kind_spec(self) -> u32 {
        match self {
            ShaderStage::Vertex => crate::commands::VERTEX_SHADER,
            ShaderStage::Fragment => crate::commands::FRAGMENT_SHADER,
        }
    }

    pub fn kind(&self) -> (r: u32)
        ensures
            r == self.kind_spec(),
    {
        match self {
            ShaderStage::Vertex => crate::commands::VERTEX_SHADER,
            ShaderStage::Fragment => crate::commands::FRAGMENT_SHADER,
        }
    }
}

/// A linked shader program; owns one native program handle.
pub struct Shader {
    id: u32,
}

/// A program object waiting for its vertex stage.
pub struct VertexPending {
    program: u32,
}

/// A program object whose vertex stage compiled, waiting for its fragment stage.
pub struct FragmentPending {
    program: u32,
    vertex: u32,
}

/// A program object whose stages were attached and linked, waiting for the link status.
pub struct LinkPending {
    program: u32,
}

impl VertexPending {
    #[verifier::type_invariant]
    spec fn inv(&self) -> bool {
        self.program != 0
    }

    pub closed spec fn program(&self) -> u32 {
        self.program
    }

    /// The program handle that the stages go into.
    pub fn program_value(&self) -> (r: u32)
        ensures
            r == self.program(),
    {
        self.program
    }

    /// Takes the outcome of compiling the vertex stage into shader object `shader`.
    /// On failure every object made so far is freed.
    pub fn vertex_compiled(self, shader: u32, compiled: bool, log: &[u8], cmds: &mut CommandList) -> (r: Result<FragmentPending, GpuError>)
        ensures
            shader == 0 ==> r is Err && r->Err_0 is Allocation
                && final(cmds)@ == old(cmds)@.push(GlOp::DeleteProgram { program: self.program() }),
            shader != 0 && !compiled ==> r is Err
                && is_compile_error(r->Err_0, ShaderStage::Vertex, log_string(log@))
                && final(cmds)@ == old(cmds)@ + seq![
                    GlOp::DeleteShader { shader },
                    GlOp::DeleteProgram { program: self.program() },
                ],
            shader != 0 && !compiled ==> (log_string(log@).len() == 0 <==> text_len(log@) == 0),
            shader != 0 && compiled ==> r is Ok && r->Ok_0.program() == self.program()
                && r->Ok_0.vertex() == shader && final(cmds)@ == old(cmds)@,
    {
        proof {
            use_type_invariant(&self);
        }
        if shader == 0 {
            cmds.push(Command::DeleteProgram { program: self.program });
            return Err(GpuError::Allocation);
        }
        if !compiled {
            let text = log_text(log);
            cmds.push(Command::DeleteShader { shader });
            cmds.push(Command::DeleteProgram { program: self.program });
            assert(cmds@ =~= old(cmds)@ + seq![
                GlOp::DeleteShader { shader },
                GlOp::DeleteProgram { program: self.program },
            ]);
            return Err(GpuError::Compile { stage: ShaderStage::Vertex, log: text });
        }
        Ok(FragmentPending { program: self.program, vertex: shader })
    }
}

impl FragmentPending {
    #[verifier::type_invariant]
    spec fn inv(&self) -> bool {
        self.program != 0 && self.vertex != 0
    }

    pub closed spec fn program(&self) -> u32 {
        self.program
    }

    pub closed spec fn vertex(&self) -> u32 {
        self.vertex
    }

    /// The program handle that the stages go into.
    pub fn program_value(&self) -> (r: u32)
        ensures
            r == self.program(),
    {
        self.program
    }

    /// Takes the outcome of compiling the fragment stage into shader object
    /// `shader`. On success records the calls that attach both stages, link, and
    /// drop the stages; on failure every object made so far is freed.
    pub fn fragment_compiled(self, shader: u32, compiled: bool, log: &[u8], cmds: &mut CommandList) -> (r: Result<LinkPending, GpuError>)
        ensures
            shader == 0 ==> r is Err && r->Err_0 is Allocation && final(cmds)@ == old(cmds)@ + seq![
                GlOp::DeleteShader { shader: self.vertex() },
                GlOp::DeleteProgram { program: self.program() },
            ],
            shader != 0 && !compiled ==> r is Err
                && is_compile_error(r->Err_0, ShaderStage::Fragment, log_string(log@))
                && final(cmds)@ == old(cmds)@ + seq![
                    GlOp::DeleteShader { shader },
                    GlOp::DeleteShader { shader: self.vertex() },
                    GlOp::DeleteProgram { program: self.program() },
                ],
            shader != 0 && !compiled ==> (log_string(log@).len() == 0 <==> text_len(log@) == 0),
            shader != 0 && compiled ==> r is Ok && r->Ok_0.program() == self.program()
                && final(cmds)@ == old(cmds)@ + link_ops(self.program(), self.vertex(), shader),
    {
        proof {
            use_type_invariant(&self);
        }
        if shader == 0 {
            cmds.push(Command::DeleteShader { shader: self.vertex });
            cmds.push(Command::DeleteProgram { program: self.program });
            assert(cmds@ =~= old(cmds)@ + seq![
                GlOp::DeleteShader { shader: self.vertex },
                GlOp::DeleteProgram { program: self.program },
            ]);
            return Err(GpuError::Allocation);
        }
        if !compiled {
            let text = log_text(log);
            cmds.push(Command::DeleteShader { shader });
            cmds.push(Command::DeleteShader { shader: self.vertex });
            cmds.push(Command::DeleteProgram { program: self.program });
            assert(cmds@ =~= old(cmds)@ + seq![
                GlOp::DeleteShader { shader },
                GlOp::DeleteShader { shader: self.vertex },
                GlOp::DeleteProgram { program: self.program },
            ]);
            return Err(GpuError::Compile { stage: ShaderStage::Fragment, log: text });
        }
        cmds.push(Command::AttachShader { program: self.program, shader: self.vertex });
        cmds.push(Command::AttachShader { program: self.program, shader });
        cmds.push(Command::LinkProgram { program: self.program });
        cmds.push(Command::DeleteShader { shader: self.vertex });
        cmds.push(Command::DeleteShader { shader });
        assert(cmds@ =~= old(cmds)@ + link_ops(self.program, self.vertex, shader));
        Ok(LinkPending { program: self.program })
    }
}

impl LinkPending {
    #[verifier::type_invariant]
    spec fn inv(&self) -> bool {
        self.program != 0
    }

    pub closed spec fn program(&self) -> u32 {
        self.program
    }

    /// The program handle whose link status is wanted.
    pub fn program_value(&self) -> (r: u32)
        ensures
            r == self.program(),
    {
        self.program
    }

    /// Takes the link status; a failure frees the program and carries the log.
    pub fn linked(self, linked: bool, log: &[u8], cmds: &mut CommandList) -> (r: Result<Shader, GpuError>)
        ensures
            !linked ==> r is Err && is_link_error(r->Err_0, log_string(log@))
                && final(cmds)@ == old(cmds)@.push(GlOp::DeleteProgram { program: self.program() }),
            !linked ==> (log_string(log@).len() == 0 <==> text_len(log@) == 0),
            linked ==> r is Ok && r->Ok_0.handle() == self.program() && final(cmds)@ == old(cmds)@,
    {
        proof {
            use_type_invariant(&self);
        }
        if !linked {
            let text = log_text(log);
            cmds.push(Command::DeleteProgram { program: self.program });
            return Err(GpuError::Link { log: text });
        }
        Ok(Shader { id: self.program })
    }
}

impl Shader {
    #[verifier::type_invariant]
    spec fn inv(&self) -> bool {
        self.id != 0
    }

    /// The native program handle.
    pub closed spec fn handle(&self) -> u32 {
        self.id
    }

    /// Starts building a program in `program`, a program object that the context
    /// has just made; the null handle is an allocation failure.
    pub fn begin(program: u32) -> (r: Result<VertexPending, GpuError>)
        ensures
            program == 0 <==> r is Err,
            r is Err ==> r->Err_0 is Allocation,
            r is Ok ==> r->Ok_0.program() == program,
    {
        if program == 0 {
            return Err(GpuError::Allocation);
        }
        Ok(VertexPending { program })
    }

    /// Records the call that makes this program the current one.
    pub fn bind(&self, cmds: &mut CommandList)
        ensures
            final(cmds)@ == old(cmds)@.push(GlOp::UseProgram { program: self.handle() }),
    {
        cmds.push(Command::UseProgram { program: self.id });
    }

    /// Gives up the program, recording the one call that frees it as a program.
    pub fn release(self, cmds: &mut CommandList)
        ensures
            self.handle() != 0,
            final(cmds)@ == old(cmds)@.push(GlOp::DeleteProgram { program: self.handle() }),
    {
        proof {
            use_type_invariant(&self);
        }
        cmds.push(Command::DeleteProgram { program: self.id });
    }

    pub fn handle_value(&self) -> (r: u32)
        ensures
            r == self.handle(),
            r != 0,
    {
        proof {
            use_type_invariant(self);
        }
        self.id
    }
}

} // verus!
