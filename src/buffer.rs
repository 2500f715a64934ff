use vstd::prelude::*;
use crate::commands::{
    Command, CommandList, GlOp, ARRAY_BUFFER, DYNAMIC_DRAW, ELEMENT_ARRAY_BUFFER, UNIFORM_BUFFER,
};
use crate::error::GpuError;

verus! {

/// What a buffer holds, which fixes where it is bound.
#[derive(Clone, Copy, PartialEq, Eq, Structural, Debug)]
pub enum BufferKind {
    Vertex,
    Index,
    Constants,
}

impl BufferKind {
    /// The bind target of each kind.
    pub open spec fn target_spec(self) -> u32 {
        match self {
            BufferKind::Vertex => ARRAY_BUFFER,
            BufferKind::Index => ELEMENT_ARRAY_BUFFER,
            BufferKind::Constants => UNIFORM_BUFFER,
        }
    }

    pub fn target(&self) -> (r: u32)
        ensures
            r == self.target_spec(),
    {
        match self {
            BufferKind::Vertex => ARRAY_BUFFER,
            BufferKind::Index => ELEMENT_ARRAY_BUFFER,
            BufferKind::Constants => UNIFORM_BUFFER,
        }
    }
}

/// Calls that reserve `size` bytes for buffer `id` and leave `target` unbound.
pub open spec fn alloc_ops(target: u32, id: u32, size: nat) -> Seq<GlOp> {
    seq![
        GlOp::BindBuffer { target, buffer: id },
        GlOp::BufferData { target, size, usage: DYNAMIC_DRAW },
        GlOp::BindBuffer { target, buffer: 0 },
    ]
}

/// Calls that write `data` at `offset` into buffer `id` and leave `target` unbound.
pub open spec fn upload_ops(target: u32, id: u32, offset: nat, data: Seq<u8>) -> Seq<GlOp> {
    seq![
        GlOp::BindBuffer { target, buffer: id },
        GlOp::BufferSubData { target, offset, data },
        GlOp::BindBuffer { target, buffer: 0 },
    ]
}

/// A block of GPU memory; owns one native buffer handle.
pub struct Buffer {
    kind: BufferKind,
    size: usize,
    id: u32,
    target: u32,
}

impl Buffer {
    pub closed spec fn kind_spec(&self) -> BufferKind {
        self.kind
    }

    /// Size of the storage in bytes.
    pub closed spec fn byte_size(&self) -> nat {
        self.size as nat
    }

    /// The native handle.
    pub closed spec fn handle(&self) -> u32 {
        self.id
    }

    /// The bind target, fixed when the buffer was made.
    pub closed spec fn bind_target(&self) -> u32 {
        self.target
    }

    /// A live buffer has a real handle, and the target that its kind gives.
    #[verifier::type_invariant]
    spec fn inv(&self) -> bool {
        self.id != 0 && self.target == self.kind.target_spec()
    }

    /// Takes `id`, a handle that the context has just generated, and records the
    /// calls that give it `size` bytes of storage. The null handle is an
    /// allocation failure.
    pub fn create(kind: BufferKind, size: usize, id: u32, cmds: &mut CommandList) -> (r: Result<Buffer, GpuError>)
        ensures
            id == 0 ==> r is Err && r->Err_0 is Allocation && final(cmds)@ == old(cmds)@,
            id != 0 ==> r is Ok && {
                let b = r->Ok_0;
                &&& b.bind_target() == kind.target_spec()
                &&& b.kind_spec() == kind
                &&& b.byte_size() == size
                &&& b.handle() == id
                &&& final(cmds)@ == old(cmds)@ + alloc_ops(kind.target_spec(), id, size as nat)
            },
    {
        if id == 0 {
            return Err(GpuError::Allocation);
        }
        let target = kind.target();
        cmds.push(Command::BindBuffer { target, buffer: id });
        cmds.push(Command::BufferData { target, size, usage: DYNAMIC_DRAW });
        cmds.push(Command::BindBuffer { target, buffer: 0 });
        assert(cmds@ =~= old(cmds)@ + alloc_ops(target, id, size as nat));
        Ok(Buffer { kind, size, id, target })
    }

    /// Records the calls that write the first `size` bytes of `data` at `offset`.
    /// The range must lie inside the buffer and `data` must hold `size` bytes.
    pub fn set_data(&self, offset: usize, size: usize, data: &[u8], cmds: &mut CommandList) -> (r: Result<(), GpuError>)
        ensures
            offset + size > self.byte_size() ==> r is Err && r->Err_0 == (GpuError::OutOfBounds {
                offset,
                size,
                capacity: self.byte_size() as usize,
            }),
            offset + size <= self.byte_size() && size > data@.len() ==> r is Err && r->Err_0 == (GpuError::ShortData {
                size,
                available: data@.len() as usize,
            }),
            r is Err ==> final(cmds)@ == old(cmds)@,
            offset + size <= self.byte_size() && size <= data@.len() ==> r is Ok && final(cmds)@ == old(cmds)@ + upload_ops(
                self.bind_target(),
                self.handle(),
                offset as nat,
                data@.subrange(0, size as int),
            ),
    {
        if size > self.size || offset > self.size - size {
            return Err(GpuError::OutOfBounds { offset, size, capacity: self.size });
        }
        if size > data.len() {
            return Err(GpuError::ShortData { size, available: data.len() });
        }
        let mut bytes: Vec<u8> = Vec::with_capacity(size);
        let mut i: usize = 0;
        while i < size
            invariant
                i <= size,
                size <= data@.len(),
                bytes@ == data@.subrange(0, i as int),
            decreases size - i,
        {
            bytes.push(data[i]);
            i = i + 1;
            assert(bytes@ =~= data@.subrange(0, i as int));
        }
        cmds.push(Command::BindBuffer { target: self.target, buffer: self.id });
        cmds.push(Command::BufferSubData { target: self.target, offset, data: bytes });
        cmds.push(Command::BindBuffer { target: self.target, buffer: 0 });
        assert(cmds@ =~= old(cmds)@ + upload_ops(
            self.target,
            self.id,
            offset as nat,
            data@.subrange(0, size as int),
        ));
        Ok(())
    }

    /// Records the call that binds the buffer to its target; the binding stays.
    pub fn bind(&self, cmds: &mut CommandList)
        ensures
            final(cmds)@ == old(cmds)@.push(GlOp::BindBuffer { target: self.bind_target(), buffer: self.handle() }),
    {
        cmds.push(Command::BindBuffer { target: self.target, buffer: self.id });
    }

    /// Gives up the buffer, recording the one call that frees its handle.
    pub fn release(self, cmds: &mut CommandList)
        ensures
            self.handle() != 0,
            final(cmds)@ == old(cmds)@.push(GlOp::DeleteBuffer { buffer: self.handle() }),
    {
        proof {
            use_type_invariant(&self);
        }
        cmds.push(Command::DeleteBuffer { buffer: self.id });
    }

    pub fn kind(&self) -> (r: BufferKind)
        ensures
            r == self.kind_spec(),
    {
        self.kind
    }

    pub fn size(&self) -> (r: usize)
        ensures
            r == self.byte_size(),
    {
        self.size
    }

    pub fn handle_value(&self) -> (r: u32)
        ensures
            r == self.handle(),
            r != 0,
    {
        proof {
            use_type_invariant(self);
        }
        self.id
    }
}

} // verus!
