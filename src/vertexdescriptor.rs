use vstd::prelude::*;
use crate::commands::{Command, CommandList, GlOp};
use crate::error::GpuError;

verus! {

/// Where one shader input attribute finds its values within a vertex.
#[derive(Clone, Copy, PartialEq, Eq, Structural, Debug)]
pub struct VertexElement {
    pub location: u32,
    pub size: u32,
    pub gl_type: u32,
    pub offset: usize,
}

/// The two calls that enable and configure one attribute.
pub open spec fn element_ops(e: VertexElement, stride: nat) -> Seq<GlOp> {
    seq![
        GlOp::EnableVertexAttribArray { index: e.location },
        GlOp::VertexAttribPointer {
            index: e.location,
            components: e.size,
            component_type: e.gl_type,
            normalized: false,
            stride,
            offset: e.offset as nat,
        },
    ]
}

/// The calls of `setup` for `elems`, in insertion order.
pub open spec fn setup_ops(elems: Seq<VertexElement>, stride: nat) -> Seq<GlOp>
    decreases elems.len(),
{
    if elems.len() == 0 {
        Seq::empty()
    } else {
        setup_ops(elems.drop_last(), stride) + element_ops(elems.last(), stride)
    }
}

/// A vertex layout: one native vertex array and the attributes that it describes.
pub struct VertexDescriptor {
    id: u32,
    stride: usize,
    elements: Vec<VertexElement>,
}

impl VertexDescriptor {
    #[verifier::type_invariant]
    spec fn inv(&self) -> bool {
        self.id != 0
    }

    /// The native handle.
    pub closed spec fn handle(&self) -> u32 {
        self.id
    }

    /// Bytes from one vertex to the next.
    pub closed spec fn stride_spec(&self) -> nat {
        self.stride as nat
    }

    /// The attributes, in the order they were added.
    pub closed spec fn elements_spec(&self) -> Seq<VertexElement> {
        self.elements@
    }

    /// Takes `id`, a vertex array that the context has just generated; the null
    /// handle is an allocation failure. Starts with no attributes.
    pub fn create(stride: usize, id: u32) -> (r: Result<VertexDescriptor, GpuError>)
        ensures
            id == 0 <==> r is Err,
            r is Err ==> r->Err_0 is Allocation,
            r is Ok ==> r->Ok_0.handle() == id && r->Ok_0.stride_spec() == stride
                && r->Ok_0.elements_spec() == Seq::<VertexElement>::empty(),
    {
        if id == 0 {
            return Err(GpuError::Allocation);
        }
        Ok(VertexDescriptor { id, stride, elements: Vec::new() })
    }

    /// Appends one attribute; no call is made until `setup`.
    pub fn add_element(&mut self, location: u32, size: u32, gl_type: u32, offset: usize)
        ensures
            final(self).handle() == old(self).handle(),
            final(self).stride_spec() == old(self).stride_spec(),
            final(self).elements_spec() == old(self).elements_spec().push(
                VertexElement { location, size, gl_type, offset },
            ),
    {
        proof {
            use_type_invariant(&*self);
        }
        let mut elements = self.elements.clone();
        elements.push(VertexElement { location, size, gl_type, offset });
        self.elements = elements;
    }

    /// Records the call that makes this vertex array current.
    pub fn bind(&self, cmds: &mut CommandList)
        ensures
            final(cmds)@ == old(cmds)@.push(GlOp::BindVertexArray { array: self.handle() }),
    {
        cmds.push(Command::BindVertexArray { array: self.id });
    }

    /// Records the call that leaves no vertex array current.
    pub fn unbind(&self, cmds: &mut CommandList)
        ensures
            final(cmds)@ == old(cmds)@.push(GlOp::BindVertexArray { array: 0 }),
    {
        cmds.push(Command::BindVertexArray { array: 0 });
    }

    /// Records, for each attribute in insertion order, the calls that enable it
    /// and set its format on the current vertex array and vertex buffer.
    pub fn setup(&self, cmds: &mut CommandList)
        ensures
            final(cmds)@ == old(cmds)@ + setup_ops(self.elements_spec(), self.stride_spec()),
    {
        let mut i: usize = 0;
        while i < self.elements.len()
            invariant
                i <= self.elements@.len(),
                cmds@ == old(cmds)@ + setup_ops(self.elements@.subrange(0, i as int), self.stride as nat),
            decreases self.elements@.len() - i,
        {
            let e = self.elements[i];
            cmds.push(Command::EnableVertexAttribArray { index: e.location });
            cmds.push(Command::VertexAttribPointer {
                index: e.location,
                components: e.size,
                component_type: e.gl_type,
                normalized: false,
                stride: self.stride,
                offset: e.offset,
            });
            let ghost pre = self.elements@.subrange(0, i as int);
            i = i + 1;
            let ghost cur = self.elements@.subrange(0, i as int);
            assert(cur.drop_last() =~= pre);
            assert(cmds@ =~= old(cmds)@ + setup_ops(cur, self.stride as nat));
        }
        assert(self.elements@.subrange(0, self.elements@.len() as int) =~= self.elements@);
    }

    /// Gives up the vertex array, recording the one call that frees its handle.
    pub fn release(self, cmds: &mut CommandList)
        ensures
            self.handle() != 0,
            final(cmds)@ == old(cmds)@.push(GlOp::DeleteVertexArray { array: self.handle() }),
    {
        proof {
            use_type_invariant(&self);
        }
        cmds.push(Command::DeleteVertexArray { array: self.id });
    }

    pub fn stride(&self) -> (r: usize)
        ensures
            r == self.stride_spec(),
    {
        self.stride
    }

    pub fn handle_value(&self) -> (r: u32)
        ensures
            r == self.handle(),
            r != 0,
    {
        proof {
            use_type_invariant(self);
        }
        self.id
    }

    /// The attributes, in the order they were added.
    pub fn elements(&self) -> (r: &Vec<VertexElement>)
        ensures
            r@ == self.elements_spec(),
    {
        &self.elements
    }
}

} // verus!
