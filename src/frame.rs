use vstd::prelude::*;
use crate::buffer::Buffer;
use crate::commands::{Command, CommandList, GlOp, COLOR_BUFFER_BIT, FLOAT, TRIANGLES};
use crate::error::GpuError;
use crate::shader::Shader;
use crate::vertexdescriptor::{setup_ops, VertexDescriptor, VertexElement};

verus! {

/// Bytes of one colored vertex: three position floats, then three color floats.
pub const COLORED_VERTEX_STRIDE: usize = 24;

/// Byte offset of the color within a colored vertex.
pub const COLOR_OFFSET: usize = 12;

/// The calls of one frame that draws three vertices as a triangle.
pub open spec fn frame_ops(
    program: u32,
    array: u32,
    target: u32,
    buffer: u32,
    elems: Seq<VertexElement>,
    stride: nat,
) -> Seq<GlOp> {
    seq![
        GlOp::Clear { mask: COLOR_BUFFER_BIT },
        GlOp::UseProgram { program },
        GlOp::BindVertexArray { array },
        GlOp::BindBuffer { target, buffer },
    ] + setup_ops(elems, stride) + seq![GlOp::DrawArrays { mode: TRIANGLES, first: 0, count: 3 }]
}

/// The layout of a colored vertex: position at attribute 0, color at attribute 1,
/// each three floats.
pub fn colored_vertex_layout(id: u32) -> (r: Result<VertexDescriptor, GpuError>)
    ensures
        id == 0 <==> r is Err,
        r is Err ==> r->Err_0 is Allocation,
        r is Ok ==> r->Ok_0.handle() == id && r->Ok_0.stride_spec() == COLORED_VERTEX_STRIDE
            && r->Ok_0.elements_spec() == seq![
                VertexElement { location: 0, size: 3, gl_type: FLOAT, offset: 0 },
                VertexElement { location: 1, size: 3, gl_type: FLOAT, offset: COLOR_OFFSET },
            ],
{
    let mut layout = VertexDescriptor::create(COLORED_VERTEX_STRIDE, id)?;
    layout.add_element(0, 3, FLOAT, 0);
    layout.add_element(1, 3, FLOAT, COLOR_OFFSET);
    assert(layout.elements_spec() =~= seq![
        VertexElement { location: 0, size: 3, gl_type: FLOAT, offset: 0 },
        VertexElement { location: 1, size: 3, gl_type: FLOAT, offset: COLOR_OFFSET },
    ]);
    Ok(layout)
}

/// Records one frame: clear the color buffer, make the program, the layout and
/// the vertex buffer current, set up the attributes, and draw one triangle.
pub fn draw_frame(shader: &Shader, layout: &VertexDescriptor, vertices: &Buffer, cmds: &mut CommandList)
    ensures
        final(cmds)@ == old(cmds)@ + frame_ops(
            shader.handle(),
            layout.handle(),
            vertices.bind_target(),
            vertices.handle(),
            layout.elements_spec(),
            layout.stride_spec(),
        ),
{
    cmds.push(Command::Clear { mask: COLOR_BUFFER_BIT });
    shader.bind(cmds);
    layout.bind(cmds);
    vertices.bind(cmds);
    layout.setup(cmds);
    cmds.push(Command::DrawArrays { mode: TRIANGLES, first: 0, count: 3 });
    assert(cmds@ =~= old(cmds)@ + frame_ops(
        shader.handle(),
        layout.handle(),
        vertices.bind_target(),
        vertices.handle(),
        layout.elements_spec(),
        layout.stride_spec(),
    ));
}

} // verus!
