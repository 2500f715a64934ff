use simpler::buffer::{Buffer, BufferKind};
use simpler::commands::{Command, CommandList, ARRAY_BUFFER, COLOR_BUFFER_BIT, FLOAT, TRIANGLES};
use simpler::error::GpuError;
use simpler::frame::{colored_vertex_layout, draw_frame};
use simpler::shader::Shader;
use simpler::vertexdescriptor::{VertexDescriptor, VertexElement};

#[test]
fn layout_starts_empty() {
    let d = VertexDescriptor::create(24, 5).unwrap();
    assert_eq!(d.stride(), 24);
    assert_eq!(d.handle_value(), 5);
    assert!(d.elements().is_empty());
    assert!(matches!(VertexDescriptor::create(24, 0), Err(GpuError::Allocation)));
}

#[test]
fn setup_applies_every_element_in_order() {
    let mut d = VertexDescriptor::create(16, 2).unwrap();
    d.add_element(0, 3, FLOAT, 0);
    d.add_element(0, 2, FLOAT, 8);
    let mut cmds = CommandList::new();
    d.setup(&mut cmds);
    assert_eq!(
        cmds.into_commands(),
        vec![
            Command::EnableVertexAttribArray { index: 0 },
            Command::VertexAttribPointer {
                index: 0, components: 3, component_type: FLOAT, normalized: false, stride: 16, offset: 0,
            },
            Command::EnableVertexAttribArray { index: 0 },
            Command::VertexAttribPointer {
                index: 0, components: 2, component_type: FLOAT, normalized: false, stride: 16, offset: 8,
            },
        ]
    );
}

#[test]
fn bind_unbind_and_release_layout() {
    let d = VertexDescriptor::create(8, 4).unwrap();
    let mut cmds = CommandList::new();
    d.bind(&mut cmds);
    d.unbind(&mut cmds);
    d.release(&mut cmds);
    assert_eq!(
        cmds.into_commands(),
        vec![
            Command::BindVertexArray { array: 4 },
            Command::BindVertexArray { array: 0 },
            Command::DeleteVertexArray { array: 4 },
        ]
    );
}

#[test]
fn colored_layout_has_position_and_color() {
    let d = colored_vertex_layout(1).unwrap();
    assert_eq!(d.stride(), 24);
    assert_eq!(
        d.elements().clone(),
        vec![
            VertexElement { location: 0, size: 3, gl_type: FLOAT, offset: 0 },
            VertexElement { location: 1, size: 3, gl_type: FLOAT, offset: 12 },
        ]
    );
}

fn built_shader(program: u32) -> Shader {
    let mut cmds = CommandList::new();
    let v = Shader::begin(program).unwrap();
    let f = v.vertex_compiled(20, true, &[], &mut cmds).unwrap();
    let l = f.fragment_compiled(21, true, &[], &mut cmds).unwrap();
    l.linked(true, &[], &mut cmds).unwrap()
}

#[test]
fn triangle_frame_draws_once() {
    let positions: [[f32; 3]; 3] = [[-0.5, -0.5, 0.0], [0.5, -0.5, 0.0], [0.0, 0.5, 0.0]];
    let colors: [[f32; 3]; 3] = [[1.0, 0.0, 0.0], [0.0, 1.0, 0.0], [0.0, 0.0, 1.0]];
    let mut bytes: Vec<u8> = Vec::new();
    for i in 0..3 {
        for x in positions[i].iter().chain(colors[i].iter()) {
            bytes.extend_from_slice(&x.to_ne_bytes());
        }
    }
    let mut cmds = CommandList::new();
    let vb = Buffer::create(BufferKind::Vertex, bytes.len(), 8, &mut cmds).unwrap();
    vb.set_data(0, bytes.len(), &bytes, &mut cmds).unwrap();
    let layout = colored_vertex_layout(6).unwrap();
    let shader = built_shader(30);
    let mut frame = CommandList::new();
    draw_frame(&shader, &layout, &vb, &mut frame);
    let all = frame.into_commands();
    let draws: Vec<&Command> = all.iter().filter(|c| matches!(c, Command::DrawArrays { .. })).collect();
    assert_eq!(draws, vec![&Command::DrawArrays { mode: TRIANGLES, first: 0, count: 3 }]);
    assert_eq!(all[0], Command::Clear { mask: COLOR_BUFFER_BIT });
    assert_eq!(all[1], Command::UseProgram { program: 30 });
    assert_eq!(all[2], Command::BindVertexArray { array: 6 });
    assert_eq!(all[3], Command::BindBuffer { target: ARRAY_BUFFER, buffer: 8 });
    assert_eq!(all.len(), 9);
    assert_eq!(*all.last().unwrap(), Command::DrawArrays { mode: TRIANGLES, first: 0, count: 3 });
}
