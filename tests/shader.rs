use simpler::commands::{Command, CommandList, FRAGMENT_SHADER, VERTEX_SHADER};
use simpler::error::{GpuError, ShaderStage};
use simpler::shader::{create_whitespace_cstring_with_len, log_text, Shader};

#[test]
fn whitespace_buffer_has_len_spaces() {
    assert_eq!(create_whitespace_cstring_with_len(4), b"    ".to_vec());
    assert!(create_whitespace_cstring_with_len(0).is_empty());
}

#[test]
fn log_text_stops_at_nul() {
    assert_eq!(log_text(b"0:1: syntax error\0   "), "0:1: syntax error");
    assert_eq!(log_text(b"no terminator"), "no terminator");
    assert_eq!(log_text(b"\0abc"), "");
    assert_eq!(log_text(b""), "");
}

#[test]
fn log_text_replaces_invalid_utf8() {
    assert_eq!(log_text(&[0x61, 0xFF, 0x62, 0x00]), "a\u{FFFD}b");
}

#[test]
fn stage_kinds() {
    assert_eq!(ShaderStage::Vertex.kind(), VERTEX_SHADER);
    assert_eq!(ShaderStage::Fragment.kind(), FRAGMENT_SHADER);
}

#[test]
fn invalid_vertex_source_is_compile_error() {
    let mut cmds = CommandList::new();
    let v = Shader::begin(1).unwrap();
    let r = v.vertex_compiled(2, false, b"ERROR: 0:3: 'vec9' : syntax error\0", &mut cmds);
    match r {
        Err(GpuError::Compile { stage, log }) => {
            assert_eq!(stage, ShaderStage::Vertex);
            assert!(!log.is_empty());
            assert_eq!(log, "ERROR: 0:3: 'vec9' : syntax error");
        }
        _ => panic!("expected a compile error"),
    }
    assert_eq!(
        cmds.into_commands(),
        vec![Command::DeleteShader { shader: 2 }, Command::DeleteProgram { program: 1 }]
    );
}

#[test]
fn invalid_fragment_source_is_compile_error() {
    let mut cmds = CommandList::new();
    let f = Shader::begin(1).unwrap().vertex_compiled(2, true, &[], &mut cmds).unwrap();
    let r = f.fragment_compiled(3, false, b"bad\0", &mut cmds);
    assert_eq!(r.err(), Some(GpuError::Compile { stage: ShaderStage::Fragment, log: "bad".to_string() }));
    assert_eq!(
        cmds.into_commands(),
        vec![
            Command::DeleteShader { shader: 3 },
            Command::DeleteShader { shader: 2 },
            Command::DeleteProgram { program: 1 },
        ]
    );
}

#[test]
fn valid_sources_build_a_program() {
    let mut cmds = CommandList::new();
    let v = Shader::begin(10).unwrap();
    assert_eq!(v.program_value(), 10);
    let f = v.vertex_compiled(11, true, &[], &mut cmds).unwrap();
    assert_eq!(cmds.len(), 0);
    let l = f.fragment_compiled(12, true, &[], &mut cmds).unwrap();
    let s = l.linked(true, &[], &mut cmds).unwrap();
    assert_ne!(s.handle_value(), 0);
    assert_eq!(s.handle_value(), 10);
    assert_eq!(
        cmds.into_commands(),
        vec![
            Command::AttachShader { program: 10, shader: 11 },
            Command::AttachShader { program: 10, shader: 12 },
            Command::LinkProgram { program: 10 },
            Command::DeleteShader { shader: 11 },
            Command::DeleteShader { shader: 12 },
        ]
    );
}

#[test]
fn link_failure_is_link_error() {
    let mut cmds = CommandList::new();
    let f = Shader::begin(1).unwrap().vertex_compiled(2, true, &[], &mut cmds).unwrap();
    let l = f.fragment_compiled(3, true, &[], &mut cmds).unwrap();
    let r = l.linked(false, b"link failed\0", &mut cmds);
    assert_eq!(r.err(), Some(GpuError::Link { log: "link failed".to_string() }));
    assert_eq!(*cmds.into_commands().last().unwrap(), Command::DeleteProgram { program: 1 });
}

#[test]
fn null_handles_are_allocation_errors() {
    assert!(matches!(Shader::begin(0), Err(GpuError::Allocation)));
    let mut cmds = CommandList::new();
    let r = Shader::begin(1).unwrap().vertex_compiled(0, true, &[], &mut cmds);
    assert!(matches!(r, Err(GpuError::Allocation)));
    let f = Shader::begin(1).unwrap().vertex_compiled(2, true, &[], &mut cmds).unwrap();
    assert!(matches!(f.fragment_compiled(0, true, &[], &mut cmds), Err(GpuError::Allocation)));
}

#[test]
fn shader_bind_and_release() {
    let mut cmds = CommandList::new();
    let f = Shader::begin(4).unwrap().vertex_compiled(5, true, &[], &mut cmds).unwrap();
    let s = f.fragment_compiled(6, true, &[], &mut cmds).unwrap().linked(true, &[], &mut cmds).unwrap();
    let mut after = CommandList::new();
    s.bind(&mut after);
    s.release(&mut after);
    assert_eq!(
        after.into_commands(),
        vec![Command::UseProgram { program: 4 }, Command::DeleteProgram { program: 4 }]
    );
}
