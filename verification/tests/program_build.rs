use rabbit_hole::shader_program::{
    program, GlCall, GlReply, Phase, ProgramBuild, ShaderStage, INFO_LOG_CAPACITY,
};

fn log_buffer(text: &[u8]) -> Vec<u8> {
    let mut log = vec![0u8; INFO_LOG_CAPACITY];
    log[..text.len()].copy_from_slice(text);
    log
}

/// Plays the GL: names shaders 7 and 8 and the program 3, and reports the
/// given info logs.
fn converse(vs: &str, fs: &str, vlog: &[u8], flog: &[u8]) -> Vec<GlCall> {
    let (mut build, first) = ProgramBuild::new(vs, fs);
    let mut calls = vec![];
    let mut call = first;
    loop {
        let reply = match &call {
            GlCall::CreateShader { stage: ShaderStage::Vertex } => GlReply::Name { id: 7 },
            GlCall::CreateShader { stage: ShaderStage::Fragment } => GlReply::Name { id: 8 },
            GlCall::CreateProgram => GlReply::Name { id: 3 },
            GlCall::GetShaderInfoLog { shader, .. } => {
                let text = if *shader == 7 { vlog } else { flog };
                GlReply::InfoLog { len: text.len() as i32, log: log_buffer(text) }
            }
            GlCall::Finished { .. } => {
                calls.push(call);
                break;
            }
            _ => GlReply::Done,
        };
        assert!(build.accepts(&reply));
        calls.push(call);
        call = program(&mut build, reply);
    }
    assert_eq!(build.phase(), Phase::Finished);
    calls
}

#[test]
fn build_with_clean_compiles() {
    let calls = converse("void main() {}", "out vec4 c;", b"", b"");
    assert_eq!(
        calls,
        vec![
            GlCall::CreateShader { stage: ShaderStage::Vertex },
            GlCall::ShaderSource { shader: 7, source: "void main() {}".to_string() },
            GlCall::CompileShader { shader: 7 },
            GlCall::GetShaderInfoLog { shader: 7, capacity: 1024 },
            GlCall::CreateShader { stage: ShaderStage::Fragment },
            GlCall::ShaderSource { shader: 8, source: "out vec4 c;".to_string() },
            GlCall::CompileShader { shader: 8 },
            GlCall::GetShaderInfoLog { shader: 8, capacity: 1024 },
            GlCall::CreateProgram,
            GlCall::AttachShader { program: 3, shader: 7 },
            GlCall::AttachShader { program: 3, shader: 8 },
            GlCall::LinkProgram { program: 3 },
            GlCall::DeleteShader { shader: 7 },
            GlCall::DeleteShader { shader: 8 },
            GlCall::Finished { program: 3 },
        ]
    );
}

#[test]
fn build_prints_nonempty_logs() {
    let calls = converse("a", "b", b"0:1: warning", b"");
    assert_eq!(calls[4], GlCall::PrintInfoLog { text: b"0:1: warning".to_vec() });
    assert_eq!(calls[5], GlCall::CreateShader { stage: ShaderStage::Fragment });
    assert_eq!(calls.len(), 16);

    let calls = converse("a", "b", b"", b"0:3: error");
    assert_eq!(calls[7], GlCall::GetShaderInfoLog { shader: 8, capacity: 1024 });
    assert_eq!(calls[8], GlCall::PrintInfoLog { text: b"0:3: error".to_vec() });
    assert_eq!(calls[9], GlCall::CreateProgram);
    assert_eq!(calls.last(), Some(&GlCall::Finished { program: 3 }));
}

#[test]
fn build_prints_log_cut_to_reported_length() {
    let (mut build, _) = ProgramBuild::new("v", "f");
    program(&mut build, GlReply::Name { id: 1 });
    program(&mut build, GlReply::Done);
    program(&mut build, GlReply::Done);
    let call = program(&mut build, GlReply::InfoLog { len: 3, log: log_buffer(b"abcdef") });
    assert_eq!(call, GlCall::PrintInfoLog { text: b"abc".to_vec() });
    assert_eq!(build.phase(), Phase::PrintingLog(ShaderStage::Vertex));
}

#[test]
fn build_refuses_replies_that_do_not_fit() {
    let (mut build, _) = ProgramBuild::new("v", "f");
    assert!(!build.accepts(&GlReply::Done));
    assert!(build.accepts(&GlReply::Name { id: 1 }));
    program(&mut build, GlReply::Name { id: 1 });
    assert!(!build.accepts(&GlReply::Name { id: 2 }));
    program(&mut build, GlReply::Done);
    program(&mut build, GlReply::Done);
    assert_eq!(build.phase(), Phase::ReadingLog(ShaderStage::Vertex));
    assert!(!build.accepts(&GlReply::InfoLog { len: 1025, log: log_buffer(b"") }));
    assert!(!build.accepts(&GlReply::InfoLog { len: -1, log: log_buffer(b"") }));
    assert!(build.accepts(&GlReply::InfoLog { len: 1024, log: log_buffer(b"") }));
    assert!(!build.accepts(&GlReply::Done));
}

#[test]
fn finished_build_takes_no_reply() {
    let (mut build, _) = ProgramBuild::new("v", "f");
    for reply in [
        GlReply::Name { id: 1 },
        GlReply::Done,
        GlReply::Done,
        GlReply::InfoLog { len: 0, log: log_buffer(b"") },
        GlReply::Name { id: 2 },
        GlReply::Done,
        GlReply::Done,
        GlReply::InfoLog { len: 0, log: log_buffer(b"") },
        GlReply::Name { id: 9 },
        GlReply::Done,
        GlReply::Done,
        GlReply::Done,
        GlReply::Done,
    ] {
        program(&mut build, reply);
    }
    assert_eq!(build.phase(), Phase::DeletingFragment);
    assert_eq!(program(&mut build, GlReply::Done), GlCall::Finished { program: 9 });
    assert!(!build.accepts(&GlReply::Done));
    assert!(!build.accepts(&GlReply::Name { id: 1 }));
}

#[test]
fn build_refuses_logs_that_are_not_utf8_or_not_the_asked_buffer() {
    let (mut build, _) = ProgramBuild::new("v", "f");
    program(&mut build, GlReply::Name { id: 1 });
    program(&mut build, GlReply::Done);
    program(&mut build, GlReply::Done);
    let bad = log_buffer(&[b'o', b'k', 0xff, 0xfe]);
    assert!(!build.accepts(&GlReply::InfoLog { len: 4, log: bad.clone() }));
    // the valid prefix before the bad bytes is fine
    assert!(build.accepts(&GlReply::InfoLog { len: 2, log: bad }));
    // a cut multi-byte character is not UTF-8
    let cut = log_buffer("é".as_bytes());
    assert!(!build.accepts(&GlReply::InfoLog { len: 1, log: cut.clone() }));
    assert!(build.accepts(&GlReply::InfoLog { len: 2, log: cut }));
    // a buffer of another size than the one asked for
    assert!(!build.accepts(&GlReply::InfoLog { len: 0, log: vec![0u8; 16] }));
    assert!(!build.accepts(&GlReply::InfoLog { len: 0, log: vec![] }));
}
