use opengl_book_examples::shaders::{
    compilation_message, link_message, ProgramCall, Shader, ShaderCall, ShaderError,
    ShaderProgram, ShaderReply, ShaderType,
};

fn compile_until_status(stage: ShaderType, source: &[u8], handle: u32) -> Shader {
    let mut shader = Shader::load_shader(stage, source.to_vec()).unwrap();
    assert_eq!(shader.next_call(), Some(ShaderCall::Create { stage }));
    shader.advance(ShaderReply::Handle(handle));
    assert_eq!(shader.next_call(), Some(ShaderCall::Source { shader: handle }));
    shader.advance(ShaderReply::Done);
    assert_eq!(shader.next_call(), Some(ShaderCall::Compile { shader: handle }));
    shader.advance(ShaderReply::Done);
    assert_eq!(shader.next_call(), Some(ShaderCall::CompileStatus { shader: handle }));
    shader
}

#[test]
fn stage_names() {
    assert_eq!(ShaderType::Vertex.name(), "Vertex");
    assert_eq!(ShaderType::Fragment.name(), "Fragment");
}

#[test]
fn compilation_runs_its_calls_in_order() {
    let mut shader = compile_until_status(ShaderType::Vertex, b"void main() {}", 7);
    assert_eq!(shader.source().as_slice(), b"void main() {}");
    assert_eq!(shader.outcome(), None);
    shader.advance(ShaderReply::Status(1));
    assert_eq!(shader.next_call(), None);
    assert_eq!(shader.outcome(), Some(Ok(7)));
}

#[test]
fn any_status_but_zero_is_success() {
    let mut shader = compile_until_status(ShaderType::Fragment, b"x", 3);
    shader.advance(ShaderReply::Status(-1));
    assert_eq!(shader.outcome(), Some(Ok(3)));
}

#[test]
fn invalid_source_yields_an_error_with_stage_and_diagnostic() {
    let mut shader = compile_until_status(ShaderType::Vertex, b"this is not a shader", 5);
    shader.advance(ShaderReply::Status(0));
    assert_eq!(shader.next_call(), Some(ShaderCall::InfoLog { shader: 5 }));
    assert_eq!(shader.outcome(), None);
    shader.advance(ShaderReply::Log(b"0:1(1): error: syntax error\n".to_vec()));
    assert_eq!(shader.next_call(), None);
    let outcome = shader.outcome().unwrap();
    let error = outcome.unwrap_err();
    assert_eq!(
        error,
        ShaderError::CompilationFailed {
            stage: ShaderType::Vertex,
            log: b"0:1(1): error: syntax error\n".to_vec(),
        }
    );
    let message = error.message();
    assert_eq!(
        message,
        "ERROR::SHADER::Vertex::COMPILATION_FAILED\n\"0:1(1): error: syntax error\\n\""
    );
    assert!(message.contains("Vertex"));
    assert!(message.contains("syntax error"));
}

#[test]
fn fragment_failure_names_the_fragment_stage() {
    let mut shader = compile_until_status(ShaderType::Fragment, b"oops", 9);
    shader.advance(ShaderReply::Status(0));
    shader.advance(ShaderReply::Log(b"bad".to_vec()));
    let message = shader.outcome().unwrap().unwrap_err().message();
    assert_eq!(message, "ERROR::SHADER::Fragment::COMPILATION_FAILED\n\"bad\"");
}

#[test]
fn log_that_is_not_utf8_is_decoded_leniently() {
    let error = ShaderError::CompilationFailed { stage: ShaderType::Vertex, log: vec![b'a', 0xff, b'b'] };
    assert_eq!(error.message(), "ERROR::SHADER::Vertex::COMPILATION_FAILED\n\"a\u{fffd}b\"");
}

#[test]
fn zero_byte_in_source_is_rejected_with_its_position() {
    let result = Shader::load_shader(ShaderType::Vertex, vec![b'a', b'b', 0, b'c', 0]);
    let error = match result {
        Ok(_) => panic!("a source with a zero byte was accepted"),
        Err(error) => error,
    };
    assert_eq!(error, ShaderError::InvalidSource { position: 2 });
    assert_eq!(error.message(), "data provided contains a nul byte");
}

#[test]
fn empty_source_is_accepted() {
    let shader = Shader::load_shader(ShaderType::Fragment, Vec::new()).unwrap();
    assert_eq!(shader.next_call(), Some(ShaderCall::Create { stage: ShaderType::Fragment }));
}

#[test]
fn answers_of_the_wrong_kind_change_nothing() {
    let mut shader = Shader::load_shader(ShaderType::Vertex, b"x".to_vec()).unwrap();
    shader.advance(ShaderReply::Done);
    shader.advance(ShaderReply::Status(0));
    shader.advance(ShaderReply::Log(vec![1]));
    assert_eq!(shader.next_call(), Some(ShaderCall::Create { stage: ShaderType::Vertex }));
    shader.advance(ShaderReply::Handle(4));
    shader.advance(ShaderReply::Handle(8));
    assert_eq!(shader.next_call(), Some(ShaderCall::Source { shader: 4 }));
}

#[test]
fn finished_compilation_stays_finished() {
    let mut shader = compile_until_status(ShaderType::Vertex, b"x", 2);
    shader.advance(ShaderReply::Status(1));
    shader.advance(ShaderReply::Status(0));
    shader.advance(ShaderReply::Log(vec![1]));
    shader.advance(ShaderReply::Done);
    assert_eq!(shader.outcome(), Some(Ok(2)));
    let mut failed = compile_until_status(ShaderType::Vertex, b"x", 2);
    failed.advance(ShaderReply::Status(0));
    failed.advance(ShaderReply::Log(vec![b'e']));
    failed.advance(ShaderReply::Status(1));
    failed.advance(ShaderReply::Log(vec![b'f']));
    assert_eq!(
        failed.outcome(),
        Some(Err(ShaderError::CompilationFailed { stage: ShaderType::Vertex, log: vec![b'e'] }))
    );
}

#[test]
fn messages_frame_the_diagnostic() {
    assert_eq!(
        compilation_message(ShaderType::Fragment, "diag"),
        "ERROR::SHADER::Fragment::COMPILATION_FAILED\ndiag"
    );
    assert_eq!(compilation_message(ShaderType::Vertex, ""), "ERROR::SHADER::Vertex::COMPILATION_FAILED\n");
    assert_eq!(link_message("diag"), "ERROR::SHADER::Program::COMPILATION_FAILED\ndiag");
}

#[test]
fn program_from_two_compiled_stages_is_usable() {
    let program = ShaderProgram::new(11);
    let mut build = program.build(&[21, 22]);
    assert_eq!(build.next_call(), Some(ProgramCall::Attach { program: 11, shader: 21 }));
    build.advance(ShaderReply::Done);
    assert_eq!(build.next_call(), Some(ProgramCall::Attach { program: 11, shader: 22 }));
    build.advance(ShaderReply::Done);
    assert_eq!(build.next_call(), Some(ProgramCall::Link { program: 11 }));
    build.advance(ShaderReply::Done);
    assert_eq!(build.next_call(), Some(ProgramCall::LinkStatus { program: 11 }));
    assert_eq!(build.outcome(), None);
    build.advance(ShaderReply::Status(1));
    assert_eq!(build.next_call(), Some(ProgramCall::DeleteShader { shader: 21 }));
    build.advance(ShaderReply::Done);
    assert_eq!(build.next_call(), Some(ProgramCall::DeleteShader { shader: 22 }));
    assert_eq!(build.outcome(), None);
    build.advance(ShaderReply::Done);
    assert_eq!(build.next_call(), None);
    assert_eq!(build.outcome(), Some(Ok(())));
    assert_eq!(program.use_program(), ProgramCall::Use { program: 11 });
    let upload = program.set_int("material.diffuse", 0);
    assert_eq!(upload.program, 11);
    assert_eq!(upload.name, "material.diffuse");
    assert_eq!(upload.value, 0);
}

#[test]
fn failed_link_reads_the_log_and_deletes_nothing() {
    let program = ShaderProgram::new(3);
    let mut build = program.build(&[5]);
    build.advance(ShaderReply::Done);
    build.advance(ShaderReply::Done);
    build.advance(ShaderReply::Status(0));
    assert_eq!(build.next_call(), Some(ProgramCall::InfoLog { program: 3 }));
    build.advance(ShaderReply::Log(b"error: linking".to_vec()));
    assert_eq!(build.next_call(), None);
    let error = build.outcome().unwrap().unwrap_err();
    assert_eq!(error, ShaderError::LinkFailed { log: b"error: linking".to_vec() });
    assert_eq!(error.message(), "ERROR::SHADER::Program::COMPILATION_FAILED\n\"error: linking\"");
    build.advance(ShaderReply::Done);
    build.advance(ShaderReply::Status(1));
    assert_eq!(build.next_call(), None);
}

#[test]
fn program_without_shaders_links_at_once() {
    let program = ShaderProgram::new(1);
    let mut build = program.build(&[]);
    assert_eq!(build.next_call(), Some(ProgramCall::Link { program: 1 }));
    build.advance(ShaderReply::Done);
    build.advance(ShaderReply::Status(1));
    assert_eq!(build.next_call(), None);
    assert_eq!(build.outcome(), Some(Ok(())));
}

#[test]
fn build_ignores_answers_of_the_wrong_kind() {
    let program = ShaderProgram::new(1);
    let mut build = program.build(&[2]);
    build.advance(ShaderReply::Status(1));
    build.advance(ShaderReply::Handle(9));
    assert_eq!(build.next_call(), Some(ProgramCall::Attach { program: 1, shader: 2 }));
}

#[test]
fn uniform_calls_convert_their_values() {
    let program = ShaderProgram::new(6);
    assert_eq!(program.set_bool("flag", true).value, 1);
    assert_eq!(program.set_bool("flag", false).value, 0);
    assert_eq!(program.set_bool("flag", true).name, "flag");
    assert_eq!(program.set_int("n", 7).value, 7);
    assert_eq!(program.set_int("n", 0x7fff_ffff).value, i32::MAX);
    assert_eq!(program.set_int("n", 0x8000_0000).value, i32::MIN);
    assert_eq!(program.set_int("n", u32::MAX).value, -1);
    let query = program.get_int("missing");
    assert_eq!(query.program, 6);
    assert_eq!(query.name, "missing");
}
