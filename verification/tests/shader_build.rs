use render_harness::shader::{
    check_compile, check_link, resolve_build, BuildError, ProgramHandle, Stage, StageReport,
};

fn ok_report() -> StageReport {
    StageReport { ok: true, log: Vec::new() }
}

fn failed_report(log: &str) -> StageReport {
    StageReport { ok: false, log: log.as_bytes().to_vec() }
}

#[test]
fn build_succeeds_when_all_steps_succeed() {
    let r = resolve_build(4, ok_report(), ok_report(), ok_report());
    assert_eq!(r, Ok(ProgramHandle { raw: 4 }));
}

#[test]
fn successful_build_hands_back_the_program_id() {
    let handle = resolve_build(17, ok_report(), ok_report(), ok_report()).unwrap();
    assert_eq!(handle.raw, 17);
    assert_ne!(handle.raw, 0);
}

#[test]
fn vertex_syntax_error_names_the_vertex_stage() {
    let r = resolve_build(4, failed_report("0:1: syntax error"), ok_report(), ok_report());
    match r {
        Err(BuildError::ShaderCompileError { stage, log }) => {
            assert_eq!(stage, Stage::Vertex);
            assert_eq!(log, b"0:1: syntax error".to_vec());
            assert!(!log.is_empty());
        }
        other => panic!("expected a vertex compile error, got {:?}", other),
    }
}

#[test]
fn fragment_syntax_error_names_the_fragment_stage() {
    let r = resolve_build(4, ok_report(), failed_report("0:3: undeclared identifier"), ok_report());
    match r {
        Err(BuildError::ShaderCompileError { stage, log }) => {
            assert_eq!(stage, Stage::Fragment);
            assert_eq!(log, b"0:3: undeclared identifier".to_vec());
            assert!(!log.is_empty());
        }
        other => panic!("expected a fragment compile error, got {:?}", other),
    }
}

#[test]
fn vertex_failure_wins_over_fragment_failure() {
    let r = resolve_build(4, failed_report("vertex log"), failed_report("fragment log"), ok_report());
    assert_eq!(
        r,
        Err(BuildError::ShaderCompileError { stage: Stage::Vertex, log: b"vertex log".to_vec() })
    );
}

#[test]
fn interface_mismatch_fails_with_a_link_error() {
    let r = resolve_build(4, ok_report(), ok_report(), failed_report("varying not written"));
    match r {
        Err(BuildError::ProgramLinkError { log }) => {
            assert_eq!(log, b"varying not written".to_vec());
            assert!(!log.is_empty());
        }
        other => panic!("expected a link error, got {:?}", other),
    }
}

#[test]
fn check_compile_passes_a_successful_stage() {
    assert_eq!(check_compile(Stage::Vertex, ok_report()), Ok(()));
    assert_eq!(check_compile(Stage::Fragment, ok_report()), Ok(()));
}

#[test]
fn check_compile_carries_the_log_through() {
    let r = check_compile(Stage::Fragment, failed_report("bad"));
    assert_eq!(
        r,
        Err(BuildError::ShaderCompileError { stage: Stage::Fragment, log: b"bad".to_vec() })
    );
}

#[test]
fn check_link_passes_a_successful_link() {
    assert_eq!(check_link(ok_report()), Ok(()));
}

#[test]
fn check_link_carries_the_log_through() {
    let r = check_link(failed_report("link failed"));
    assert_eq!(r, Err(BuildError::ProgramLinkError { log: b"link failed".to_vec() }));
}

#[test]
fn diagnostic_headers_name_the_failing_step() {
    let vertex = BuildError::ShaderCompileError { stage: Stage::Vertex, log: Vec::new() };
    let fragment = BuildError::ShaderCompileError { stage: Stage::Fragment, log: Vec::new() };
    let link = BuildError::ProgramLinkError { log: Vec::new() };
    assert_eq!(vertex.diagnostic_header(), "ERROR::SHADER::VERTEX::COMPILATION_FAILED\n");
    assert_eq!(fragment.diagnostic_header(), "ERROR::SHADER::FRAGMENT::COMPILATION_FAILED\n");
    assert_eq!(link.diagnostic_header(), "ERROR::SHADER::PROGRAM::COMPILATION_FAILED\n");
}

#[test]
fn an_error_hands_out_the_log_it_carries() {
    let e = BuildError::ShaderCompileError { stage: Stage::Vertex, log: b"abc".to_vec() };
    assert_eq!(e.log(), &b"abc".to_vec());
    let e = BuildError::ProgramLinkError { log: b"xyz".to_vec() };
    assert_eq!(e.log(), &b"xyz".to_vec());
}
