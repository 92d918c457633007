use gptxt::execute::{classify, ExecuteError, RunReport};
use gptxt::sandbox::{execute, report_of_lookup};
use gptxt::synth::finish_candidate;

#[test]
fn uppercase_scenario() {
    let r = execute("hello", "result = data.upper()");
    assert_eq!(r.unwrap(), "HELLO");
}

#[test]
fn missing_result_is_reported() {
    let r = execute("hello", "x = data");
    assert!(matches!(r, Err(ExecuteError::ResultNotFound)));
}

#[test]
fn raised_exception_is_rendered_in_full() {
    let r = execute("hello", "x = 1\nraise ValueError('bad input: ' + data)");
    match r {
        Err(ExecuteError::ExecutionError(text)) => {
            assert!(text.contains("Traceback"), "{}", text);
            assert!(text.contains("ValueError"), "{}", text);
            assert!(text.contains("bad input: hello"), "{}", text);
        }
        other => panic!("unexpected outcome {:?}", other),
    }
}

#[test]
fn compile_failure_is_reported() {
    let r = execute("hello", "result = (");
    assert!(matches!(r, Err(ExecuteError::CompileError(_))));
}

#[test]
fn non_text_result_names_its_type() {
    let r = execute("hello", "result = len(data)");
    match r {
        Err(ExecuteError::ResultConversionError(t)) => assert_eq!(t, "int"),
        other => panic!("unexpected outcome {:?}", other),
    }
}

#[test]
fn result_escapes_are_normalised() {
    let r = execute("a,b", "result = data.replace(',', '\\\\n')");
    assert_eq!(r.unwrap(), "a\nb");
}

#[test]
fn runs_do_not_share_scope() {
    assert_eq!(execute("x", "leftover = 'kept'\nresult = data").unwrap(), "x");
    let r = execute("y", "result = leftover");
    assert!(matches!(r, Err(ExecuteError::ExecutionError(_))));
}

#[test]
fn classification_of_reports() {
    assert!(matches!(classify(RunReport::Unbound), Err(ExecuteError::ResultNotFound)));
    assert_eq!(classify(RunReport::Text(String::from("p\\nq"))).unwrap(), "p\nq");
    match classify(RunReport::NotText(String::from("list"))) {
        Err(ExecuteError::ResultConversionError(t)) => assert_eq!(t, "list"),
        other => panic!("unexpected outcome {:?}", other),
    }
    match classify(RunReport::CompileFailed(String::from("syntax"))) {
        Err(ExecuteError::CompileError(m)) => assert_eq!(m, "syntax"),
        other => panic!("unexpected outcome {:?}", other),
    }
}

#[test]
fn failure_messages() {
    assert_eq!(
        ExecuteError::CompileError(String::from("oops")).message(),
        "Error compiling Python program: oops"
    );
    assert_eq!(
        ExecuteError::ExecutionError(String::from("trace")).message(),
        "Error executing Python program: trace"
    );
    assert_eq!(ExecuteError::ResultNotFound.message(), "Error: 'result' variable not found");
    assert_eq!(
        ExecuteError::ResultConversionError(String::from("int")).message(),
        "Error: Failed to convert 'result' PyObject to a Rust String; type is: int"
    );
}

#[test]
fn lookup_outcomes_become_reports() {
    assert!(matches!(report_of_lookup(None), RunReport::Unbound));
    match report_of_lookup(Some(Ok(String::from("t")))) {
        RunReport::Text(t) => assert_eq!(t, "t"),
        other => panic!("unexpected report {:?}", other),
    }
    match report_of_lookup(Some(Err(String::from("dict")))) {
        RunReport::NotText(n) => assert_eq!(n, "dict"),
        other => panic!("unexpected report {:?}", other),
    }
}

/// Known limitation: the interpreter is built without Python's standard
/// library (see `new_interpreter` in the sandbox module), so the serialisation
/// line that the JSON flags append cannot import `json` and the run fails.
#[test]
fn json_serialisation_line_needs_the_standard_library() {
    let program = finish_candidate("result = data", true, true);
    match execute("x", &program) {
        Err(ExecuteError::ExecutionError(text)) => assert!(text.contains("json"), "{}", text),
        other => panic!("unexpected outcome {:?}", other),
    }
}
