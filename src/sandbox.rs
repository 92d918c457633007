//! The sandbox: a fresh interpreter scope in which a candidate script runs
//! against the input bound to `data`, and from which `result` is read back.
use vstd::prelude::*;
use rustpython::vm::builtins::PyCode;
use rustpython::vm::builtins::PyBaseException;
use rustpython::vm::scope::Scope;
use rustpython::vm::{Interpreter, PyObjectRef, PyRef, VirtualMachine};
use crate::execute::{classify, outcome_matches, ExecuteError, RunReport};

verus! {

#[verifier::external_type_specification]
#[verifier::external_body]
pub struct ExInterpreter(Interpreter);

#[verifier::external_type_specification]
#[verifier::external_body]
pub struct ExVirtualMachine(VirtualMachine);

#[verifier::external_type_specification]
#[verifier::external_body]
pub struct ExScope(Scope);

#[verifier::external_type_specification]
#[verifier::external_body]
pub struct ExPyObjectRef(PyObjectRef);

/// A compiled script. `PyRef` cannot be declared to Verus (its bound is a
/// trait of the interpreter), so the reference is held opaquely.
#[verifier::external_body]
pub struct CompiledScript {
    code: PyRef<PyCode>,
}

/// An exception raised in the sandbox, held opaquely for the same reason.
#[verifier::external_body]
pub struct RaisedException {
    exc: PyRef<PyBaseException>,
}

/// The name under which the input is bound in the script's scope.
pub const DATA_NAME: &'static str = "data";

/// The name the script binds its output to.
pub const RESULT_NAME: &'static str = "result";

/// The source path under which a candidate is compiled.
pub const SOURCE_PATH: &'static str = "<string>";

/// The message the compiler gives for `program` compiled under `path` without
/// optimisation, or `None` when it compiles: a function of the source text and path alone.
pub uninterp spec fn compile_error_of(program: Seq<char>, path: Seq<char>) -> Option<Seq<char>>;

/// Whether report `r` of a run of `program` agrees with the compiler: a
/// compile failure carrying the compiler's message exactly when `program`
/// does not compile.
pub open spec fn compile_reported(program: Seq<char>, r: RunReport) -> bool {
    match compile_error_of(program, SOURCE_PATH@) {
        Some(m) => r matches RunReport::CompileFailed(e) && e@ == m,
        None => !(r is CompileFailed),
    }
}

/// Whether outcome `r` of running `program` agrees with the compiler: a
/// compile error carrying the compiler's message exactly when `program` does
/// not compile.
pub open spec fn compile_outcome(program: Seq<char>, r: Result<String, ExecuteError>) -> bool {
    match compile_error_of(program, SOURCE_PATH@) {
        Some(m) => r matches Err(ExecuteError::CompileError(e)) && e@ == m,
        None => !(r matches Err(ExecuteError::CompileError(_))),
    }
}

/// The report for what was found under `result` after a clean run: `found`
/// is `None` when nothing is bound, `Some(Ok(t))` when the value is the text
/// `t`, and `Some(Err(n))` when it is a value of type `n` that is not text.
pub open spec fn lookup_reported(found: Option<Result<String, String>>, r: RunReport) -> bool {
    match found {
        None => r is Unbound,
        Some(Ok(t)) => r matches RunReport::Text(s) && s@ == t@,
        Some(Err(n)) => r matches RunReport::NotText(s) && s@ == n@,
    }
}

/// The report for what was found under `result` after a clean run.
pub fn report_of_lookup(found: Option<Result<String, String>>) -> (r: RunReport)
    ensures
        lookup_reported(found, r),
{
    match found {
        None => RunReport::Unbound,
        Some(Ok(t)) => RunReport::Text(t),
        Some(Err(n)) => RunReport::NotText(n),
    }
}

/// Relies on `InterpreterConfig::interpreter`: a new interpreter, sharing
/// nothing with any other.
///
/// The interpreter has the builtins but not Python's standard library: the
/// interpreter crate is used without its `stdlib` feature, whose sources (the
/// bundled Python library and the platform bindings it pulls in) exceed the
/// size the crate's vendored dependencies are held to. A script that imports a
/// library module, such as the `json` line that the serialisation flags
/// append, therefore fails with an import error.
#[verifier::external_body]
fn new_interpreter() -> Interpreter {
    rustpython::InterpreterConfig::new().interpreter()
}

/// Relies on `Interpreter::enter`: runs `run_report` with the interpreter's
/// virtual machine and hands back what it returns, so what `run_report`
/// ensures holds of the result.
#[verifier::external_body]
fn report_in(interp: &Interpreter, input: &str, program: &str) -> (r: RunReport)
    ensures
        compile_reported(program@, r),
{
    interp.enter(|vm| run_report(vm, input, program))
}

/// Relies on `VirtualMachine::compile_with_opts`: compiles `program` as a
/// module body without optimisation (so `assert` statements are kept), or
/// gives the compiler's message; with the options fixed, compilation reads
/// only the source text and path.
#[verifier::external_body]
fn compile_script(vm: &VirtualMachine, program: &str, path: &str) -> (r: Result<CompiledScript, String>)
    ensures
        r is Err <==> compile_error_of(program@, path@) is Some,
        r matches Err(m) ==> compile_error_of(program@, path@) == Some(m@),
{
    let opts = rustpython::vm::compiler::CompileOpts { optimize: 0 };
    vm.compile_with_opts(program, rustpython::vm::compiler::Mode::Exec, path.to_string(), opts)
        .map(|code| CompiledScript { code })
        .map_err(|e| e.to_string())
}

/// Relies on `VirtualMachine::new_scope_with_builtins`: a fresh scope that
/// holds the builtins and nothing else.
#[verifier::external_body]
fn fresh_scope(vm: &VirtualMachine) -> Scope {
    vm.new_scope_with_builtins()
}

/// Relies on `PyObject::set_item`: binds the text `value` to `name` in the
/// scope's locals.
#[verifier::external_body]
fn bind_text(vm: &VirtualMachine, scope: &Scope, name: &str, value: &str) -> Result<(), RaisedException> {
    scope.locals.set_item(name, PyObjectRef::from(vm.ctx.new_str(value)), vm).map_err(|exc| RaisedException { exc })
}

/// Relies on `VirtualMachine::run_code_obj`: runs the compiled script in the
/// scope, or gives the exception it raised.
#[verifier::external_body]
fn run_code(vm: &VirtualMachine, script: CompiledScript, scope: &Scope) -> Result<(), RaisedException> {
    vm.run_code_obj(script.code, scope.clone()).map(|_| ()).map_err(|exc| RaisedException { exc })
}

/// Relies on `VirtualMachine::write_exception`: the full rendering of an
/// exception, traceback included.
#[verifier::external_body]
fn render_exception(vm: &VirtualMachine, raised: &RaisedException) -> String {
    let mut text = String::new();
    let _ = vm.write_exception(&mut text, &raised.exc);
    text
}

/// Relies on `PyObject::get_item`: the value bound to `name` in the scope's
/// locals, if any.
#[verifier::external_body]
fn lookup(vm: &VirtualMachine, scope: &Scope, name: &str) -> Option<PyObjectRef> {
    scope.locals.get_item(name, vm).ok()
}

/// Relies on `PyObjectRef::try_into_value`: the text a value holds, when it is
/// a string.
#[verifier::external_body]
fn text_value(vm: &VirtualMachine, obj: &PyObjectRef) -> Option<String> {
    obj.clone().try_into_value::<String>(vm).ok()
}

/// Relies on `PyType::name`: the name of the value's type.
#[verifier::external_body]
fn class_name_of(obj: &PyObjectRef) -> String {
    obj.class().name().to_string()
}

/// Runs `program` in a fresh scope where `data` holds `input`, and reports
/// how the run went: the first stage that failed, or what `result` holds.
pub fn run_report(vm: &VirtualMachine, input: &str, program: &str) -> (r: RunReport)
    ensures
        compile_reported(program@, r),
{
    let code = match compile_script(vm, program, SOURCE_PATH) {
        Ok(code) => code,
        Err(message) => {
            return RunReport::CompileFailed(message);
        },
    };
    let scope = fresh_scope(vm);
    match bind_text(vm, &scope, DATA_NAME, input) {
        Ok(()) => {},
        Err(exc) => {
            return RunReport::Raised(render_exception(vm, &exc));
        },
    }
    match run_code(vm, code, &scope) {
        Ok(()) => {},
        Err(exc) => {
            return RunReport::Raised(render_exception(vm, &exc));
        },
    }
    let found = match lookup(vm, &scope, RESULT_NAME) {
        None => None,
        Some(obj) => match text_value(vm, &obj) {
            Some(text) => Some(Ok(text)),
            None => Some(Err(class_name_of(&obj))),
        },
    };
    report_of_lookup(found)
}

/// Runs the candidate `program` against `input` in an interpreter of its own
/// and classifies the outcome: a result normalised as `normalize_result`
/// does, or the failure of the stage that went wrong. It is a compile error,
/// with the compiler's message, exactly when `program` does not compile.
pub fn execute(input: &str, program: &str) -> (r: Result<String, ExecuteError>)
    ensures
        compile_outcome(program@, r),
        exists|report: RunReport| outcome_matches(report, r),
{
    let interp = new_interpreter();
    let report = report_in(&interp, input, program);
    let ghost rep = report;
    let r = classify(report);
    assert(outcome_matches(rep, r));
    assert(compile_outcome(program@, r));
    r
}

} // verus!
