use vstd::prelude::*;
use vstd::string::*;

use crate::decimal::{format_option_code, option_code_text};
use crate::paths::{cache_path, cache_path_spec, function_name, last_segment};
use crate::store::{can_record, record_spec, MetricsStore};

verus! {

/// What became of an attempt to run a module in a separate `wasmtime` process.
pub enum RunOutcome {
    /// Starting the process, or reading its output, failed with this message.
    Failed(String),
    /// The process ran to its end.
    Exited { success: bool, stdout: String, stderr: String, code: Option<i32> },
}

/// The result of running the fetched module `addr`: its standard output when
/// the process succeeded, otherwise the message that explains the failure.
/// `None` stands for a module file that was not there.
pub open spec fn cached_run_spec(addr: Seq<char>, outcome: Option<RunOutcome>) -> Result<Seq<char>, Seq<char>> {
    match outcome {
        None => Err("WASM file not found at path: "@ + cache_path_spec(addr)),
        Some(RunOutcome::Failed(message)) => Err(message@),
        Some(RunOutcome::Exited { success, stdout, stderr, code }) => {
            if success {
                Ok(stdout@)
            } else if stderr@.len() > 0 {
                Err("WASM execution error for '"@ + addr + "': "@ + stderr@)
            } else {
                Err("WASM execution '"@ + addr + "' failed with code: "@ + option_code_text(code))
            }
        },
    }
}

/// The result of running a bundled sample function: its standard output on
/// success, otherwise what it wrote to standard error or its exit code.
pub open spec fn saved_run_spec(outcome: RunOutcome) -> Result<Seq<char>, Seq<char>> {
    match outcome {
        RunOutcome::Failed(message) => Err(message@),
        RunOutcome::Exited { success, stdout, stderr, code } => {
            if success {
                Ok(stdout@)
            } else if stderr@.len() > 0 {
                Err(stderr@)
            } else {
                Err("WASM execution failed with code: "@ + option_code_text(code))
            }
        },
    }
}

/// The text that a run answers with: the output, or the failure prefixed
/// with `Error running WASM function: `.
pub open spec fn run_output_spec(result: Result<Seq<char>, Seq<char>>) -> Seq<char> {
    match result {
        Ok(output) => output,
        Err(message) => "Error running WASM function: "@ + message,
    }
}

/// A run whose process exits successfully answers exactly its standard
/// output, whatever it wrote to standard error; a run that fails, or whose
/// module is missing, answers an error. Two successful runs with the same
/// output give the same result, whatever their standard error and code.
pub proof fn law_success_is_the_output(
    addr: Seq<char>,
    stdout: String,
    stderr: String,
    code: Option<i32>,
    other_stderr: String,
    other_code: Option<i32>,
)
    ensures
        cached_run_spec(addr, Some(RunOutcome::Exited { success: true, stdout, stderr, code })) == Ok::<
            Seq<char>,
            Seq<char>,
        >(stdout@),
        cached_run_spec(addr, Some(RunOutcome::Exited { success: true, stdout, stderr, code }))
            == cached_run_spec(
            addr,
            Some(RunOutcome::Exited { success: true, stdout, stderr: other_stderr, code: other_code }),
        ),
        cached_run_spec(addr, Some(RunOutcome::Exited { success: false, stdout, stderr, code })) is Err,
        cached_run_spec(addr, None) is Err,
        saved_run_spec(RunOutcome::Exited { success: true, stdout, stderr, code }) == Ok::<
            Seq<char>,
            Seq<char>,
        >(stdout@),
        saved_run_spec(RunOutcome::Exited { success: false, stdout, stderr, code }) is Err,
        stderr@.len() > 0 ==> saved_run_spec(
            RunOutcome::Exited { success: false, stdout, stderr, code },
        ) == Err::<Seq<char>, Seq<char>>(stderr@),
{
}

/// The answer of a successful run is its output unchanged, every character
/// of it; the answer of a failed run is the failure's message, whole, after
/// the fixed prefix.
pub proof fn law_run_output_keeps_text(output: Seq<char>, message: Seq<char>)
    ensures
        run_output_spec(Ok(output)) == output,
        run_output_spec(Ok(output)).len() == output.len(),
        run_output_spec(Err(message)).len() == "Error running WASM function: "@.len() + message.len(),
        run_output_spec(Err(message)).subrange(
            "Error running WASM function: "@.len() as int,
            run_output_spec(Err(message)).len() as int,
        ) == message,
{
    let prefix = "Error running WASM function: "@;
    assert((prefix + message).subrange(prefix.len() as int, (prefix + message).len() as int) =~= message);
}

/// The arguments `wasmtime` gets: the module's path, then the parameters in order.
pub fn wasmtime_arguments(path: String, params: &Vec<String>) -> (args: Vec<String>)
    ensures
        args@.len() == params@.len() + 1,
        args@[0]@ == path@,
        forall|i: int| 0 <= i < params@.len() ==> #[trigger] args@[i + 1]@ == params@[i]@,
{
    let mut args: Vec<String> = Vec::new();
    args.push(path);
    let mut i: usize = 0;
    while i < params.len()
        invariant
            i <= params@.len(),
            args@.len() == i + 1,
            args@[0]@ == path@,
            forall|j: int| 0 <= j < i ==> #[trigger] args@[j + 1]@ == params@[j]@,
        decreases params@.len() - i,
    {
        args.push(params[i].clone());
        i = i + 1;
    }
    args
}

/// Decides the result of running the fetched module `addr` from what the
/// process did (`None`: the module file was not there).
pub fn cached_run_result(addr: &str, outcome: Option<RunOutcome>) -> (r: Result<String, String>)
    ensures
        outcome matches Some(RunOutcome::Exited { success: true, stdout, .. }) ==> (r matches Ok(s)
            && s@ == stdout@),
        outcome matches Some(RunOutcome::Exited { success: false, .. }) ==> r is Err,
        outcome is None ==> r is Err,
        outcome matches Some(RunOutcome::Failed(message)) ==> (r matches Err(e) && e@ == message@),
        match r {
            Ok(s) => cached_run_spec(addr@, outcome) == Ok::<Seq<char>, Seq<char>>(s@),
            Err(e) => cached_run_spec(addr@, outcome) == Err::<Seq<char>, Seq<char>>(e@),
        },
{
    match outcome {
        None => {
            let mut message = String::from_str("WASM file not found at path: ");
            let path = cache_path(addr);
            message.append(path.as_str());
            Err(message)
        },
        Some(RunOutcome::Failed(message)) => Err(message),
        Some(RunOutcome::Exited { success, stdout, stderr, code }) => {
            if success {
                Ok(stdout)
            } else if stderr.as_str().unicode_len() > 0 {
                let mut message = String::from_str("WASM execution error for '");
                message.append(addr);
                message.append("': ");
                message.append(stderr.as_str());
                Err(message)
            } else {
                let mut message = String::from_str("WASM execution '");
                message.append(addr);
                message.append("' failed with code: ");
                let code_text = format_option_code(code);
                message.append(code_text.as_str());
                Err(message)
            }
        },
    }
}

/// Decides the result of running a bundled sample function from what the
/// process did.
pub fn saved_run_result(outcome: RunOutcome) -> (r: Result<String, String>)
    ensures
        outcome matches RunOutcome::Exited { success: true, stdout, .. } ==> (r matches Ok(s) && s@
            == stdout@),
        outcome matches RunOutcome::Exited { success: false, stderr, .. } ==> (stderr@.len() > 0 ==> (
        r matches Err(e) && e@ == stderr@)),
        outcome matches RunOutcome::Exited { success: false, .. } ==> r is Err,
        outcome matches RunOutcome::Failed(message) ==> (r matches Err(e) && e@ == message@),
        match r {
            Ok(s) => saved_run_spec(outcome) == Ok::<Seq<char>, Seq<char>>(s@),
            Err(e) => saved_run_spec(outcome) == Err::<Seq<char>, Seq<char>>(e@),
        },
{
    match outcome {
        RunOutcome::Failed(message) => Err(message),
        RunOutcome::Exited { success, stdout, stderr, code } => {
            if success {
                Ok(stdout)
            } else if stderr.as_str().unicode_len() > 0 {
                Err(stderr)
            } else {
                let mut message = String::from_str("WASM execution failed with code: ");
                let code_text = format_option_code(code);
                message.append(code_text.as_str());
                Err(message)
            }
        },
    }
}

/// The text that a run answers with.
pub fn run_output(result: Result<String, String>) -> (text: String)
    ensures
        result matches Ok(s) ==> text@ == s@,
        result matches Err(e) ==> text@ == "Error running WASM function: "@ + e@,
        text@ == run_output_spec(match result {
            Ok(s) => Ok::<Seq<char>, Seq<char>>(s@),
            Err(e) => Err::<Seq<char>, Seq<char>>(e@),
        }),
{
    match result {
        Ok(output) => output,
        Err(message) => {
            let mut text = String::from_str("Error running WASM function: ");
            text.append(message.as_str());
            text
        },
    }
}

/// Finishes a run of the fetched module `addr`: decides its answer from what
/// the process did and records the run in `store` under the function's name
/// (the last segment of `addr`), with the time it took and the memory
/// estimate (0 when there is none). Also tells whether the run succeeded.
pub fn complete_run(
    addr: &str,
    outcome: Option<RunOutcome>,
    elapsed_ms: u64,
    memory_estimate: Option<u64>,
    store: &mut MetricsStore,
) -> (r: (String, bool))
    requires
        can_record(old(store)@, last_segment(addr@), elapsed_ms),
    ensures
        r.0@ == run_output_spec(cached_run_spec(addr@, outcome)),
        r.1 == cached_run_spec(addr@, outcome) is Ok,
        final(store)@ == record_spec(
            old(store)@,
            last_segment(addr@),
            match memory_estimate { Some(m) => m, None => 0 },
            elapsed_ms,
        ),
{
    let result = cached_run_result(addr, outcome);
    let succeeded = result.is_ok();
    let text = run_output(result);
    let name = function_name(addr);
    let memory = match memory_estimate {
        Some(m) => m,
        None => 0,
    };
    store.record_execution(name, memory, elapsed_ms);
    (text, succeeded)
}

} // verus!
