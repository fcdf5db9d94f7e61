//! The transform step: what the transform tool is asked, and what its answer
//! comes to.
//!
//! The tool is run as a process of its own. It is handed the entry file, the
//! import to strip, the prelude to put back and the defines, and either writes
//! the transformed source to a file or prints it as one JSON object with the
//! source under `output`. On failure it prints one JSON object with the kind
//! of the error under `name` and the detail under `msg`.

use crate::config::defines::DefineMap;
use crate::config::model::{ConfigDefineType, DefineValue};
use crate::text::texts;
use crate::trusted::{json_string_field, json_string_member, member_text};
use vstd::prelude::*;
use vstd::string::StringExecFns;

verus! {

/// What one transform is to do.
pub struct CompileFileOptions<'a> {
    /// The absolute path of the file to transform.
    pub input: &'a str,
    /// The file to write to; without one the source is handed back.
    pub output: Option<&'a str>,
    pub minify: bool,
    pub defines: &'a DefineMap<ConfigDefineType>,
    /// The directory in which the tool keeps its own data.
    pub app_data_location: &'a str,
}

/// What the transform process left behind.
pub struct TransformRun {
    /// It exited with success.
    pub success: bool,
    /// All it wrote to its standard output.
    pub stdout: Vec<u8>,
    /// All it wrote to its standard error.
    pub stderr: Vec<u8>,
}

/// Why a transform failed.
#[derive(Debug)]
pub enum CompileError {
    /// The tool reported an error of the kind `name`.
    Failed { name: String, msg: String },
    /// The tool failed, and what it reported is no JSON text.
    ErrorNotJson,
    /// The tool failed, and its report lacks the kind or the detail.
    ErrorUnreadable,
    /// The tool succeeded, and what it printed is no JSON text.
    OutputNotJson,
    /// The tool succeeded, and what it printed holds no source.
    OutputUnreadable,
}

/// What a `CompileError` holds, mathematically.
pub enum CompileFault {
    Failed { name: Seq<char>, msg: Seq<char> },
    ErrorNotJson,
    ErrorUnreadable,
    OutputNotJson,
    OutputUnreadable,
}

impl View for CompileError {
    type V = CompileFault;

    open spec fn view(&self) -> CompileFault {
        match self {
            CompileError::Failed { name, msg } => CompileFault::Failed { name: name@, msg: msg@ },
            CompileError::ErrorNotJson => CompileFault::ErrorNotJson,
            CompileError::ErrorUnreadable => CompileFault::ErrorUnreadable,
            CompileError::OutputNotJson => CompileFault::OutputNotJson,
            CompileError::OutputUnreadable => CompileFault::OutputUnreadable,
        }
    }
}

/// The message of a fault, as it is shown to the user.
pub open spec fn fault_message(fault: CompileFault) -> Seq<char> {
    match fault {
        CompileFault::Failed { name, msg } => "transform failed ("@ + name + "): "@ + msg,
        CompileFault::ErrorNotJson => "transform failed: the error report is not JSON"@,
        CompileFault::ErrorUnreadable => "transform failed: failed to read error"@,
        CompileFault::OutputNotJson => "transform failed: the output is not JSON"@,
        CompileFault::OutputUnreadable => "transform failed: failed to read output"@,
    }
}

impl CompileError {
    /// The message of this error, as it is shown to the user.
    pub fn message(&self) -> (text: String)
        ensures
            text@ == fault_message(self@),
    {
        match self {
            CompileError::Failed { name, msg } => {
                let mut text = "transform failed (".to_owned();
                text.append(name.as_str());
                text.append("): ");
                text.append(msg.as_str());
                text
            },
            CompileError::ErrorNotJson => "transform failed: the error report is not JSON".to_owned(),
            CompileError::ErrorUnreadable => "transform failed: failed to read error".to_owned(),
            CompileError::OutputNotJson => "transform failed: the output is not JSON".to_owned(),
            CompileError::OutputUnreadable => "transform failed: failed to read output".to_owned(),
        }
    }
}

/// The arguments that come first: the module to run, the input, the import to
/// strip, the prelude, and the form of the answer.
pub open spec fn leading_arguments(input: Seq<char>) -> Seq<Seq<char>> {
    seq![
        "-m"@,
        "python-compiler"@,
        "--input"@,
        input,
        "--remove-imports"@,
        "vex"@,
        "--prelude"@,
        "from vex import *"@,
        "--json"@,
        "--export-dictionary-mode"@,
        "class_instance"@,
    ]
}

/// The arguments for the first `n` defines: for each, `--define-constant`, its
/// name, and its value written out.
pub open spec fn define_arguments(defines: Seq<(Seq<char>, DefineValue)>, n: int) -> Seq<
    Seq<char>,
>
    decreases n,
{
    if n <= 0 || n > defines.len() {
        Seq::empty()
    } else {
        define_arguments(defines, n - 1) + seq![
            "--define-constant"@,
            defines[n - 1].0,
            defines[n - 1].1.rendered(),
        ]
    }
}

/// The arguments that come last: the file to write to, where there is one.
pub open spec fn trailing_arguments(output: Option<Seq<char>>) -> Seq<Seq<char>> {
    match output {
        Some(path) => seq!["--output"@, path],
        None => Seq::empty(),
    }
}

/// The arguments of one transform.
pub open spec fn arguments_of(
    input: Seq<char>,
    output: Option<Seq<char>>,
    defines: Seq<(Seq<char>, DefineValue)>,
) -> Seq<Seq<char>> {
    leading_arguments(input) + define_arguments(defines, defines.len() as int)
        + trailing_arguments(output)
}

/// The text of an optional string slice.
pub open spec fn slice_text(s: Option<&str>) -> Option<Seq<char>> {
    match s {
        Some(s) => Some(s@),
        None => None,
    }
}

/// The arguments with which the transform tool is run.
pub fn transform_arguments<'a>(options: &CompileFileOptions<'a>) -> (args: Vec<String>)
    ensures
        texts(args@) == arguments_of(options.input@, slice_text(options.output), options.defines@),
{
    let mut args: Vec<String> = Vec::new();
    args.push("-m".to_owned());
    args.push("python-compiler".to_owned());
    args.push("--input".to_owned());
    args.push(options.input.to_owned());
    args.push("--remove-imports".to_owned());
    args.push("vex".to_owned());
    args.push("--prelude".to_owned());
    args.push("from vex import *".to_owned());
    args.push("--json".to_owned());
    args.push("--export-dictionary-mode".to_owned());
    args.push("class_instance".to_owned());
    assert(texts(args@) =~= leading_arguments(options.input@));
    let n = options.defines.len();
    let mut k: usize = 0;
    while k < n
        invariant
            k <= n,
            n == options.defines@.len(),
            texts(args@) == leading_arguments(options.input@) + define_arguments(
                options.defines@,
                k as int,
            ),
        decreases n - k,
    {
        let ghost before = texts(args@);
        args.push("--define-constant".to_owned());
        args.push(options.defines.name(k).clone());
        args.push(options.defines.value(k).to_string());
        k = k + 1;
        assert(texts(args@) =~= before + seq![
            "--define-constant"@,
            options.defines@[k - 1].0,
            options.defines@[k - 1].1.rendered(),
        ]);
    }
    let ghost before = texts(args@);
    match options.output {
        Some(path) => {
            args.push("--output".to_owned());
            args.push(path.to_owned());
            assert(texts(args@) =~= before + seq!["--output"@, path@]);
        },
        None => {
            assert(texts(args@) =~= before + Seq::<Seq<char>>::empty());
        },
    }
    args
}

/// What the answer of a tool that succeeded comes to; `output` is what its
/// standard output holds under `output`.
pub open spec fn answer(output: Option<Option<Seq<char>>>) -> Result<
    Option<Seq<char>>,
    CompileFault,
> {
    match output {
        None => Err(CompileFault::OutputNotJson),
        Some(None) => Err(CompileFault::OutputUnreadable),
        Some(Some(source)) => Ok(Some(source)),
    }
}

/// What the report of a tool that failed comes to; `name` and `msg` are what
/// its standard error holds under `name` and `msg`.
pub open spec fn report(
    name: Option<Option<Seq<char>>>,
    msg: Option<Option<Seq<char>>>,
) -> CompileFault {
    match (name, msg) {
        (Some(Some(name)), Some(Some(msg))) => CompileFault::Failed { name, msg },
        (Some(_), Some(_)) => CompileFault::ErrorUnreadable,
        _ => CompileFault::ErrorNotJson,
    }
}

/// What a run of the transform tool comes to. `to_file` says that the tool
/// was given a file to write to.
pub open spec fn transformed(
    to_file: bool,
    success: bool,
    stdout: Seq<u8>,
    stderr: Seq<u8>,
) -> Result<Option<Seq<char>>, CompileFault> {
    if !success {
        Err(report(json_string_member(stderr, "name"@), json_string_member(stderr, "msg"@)))
    } else if to_file {
        Ok(None)
    } else {
        answer(json_string_member(stdout, "output"@))
    }
}

/// The view of what a transform returned.
pub open spec fn compiled(r: Result<Option<String>, CompileError>) -> Result<
    Option<Seq<char>>,
    CompileFault,
> {
    match r {
        Ok(Some(source)) => Ok(Some(source@)),
        Ok(None) => Ok(None),
        Err(error) => Err(error@),
    }
}

/// Reads the answer of a tool that succeeded and was to hand the source back,
/// from what its standard output holds under `output`.
pub fn read_answer(output: Option<Option<String>>) -> (r: Result<Option<String>, CompileError>)
    ensures
        compiled(r) == answer(member_text(output)),
{
    match output {
        None => Err(CompileError::OutputNotJson),
        Some(None) => Err(CompileError::OutputUnreadable),
        Some(Some(source)) => Ok(Some(source)),
    }
}

/// Reads the report of a tool that failed, from what its standard error
/// holds under `name` and under `msg`.
pub fn read_report(name: Option<Option<String>>, msg: Option<Option<String>>) -> (error:
    CompileError)
    ensures
        error@ == report(member_text(name), member_text(msg)),
{
    match (name, msg) {
        (Some(Some(name)), Some(Some(msg))) => CompileError::Failed { name, msg },
        (Some(_), Some(_)) => CompileError::ErrorUnreadable,
        _ => CompileError::ErrorNotJson,
    }
}

/// Reads what a run of the transform tool left behind: the transformed source
/// where the tool was to hand it back, nothing where it was to write a file,
/// or the error that it reported.
pub fn compile_file<'a>(options: &CompileFileOptions<'a>, run: &TransformRun) -> (r: Result<
    Option<String>,
    CompileError,
>)
    ensures
        compiled(r) == transformed(options.output is Some, run.success, run.stdout@, run.stderr@),
{
    if !run.success {
        let name = json_string_field(run.stderr.as_slice(), "name");
        let msg = json_string_field(run.stderr.as_slice(), "msg");
        Err(read_report(name, msg))
    } else if options.output.is_some() {
        Ok(None)
    } else {
        read_answer(json_string_field(run.stdout.as_slice(), "output"))
    }
}

} // verus!
