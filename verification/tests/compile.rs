use vexmason::compile_file::{
    compile_file, read_answer, read_report, transform_arguments, CompileError, CompileFileOptions,
    TransformRun,
};
use vexmason::config::defines::DefineMap;
use vexmason::config::model::ConfigDefineType;

fn run(success: bool, stdout: &str, stderr: &str) -> TransformRun {
    TransformRun { success, stdout: stdout.as_bytes().to_vec(), stderr: stderr.as_bytes().to_vec() }
}

fn inline<'a>(defines: &'a DefineMap<ConfigDefineType>) -> CompileFileOptions<'a> {
    CompileFileOptions {
        input: "/r/src/main.py",
        output: None,
        minify: false,
        defines,
        app_data_location: "/home/u/AppData/Roaming",
    }
}

fn to_file<'a>(defines: &'a DefineMap<ConfigDefineType>) -> CompileFileOptions<'a> {
    CompileFileOptions {
        input: "/r/src/main.py",
        output: Some("/r/build/compiled.py"),
        minify: true,
        defines,
        app_data_location: "/home/u/AppData/Roaming",
    }
}

#[test]
fn arguments_without_defines_or_output() {
    let none = DefineMap::new();
    assert_eq!(
        transform_arguments(&inline(&none)),
        vec![
            "-m",
            "python-compiler",
            "--input",
            "/r/src/main.py",
            "--remove-imports",
            "vex",
            "--prelude",
            "from vex import *",
            "--json",
            "--export-dictionary-mode",
            "class_instance",
        ]
    );
}

#[test]
fn arguments_with_defines_and_output() {
    let mut defines = DefineMap::new();
    defines.insert("DEBUG".to_string(), ConfigDefineType::Boolean(true));
    defines.insert("TEAM".to_string(), ConfigDefineType::String("12 A".to_string()));
    defines.insert("SPEED".to_string(), ConfigDefineType::Number("0.5".to_string()));
    assert_eq!(
        transform_arguments(&to_file(&defines)),
        vec![
            "-m",
            "python-compiler",
            "--input",
            "/r/src/main.py",
            "--remove-imports",
            "vex",
            "--prelude",
            "from vex import *",
            "--json",
            "--export-dictionary-mode",
            "class_instance",
            "--define-constant",
            "DEBUG",
            "true",
            "--define-constant",
            "TEAM",
            "12 A",
            "--define-constant",
            "SPEED",
            "0.5",
            "--output",
            "/r/build/compiled.py",
        ]
    );
}

#[test]
fn source_is_read_from_standard_output() {
    let none = DefineMap::new();
    let r = compile_file(&inline(&none), &run(true, r#"{"output":"print(1)\n","extra":[1,2]}"#, ""));
    assert_eq!(r.unwrap(), Some("print(1)\n".to_string()));
    let r = compile_file(&inline(&none), &run(true, r#" { "output" : "é" } "#, "not json"));
    assert_eq!(r.unwrap(), Some("é".to_string()));
}

#[test]
fn nothing_is_read_where_a_file_was_written() {
    let none = DefineMap::new();
    let r = compile_file(&to_file(&none), &run(true, "anything at all", ""));
    assert_eq!(r.unwrap(), None);
}

#[test]
fn output_that_is_no_json_fails() {
    let none = DefineMap::new();
    for stdout in ["", "print(1)", r#"{"output":"x""#, r#"{"output":"x"} {"#] {
        let r = compile_file(&inline(&none), &run(true, stdout, ""));
        assert!(matches!(r, Err(CompileError::OutputNotJson)), "{}", stdout);
    }
}

#[test]
fn output_without_source_fails() {
    let none = DefineMap::new();
    for stdout in ["{}", r#"{"output":1}"#, r#"{"Output":"x"}"#, r#"["output"]"#, "null", r#""output""#] {
        let r = compile_file(&inline(&none), &run(true, stdout, ""));
        assert!(matches!(r, Err(CompileError::OutputUnreadable)), "{}", stdout);
    }
}

#[test]
fn reported_error_is_handed_on() {
    let none = DefineMap::new();
    let stderr = r#"{"name":"SyntaxError","msg":"line 3: unexpected indent"}"#;
    for options in [inline(&none), to_file(&none)] {
        match compile_file(&options, &run(false, r#"{"output":"x"}"#, stderr)) {
            Err(CompileError::Failed { name, msg }) => {
                assert_eq!(name, "SyntaxError");
                assert_eq!(msg, "line 3: unexpected indent");
            }
            other => panic!("{:?}", other),
        }
    }
}

#[test]
fn report_that_is_no_json_fails() {
    let none = DefineMap::new();
    for stderr in ["", "Traceback (most recent call last):", r#"{"name":"#] {
        let r = compile_file(&inline(&none), &run(false, "", stderr));
        assert!(matches!(r, Err(CompileError::ErrorNotJson)), "{}", stderr);
    }
}

#[test]
fn report_without_kind_or_detail_fails() {
    let none = DefineMap::new();
    for stderr in ["{}", r#"{"name":"E"}"#, r#"{"msg":"m"}"#, r#"{"name":1,"msg":"m"}"#, "[]"] {
        let r = compile_file(&inline(&none), &run(false, "", stderr));
        assert!(matches!(r, Err(CompileError::ErrorUnreadable)), "{}", stderr);
    }
}

#[test]
fn answers_are_read_from_what_was_found() {
    assert!(matches!(read_answer(None), Err(CompileError::OutputNotJson)));
    assert!(matches!(read_answer(Some(None)), Err(CompileError::OutputUnreadable)));
    assert_eq!(read_answer(Some(Some("src".to_string()))).unwrap(), Some("src".to_string()));
}

#[test]
fn reports_are_read_from_what_was_found() {
    let some = |s: &str| Some(Some(s.to_string()));
    assert!(matches!(read_report(None, None), CompileError::ErrorNotJson));
    assert!(matches!(read_report(some("E"), None), CompileError::ErrorNotJson));
    assert!(matches!(read_report(None, some("m")), CompileError::ErrorNotJson));
    assert!(matches!(read_report(Some(None), Some(None)), CompileError::ErrorUnreadable));
    assert!(matches!(read_report(some("E"), Some(None)), CompileError::ErrorUnreadable));
    assert!(matches!(read_report(Some(None), some("m")), CompileError::ErrorUnreadable));
    match read_report(some("E"), some("m")) {
        CompileError::Failed { name, msg } => {
            assert_eq!(name, "E");
            assert_eq!(msg, "m");
        }
        other => panic!("{:?}", other),
    }
}

#[test]
fn compile_errors_have_messages() {
    let failed = CompileError::Failed { name: "SyntaxError".to_string(), msg: "bad".to_string() };
    assert_eq!(failed.message(), "transform failed (SyntaxError): bad");
    assert_eq!(CompileError::ErrorUnreadable.message(), "transform failed: failed to read error");
    assert_eq!(CompileError::OutputUnreadable.message(), "transform failed: failed to read output");
    assert_eq!(CompileError::ErrorNotJson.message(), "transform failed: the error report is not JSON");
    assert_eq!(CompileError::OutputNotJson.message(), "transform failed: the output is not JSON");
}
