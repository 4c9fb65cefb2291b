use rustc_codegen_c::bootstrap::{Cli, Command, Manifest, RustcCommand, TestCase, TestCommand, TestType};
use rustc_codegen_c::config::{compile_args, opt_flag, split_at_char, BackendConfig, OptLevel};

#[test]
fn options_set_compiler_and_flags() {
    let mut c = BackendConfig::new();
    assert_eq!(c.cc, "clang");
    assert!(c.cflags.is_empty());
    assert!(c.apply_option("cc=gcc"));
    assert_eq!(c.cc, "gcc");
    assert!(c.apply_option("cflags=-O2 -g"));
    assert_eq!(c.cflags, vec!["-O2".to_string(), "-g".to_string()]);
    assert!(!c.apply_option("color=always"));
    assert!(!c.apply_option("verbose"));
    assert_eq!(c.cc, "gcc");
    assert!(c.apply_option("cc=a=b"));
    assert_eq!(c.cc, "a=b");
}

#[test]
fn unknown_options_are_returned() {
    let mut c = BackendConfig::new();
    let opts = vec!["cc=tcc".to_string(), "x".to_string(), "y=1".to_string()];
    let unknown = c.apply_options(&opts);
    assert_eq!(unknown, vec!["x".to_string(), "y=1".to_string()]);
    assert_eq!(c.cc, "tcc");
}

#[test]
fn environment_overrides_defaults() {
    let mut c = BackendConfig::new();
    c.apply_env(Some("cc".to_string()), Some("-Wall  -I inc".to_string()));
    assert_eq!(c.cc, "cc");
    assert_eq!(c.cflags, vec!["-Wall", "", "-I", "inc"]);
    c.apply_env(None, None);
    assert_eq!(c.cc, "cc");
}

#[test]
fn splitting_matches_str_split() {
    for s in ["", " ", "a", "a b", " a  b ", "abc def ghi"] {
        let expected: Vec<String> = s.split(' ').map(String::from).collect();
        assert_eq!(split_at_char(s, ' '), expected);
    }
}

#[test]
fn compile_command_arguments() {
    let flags = vec!["-Irt".to_string()];
    let args = compile_args("m.c", "m.o", &flags, Some(OptLevel::Size));
    assert_eq!(args, vec!["m.c", "-o", "m.o", "-c", "-Irt", "-Os"]);
    let args = compile_args("m.c", "m.o", &vec![], None);
    assert_eq!(args, vec!["m.c", "-o", "m.o", "-c"]);
    assert_eq!(opt_flag(OptLevel::No), "-O0");
    assert_eq!(opt_flag(OptLevel::Less), "-O1");
    assert_eq!(opt_flag(OptLevel::Default), "-O2");
    assert_eq!(opt_flag(OptLevel::Aggressive), "-O3");
    assert_eq!(opt_flag(OptLevel::SizeMin), "-Oz");
}

#[test]
fn manifest_and_rustc_arguments() {
    let cli = Cli { release: true, out_dir: None, debug: false, command: Command::Test(TestCommand {}) };
    let m = cli.manifest();
    assert_eq!(m.out_dir, "build");
    assert_eq!(m.codegen_backend(), "crates/target/release/librustc_codegen_c.so");
    let dbg = Manifest { debug: true, release: false, out_dir: "out".to_string() };
    assert_eq!(dbg.codegen_backend(), "crates/target/debug/librustc_codegen_c.so");
    let rc = RustcCommand { source: "a.rs".to_string(), slop: vec!["-O".to_string()] };
    let args = rc.args(&dbg);
    assert_eq!(
        args,
        vec![
            "--edition",
            "2021",
            "-Z",
            "codegen-backend=crates/target/debug/librustc_codegen_c.so",
            "-C",
            "panic=abort",
            "-C",
            "lto=false",
            "-Lall=out",
            "-lc",
            "-lrust_runtime",
            "a.rs",
            "--crate-type",
            "bin",
            "--out-dir",
            "out",
            "-O",
        ]
    );
}

#[test]
fn test_cases_are_named_by_kind() {
    assert!(TestCase::example("example/mini_core.rs".to_string(), "mini_core", "build").is_none());
    let t = TestCase::example("example/tee.rs".to_string(), "tee", "build").unwrap();
    assert_eq!(t.name, "example/tee");
    assert_eq!(t.output, "build/example/tee");
    assert_eq!(t.test, TestType::Compile);
    let c = TestCase::codegen("tests/codegen/cond.rs".to_string(), "cond", "build");
    assert_eq!(c.name, "codegen/cond");
    assert_eq!(c.source, "tests/codegen/cond.rs");
    assert_eq!(c.output, "build/tests/codegen/cond");
    assert_eq!(c.test, TestType::FileCheck);
}
