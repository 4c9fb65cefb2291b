//! The build-and-test driver's decisions: where the backend library lies, the
//! compiler's arguments, and how test cases are named.

use vstd::prelude::*;
use vstd::string::StringExecFns;

use crate::config::views;

verus! {

/// Clean the build directory.
pub struct CleanCommand {}

/// Format code, examples and tests; only check when `check` is set.
pub struct FmtCommand {
    pub check: bool,
}

/// Compile one source file with the backend; `slop` is passed on to rustc.
pub struct RustcCommand {
    pub source: String,
    pub slop: Vec<String>,
}

/// Run the test cases.
pub struct TestCommand {}

/// The driver's subcommands.
pub enum Command {
    Test(TestCommand),
    Clean(CleanCommand),
    Rustc(RustcCommand),
    Fmt(FmtCommand),
}

/// The driver's command line.
pub struct Cli {
    /// Build the backend in release mode.
    pub release: bool,
    /// The output directory.
    pub out_dir: Option<String>,
    /// Debug mode.
    pub debug: bool,
    pub command: Command,
}

/// The build settings every command works with.
pub struct Manifest {
    pub debug: bool,
    pub release: bool,
    pub out_dir: String,
}

impl Cli {
    /// The settings of this command line; the output directory defaults to
    /// `build`.
    pub fn manifest(&self) -> (r: Manifest)
        ensures
            r.debug == self.debug,
            r.release == self.release,
            r.out_dir@ == match self.out_dir {
                Some(d) => d@,
                None => "build"@,
            },
    {
        let out_dir = match &self.out_dir {
            Some(d) => d.clone(),
            None => String::from_str("build"),
        };
        Manifest { debug: self.debug, release: self.release, out_dir }
    }
}

pub open spec fn spec_backend_path(release: bool) -> &'static str {
    if release {
        "crates/target/release/librustc_codegen_c.so"
    } else {
        "crates/target/debug/librustc_codegen_c.so"
    }
}

/// `a` followed by `b`.
fn concat(a: &str, b: &str) -> (r: String)
    ensures
        r@ == a@ + b@,
{
    let mut r = String::from_str(a);
    r.append(b);
    r
}

/// The arguments with which rustc runs with the backend of `m`.
pub open spec fn rustc_args_text(m: &Manifest) -> Seq<Seq<char>> {
    seq![
        "--edition"@,
        "2021"@,
        "-Z"@,
        "codegen-backend="@ + spec_backend_path(m.release)@,
        "-C"@,
        "panic=abort"@,
        "-C"@,
        "lto=false"@,
        "-Lall="@ + m.out_dir@,
        "-lc"@,
        "-lrust_runtime"@,
    ]
}

impl Manifest {
    /// The path of the backend library.
    pub fn codegen_backend(&self) -> (r: &'static str)
        ensures
            r == spec_backend_path(self.release),
    {
        if self.release {
            "crates/target/release/librustc_codegen_c.so"
        } else {
            "crates/target/debug/librustc_codegen_c.so"
        }
    }

    /// The arguments with which rustc runs with the backend.
    pub fn rustc_args(&self) -> (r: Vec<String>)
        ensures
            views(r@) == rustc_args_text(self),
    {
        let mut r: Vec<String> = Vec::new();
        r.push(String::from_str("--edition"));
        r.push(String::from_str("2021"));
        r.push(String::from_str("-Z"));
        r.push(concat("codegen-backend=", self.codegen_backend()));
        r.push(String::from_str("-C"));
        r.push(String::from_str("panic=abort"));
        r.push(String::from_str("-C"));
        r.push(String::from_str("lto=false"));
        r.push(concat("-Lall=", self.out_dir.as_str()));
        r.push(String::from_str("-lc"));
        r.push(String::from_str("-lrust_runtime"));
        assert(views(r@) =~= seq![
            "--edition"@,
            "2021"@,
            "-Z"@,
            "codegen-backend="@ + spec_backend_path(self.release)@,
            "-C"@,
            "panic=abort"@,
            "-C"@,
            "lto=false"@,
            "-Lall="@ + self.out_dir@,
            "-lc"@,
            "-lrust_runtime"@,
        ]);
        r
    }
}

impl RustcCommand {
    /// The full rustc argument list: the backend's arguments, the source
    /// compiled as a binary into the output directory, then the extra ones.
    pub fn args(&self, manifest: &Manifest) -> (r: Vec<String>)
        ensures
            views(r@) == rustc_args_text(manifest) + seq![
                self.source@,
                "--crate-type"@,
                "bin"@,
                "--out-dir"@,
                manifest.out_dir@,
            ] + views(self.slop@),
    {
        let mut r = manifest.rustc_args();
        let ghost base = r@;
        r.push(self.source.clone());
        r.push(String::from_str("--crate-type"));
        r.push(String::from_str("bin"));
        r.push(String::from_str("--out-dir"));
        r.push(manifest.out_dir.clone());
        let ghost head = views(r@);
        assert(head =~= views(base) + seq![
            self.source@,
            "--crate-type"@,
            "bin"@,
            "--out-dir"@,
            manifest.out_dir@,
        ]);
        let mut i: usize = 0;
        while i < self.slop.len()
            invariant
                i <= self.slop@.len(),
                views(r@) == head + views(self.slop@).subrange(0, i as int),
            decreases self.slop@.len() - i,
        {
            let c = self.slop[i].clone();
            let ghost before = r@;
            r.push(c);
            assert(views(r@) =~= views(before).push(c@));
            assert(views(self.slop@).subrange(0, i + 1) =~= views(self.slop@).subrange(
                0,
                i as int,
            ).push(self.slop@[i as int]@));
            i = i + 1;
        }
        assert(views(self.slop@).subrange(0, self.slop@.len() as int) =~= views(self.slop@));
        r
    }
}

/// How a test case is checked.
#[derive(Clone, Copy, Debug, PartialEq, Eq, Structural)]
pub enum TestType {
    /// The program must compile.
    Compile,
    /// The generated C must match the `CHECK` lines of the source.
    FileCheck,
}

/// One test case: its name, its source file, the path of its output and how
/// it is checked.
pub struct TestCase {
    pub name: String,
    pub source: String,
    pub output: String,
    pub test: TestType,
}

impl TestCase {
    /// The test case of an example program `source` with file stem `stem`:
    /// compiled into `out_dir/example/stem`. The shared `mini_core` library
    /// is no test case.
    pub fn example(source: String, stem: &str, out_dir: &str) -> (r: Option<TestCase>)
        ensures
            stem@ == "mini_core"@ <==> r is None,
            r matches Some(t) ==> {
                &&& t.name@ == "example/"@ + stem@
                &&& t.source == source
                &&& t.output@ == out_dir@ + "/example/"@ + stem@
                &&& t.test == TestType::Compile
            },
    {
        let mini = String::from_str("mini_core");
        let s = String::from_str(stem);
        if s == mini {
            return None;
        }
        let name = concat("example/", stem);
        let mut output = concat(out_dir, "/example/");
        output.append(stem);
        Some(TestCase { name, source, output, test: TestType::Compile })
    }

    /// The test case of a codegen test `source` with file stem `stem`: its
    /// output `out_dir/tests/codegen/stem` is matched against its `CHECK`
    /// lines.
    pub fn codegen(source: String, stem: &str, out_dir: &str) -> (r: TestCase)
        ensures
            r.name@ == "codegen/"@ + stem@,
            r.source == source,
            r.output@ == out_dir@ + "/tests/codegen/"@ + stem@,
            r.test == TestType::FileCheck,
    {
        let name = concat("codegen/", stem);
        let mut output = concat(out_dir, "/tests/codegen/");
        output.append(stem);
        TestCase { name, source, output, test: TestType::FileCheck }
    }
}

} // verus!
