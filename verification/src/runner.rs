//! The execution context: the compiler descriptor, the capability flags
//! computed at construction, and the deterministic invocation builders.

use vstd::prelude::*;

use crate::strings::append_all;
use crate::strings::contains_substring;
use crate::strings::is_substring;

verus! {

/// Immutable description of the compiler under test.
#[derive(PartialEq, Eq, Debug)]
pub struct Compiler {
    /// Path of the compiler executable.
    pub rustc: String,
    /// Target triple the compiler produces code for.
    pub triple: String,
    /// Extra flags passed to every compilation.
    pub rustflags: Vec<String>,
    /// Extra flags passed to documentation generation.
    pub rustdocflags: Vec<String>,
    /// Execution wrapper for produced binaries; empty when none is needed.
    pub runner: Vec<String>,
}

impl Compiler {
    /// Silences all lints in what this compiler builds; the later suites
    /// compile outside projects that deny lints the backend under test has no
    /// business failing on.
    pub fn cap_lints_allow(&mut self)
        ensures
            final(self).rustflags.deep_view() == old(self).rustflags.deep_view() + seq![
                "--cap-lints=allow"@,
            ],
            final(self).rustc == old(self).rustc,
            final(self).triple == old(self).triple,
            final(self).rustdocflags == old(self).rustdocflags,
            final(self).runner == old(self).runner,
    {
        let ghost before = self.rustflags.deep_view();
        self.rustflags.push(String::from_str("--cap-lints=allow"));
        proof {
            assert(self.rustflags.deep_view() =~= before + seq!["--cap-lints=allow"@]);
        }
    }
}

/// Just-in-time execution is supported exactly when unstable features are on,
/// the target is native, its architecture is x86_64, and its OS is not
/// windows.
pub open spec fn jit_supported_spec(
    use_unstable_features: bool,
    is_native: bool,
    triple: Seq<char>,
) -> bool {
    use_unstable_features && is_native && is_substring("x86_64"@, triple) && !is_substring(
        "windows"@,
        triple,
    )
}

/// Link arguments added for targets whose triple names darwin.
pub open spec fn darwin_flags_spec(triple: Seq<char>) -> Seq<Seq<char>> {
    if is_substring("darwin"@, triple) {
        seq!["-Clink-arg=-undefined"@, "-Clink-arg=dynamic_lookup"@]
    } else {
        Seq::empty()
    }
}

/// Holds everything a suite's execution depends on: the compiler descriptor,
/// the capability flags, the stored configuration, the skip-list, and the
/// shared output directory.
#[derive(PartialEq, Eq, Debug)]
pub struct TestRunner {
    /// The target triple equals the host's.
    pub is_native: bool,
    /// Derived once at construction; see `jit_supported_spec`.
    pub jit_supported: bool,
    /// Unstable language features may be used by test sources.
    pub use_unstable_features: bool,
    /// Keys whose stored configuration flag is enabled.
    pub enabled_configs: Vec<String>,
    /// Keys forcibly excluded regardless of configuration flags.
    pub skip_tests: Vec<String>,
    /// The shared directory all compiled examples are placed in.
    pub out_dir: String,
    /// The compiler under test.
    pub target_compiler: Compiler,
    /// Path of the standard library's source tree.
    pub stdlib_source: String,
}

/// The fixed prefix of every compiler invocation: the executable, the
/// descriptor's flags, the shared library search path and output directory,
/// full debug information, the target triple, abort-on-panic, the
/// unstable-options gate, and the two recognized custom cfg predicates.
pub open spec fn base_argv_spec(r: TestRunner) -> Seq<Seq<char>> {
    seq![r.target_compiler.rustc@] + r.target_compiler.rustflags.deep_view() + seq![
        "-L"@,
        "crate="@ + r.out_dir@,
        "--out-dir"@,
        r.out_dir@,
        "-Cdebuginfo=2"@,
        "--target"@,
        r.target_compiler.triple@,
        "-Cpanic=abort"@,
        "-Zunstable-options"@,
        "--check-cfg=cfg(no_unstable_features)"@,
        "--check-cfg=cfg(jit)"@,
    ]
}

/// The argument vector that runs a produced binary: the execution wrapper (if
/// any), the binary resolved inside the shared output directory, then the
/// case's arguments.
pub open spec fn out_command_argv_spec(
    r: TestRunner,
    name: Seq<char>,
    args: Seq<Seq<char>>,
) -> Seq<Seq<char>> {
    r.target_compiler.runner.deep_view() + seq![r.out_dir@ + "/"@ + name] + args
}

impl TestRunner {
    /// Builds the execution context.  Environment-derived compile and doc
    /// flags are appended verbatim to the descriptor's lists, targets whose
    /// triple names darwin get their extra link arguments, and the
    /// JIT-capability flag is derived from the four inputs of
    /// `jit_supported_spec`.
    pub fn new(
        out_dir: String,
        target_compiler: Compiler,
        use_unstable_features: bool,
        skip_tests: Vec<String>,
        is_native: bool,
        stdlib_source: String,
        enabled_configs: Vec<String>,
        env_rustflags: &Vec<String>,
        env_rustdocflags: &Vec<String>,
    ) -> (r: TestRunner)
        ensures
            r.is_native == is_native,
            r.use_unstable_features == use_unstable_features,
            r.skip_tests == skip_tests,
            r.enabled_configs == enabled_configs,
            r.out_dir == out_dir,
            r.stdlib_source == stdlib_source,
            r.jit_supported == jit_supported_spec(
                use_unstable_features,
                is_native,
                target_compiler.triple@,
            ),
            r.target_compiler.rustc == target_compiler.rustc,
            r.target_compiler.triple == target_compiler.triple,
            r.target_compiler.runner == target_compiler.runner,
            r.target_compiler.rustdocflags.deep_view() == target_compiler.rustdocflags.deep_view()
                + env_rustdocflags.deep_view(),
            r.target_compiler.rustflags.deep_view() == target_compiler.rustflags.deep_view()
                + env_rustflags.deep_view() + darwin_flags_spec(target_compiler.triple@),
    {
        let mut target_compiler = target_compiler;
        append_all(&mut target_compiler.rustflags, env_rustflags);
        append_all(&mut target_compiler.rustdocflags, env_rustdocflags);
        if contains_substring(target_compiler.triple.as_str(), "darwin") {
            let ghost before = target_compiler.rustflags.deep_view();
            let f1 = String::from_str("-Clink-arg=-undefined");
            let ghost f1v = f1@;
            target_compiler.rustflags.push(f1);
            proof {
                assert(target_compiler.rustflags.deep_view() =~= before.push(f1v));
            }
            let f2 = String::from_str("-Clink-arg=dynamic_lookup");
            let ghost f2v = f2@;
            target_compiler.rustflags.push(f2);
            proof {
                assert(target_compiler.rustflags.deep_view() =~= before.push(f1v).push(f2v));
                assert(target_compiler.rustflags.deep_view() =~= before + darwin_flags_spec(
                    target_compiler.triple@,
                ));
            }
        } else {
            proof {
                assert(target_compiler.rustflags.deep_view() =~= target_compiler.rustflags.deep_view()
                    + darwin_flags_spec(target_compiler.triple@));
            }
        }
        let jit_supported = use_unstable_features && is_native && contains_substring(
            target_compiler.triple.as_str(),
            "x86_64",
        ) && !contains_substring(target_compiler.triple.as_str(), "windows");
        TestRunner {
            is_native,
            jit_supported,
            use_unstable_features,
            enabled_configs,
            skip_tests,
            out_dir,
            target_compiler,
            stdlib_source,
        }
    }

    /// Builds the full compiler invocation for one compilation: the fixed
    /// prefix of `base_argv_spec`, then the caller's extra arguments.
    pub fn rustc_command(&self, args: &Vec<String>) -> (r: Vec<String>)
        ensures
            r.deep_view() == base_argv_spec(*self) + args.deep_view(),
    {
        let mut cmd: Vec<String> = Vec::new();
        cmd.push(self.target_compiler.rustc.clone());
        let ghost mut acc: Seq<Seq<char>> = seq![self.target_compiler.rustc@];
        proof {
            assert(cmd.deep_view() =~= acc);
        }
        append_all(&mut cmd, &self.target_compiler.rustflags);
        proof {
            acc = acc + self.target_compiler.rustflags.deep_view();
            assert(cmd.deep_view() == acc);
        }
        let x = String::from_str("-L");
        let ghost xv = x@;
        cmd.push(x);
        proof {
            assert(cmd.deep_view() =~= acc.push(xv));
            acc = acc.push(xv);
        }
        let x = String::from_str("crate=").concat(self.out_dir.as_str());
        let ghost xv = x@;
        cmd.push(x);
        proof {
            assert(cmd.deep_view() =~= acc.push(xv));
            acc = acc.push(xv);
        }
        let x = String::from_str("--out-dir");
        let ghost xv = x@;
        cmd.push(x);
        proof {
            assert(cmd.deep_view() =~= acc.push(xv));
            acc = acc.push(xv);
        }
        let x = self.out_dir.clone();
        let ghost xv = x@;
        cmd.push(x);
        proof {
            assert(cmd.deep_view() =~= acc.push(xv));
            acc = acc.push(xv);
        }
        let x = String::from_str("-Cdebuginfo=2");
        let ghost xv = x@;
        cmd.push(x);
        proof {
            assert(cmd.deep_view() =~= acc.push(xv));
            acc = acc.push(xv);
        }
        let x = String::from_str("--target");
        let ghost xv = x@;
        cmd.push(x);
        proof {
            assert(cmd.deep_view() =~= acc.push(xv));
            acc = acc.push(xv);
        }
        let x = self.target_compiler.triple.clone();
        let ghost xv = x@;
        cmd.push(x);
        proof {
            assert(cmd.deep_view() =~= acc.push(xv));
            acc = acc.push(xv);
        }
        let x = String::from_str("-Cpanic=abort");
        let ghost xv = x@;
        cmd.push(x);
        proof {
            assert(cmd.deep_view() =~= acc.push(xv));
            acc = acc.push(xv);
        }
        let x = String::from_str("-Zunstable-options");
        let ghost xv = x@;
        cmd.push(x);
        proof {
            assert(cmd.deep_view() =~= acc.push(xv));
            acc = acc.push(xv);
        }
        let x = String::from_str("--check-cfg=cfg(no_unstable_features)");
        let ghost xv = x@;
        cmd.push(x);
        proof {
            assert(cmd.deep_view() =~= acc.push(xv));
            acc = acc.push(xv);
        }
        let x = String::from_str("--check-cfg=cfg(jit)");
        let ghost xv = x@;
        cmd.push(x);
        proof {
            assert(cmd.deep_view() =~= acc.push(xv));
            acc = acc.push(xv);
            assert(acc =~= base_argv_spec(*self));
        }
        append_all(&mut cmd, args);
        proof {
            assert(cmd.deep_view() == base_argv_spec(*self) + args.deep_view());
        }
        cmd
    }

    /// Builds the argument vector that runs a produced binary out of the
    /// shared output directory, prepending the execution wrapper when one is
    /// configured.
    pub fn out_command(&self, name: &str, args: &Vec<String>) -> (r: Vec<String>)
        ensures
            r.deep_view() == out_command_argv_spec(*self, name@, args.deep_view()),
    {
        let mut cmd: Vec<String> = Vec::new();
        append_all(&mut cmd, &self.target_compiler.runner);
        cmd.push(self.out_dir.clone().concat("/").concat(name));
        append_all(&mut cmd, args);
        proof {
            assert(cmd.deep_view() =~= out_command_argv_spec(*self, name@, args.deep_view()));
        }
        cmd
    }
}

} // verus!
