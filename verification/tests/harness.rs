use cg_harness::engine::SuiteRun;
use cg_harness::plan::Action;
use cg_harness::plan::ConfigError;
use cg_harness::runner::Compiler;
use cg_harness::runner::TestRunner;
use cg_harness::strings::binary_name_of;
use cg_harness::strings::contains_substring;
use cg_harness::strings::split_config_key;
use cg_harness::suites::base_sysroot_suite;
use cg_harness::suites::extended_sysroot_suite;
use cg_harness::suites::no_sysroot_suite;
use cg_harness::suites::select_suites;
use cg_harness::testcase::CommandShape;
use cg_harness::testcase::Tag;
use cg_harness::testcase::TestCase;

fn compiler(triple: &str, rustflags: Vec<String>, runner: Vec<String>) -> Compiler {
    Compiler {
        rustc: "rustc-clif".to_string(),
        triple: triple.to_string(),
        rustflags,
        rustdocflags: Vec::new(),
        runner,
    }
}

fn make_runner(
    use_unstable: bool,
    is_native: bool,
    triple: &str,
    enabled: &[&str],
    skip: &[&str],
) -> TestRunner {
    TestRunner::new(
        "build/example".to_string(),
        compiler(triple, Vec::new(), Vec::new()),
        use_unstable,
        skip.iter().map(|s| s.to_string()).collect(),
        is_native,
        "stdlib-src".to_string(),
        enabled.iter().map(|s| s.to_string()).collect(),
        &Vec::new(),
        &Vec::new(),
    )
}

fn strings(v: &[&str]) -> Vec<String> {
    v.iter().map(|s| s.to_string()).collect()
}

const LINUX_X64: &str = "x86_64-unknown-linux-gnu";

#[test]
fn jit_supported_matches_formula() {
    let triples = [
        ("x86_64-unknown-linux-gnu", true, false),
        ("x86_64-pc-windows-gnu", true, true),
        ("aarch64-unknown-linux-gnu", false, false),
        ("aarch64-apple-darwin", false, false),
    ];
    for use_unstable in [false, true] {
        for is_native in [false, true] {
            for (triple, is_x64, is_windows) in triples {
                let r = make_runner(use_unstable, is_native, triple, &[], &[]);
                let expected = use_unstable && is_native && is_x64 && !is_windows;
                assert_eq!(r.jit_supported, expected, "triple {triple}");
            }
        }
    }
}

#[test]
fn binary_name_strips_directory_and_extension() {
    assert_eq!(binary_name_of("example/foo.rs"), "foo");
    assert_eq!(binary_name_of("example/mini_core_hello_world.rs"), "mini_core_hello_world");
    assert_eq!(binary_name_of("ex.dir/foo.rs"), "foo");
    assert_eq!(binary_name_of("a/b/c/prog.tar.rs"), "prog");
    assert_eq!(binary_name_of("plain"), "plain");
}

#[test]
fn rustc_command_has_exact_fixed_prefix() {
    let r = TestRunner::new(
        "build/example".to_string(),
        compiler(LINUX_X64, strings(&["-Cllvm-args=extra"]), Vec::new()),
        true,
        Vec::new(),
        true,
        "stdlib-src".to_string(),
        Vec::new(),
        &Vec::new(),
        &Vec::new(),
    );
    let cmd = r.rustc_command(&strings(&["example/foo.rs"]));
    let expected = [
        "rustc-clif",
        "-Cllvm-args=extra",
        "-L",
        "crate=build/example",
        "--out-dir",
        "build/example",
        "-Cdebuginfo=2",
        "--target",
        LINUX_X64,
        "-Cpanic=abort",
        "-Zunstable-options",
        "--check-cfg=cfg(no_unstable_features)",
        "--check-cfg=cfg(jit)",
        "example/foo.rs",
    ];
    assert_eq!(cmd, strings(&expected));
}

#[test]
fn rustc_command_is_shape_invariant() {
    let r = make_runner(true, true, LINUX_X64, &[], &[]);
    let a = r.rustc_command(&strings(&["example/a.rs"]));
    let b = r.rustc_command(&strings(&["example/b.rs", "--crate-type", "lib"]));
    let prefix_len = a.len() - 1;
    assert_eq!(b.len(), prefix_len + 3);
    assert_eq!(a[..prefix_len], b[..prefix_len]);
    assert_eq!(a[prefix_len..].to_vec(), strings(&["example/a.rs"]));
    assert_eq!(b[prefix_len..].to_vec(), strings(&["example/b.rs", "--crate-type", "lib"]));
}

fn has_cfg_pair(argv: &[String]) -> bool {
    argv.windows(2).any(|w| w[0] == "--cfg" && w[1] == "no_unstable_features")
}

fn first_command(actions: &[Action]) -> &Vec<String> {
    for a in actions {
        if let Action::RunCommand { argv, .. } = a {
            return argv;
        }
    }
    panic!("no command in plan");
}

#[test]
fn unstable_features_off_adds_cfg() {
    let case = TestCase::build_bin("aot.foo", "example/foo.rs");
    let off = make_runner(false, true, LINUX_X64, &["aot.foo"], &[]);
    let actions = off.plan_case(&case).unwrap();
    assert!(has_cfg_pair(first_command(&actions)));
    let on = make_runner(true, true, LINUX_X64, &["aot.foo"], &[]);
    let actions = on.plan_case(&case).unwrap();
    assert!(!has_cfg_pair(first_command(&actions)));
}

#[test]
fn unstable_features_off_adds_cfg_to_lib_and_run_shapes() {
    let off = make_runner(false, true, LINUX_X64, &["build.lib", "aot.run"], &[]);
    let lib = TestCase::build_lib("build.lib", "example/lib.rs", "lib,dylib");
    let actions = off.plan_case(&lib).unwrap();
    let argv = first_command(&actions);
    assert!(has_cfg_pair(argv));
    assert_eq!(argv[argv.len() - 5..].to_vec(), strings(&[
        "example/lib.rs",
        "--crate-type",
        "lib,dylib",
        "--cfg",
        "no_unstable_features",
    ]));
    let run = TestCase::build_bin_and_run("aot.run", "example/run.rs", &Vec::new());
    let actions = off.plan_case(&run).unwrap();
    assert!(has_cfg_pair(first_command(&actions)));
}

#[test]
fn disabled_case_prints_skip_and_spawns_nothing() {
    let r = make_runner(true, true, LINUX_X64, &[], &[]);
    let case = TestCase::build_bin("aot.foo", "example/foo.rs");
    let actions = r.plan_case(&case).unwrap();
    assert_eq!(actions, vec![Action::PrintLine { line: "[AOT] foo (skipped)".to_string() }]);
}

#[test]
fn skip_listed_case_prints_skip_and_spawns_nothing() {
    let r = make_runner(true, true, LINUX_X64, &["aot.foo"], &["aot.foo"]);
    let case = TestCase::build_bin("aot.foo", "example/foo.rs");
    let actions = r.plan_case(&case).unwrap();
    assert_eq!(actions, vec![Action::PrintLine { line: "[AOT] foo (skipped)".to_string() }]);
}

#[test]
fn jit_case_skipped_without_jit_support() {
    let r = make_runner(true, true, "aarch64-unknown-linux-gnu", &["jit.foo"], &[]);
    assert!(!r.jit_supported);
    let case = TestCase::jit_bin("jit.foo", "example/foo.rs", "");
    let actions = r.plan_case(&case).unwrap();
    assert_eq!(actions, vec![Action::PrintLine { line: "[JIT] foo (skipped)".to_string() }]);
}

#[test]
fn running_case_is_wrapped_in_a_log_group() {
    let r = make_runner(true, true, LINUX_X64, &["aot.foo"], &[]);
    let case = TestCase::build_bin("aot.foo", "example/foo.rs");
    let actions = r.plan_case(&case).unwrap();
    assert_eq!(actions[0], Action::BeginGroup { line: "[AOT] foo".to_string() });
    assert_eq!(actions[actions.len() - 1], Action::EndGroup);
    assert!(matches!(actions[1], Action::RunCommand { .. }));
    assert_eq!(actions.len(), 3);
}

#[test]
fn jit_case_runs_eager_and_lazy_with_env_args() {
    let r = make_runner(true, true, LINUX_X64, &["jit.hello"], &[]);
    let case = TestCase::jit_bin("jit.hello", "example/hello.rs", "abc bcd");
    let actions = r.plan_case(&case).unwrap();
    assert_eq!(actions.len(), 5);
    match &actions[1] {
        Action::RunCommand { argv, jit_args } => {
            assert_eq!(jit_args.as_deref(), Some("abc bcd"));
            assert_eq!(argv[argv.len() - 6..].to_vec(), strings(&[
                "-Zunstable-options",
                "-Cllvm-args=mode=jit",
                "-Cprefer-dynamic",
                "example/hello.rs",
                "--cfg",
                "jit",
            ]));
        }
        other => panic!("expected a command, got {other:?}"),
    }
    assert_eq!(actions[2], Action::PrintLine { line: "[JIT-lazy] hello".to_string() });
    match &actions[3] {
        Action::RunCommand { argv, jit_args } => {
            assert_eq!(jit_args.as_deref(), Some("abc bcd"));
            assert_eq!(argv[argv.len() - 5], "-Cllvm-args=mode=jit-lazy");
        }
        other => panic!("expected a command, got {other:?}"),
    }
}

#[test]
fn jit_case_with_empty_args_sets_no_env() {
    let r = make_runner(true, true, LINUX_X64, &["jit.hello"], &[]);
    let case = TestCase::jit_bin("jit.hello", "example/hello.rs", "");
    let actions = r.plan_case(&case).unwrap();
    match &actions[1] {
        Action::RunCommand { jit_args, .. } => assert_eq!(*jit_args, None),
        other => panic!("expected a command, got {other:?}"),
    }
}

#[test]
fn build_and_run_resolves_binary_in_out_dir() {
    let r = TestRunner::new(
        "build/example".to_string(),
        compiler(LINUX_X64, Vec::new(), strings(&["qemu-x86_64"])),
        true,
        Vec::new(),
        true,
        "stdlib-src".to_string(),
        strings(&["aot.foo"]),
        &Vec::new(),
        &Vec::new(),
    );
    let case = TestCase::build_bin_and_run("aot.foo", "example/foo.rs", &strings(&["a", "b"]));
    let actions = r.plan_case(&case).unwrap();
    assert_eq!(actions.len(), 4);
    match &actions[2] {
        Action::RunCommand { argv, jit_args } => {
            assert_eq!(*jit_args, None);
            assert_eq!(*argv, strings(&["qemu-x86_64", "build/example/foo", "a", "b"]));
        }
        other => panic!("expected a command, got {other:?}"),
    }
}

#[test]
fn malformed_key_is_a_config_error() {
    let r = make_runner(true, true, LINUX_X64, &[], &[]);
    let case = TestCase::build_bin("nodot", "example/foo.rs");
    match r.plan_case(&case) {
        Err(ConfigError::MalformedKey { key }) => assert_eq!(key, "nodot"),
        other => panic!("expected a malformed-key error, got {other:?}"),
    }
}

#[test]
fn unknown_tag_is_a_config_error() {
    let r = make_runner(true, true, LINUX_X64, &[], &[]);
    let case = TestCase::build_bin("weird.foo", "example/foo.rs");
    match r.plan_case(&case) {
        Err(ConfigError::UnknownTag { key }) => assert_eq!(key, "weird.foo"),
        other => panic!("expected an unknown-tag error, got {other:?}"),
    }
}

#[test]
fn suite_preserves_declared_order() {
    let r = make_runner(true, true, LINUX_X64, &["build.lib", "aot.bin"], &[]);
    let mut suite: Vec<TestCase> = Vec::new();
    suite.push(TestCase::build_lib("build.lib", "example/lib.rs", "lib"));
    suite.push(TestCase::build_bin_and_run("aot.bin", "example/bin.rs", &Vec::new()));
    let actions = r.run_testsuite(&suite).unwrap();
    let sources: Vec<String> = actions
        .iter()
        .filter_map(|a| match a {
            Action::RunCommand { argv, .. } => {
                argv.iter().find(|s| s.starts_with("example/") || s.contains("/bin")).cloned()
            }
            _ => None,
        })
        .collect();
    assert_eq!(sources, strings(&["example/lib.rs", "example/bin.rs", "build/example/bin"]));
}

#[test]
fn suite_plan_keeps_skipped_cases_in_place() {
    let r = make_runner(true, true, LINUX_X64, &["aot.second"], &[]);
    let mut suite: Vec<TestCase> = Vec::new();
    suite.push(TestCase::build_bin("aot.first", "example/first.rs"));
    suite.push(TestCase::build_bin("aot.second", "example/second.rs"));
    let actions = r.run_testsuite(&suite).unwrap();
    assert_eq!(actions[0], Action::PrintLine { line: "[AOT] first (skipped)".to_string() });
    assert_eq!(actions[1], Action::BeginGroup { line: "[AOT] second".to_string() });
}

#[test]
fn failing_second_case_stops_the_run() {
    let r = make_runner(true, true, LINUX_X64, &["aot.one", "aot.two", "aot.three"], &[]);
    let mut suite: Vec<TestCase> = Vec::new();
    suite.push(TestCase::build_bin("aot.one", "example/one.rs"));
    suite.push(TestCase::build_bin("aot.two", "example/two.rs"));
    suite.push(TestCase::build_bin("aot.three", "example/three.rs"));
    let actions = r.run_testsuite(&suite).unwrap();
    let mut run = SuiteRun::new(actions);
    let mut commands_seen = 0;
    let mut handed_out: Vec<Action> = Vec::new();
    while let Some(action) = run.take_action() {
        let is_command = matches!(action, Action::RunCommand { .. });
        if is_command {
            commands_seen += 1;
        }
        handed_out.push(action);
        // The second spawned process exits non-zero.
        run.report(!(is_command && commands_seen == 2));
    }
    assert!(run.failed());
    assert!(!run.finished());
    assert_eq!(commands_seen, 2);
    assert!(!handed_out.iter().any(|a| match a {
        Action::RunCommand { argv, .. } => argv.iter().any(|s| s == "example/three.rs"),
        _ => false,
    }));
}

#[test]
fn completed_run_reports_finished() {
    let r = make_runner(true, true, LINUX_X64, &["aot.one"], &[]);
    let mut suite: Vec<TestCase> = Vec::new();
    suite.push(TestCase::build_bin("aot.one", "example/one.rs"));
    let actions = r.run_testsuite(&suite).unwrap();
    let mut run = SuiteRun::new(actions);
    while let Some(_action) = run.take_action() {
        run.report(true);
    }
    assert!(run.finished());
    assert!(!run.failed());
}

#[test]
fn select_suites_honors_flags_and_skip_list() {
    let enabled = strings(&["testsuite.no_sysroot", "testsuite.extended_sysroot"]);
    let skip = strings(&["testsuite.extended_sysroot"]);
    let sel = select_suites(&enabled, &skip);
    assert!(sel.run_no_sysroot);
    assert!(!sel.run_base_sysroot);
    assert!(!sel.run_extended_sysroot);
}

#[test]
fn suite_contents_match_declared_cases() {
    let none = no_sysroot_suite();
    assert_eq!(none.len(), 4);
    assert_eq!(none[0].config, "build.mini_core");
    assert!(matches!(none[0].cmd, CommandShape::BuildLib { .. }));
    assert_eq!(none[2].config, "jit.mini_core_hello_world");
    let base = base_sysroot_suite();
    assert_eq!(base.len(), 15);
    assert_eq!(base[3].config, "jit.std_example");
    let extended = extended_sysroot_suite();
    assert_eq!(extended.len(), 4);
    assert!(extended.iter().all(|c| matches!(c.cmd, CommandShape::Custom { .. })));
}

#[test]
fn darwin_targets_get_link_arguments() {
    let r = TestRunner::new(
        "build/example".to_string(),
        compiler("aarch64-apple-darwin", strings(&["-Cbase"]), Vec::new()),
        true,
        Vec::new(),
        false,
        "stdlib-src".to_string(),
        Vec::new(),
        &strings(&["-Cfrom-env"]),
        &Vec::new(),
    );
    assert_eq!(r.target_compiler.rustflags, strings(&[
        "-Cbase",
        "-Cfrom-env",
        "-Clink-arg=-undefined",
        "-Clink-arg=dynamic_lookup",
    ]));
}

#[test]
fn env_flags_append_to_descriptor_lists() {
    let r = TestRunner::new(
        "build/example".to_string(),
        compiler(LINUX_X64, strings(&["-Ca"]), Vec::new()),
        true,
        Vec::new(),
        true,
        "stdlib-src".to_string(),
        Vec::new(),
        &strings(&["-Cb"]),
        &strings(&["-Dc"]),
    );
    assert_eq!(r.target_compiler.rustflags, strings(&["-Ca", "-Cb"]));
    assert_eq!(r.target_compiler.rustdocflags, strings(&["-Dc"]));
}

#[test]
fn split_config_key_splits_at_first_dot() {
    assert_eq!(
        split_config_key("aot.std_example"),
        Some(("aot".to_string(), "std_example".to_string()))
    );
    assert_eq!(
        split_config_key("test.rust-random/rand"),
        Some(("test".to_string(), "rust-random/rand".to_string()))
    );
    assert_eq!(split_config_key("nodot"), None);
}

#[test]
fn contains_substring_finds_runs() {
    assert!(contains_substring("x86_64-unknown-linux-gnu", "x86_64"));
    assert!(!contains_substring("x86_64-unknown-linux-gnu", "windows"));
    assert!(contains_substring("abc", ""));
    assert!(!contains_substring("ab", "abc"));
}

#[test]
fn cap_lints_appends_one_flag() {
    let mut c = compiler(LINUX_X64, strings(&["-Ca"]), Vec::new());
    c.cap_lints_allow();
    assert_eq!(c.rustflags, strings(&["-Ca", "--cap-lints=allow"]));
    assert_eq!(c.rustc, "rustc-clif");
}

#[test]
fn all_declared_suites_plan_cleanly() {
    let mut suites = vec![no_sysroot_suite(), base_sysroot_suite(), extended_sysroot_suite()];
    for suite in suites.iter_mut() {
        let enabled: Vec<String> = suite.iter().map(|c| c.config.clone()).collect();
        let r = TestRunner::new(
            "build/example".to_string(),
            compiler(LINUX_X64, Vec::new(), Vec::new()),
            true,
            Vec::new(),
            true,
            "stdlib-src".to_string(),
            enabled,
            &Vec::new(),
            &Vec::new(),
        );
        let actions = r.run_testsuite(suite).expect("declared keys are well-formed");
        assert!(!actions.is_empty());
        assert!(!actions.iter().any(|a| matches!(
            a,
            Action::PrintLine { line } if line.ends_with("(skipped)")
        )));
    }
}

#[test]
fn should_run_requires_flag_and_absence_from_skip_list() {
    let r = make_runner(true, true, LINUX_X64, &["aot.on", "jit.on"], &["aot.on"]);
    assert!(!r.should_run("aot.on", Tag::Aot), "skip-listed");
    assert!(!r.should_run("aot.off", Tag::Aot), "flag disabled");
    assert!(r.should_run("jit.on", Tag::Jit));
    let no_jit = make_runner(false, true, LINUX_X64, &["jit.on"], &[]);
    assert!(!no_jit.should_run("jit.on", Tag::Jit), "no JIT support");
    assert!(no_jit.should_run("jit.on", Tag::Build), "only JIT cases are gated on JIT support");
}
