//! The suite contents, one ordered sequence of cases per sysroot maturity
//! level, and the top-level selection of which suites a run performs.

use vstd::prelude::*;

use crate::plan::suite_gate_ok;
use crate::strings::contains_str;
use crate::strings::contains_string;
use crate::testcase::CommandShape;
use crate::testcase::TestCase;
use crate::testcase::lemma_key_well_formed;

verus! {

/// The suite run with no rebuilt standard library at all.
pub fn no_sysroot_suite() -> (r: Vec<TestCase>)
    ensures
        r@.len() == 4,
        suite_gate_ok(r@),
        r@[0].config@ == "build.mini_core"@,
        r@[0].cmd matches CommandShape::BuildLib { source, crate_types } && source@
            == "example/mini_core.rs"@ && crate_types@ == "lib,dylib"@,
        r@[1].config@ == "build.example"@,
        r@[1].cmd matches CommandShape::BuildLib { source, crate_types } && source@
            == "example/example.rs"@ && crate_types@ == "lib"@,
        r@[2].config@ == "jit.mini_core_hello_world"@,
        r@[2].cmd matches CommandShape::JitBin { source, args } && source@
            == "example/mini_core_hello_world.rs"@ && args@ == "abc bcd"@,
        r@[3].config@ == "aot.mini_core_hello_world"@,
        r@[3].cmd matches CommandShape::BuildBinAndRun { source, args } && source@
            == "example/mini_core_hello_world.rs"@ && args.deep_view() == seq!["abc"@, "bcd"@],
{
    let mut suite: Vec<TestCase> = Vec::new();
    suite.push(TestCase::build_lib("build.mini_core", "example/mini_core.rs", "lib,dylib"));
    suite.push(TestCase::build_lib("build.example", "example/example.rs", "lib"));
    suite.push(
        TestCase::jit_bin("jit.mini_core_hello_world", "example/mini_core_hello_world.rs", "abc bcd"),
    );
    let mut args: Vec<String> = Vec::new();
    args.push(String::from_str("abc"));
    args.push(String::from_str("bcd"));
    proof {
        assert(args.deep_view() =~= seq!["abc"@, "bcd"@]);
    }
    suite.push(
        TestCase::build_bin_and_run(
            "aot.mini_core_hello_world",
            "example/mini_core_hello_world.rs",
            &args,
        ),
    );
    proof {
        reveal_strlit("build");
        reveal_strlit("build.mini_core");
        assert(("build.mini_core"@).subrange(0, 5) =~= "build"@);
        lemma_key_well_formed("build.mini_core"@, 5);
        reveal_strlit("build.example");
        assert(("build.example"@).subrange(0, 5) =~= "build"@);
        lemma_key_well_formed("build.example"@, 5);
        reveal_strlit("jit");
        reveal_strlit("jit.mini_core_hello_world");
        assert(("jit.mini_core_hello_world"@).subrange(0, 3) =~= "jit"@);
        lemma_key_well_formed("jit.mini_core_hello_world"@, 3);
        reveal_strlit("aot");
        reveal_strlit("aot.mini_core_hello_world");
        assert(("aot.mini_core_hello_world"@).subrange(0, 3) =~= "aot"@);
        lemma_key_well_formed("aot.mini_core_hello_world"@, 3);
        assert(suite_gate_ok(suite@));
    }
    suite
}

/// The suite run against the minimal rebuilt standard library.
pub fn base_sysroot_suite() -> (r: Vec<TestCase>)
    ensures
        r@.len() == 15,
        suite_gate_ok(r@),
        r@[0].config@ == "aot.arbitrary_self_types_pointers_and_wrappers"@,
        r@[1].config@ == "build.alloc_system"@,
        r@[2].config@ == "aot.alloc_example"@,
        r@[3].config@ == "jit.std_example"@,
        r@[3].cmd matches CommandShape::JitBin { source, args } && source@
            == "example/std_example.rs"@ && args@ == ""@,
        r@[4].config@ == "aot.std_example"@,
        r@[4].cmd matches CommandShape::BuildBinAndRun { source, args } && source@
            == "example/std_example.rs"@ && args.deep_view() == seq!["arg"@],
        r@[5].config@ == "aot.dst_field_align"@,
        r@[6].config@ == "aot.subslice-patterns-const-eval"@,
        r@[7].config@ == "aot.track-caller-attribute"@,
        r@[8].config@ == "aot.float-minmax-pass"@,
        r@[9].config@ == "aot.mod_bench"@,
        r@[10].config@ == "aot.issue-72793"@,
        r@[11].config@ == "aot.issue-59326"@,
        r@[11].cmd matches CommandShape::BuildBin { source } && source@
            == "example/issue-59326.rs"@,
        r@[12].config@ == "aot.polymorphize_coroutine"@,
        r@[12].cmd matches CommandShape::Custom { action } && action@
            == "polymorphize_coroutine"@,
        r@[13].config@ == "aot.neon"@,
        r@[14].config@ == "aot.gen_block_iterate"@,
        r@[14].cmd matches CommandShape::Custom { action } && action@ == "gen_block_iterate"@,
{
    let no_args: Vec<String> = Vec::new();
    let mut suite: Vec<TestCase> = Vec::new();
    suite.push(
        TestCase::build_bin_and_run(
            "aot.arbitrary_self_types_pointers_and_wrappers",
            "example/arbitrary_self_types_pointers_and_wrappers.rs",
            &no_args,
        ),
    );
    suite.push(TestCase::build_lib("build.alloc_system", "example/alloc_system.rs", "lib"));
    suite.push(TestCase::build_bin_and_run("aot.alloc_example", "example/alloc_example.rs", &no_args));
    suite.push(TestCase::jit_bin("jit.std_example", "example/std_example.rs", ""));
    let mut one_arg: Vec<String> = Vec::new();
    one_arg.push(String::from_str("arg"));
    proof {
        assert(one_arg.deep_view() =~= seq!["arg"@]);
    }
    suite.push(TestCase::build_bin_and_run("aot.std_example", "example/std_example.rs", &one_arg));
    suite.push(TestCase::build_bin_and_run("aot.dst_field_align", "example/dst-field-align.rs", &no_args));
    suite.push(
        TestCase::build_bin_and_run(
            "aot.subslice-patterns-const-eval",
            "example/subslice-patterns-const-eval.rs",
            &no_args,
        ),
    );
    suite.push(
        TestCase::build_bin_and_run(
            "aot.track-caller-attribute",
            "example/track-caller-attribute.rs",
            &no_args,
        ),
    );
    suite.push(
        TestCase::build_bin_and_run("aot.float-minmax-pass", "example/float-minmax-pass.rs", &no_args),
    );
    suite.push(TestCase::build_bin_and_run("aot.mod_bench", "example/mod_bench.rs", &no_args));
    suite.push(TestCase::build_bin_and_run("aot.issue-72793", "example/issue-72793.rs", &no_args));
    suite.push(TestCase::build_bin("aot.issue-59326", "example/issue-59326.rs"));
    suite.push(TestCase::custom("aot.polymorphize_coroutine", "polymorphize_coroutine"));
    suite.push(TestCase::build_bin_and_run("aot.neon", "example/neon.rs", &no_args));
    suite.push(TestCase::custom("aot.gen_block_iterate", "gen_block_iterate"));
    proof {
        reveal_strlit("aot");
        reveal_strlit("aot.arbitrary_self_types_pointers_and_wrappers");
        assert(("aot.arbitrary_self_types_pointers_and_wrappers"@).subrange(0, 3) =~= "aot"@);
        lemma_key_well_formed("aot.arbitrary_self_types_pointers_and_wrappers"@, 3);
        reveal_strlit("build");
        reveal_strlit("build.alloc_system");
        assert(("build.alloc_system"@).subrange(0, 5) =~= "build"@);
        lemma_key_well_formed("build.alloc_system"@, 5);
        reveal_strlit("aot.alloc_example");
        assert(("aot.alloc_example"@).subrange(0, 3) =~= "aot"@);
        lemma_key_well_formed("aot.alloc_example"@, 3);
        reveal_strlit("jit");
        reveal_strlit("jit.std_example");
        assert(("jit.std_example"@).subrange(0, 3) =~= "jit"@);
        lemma_key_well_formed("jit.std_example"@, 3);
        reveal_strlit("aot.std_example");
        assert(("aot.std_example"@).subrange(0, 3) =~= "aot"@);
        lemma_key_well_formed("aot.std_example"@, 3);
        reveal_strlit("aot.dst_field_align");
        assert(("aot.dst_field_align"@).subrange(0, 3) =~= "aot"@);
        lemma_key_well_formed("aot.dst_field_align"@, 3);
        reveal_strlit("aot.subslice-patterns-const-eval");
        assert(("aot.subslice-patterns-const-eval"@).subrange(0, 3) =~= "aot"@);
        lemma_key_well_formed("aot.subslice-patterns-const-eval"@, 3);
        reveal_strlit("aot.track-caller-attribute");
        assert(("aot.track-caller-attribute"@).subrange(0, 3) =~= "aot"@);
        lemma_key_well_formed("aot.track-caller-attribute"@, 3);
        reveal_strlit("aot.float-minmax-pass");
        assert(("aot.float-minmax-pass"@).subrange(0, 3) =~= "aot"@);
        lemma_key_well_formed("aot.float-minmax-pass"@, 3);
        reveal_strlit("aot.mod_bench");
        assert(("aot.mod_bench"@).subrange(0, 3) =~= "aot"@);
        lemma_key_well_formed("aot.mod_bench"@, 3);
        reveal_strlit("aot.issue-72793");
        assert(("aot.issue-72793"@).subrange(0, 3) =~= "aot"@);
        lemma_key_well_formed("aot.issue-72793"@, 3);
        reveal_strlit("aot.issue-59326");
        assert(("aot.issue-59326"@).subrange(0, 3) =~= "aot"@);
        lemma_key_well_formed("aot.issue-59326"@, 3);
        reveal_strlit("aot.polymorphize_coroutine");
        assert(("aot.polymorphize_coroutine"@).subrange(0, 3) =~= "aot"@);
        lemma_key_well_formed("aot.polymorphize_coroutine"@, 3);
        reveal_strlit("aot.neon");
        assert(("aot.neon"@).subrange(0, 3) =~= "aot"@);
        lemma_key_well_formed("aot.neon"@, 3);
        reveal_strlit("aot.gen_block_iterate");
        assert(("aot.gen_block_iterate"@).subrange(0, 3) =~= "aot"@);
        lemma_key_well_formed("aot.gen_block_iterate"@, 3);
        assert(suite_gate_ok(suite@));
    }
    suite
}

/// The suite run against external projects and the standard library's own
/// test corpus; every case is a multi-step opaque action.
pub fn extended_sysroot_suite() -> (r: Vec<TestCase>)
    ensures
        r@.len() == 4,
        suite_gate_ok(r@),
        r@[0].config@ == "test.rust-random/rand"@,
        r@[0].cmd matches CommandShape::Custom { action } && action@ == "test_rand"@,
        r@[1].config@ == "test.libcore"@,
        r@[1].cmd matches CommandShape::Custom { action } && action@ == "test_libcore"@,
        r@[2].config@ == "test.regex"@,
        r@[2].cmd matches CommandShape::Custom { action } && action@ == "test_regex"@,
        r@[3].config@ == "test.portable-simd"@,
        r@[3].cmd matches CommandShape::Custom { action } && action@ == "test_portable_simd"@,
{
    let mut suite: Vec<TestCase> = Vec::new();
    suite.push(TestCase::custom("test.rust-random/rand", "test_rand"));
    suite.push(TestCase::custom("test.libcore", "test_libcore"));
    suite.push(TestCase::custom("test.regex", "test_regex"));
    suite.push(TestCase::custom("test.portable-simd", "test_portable_simd"));
    proof {
        reveal_strlit("test");
        reveal_strlit("test.rust-random/rand");
        assert(("test.rust-random/rand"@).subrange(0, 4) =~= "test"@);
        lemma_key_well_formed("test.rust-random/rand"@, 4);
        reveal_strlit("test.libcore");
        assert(("test.libcore"@).subrange(0, 4) =~= "test"@);
        lemma_key_well_formed("test.libcore"@, 4);
        reveal_strlit("test.regex");
        assert(("test.regex"@).subrange(0, 4) =~= "test"@);
        lemma_key_well_formed("test.regex"@, 4);
        reveal_strlit("test.portable-simd");
        assert(("test.portable-simd"@).subrange(0, 4) =~= "test"@);
        lemma_key_well_formed("test.portable-simd"@, 4);
        assert(suite_gate_ok(suite@));
    }
    suite
}

/// Which suites a run performs.
#[derive(PartialEq, Eq, Structural, Clone, Copy, Debug)]
pub struct SuiteSelection {
    pub run_no_sysroot: bool,
    pub run_base_sysroot: bool,
    pub run_extended_sysroot: bool,
}

/// A suite-activation key is on when its stored flag is enabled and it does
/// not stand in the skip-list.
pub open spec fn suite_key_on(
    enabled: Seq<Seq<char>>,
    skip: Seq<Seq<char>>,
    key: Seq<char>,
) -> bool {
    contains_string(enabled, key) && !contains_string(skip, key)
}

/// Decides which suites run, from the three suite-activation keys; the suites
/// themselves always run in the order none, base, extended.
pub fn select_suites(enabled: &Vec<String>, skip: &Vec<String>) -> (r: SuiteSelection)
    ensures
        r.run_no_sysroot == suite_key_on(
            enabled.deep_view(),
            skip.deep_view(),
            "testsuite.no_sysroot"@,
        ),
        r.run_base_sysroot == suite_key_on(
            enabled.deep_view(),
            skip.deep_view(),
            "testsuite.base_sysroot"@,
        ),
        r.run_extended_sysroot == suite_key_on(
            enabled.deep_view(),
            skip.deep_view(),
            "testsuite.extended_sysroot"@,
        ),
{
    SuiteSelection {
        run_no_sysroot: contains_str(enabled, "testsuite.no_sysroot") && !contains_str(
            skip,
            "testsuite.no_sysroot",
        ),
        run_base_sysroot: contains_str(enabled, "testsuite.base_sysroot") && !contains_str(
            skip,
            "testsuite.base_sysroot",
        ),
        run_extended_sysroot: contains_str(enabled, "testsuite.extended_sysroot") && !contains_str(
            skip,
            "testsuite.extended_sysroot",
        ),
    }
}

} // verus!
