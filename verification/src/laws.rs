//! Laws that relate the gating, the invocation builder, and the suite
//! executor, stated and proved once for all inputs.

use vstd::prelude::*;

use crate::plan::ActionV;
use crate::plan::case_actions_spec;
use crate::plan::case_skipped;
use crate::plan::cfg_suffix_spec;
use crate::plan::compile_extras_spec;
use crate::plan::enabled_spec;
use crate::plan::skipped_line_spec;
use crate::plan::suite_actions_spec;
use crate::runner::base_argv_spec;
use crate::strings::contains_string;
use crate::testcase::CommandShape;
use crate::testcase::TestCase;
use crate::testcase::case_name;
use crate::testcase::case_tag;
use crate::runner::TestRunner;

verus! {

/// A case whose stored flag is off, or whose key stands in the skip-list,
/// contributes exactly its skipped status line: no command is spawned and no
/// custom action is carried out.
pub proof fn lemma_skipped_case_spawns_nothing(r: TestRunner, c: TestCase)
    requires
        !enabled_spec(r, c.config@) || contains_string(r.skip_tests.deep_view(), c.config@),
    ensures
        case_actions_spec(r, c) == seq![
            ActionV::PrintLine { line: skipped_line_spec(case_tag(c), case_name(c)) },
        ],
        forall|i: int|
            0 <= i < case_actions_spec(r, c).len() ==> !(#[trigger] case_actions_spec(r, c)[i]
                is RunCommand) && !(case_actions_spec(r, c)[i] is RunCustom),
{
    assert(case_skipped(r, c));
}

/// The invocation builder is shape-invariant: whatever extra arguments two
/// invocations append, the built commands agree letter for letter on the
/// fixed prefix, and each carries exactly its own extras after it.
pub proof fn lemma_builder_shape_invariant(r: TestRunner, a: Seq<Seq<char>>, b: Seq<Seq<char>>)
    ensures
        (base_argv_spec(r) + a).take(base_argv_spec(r).len() as int) == (base_argv_spec(r)
            + b).take(base_argv_spec(r).len() as int),
        (base_argv_spec(r) + a).skip(base_argv_spec(r).len() as int) == a,
        (base_argv_spec(r) + b).skip(base_argv_spec(r).len() as int) == b,
{
    assert((base_argv_spec(r) + a).take(base_argv_spec(r).len() as int) =~= base_argv_spec(r));
    assert((base_argv_spec(r) + b).take(base_argv_spec(r).len() as int) =~= base_argv_spec(r));
    assert((base_argv_spec(r) + a).skip(base_argv_spec(r).len() as int) =~= a);
    assert((base_argv_spec(r) + b).skip(base_argv_spec(r).len() as int) =~= b);
}

/// Suite order is preserved: the plan of a suite is the plan of the cases
/// before `i`, then case `i`'s own actions, then the plan of the cases after
/// it.
pub proof fn lemma_suite_order(r: TestRunner, s: Seq<TestCase>, i: int)
    requires
        0 <= i < s.len(),
    ensures
        suite_actions_spec(r, s) == suite_actions_spec(r, s.take(i)) + case_actions_spec(r, s[i])
            + suite_actions_spec(r, s.skip(i + 1)),
    decreases s.len(),
{
    if i == s.len() - 1 {
        assert(s.drop_last() =~= s.take(i));
        assert(s.skip(i + 1) =~= Seq::<TestCase>::empty());
        assert(suite_actions_spec(r, s) =~= suite_actions_spec(r, s.take(i)) + case_actions_spec(
            r,
            s[i],
        ) + suite_actions_spec(r, s.skip(i + 1)));
    } else {
        let d = s.drop_last();
        lemma_suite_order(r, d, i);
        assert(d.take(i) =~= s.take(i));
        assert(d[i] == s[i]);
        let tail = s.skip(i + 1);
        assert(tail.len() > 0);
        assert(tail.drop_last() =~= d.skip(i + 1));
        assert(tail.last() == s.last());
        assert(suite_actions_spec(r, tail) == suite_actions_spec(r, d.skip(i + 1))
            + case_actions_spec(r, s.last()));
        assert(suite_actions_spec(r, s) =~= suite_actions_spec(r, s.take(i)) + case_actions_spec(
            r,
            s[i],
        ) + suite_actions_spec(r, s.skip(i + 1)));
    }
}

/// The adjacent pair `--cfg no_unstable_features` stands somewhere in the
/// argument vector.
pub open spec fn has_cfg_pair(argv: Seq<Seq<char>>) -> bool {
    exists|i: int|
        0 <= i && i + 1 < argv.len() && #[trigger] argv[i] == "--cfg"@ && argv[i + 1]
            == "no_unstable_features"@
}

/// With unstable features off, the compilation of every declarative build
/// shape carries `--cfg no_unstable_features`; with them on, it does not.
/// The absence direction holds provided none of the run's own free-form
/// strings is itself the literal `--cfg`.
pub proof fn lemma_unstable_cfg_gate(r: TestRunner, cmd: CommandShape)
    requires
        cmd matches CommandShape::BuildLib { .. } || cmd matches CommandShape::BuildBin { .. }
            || cmd matches CommandShape::BuildBinAndRun { .. },
        r.target_compiler.rustc@ != "--cfg"@,
        r.target_compiler.triple@ != "--cfg"@,
        r.out_dir@ != "--cfg"@,
        forall|i: int|
            0 <= i < r.target_compiler.rustflags.deep_view().len()
                ==> #[trigger] r.target_compiler.rustflags.deep_view()[i] != "--cfg"@,
        cmd matches CommandShape::BuildLib { source, crate_types } ==> source@ != "--cfg"@
            && crate_types@ != "--cfg"@,
        cmd matches CommandShape::BuildBin { source } ==> source@ != "--cfg"@,
        cmd matches CommandShape::BuildBinAndRun { source, .. } ==> source@ != "--cfg"@,
    ensures
        has_cfg_pair(
            base_argv_spec(r) + compile_extras_spec(cmd) + cfg_suffix_spec(
                r.use_unstable_features,
            ),
        ) <==> !r.use_unstable_features,
{
    let base = base_argv_spec(r);
    let extras = compile_extras_spec(cmd);
    let argv = base + extras + cfg_suffix_spec(r.use_unstable_features);
    reveal_strlit("--cfg");
    reveal_strlit("no_unstable_features");
    reveal_strlit("-L");
    reveal_strlit("crate=");
    reveal_strlit("--out-dir");
    reveal_strlit("-Cdebuginfo=2");
    reveal_strlit("--target");
    reveal_strlit("-Cpanic=abort");
    reveal_strlit("-Zunstable-options");
    reveal_strlit("--check-cfg=cfg(no_unstable_features)");
    reveal_strlit("--check-cfg=cfg(jit)");
    reveal_strlit("--crate-type");
    if !r.use_unstable_features {
        let w = argv.len() - 2;
        assert(argv[w] == "--cfg"@);
        assert(argv[w + 1] == "no_unstable_features"@);
        assert(has_cfg_pair(argv));
    } else {
        assert(argv =~= base + extras);
        assert(("--crate-type"@).len() != ("--cfg"@).len());
        assert forall|i: int| 0 <= i < argv.len() implies #[trigger] argv[i] != "--cfg"@ by {
            let flags = r.target_compiler.rustflags.deep_view();
            if i < base.len() {
                if 1 <= i && i <= flags.len() {
                    assert(flags[i - 1] != "--cfg"@);
                } else if i == 1 + flags.len() + 1 {
                    assert(argv[i] == "crate="@ + r.out_dir@);
                    assert(argv[i].len() >= 6);
                }
            } else {
                assert(argv[i] == extras[i - base.len()]);
            }
        }
        assert(!has_cfg_pair(argv));
    }
}

} // verus!
