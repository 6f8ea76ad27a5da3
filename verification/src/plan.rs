//! Gating and dispatch: turning a suite of test cases into the exact ordered
//! sequence of actions a driver must carry out.

use vstd::prelude::*;

use crate::runner::TestRunner;
use crate::runner::base_argv_spec;
use crate::runner::out_command_argv_spec;
use crate::strings::bin_name_spec;
use crate::strings::binary_name_of;
use crate::strings::contains_str;
use crate::strings::contains_string;
use crate::strings::has_dot;
use crate::strings::split_config_key;
use crate::testcase::CommandShape;
use crate::testcase::Tag;
use crate::testcase::TestCase;
use crate::testcase::case_gate_ok;
use crate::testcase::case_name;
use crate::testcase::case_tag;
use crate::testcase::parse_tag;
use crate::testcase::tag_label;
use crate::testcase::tag_label_spec;

verus! {

/// One step a driver carries out.  `RunCommand` and `RunCustom` spawn outside
/// work; the others only write to the log.
#[derive(PartialEq, Eq, Debug)]
pub enum Action {
    /// Write one line to the log.
    PrintLine { line: String },
    /// Open a scoped log group titled `line`, writing `line` itself first.
    BeginGroup { line: String },
    /// Close the log group opened by the latest `BeginGroup`.
    EndGroup,
    /// Spawn the command `argv` and wait for it; when `jit_args` is present,
    /// hand it to the program through the JIT argument environment variable.
    RunCommand { argv: Vec<String>, jit_args: Option<String> },
    /// Carry out the named opaque action.
    RunCustom { action: String },
}

/// The mathematical value of an `Action`.
#[verifier::ext_equal]
pub enum ActionV {
    PrintLine { line: Seq<char> },
    BeginGroup { line: Seq<char> },
    EndGroup,
    RunCommand { argv: Seq<Seq<char>>, jit_args: Option<Seq<char>> },
    RunCustom { action: Seq<char> },
}

impl View for Action {
    type V = ActionV;

    open spec fn view(&self) -> ActionV {
        match self {
            Action::PrintLine { line } => ActionV::PrintLine { line: line@ },
            Action::BeginGroup { line } => ActionV::BeginGroup { line: line@ },
            Action::EndGroup => ActionV::EndGroup,
            Action::RunCommand { argv, jit_args } => ActionV::RunCommand {
                argv: argv.deep_view(),
                jit_args: match jit_args {
                    Some(s) => Some(s@),
                    None => None,
                },
            },
            Action::RunCustom { action } => ActionV::RunCustom { action: action@ },
        }
    }
}

impl DeepView for Action {
    type V = ActionV;

    open spec fn deep_view(&self) -> ActionV {
        self.view()
    }
}

/// A configuration error found by gating; cases are never silently run under
/// an unrecognized key.
#[derive(PartialEq, Eq, Debug)]
pub enum ConfigError {
    /// The key has no '.' and so no tag part.
    MalformedKey { key: String },
    /// The key's first part is not one of the recognized tags.
    UnknownTag { key: String },
}

/// The stored configuration flag for `key` is enabled.
pub open spec fn enabled_spec(r: TestRunner, key: Seq<char>) -> bool {
    contains_string(r.enabled_configs.deep_view(), key)
}

/// The gating decision: the stored flag for the key is enabled, the key does
/// not stand in the skip-list, and a JIT case requires JIT support.
pub open spec fn should_run_spec(r: TestRunner, key: Seq<char>, tag: Tag) -> bool {
    enabled_spec(r, key) && !(tag is Jit && !r.jit_supported) && !contains_string(
        r.skip_tests.deep_view(),
        key,
    )
}

/// The case is skipped: gating decided against running it.
pub open spec fn case_skipped(r: TestRunner, c: TestCase) -> bool {
    !should_run_spec(r, c.config@, case_tag(c))
}

/// The status line of a case: `[<TAG>] <name>`.
pub open spec fn status_line_spec(t: Tag, name: Seq<char>) -> Seq<char> {
    "["@ + tag_label_spec(t) + "] "@ + name
}

/// The status line of a skipped case.
pub open spec fn skipped_line_spec(t: Tag, name: Seq<char>) -> Seq<char> {
    status_line_spec(t, name) + " (skipped)"@
}

/// The line announcing the lazy variant of a JIT case.
pub open spec fn jit_lazy_line_spec(name: Seq<char>) -> Seq<char> {
    "[JIT-lazy] "@ + name
}

/// The arguments appended to a `Build*` compilation beyond the fixed prefix:
/// with unstable features off, test sources are told so through
/// `--cfg no_unstable_features`.
pub open spec fn cfg_suffix_spec(use_unstable_features: bool) -> Seq<Seq<char>> {
    if use_unstable_features {
        Seq::empty()
    } else {
        seq!["--cfg"@, "no_unstable_features"@]
    }
}

/// The extra arguments of the one compilation a `Build*` shape performs,
/// before the unstable-features conditional.
pub open spec fn compile_extras_spec(cmd: CommandShape) -> Seq<Seq<char>> {
    match cmd {
        CommandShape::BuildLib { source, crate_types } => seq![
            source@,
            "--crate-type"@,
            crate_types@,
        ],
        CommandShape::BuildBin { source } => seq![source@],
        CommandShape::BuildBinAndRun { source, args: _ } => seq![source@],
        _ => Seq::empty(),
    }
}

/// The extra arguments of one JIT-mode compiler invocation.
pub open spec fn jit_extras_spec(mode_flag: Seq<char>, source: Seq<char>) -> Seq<Seq<char>> {
    seq!["-Zunstable-options"@, mode_flag, "-Cprefer-dynamic"@, source, "--cfg"@, "jit"@]
}

/// The environment-carried JIT program arguments: absent when empty.
pub open spec fn jit_env_spec(args: Seq<char>) -> Option<Seq<char>> {
    if args.len() == 0 {
        None
    } else {
        Some(args)
    }
}

/// The actions a running (non-skipped) case performs, by shape.
pub open spec fn shape_actions_spec(r: TestRunner, cmd: CommandShape, name: Seq<char>) -> Seq<
    ActionV,
> {
    match cmd {
        CommandShape::Custom { action } => seq![ActionV::RunCustom { action: action@ }],
        CommandShape::BuildLib { source: _, crate_types: _ } => seq![
            ActionV::RunCommand {
                argv: base_argv_spec(r) + compile_extras_spec(cmd) + cfg_suffix_spec(
                    r.use_unstable_features,
                ),
                jit_args: None,
            },
        ],
        CommandShape::BuildBin { source: _ } => seq![
            ActionV::RunCommand {
                argv: base_argv_spec(r) + compile_extras_spec(cmd) + cfg_suffix_spec(
                    r.use_unstable_features,
                ),
                jit_args: None,
            },
        ],
        CommandShape::BuildBinAndRun { source, args } => seq![
            ActionV::RunCommand {
                argv: base_argv_spec(r) + compile_extras_spec(cmd) + cfg_suffix_spec(
                    r.use_unstable_features,
                ),
                jit_args: None,
            },
            ActionV::RunCommand {
                argv: out_command_argv_spec(r, bin_name_spec(source@), args.deep_view()),
                jit_args: None,
            },
        ],
        CommandShape::JitBin { source, args } => seq![
            ActionV::RunCommand {
                argv: base_argv_spec(r) + jit_extras_spec("-Cllvm-args=mode=jit"@, source@),
                jit_args: jit_env_spec(args@),
            },
            ActionV::PrintLine { line: jit_lazy_line_spec(name) },
            ActionV::RunCommand {
                argv: base_argv_spec(r) + jit_extras_spec("-Cllvm-args=mode=jit-lazy"@, source@),
                jit_args: jit_env_spec(args@),
            },
        ],
    }
}

/// The actions of one case: a skipped case prints its skipped line and does
/// nothing else; a running case opens a log group, performs its shape's
/// actions, and closes the group on every exit path.
pub open spec fn case_actions_spec(r: TestRunner, c: TestCase) -> Seq<ActionV> {
    if case_skipped(r, c) {
        seq![ActionV::PrintLine { line: skipped_line_spec(case_tag(c), case_name(c)) }]
    } else {
        seq![ActionV::BeginGroup { line: status_line_spec(case_tag(c), case_name(c)) }]
            + shape_actions_spec(r, c.cmd, case_name(c)) + seq![ActionV::EndGroup]
    }
}

/// Every case of the suite has a well-formed key.
pub open spec fn suite_gate_ok(suite: Seq<TestCase>) -> bool {
    forall|i: int| 0 <= i < suite.len() ==> case_gate_ok(#[trigger] suite[i])
}

/// The actions of a whole suite, in declared case order.
pub open spec fn suite_actions_spec(r: TestRunner, suite: Seq<TestCase>) -> Seq<ActionV>
    decreases suite.len(),
{
    if suite.len() == 0 {
        Seq::empty()
    } else {
        suite_actions_spec(r, suite.drop_last()) + case_actions_spec(r, suite.last())
    }
}

/// The error gating reports for a case with an ill-formed key.
pub open spec fn case_error_spec(e: ConfigError, c: TestCase) -> bool {
    if !has_dot(c.config@) {
        e matches ConfigError::MalformedKey { key } && key@ == c.config@
    } else {
        e matches ConfigError::UnknownTag { key } && key@ == c.config@
    }
}

impl TestRunner {
    /// Gating alone, for one key of the given tag.  Gating cannot fail; it
    /// only decides skip against run.
    pub fn should_run(&self, config_key: &str, tag: Tag) -> (r: bool)
        ensures
            r == should_run_spec(*self, config_key@, tag),
    {
        contains_str(&self.enabled_configs, config_key) && !(tag == Tag::Jit
            && !self.jit_supported) && !contains_str(&self.skip_tests, config_key)
    }

    /// The gating decision for one key: whether the case runs, is skipped, or
    /// is a configuration error.  A skipped case never reaches any spawned
    /// process.
    pub fn plan_case(&self, case: &TestCase) -> (r: Result<Vec<Action>, ConfigError>)
        ensures
            match r {
                Ok(actions) => case_gate_ok(*case) && actions.deep_view() == case_actions_spec(
                    *self,
                    *case,
                ),
                Err(e) => !case_gate_ok(*case) && case_error_spec(e, *case),
            },
    {
        let parts = split_config_key(case.config.as_str());
        match parts {
            None => Err(ConfigError::MalformedKey { key: case.config.clone() }),
            Some((tag_part, name)) => {
                match parse_tag(tag_part.as_str()) {
                    None => Err(ConfigError::UnknownTag { key: case.config.clone() }),
                    Some(tag) => {
                        let skipped = !self.should_run(case.config.as_str(), tag);
                        let mut actions: Vec<Action> = Vec::new();
                        if skipped {
                            let mut line = String::from_str("[");
                            line.append(tag_label(tag).as_str());
                            line.append("] ");
                            line.append(name.as_str());
                            line.append(" (skipped)");
                            proof {
                                assert(line@ =~= skipped_line_spec(case_tag(*case), case_name(
                                    *case,
                                )));
                            }
                            actions.push(Action::PrintLine { line });
                            proof {
                                assert(actions.deep_view() =~~= case_actions_spec(*self, *case));
                            }
                            Ok(actions)
                        } else {
                            let mut line = String::from_str("[");
                            line.append(tag_label(tag).as_str());
                            line.append("] ");
                            line.append(name.as_str());
                            proof {
                                assert(line@ =~= status_line_spec(case_tag(*case), case_name(
                                    *case,
                                )));
                            }
                            actions.push(Action::BeginGroup { line });
                            let mut steps = self.shape_actions(&case.cmd, name.as_str());
                            actions.append(&mut steps);
                            actions.push(Action::EndGroup);
                            proof {
                                assert(actions.deep_view() =~~= case_actions_spec(*self, *case));
                            }
                            Ok(actions)
                        }
                    },
                }
            },
        }
    }

    /// The actions a running case's shape performs; see `shape_actions_spec`.
    fn shape_actions(&self, cmd: &CommandShape, name: &str) -> (r: Vec<Action>)
        ensures
            r.deep_view() == shape_actions_spec(*self, *cmd, name@),
    {
        let mut actions: Vec<Action> = Vec::new();
        match cmd {
            CommandShape::Custom { action } => {
                actions.push(Action::RunCustom { action: action.clone() });
                proof {
                    assert(actions.deep_view() =~~= shape_actions_spec(*self, *cmd, name@));
                }
            },
            CommandShape::BuildLib { source, crate_types } => {
                let mut extras: Vec<String> = Vec::new();
                extras.push(source.clone());
                extras.push(String::from_str("--crate-type"));
                extras.push(crate_types.clone());
                self.push_cfg_suffix(&mut extras);
                proof {
                    assert(extras.deep_view() =~= compile_extras_spec(*cmd) + cfg_suffix_spec(
                        self.use_unstable_features,
                    ));
                }
                let argv = self.rustc_command(&extras);
                actions.push(Action::RunCommand { argv, jit_args: None });
                proof {
                    assert(actions.deep_view() =~~= shape_actions_spec(*self, *cmd, name@));
                }
            },
            CommandShape::BuildBin { source } => {
                let mut extras: Vec<String> = Vec::new();
                extras.push(source.clone());
                self.push_cfg_suffix(&mut extras);
                proof {
                    assert(extras.deep_view() =~= compile_extras_spec(*cmd) + cfg_suffix_spec(
                        self.use_unstable_features,
                    ));
                }
                let argv = self.rustc_command(&extras);
                actions.push(Action::RunCommand { argv, jit_args: None });
                proof {
                    assert(actions.deep_view() =~~= shape_actions_spec(*self, *cmd, name@));
                }
            },
            CommandShape::BuildBinAndRun { source, args } => {
                let mut extras: Vec<String> = Vec::new();
                extras.push(source.clone());
                self.push_cfg_suffix(&mut extras);
                proof {
                    assert(extras.deep_view() =~= compile_extras_spec(*cmd) + cfg_suffix_spec(
                        self.use_unstable_features,
                    ));
                }
                let argv = self.rustc_command(&extras);
                actions.push(Action::RunCommand { argv, jit_args: None });
                let bin = binary_name_of(source.as_str());
                let run_argv = self.out_command(bin.as_str(), args);
                actions.push(Action::RunCommand { argv: run_argv, jit_args: None });
                proof {
                    assert(actions.deep_view() =~~= shape_actions_spec(*self, *cmd, name@));
                }
            },
            CommandShape::JitBin { source, args } => {
                let eager = self.jit_command(source, "-Cllvm-args=mode=jit");
                actions.push(Action::RunCommand { argv: eager, jit_args: jit_env(args) });
                let mut line = String::from_str("[JIT-lazy] ");
                line.append(name);
                actions.push(Action::PrintLine { line });
                let lazy = self.jit_command(source, "-Cllvm-args=mode=jit-lazy");
                actions.push(Action::RunCommand { argv: lazy, jit_args: jit_env(args) });
                proof {
                    assert(actions.deep_view() =~~= shape_actions_spec(*self, *cmd, name@));
                }
            },
        }
        actions
    }

    /// One JIT-mode compiler invocation for `source` under the given mode
    /// flag.
    fn jit_command(&self, source: &String, mode_flag: &str) -> (r: Vec<String>)
        ensures
            r.deep_view() == base_argv_spec(*self) + jit_extras_spec(mode_flag@, source@),
    {
        let mut extras: Vec<String> = Vec::new();
        extras.push(String::from_str("-Zunstable-options"));
        extras.push(String::from_str(mode_flag));
        extras.push(String::from_str("-Cprefer-dynamic"));
        extras.push(source.clone());
        extras.push(String::from_str("--cfg"));
        extras.push(String::from_str("jit"));
        proof {
            assert(extras.deep_view() =~= jit_extras_spec(mode_flag@, source@));
        }
        self.rustc_command(&extras)
    }

    /// Appends the unstable-features conditional to a compilation's extra
    /// arguments.
    fn push_cfg_suffix(&self, extras: &mut Vec<String>)
        ensures
            final(extras).deep_view() == old(extras).deep_view() + cfg_suffix_spec(
                self.use_unstable_features,
            ),
    {
        if !self.use_unstable_features {
            let ghost before = extras.deep_view();
            extras.push(String::from_str("--cfg"));
            extras.push(String::from_str("no_unstable_features"));
            proof {
                assert(extras.deep_view() =~= before + cfg_suffix_spec(
                    self.use_unstable_features,
                ));
            }
        } else {
            proof {
                assert(extras.deep_view() =~= extras.deep_view() + cfg_suffix_spec(
                    self.use_unstable_features,
                ));
            }
        }
    }

    /// Plans a whole suite: the concatenation, in declared order, of each
    /// case's actions, or the error of the first ill-formed case.
    pub fn run_testsuite(&self, suite: &Vec<TestCase>) -> (r: Result<Vec<Action>, ConfigError>)
        ensures
            match r {
                Ok(actions) => suite_gate_ok(suite@) && actions.deep_view() == suite_actions_spec(
                    *self,
                    suite@,
                ),
                Err(e) => exists|i: int|
                    {
                        &&& 0 <= i < suite@.len()
                        &&& !case_gate_ok(#[trigger] suite@[i])
                        &&& case_error_spec(e, suite@[i])
                        &&& forall|j: int| 0 <= j < i ==> case_gate_ok(#[trigger] suite@[j])
                    },
            },
    {
        let mut actions: Vec<Action> = Vec::new();
        let mut i: usize = 0;
        while i < suite.len()
            invariant
                0 <= i <= suite@.len(),
                forall|j: int| 0 <= j < i ==> case_gate_ok(#[trigger] suite@[j]),
                actions.deep_view() == suite_actions_spec(*self, suite@.take(i as int)),
            decreases suite@.len() - i,
        {
            let planned = self.plan_case(&suite[i]);
            match planned {
                Ok(mut case_actions) => {
                    actions.append(&mut case_actions);
                    proof {
                        assert(suite@.take(i + 1).drop_last() =~= suite@.take(i as int));
                        assert(actions.deep_view() =~~= suite_actions_spec(
                            *self,
                            suite@.take(i + 1),
                        ));
                    }
                },
                Err(e) => {
                    return Err(e);
                },
            }
            i = i + 1;
        }
        proof {
            assert(suite@.take(suite@.len() as int) =~= suite@);
        }
        Ok(actions)
    }
}

/// The JIT program arguments carried through the environment, absent when
/// empty.
fn jit_env(args: &String) -> (r: Option<String>)
    ensures
        match r {
            Some(s) => s@ == args@ && args@.len() != 0,
            None => args@.len() == 0,
        },
{
    if args.as_str().unicode_len() == 0 {
        None
    } else {
        Some(args.clone())
    }
}

} // verus!
