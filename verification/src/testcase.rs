//! The declarative test-case model: execution-mode tags, command shapes, and
//! the test cases a suite is made of.

use vstd::prelude::*;

use crate::strings::after_first_dot;
use crate::strings::before_first_dot;
use crate::strings::has_dot;
use crate::strings::lemma_before_first_dot_is_prefix;
use crate::strings::str_eq;

verus! {

/// Execution-mode class of a test case, named by the first part of its dotted
/// configuration key.
#[derive(PartialEq, Eq, Structural, Clone, Copy, Debug)]
pub enum Tag {
    Build,
    Aot,
    Jit,
    Test,
}

/// The tag a key's first part denotes, if it is one of the recognized four.
pub open spec fn tag_of(s: Seq<char>) -> Option<Tag> {
    if s == "build"@ {
        Some(Tag::Build)
    } else if s == "aot"@ {
        Some(Tag::Aot)
    } else if s == "jit"@ {
        Some(Tag::Jit)
    } else if s == "test"@ {
        Some(Tag::Test)
    } else {
        None
    }
}

/// Parses the first part of a configuration key into its tag.
pub fn parse_tag(s: &str) -> (r: Option<Tag>)
    ensures
        r == tag_of(s@),
{
    if str_eq(s, "build") {
        Some(Tag::Build)
    } else if str_eq(s, "aot") {
        Some(Tag::Aot)
    } else if str_eq(s, "jit") {
        Some(Tag::Jit)
    } else if str_eq(s, "test") {
        Some(Tag::Test)
    } else {
        None
    }
}

/// The display form of a tag, used in status lines.
pub open spec fn tag_label_spec(t: Tag) -> Seq<char> {
    match t {
        Tag::Build => "BUILD"@,
        Tag::Aot => "AOT"@,
        Tag::Jit => "JIT"@,
        Tag::Test => "TEST"@,
    }
}

/// Renders a tag as it appears in status lines.
pub fn tag_label(t: Tag) -> (r: String)
    ensures
        r@ == tag_label_spec(t),
{
    match t {
        Tag::Build => String::from_str("BUILD"),
        Tag::Aot => String::from_str("AOT"),
        Tag::Jit => String::from_str("JIT"),
        Tag::Test => String::from_str("TEST"),
    }
}

/// The tagged command shape of a test case.  `Custom` carries an opaque
/// action name that the driver resolves to a multi-step operation; the other
/// shapes are fully declarative.
#[derive(PartialEq, Eq, Debug)]
#[allow(inconsistent_fields)]
pub enum CommandShape {
    Custom { action: String },
    BuildLib { source: String, crate_types: String },
    BuildBin { source: String },
    BuildBinAndRun { source: String, args: Vec<String> },
    JitBin { source: String, args: String },
}

/// One unit of validation: a dotted configuration key and a command shape.
#[derive(PartialEq, Eq, Debug)]
pub struct TestCase {
    pub config: String,
    pub cmd: CommandShape,
}

/// The case's key has a '.' and its first part is a recognized tag.
pub open spec fn case_gate_ok(c: TestCase) -> bool {
    has_dot(c.config@) && tag_of(before_first_dot(c.config@)) is Some
}

/// The tag of a well-formed case.
pub open spec fn case_tag(c: TestCase) -> Tag {
    tag_of(before_first_dot(c.config@)).unwrap()
}

/// The display name of a case: its key after the first '.'.
pub open spec fn case_name(c: TestCase) -> Seq<char> {
    after_first_dot(c.config@)
}

/// A key whose first '.' stands at `d`, with a recognized tag before it,
/// passes gating's well-formedness check.
pub proof fn lemma_key_well_formed(s: Seq<char>, d: int)
    requires
        0 <= d < s.len(),
        s[d] == '.',
        forall|j: int| 0 <= j < d ==> s[j] != '.',
        tag_of(s.subrange(0, d)) is Some,
    ensures
        has_dot(s),
        before_first_dot(s) == s.subrange(0, d),
        tag_of(before_first_dot(s)) is Some,
{
    lemma_before_first_dot_is_prefix(s, d);
}

impl TestCase {
    /// A case whose behavior is an opaque action the driver carries out.
    pub fn custom(config: &str, action: &str) -> (r: Self)
        ensures
            r.config@ == config@,
            r.cmd matches CommandShape::Custom { action: a } && a@ == action@,
    {
        Self { config: String::from_str(config), cmd: CommandShape::Custom { action: String::from_str(action) } }
    }

    /// A case that compiles a library source file to the given crate kinds.
    pub fn build_lib(config: &str, source: &str, crate_types: &str) -> (r: Self)
        ensures
            r.config@ == config@,
            r.cmd matches CommandShape::BuildLib { source: s, crate_types: t } && s@ == source@
                && t@ == crate_types@,
    {
        Self {
            config: String::from_str(config),
            cmd: CommandShape::BuildLib {
                source: String::from_str(source),
                crate_types: String::from_str(crate_types),
            },
        }
    }

    /// A case that compiles an executable without running it.
    pub fn build_bin(config: &str, source: &str) -> (r: Self)
        ensures
            r.config@ == config@,
            r.cmd matches CommandShape::BuildBin { source: s } && s@ == source@,
    {
        Self {
            config: String::from_str(config),
            cmd: CommandShape::BuildBin { source: String::from_str(source) },
        }
    }

    /// A case that compiles an executable and then runs it with the given
    /// arguments.
    pub fn build_bin_and_run(config: &str, source: &str, args: &Vec<String>) -> (r: Self)
        ensures
            r.config@ == config@,
            r.cmd matches CommandShape::BuildBinAndRun { source: s, args: a } && s@ == source@
                && a.deep_view() == args.deep_view(),
    {
        let mut own_args: Vec<String> = Vec::new();
        crate::strings::append_all(&mut own_args, args);
        Self {
            config: String::from_str(config),
            cmd: CommandShape::BuildBinAndRun {
                source: String::from_str(source),
                args: own_args,
            },
        }
    }

    /// A case that runs the compiler in just-in-time mode, eager and lazy,
    /// passing `args` to the program through the environment.
    pub fn jit_bin(config: &str, source: &str, args: &str) -> (r: Self)
        ensures
            r.config@ == config@,
            r.cmd matches CommandShape::JitBin { source: s, args: a } && s@ == source@ && a@
                == args@,
    {
        Self {
            config: String::from_str(config),
            cmd: CommandShape::JitBin {
                source: String::from_str(source),
                args: String::from_str(args),
            },
        }
    }
}

} // verus!
