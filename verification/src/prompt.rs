//! The prompt engine: the decision protocol that turns one line of operator
//! input (plus an optional trusted default) into a typed field value, a
//! re-prompt, or a fatal end when the input stream closes.
//!
//! The engine is pure: the surrounding binary shows the prompt text, reads
//! the line and reports rejections; every decision is taken here.

use vstd::prelude::*;

use crate::config::ChainConfig;
use crate::errors::{FatalError, ValidationError};
use crate::validate::{
    chain_of_text, chain_parser, node_name_parser, parsed_size, plot_directory_parser,
    reward_address_parser, size_parser, yes_no_of_text, yes_or_no_parser,
};

verus! {

/// The fields the wizard collects, in the order it collects them.
#[derive(Clone, Copy, Debug, PartialEq, Eq, Structural)]
pub enum Field {
    RewardAddress,
    NodeName,
    PlotDirectory,
    PlotSize,
    Chain,
    ExecutorFlag,
}

/// A typed value produced for one field.
#[derive(Debug, PartialEq)]
pub enum FieldValue {
    Address(String),
    Name(String),
    Directory(String),
    Size(u64),
    ChainChoice(ChainConfig),
    Flag(bool),
}

/// The mathematical value of a [`FieldValue`].
pub enum FieldValueV {
    Address(Seq<char>),
    Name(Seq<char>),
    Directory(Seq<char>),
    Size(u64),
    ChainChoice(ChainConfig),
    Flag(bool),
}

impl View for FieldValue {
    type V = FieldValueV;

    open spec fn view(&self) -> FieldValueV {
        match self {
            FieldValue::Address(s) => FieldValueV::Address(s@),
            FieldValue::Name(s) => FieldValueV::Name(s@),
            FieldValue::Directory(s) => FieldValueV::Directory(s@),
            FieldValue::Size(n) => FieldValueV::Size(*n),
            FieldValue::ChainChoice(c) => FieldValueV::ChainChoice(*c),
            FieldValue::Flag(b) => FieldValueV::Flag(*b),
        }
    }
}

/// What each field's validator says of a text: the typed value it accepts,
/// or the failure it reports.
pub open spec fn validate_spec(f: Field, s: Seq<char>) -> Result<FieldValueV, ValidationError> {
    match f {
        Field::RewardAddress => if crate::config::valid_reward_address(s) {
            Ok(FieldValueV::Address(s))
        } else {
            Err(ValidationError::InvalidRewardAddress)
        },
        Field::NodeName => if crate::config::valid_node_name(s) {
            Ok(FieldValueV::Name(s))
        } else {
            Err(ValidationError::InvalidNodeName)
        },
        Field::PlotDirectory => if s.len() > 0 {
            Ok(FieldValueV::Directory(s))
        } else {
            Err(ValidationError::InvalidPlotDirectory)
        },
        Field::PlotSize => match parsed_size(s) {
            Some(n) => if n > 0 {
                Ok(FieldValueV::Size(n))
            } else {
                Err(ValidationError::InvalidPlotSize)
            },
            None => Err(ValidationError::InvalidPlotSize),
        },
        Field::Chain => match chain_of_text(s) {
            Some(c) => Ok(FieldValueV::ChainChoice(c)),
            None => Err(ValidationError::UnknownChain),
        },
        Field::ExecutorFlag => match yes_no_of_text(s) {
            Some(b) => Ok(FieldValueV::Flag(b)),
            None => Err(ValidationError::InvalidYesNo),
        },
    }
}

/// Runs the selected field's validator on one line of input.
pub fn validate_field(f: Field, s: &str) -> (r: Result<FieldValue, ValidationError>)
    ensures
        (r is Ok) == (validate_spec(f, s@) is Ok),
        r is Ok ==> r->Ok_0@ == validate_spec(f, s@)->Ok_0,
        r is Err ==> r->Err_0 == validate_spec(f, s@)->Err_0,
{
    match f {
        Field::RewardAddress => match reward_address_parser(s) {
            Ok(a) => Ok(FieldValue::Address(a)),
            Err(e) => Err(e),
        },
        Field::NodeName => match node_name_parser(s) {
            Ok(n) => Ok(FieldValue::Name(n)),
            Err(e) => Err(e),
        },
        Field::PlotDirectory => match plot_directory_parser(s) {
            Ok(d) => Ok(FieldValue::Directory(d)),
            Err(e) => Err(e),
        },
        Field::PlotSize => match size_parser(s) {
            Ok(n) => Ok(FieldValue::Size(n)),
            Err(e) => Err(e),
        },
        Field::Chain => match chain_parser(s) {
            Ok(c) => Ok(FieldValue::ChainChoice(c)),
            Err(e) => Err(e),
        },
        Field::ExecutorFlag => match yes_or_no_parser(s) {
            Ok(b) => Ok(FieldValue::Flag(b)),
            Err(e) => Err(e),
        },
    }
}

/// What the engine does with one line of input.
#[derive(Debug, PartialEq)]
pub enum PromptOutcome {
    /// A typed value was obtained; the wizard moves to the next field.
    Accepted(FieldValue),
    /// The line failed validation; the same field is prompted again.
    Rejected(ValidationError),
}

/// The mathematical value of a [`PromptOutcome`].
pub enum PromptOutcomeV {
    Accepted(FieldValueV),
    Rejected(ValidationError),
}

impl View for PromptOutcome {
    type V = PromptOutcomeV;

    open spec fn view(&self) -> PromptOutcomeV {
        match self {
            PromptOutcome::Accepted(v) => PromptOutcomeV::Accepted(v@),
            PromptOutcome::Rejected(e) => PromptOutcomeV::Rejected(*e),
        }
    }
}

/// The mathematical value of an optional borrowed default.
pub open spec fn default_view(d: Option<&FieldValue>) -> Option<FieldValueV> {
    match d {
        Some(v) => Some(v@),
        None => None,
    }
}

/// The mathematical value of an optional owned default.
pub open spec fn opt_view(d: Option<FieldValue>) -> Option<FieldValueV> {
    match d {
        Some(v) => Some(v@),
        None => None,
    }
}

/// The engine's decision on one line: empty input takes the default where
/// one exists — without consulting the validator — and anything else is
/// validated.
pub open spec fn prompt_step_spec(f: Field, line: Seq<char>, default: Option<FieldValueV>) -> PromptOutcomeV {
    if line.len() == 0 && default is Some {
        PromptOutcomeV::Accepted(default->Some_0)
    } else {
        match validate_spec(f, line) {
            Ok(v) => PromptOutcomeV::Accepted(v),
            Err(e) => PromptOutcomeV::Rejected(e),
        }
    }
}

/// Copies a field value; the copy denotes the same mathematical value.
fn dup(v: &FieldValue) -> (r: FieldValue)
    ensures
        r@ == v@,
{
    match v {
        FieldValue::Address(s) => FieldValue::Address(s.clone()),
        FieldValue::Name(s) => FieldValue::Name(s.clone()),
        FieldValue::Directory(s) => FieldValue::Directory(s.clone()),
        FieldValue::Size(n) => FieldValue::Size(*n),
        FieldValue::ChainChoice(c) => FieldValue::ChainChoice(*c),
        FieldValue::Flag(b) => FieldValue::Flag(*b),
    }
}

/// Decides what one line of operator input yields for a field: the default
/// on empty input where a default exists, the validated value, or a
/// rejection that asks for the field again.
pub fn prompt_step(f: Field, line: &str, default: Option<&FieldValue>) -> (r: PromptOutcome)
    ensures
        r@ == prompt_step_spec(f, line@, default_view(default)),
{
    if line.unicode_len() == 0 {
        if let Some(d) = default {
            return PromptOutcome::Accepted(dup(d));
        }
    }
    match validate_field(f, line) {
        Ok(v) => PromptOutcome::Accepted(v),
        Err(e) => PromptOutcome::Rejected(e),
    }
}

/// The outcome of prompting one field against a stream of input lines,
/// starting at line `i`: the first line that yields a value settles the
/// field, every rejected line is answered with a re-prompt, and a stream
/// that ends first is a fatal failure.
pub open spec fn collect_spec(
    f: Field,
    lines: Seq<Seq<char>>,
    i: int,
    default: Option<FieldValueV>,
) -> Result<(FieldValueV, int), FatalError>
    decreases lines.len() - i,
{
    if i < 0 || i >= lines.len() {
        Err(FatalError::InputStreamClosed)
    } else {
        match prompt_step_spec(f, lines[i], default) {
            PromptOutcomeV::Accepted(v) => Ok((v, i + 1)),
            PromptOutcomeV::Rejected(_) => collect_spec(f, lines, i + 1, default),
        }
    }
}

/// Prompts one field against the input lines from position `start` on,
/// re-prompting on every rejected line, exactly as [`collect_spec`] says.
pub fn collect_field(f: Field, lines: &Vec<String>, start: usize, default: Option<FieldValue>) -> (r: Result<
    (FieldValue, usize),
    FatalError,
>)
    ensures
        (r is Ok) == (collect_spec(f, lines.deep_view(), start as int, opt_view(default)) is Ok),
        r is Ok ==> r->Ok_0.0@ == collect_spec(
            f,
            lines.deep_view(),
            start as int,
            opt_view(default),
        )->Ok_0.0,
        r is Ok ==> r->Ok_0.1 as int == collect_spec(
            f,
            lines.deep_view(),
            start as int,
            opt_view(default),
        )->Ok_0.1,
        r is Err ==> r->Err_0 == FatalError::InputStreamClosed,
        r is Err ==> collect_spec(f, lines.deep_view(), start as int, opt_view(default))
            == Err::<(FieldValueV, int), FatalError>(FatalError::InputStreamClosed),
{
    let ghost l: Seq<Seq<char>> = lines.deep_view();
    let ghost dv: Option<FieldValueV> = opt_view(default);
    if start > lines.len() {
        return Err(FatalError::InputStreamClosed);
    }
    let mut i: usize = start;
    while i < lines.len()
        invariant
            l == lines.deep_view(),
            dv == opt_view(default),
            start <= i <= lines.len(),
            collect_spec(f, l, start as int, dv) == collect_spec(f, l, i as int, dv),
        decreases lines.len() - i,
    {
        let line: &String = &lines[i];
        assert(line@ == l[i as int]);
        let d_ref: Option<&FieldValue> = default.as_ref();
        assert(default_view(d_ref) == dv);
        match prompt_step(f, line.as_str(), d_ref) {
            PromptOutcome::Accepted(v) => {
                return Ok((v, i + 1));
            },
            PromptOutcome::Rejected(_) => {
                i += 1;
            },
        }
    }
    Err(FatalError::InputStreamClosed)
}

/// What is known of any value the engine can settle a field with: it
/// belongs to the field, and — where it came through the validator — it
/// meets the validator's guarantee. A default bypasses validation, so only
/// the guarantees that hold of the wizard's fixed defaults appear here.
pub open spec fn sound_value(f: Field, v: FieldValueV) -> bool {
    match f {
        Field::RewardAddress => v matches FieldValueV::Address(a)
            && crate::config::valid_reward_address(a),
        Field::NodeName => v is Name,
        Field::PlotDirectory => v is Directory,
        Field::PlotSize => v matches FieldValueV::Size(n) && n > 0,
        Field::Chain => v is ChainChoice,
        Field::ExecutorFlag => v is Flag,
    }
}

/// A value collected for a field is sound for that field, provided any
/// default supplied for the field is.
pub proof fn lemma_collect_sound(
    f: Field,
    lines: Seq<Seq<char>>,
    i: int,
    default: Option<FieldValueV>,
)
    requires
        default is Some ==> sound_value(f, default->Some_0),
    ensures
        collect_spec(f, lines, i, default) is Ok ==> sound_value(
            f,
            collect_spec(f, lines, i, default)->Ok_0.0,
        ),
    decreases lines.len() - i,
{
    if 0 <= i < lines.len() {
        match prompt_step_spec(f, lines[i], default) {
            PromptOutcomeV::Accepted(_) => {},
            PromptOutcomeV::Rejected(_) => {
                lemma_collect_sound(f, lines, i + 1, default);
            },
        }
    }
}

/// Law: submitting empty input where a default exists returns exactly the
/// default, and the validator is never consulted — a default the validator
/// would reject is still accepted as given.
pub proof fn lemma_default_bypasses_validation(f: Field, line: Seq<char>, d: FieldValueV)
    requires
        line.len() == 0,
    ensures
        prompt_step_spec(f, line, Some(d)) == PromptOutcomeV::Accepted(d),
{
}

/// Law: one invalid line followed by one valid line yields exactly the
/// valid line's value, after one re-prompt. The engine keeps no state for a
/// field, so the failed attempt leaves nothing behind: the outcome is
/// settled by the valid line alone.
pub proof fn lemma_reprompt_on_failure(f: Field, bad: Seq<char>, good: Seq<char>)
    requires
        validate_spec(f, bad) is Err,
        validate_spec(f, good) is Ok,
    ensures
        collect_spec(f, seq![bad, good], 0, None) == Ok::<(FieldValueV, int), FatalError>(
            (validate_spec(f, good)->Ok_0, 2),
        ),
{
    let l = seq![bad, good];
    assert(l[0] == bad && l[1] == good);
    assert(prompt_step_spec(f, bad, None) == PromptOutcomeV::Rejected(validate_spec(f, bad)->Err_0));
    assert(collect_spec(f, l, 1, None) == Ok::<(FieldValueV, int), FatalError>(
        (validate_spec(f, good)->Ok_0, 2),
    ));
}

} // verus!
