//! The command-line argument parser: a raw token list is turned into a
//! validated command request under a flag-grouping grammar.
//!
//! A flag group is an option token (a token starting with `-`) followed by
//! the run of non-option tokens up to the next option token or the end of
//! the input. Each required flag of a command is scanned for independently,
//! from the start of the token list, so flag order is irrelevant and the
//! first occurrence of a flag wins. Per-command arity violations (too many
//! values for a single-valued flag) are fatal outcomes rather than
//! recoverable parse errors.

use vstd::prelude::*;
use vstd::string::StrSliceExecFns;
use crate::text::str_eq;

verus! {

/// A validated command request, one case per supported command.
#[derive(Debug)]
pub enum Command {
    Generate { input: String, output: String },
    Concatenate { inputs: Vec<String>, output: String },
    Expand { input: String, output: String },
    Summarize { inputs: Vec<String> },
    Version,
    Help,
}

/// The recoverable parse errors; the caller decides how to report them.
#[derive(Debug)]
pub enum ParseError {
    NoArguments,
    InvalidCommand(String),
    NoParameters(String),
    MissingInput,
    MissingOutput,
    MissingUnknown(String),
}

/// An arity violation: a fatal, user-facing outcome, not a recoverable
/// parse error.
#[derive(Debug, Clone, Copy, PartialEq, Eq, Structural)]
pub enum ArityError {
    MultipleInputs,
    MultipleOutputs,
}

/// Everything parsing can decide: a request, a recoverable error, or a
/// fatal arity violation that the caller must turn into termination.
#[derive(Debug)]
pub enum ParseOutcome {
    Parsed(Command),
    Rejected(ParseError),
    Fatal(ArityError),
}

/// The mathematical shape of a command request: every path is a character
/// sequence.
#[verifier::ext_equal]
pub enum CommandModel {
    Generate { input: Seq<char>, output: Seq<char> },
    Concatenate { inputs: Seq<Seq<char>>, output: Seq<char> },
    Expand { input: Seq<char>, output: Seq<char> },
    Summarize { inputs: Seq<Seq<char>> },
    Version,
    Help,
}

#[verifier::ext_equal]
pub enum ParseErrorModel {
    NoArguments,
    InvalidCommand(Seq<char>),
    NoParameters(Seq<char>),
    MissingInput,
    MissingOutput,
    MissingUnknown(Seq<char>),
}

#[verifier::ext_equal]
pub enum OutcomeModel {
    Parsed(CommandModel),
    Rejected(ParseErrorModel),
    Fatal(ArityError),
}

/// The character sequences of a list of string tokens.
pub open spec fn toks(args: Seq<String>) -> Seq<Seq<char>> {
    Seq::new(args.len(), |i: int| args[i]@)
}

impl View for Command {
    type V = CommandModel;

    open spec fn view(&self) -> CommandModel {
        match self {
            Command::Generate { input, output } => CommandModel::Generate {
                input: input@,
                output: output@,
            },
            Command::Concatenate { inputs, output } => CommandModel::Concatenate {
                inputs: toks(inputs@),
                output: output@,
            },
            Command::Expand { input, output } => CommandModel::Expand {
                input: input@,
                output: output@,
            },
            Command::Summarize { inputs } => CommandModel::Summarize { inputs: toks(inputs@) },
            Command::Version => CommandModel::Version,
            Command::Help => CommandModel::Help,
        }
    }
}

impl View for ParseError {
    type V = ParseErrorModel;

    open spec fn view(&self) -> ParseErrorModel {
        match self {
            ParseError::NoArguments => ParseErrorModel::NoArguments,
            ParseError::InvalidCommand(s) => ParseErrorModel::InvalidCommand(s@),
            ParseError::NoParameters(s) => ParseErrorModel::NoParameters(s@),
            ParseError::MissingInput => ParseErrorModel::MissingInput,
            ParseError::MissingOutput => ParseErrorModel::MissingOutput,
            ParseError::MissingUnknown(s) => ParseErrorModel::MissingUnknown(s@),
        }
    }
}

impl View for ParseOutcome {
    type V = OutcomeModel;

    open spec fn view(&self) -> OutcomeModel {
        match self {
            ParseOutcome::Parsed(c) => OutcomeModel::Parsed(c@),
            ParseOutcome::Rejected(e) => OutcomeModel::Rejected(e@),
            ParseOutcome::Fatal(a) => OutcomeModel::Fatal(*a),
        }
    }
}

/// A token opens a flag group when it starts with the option prefix `-`.
pub open spec fn is_option_token(tok: Seq<char>) -> bool {
    tok.len() > 0 && tok[0] == '-'
}

/// The first index at or after `from` whose token equals `flag`, or the
/// length of the list when the flag never occurs.
pub open spec fn flag_position(t: Seq<Seq<char>>, flag: Seq<char>, from: int) -> int
    decreases t.len() - from,
{
    if from >= t.len() {
        t.len() as int
    } else if t[from] == flag {
        from
    } else {
        flag_position(t, flag, from + 1)
    }
}

/// The end of the value run that starts at `from`: the first index at or
/// after `from` holding an option token, or the length of the list.
pub open spec fn run_end(t: Seq<Seq<char>>, from: int) -> int
    decreases t.len() - from,
{
    if from >= t.len() {
        from
    } else if is_option_token(t[from]) {
        from
    } else {
        run_end(t, from + 1)
    }
}

/// The missing-option error specialized per known flag spelling.
pub open spec fn missing_model(flag: Seq<char>) -> ParseErrorModel {
    if flag == "-i"@ {
        ParseErrorModel::MissingInput
    } else if flag == "-o"@ {
        ParseErrorModel::MissingOutput
    } else {
        ParseErrorModel::MissingUnknown(flag)
    }
}

/// What scanning the token list for one flag returns: the flag's value run,
/// or the error that the scan fails with.
pub open spec fn params_spec(t: Seq<Seq<char>>, flag: Seq<char>) -> Result<
    Seq<Seq<char>>,
    ParseErrorModel,
> {
    let a = flag_position(t, flag, 2);
    if a == t.len() {
        Err(missing_model(flag))
    } else {
        let e = run_end(t, a + 1);
        if e == a + 1 {
            Err(ParseErrorModel::NoParameters(flag))
        } else {
            Ok(t.subrange(a + 1, e))
        }
    }
}

/// The complete outcome of parsing a token list.
pub open spec fn parse_total_spec(t: Seq<Seq<char>>) -> OutcomeModel {
    if t.len() < 2 {
        OutcomeModel::Rejected(ParseErrorModel::NoArguments)
    } else if t[1] == "generate"@ || t[1] == "gen"@ {
        match params_spec(t, "-i"@) {
            Err(e) => OutcomeModel::Rejected(e),
            Ok(ins) => match params_spec(t, "-o"@) {
                Err(e) => OutcomeModel::Rejected(e),
                Ok(outs) => if ins.len() != 1 {
                    OutcomeModel::Fatal(ArityError::MultipleInputs)
                } else if outs.len() != 1 {
                    OutcomeModel::Fatal(ArityError::MultipleOutputs)
                } else {
                    OutcomeModel::Parsed(
                        CommandModel::Generate { input: ins[0], output: outs[0] },
                    )
                },
            },
        }
    } else if t[1] == "concatenate"@ || t[1] == "concat"@ {
        match params_spec(t, "-i"@) {
            Err(e) => OutcomeModel::Rejected(e),
            Ok(ins) => match params_spec(t, "-o"@) {
                Err(e) => OutcomeModel::Rejected(e),
                Ok(outs) => if outs.len() != 1 {
                    OutcomeModel::Fatal(ArityError::MultipleOutputs)
                } else {
                    OutcomeModel::Parsed(
                        CommandModel::Concatenate { inputs: ins, output: outs[0] },
                    )
                },
            },
        }
    } else if t[1] == "expand"@ || t[1] == "exp"@ {
        match params_spec(t, "-i"@) {
            Err(e) => OutcomeModel::Rejected(e),
            Ok(ins) => match params_spec(t, "-o"@) {
                Err(e) => OutcomeModel::Rejected(e),
                Ok(outs) => if ins.len() != 1 {
                    OutcomeModel::Fatal(ArityError::MultipleInputs)
                } else if outs.len() != 1 {
                    OutcomeModel::Fatal(ArityError::MultipleOutputs)
                } else {
                    OutcomeModel::Parsed(
                        CommandModel::Expand { input: ins[0], output: outs[0] },
                    )
                },
            },
        }
    } else if t[1] == "summarize"@ {
        match params_spec(t, "-i"@) {
            Err(e) => OutcomeModel::Rejected(e),
            Ok(ins) => OutcomeModel::Parsed(CommandModel::Summarize { inputs: ins }),
        }
    } else if t[1] == "version"@ {
        OutcomeModel::Parsed(CommandModel::Version)
    } else if t[1] == "help"@ {
        OutcomeModel::Parsed(CommandModel::Help)
    } else {
        OutcomeModel::Rejected(ParseErrorModel::InvalidCommand(t[1]))
    }
}

/// Whether parsing this token list is an arity violation, which the
/// command-line front end treats as fatal.
pub open spec fn spec_parse_fatal(t: Seq<Seq<char>>) -> bool {
    parse_total_spec(t) matches OutcomeModel::Fatal(_)
}

impl ParseError {
    /// The missing-option error for a flag spelling: specialized for the
    /// known input and output flags, `MissingUnknown` for any other.
    pub fn missing_option(option: &str) -> (r: Self)
        ensures
            r@ == missing_model(option@),
    {
        if str_eq(option, "-i") {
            ParseError::MissingInput
        } else if str_eq(option, "-o") {
            ParseError::MissingOutput
        } else {
            ParseError::MissingUnknown(option.to_owned())
        }
    }
}

/// Whether a token opens a flag group.
fn is_option_arg(s: &str) -> (r: bool)
    ensures
        r == is_option_token(s@),
{
    if s.unicode_len() == 0 {
        false
    } else {
        s.get_char(0) == '-'
    }
}

/// The end of the value run beginning at `start`.
fn value_run_end(args: &Vec<String>, start: usize) -> (e: usize)
    requires
        start <= args@.len(),
    ensures
        e == run_end(toks(args@), start as int),
        start <= e <= args@.len(),
{
    let n = args.len();
    let mut k = start;
    loop
        invariant
            start <= k <= n,
            n == args@.len(),
            run_end(toks(args@), start as int) == run_end(toks(args@), k as int),
        decreases n - k,
    {
        if k == n {
            return k;
        }
        if is_option_arg(args[k].as_str()) {
            proof {
                assert(toks(args@)[k as int] == args@[k as int]@);
            }
            return k;
        }
        proof {
            assert(toks(args@)[k as int] == args@[k as int]@);
        }
        k = k + 1;
    }
}

/// Scan the argument tokens for the first occurrence of `option` and
/// collect its value run. The scan starts after the program and command
/// names; a missing flag and an empty value run each fail with the
/// corresponding parse error.
pub fn get_params(args: &Vec<String>, option: &str) -> (r: Result<Vec<String>, ParseError>)
    ensures
        match r {
            Ok(ps) => params_spec(toks(args@), option@) == Ok::<Seq<Seq<char>>, ParseErrorModel>(
                toks(ps@),
            ) && ps@.len() > 0,
            Err(e) => params_spec(toks(args@), option@) == Err::<Seq<Seq<char>>, ParseErrorModel>(
                e@,
            ),
        },
{
    let n = args.len();
    let mut a: usize = 2;
    while a < n
        invariant
            n == args@.len(),
            2 <= a,
            a <= n || a == 2,
            flag_position(toks(args@), option@, 2) == flag_position(toks(args@), option@, a as int),
        decreases n - a,
    {
        proof {
            assert(toks(args@)[a as int] == args@[a as int]@);
        }
        if str_eq(args[a].as_str(), option) {
            let param_start = a + 1;
            let param_end = value_run_end(args, param_start);
            if param_end == param_start {
                return Err(ParseError::NoParameters(option.to_owned()));
            }
            let mut params: Vec<String> = Vec::new();
            let mut k = param_start;
            while k < param_end
                invariant
                    param_start <= k <= param_end,
                    param_end <= n,
                    n == args@.len(),
                    params@.len() == k - param_start,
                    forall|j: int|
                        0 <= j < params@.len() ==> params@[j]@ == args@[param_start + j]@,
                decreases param_end - k,
            {
                params.push(args[k].clone());
                k = k + 1;
            }
            proof {
                assert forall|i: int| 0 <= i < params@.len() implies toks(params@)[i] == toks(
                    args@,
                ).subrange(param_start as int, param_end as int)[i] by {
                    assert(toks(params@)[i] == params@[i]@);
                    assert(toks(args@)[param_start + i] == args@[param_start + i]@);
                }
                assert(toks(params@) =~= toks(args@).subrange(
                    param_start as int,
                    param_end as int,
                ));
            }
            return Ok(params);
        }
        a = a + 1;
    }
    Err(ParseError::missing_option(option))
}

/// Parse a raw token list into the complete outcome: a command request, a
/// recoverable parse error, or a fatal arity violation.
pub fn parse_tokens(args: &Vec<String>) -> (r: ParseOutcome)
    ensures
        r@ == parse_total_spec(toks(args@)),
{
    if args.len() < 2 {
        return ParseOutcome::Rejected(ParseError::NoArguments);
    }
    proof {
        assert(toks(args@)[1] == args@[1]@);
    }
    let cmd = args[1].as_str();
    if str_eq(cmd, "generate") || str_eq(cmd, "gen") {
        let inputs = match get_params(args, "-i") {
            Ok(v) => v,
            Err(e) => return ParseOutcome::Rejected(e),
        };
        let outputs = match get_params(args, "-o") {
            Ok(v) => v,
            Err(e) => return ParseOutcome::Rejected(e),
        };
        if inputs.len() != 1 {
            return ParseOutcome::Fatal(ArityError::MultipleInputs);
        }
        if outputs.len() != 1 {
            return ParseOutcome::Fatal(ArityError::MultipleOutputs);
        }
        ParseOutcome::Parsed(
            Command::Generate { input: inputs[0].clone(), output: outputs[0].clone() },
        )
    } else if str_eq(cmd, "concatenate") || str_eq(cmd, "concat") {
        let inputs = match get_params(args, "-i") {
            Ok(v) => v,
            Err(e) => return ParseOutcome::Rejected(e),
        };
        let outputs = match get_params(args, "-o") {
            Ok(v) => v,
            Err(e) => return ParseOutcome::Rejected(e),
        };
        if outputs.len() != 1 {
            return ParseOutcome::Fatal(ArityError::MultipleOutputs);
        }
        ParseOutcome::Parsed(
            Command::Concatenate { inputs, output: outputs[0].clone() },
        )
    } else if str_eq(cmd, "expand") || str_eq(cmd, "exp") {
        let inputs = match get_params(args, "-i") {
            Ok(v) => v,
            Err(e) => return ParseOutcome::Rejected(e),
        };
        let outputs = match get_params(args, "-o") {
            Ok(v) => v,
            Err(e) => return ParseOutcome::Rejected(e),
        };
        if inputs.len() != 1 {
            return ParseOutcome::Fatal(ArityError::MultipleInputs);
        }
        if outputs.len() != 1 {
            return ParseOutcome::Fatal(ArityError::MultipleOutputs);
        }
        ParseOutcome::Parsed(
            Command::Expand { input: inputs[0].clone(), output: outputs[0].clone() },
        )
    } else if str_eq(cmd, "summarize") {
        let inputs = match get_params(args, "-i") {
            Ok(v) => v,
            Err(e) => return ParseOutcome::Rejected(e),
        };
        ParseOutcome::Parsed(Command::Summarize { inputs })
    } else if str_eq(cmd, "version") {
        ParseOutcome::Parsed(Command::Version)
    } else if str_eq(cmd, "help") {
        ParseOutcome::Parsed(Command::Help)
    } else {
        ParseOutcome::Rejected(ParseError::InvalidCommand(args[1].clone()))
    }
}

/// Parse a raw token list into a command request or a recoverable parse
/// error. Arity violations are fatal and excluded by the precondition; the
/// command-line front end tests for them with `parse_tokens` and terminates
/// instead of calling this function.
pub fn parse_arguments(args: Vec<String>) -> (r: Result<Command, ParseError>)
    requires
        !spec_parse_fatal(toks(args@)),
    ensures
        match r {
            Ok(c) => parse_total_spec(toks(args@)) == OutcomeModel::Parsed(c@),
            Err(e) => parse_total_spec(toks(args@)) == OutcomeModel::Rejected(e@),
        },
{
    match parse_tokens(&args) {
        ParseOutcome::Parsed(c) => Ok(c),
        ParseOutcome::Rejected(e) => Err(e),
        ParseOutcome::Fatal(_) => vstd::pervasive::unreached(),
    }
}

/// Every token list of fewer than two tokens (no command name was given)
/// is rejected with `NoArguments`.
pub proof fn lemma_short_input_rejected(t: Seq<Seq<char>>)
    requires
        t.len() < 2,
    ensures
        parse_total_spec(t) == OutcomeModel::Rejected(ParseErrorModel::NoArguments),
{
}

proof fn lemma_flag_position_absent(t: Seq<Seq<char>>, flag: Seq<char>, from: int)
    requires
        forall|k: int| from <= k < t.len() ==> t[k] != flag,
    ensures
        flag_position(t, flag, from) == t.len(),
    decreases t.len() - from,
{
    if from < t.len() {
        lemma_flag_position_absent(t, flag, from + 1);
    }
}

/// A flag spelling other than the input and output flags that never occurs
/// among the argument tokens is reported as `MissingUnknown` carrying that
/// exact spelling.
pub proof fn lemma_unknown_flag_missing(t: Seq<Seq<char>>, flag: Seq<char>)
    requires
        flag != "-i"@,
        flag != "-o"@,
        forall|k: int| 2 <= k < t.len() ==> t[k] != flag,
    ensures
        params_spec(t, flag) == Err::<Seq<Seq<char>>, ParseErrorModel>(
            ParseErrorModel::MissingUnknown(flag),
        ),
{
    lemma_flag_position_absent(t, flag, 2);
}

/// A flag whose first occurrence is immediately followed by another option
/// token, or stands last, has an empty value run: scanning for it yields
/// `NoParameters` carrying the flag.
pub proof fn lemma_empty_run_no_parameters(t: Seq<Seq<char>>, flag: Seq<char>)
    requires
        flag_position(t, flag, 2) < t.len(),
        flag_position(t, flag, 2) + 1 == t.len() || is_option_token(
            t[flag_position(t, flag, 2) + 1],
        ),
    ensures
        params_spec(t, flag) == Err::<Seq<Seq<char>>, ParseErrorModel>(
            ParseErrorModel::NoParameters(flag),
        ),
{
}

/// Flag order is irrelevant: two token lists that name the same command and
/// agree on the scan result of the input flag and of the output flag parse
/// to the same outcome.
pub proof fn lemma_flag_order_irrelevant(t1: Seq<Seq<char>>, t2: Seq<Seq<char>>)
    requires
        t1.len() >= 2,
        t2.len() >= 2,
        t1[1] == t2[1],
        params_spec(t1, "-i"@) == params_spec(t2, "-i"@),
        params_spec(t1, "-o"@) == params_spec(t2, "-o"@),
    ensures
        parse_total_spec(t1) == parse_total_spec(t2),
{
}

/// The generate command requires exactly one input value and one output
/// value: more than one of either is a fatal arity violation, and exactly
/// one of each parses to the corresponding request.
pub proof fn lemma_generate_arity(t: Seq<Seq<char>>, ins: Seq<Seq<char>>, outs: Seq<Seq<char>>)
    requires
        t.len() >= 2,
        t[1] == "generate"@ || t[1] == "gen"@,
        params_spec(t, "-i"@) == Ok::<Seq<Seq<char>>, ParseErrorModel>(ins),
        params_spec(t, "-o"@) == Ok::<Seq<Seq<char>>, ParseErrorModel>(outs),
    ensures
        ins.len() > 1 ==> parse_total_spec(t) == OutcomeModel::Fatal(ArityError::MultipleInputs),
        ins.len() == 1 && outs.len() != 1 ==> parse_total_spec(t) == OutcomeModel::Fatal(
            ArityError::MultipleOutputs,
        ),
        ins.len() == 1 && outs.len() == 1 ==> parse_total_spec(t) == OutcomeModel::Parsed(
            CommandModel::Generate { input: ins[0], output: outs[0] },
        ),
{
}

} // verus!
