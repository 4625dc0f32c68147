//! The border to an external classifier.
//!
//! The library never starts a process. It says how a classifier is to be
//! invoked, and it takes what was observed of the invocation: how the
//! process ended, how long it took, and what it wrote.

use crate::config::ProgramConfig;
use crate::config::ProgramResult;
use crate::error::EvalError;
use crate::error::ToolExit;
use crate::fastq::fastq_heads;
use crate::fastq::IdentifierRule;
use crate::fastq::lemma_head_failures;
use crate::fastq::parse;
use crate::fastq::stream_calls;
use crate::orientation::ReadOrientation;
use crate::paf::index_of;
use crate::paf::PafReads;
use crate::score::AccuracyResultExact;
use crate::score::counts_of;
use vstd::prelude::*;

verus! {

/// The program that an invocation starts.
#[derive(Clone, Copy, Debug, PartialEq, Eq, Structural)]
pub enum Tool {
    /// Restrander itself.
    Restrander,
    /// The environment manager through which Pychopper runs.
    Conda,
}

/// How to invoke a classifier: the program and its arguments, in order.
#[derive(Debug)]
pub struct Invocation {
    pub tool: Tool,
    pub arguments: Vec<String>,
}

/// What was observed of one invocation.
#[derive(Debug)]
pub struct ToolRun {
    /// How the process ended.
    pub exit: ToolExit,
    /// The wall-clock time it took, in whole seconds.
    pub duration: u64,
    /// The bytes of the output file, or `None` where it could not be read.
    pub output: Option<Vec<u8>>,
}

/// The output of an invocation: a process that did not exit with code 0 is
/// an `ExternalToolFailure` with its exit status, whatever it wrote; a
/// process that did but left no readable output is an `UnreadableRecord`.
pub open spec fn output_of(finished: ToolRun) -> Result<Seq<u8>, EvalError> {
    if !finished.exit.is_success() {
        Err(EvalError::ExternalToolFailure(finished.exit))
    } else {
        match finished.output {
            None => Err(EvalError::UnreadableRecord),
            Some(bytes) => Ok(bytes@),
        }
    }
}

/// Checks how an invocation ended and hands out what it wrote.
pub fn collect_output(finished: &ToolRun) -> (output: Result<&Vec<u8>, EvalError>)
    ensures
        match output {
            Ok(bytes) => output_of(*finished) == Ok::<_, EvalError>(bytes@),
            Err(e) => output_of(*finished) == Err::<Seq<u8>, _>(e),
        },
{
    if !finished.exit.succeeded() {
        return Err(EvalError::ExternalToolFailure(finished.exit));
    }
    match &finished.output {
        Some(bytes) => Ok(bytes),
        None => Err(EvalError::UnreadableRecord),
    }
}

/// The numbers that a finished run amounts to: the failure of the
/// invocation or of the reading of its output, or else the scoring of the
/// output against the ground truth with the names `names` and the mapping
/// `truth`.
pub open spec fn run_accuracy(
    rule: IdentifierRule,
    names: Seq<Seq<char>>,
    truth: Map<Seq<char>, ReadOrientation>,
    finished: ToolRun,
) -> Result<AccuracyResultExact, EvalError> {
    match output_of(finished) {
        Err(e) => Err(e),
        Ok(bytes) => match stream_calls(rule, fastq_heads(bytes)) {
            Err(e) => Err(e),
            Ok(found) => Ok(counts_of(names, truth, index_of(found))),
        },
    }
}

/// What a finished run of the configuration `config` amounts to: the
/// failure of the run, or its numbers together with the configuration and
/// the duration.
pub open spec fn run_outcome(
    rule: IdentifierRule,
    config: ProgramConfig,
    paf_reads: PafReads,
    finished: ToolRun,
) -> Result<ProgramResult, EvalError> {
    match run_accuracy(rule, paf_reads.ids(), paf_reads@, finished) {
        Ok(accuracy) => Ok(ProgramResult { config, duration: finished.duration, accuracy }),
        Err(e) => Err(e),
    }
}

/// Whether `result` is what a finished run of the configuration `config`
/// amounts to.
pub open spec fn is_run_result(
    result: Result<ProgramResult, EvalError>,
    rule: IdentifierRule,
    config: ProgramConfig,
    paf_reads: PafReads,
    finished: ToolRun,
) -> bool {
    result == run_outcome(rule, config, paf_reads, finished)
}

/// A finished run fails with a failure of its cell only, never with one of
/// the setup.
pub proof fn lemma_run_failures(
    rule: IdentifierRule,
    config: ProgramConfig,
    paf_reads: PafReads,
    finished: ToolRun,
)
    ensures
        run_outcome(rule, config, paf_reads, finished) matches Err(e) ==> !e.is_fatal(),
{
    match fastq_heads(output_of(finished)->Ok_0) {
        Some(heads) => lemma_head_failures(rule, heads),
        None => {},
    }
}

/// A run whose process did not exit with code 0 is an `ExternalToolFailure`
/// that carries the exit status, whatever else was observed of it.
pub proof fn lemma_tool_failure(
    result: Result<ProgramResult, EvalError>,
    rule: IdentifierRule,
    config: ProgramConfig,
    paf_reads: PafReads,
    finished: ToolRun,
)
    requires
        is_run_result(result, rule, config, paf_reads, finished),
        !finished.exit.is_success(),
    ensures
        result == Err::<ProgramResult, _>(EvalError::ExternalToolFailure(finished.exit)),
        !EvalError::ExternalToolFailure(finished.exit).is_fatal(),
{
}

/// Scores a finished run whose output is to be read by `rule`.
pub fn score_run(
    rule: &IdentifierRule,
    config: ProgramConfig,
    paf_reads: &PafReads,
    finished: &ToolRun,
) -> (result: Result<ProgramResult, EvalError>)
    ensures
        is_run_result(result, *rule, config, *paf_reads, *finished),
{
    let output = match collect_output(finished) {
        Ok(output) => output,
        Err(e) => {
            return Err(e);
        },
    };
    match parse(output.as_slice(), paf_reads, rule) {
        Ok(accuracy) => Ok(ProgramResult { config, duration: finished.duration, accuracy }),
        Err(e) => Err(e),
    }
}

} // verus!
