//! Runs of Restrander.

use crate::config::GenericProgramConfig;
use crate::config::ProgramConfig;
use crate::config::ProgramResult;
use crate::config::RestranderConfig;
use crate::config::SpecificProgramConfig;
use crate::error::EvalError;
use crate::fastq::ClassifierFamily;
use crate::fastq::IdentifierRule;
use crate::fastq::rule_of;
use crate::paf::PafReads;
use crate::read_set::string_views;
use crate::runner::collect_output;
use crate::runner::Invocation;
use crate::runner::output_of;
use crate::runner::run_accuracy;
use crate::runner::score_run;
use crate::runner::Tool;
use crate::runner::ToolRun;
use crate::score::AccuracyResultExact;
use vstd::prelude::*;
use vstd::string::StringExecFns;

verus! {

/// How to invoke Restrander: on the input file, the output file and the
/// configuration file, in this order.
pub fn invocation(input_filename: &str, output_filename: &str, config_filename: &str) -> (invocation:
    Invocation)
    ensures
        invocation.tool == Tool::Restrander,
        string_views(invocation.arguments@) == seq![
            input_filename@,
            output_filename@,
            config_filename@,
        ],
{
    let mut arguments: Vec<String> = Vec::new();
    arguments.push(String::from_str(input_filename));
    arguments.push(String::from_str(output_filename));
    arguments.push(String::from_str(config_filename));
    Invocation { tool: Tool::Restrander, arguments }
}

/// Takes a finished run of Restrander without scoring it: the bytes that
/// it wrote, for another stage to score.
pub fn run(finished: &ToolRun) -> (output: Result<&Vec<u8>, EvalError>)
    ensures
        match output {
            Ok(bytes) => output_of(*finished) == Ok::<_, EvalError>(bytes@),
            Err(e) => output_of(*finished) == Err::<Seq<u8>, _>(e),
        },
{
    collect_output(finished)
}

/// Scores a finished run of Restrander against the ground truth, and puts
/// the numbers together with the configuration and the duration.
pub fn accuracy_timed_run_config(
    generic_config: &GenericProgramConfig,
    specific_config: &str,
    paf_reads: &PafReads,
    finished: &ToolRun,
) -> (result: Result<ProgramResult, EvalError>)
    ensures
        match result {
            Ok(r) => {
                &&& r.config.generic == *generic_config
                &&& r.config.specific matches SpecificProgramConfig::Restrander(c)
                &&& c.config_filename@ == specific_config@
                &&& r.duration == finished.duration
                &&& run_accuracy(
                    rule_of(ClassifierFamily::Restrander),
                    paf_reads.ids(),
                    paf_reads@,
                    *finished,
                ) == Ok::<_, EvalError>(r.accuracy)
            },
            Err(e) => run_accuracy(
                rule_of(ClassifierFamily::Restrander),
                paf_reads.ids(),
                paf_reads@,
                *finished,
            ) == Err::<AccuracyResultExact, _>(e),
        },
{
    let rule = IdentifierRule::for_family(ClassifierFamily::Restrander);
    let config = ProgramConfig {
        specific: SpecificProgramConfig::Restrander(
            RestranderConfig { config_filename: String::from_str(specific_config) },
        ),
        generic: generic_config.clone(),
    };
    score_run(&rule, config, paf_reads, finished)
}

} // verus!
