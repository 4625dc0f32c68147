//! Runs of Pychopper.

use crate::config::GenericProgramConfig;
use crate::config::ProgramConfig;
use crate::config::ProgramResult;
use crate::config::Protocol;
use crate::config::PychopperBackend;
use crate::config::PychopperConfig;
use crate::config::SpecificProgramConfig;
use crate::error::EvalError;
use crate::fastq::ClassifierFamily;
use crate::fastq::IdentifierRule;
use crate::fastq::rule_of;
use crate::paf::PafReads;
use crate::read_set::string_views;
use crate::runner::collect_output;
use crate::runner::Invocation;
use crate::runner::is_run_result;
use crate::runner::output_of;
use crate::runner::score_run;
use crate::runner::Tool;
use crate::runner::ToolRun;
use vstd::prelude::*;
use vstd::string::StringExecFns;

verus! {

/// The value of Pychopper's option `-m` for a backend.
pub open spec fn backend_flag(backend: PychopperBackend) -> Seq<char> {
    match backend {
        PychopperBackend::MachineLearning => "phmm"@,
        PychopperBackend::Edlib => "edlib"@,
    }
}

/// The value of Pychopper's option `-k` for a protocol.
pub open spec fn protocol_flag(protocol: Protocol) -> Seq<char> {
    match protocol {
        Protocol::PCB109 => "PCS109"@,
        Protocol::PCB111 => "PCS111"@,
    }
}

/// The arguments of a Pychopper run.
pub open spec fn arguments_of(generic: GenericProgramConfig, config: PychopperConfig) -> Seq<
    Seq<char>,
> {
    seq![
        "run"@,
        "pychopper"@,
        "-m"@,
        backend_flag(config.backend),
        "-k"@,
        protocol_flag(config.protocol),
        generic.input@,
        generic.output@,
    ]
}

/// How to invoke Pychopper for a configuration. A configuration of another
/// classifier is an `UnsupportedConfiguration`.
pub fn invocation(
    generic_config: &GenericProgramConfig,
    specific_config: &SpecificProgramConfig,
) -> (invocation: Result<Invocation, EvalError>)
    ensures
        match *specific_config {
            SpecificProgramConfig::Pychopper(config) => invocation matches Ok(i) && i.tool
                == Tool::Conda && string_views(i.arguments@) == arguments_of(
                *generic_config,
                config,
            ),
            SpecificProgramConfig::Restrander(_) => invocation matches Err(e) && e
                == EvalError::UnsupportedConfiguration,
        },
{
    let config = match specific_config {
        SpecificProgramConfig::Pychopper(config) => config,
        SpecificProgramConfig::Restrander(_) => {
            return Err(EvalError::UnsupportedConfiguration);
        },
    };
    let backend = match config.backend {
        PychopperBackend::MachineLearning => "phmm",
        PychopperBackend::Edlib => "edlib",
    };
    let protocol = match config.protocol {
        Protocol::PCB109 => "PCS109",
        Protocol::PCB111 => "PCS111",
    };
    let mut arguments: Vec<String> = Vec::new();
    arguments.push(String::from_str("run"));
    arguments.push(String::from_str("pychopper"));
    arguments.push(String::from_str("-m"));
    arguments.push(String::from_str(backend));
    arguments.push(String::from_str("-k"));
    arguments.push(String::from_str(protocol));
    arguments.push(generic_config.input.clone());
    arguments.push(generic_config.output.clone());
    Ok(Invocation { tool: Tool::Conda, arguments })
}

/// Takes a finished run of Pychopper without scoring it: the bytes that it
/// wrote, for another stage to score.
pub fn run<'a>(
    generic_config: &GenericProgramConfig,
    specific_config: &SpecificProgramConfig,
    finished: &'a ToolRun,
) -> (output: Result<&'a Vec<u8>, EvalError>)
    ensures
        match output {
            Ok(bytes) => specific_config is Pychopper && output_of(*finished) == Ok::<
                _,
                EvalError,
            >(bytes@),
            Err(e) => if specific_config is Pychopper {
                output_of(*finished) == Err::<Seq<u8>, _>(e)
            } else {
                e == EvalError::UnsupportedConfiguration
            },
        },
{
    match specific_config {
        SpecificProgramConfig::Pychopper(_) => collect_output(finished),
        SpecificProgramConfig::Restrander(_) => Err(EvalError::UnsupportedConfiguration),
    }
}

/// Scores a finished run of Pychopper against the ground truth, and puts
/// the numbers together with the configuration and the duration. A
/// configuration of another classifier is an `UnsupportedConfiguration`.
pub fn accuracy_timed_run_config(
    generic_config: &GenericProgramConfig,
    specific_config: &SpecificProgramConfig,
    paf_reads: &PafReads,
    finished: &ToolRun,
) -> (result: Result<ProgramResult, EvalError>)
    ensures
        if specific_config is Pychopper {
            is_run_result(
                result,
                rule_of(ClassifierFamily::Pychopper),
                ProgramConfig { specific: *specific_config, generic: *generic_config },
                *paf_reads,
                *finished,
            )
        } else {
            result matches Err(e) && e == EvalError::UnsupportedConfiguration
        },
{
    match specific_config {
        SpecificProgramConfig::Pychopper(_) => {
            let rule = IdentifierRule::for_family(ClassifierFamily::Pychopper);
            let config = ProgramConfig {
                specific: specific_config.clone(),
                generic: generic_config.clone(),
            };
            score_run(&rule, config, paf_reads, finished)
        },
        SpecificProgramConfig::Restrander(_) => Err(EvalError::UnsupportedConfiguration),
    }
}

} // verus!
