//! What a run of a classifier is configured with, and what came of it.

use crate::score::AccuracyResultExact;
use vstd::prelude::*;
use vstd::string::StringExecFns;

verus! {

/// The sequencing protocol whose primers a classifier looks for.
#[derive(Clone, Copy, Debug, PartialEq, Eq, Hash, Structural)]
pub enum Protocol {
    PCB109,
    PCB111,
}

/// The protocol of a given name, if there is one.
pub open spec fn protocol_named(name: Seq<char>) -> Option<Protocol> {
    if name == "PCB109"@ {
        Some(Protocol::PCB109)
    } else if name == "PCB111"@ {
        Some(Protocol::PCB111)
    } else {
        None
    }
}

impl Protocol {
    /// The protocol of a given name: `PCB109` or `PCB111`.
    pub fn new(name: &str) -> (protocol: Option<Protocol>)
        ensures
            protocol == protocol_named(name@),
    {
        let given = String::from_str(name);
        if given == String::from_str("PCB109") {
            Some(Protocol::PCB109)
        } else if given == String::from_str("PCB111") {
            Some(Protocol::PCB111)
        } else {
            None
        }
    }

    /// The name of the protocol.
    pub open spec fn spec_name(&self) -> Seq<char> {
        match self {
            Protocol::PCB109 => "PCB109"@,
            Protocol::PCB111 => "PCB111"@,
        }
    }

    /// The name of the protocol.
    pub fn name(&self) -> (name: &'static str)
        ensures
            name@ == self.spec_name(),
    {
        match self {
            Protocol::PCB109 => "PCB109",
            Protocol::PCB111 => "PCB111",
        }
    }
}

/// The way Pychopper looks for primers.
#[derive(Clone, Copy, Debug, PartialEq, Eq, Hash, Structural)]
pub enum PychopperBackend {
    Edlib,
    MachineLearning,
}

impl PychopperBackend {
    /// The name of the backend.
    pub open spec fn spec_name(&self) -> Seq<char> {
        match self {
            PychopperBackend::Edlib => "Edlib"@,
            PychopperBackend::MachineLearning => "MachineLearning"@,
        }
    }

    /// The name of the backend.
    pub fn name(&self) -> (name: &'static str)
        ensures
            name@ == self.spec_name(),
    {
        match self {
            PychopperBackend::Edlib => "Edlib",
            PychopperBackend::MachineLearning => "MachineLearning",
        }
    }
}

/// One step of a classification pipeline.
#[derive(Clone, Copy, Debug, PartialEq, Eq, Structural)]
pub enum PipelineStep {
    /// Look for a poly-A or poly-T tail of at least the first length within
    /// the second length from an end of the read.
    Poly(u64, u64),
    /// Look for the primers of a protocol.
    Primer(Protocol),
}

/// The configuration of a Pychopper run.
#[derive(Clone, Copy, Debug, PartialEq, Eq, Hash, Structural)]
pub struct PychopperConfig {
    pub backend: PychopperBackend,
    pub protocol: Protocol,
}

/// The configuration of a Restrander run: the file that holds it.
#[derive(Debug)]
pub struct RestranderConfig {
    pub config_filename: String,
}

impl Clone for RestranderConfig {
    fn clone(&self) -> (copy: Self)
        ensures
            copy == *self,
    {
        RestranderConfig { config_filename: self.config_filename.clone() }
    }
}

/// What is particular to the classifier that runs.
#[derive(Debug)]
pub enum SpecificProgramConfig {
    Restrander(RestranderConfig),
    Pychopper(PychopperConfig),
}

impl Clone for SpecificProgramConfig {
    fn clone(&self) -> (copy: Self)
        ensures
            copy == *self,
    {
        match self {
            SpecificProgramConfig::Restrander(config) => SpecificProgramConfig::Restrander(
                config.clone(),
            ),
            SpecificProgramConfig::Pychopper(config) => SpecificProgramConfig::Pychopper(*config),
        }
    }
}

impl SpecificProgramConfig {
    /// How a report names the configuration: the classifier, and in
    /// brackets the configuration file of Restrander or the backend of
    /// Pychopper.
    pub open spec fn spec_to_string(&self) -> Seq<char> {
        match self {
            SpecificProgramConfig::Restrander(config) => "Restrander("@ + config.config_filename@
                + ")"@,
            SpecificProgramConfig::Pychopper(config) => "Pychopper("@ + config.backend.spec_name()
                + ")"@,
        }
    }

    /// How a report names the configuration.
    pub fn to_string(&self) -> (text: String)
        ensures
            text@ == self.spec_to_string(),
    {
        match self {
            SpecificProgramConfig::Restrander(config) => {
                let mut text = String::from_str("Restrander(");
                text.append(config.config_filename.as_str());
                text.append(")");
                text
            },
            SpecificProgramConfig::Pychopper(config) => {
                let mut text = String::from_str("Pychopper(");
                text.append(config.backend.name());
                text.append(")");
                text
            },
        }
    }
}

/// What every run has: the file of reads to classify, and the file that the
/// classifier writes.
#[derive(Debug)]
pub struct GenericProgramConfig {
    pub input: String,
    pub output: String,
}

impl Clone for GenericProgramConfig {
    fn clone(&self) -> (copy: Self)
        ensures
            copy == *self,
    {
        GenericProgramConfig { input: self.input.clone(), output: self.output.clone() }
    }
}

impl GenericProgramConfig {
    /// How a report names the input: by its file.
    pub fn to_string(&self) -> (text: String)
        ensures
            text@ == self.input@,
    {
        self.input.clone()
    }
}

/// The configuration of one run.
#[derive(Debug)]
pub struct ProgramConfig {
    pub specific: SpecificProgramConfig,
    pub generic: GenericProgramConfig,
}

impl Clone for ProgramConfig {
    fn clone(&self) -> (copy: Self)
        ensures
            copy == *self,
    {
        ProgramConfig { specific: self.specific.clone(), generic: self.generic.clone() }
    }
}

impl ProgramConfig {
    /// How a report names the configuration: as its specific part.
    pub fn to_string(&self) -> (text: String)
        ensures
            text@ == self.specific.spec_to_string(),
    {
        self.specific.to_string()
    }
}

/// What one run gave: how long the classifier took, in whole seconds, and
/// how many reads of the ground truth it got right, got wrong and left
/// ambiguous.
#[derive(Debug)]
pub struct ProgramResult {
    pub config: ProgramConfig,
    pub duration: u64,
    pub accuracy: AccuracyResultExact,
}

impl Clone for ProgramResult {
    fn clone(&self) -> (copy: Self)
        ensures
            copy == *self,
    {
        ProgramResult {
            config: self.config.clone(),
            duration: self.duration,
            accuracy: self.accuracy,
        }
    }
}

} // verus!
