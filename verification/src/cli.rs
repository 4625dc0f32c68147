//! The operations of the program, as given on the command line.
//!
//! The first argument after the program's name is the operation; the
//! arguments after it are the operation's own, in a fixed order. Arguments
//! beyond those that an operation takes are ignored.

use crate::config::Protocol;
use crate::config::protocol_named;
use crate::driver::GridTestInput;
use vstd::prelude::*;
use vstd::string::StringExecFns;

verus! {

/// One operation with its arguments.
#[derive(Debug)]
pub enum ProgramInput {
    /// Sweep both classifiers over one input and all configurations.
    GridTest { fastq: String, paf: String, config_dir: String, temp_fastq: String, protocol: Protocol },
    /// Compare the verdicts of the two classifiers read by read.
    CompareReads {
        fastq: String,
        paf: String,
        restrander_config: String,
        temp_fastq: String,
        output_directory: String,
        protocol: Protocol,
    },
    /// Run every classifier configuration once.
    Standard {
        fastq: String,
        paf: String,
        restrander_config: String,
        temp_fastq: String,
        protocol: Protocol,
    },
    /// Score an output that was written before.
    Quick { fastq: String, paf: String },
}

/// Why a command line names no operation.
#[derive(Clone, Copy, Debug, PartialEq, Eq, Structural)]
pub enum UsageError {
    /// No operation is given.
    NoCommand,
    /// The operation is none of `grid`, `compare`, `standard` and `quick`.
    UnknownCommand,
    /// The command line has too few arguments, or not the number that it
    /// must have.
    MissingArgument,
    /// The protocol is none of the known ones.
    UnknownProtocol,
}

/// The operations, by name.
#[derive(Clone, Copy, Debug, PartialEq, Eq, Structural)]
pub enum Command {
    Grid,
    Compare,
    Standard,
    Quick,
}

/// The text without the white space at its start and at its end, as
/// `str::trim` of the standard library gives it.
pub uninterp spec fn trimmed(text: Seq<char>) -> Seq<char>;

/// Removes the white space at the start and at the end of a text.
///
/// Calls `str::trim`. What counts as white space is a property of Unicode,
/// so the contract only names what comes back.
#[verifier::external_body]
fn trim(text: &str) -> (inner: &str)
    ensures
        inner@ == trimmed(text@),
{
    text.trim()
}

/// The operation of a name.
pub open spec fn command_named(name: Seq<char>) -> Option<Command> {
    if name == "grid"@ {
        Some(Command::Grid)
    } else if name == "compare"@ {
        Some(Command::Compare)
    } else if name == "standard"@ {
        Some(Command::Standard)
    } else if name == "quick"@ {
        Some(Command::Quick)
    } else {
        None
    }
}

/// How many arguments a command line of an operation has at least, the
/// program's name and the operation counted.
pub open spec fn arity(command: Command) -> nat {
    match command {
        Command::Grid => 7,
        Command::Compare => 8,
        Command::Standard => 7,
        Command::Quick => 4,
    }
}

/// Where on the command line of an operation the protocol stands, if the
/// operation takes one.
pub open spec fn protocol_at(command: Command) -> Option<int> {
    match command {
        Command::Grid => Some(6),
        Command::Compare => Some(7),
        Command::Standard => Some(6),
        Command::Quick => None,
    }
}

/// Whether `input` is the operation that a command line of the operation
/// `command` names: every argument stands in its place.
pub open spec fn names(args: Seq<String>, command: Command, input: ProgramInput) -> bool {
    match command {
        Command::Grid => {
            &&& input matches ProgramInput::GridTest { fastq, paf, config_dir, temp_fastq, protocol }
            &&& fastq == args[2]
            &&& paf == args[3]
            &&& config_dir == args[4]
            &&& temp_fastq == args[5]
            &&& Some(protocol) == protocol_named(args[6]@)
        },
        Command::Compare => {
            &&& input matches ProgramInput::CompareReads {
                fastq,
                paf,
                restrander_config,
                temp_fastq,
                output_directory,
                protocol,
            }
            &&& fastq == args[2]
            &&& paf == args[3]
            &&& restrander_config == args[4]
            &&& temp_fastq == args[5]
            &&& output_directory == args[6]
            &&& Some(protocol) == protocol_named(args[7]@)
        },
        Command::Standard => {
            &&& input matches ProgramInput::Standard {
                fastq,
                paf,
                restrander_config,
                temp_fastq,
                protocol,
            }
            &&& fastq == args[2]
            &&& paf == args[3]
            &&& restrander_config == args[4]
            &&& temp_fastq == args[5]
            &&& Some(protocol) == protocol_named(args[6]@)
        },
        Command::Quick => {
            &&& input matches ProgramInput::Quick { fastq, paf }
            &&& fastq == args[2]
            &&& paf == args[3]
        },
    }
}

/// Why a command line names no operation, if it names none: the first of
/// the four reasons that applies.
pub open spec fn usage_error(args: Seq<String>) -> Option<UsageError> {
    if args.len() < 2 {
        Some(UsageError::NoCommand)
    } else {
        match command_named(trimmed(args[1]@)) {
            None => Some(UsageError::UnknownCommand),
            Some(command) => if args.len() < arity(command) {
                Some(UsageError::MissingArgument)
            } else {
                match protocol_at(command) {
                    Some(at) if protocol_named(args[at]@) is None => Some(
                        UsageError::UnknownProtocol,
                    ),
                    _ => None,
                }
            },
        }
    }
}

/// Reads the name of an operation.
pub fn command_of(name: &str) -> (command: Option<Command>)
    ensures
        command == command_named(name@),
{
    let given = String::from_str(name);
    if given == String::from_str("grid") {
        Some(Command::Grid)
    } else if given == String::from_str("compare") {
        Some(Command::Compare)
    } else if given == String::from_str("standard") {
        Some(Command::Standard)
    } else if given == String::from_str("quick") {
        Some(Command::Quick)
    } else {
        None
    }
}

impl ProgramInput {
    /// Reads the operation from the arguments of the program, of which the
    /// first is the program's name.
    pub fn new_from_args(args: &Vec<String>) -> (input: Result<ProgramInput, UsageError>)
        ensures
            match input {
                Ok(i) => {
                    &&& usage_error(args@) is None
                    &&& command_named(trimmed(args@[1]@)) matches Some(command)
                    &&& names(args@, command, i)
                },
                Err(e) => usage_error(args@) == Some(e),
            },
    {
        if args.len() < 2 {
            return Err(UsageError::NoCommand);
        }
        let command = match command_of(trim(args[1].as_str())) {
            Some(command) => command,
            None => {
                return Err(UsageError::UnknownCommand);
            },
        };
        match command {
            Command::Grid => {
                if args.len() < 7 {
                    return Err(UsageError::MissingArgument);
                }
                match Protocol::new(args[6].as_str()) {
                    Some(protocol) => Ok(
                        ProgramInput::GridTest {
                            fastq: args[2].clone(),
                            paf: args[3].clone(),
                            config_dir: args[4].clone(),
                            temp_fastq: args[5].clone(),
                            protocol,
                        },
                    ),
                    None => Err(UsageError::UnknownProtocol),
                }
            },
            Command::Compare => {
                if args.len() < 8 {
                    return Err(UsageError::MissingArgument);
                }
                match Protocol::new(args[7].as_str()) {
                    Some(protocol) => Ok(
                        ProgramInput::CompareReads {
                            fastq: args[2].clone(),
                            paf: args[3].clone(),
                            restrander_config: args[4].clone(),
                            temp_fastq: args[5].clone(),
                            output_directory: args[6].clone(),
                            protocol,
                        },
                    ),
                    None => Err(UsageError::UnknownProtocol),
                }
            },
            Command::Standard => {
                if args.len() < 7 {
                    return Err(UsageError::MissingArgument);
                }
                match Protocol::new(args[6].as_str()) {
                    Some(protocol) => Ok(
                        ProgramInput::Standard {
                            fastq: args[2].clone(),
                            paf: args[3].clone(),
                            restrander_config: args[4].clone(),
                            temp_fastq: args[5].clone(),
                            protocol,
                        },
                    ),
                    None => Err(UsageError::UnknownProtocol),
                }
            },
            Command::Quick => {
                if args.len() < 4 {
                    return Err(UsageError::MissingArgument);
                }
                Ok(ProgramInput::Quick { fastq: args[2].clone(), paf: args[3].clone() })
            },
        }
    }
}

impl GridTestInput {
    /// Reads the input of a sweep from a command line that holds nothing
    /// else: the program's name, then the reads, the alignments, the
    /// directory of configurations, the file that a classifier writes, and
    /// the protocol.
    pub fn new_from_args(args: &Vec<String>) -> (input: Result<GridTestInput, UsageError>)
        ensures
            match input {
                Ok(i) => {
                    &&& args@.len() == 6
                    &&& i.fastq == args@[1]
                    &&& i.paf == args@[2]
                    &&& i.config_dir == args@[3]
                    &&& i.temp_fastq == args@[4]
                    &&& Some(i.protocol) == protocol_named(args@[5]@)
                },
                Err(e) => if args@.len() != 6 {
                    e == UsageError::MissingArgument
                } else {
                    e == UsageError::UnknownProtocol && protocol_named(args@[5]@) is None
                },
            },
    {
        if args.len() != 6 {
            return Err(UsageError::MissingArgument);
        }
        match Protocol::new(args[5].as_str()) {
            Some(protocol) => Ok(
                GridTestInput {
                    fastq: args[1].clone(),
                    paf: args[2].clone(),
                    config_dir: args[3].clone(),
                    temp_fastq: args[4].clone(),
                    protocol,
                },
            ),
            None => Err(UsageError::UnknownProtocol),
        }
    }
}

} // verus!
