use strand_eval::cli::{command_of, Command, ProgramInput, UsageError};
use strand_eval::config::Protocol;
use strand_eval::driver::GridTestInput;
use strand_eval::error::EvalError;
use strand_eval::fastq::{parse_head, parse_nanoprep, ClassifierFamily, IdentifierRule, OrientationSource};
use strand_eval::orientation::ReadOrientation;
use strand_eval::paf::PafRead;
use strand_eval::score::AccuracyResultExact;

fn args(list: &[&str]) -> Vec<String> {
    list.iter().map(|arg| arg.to_string()).collect()
}

#[test]
fn commands_by_name() {
    assert_eq!(command_of("grid"), Some(Command::Grid));
    assert_eq!(command_of("compare"), Some(Command::Compare));
    assert_eq!(command_of("standard"), Some(Command::Standard));
    assert_eq!(command_of("quick"), Some(Command::Quick));
    assert_eq!(command_of("Grid"), None);
    assert_eq!(command_of(""), None);
}

#[test]
fn grid_from_arguments() {
    let input =
        ProgramInput::new_from_args(&args(&["rig", "grid", "r.fq", "r.paf", "cfg", "t.fq", "PCB109"]))
            .unwrap();
    match input {
        ProgramInput::GridTest { fastq, paf, config_dir, temp_fastq, protocol } => {
            assert_eq!(fastq, "r.fq");
            assert_eq!(paf, "r.paf");
            assert_eq!(config_dir, "cfg");
            assert_eq!(temp_fastq, "t.fq");
            assert_eq!(protocol, Protocol::PCB109);
        }
        _ => panic!("the operation is a grid test"),
    }
}

#[test]
fn compare_from_arguments() {
    let input = ProgramInput::new_from_args(&args(&[
        "rig", "compare", "r.fq", "r.paf", "a.json", "t.fq", "out", "PCB111",
    ]))
    .unwrap();
    match input {
        ProgramInput::CompareReads {
            fastq,
            paf,
            restrander_config,
            temp_fastq,
            output_directory,
            protocol,
        } => {
            assert_eq!(fastq, "r.fq");
            assert_eq!(paf, "r.paf");
            assert_eq!(restrander_config, "a.json");
            assert_eq!(temp_fastq, "t.fq");
            assert_eq!(output_directory, "out");
            assert_eq!(protocol, Protocol::PCB111);
        }
        _ => panic!("the operation is a comparison"),
    }
}

#[test]
fn standard_from_arguments() {
    let input = ProgramInput::new_from_args(&args(&[
        "rig", "standard", "r.fq", "r.paf", "a.json", "t.fq", "PCB111", "ignored",
    ]))
    .unwrap();
    match input {
        ProgramInput::Standard { fastq, paf, restrander_config, temp_fastq, protocol } => {
            assert_eq!(fastq, "r.fq");
            assert_eq!(paf, "r.paf");
            assert_eq!(restrander_config, "a.json");
            assert_eq!(temp_fastq, "t.fq");
            assert_eq!(protocol, Protocol::PCB111);
        }
        _ => panic!("the operation is the standard one"),
    }
}

#[test]
fn quick_from_arguments() {
    let input = ProgramInput::new_from_args(&args(&["rig", " quick\n", "r.fq", "r.paf"])).unwrap();
    match input {
        ProgramInput::Quick { fastq, paf } => {
            assert_eq!(fastq, "r.fq");
            assert_eq!(paf, "r.paf");
        }
        _ => panic!("the operation is the quick one"),
    }
}

#[test]
fn arguments_that_name_no_operation() {
    assert_eq!(ProgramInput::new_from_args(&args(&[])).err(), Some(UsageError::NoCommand));
    assert_eq!(ProgramInput::new_from_args(&args(&["rig"])).err(), Some(UsageError::NoCommand));
    assert_eq!(
        ProgramInput::new_from_args(&args(&["rig", "sweep", "a", "b"])).err(),
        Some(UsageError::UnknownCommand)
    );
    assert_eq!(
        ProgramInput::new_from_args(&args(&["rig", "quick", "a"])).err(),
        Some(UsageError::MissingArgument)
    );
    assert_eq!(
        ProgramInput::new_from_args(&args(&["rig", "grid", "a", "b", "c", "d"])).err(),
        Some(UsageError::MissingArgument)
    );
    assert_eq!(
        ProgramInput::new_from_args(&args(&["rig", "compare", "a", "b", "c", "d", "e"])).err(),
        Some(UsageError::MissingArgument)
    );
    assert_eq!(
        ProgramInput::new_from_args(&args(&["rig", "standard", "a", "b", "c", "d", "PCB110"]))
            .err(),
        Some(UsageError::UnknownProtocol)
    );
}

#[test]
fn grid_input_from_arguments() {
    let input =
        GridTestInput::new_from_args(&args(&["rig", "r.fq", "r.paf", "cfg", "t.fq", "PCB109"]))
            .unwrap();
    assert_eq!(input.fastq, "r.fq");
    assert_eq!(input.paf, "r.paf");
    assert_eq!(input.config_dir, "cfg");
    assert_eq!(input.temp_fastq, "t.fq");
    assert_eq!(input.protocol, Protocol::PCB109);
    let copy = input.clone();
    assert_eq!(copy.fastq, "r.fq");
    assert_eq!(
        GridTestInput::new_from_args(&args(&["rig", "r.fq", "r.paf", "cfg", "t.fq"])).err(),
        Some(UsageError::MissingArgument)
    );
    assert_eq!(
        GridTestInput::new_from_args(&args(&["rig", "r.fq", "r.paf", "cfg", "t.fq", "x"])).err(),
        Some(UsageError::UnknownProtocol)
    );
}

#[test]
fn nanoprep_rule() {
    let rule = IdentifierRule::for_family(ClassifierFamily::Nanoprep);
    assert_eq!(rule.split_header_on, b' ');
    assert_eq!(rule.identifier_field_index, 0);
    assert_eq!(rule.orientation_source, OrientationSource::FieldByte { field: 7, offset: 7 });
}

#[test]
fn nanoprep_head() {
    let rule = IdentifierRule::for_family(ClassifierFamily::Nanoprep);
    let call = parse_head(&rule, b"r|1 a=1 b=2 c=3 d=4 e=5 f=6 strand=- tail").unwrap();
    assert_eq!(call, ("r|1".to_string(), ReadOrientation::Reverse));
    let call = parse_head(&rule, b"r2 a=1 b=2 c=3 d=4 e=5 f=6 strand=+").unwrap();
    assert_eq!(call, ("r2".to_string(), ReadOrientation::Forward));
    assert_eq!(
        parse_head(&rule, b"r3 a=1 b=2 strand=+").err(),
        Some(EvalError::MissingOrientationMarker)
    );
    assert_eq!(
        parse_head(&rule, b"r4 a=1 b=2 c=3 d=4 e=5 f=6 strand").err(),
        Some(EvalError::MissingOrientationMarker)
    );
}

#[test]
fn nanoprep_output_is_scored_against_a_list_of_reads() {
    let reads = vec![
        PafRead { name: "A".to_string(), strand: ReadOrientation::Forward },
        PafRead { name: "B".to_string(), strand: ReadOrientation::Forward },
        PafRead { name: "C".to_string(), strand: ReadOrientation::Reverse },
        PafRead { name: "B".to_string(), strand: ReadOrientation::Reverse },
    ];
    let data = b"@A 1 2 3 4 5 6 strand=+\nAC\n+\nII\n@B 1 2 3 4 5 6 strand=+\nAC\n+\nII\n";
    let counts = parse_nanoprep(data, &reads).unwrap();
    assert_eq!(counts, AccuracyResultExact { correct: 1, incorrect: 1, ambiguous: 1 });
    assert_eq!(
        parse_nanoprep(b"@A strand=+\nAC\n+\nII\n", &reads).err(),
        Some(EvalError::MissingOrientationMarker)
    );
    let copy = reads[0].clone();
    assert_eq!(copy.name, "A");
}
