use strand_eval::config::{
    GenericProgramConfig, PipelineStep, ProgramConfig, ProgramResult, Protocol, PychopperBackend,
    PychopperConfig, RestranderConfig, SpecificProgramConfig,
};
use strand_eval::driver::{
    compare, finish_run, grid_test, pychopper_grid_test, restrander_grid_test, run_grid,
    standard, GridTestInput,
};
use strand_eval::error::{EvalError, ToolExit};
use strand_eval::paf::{parse, PafReads};
use strand_eval::pychopper;
use strand_eval::report::{decimal, failure_row, header, result_row};
use strand_eval::restrander;
use strand_eval::runner::{collect_output, Tool, ToolRun};
use strand_eval::score::AccuracyResultExact;
use strand_eval::sweep::{CellOutcome, Sweep};

fn generic() -> GenericProgramConfig {
    GenericProgramConfig { input: "reads.fq".to_string(), output: "out.fq".to_string() }
}

fn pychopper_config(backend: PychopperBackend, protocol: Protocol) -> SpecificProgramConfig {
    SpecificProgramConfig::Pychopper(PychopperConfig { backend, protocol })
}

fn restrander_config(file: &str) -> SpecificProgramConfig {
    SpecificProgramConfig::Restrander(RestranderConfig { config_filename: file.to_string() })
}

fn truth() -> PafReads {
    parse(b"A\t+\nB\t-\nC\t+\n").unwrap()
}

fn finished(code: i32, duration: u64, output: &[u8]) -> ToolRun {
    ToolRun { exit: ToolExit::Code(code), duration, output: Some(output.to_vec()) }
}

fn input(fastq: &str, protocol: Protocol) -> GridTestInput {
    GridTestInput {
        fastq: fastq.to_string(),
        paf: format!("{}.paf", fastq),
        config_dir: "configs".to_string(),
        temp_fastq: format!("{}.tmp", fastq),
        protocol,
    }
}

#[test]
fn protocol_names() {
    assert_eq!(Protocol::new("PCB109"), Some(Protocol::PCB109));
    assert_eq!(Protocol::new("PCB111"), Some(Protocol::PCB111));
    assert_eq!(Protocol::new("pcb109"), None);
    assert_eq!(Protocol::new(""), None);
    assert_eq!(Protocol::PCB109.name(), "PCB109");
    assert_eq!(Protocol::PCB111.name(), "PCB111");
    assert_eq!(PychopperBackend::Edlib.name(), "Edlib");
    assert_eq!(PychopperBackend::MachineLearning.name(), "MachineLearning");
}

#[test]
fn pipeline_steps_compare() {
    assert_eq!(PipelineStep::Poly(12, 200), PipelineStep::Poly(12, 200));
    assert_ne!(PipelineStep::Poly(12, 200), PipelineStep::Primer(Protocol::PCB109));
}

#[test]
fn configurations_are_named_for_a_report() {
    assert_eq!(restrander_config("configs/a.json").to_string(), "Restrander(configs/a.json)");
    assert_eq!(
        pychopper_config(PychopperBackend::Edlib, Protocol::PCB109).to_string(),
        "Pychopper(Edlib)"
    );
    assert_eq!(
        pychopper_config(PychopperBackend::MachineLearning, Protocol::PCB111).to_string(),
        "Pychopper(MachineLearning)"
    );
    assert_eq!(generic().to_string(), "reads.fq");
    let config = ProgramConfig { specific: restrander_config("x"), generic: generic() };
    assert_eq!(config.to_string(), "Restrander(x)");
}

#[test]
fn configurations_clone_to_equal_values() {
    let config = ProgramConfig { specific: restrander_config("x.json"), generic: generic() };
    let copy = config.clone();
    assert_eq!(copy.generic.input, "reads.fq");
    assert_eq!(copy.generic.output, "out.fq");
    assert_eq!(copy.to_string(), "Restrander(x.json)");
}

#[test]
fn pychopper_arguments_for_every_backend_and_protocol() {
    let expect = |backend: &str, protocol: &str| -> Vec<String> {
        ["run", "pychopper", "-m", backend, "-k", protocol, "reads.fq", "out.fq"]
            .iter()
            .map(|s| s.to_string())
            .collect()
    };
    for (backend, protocol, flags) in [
        (PychopperBackend::Edlib, Protocol::PCB109, ("edlib", "PCS109")),
        (PychopperBackend::Edlib, Protocol::PCB111, ("edlib", "PCS111")),
        (PychopperBackend::MachineLearning, Protocol::PCB109, ("phmm", "PCS109")),
        (PychopperBackend::MachineLearning, Protocol::PCB111, ("phmm", "PCS111")),
    ] {
        let invocation =
            pychopper::invocation(&generic(), &pychopper_config(backend, protocol)).unwrap();
        assert_eq!(invocation.tool, Tool::Conda);
        assert_eq!(invocation.arguments, expect(flags.0, flags.1));
    }
}

#[test]
fn pychopper_refuses_a_restrander_configuration() {
    let config = restrander_config("a.json");
    assert_eq!(
        pychopper::invocation(&generic(), &config).err(),
        Some(EvalError::UnsupportedConfiguration)
    );
    let run = finished(0, 1, b"");
    assert_eq!(
        pychopper::run(&generic(), &config, &run).err(),
        Some(EvalError::UnsupportedConfiguration)
    );
    assert_eq!(
        pychopper::accuracy_timed_run_config(&generic(), &config, &truth(), &run).err(),
        Some(EvalError::UnsupportedConfiguration)
    );
}

#[test]
fn restrander_arguments() {
    let invocation = restrander::invocation("reads.fq", "out.fq", "configs/a.json");
    assert_eq!(invocation.tool, Tool::Restrander);
    assert_eq!(invocation.arguments, vec!["reads.fq", "out.fq", "configs/a.json"]);
}

#[test]
fn exit_code_zero_is_the_only_success() {
    assert!(ToolExit::Code(0).succeeded());
    assert!(!ToolExit::Code(1).succeeded());
    assert!(!ToolExit::Code(-1).succeeded());
    assert!(!ToolExit::NotStarted.succeeded());
    assert!(!ToolExit::NoCode.succeeded());
}

#[test]
fn output_of_a_finished_run() {
    let run = finished(0, 3, b"bytes");
    assert_eq!(collect_output(&run).unwrap(), &b"bytes".to_vec());
    assert_eq!(restrander::run(&run).unwrap(), &b"bytes".to_vec());
    let config = pychopper_config(PychopperBackend::Edlib, Protocol::PCB109);
    assert_eq!(pychopper::run(&generic(), &config, &run).unwrap(), &b"bytes".to_vec());
    let run = finished(2, 3, b"bytes");
    assert_eq!(
        collect_output(&run).err(),
        Some(EvalError::ExternalToolFailure(ToolExit::Code(2)))
    );
    let run = ToolRun { exit: ToolExit::NotStarted, duration: 0, output: None };
    assert_eq!(
        collect_output(&run).err(),
        Some(EvalError::ExternalToolFailure(ToolExit::NotStarted))
    );
    let run = ToolRun { exit: ToolExit::Code(0), duration: 0, output: None };
    assert_eq!(collect_output(&run).err(), Some(EvalError::UnreadableRecord));
}

#[test]
fn restrander_run_is_scored_and_packaged() {
    let run = finished(0, 42, b"@A|1 +\nAC\n+\nII\n@B|2 +\nAC\n+\nII\n");
    let result =
        restrander::accuracy_timed_run_config(&generic(), "configs/a.json", &truth(), &run)
            .unwrap();
    assert_eq!(result.duration, 42);
    assert_eq!(result.accuracy, AccuracyResultExact { correct: 1, incorrect: 1, ambiguous: 1 });
    assert_eq!(result.config.generic.input, "reads.fq");
    assert_eq!(result.config.generic.output, "out.fq");
    assert_eq!(result.config.to_string(), "Restrander(configs/a.json)");
}

#[test]
fn pychopper_run_is_scored_and_packaged() {
    let run = finished(0, 7, b"@1|A +\nAC\n+\nII\n@2|B -\nAC\n+\nII\n@3|C -\nAC\n+\nII\n");
    let config = pychopper_config(PychopperBackend::MachineLearning, Protocol::PCB111);
    let result =
        pychopper::accuracy_timed_run_config(&generic(), &config, &truth(), &run).unwrap();
    assert_eq!(result.duration, 7);
    assert_eq!(result.accuracy, AccuracyResultExact { correct: 2, incorrect: 1, ambiguous: 0 });
    assert_eq!(result.config.to_string(), "Pychopper(MachineLearning)");
}

#[test]
fn scenario_nonzero_exit_is_a_tool_failure() {
    let run = finished(1, 5, b"@A|1 +\nAC\n+\nII\n");
    assert_eq!(
        restrander::accuracy_timed_run_config(&generic(), "a.json", &truth(), &run).err(),
        Some(EvalError::ExternalToolFailure(ToolExit::Code(1)))
    );
    let config = pychopper_config(PychopperBackend::Edlib, Protocol::PCB109);
    assert_eq!(
        pychopper::accuracy_timed_run_config(&generic(), &config, &truth(), &run).err(),
        Some(EvalError::ExternalToolFailure(ToolExit::Code(1)))
    );
    let config = ProgramConfig { specific: config, generic: generic() };
    assert_eq!(
        finish_run(&config, &truth(), &run).err(),
        Some(EvalError::ExternalToolFailure(ToolExit::Code(1)))
    );
}

#[test]
fn finish_run_reads_by_the_rule_of_the_classifier() {
    let output = b"@A|B +\nAC\n+\nII\n";
    let run = finished(0, 1, output);
    let config = ProgramConfig { specific: restrander_config("a"), generic: generic() };
    let result = finish_run(&config, &truth(), &run).unwrap();
    assert_eq!(result.accuracy, AccuracyResultExact { correct: 1, incorrect: 0, ambiguous: 2 });
    let config = ProgramConfig {
        specific: pychopper_config(PychopperBackend::Edlib, Protocol::PCB109),
        generic: generic(),
    };
    let result = finish_run(&config, &truth(), &run).unwrap();
    assert_eq!(result.accuracy, AccuracyResultExact { correct: 0, incorrect: 1, ambiguous: 2 });
}

#[test]
fn grid_goes_input_by_input_then_configuration_by_configuration() {
    let inputs = vec![input("one", Protocol::PCB109), input("two", Protocol::PCB111)];
    let configs = vec!["a.json".to_string(), "b.json".to_string(), "c.json".to_string()];
    let cells = restrander_grid_test(&inputs, &configs);
    let seen: Vec<(usize, String, String, String)> = cells
        .iter()
        .map(|cell| {
            (
                cell.input,
                cell.config.generic.input.clone(),
                cell.config.generic.output.clone(),
                cell.config.to_string(),
            )
        })
        .collect();
    let expect = |i: usize, name: &str, file: &str| {
        (i, name.to_string(), format!("{}.tmp", name), format!("Restrander({})", file))
    };
    assert_eq!(
        seen,
        vec![
            expect(0, "one", "a.json"),
            expect(0, "one", "b.json"),
            expect(0, "one", "c.json"),
            expect(1, "two", "a.json"),
            expect(1, "two", "b.json"),
            expect(1, "two", "c.json"),
        ]
    );
}

#[test]
fn grid_of_pychopper() {
    let inputs = vec![input("one", Protocol::PCB109), input("two", Protocol::PCB109)];
    let configs = vec![
        pychopper_config(PychopperBackend::Edlib, Protocol::PCB109),
        pychopper_config(PychopperBackend::MachineLearning, Protocol::PCB109),
    ];
    let cells = pychopper_grid_test(&inputs, &configs);
    let seen: Vec<(usize, String)> =
        cells.iter().map(|cell| (cell.input, cell.config.to_string())).collect();
    assert_eq!(
        seen,
        vec![
            (0, "Pychopper(Edlib)".to_string()),
            (0, "Pychopper(MachineLearning)".to_string()),
            (1, "Pychopper(Edlib)".to_string()),
            (1, "Pychopper(MachineLearning)".to_string()),
        ]
    );
}

#[test]
fn grid_without_inputs_or_configurations_is_empty() {
    let inputs = vec![input("one", Protocol::PCB109)];
    assert_eq!(restrander_grid_test(&inputs, &Vec::new()).len(), 0);
    assert_eq!(restrander_grid_test(&Vec::new(), &vec!["a".to_string()]).len(), 0);
    assert_eq!(pychopper_grid_test(&Vec::new(), &Vec::new()).len(), 0);
}

#[test]
fn grid_test_runs_restrander_then_both_backends_of_pychopper() {
    let cells =
        grid_test(&input("one", Protocol::PCB111), &vec!["a".to_string(), "b".to_string()]);
    let seen: Vec<String> = cells.iter().map(|cell| cell.config.to_string()).collect();
    assert_eq!(
        seen,
        vec!["Restrander(a)", "Restrander(b)", "Pychopper(Edlib)", "Pychopper(MachineLearning)"]
    );
    for cell in &cells {
        assert_eq!(cell.input, 0);
        assert_eq!(cell.config.generic.input, "one");
        assert_eq!(cell.config.generic.output, "one.tmp");
    }
    match &cells[3].config.specific {
        SpecificProgramConfig::Pychopper(config) => assert_eq!(config.protocol, Protocol::PCB111),
        SpecificProgramConfig::Restrander(_) => panic!("the last cell runs Pychopper"),
    }
}

#[test]
fn standard_runs_three_configurations() {
    let runs = standard("reads.fq", "tmp.fq", "a.json", Protocol::PCB109);
    let seen: Vec<String> = runs.iter().map(|run| run.to_string()).collect();
    assert_eq!(seen, vec!["Restrander(a.json)", "Pychopper(Edlib)", "Pychopper(MachineLearning)"]);
    for run in &runs {
        assert_eq!(run.generic.input, "reads.fq");
        assert_eq!(run.generic.output, "tmp.fq");
    }
}

#[test]
fn compare_runs_restrander_and_the_machine_learning_backend() {
    let (first, second) = compare("reads.fq", "tmp.fq", "a.json", Protocol::PCB111);
    assert_eq!(first.to_string(), "Restrander(a.json)");
    assert_eq!(second.to_string(), "Pychopper(MachineLearning)");
    assert_eq!(first.generic.input, "reads.fq");
    assert_eq!(second.generic.output, "tmp.fq");
    match second.specific {
        SpecificProgramConfig::Pychopper(config) => assert_eq!(config.protocol, Protocol::PCB111),
        SpecificProgramConfig::Restrander(_) => panic!("the second run is Pychopper"),
    }
}

#[test]
fn scenario_a_failed_cell_is_recorded_and_the_sweep_goes_on() {
    let inputs = vec![input("one", Protocol::PCB109)];
    let configs = vec!["a.json".to_string(), "b.json".to_string(), "c.json".to_string()];
    let mut sweep = Sweep::new(restrander_grid_test(&inputs, &configs));
    let truth = truth();
    let runs = vec![
        finished(0, 1, b"@A +\nAC\n+\nII\n"),
        finished(3, 2, b""),
        finished(0, 4, b"@B -\nAC\n+\nII\n@C +\nAC\n+\nII\n"),
    ];
    let mut ran: Vec<String> = Vec::new();
    let mut k = 0;
    while let Some(cell) = sweep.next_cell() {
        ran.push(cell.config.to_string());
        let outcome = finish_run(&cell.config, &truth, &runs[k]);
        sweep.record(outcome);
        k += 1;
    }
    assert_eq!(ran, vec!["Restrander(a.json)", "Restrander(b.json)", "Restrander(c.json)"]);
    assert!(sweep.is_finished());
    assert_eq!(sweep.failure(), None);
    let rows = sweep.outcomes();
    assert_eq!(rows.len(), 3);
    match &rows[0] {
        CellOutcome::Scored(result) => {
            assert_eq!(
                result.accuracy,
                AccuracyResultExact { correct: 1, incorrect: 0, ambiguous: 2 }
            );
            assert_eq!(result.duration, 1);
        }
        CellOutcome::Failed { .. } => panic!("the first cell was scored"),
    }
    match &rows[1] {
        CellOutcome::Failed { config, error } => {
            assert_eq!(config.to_string(), "Restrander(b.json)");
            assert_eq!(*error, EvalError::ExternalToolFailure(ToolExit::Code(3)));
        }
        CellOutcome::Scored(_) => panic!("the second cell failed"),
    }
    match &rows[2] {
        CellOutcome::Scored(result) => {
            assert_eq!(
                result.accuracy,
                AccuracyResultExact { correct: 2, incorrect: 0, ambiguous: 1 }
            );
        }
        CellOutcome::Failed { .. } => panic!("the third cell was scored"),
    }
}

#[test]
fn sweep_stops_at_a_failure_of_the_setup() {
    let inputs = vec![input("one", Protocol::PCB109)];
    let configs = vec!["a.json".to_string(), "b.json".to_string()];
    let mut sweep = Sweep::new(restrander_grid_test(&inputs, &configs));
    assert!(!sweep.is_finished());
    assert!(sweep.next_cell().is_some());
    sweep.record(Err(EvalError::UnsupportedConfiguration));
    assert!(sweep.is_finished());
    assert!(sweep.next_cell().is_none());
    assert_eq!(sweep.failure(), Some(EvalError::UnsupportedConfiguration));
    assert_eq!(sweep.outcomes().len(), 0);
}

#[test]
fn sweep_without_cells_is_finished() {
    let sweep = Sweep::new(Vec::new());
    assert!(sweep.is_finished());
    assert!(sweep.next_cell().is_none());
}

#[test]
fn failures_of_the_setup_and_of_a_cell() {
    assert!(EvalError::InputNotFound.fatal());
    assert!(EvalError::UnsupportedConfiguration.fatal());
    assert!(!EvalError::MalformedRecord.fatal());
    assert!(!EvalError::UnreadableRecord.fatal());
    assert!(!EvalError::MissingOrientationMarker.fatal());
    assert!(!EvalError::ExternalToolFailure(ToolExit::Code(1)).fatal());
    assert!(!EvalError::WriteFailure.fatal());
}

#[test]
fn failures_have_names() {
    assert_eq!(EvalError::InputNotFound.name(), "InputNotFound");
    assert_eq!(EvalError::MalformedRecord.name(), "MalformedRecord");
    assert_eq!(EvalError::UnreadableRecord.name(), "UnreadableRecord");
    assert_eq!(EvalError::MissingOrientationMarker.name(), "MissingOrientationMarker");
    assert_eq!(EvalError::ExternalToolFailure(ToolExit::NoCode).name(), "ExternalToolFailure");
    assert_eq!(EvalError::UnsupportedConfiguration.name(), "UnsupportedConfiguration");
    assert_eq!(EvalError::WriteFailure.name(), "WriteFailure");
}

#[test]
fn numbers_in_decimal() {
    assert_eq!(decimal(0), "0");
    assert_eq!(decimal(7), "7");
    assert_eq!(decimal(10), "10");
    assert_eq!(decimal(1234567890), "1234567890");
    assert_eq!(decimal(u64::MAX), "18446744073709551615");
}

#[test]
fn report_header() {
    assert_eq!(
        header(),
        "configuration,correct_percent,incorrect_percent,ambiguous_percent,time_secs"
    );
}

#[test]
fn report_row_of_a_result() {
    let result = ProgramResult {
        config: ProgramConfig { specific: restrander_config("a.json"), generic: generic() },
        duration: 125,
        accuracy: AccuracyResultExact { correct: 1, incorrect: 1, ambiguous: 2 },
    };
    assert_eq!(result_row(&result, "25", "25", "50"), "Restrander(a.json),25,25,50,125");
    let copy = result.clone();
    assert_eq!(copy.duration, 125);
    assert_eq!(copy.accuracy, result.accuracy);
}

#[test]
fn report_row_of_a_failure() {
    let config = ProgramConfig {
        specific: pychopper_config(PychopperBackend::Edlib, Protocol::PCB109),
        generic: generic(),
    };
    assert_eq!(
        failure_row(&config, &EvalError::ExternalToolFailure(ToolExit::Code(1))),
        "Pychopper(Edlib),error:ExternalToolFailure,,,"
    );
    assert_eq!(
        failure_row(&config, &EvalError::MalformedRecord),
        "Pychopper(Edlib),error:MalformedRecord,,,"
    );
}

#[test]
fn grid_of_finished_runs_has_a_row_for_every_cell() {
    let inputs = vec![input("one", Protocol::PCB109), input("two", Protocol::PCB109)];
    let configs = vec!["a.json".to_string(), "b.json".to_string()];
    let cells = restrander_grid_test(&inputs, &configs);
    let truths = vec![truth(), parse(b"A\t-\n").unwrap()];
    let runs = vec![
        finished(0, 1, b"@A +\nAC\n+\nII\n"),
        ToolRun { exit: ToolExit::NotStarted, duration: 0, output: None },
        finished(0, 3, b"not fastq"),
        finished(0, 4, b"@A -\nAC\n+\nII\n"),
    ];
    let rows = run_grid(&cells, &truths, &runs);
    assert_eq!(rows.len(), 4);
    match &rows[0] {
        CellOutcome::Scored(result) => {
            assert_eq!(
                result.accuracy,
                AccuracyResultExact { correct: 1, incorrect: 0, ambiguous: 2 }
            );
            assert_eq!(result.config.to_string(), "Restrander(a.json)");
            assert_eq!(result.config.generic.input, "one");
        }
        CellOutcome::Failed { .. } => panic!("the first cell was scored"),
    }
    match &rows[1] {
        CellOutcome::Failed { config, error } => {
            assert_eq!(config.to_string(), "Restrander(b.json)");
            assert_eq!(*error, EvalError::ExternalToolFailure(ToolExit::NotStarted));
        }
        CellOutcome::Scored(_) => panic!("the second cell failed"),
    }
    match &rows[2] {
        CellOutcome::Failed { config, error } => {
            assert_eq!(config.generic.input, "two");
            assert_eq!(*error, EvalError::UnreadableRecord);
        }
        CellOutcome::Scored(_) => panic!("the third cell failed"),
    }
    match &rows[3] {
        CellOutcome::Scored(result) => {
            assert_eq!(
                result.accuracy,
                AccuracyResultExact { correct: 1, incorrect: 0, ambiguous: 0 }
            );
            assert_eq!(result.duration, 4);
        }
        CellOutcome::Failed { .. } => panic!("the fourth cell was scored"),
    }
}

#[test]
fn grid_without_cells_has_no_row() {
    let rows = run_grid(&Vec::new(), &Vec::new(), &Vec::new());
    assert_eq!(rows.len(), 0);
}
