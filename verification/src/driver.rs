//! The plans of the program's operations, and the scoring of their runs.
//!
//! A plan says which runs an operation consists of, in which order. The
//! caller runs the classifier for each cell; what was observed of the runs
//! is scored here, cell by cell.

use crate::config::GenericProgramConfig;
use crate::config::ProgramConfig;
use crate::config::ProgramResult;
use crate::config::Protocol;
use crate::config::PychopperBackend;
use crate::config::PychopperConfig;
use crate::config::RestranderConfig;
use crate::config::SpecificProgramConfig;
use crate::error::EvalError;
use crate::fastq::ClassifierFamily;
use crate::fastq::fastq_heads;
use crate::fastq::IdentifierRule;
use crate::fastq::parse;
use crate::fastq::rule_of;
use crate::fastq::stream_calls;
use crate::orientation::ReadOrientation;
use crate::paf::all_text;
use crate::paf::first_seen;
use crate::paf::index_of;
use crate::paf::paf_records;
use crate::paf::PafReads;
use crate::runner::is_run_result;
use crate::runner::lemma_run_failures;
use crate::runner::run_outcome;
use crate::runner::score_run;
use crate::runner::ToolRun;
use crate::score::AccuracyResultExact;
use crate::score::counts_of;
use crate::sweep::CellOutcome;
use crate::sweep::row_of;
use crate::sweep::Sweep;
use crate::text::lines_of;
use itertools::Itertools;
use vstd::prelude::*;

verus! {

/// One input of a sweep: the reads to classify, the alignments that give
/// their true orientation, where Restrander's configurations lie, the file
/// that a classifier writes, and the protocol of the reads.
#[derive(Debug)]
pub struct GridTestInput {
    pub fastq: String,
    pub paf: String,
    pub config_dir: String,
    pub temp_fastq: String,
    pub protocol: Protocol,
}

impl Clone for GridTestInput {
    fn clone(&self) -> (copy: Self)
        ensures
            copy == *self,
    {
        GridTestInput {
            fastq: self.fastq.clone(),
            paf: self.paf.clone(),
            config_dir: self.config_dir.clone(),
            temp_fastq: self.temp_fastq.clone(),
            protocol: self.protocol,
        }
    }
}

/// One cell of a sweep: the input it works on, by its index, and the
/// configuration of the run.
#[derive(Debug)]
pub struct GridCell {
    pub input: usize,
    pub config: ProgramConfig,
}

/// The generic part of every run on an input.
pub open spec fn generic_of(input: GridTestInput) -> GenericProgramConfig {
    GenericProgramConfig { input: input.fastq, output: input.temp_fastq }
}

/// The cell that runs a configuration on the `i`-th input.
pub open spec fn cell_of(inputs: Seq<GridTestInput>, i: int, specific: SpecificProgramConfig)
    -> GridCell {
    GridCell {
        input: i as usize,
        config: ProgramConfig { specific, generic: generic_of(inputs[i]) },
    }
}

/// The cells of all pairs of an input and a configuration: input by input,
/// and for each input configuration by configuration.
pub open spec fn grid_of(inputs: Seq<GridTestInput>, configs: Seq<SpecificProgramConfig>) -> Seq<
    GridCell,
> {
    Seq::new(
        (inputs.len() * configs.len()) as nat,
        |k: int| cell_of(inputs, k / (configs.len() as int), configs[k % (configs.len() as int)]),
    )
}

/// Restrander's configurations, given by their files.
pub open spec fn restrander_configs(files: Seq<String>) -> Seq<SpecificProgramConfig> {
    Seq::new(
        files.len(),
        |j: int|
            SpecificProgramConfig::Restrander(RestranderConfig { config_filename: files[j] }),
    )
}

/// All pairs of a row and a column, row by row.
///
/// Calls `Itertools::cartesian_product` on the two ranges, and collects
/// with `Itertools::collect_vec`. By its documentation the product walks
/// the first range once and, for each of its items, the whole second range:
/// pair number `k` is row `k / columns`, column `k % columns`.
#[verifier::external_body]
fn index_pairs(rows: usize, columns: usize) -> (pairs: Vec<(usize, usize)>)
    requires
        rows * columns <= usize::MAX,
    ensures
        pairs@ == Seq::new(
            (rows * columns) as nat,
            |k: int| ((k / (columns as int)) as usize, (k % (columns as int)) as usize),
        ),
{
    (0..rows).cartesian_product(0..columns).collect_vec()
}

/// A number below `rows * columns` splits into a row and a column.
pub proof fn lemma_cell_position(k: int, rows: int, columns: int)
    requires
        0 <= k < rows * columns,
        0 <= rows,
        0 <= columns,
    ensures
        0 < columns,
        0 <= k / columns < rows,
        0 <= k % columns < columns,
{
    assert(0 < columns) by (nonlinear_arith)
        requires
            0 <= k < rows * columns,
            0 <= columns,
    ;
    vstd::arithmetic::div_mod::lemma_fundamental_div_mod(k, columns);
    assert(k / columns < rows) by (nonlinear_arith)
        requires
            0 <= k < rows * columns,
            0 < columns,
            k == columns * (k / columns) + k % columns,
            0 <= k % columns < columns,
    ;
    assert(0 <= k / columns) by (nonlinear_arith)
        requires
            0 <= k,
            0 < columns,
            k == columns * (k / columns) + k % columns,
            0 <= k % columns < columns,
    ;
}

/// The cell of the `i`-th input and the `j`-th configuration is cell number
/// `i * configs.len() + j`: the cells of one input stand together, in the
/// order of the configurations.
pub proof fn lemma_grid_order(
    inputs: Seq<GridTestInput>,
    configs: Seq<SpecificProgramConfig>,
    i: int,
    j: int,
)
    requires
        0 <= i < inputs.len(),
        0 <= j < configs.len(),
    ensures
        0 <= i * configs.len() + j < grid_of(inputs, configs).len(),
        grid_of(inputs, configs)[i * configs.len() + j] == cell_of(inputs, i, configs[j]),
{
    let m = configs.len() as int;
    let n = inputs.len() as int;
    let k = i * m + j;
    assert(0 <= k < n * m) by (nonlinear_arith)
        requires
            0 <= i < n,
            0 <= j < m,
            k == i * m + j,
    ;
    vstd::arithmetic::div_mod::lemma_fundamental_div_mod_converse(k, m, i, j);
}

fn plan(inputs: &Vec<GridTestInput>, configs: &Vec<SpecificProgramConfig>) -> (cells: Vec<
    GridCell,
>)
    requires
        inputs.len() * configs.len() <= usize::MAX,
    ensures
        cells@ == grid_of(inputs@, configs@),
{
    let pairs = index_pairs(inputs.len(), configs.len());
    let mut cells: Vec<GridCell> = Vec::new();
    let mut k: usize = 0;
    while k < pairs.len()
        invariant
            k <= pairs.len(),
            pairs@.len() == inputs.len() * configs.len(),
            pairs@ == Seq::new(
                (inputs.len() * configs.len()) as nat,
                |k: int|
                    ((k / (configs.len() as int)) as usize, (k % (configs.len() as int)) as usize),
            ),
            cells@ == grid_of(inputs@, configs@).take(k as int),
        decreases pairs.len() - k,
    {
        proof {
            lemma_cell_position(k as int, inputs.len() as int, configs.len() as int);
        }
        let (i, j) = pairs[k];
        let input = &inputs[i];
        let cell = GridCell {
            input: i,
            config: ProgramConfig {
                specific: configs[j].clone(),
                generic: GenericProgramConfig {
                    input: input.fastq.clone(),
                    output: input.temp_fastq.clone(),
                },
            },
        };
        cells.push(cell);
        k = k + 1;
    }
    cells
}

/// The sweep of Restrander over all inputs and all of the given
/// configuration files: input by input, and for each input file by file.
pub fn restrander_grid_test(inputs: &Vec<GridTestInput>, configs: &Vec<String>) -> (cells: Vec<
    GridCell,
>)
    requires
        inputs.len() * configs.len() <= usize::MAX,
    ensures
        cells@ == grid_of(inputs@, restrander_configs(configs@)),
{
    let mut specific: Vec<SpecificProgramConfig> = Vec::new();
    let mut j: usize = 0;
    while j < configs.len()
        invariant
            j <= configs.len(),
            specific@ == restrander_configs(configs@).take(j as int),
        decreases configs.len() - j,
    {
        specific.push(
            SpecificProgramConfig::Restrander(
                RestranderConfig { config_filename: configs[j].clone() },
            ),
        );
        j = j + 1;
    }
    assert(restrander_configs(configs@).take(j as int) == restrander_configs(configs@));
    plan(inputs, &specific)
}

/// The sweep of Pychopper over all inputs and all of the given
/// configurations: input by input, and for each input configuration by
/// configuration.
pub fn pychopper_grid_test(inputs: &Vec<GridTestInput>, configs: &Vec<SpecificProgramConfig>)
    -> (cells: Vec<GridCell>)
    requires
        inputs.len() * configs.len() <= usize::MAX,
    ensures
        cells@ == grid_of(inputs@, configs@),
{
    plan(inputs, configs)
}

/// Pychopper's configuration with a backend and a protocol.
pub open spec fn pychopper_with(backend: PychopperBackend, protocol: Protocol)
    -> SpecificProgramConfig {
    SpecificProgramConfig::Pychopper(PychopperConfig { backend, protocol })
}

/// The two configurations of Pychopper that are always tried: first the
/// one with the Edlib backend, then the one with the machine-learning
/// backend.
pub open spec fn pychopper_configs(protocol: Protocol) -> Seq<SpecificProgramConfig> {
    seq![
        pychopper_with(PychopperBackend::Edlib, protocol),
        pychopper_with(PychopperBackend::MachineLearning, protocol),
    ]
}

/// The sweep over one input: first Restrander with each of the given
/// configuration files, then Pychopper with each of its two backends.
pub fn grid_test(input: &GridTestInput, config_files: &Vec<String>) -> (cells: Vec<GridCell>)
    ensures
        cells@ == grid_of(seq![*input], restrander_configs(config_files@)) + grid_of(
            seq![*input],
            pychopper_configs(input.protocol),
        ),
{
    let mut inputs: Vec<GridTestInput> = Vec::new();
    inputs.push(input.clone());
    let mut pychopper: Vec<SpecificProgramConfig> = Vec::new();
    pychopper.push(
        SpecificProgramConfig::Pychopper(
            PychopperConfig { backend: PychopperBackend::Edlib, protocol: input.protocol },
        ),
    );
    pychopper.push(
        SpecificProgramConfig::Pychopper(
            PychopperConfig { backend: PychopperBackend::MachineLearning, protocol: input.protocol },
        ),
    );
    assert(inputs.len() * config_files.len() == config_files.len()) by (nonlinear_arith)
        requires
            inputs.len() == 1,
    ;
    assert(inputs.len() * pychopper.len() == 2) by (nonlinear_arith)
        requires
            inputs.len() == 1,
            pychopper.len() == 2,
    ;
    let mut cells = restrander_grid_test(&inputs, config_files);
    let mut rest = pychopper_grid_test(&inputs, &pychopper);
    cells.append(&mut rest);
    cells
}

/// The three runs of the standard operation on one input: Restrander with
/// the given configuration file, Pychopper with the Edlib backend, and
/// Pychopper with the machine-learning backend.
pub fn standard(fastq: &str, temp_fastq: &str, restrander_config: &str, protocol: Protocol) -> (runs:
    Vec<ProgramConfig>)
    ensures
        runs@.len() == 3,
        forall|k: int|
            0 <= k < 3 ==> (#[trigger] runs@[k]).generic.input@ == fastq@
                && runs@[k].generic.output@ == temp_fastq@,
        runs@[0].specific matches SpecificProgramConfig::Restrander(c) && c.config_filename@
            == restrander_config@,
        runs@[1].specific == pychopper_with(PychopperBackend::Edlib, protocol),
        runs@[2].specific == pychopper_with(PychopperBackend::MachineLearning, protocol),
{
    let mut runs: Vec<ProgramConfig> = Vec::new();
    runs.push(
        ProgramConfig {
            specific: SpecificProgramConfig::Restrander(
                RestranderConfig { config_filename: restrander_config.to_owned() },
            ),
            generic: GenericProgramConfig {
                input: fastq.to_owned(),
                output: temp_fastq.to_owned(),
            },
        },
    );
    runs.push(
        ProgramConfig {
            specific: SpecificProgramConfig::Pychopper(
                PychopperConfig { backend: PychopperBackend::Edlib, protocol },
            ),
            generic: GenericProgramConfig {
                input: fastq.to_owned(),
                output: temp_fastq.to_owned(),
            },
        },
    );
    runs.push(
        ProgramConfig {
            specific: SpecificProgramConfig::Pychopper(
                PychopperConfig { backend: PychopperBackend::MachineLearning, protocol },
            ),
            generic: GenericProgramConfig {
                input: fastq.to_owned(),
                output: temp_fastq.to_owned(),
            },
        },
    );
    runs
}

/// The two runs of a comparison on one input: Restrander with the given
/// configuration file, and Pychopper with the machine-learning backend.
pub fn compare(fastq: &str, temp_fastq: &str, restrander_config: &str, protocol: Protocol) -> (runs:
    (ProgramConfig, ProgramConfig))
    ensures
        runs.0.generic.input@ == fastq@,
        runs.0.generic.output@ == temp_fastq@,
        runs.0.specific matches SpecificProgramConfig::Restrander(c) && c.config_filename@
            == restrander_config@,
        runs.1.generic.input@ == fastq@,
        runs.1.generic.output@ == temp_fastq@,
        runs.1.specific == pychopper_with(PychopperBackend::MachineLearning, protocol),
{
    (
        ProgramConfig {
            specific: SpecificProgramConfig::Restrander(
                RestranderConfig { config_filename: restrander_config.to_owned() },
            ),
            generic: GenericProgramConfig {
                input: fastq.to_owned(),
                output: temp_fastq.to_owned(),
            },
        },
        ProgramConfig {
            specific: SpecificProgramConfig::Pychopper(
                PychopperConfig { backend: PychopperBackend::MachineLearning, protocol },
            ),
            generic: GenericProgramConfig {
                input: fastq.to_owned(),
                output: temp_fastq.to_owned(),
            },
        },
    )
}

/// Scores the output that Restrander has already written against the
/// bytes of an alignment file.
pub fn quick(fastq: &[u8], paf: &[u8]) -> (counts: Result<AccuracyResultExact, EvalError>)
    ensures
        match counts {
            Ok(c) => {
                &&& all_text(lines_of(paf@))
                &&& stream_calls(rule_of(ClassifierFamily::Restrander), fastq_heads(fastq@))
                    matches Ok(found)
                &&& c == counts_of(
                    first_seen(paf_records(lines_of(paf@))),
                    index_of(paf_records(lines_of(paf@))),
                    index_of(found),
                )
            },
            Err(e) => if all_text(lines_of(paf@)) {
                stream_calls(rule_of(ClassifierFamily::Restrander), fastq_heads(fastq@)) == Err::<
                    Seq<(Seq<char>, ReadOrientation)>,
                    _,
                >(e)
            } else {
                e == EvalError::MalformedRecord
            },
        },
{
    let paf_reads = match crate::paf::parse(paf) {
        Ok(paf_reads) => paf_reads,
        Err(e) => {
            return Err(e);
        },
    };
    let rule = IdentifierRule::for_family(ClassifierFamily::Restrander);
    parse(fastq, &paf_reads, &rule)
}

/// The rule by which the output of a configuration's classifier is read.
pub open spec fn rule_for(specific: SpecificProgramConfig) -> IdentifierRule {
    match specific {
        SpecificProgramConfig::Restrander(_) => rule_of(ClassifierFamily::Restrander),
        SpecificProgramConfig::Pychopper(_) => rule_of(ClassifierFamily::Pychopper),
    }
}

/// Scores a finished run of either classifier against the ground truth.
pub fn finish_run(config: &ProgramConfig, paf_reads: &PafReads, finished: &ToolRun) -> (result:
    Result<ProgramResult, EvalError>)
    ensures
        is_run_result(result, rule_for(config.specific), *config, *paf_reads, *finished),
{
    let family = match config.specific {
        SpecificProgramConfig::Restrander(_) => ClassifierFamily::Restrander,
        SpecificProgramConfig::Pychopper(_) => ClassifierFamily::Pychopper,
    };
    let rule = IdentifierRule::for_family(family);
    score_run(&rule, config.clone(), paf_reads, finished)
}

/// The row of a cell, given the ground truth of its input and what was
/// observed of its run.
pub open spec fn cell_row(cell: GridCell, paf_reads: PafReads, finished: ToolRun) -> CellOutcome {
    row_of(cell.config, run_outcome(rule_for(cell.config.specific), cell.config, paf_reads, finished))
}

/// Scores the finished runs of all cells of a plan: `runs` holds what was
/// observed of each cell's run, and `truths` the ground truth of each input.
///
/// Every cell gets a row, in the order of the plan. A run that failed gives
/// a row that names the failure, and does not keep the cells after it from
/// being scored.
pub fn run_grid(cells: &Vec<GridCell>, truths: &Vec<PafReads>, runs: &Vec<ToolRun>) -> (rows: Vec<
    CellOutcome,
>)
    requires
        runs.len() == cells.len(),
        forall|k: int| 0 <= k < cells.len() ==> (#[trigger] cells[k]).input < truths.len(),
    ensures
        rows.len() == cells.len(),
        forall|k: int|
            0 <= k < cells.len() ==> #[trigger] rows[k] == cell_row(
                cells[k],
                truths[cells[k].input as int],
                runs[k],
            ),
{
    let mut sweep = Sweep::new(clone_cells(cells));
    let mut k: usize = 0;
    while k < cells.len()
        invariant
            k <= cells.len(),
            runs.len() == cells.len(),
            forall|k: int| 0 <= k < cells.len() ==> (#[trigger] cells[k]).input < truths.len(),
            sweep.cells() == cells@,
            sweep.stopped() is None,
            sweep.rows().len() == k,
            forall|j: int|
                0 <= j < k ==> #[trigger] sweep.rows()[j] == cell_row(
                    cells[j],
                    truths[cells[j].input as int],
                    runs[j],
                ),
        decreases cells.len() - k,
    {
        let cell = &cells[k];
        let outcome = finish_run(&cell.config, &truths[cell.input], &runs[k]);
        proof {
            lemma_run_failures(
                rule_for(cell.config.specific),
                cell.config,
                truths[cell.input as int],
                runs[k as int],
            );
        }
        sweep.record(outcome);
        k = k + 1;
    }
    sweep.into_outcomes()
}

fn clone_cells(cells: &Vec<GridCell>) -> (copy: Vec<GridCell>)
    ensures
        copy@ == cells@,
{
    let mut copy: Vec<GridCell> = Vec::new();
    let mut k: usize = 0;
    while k < cells.len()
        invariant
            k <= cells.len(),
            copy@ == cells@.take(k as int),
        decreases cells.len() - k,
    {
        copy.push(GridCell { input: cells[k].input, config: cells[k].config.clone() });
        k = k + 1;
    }
    copy
}

} // verus!
