//! The bookkeeping of a sweep over the cells of a plan.
//!
//! The caller asks for the next cell, runs the classifier for it, and
//! records what came of the run. A run that failed is kept as a row of its
//! own and the sweep goes on with the next cell; only a failure of the setup
//! stops the sweep.

use crate::config::ProgramConfig;
use crate::config::ProgramResult;
use crate::driver::GridCell;
use crate::error::EvalError;
use vstd::prelude::*;

verus! {

/// What came of one cell.
#[derive(Debug)]
pub enum CellOutcome {
    /// The run was scored.
    Scored(ProgramResult),
    /// The run of this configuration failed.
    Failed { config: ProgramConfig, error: EvalError },
}

/// The row that a sweep keeps for a cell with the configuration `config`
/// whose run gave `outcome`.
pub open spec fn row_of(config: ProgramConfig, outcome: Result<ProgramResult, EvalError>)
    -> CellOutcome {
    match outcome {
        Ok(result) => CellOutcome::Scored(result),
        Err(error) => CellOutcome::Failed { config, error },
    }
}

/// Whether what came of a run stops the sweep.
pub open spec fn stops(outcome: Result<ProgramResult, EvalError>) -> bool {
    outcome matches Err(e) && e.is_fatal()
}

/// A sweep in progress.
#[derive(Debug)]
pub struct Sweep {
    cells: Vec<GridCell>,
    rows: Vec<CellOutcome>,
    stopped: Option<EvalError>,
}

impl Sweep {
    /// The cells of the sweep, in the order in which they run.
    pub closed spec fn cells(&self) -> Seq<GridCell> {
        self.cells@
    }

    /// The rows of the cells that ran, in the same order.
    pub closed spec fn rows(&self) -> Seq<CellOutcome> {
        self.rows@
    }

    /// The failure that stopped the sweep, if one did.
    pub closed spec fn stopped(&self) -> Option<EvalError> {
        self.stopped
    }

    /// No more cells have a row than there are cells. This holds of every
    /// sweep that exists.
    #[verifier::type_invariant]
    pub open spec fn wf(&self) -> bool {
        self.rows().len() <= self.cells().len()
    }

    /// Whether a cell is left to run.
    pub open spec fn pending(&self) -> bool {
        self.stopped() is None && self.rows().len() < self.cells().len()
    }

    /// A sweep over the given cells, none of which has run.
    pub fn new(cells: Vec<GridCell>) -> (sweep: Sweep)
        ensures
            sweep.wf(),
            sweep.cells() == cells@,
            sweep.rows() == Seq::<CellOutcome>::empty(),
            sweep.stopped() is None,
    {
        Sweep { cells, rows: Vec::new(), stopped: None }
    }

    /// The cell to run next: the first one without a row, unless the sweep
    /// has stopped or every cell has run.
    pub fn next_cell(&self) -> (cell: Option<&GridCell>)
        ensures
            match cell {
                Some(c) => self.pending() && *c == self.cells()[self.rows().len() as int],
                None => !self.pending(),
            },
    {
        if self.stopped.is_none() && self.rows.len() < self.cells.len() {
            Some(&self.cells[self.rows.len()])
        } else {
            None
        }
    }

    /// Records what came of the run of the next cell.
    ///
    /// A result and a failure of the run each become the row of the cell,
    /// and the sweep goes on with the cell after it. A failure of the setup
    /// stops the sweep and leaves no row.
    pub fn record(&mut self, outcome: Result<ProgramResult, EvalError>)
        requires
            old(self).pending(),
        ensures
            final(self).wf(),
            final(self).cells() == old(self).cells(),
            final(self).stopped() == if stops(outcome) {
                outcome.err()
            } else {
                None
            },
            final(self).rows() == if stops(outcome) {
                old(self).rows()
            } else {
                old(self).rows().push(
                    row_of(old(self).cells()[old(self).rows().len() as int].config, outcome),
                )
            },
    {
        let mut taken = Sweep::new(Vec::new());
        std::mem::swap(self, &mut taken);
        let Sweep { cells, mut rows, mut stopped } = taken;
        match outcome {
            Ok(result) => {
                rows.push(CellOutcome::Scored(result));
            },
            Err(error) => {
                if error.fatal() {
                    stopped = Some(error);
                } else {
                    let config = cells[rows.len()].config.clone();
                    rows.push(CellOutcome::Failed { config, error });
                }
            },
        }
        *self = Sweep { cells, rows, stopped };
    }

    /// Whether no cell is left to run.
    pub fn is_finished(&self) -> (finished: bool)
        ensures
            finished == !self.pending(),
    {
        !(self.stopped.is_none() && self.rows.len() < self.cells.len())
    }

    /// The failure that stopped the sweep, if one did.
    pub fn failure(&self) -> (failure: Option<EvalError>)
        ensures
            failure == self.stopped(),
    {
        self.stopped
    }

    /// The rows of the cells that ran.
    pub fn outcomes(&self) -> (rows: &Vec<CellOutcome>)
        ensures
            rows@ == self.rows(),
    {
        &self.rows
    }

    /// Ends the sweep and hands out the rows of the cells that ran.
    pub fn into_outcomes(self) -> (rows: Vec<CellOutcome>)
        ensures
            rows@ == self.rows(),
    {
        self.rows
    }
}

/// A failed run does not end the sweep: it leaves a row for its cell, and
/// the cell after it, if there is one, is the next to run.
pub proof fn lemma_failure_goes_on(before: Sweep, after: Sweep, error: EvalError)
    requires
        before.wf(),
        before.pending(),
        !error.is_fatal(),
        after.cells() == before.cells(),
        after.stopped() is None,
        after.rows() == before.rows().push(
            row_of(
                before.cells()[before.rows().len() as int].config,
                Err::<ProgramResult, _>(error),
            ),
        ),
    ensures
        after.rows().len() == before.rows().len() + 1,
        after.rows().last() is Failed,
        after.rows().len() < after.cells().len() ==> after.pending(),
        after.wf(),
{
}

} // verus!
