//! Scoring of read-orientation classifiers against the alignments of their
//! reads.
//!
//! An alignment file gives the true orientation of every read (`paf`). A
//! classifier's output gives the orientation that the classifier called for
//! each read (`fastq`). Joining the two gives a verdict for every read of
//! the ground truth, the reads of each verdict and their numbers (`score`),
//! and the verdicts of two classifiers can be compared read by read
//! (`comparison`).
//!
//! The library starts no process and touches no file. It says how a
//! classifier is to be invoked (`pychopper`, `restrander`), takes what was
//! observed of the invocation (`runner`), plans the runs of an operation
//! (`driver`), keeps the books of a sweep (`sweep`), and writes the lines of
//! the report (`report`).

pub mod cli;
pub mod comparison;
pub mod config;
pub mod driver;
pub mod error;
pub mod fastq;
pub mod orientation;
pub mod paf;
pub mod pychopper;
pub mod read_set;
pub mod report;
pub mod restrander;
pub mod runner;
pub mod score;
pub mod sweep;
pub mod text;
