use strand_eval::driver::quick;
use strand_eval::error::EvalError;
use strand_eval::fastq::{
    parse, parse_categorise, ClassifierCalls, ClassifierFamily, IdentifierRule,
};
use strand_eval::orientation::ReadOrientation;
use strand_eval::paf::{PafRead, PafReads};
use strand_eval::read_set::ReadSet;
use strand_eval::score::{score, AccuracyResultExact, CategorisedReads};

fn truth(reads: &[(&str, ReadOrientation)]) -> PafReads {
    let mut index = PafReads::new();
    for (name, strand) in reads {
        index.insert(PafRead { name: name.to_string(), strand: *strand });
    }
    index
}

fn calls(entries: &[(&str, ReadOrientation)]) -> ClassifierCalls {
    let mut calls = ClassifierCalls::new();
    for (name, call) in entries {
        calls.insert(name.to_string(), *call);
    }
    calls
}

fn names(list: &[&str]) -> Vec<String> {
    list.iter().map(|name| name.to_string()).collect()
}

fn abc() -> PafReads {
    truth(&[
        ("A", ReadOrientation::Forward),
        ("B", ReadOrientation::Reverse),
        ("C", ReadOrientation::Forward),
    ])
}

#[test]
fn read_set_keeps_each_identifier_once() {
    let mut set = ReadSet::new();
    assert!(set.is_empty());
    assert!(set.insert("x".to_string()));
    assert!(set.insert("y".to_string()));
    assert!(!set.insert("x".to_string()));
    assert_eq!(set.len(), 2);
    assert!(set.contains("x"));
    assert!(!set.contains("z"));
    assert_eq!(set.get(0), "x");
    assert_eq!(set.to_vec(), names(&["x", "y"]));
    assert!(!set.is_empty());
}

#[test]
fn categorised_reads_start_empty() {
    let reads = CategorisedReads::new();
    assert_eq!(reads.correct.len(), 0);
    assert_eq!(reads.incorrect.len(), 0);
    assert_eq!(reads.ambiguous.len(), 0);
}

#[test]
fn counts_total_and_definedness() {
    let counts = AccuracyResultExact { correct: 3, incorrect: 4, ambiguous: 5 };
    assert_eq!(counts.total(), 12);
    assert!(counts.is_defined());
    let counts = AccuracyResultExact { correct: 0, incorrect: 0, ambiguous: 0 };
    assert_eq!(counts.total(), 0);
    assert!(!counts.is_defined());
}

#[test]
fn scenario_one_correct_one_incorrect_one_ambiguous() {
    let calls = calls(&[
        ("A", ReadOrientation::Forward),
        ("B", ReadOrientation::Forward),
        ("D", ReadOrientation::Reverse),
    ]);
    let (counts, reads) = score(&abc(), &calls);
    assert_eq!(counts, AccuracyResultExact { correct: 1, incorrect: 1, ambiguous: 1 });
    assert_eq!(reads.correct.to_vec(), names(&["A"]));
    assert_eq!(reads.incorrect.to_vec(), names(&["B"]));
    assert_eq!(reads.ambiguous.to_vec(), names(&["C"]));
    let share = 100.0 * counts.correct as f64 / counts.total() as f64;
    assert!((share - 33.3).abs() < 0.05);
    let share = 100.0 * counts.incorrect as f64 / counts.total() as f64;
    assert!((share - 33.3).abs() < 0.05);
    let share = 100.0 * counts.ambiguous as f64 / counts.total() as f64;
    assert!((share - 33.3).abs() < 0.05);
}

#[test]
fn counts_add_up_to_the_ground_truth() {
    let index = truth(&[
        ("r1", ReadOrientation::Forward),
        ("r2", ReadOrientation::Reverse),
        ("r3", ReadOrientation::Unknown),
        ("r4", ReadOrientation::Forward),
        ("r5", ReadOrientation::Reverse),
    ]);
    let calls = calls(&[
        ("r1", ReadOrientation::Forward),
        ("r2", ReadOrientation::Unknown),
        ("r3", ReadOrientation::Forward),
        ("r5", ReadOrientation::Reverse),
        ("other", ReadOrientation::Reverse),
    ]);
    let (counts, reads) = score(&index, &calls);
    assert_eq!(counts.correct + counts.incorrect + counts.ambiguous, 5);
    assert_eq!(counts, AccuracyResultExact { correct: 2, incorrect: 1, ambiguous: 2 });
    assert_eq!(reads.correct.to_vec(), names(&["r1", "r5"]));
    assert_eq!(reads.incorrect.to_vec(), names(&["r3"]));
    assert_eq!(reads.ambiguous.to_vec(), names(&["r2", "r4"]));
}

#[test]
fn scoring_twice_gives_the_same() {
    let calls = calls(&[("A", ReadOrientation::Forward), ("B", ReadOrientation::Forward)]);
    let index = abc();
    let (first_counts, first_reads) = score(&index, &calls);
    let (second_counts, second_reads) = score(&index, &calls);
    assert_eq!(first_counts, second_counts);
    assert_eq!(first_reads.correct.to_vec(), second_reads.correct.to_vec());
    assert_eq!(first_reads.incorrect.to_vec(), second_reads.incorrect.to_vec());
    assert_eq!(first_reads.ambiguous.to_vec(), second_reads.ambiguous.to_vec());
}

#[test]
fn no_calls_make_every_read_ambiguous() {
    let (counts, reads) = score(&abc(), &ClassifierCalls::new());
    assert_eq!(counts, AccuracyResultExact { correct: 0, incorrect: 0, ambiguous: 3 });
    assert_eq!(reads.ambiguous.to_vec(), names(&["A", "B", "C"]));
    assert!(reads.correct.is_empty());
    assert!(reads.incorrect.is_empty());
    assert_eq!(100 * counts.ambiguous / counts.total(), 100);
}

#[test]
fn empty_ground_truth_gives_no_verdict() {
    let calls = calls(&[("A", ReadOrientation::Forward)]);
    let (counts, reads) = score(&PafReads::new(), &calls);
    assert_eq!(counts, AccuracyResultExact { correct: 0, incorrect: 0, ambiguous: 0 });
    assert!(!counts.is_defined());
    assert!(reads.correct.is_empty() && reads.incorrect.is_empty() && reads.ambiguous.is_empty());
}

#[test]
fn unknown_truth_is_never_called_correctly() {
    let index = truth(&[("u", ReadOrientation::Unknown)]);
    let (counts, _) = score(&index, &calls(&[("u", ReadOrientation::Forward)]));
    assert_eq!(counts, AccuracyResultExact { correct: 0, incorrect: 1, ambiguous: 0 });
    let (counts, _) = score(&index, &calls(&[("u", ReadOrientation::Unknown)]));
    assert_eq!(counts, AccuracyResultExact { correct: 0, incorrect: 0, ambiguous: 1 });
}

#[test]
fn parse_scores_a_fastq_stream() {
    let data = b"@A|1 +\nAC\n+\nII\n@B|2 +\nAC\n+\nII\n@D|3 -\nAC\n+\nII\n";
    let rule = IdentifierRule::for_family(ClassifierFamily::Restrander);
    let counts = parse(data, &abc(), &rule).unwrap();
    assert_eq!(counts, AccuracyResultExact { correct: 1, incorrect: 1, ambiguous: 1 });
    let reads = parse_categorise(data, &abc(), &rule).unwrap();
    assert_eq!(reads.correct.to_vec(), names(&["A"]));
    assert_eq!(reads.incorrect.to_vec(), names(&["B"]));
    assert_eq!(reads.ambiguous.to_vec(), names(&["C"]));
}

#[test]
fn parse_reads_pychopper_names_from_the_second_field() {
    let data = b"@1|A +\nAC\n+\nII\n@2|B -\nAC\n+\nII\n@3|C ?\nAC\n+\nII\n";
    let rule = IdentifierRule::for_family(ClassifierFamily::Pychopper);
    let counts = parse(data, &abc(), &rule).unwrap();
    assert_eq!(counts, AccuracyResultExact { correct: 2, incorrect: 0, ambiguous: 1 });
    let rule = IdentifierRule::for_family(ClassifierFamily::Restrander);
    let counts = parse(data, &abc(), &rule).unwrap();
    assert_eq!(counts, AccuracyResultExact { correct: 0, incorrect: 0, ambiguous: 3 });
}

#[test]
fn parse_counts_the_later_of_two_records() {
    let data = b"@A +\nAC\n+\nII\n@A -\nAC\n+\nII\n";
    let rule = IdentifierRule::for_family(ClassifierFamily::Restrander);
    let counts = parse(data, &abc(), &rule).unwrap();
    assert_eq!(counts, AccuracyResultExact { correct: 0, incorrect: 1, ambiguous: 2 });
}

#[test]
fn parse_hands_on_the_failure_of_the_stream() {
    let rule = IdentifierRule::for_family(ClassifierFamily::Pychopper);
    assert_eq!(parse(b"@A +\nAC\n+\nII\n", &abc(), &rule).err(), Some(EvalError::MalformedRecord));
    assert_eq!(parse(b"A +\nAC\n+\nII\n", &abc(), &rule).err(), Some(EvalError::UnreadableRecord));
    assert_eq!(
        parse_categorise(b"@\nAC\n+\nII\n", &abc(), &rule).err(),
        Some(EvalError::MissingOrientationMarker)
    );
}

#[test]
fn quick_scores_restrander_output() {
    let paf = b"A\t10\t+\nB\t10\t-\nC\t10\t+\n";
    let fastq = b"@A|1 +\nAC\n+\nII\n@B|2 +\nAC\n+\nII\n";
    let counts = quick(fastq, paf).unwrap();
    assert_eq!(counts, AccuracyResultExact { correct: 1, incorrect: 1, ambiguous: 1 });
    assert_eq!(quick(fastq, &[0xff]).err(), Some(EvalError::MalformedRecord));
    assert_eq!(quick(b"x", paf).err(), Some(EvalError::UnreadableRecord));
}

#[test]
fn copies_hold_the_same_reads() {
    let mut set = ReadSet::new();
    set.insert("x".to_string());
    set.insert("y".to_string());
    let copy = set.clone();
    assert_eq!(copy.to_vec(), names(&["x", "y"]));
    assert!(copy.contains("y"));
    let index = abc();
    let copy = index.clone();
    assert_eq!(copy.all_ids(), names(&["A", "B", "C"]));
    assert_eq!(copy.get("B"), ReadOrientation::Reverse);
    assert_eq!(copy.size(), 3);
    let (_, reads) = score(&index, &calls(&[("A", ReadOrientation::Forward)]));
    let copy = reads.clone();
    assert_eq!(copy.correct.to_vec(), names(&["A"]));
    assert_eq!(copy.ambiguous.to_vec(), names(&["B", "C"]));
    assert!(copy.incorrect.is_empty());
}
