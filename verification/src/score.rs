//! The accuracy of one classifier: a verdict for every read of the ground
//! truth, the reads of each verdict, and how many there are.
//!
//! Every count is out of the reads of the ground truth, not out of the
//! reads that the classifier wrote: a read that the classifier dropped is
//! ambiguous, like one that it marked as unknown. Calls for reads that the
//! ground truth does not hold play no part.

use crate::fastq::call_for;
use crate::fastq::ClassifierCalls;
use crate::orientation::judge;
use crate::orientation::ReadOrientation;
use crate::orientation::Verdict;
use crate::orientation::verdict_of;
use crate::paf::PafReads;
use crate::read_set::kept;
use crate::read_set::lemma_kept;
use crate::read_set::ReadSet;
use vstd::prelude::*;

verus! {

/// The verdict for a read of the ground truth.
pub open spec fn read_verdict(
    truth: Map<Seq<char>, ReadOrientation>,
    calls: Map<Seq<char>, ReadOrientation>,
    name: Seq<char>,
) -> Verdict {
    verdict_of(truth[name], call_for(calls, name))
}

/// The names whose verdict is `verdict`, whether the ground truth holds
/// them or not.
pub open spec fn with_verdict(
    truth: Map<Seq<char>, ReadOrientation>,
    calls: Map<Seq<char>, ReadOrientation>,
    verdict: Verdict,
) -> Set<Seq<char>> {
    Set::new(|name: Seq<char>| read_verdict(truth, calls, name) == verdict)
}

/// Those of `names` whose verdict is `verdict`, in the order of `names`.
pub open spec fn judged(
    names: Seq<Seq<char>>,
    truth: Map<Seq<char>, ReadOrientation>,
    calls: Map<Seq<char>, ReadOrientation>,
    verdict: Verdict,
) -> Seq<Seq<char>> {
    kept(names, with_verdict(truth, calls, verdict), true)
}

/// Whether `set` holds exactly the reads of the ground truth whose verdict
/// is `verdict`.
pub open spec fn holds_verdict(
    set: Set<Seq<char>>,
    truth: Map<Seq<char>, ReadOrientation>,
    calls: Map<Seq<char>, ReadOrientation>,
    verdict: Verdict,
) -> bool {
    forall|name: Seq<char>|
        set.contains(name) <==> truth.contains_key(name) && read_verdict(truth, calls, name)
            == verdict
}

/// How many reads of the ground truth got each verdict.
#[derive(Clone, Copy, Debug, PartialEq, Eq, Structural)]
pub struct AccuracyResultExact {
    pub correct: u64,
    pub incorrect: u64,
    pub ambiguous: u64,
}

impl AccuracyResultExact {
    /// The number of reads judged.
    pub open spec fn spec_total(&self) -> int {
        self.correct + self.incorrect + self.ambiguous
    }

    /// The number of reads judged.
    pub fn total(&self) -> (total: u64)
        requires
            self.spec_total() <= u64::MAX,
        ensures
            total == self.spec_total(),
    {
        self.correct + self.incorrect + self.ambiguous
    }

    /// Whether any read was judged. Shares of no read at all are undefined.
    pub fn is_defined(&self) -> (defined: bool)
        ensures
            defined == (self.spec_total() > 0),
    {
        self.correct > 0 || self.incorrect > 0 || self.ambiguous > 0
    }
}

/// The reads of the ground truth, by verdict.
pub struct CategorisedReads {
    pub correct: ReadSet,
    pub incorrect: ReadSet,
    pub ambiguous: ReadSet,
}

impl Clone for CategorisedReads {
    fn clone(&self) -> (copy: Self)
        ensures
            copy.correct@ == self.correct@,
            copy.correct.ids() == self.correct.ids(),
            copy.incorrect@ == self.incorrect@,
            copy.incorrect.ids() == self.incorrect.ids(),
            copy.ambiguous@ == self.ambiguous@,
            copy.ambiguous.ids() == self.ambiguous.ids(),
    {
        CategorisedReads {
            correct: self.correct.clone(),
            incorrect: self.incorrect.clone(),
            ambiguous: self.ambiguous.clone(),
        }
    }
}

impl CategorisedReads {
    /// Each of the three is a well-formed set, and no read is in two of
    /// them.
    pub open spec fn wf(&self) -> bool {
        &&& self.correct.wf()
        &&& self.incorrect.wf()
        &&& self.ambiguous.wf()
        &&& self.correct@.disjoint(self.incorrect@)
        &&& self.correct@.disjoint(self.ambiguous@)
        &&& self.incorrect@.disjoint(self.ambiguous@)
    }

    /// Three empty sets.
    pub fn new() -> (reads: CategorisedReads)
        ensures
            reads.wf(),
            reads.correct.ids() == Seq::<Seq<char>>::empty(),
            reads.incorrect.ids() == Seq::<Seq<char>>::empty(),
            reads.ambiguous.ids() == Seq::<Seq<char>>::empty(),
    {
        CategorisedReads {
            correct: ReadSet::new(),
            incorrect: ReadSet::new(),
            ambiguous: ReadSet::new(),
        }
    }
}

/// What a scoring of `calls` against a ground truth with the names `names`
/// and the mapping `truth` is: the reads of each verdict in the order of the
/// ground truth, and their numbers.
pub open spec fn is_score(
    names: Seq<Seq<char>>,
    truth: Map<Seq<char>, ReadOrientation>,
    calls: Map<Seq<char>, ReadOrientation>,
    counts: AccuracyResultExact,
    reads: CategorisedReads,
) -> bool {
    &&& reads.wf()
    &&& reads.correct.ids() == judged(names, truth, calls, Verdict::Correct)
    &&& reads.incorrect.ids() == judged(names, truth, calls, Verdict::Incorrect)
    &&& reads.ambiguous.ids() == judged(names, truth, calls, Verdict::Ambiguous)
    &&& counts.correct == reads.correct@.len()
    &&& counts.incorrect == reads.incorrect@.len()
    &&& counts.ambiguous == reads.ambiguous@.len()
}

/// A name is among the judged ones exactly if it is among the names and has
/// the verdict; the judged names repeat none that the names do not repeat,
/// and are no more than the names.
pub proof fn lemma_judged(
    names: Seq<Seq<char>>,
    truth: Map<Seq<char>, ReadOrientation>,
    calls: Map<Seq<char>, ReadOrientation>,
    verdict: Verdict,
)
    ensures
        forall|name: Seq<char>|
            #[trigger] judged(names, truth, calls, verdict).contains(name) <==> names.contains(name)
                && read_verdict(truth, calls, name) == verdict,
        names.no_duplicates() ==> judged(names, truth, calls, verdict).no_duplicates(),
        judged(names, truth, calls, verdict).len() <= names.len(),
{
    let chosen = with_verdict(truth, calls, verdict);
    lemma_kept(names, chosen, true);
    assert forall|name: Seq<char>|
        #[trigger] judged(names, truth, calls, verdict).contains(name) <==> names.contains(name)
            && read_verdict(truth, calls, name) == verdict by {
        assert(chosen.contains(name) <==> read_verdict(truth, calls, name) == verdict);
    }
}

/// Each name is judged exactly once: the lengths of the correct, incorrect
/// and ambiguous names add up to the number of names.
pub proof fn lemma_judged_partition(
    names: Seq<Seq<char>>,
    truth: Map<Seq<char>, ReadOrientation>,
    calls: Map<Seq<char>, ReadOrientation>,
)
    ensures
        judged(names, truth, calls, Verdict::Correct).len() + judged(
            names,
            truth,
            calls,
            Verdict::Incorrect,
        ).len() + judged(names, truth, calls, Verdict::Ambiguous).len() == names.len(),
    decreases names.len(),
{
    if names.len() != 0 {
        lemma_judged_partition(names.drop_last(), truth, calls);
    }
}

/// The set of the judged names of a well-formed ground truth holds exactly
/// the reads with the verdict.
pub proof fn lemma_judged_set(
    names: Seq<Seq<char>>,
    truth: Map<Seq<char>, ReadOrientation>,
    calls: Map<Seq<char>, ReadOrientation>,
    verdict: Verdict,
)
    requires
        names.to_set() == truth.dom(),
    ensures
        holds_verdict(judged(names, truth, calls, verdict).to_set(), truth, calls, verdict),
{
    lemma_judged(names, truth, calls, verdict);
    assert forall|name: Seq<char>|
        judged(names, truth, calls, verdict).to_set().contains(name) <==> truth.contains_key(name)
            && read_verdict(truth, calls, name) == verdict by {
    }
}

/// The number of reads of each verdict.
pub open spec fn counts_of(
    names: Seq<Seq<char>>,
    truth: Map<Seq<char>, ReadOrientation>,
    calls: Map<Seq<char>, ReadOrientation>,
) -> AccuracyResultExact {
    AccuracyResultExact {
        correct: judged(names, truth, calls, Verdict::Correct).len() as u64,
        incorrect: judged(names, truth, calls, Verdict::Incorrect).len() as u64,
        ambiguous: judged(names, truth, calls, Verdict::Ambiguous).len() as u64,
    }
}

/// Scoring is a function of the ground truth and the calls: two scorings of
/// the same pair agree in every number and in every set of reads.
pub proof fn lemma_score_is_determined(
    names: Seq<Seq<char>>,
    truth: Map<Seq<char>, ReadOrientation>,
    calls: Map<Seq<char>, ReadOrientation>,
    first: (AccuracyResultExact, CategorisedReads),
    second: (AccuracyResultExact, CategorisedReads),
)
    requires
        is_score(names, truth, calls, first.0, first.1),
        is_score(names, truth, calls, second.0, second.1),
    ensures
        first.0 == second.0,
        first.1.correct.ids() == second.1.correct.ids(),
        first.1.incorrect.ids() == second.1.incorrect.ids(),
        first.1.ambiguous.ids() == second.1.ambiguous.ids(),
        first.1.correct@ == second.1.correct@,
        first.1.incorrect@ == second.1.incorrect@,
        first.1.ambiguous@ == second.1.ambiguous@,
{
}

/// The numbers of a scoring add up to the number of reads of the ground
/// truth, and each is the length of its list of reads.
pub proof fn lemma_counts_add_up(
    names: Seq<Seq<char>>,
    truth: Map<Seq<char>, ReadOrientation>,
    calls: Map<Seq<char>, ReadOrientation>,
    counts: AccuracyResultExact,
    reads: CategorisedReads,
)
    requires
        is_score(names, truth, calls, counts, reads),
    ensures
        counts.spec_total() == names.len(),
        counts.correct == judged(names, truth, calls, Verdict::Correct).len(),
        counts.incorrect == judged(names, truth, calls, Verdict::Incorrect).len(),
        counts.ambiguous == judged(names, truth, calls, Verdict::Ambiguous).len(),
{
    reads.correct.lemma_len();
    reads.incorrect.lemma_len();
    reads.ambiguous.lemma_len();
    lemma_judged_partition(names, truth, calls);
}

/// Against a classifier that made no call, no read is correct, none is
/// incorrect, and every read of the ground truth is ambiguous.
pub proof fn lemma_no_calls(
    names: Seq<Seq<char>>,
    truth: Map<Seq<char>, ReadOrientation>,
    counts: AccuracyResultExact,
    reads: CategorisedReads,
)
    requires
        is_score(names, truth, Map::empty(), counts, reads),
    ensures
        counts.correct == 0,
        counts.incorrect == 0,
        counts.ambiguous == names.len(),
        reads.correct.ids() == Seq::<Seq<char>>::empty(),
        reads.incorrect.ids() == Seq::<Seq<char>>::empty(),
        reads.ambiguous.ids() == names,
{
    lemma_all_ambiguous(names, truth);
    lemma_counts_add_up(names, truth, Map::empty(), counts, reads);
}

/// Without calls the ambiguous names are all names, and no name has
/// another verdict.
pub proof fn lemma_all_ambiguous(names: Seq<Seq<char>>, truth: Map<Seq<char>, ReadOrientation>)
    ensures
        judged(names, truth, Map::empty(), Verdict::Correct) == Seq::<Seq<char>>::empty(),
        judged(names, truth, Map::empty(), Verdict::Incorrect) == Seq::<Seq<char>>::empty(),
        judged(names, truth, Map::empty(), Verdict::Ambiguous) == names,
    decreases names.len(),
{
    if names.len() != 0 {
        lemma_all_ambiguous(names.drop_last(), truth);
    }
}

/// Judges every read of the ground truth by the classifier's calls.
///
/// Returns the number of reads of each verdict and the reads themselves.
/// The three numbers add up to the number of reads of the ground truth.
pub fn score(paf_reads: &PafReads, calls: &ClassifierCalls) -> (result: (
    AccuracyResultExact,
    CategorisedReads,
))
    ensures
        is_score(paf_reads.ids(), paf_reads@, calls@, result.0, result.1),
        holds_verdict(result.1.correct@, paf_reads@, calls@, Verdict::Correct),
        holds_verdict(result.1.incorrect@, paf_reads@, calls@, Verdict::Incorrect),
        holds_verdict(result.1.ambiguous@, paf_reads@, calls@, Verdict::Ambiguous),
        result.0.spec_total() == paf_reads@.dom().len(),
{
    proof {
        use_type_invariant(paf_reads);
    }
    let ghost names = paf_reads.ids();
    let ghost truth = paf_reads@;
    let mut counts = AccuracyResultExact { correct: 0, incorrect: 0, ambiguous: 0 };
    let mut reads = CategorisedReads::new();
    let n = paf_reads.size();
    let mut i: usize = 0;
    while i < n
        invariant
            i <= n,
            n == names.len(),
            names == paf_reads.ids(),
            truth == paf_reads@,
            paf_reads.wf(),
            reads.correct.wf(),
            reads.incorrect.wf(),
            reads.ambiguous.wf(),
            reads.correct.ids() == judged(names.take(i as int), truth, calls@, Verdict::Correct),
            reads.incorrect.ids() == judged(
                names.take(i as int),
                truth,
                calls@,
                Verdict::Incorrect,
            ),
            reads.ambiguous.ids() == judged(
                names.take(i as int),
                truth,
                calls@,
                Verdict::Ambiguous,
            ),
            counts.correct == reads.correct.ids().len(),
            counts.incorrect == reads.incorrect.ids().len(),
            counts.ambiguous == reads.ambiguous.ids().len(),
        decreases n - i,
    {
        let name = paf_reads.name_at(i);
        proof {
            let done = names.take(i as int);
            assert(names.take(i + 1).drop_last() == done);
            lemma_judged(done, truth, calls@, Verdict::Correct);
            lemma_judged(done, truth, calls@, Verdict::Incorrect);
            lemma_judged(done, truth, calls@, Verdict::Ambiguous);
        }
        let truth_of_read = paf_reads.get(name.as_str());
        let call = calls.get(name.as_str());
        match judge(truth_of_read, call) {
            Verdict::Correct => {
                reads.correct.insert(name.clone());
                counts.correct = counts.correct + 1;
            },
            Verdict::Incorrect => {
                reads.incorrect.insert(name.clone());
                counts.incorrect = counts.incorrect + 1;
            },
            Verdict::Ambiguous => {
                reads.ambiguous.insert(name.clone());
                counts.ambiguous = counts.ambiguous + 1;
            },
        }
        i = i + 1;
    }
    proof {
        assert(names.take(i as int) == names);
        lemma_judged_set(names, truth, calls@, Verdict::Correct);
        lemma_judged_set(names, truth, calls@, Verdict::Incorrect);
        lemma_judged_set(names, truth, calls@, Verdict::Ambiguous);
        lemma_judged_partition(names, truth, calls@);
        reads.correct.lemma_len();
        reads.incorrect.lemma_len();
        reads.ambiguous.lemma_len();
    }
    (counts, reads)
}

} // verus!
