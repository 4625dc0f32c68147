//! Where two classifiers agree: for each verdict, the reads that both gave
//! it, and the reads that only one of them gave it.
//!
//! The two classifiers are the ones this program compares, Restrander and
//! Pychopper, and the three parts of a comparison are named after them.

use crate::read_set::kept;
use crate::read_set::lemma_kept;
use crate::read_set::lemma_kept_split;
use crate::read_set::ReadSet;
use crate::read_set::string_views;
use crate::score::CategorisedReads;
use vstd::prelude::*;
use vstd::string::StringExecFns;

verus! {

/// The identifiers of `s1` that `s2` holds too, in the order of `s1`.
pub fn custom_intersection(s1: &ReadSet, s2: &ReadSet) -> (common: Vec<String>)
    ensures
        string_views(common@) == kept(s1.ids(), s2@, true),
{
    select(s1, s2, true)
}

/// The identifiers of `s1` that `s2` does not hold, in the order of `s1`.
pub fn custom_difference(s1: &ReadSet, s2: &ReadSet) -> (only: Vec<String>)
    ensures
        string_views(only@) == kept(s1.ids(), s2@, false),
{
    select(s1, s2, false)
}

fn select(s1: &ReadSet, s2: &ReadSet, members: bool) -> (chosen: Vec<String>)
    ensures
        string_views(chosen@) == kept(s1.ids(), s2@, members),
{
    let mut chosen: Vec<String> = Vec::new();
    let n = s1.len();
    let mut i: usize = 0;
    while i < n
        invariant
            i <= n,
            n == s1.ids().len(),
            string_views(chosen@) == kept(s1.ids().take(i as int), s2@, members),
        decreases n - i,
    {
        let id = s1.get(i);
        proof {
            assert(s1.ids().take(i + 1).drop_last() == s1.ids().take(i as int));
        }
        if s2.contains(id.as_str()) == members {
            chosen.push(id.clone());
        }
        i = i + 1;
    }
    assert(s1.ids().take(i as int) == s1.ids());
    chosen
}

/// The comparison of two sets of reads.
#[derive(Debug)]
pub struct Venn {
    /// The reads in both sets.
    pub intersection: Vec<String>,
    /// The reads in the first set only.
    pub restrander_only: Vec<String>,
    /// The reads in the second set only.
    pub pychopper_only: Vec<String>,
}

impl Venn {
    /// Whether this is the comparison of the sets `reads1` and `reads2`:
    /// each part lists its reads in the order of the set they come from.
    pub open spec fn compares(&self, reads1: ReadSet, reads2: ReadSet) -> bool {
        &&& string_views(self.intersection@) == kept(reads1.ids(), reads2@, true)
        &&& string_views(self.restrander_only@) == kept(reads1.ids(), reads2@, false)
        &&& string_views(self.pychopper_only@) == kept(reads2.ids(), reads1@, false)
    }

    /// Compares two sets of reads.
    ///
    /// The reads in both sets and the reads in the first only are as many as
    /// the first set has; likewise for the second.
    pub fn new(reads1: &ReadSet, reads2: &ReadSet) -> (venn: Venn)
        ensures
            venn.compares(*reads1, *reads2),
            venn.intersection@.len() + venn.restrander_only@.len() == reads1@.len(),
            venn.intersection@.len() + venn.pychopper_only@.len() == reads2@.len(),
    {
        let venn = Venn {
            intersection: custom_intersection(reads1, reads2),
            restrander_only: custom_difference(reads1, reads2),
            pychopper_only: custom_difference(reads2, reads1),
        };
        proof {
            use_type_invariant(reads1);
            use_type_invariant(reads2);
            lemma_venn_sizes(venn, *reads1, *reads2);
        }
        venn
    }

    /// Compares the reads that two classifiers got right.
    pub fn new_correct(restrander: &CategorisedReads, pychopper: &CategorisedReads) -> (venn: Venn)
        ensures
            venn.compares(restrander.correct, pychopper.correct),
            venn.intersection@.len() + venn.restrander_only@.len() == restrander.correct@.len(),
            venn.intersection@.len() + venn.pychopper_only@.len() == pychopper.correct@.len(),
    {
        Venn::new(&restrander.correct, &pychopper.correct)
    }

    /// Compares the reads that two classifiers got wrong.
    pub fn new_incorrect(restrander: &CategorisedReads, pychopper: &CategorisedReads) -> (venn:
        Venn)
        ensures
            venn.compares(restrander.incorrect, pychopper.incorrect),
            venn.intersection@.len() + venn.restrander_only@.len() == restrander.incorrect@.len(),
            venn.intersection@.len() + venn.pychopper_only@.len() == pychopper.incorrect@.len(),
    {
        Venn::new(&restrander.incorrect, &pychopper.incorrect)
    }

    /// Compares the reads that two classifiers left ambiguous.
    pub fn new_ambiguous(restrander: &CategorisedReads, pychopper: &CategorisedReads) -> (venn:
        Venn)
        ensures
            venn.compares(restrander.ambiguous, pychopper.ambiguous),
            venn.intersection@.len() + venn.restrander_only@.len() == restrander.ambiguous@.len(),
            venn.intersection@.len() + venn.pychopper_only@.len() == pychopper.ambiguous@.len(),
    {
        Venn::new(&restrander.ambiguous, &pychopper.ambiguous)
    }

    /// The three files that hold this comparison under `directory`: one
    /// list of identifiers each, one identifier per line.
    pub fn to_files(&self, directory: &str) -> (files: Vec<Artifact>)
        ensures
            files@.len() == 3,
            files@[0].holds(directory@ + "/intersection.csv"@, string_views(self.intersection@)),
            files@[1].holds(
                directory@ + "/restrander_only.csv"@,
                string_views(self.restrander_only@),
            ),
            files@[2].holds(
                directory@ + "/pychopper_only.csv"@,
                string_views(self.pychopper_only@),
            ),
    {
        let mut files: Vec<Artifact> = Vec::new();
        files.push(Artifact::new(directory, "/intersection.csv", &self.intersection));
        files.push(Artifact::new(directory, "/restrander_only.csv", &self.restrander_only));
        files.push(Artifact::new(directory, "/pychopper_only.csv", &self.pychopper_only));
        files
    }
}

/// The sizes of a comparison of two well-formed sets: what both hold and
/// what only one holds are together what that one holds, and the three
/// parts are the intersection and the two differences of the sets.
pub proof fn lemma_venn_sizes(venn: Venn, reads1: ReadSet, reads2: ReadSet)
    requires
        reads1.wf(),
        reads2.wf(),
        venn.compares(reads1, reads2),
    ensures
        venn.intersection@.len() + venn.restrander_only@.len() == reads1@.len(),
        venn.intersection@.len() + venn.pychopper_only@.len() == reads2@.len(),
        string_views(venn.intersection@).to_set() == reads1@.intersect(reads2@),
        string_views(venn.restrander_only@).to_set() == reads1@.difference(reads2@),
        string_views(venn.pychopper_only@).to_set() == reads2@.difference(reads1@),
{
    let both = kept(reads1.ids(), reads2@, true);
    let first = kept(reads1.ids(), reads2@, false);
    let second = kept(reads2.ids(), reads1@, false);
    reads1.lemma_len();
    lemma_kept(reads1.ids(), reads2@, true);
    lemma_kept(reads1.ids(), reads2@, false);
    lemma_kept(reads2.ids(), reads1@, false);
    lemma_kept_split(reads1.ids(), reads2@);
    assert forall|id: Seq<char>| both.to_set().contains(id) <==> reads1@.intersect(
        reads2@,
    ).contains(id) by {
    }
    assert forall|id: Seq<char>| first.to_set().contains(id) <==> reads1@.difference(
        reads2@,
    ).contains(id) by {
    }
    assert forall|id: Seq<char>| second.to_set().contains(id) <==> reads2@.difference(
        reads1@,
    ).contains(id) by {
    }
    assert(both.to_set() == reads1@.intersect(reads2@));
    assert(second.to_set() == reads2@.difference(reads1@));
    both.unique_seq_to_set();
    second.unique_seq_to_set();
    vstd::set_lib::lemma_set_difference_len(reads2@, reads1@);
    assert(reads2@.intersect(reads1@) == reads1@.intersect(reads2@));
}

/// A list of identifiers as the text of a file: one identifier per line,
/// with a line feed between two lines and none at the end.
pub open spec fn listing(ids: Seq<Seq<char>>) -> Seq<char>
    decreases ids.len(),
{
    if ids.len() == 0 {
        Seq::empty()
    } else if ids.len() == 1 {
        ids[0]
    } else {
        listing(ids.drop_last()) + "\n"@ + ids.last()
    }
}

/// Writes a list of identifiers as the text of a file.
pub fn list_ids(ids: &Vec<String>) -> (text: String)
    ensures
        text@ == listing(string_views(ids@)),
{
    let mut text = String::new();
    let mut i: usize = 0;
    while i < ids.len()
        invariant
            i <= ids.len(),
            text@ == listing(string_views(ids@).take(i as int)),
        decreases ids.len() - i,
    {
        proof {
            let next = string_views(ids@).take(i + 1);
            assert(next.drop_last() == string_views(ids@).take(i as int));
        }
        if i > 0 {
            text.append("\n");
        }
        text.append(ids[i].as_str());
        i = i + 1;
    }
    assert(string_views(ids@).take(i as int) == string_views(ids@));
    text
}

/// A file to be written: where, and what.
#[derive(Debug)]
pub struct Artifact {
    pub path: String,
    pub contents: String,
}

impl Artifact {
    /// Whether this is the file at `path` that lists `ids`.
    pub open spec fn holds(&self, path: Seq<char>, ids: Seq<Seq<char>>) -> bool {
        self.path@ == path && self.contents@ == listing(ids)
    }

    /// The file `name` under `directory` that lists `ids`.
    pub fn new(directory: &str, name: &str, ids: &Vec<String>) -> (file: Artifact)
        ensures
            file.holds(directory@ + name@, string_views(ids@)),
    {
        let mut path = String::from_str(directory);
        path.append(name);
        Artifact { path, contents: list_ids(ids) }
    }
}

/// The comparison of two classifiers, verdict by verdict.
#[derive(Debug)]
pub struct Comparison {
    pub correct: Venn,
    pub incorrect: Venn,
    pub ambiguous: Venn,
}

impl Comparison {
    /// The nine files that hold this comparison under `output_directory`:
    /// three for each verdict, in a directory named after the verdict.
    pub fn to_files(&self, output_directory: &str) -> (files: Vec<Artifact>)
        ensures
            files@.len() == 9,
            forall|k: int|
                0 <= k < 3 ==> {
                    &&& (#[trigger] files@[k]).path@ == output_directory@ + "/correct"@
                        + part_name(k)
                    &&& files@[k].contents@ == listing(part_of(self.correct, k))
                },
            forall|k: int|
                0 <= k < 3 ==> {
                    &&& (#[trigger] files@[3 + k]).path@ == output_directory@ + "/incorrect"@
                        + part_name(k)
                    &&& files@[3 + k].contents@ == listing(part_of(self.incorrect, k))
                },
            forall|k: int|
                0 <= k < 3 ==> {
                    &&& (#[trigger] files@[6 + k]).path@ == output_directory@ + "/ambiguous"@
                        + part_name(k)
                    &&& files@[6 + k].contents@ == listing(part_of(self.ambiguous, k))
                },
    {
        let mut correct_directory = String::from_str(output_directory);
        correct_directory.append("/correct");
        let mut incorrect_directory = String::from_str(output_directory);
        incorrect_directory.append("/incorrect");
        let mut ambiguous_directory = String::from_str(output_directory);
        ambiguous_directory.append("/ambiguous");
        let mut files = self.correct.to_files(correct_directory.as_str());
        let mut incorrect_files = self.incorrect.to_files(incorrect_directory.as_str());
        let mut ambiguous_files = self.ambiguous.to_files(ambiguous_directory.as_str());
        files.append(&mut incorrect_files);
        files.append(&mut ambiguous_files);
        files
    }
}

/// The file name of the `k`-th part of a comparison.
pub open spec fn part_name(k: int) -> Seq<char> {
    if k == 0 {
        "/intersection.csv"@
    } else if k == 1 {
        "/restrander_only.csv"@
    } else {
        "/pychopper_only.csv"@
    }
}

/// The identifiers of the `k`-th part of a comparison.
pub open spec fn part_of(venn: Venn, k: int) -> Seq<Seq<char>> {
    if k == 0 {
        string_views(venn.intersection@)
    } else if k == 1 {
        string_views(venn.restrander_only@)
    } else {
        string_views(venn.pychopper_only@)
    }
}

/// Compares the verdicts of two classifiers on the same ground truth: for
/// each verdict, which reads both gave it and which reads only one did.
pub fn compare(restrander: &CategorisedReads, pychopper: &CategorisedReads) -> (comparison:
    Comparison)
    ensures
        comparison.correct.compares(restrander.correct, pychopper.correct),
        comparison.incorrect.compares(restrander.incorrect, pychopper.incorrect),
        comparison.ambiguous.compares(restrander.ambiguous, pychopper.ambiguous),
        comparison.correct.intersection@.len() + comparison.correct.restrander_only@.len()
            == restrander.correct@.len(),
        comparison.correct.intersection@.len() + comparison.correct.pychopper_only@.len()
            == pychopper.correct@.len(),
        comparison.incorrect.intersection@.len() + comparison.incorrect.restrander_only@.len()
            == restrander.incorrect@.len(),
        comparison.incorrect.intersection@.len() + comparison.incorrect.pychopper_only@.len()
            == pychopper.incorrect@.len(),
        comparison.ambiguous.intersection@.len() + comparison.ambiguous.restrander_only@.len()
            == restrander.ambiguous@.len(),
        comparison.ambiguous.intersection@.len() + comparison.ambiguous.pychopper_only@.len()
            == pychopper.ambiguous@.len(),
{
    let comparison = Comparison {
        correct: Venn::new_correct(restrander, pychopper),
        incorrect: Venn::new_incorrect(restrander, pychopper),
        ambiguous: Venn::new_ambiguous(restrander, pychopper),
    };
    comparison
}

} // verus!
