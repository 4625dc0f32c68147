//! A set of read identifiers that remembers the order in which they came.

use vstd::hash_set::StringHashSet;
use vstd::prelude::*;
use vstd::seq_lib::lemma_seq_contains_after_push;

verus! {

/// The texts of the strings that a vector holds.
pub open spec fn string_views(v: Seq<String>) -> Seq<Seq<char>> {
    Seq::new(v.len(), |i: int| v[i]@)
}

/// Those of `ids` that are members of `other`, where `members` holds, or
/// those that are not, where it does not; in the order of `ids`.
pub open spec fn kept(ids: Seq<Seq<char>>, other: Set<Seq<char>>, members: bool) -> Seq<Seq<char>>
    decreases ids.len(),
{
    if ids.len() == 0 {
        Seq::empty()
    } else {
        let before = kept(ids.drop_last(), other, members);
        if other.contains(ids.last()) == members {
            before.push(ids.last())
        } else {
            before
        }
    }
}

/// An identifier is kept exactly if it is listed and its membership is the
/// one asked for; the kept ones repeat none that the list does not repeat,
/// and are no more than the list.
pub proof fn lemma_kept(ids: Seq<Seq<char>>, other: Set<Seq<char>>, members: bool)
    ensures
        forall|id: Seq<char>|
            kept(ids, other, members).contains(id) <==> ids.contains(id) && other.contains(id)
                == members,
        ids.no_duplicates() ==> kept(ids, other, members).no_duplicates(),
        kept(ids, other, members).len() <= ids.len(),
    decreases ids.len(),
{
    if ids.len() != 0 {
        let all = kept(ids, other, members);
        let rest = ids.drop_last();
        let before = kept(rest, other, members);
        let last = ids.last();
        lemma_kept(rest, other, members);
        assert(ids == rest.push(last));
        assert forall|id: Seq<char>|
            all.contains(id) <==> ids.contains(id) && other.contains(id) == members by {
            lemma_seq_contains_after_push(rest, last, id);
            lemma_seq_contains_after_push(before, last, id);
        }
        if ids.no_duplicates() {
            assert(rest.no_duplicates());
            assert(!rest.contains(last)) by {
                if rest.contains(last) {
                    let i = choose|i: int| 0 <= i < rest.len() && rest[i] == last;
                    assert(ids[i] == ids[ids.len() - 1]);
                }
            }
            assert(all.no_duplicates()) by {
                assert forall|i: int| 0 <= i < before.len() implies before[i] != last by {
                    assert(before.contains(before[i]));
                }
            }
        }
    }
}

/// Every identifier is either kept as a member or kept as a non-member.
pub proof fn lemma_kept_split(ids: Seq<Seq<char>>, other: Set<Seq<char>>)
    ensures
        kept(ids, other, true).len() + kept(ids, other, false).len() == ids.len(),
    decreases ids.len(),
{
    if ids.len() != 0 {
        lemma_kept_split(ids.drop_last(), other);
    }
}

/// In a list without repetition no identifier stands before its own place:
/// the `i`-th is not among the first `i`.
pub proof fn lemma_not_listed_before(ids: Seq<Seq<char>>, i: int)
    requires
        ids.no_duplicates(),
        0 <= i < ids.len(),
    ensures
        !ids.take(i).contains(ids[i]),
        ids.take(i + 1) == ids.take(i).push(ids[i]),
        ids.contains(ids[i]),
{
    let done = ids.take(i);
    if done.contains(ids[i]) {
        let j = choose|j: int| 0 <= j < done.len() && done[j] == ids[i];
        assert(ids[j] == ids[i]);
    }
}

/// A finite set of read identifiers.
///
/// It is viewed as the set of the identifiers' texts. Beside the set it keeps
/// the identifiers in the order of their first insertion, so that walking it
/// gives the same order on every run.
pub struct ReadSet {
    ids: Vec<String>,
    index: StringHashSet,
}

impl View for ReadSet {
    type V = Set<Seq<char>>;

    closed spec fn view(&self) -> Set<Seq<char>> {
        self.index@
    }
}

impl ReadSet {
    /// The identifiers in the order of their first insertion.
    pub closed spec fn ids(&self) -> Seq<Seq<char>> {
        string_views(self.ids@)
    }

    /// No identifier is listed twice, and the listed identifiers are the
    /// members of the set. This holds of every set that exists.
    #[verifier::type_invariant]
    pub open spec fn wf(&self) -> bool {
        &&& self.ids().no_duplicates()
        &&& self.ids().to_set() == self@
    }

    /// A well-formed set is finite and has as many members as it lists.
    pub proof fn lemma_len(&self)
        requires
            self.wf(),
        ensures
            self@.finite(),
            self@.len() == self.ids().len(),
    {
        self.ids().unique_seq_to_set();
        vstd::seq_lib::seq_to_set_is_finite(self.ids());
    }

    /// The empty set.
    pub fn new() -> (set: ReadSet)
        ensures
            set.wf(),
            set@ == Set::<Seq<char>>::empty(),
            set.ids() == Seq::<Seq<char>>::empty(),
    {
        let ids: Vec<String> = Vec::new();
        let index = StringHashSet::new();
        assert(string_views(ids@).to_set() == Set::<Seq<char>>::empty());
        ReadSet { ids, index }
    }

    /// Adds an identifier, and says whether it was new.
    pub fn insert(&mut self, id: String) -> (fresh: bool)
        ensures
            final(self).wf(),
            fresh == !old(self)@.contains(id@),
            final(self)@ == old(self)@.insert(id@),
            final(self).ids() == if fresh {
                old(self).ids().push(id@)
            } else {
                old(self).ids()
            },
    {
        proof {
            use_type_invariant(&*self);
        }
        if self.index.contains(id.as_str()) {
            false
        } else {
            let ghost before = self.ids();
            let mut taken = ReadSet::new();
            std::mem::swap(self, &mut taken);
            let ReadSet { mut ids, mut index } = taken;
            index.insert(id.clone());
            ids.push(id);
            proof {
                assert(string_views(ids@) == before.push(id@));
                before.lemma_push_to_set_commute(id@);
            }
            *self = ReadSet { ids, index };
            true
        }
    }

    /// Whether the set holds the identifier.
    pub fn contains(&self, id: &str) -> (found: bool)
        ensures
            found == self@.contains(id@),
    {
        self.index.contains(id)
    }

    /// The number of members.
    pub fn len(&self) -> (n: usize)
        ensures
            n == self.ids().len(),
            n == self@.len(),
    {
        proof {
            use_type_invariant(self);
            self.lemma_len();
        }
        self.ids.len()
    }

    /// Whether the set has no member.
    pub fn is_empty(&self) -> (empty: bool)
        ensures
            empty == (self.ids().len() == 0),
    {
        self.ids.len() == 0
    }

    /// The `i`-th identifier in insertion order.
    pub fn get(&self, i: usize) -> (id: &String)
        requires
            i < self.ids().len(),
        ensures
            id@ == self.ids()[i as int],
    {
        &self.ids[i]
    }

    /// The identifiers in insertion order.
    pub fn to_vec(&self) -> (ids: Vec<String>)
        ensures
            string_views(ids@) == self.ids(),
    {
        let mut out: Vec<String> = Vec::new();
        let mut i: usize = 0;
        while i < self.ids.len()
            invariant
                i <= self.ids.len(),
                string_views(out@) == self.ids().take(i as int),
            decreases self.ids.len() - i,
        {
            let id = self.ids[i].clone();
            out.push(id);
            assert(self.ids().take(i + 1) == self.ids().take(i as int).push(self.ids()[i as int]));
            i = i + 1;
        }
        out
    }
}

impl Clone for ReadSet {
    /// A set with the same members, listed in the same order.
    fn clone(&self) -> (copy: Self)
        ensures
            copy@ == self@,
            copy.ids() == self.ids(),
    {
        proof {
            use_type_invariant(self);
        }
        let mut copy = ReadSet::new();
        let mut i: usize = 0;
        while i < self.ids.len()
            invariant
                i <= self.ids.len(),
                self.wf(),
                copy.wf(),
                copy.ids() == self.ids().take(i as int),
            decreases self.ids.len() - i,
        {
            proof {
                lemma_not_listed_before(self.ids(), i as int);
            }
            copy.insert(self.ids[i].clone());
            i = i + 1;
        }
        proof {
            assert(self.ids().take(i as int) == self.ids());
        }
        copy
    }
}

} // verus!
