//! The ground truth: the true orientation of every aligned read.
//!
//! An alignment record is one line of tab-delimited fields. Its first field
//! names the read; the first `+` or `-` from the end of that field on is the
//! strand the read aligned to.

use crate::error::EvalError;
use crate::orientation::orientation_of;
use crate::orientation::ReadOrientation;
use crate::read_set::lemma_not_listed_before;
use crate::read_set::string_views;
use crate::text::byte_views;
use crate::text::find_first;
use crate::text::first_byte;
use crate::text::first_of;
use crate::text::lemma_cut_is_text;
use crate::text::lemma_first_of;
use crate::text::lines_of;
use crate::text::split_lines;
use crate::text::TAB;
use crate::text::text_of;
use vstd::hash_map::StringHashMap;
use vstd::prelude::*;
use vstd::slice::slice_subrange;
use vstd::utf8::decode_utf8;
use vstd::utf8::valid_utf8;

verus! {

/// The symbol of the forward strand.
pub const PLUS: u8 = 0x2b;

/// The symbol of the reverse strand.
pub const MINUS: u8 = 0x2d;

/// The bytes of the first field of an alignment record.
pub open spec fn name_bytes(line: Seq<u8>) -> Seq<u8> {
    line.take(first_byte(line, TAB))
}

/// The strand that an alignment record gives: that of the first `+` or `-`
/// found from the end of the first field on, `Unknown` where there is none.
pub open spec fn strand_of(line: Seq<u8>) -> ReadOrientation {
    let rest = line.skip(first_byte(line, TAB));
    let at = first_of(rest, PLUS, MINUS);
    if 0 <= at < rest.len() {
        orientation_of(rest[at])
    } else {
        ReadOrientation::Unknown
    }
}

/// The read that an alignment record describes: its name as text, and its
/// strand.
pub open spec fn paf_record(line: Seq<u8>) -> (Seq<char>, ReadOrientation) {
    (decode_utf8(name_bytes(line)), strand_of(line))
}

/// The reads that a sequence of alignment records describes, in order.
pub open spec fn paf_records(lines: Seq<Seq<u8>>) -> Seq<(Seq<char>, ReadOrientation)> {
    Seq::new(lines.len(), |i: int| paf_record(lines[i]))
}

/// Whether every line is valid UTF-8.
pub open spec fn all_text(lines: Seq<Seq<u8>>) -> bool {
    forall|i: int| 0 <= i < lines.len() ==> valid_utf8(#[trigger] lines[i])
}

/// The mapping that a sequence of reads builds: each name maps to the strand
/// of the last read with that name.
pub open spec fn index_of(records: Seq<(Seq<char>, ReadOrientation)>) -> Map<
    Seq<char>,
    ReadOrientation,
>
    decreases records.len(),
{
    if records.len() == 0 {
        Map::empty()
    } else {
        index_of(records.drop_last()).insert(records.last().0, records.last().1)
    }
}

/// The names of a sequence of reads, each once, in the order of their first
/// occurrence.
pub open spec fn first_seen(records: Seq<(Seq<char>, ReadOrientation)>) -> Seq<Seq<char>>
    decreases records.len(),
{
    if records.len() == 0 {
        Seq::empty()
    } else {
        let before = first_seen(records.drop_last());
        if before.contains(records.last().0) {
            before
        } else {
            before.push(records.last().0)
        }
    }
}

/// The names and strands of a list of reads.
pub open spec fn reads_of(reads: Seq<PafRead>) -> Seq<(Seq<char>, ReadOrientation)> {
    Seq::new(reads.len(), |i: int| (reads[i].name@, reads[i].strand))
}

/// One read of the ground truth.
#[derive(Debug)]
pub struct PafRead {
    pub name: String,
    pub strand: ReadOrientation,
}

impl Clone for PafRead {
    fn clone(&self) -> (copy: Self)
        ensures
            copy == *self,
    {
        PafRead { name: self.name.clone(), strand: self.strand }
    }
}

impl PafRead {
    /// Reads one alignment record.
    ///
    /// A line that is not valid UTF-8 is refused as `MalformedRecord`. Of any
    /// other line the first field is the name, and a line without `+` or `-`
    /// after it has the strand `Unknown`.
    pub fn from_paf_line(line: &Vec<u8>) -> (read: Result<PafRead, EvalError>)
        ensures
            match read {
                Ok(r) => valid_utf8(line@) && (r.name@, r.strand) == paf_record(line@),
                Err(e) => !valid_utf8(line@) && e == EvalError::MalformedRecord,
            },
    {
        let bytes = line.as_slice();
        if text_of(bytes).is_none() {
            return Err(EvalError::MalformedRecord);
        }
        let tab = find_first(bytes, 0, TAB, TAB);
        let mark = find_first(bytes, tab, PLUS, MINUS);
        proof {
            assert(bytes@.skip(0) == bytes@);
            lemma_first_of(bytes@, TAB, TAB);
            lemma_cut_is_text(bytes@, tab as int);
        }
        let strand = if mark < bytes.len() {
            ReadOrientation::from_symbol(bytes[mark])
        } else {
            ReadOrientation::Unknown
        };
        match text_of(slice_subrange(bytes, 0, tab)) {
            Some(name) => Ok(PafRead { name: name.to_owned(), strand }),
            None => Err(EvalError::MalformedRecord),
        }
    }
}

/// The ground-truth index: a mapping from read name to true orientation.
///
/// It is viewed as that mapping. Beside it the index keeps the names in the
/// order of their first insertion, so that walking it gives the same order
/// on every run.
pub struct PafReads {
    names: Vec<String>,
    map: StringHashMap<ReadOrientation>,
}

impl View for PafReads {
    type V = Map<Seq<char>, ReadOrientation>;

    closed spec fn view(&self) -> Map<Seq<char>, ReadOrientation> {
        self.map@
    }
}

impl PafReads {
    /// The names in the order of their first insertion.
    pub closed spec fn ids(&self) -> Seq<Seq<char>> {
        string_views(self.names@)
    }

    /// No name is listed twice, and the listed names are the keys of the
    /// mapping. This holds of every index that exists.
    #[verifier::type_invariant]
    pub open spec fn wf(&self) -> bool {
        &&& self.ids().no_duplicates()
        &&& self.ids().to_set() == self@.dom()
    }

    /// A well-formed index is finite and has as many keys as it lists names.
    pub proof fn lemma_size(&self)
        requires
            self.wf(),
        ensures
            self@.dom().finite(),
            self@.dom().len() == self.ids().len(),
    {
        self.ids().unique_seq_to_set();
        vstd::seq_lib::seq_to_set_is_finite(self.ids());
    }

    /// The empty index.
    pub fn new() -> (reads: PafReads)
        ensures
            reads.wf(),
            reads@ == Map::<Seq<char>, ReadOrientation>::empty(),
            reads.ids() == Seq::<Seq<char>>::empty(),
    {
        let names: Vec<String> = Vec::new();
        let map = StringHashMap::<ReadOrientation>::new();
        assert(string_views(names@).to_set() == Set::<Seq<char>>::empty());
        PafReads { names, map }
    }

    /// Records a read. A read whose name the index holds already replaces
    /// the strand recorded for it.
    pub fn insert(&mut self, read: PafRead)
        ensures
            final(self).wf(),
            final(self)@ == old(self)@.insert(read.name@, read.strand),
            final(self).ids() == if old(self)@.contains_key(read.name@) {
                old(self).ids()
            } else {
                old(self).ids().push(read.name@)
            },
    {
        proof {
            use_type_invariant(&*self);
        }
        let ghost before = self.ids();
        let ghost keys = self@.dom();
        let mut taken = PafReads::new();
        std::mem::swap(self, &mut taken);
        let PafReads { mut names, mut map } = taken;
        let known = map.contains_key(read.name.as_str());
        map.insert(read.name.clone(), read.strand);
        if !known {
            names.push(read.name);
            proof {
                assert(string_views(names@) == before.push(read.name@));
                before.lemma_push_to_set_commute(read.name@);
            }
        } else {
            assert(map@.dom() == keys);
        }
        *self = PafReads { names, map };
    }

    /// The true orientation of a read that the index holds.
    pub fn get(&self, name: &str) -> (strand: ReadOrientation)
        requires
            self@.contains_key(name@),
        ensures
            strand == self@[name@],
    {
        match self.map.get(name) {
            Some(strand) => *strand,
            None => ReadOrientation::Unknown,
        }
    }

    /// The true orientation of a read, or `None` for a read that the index
    /// does not hold.
    pub fn lookup(&self, name: &str) -> (strand: Option<ReadOrientation>)
        ensures
            strand == if self@.contains_key(name@) {
                Some(self@[name@])
            } else {
                None
            },
    {
        match self.map.get(name) {
            Some(strand) => Some(*strand),
            None => None,
        }
    }

    /// Whether the index holds a read.
    pub fn contains(&self, name: &str) -> (found: bool)
        ensures
            found == self@.contains_key(name@),
    {
        self.map.contains_key(name)
    }

    /// The number of reads in the index.
    pub fn size(&self) -> (n: usize)
        ensures
            n == self.ids().len(),
            n == self@.dom().len(),
    {
        proof {
            use_type_invariant(self);
            self.lemma_size();
        }
        self.names.len()
    }

    /// The name of the `i`-th read in insertion order.
    pub fn name_at(&self, i: usize) -> (name: &String)
        requires
            i < self.ids().len(),
        ensures
            name@ == self.ids()[i as int],
    {
        &self.names[i]
    }

    /// The names of all reads, in insertion order.
    pub fn all_ids(&self) -> (ids: Vec<String>)
        ensures
            string_views(ids@) == self.ids(),
    {
        let mut out: Vec<String> = Vec::new();
        let mut i: usize = 0;
        while i < self.names.len()
            invariant
                i <= self.names.len(),
                string_views(out@) == self.ids().take(i as int),
            decreases self.names.len() - i,
        {
            let name = self.names[i].clone();
            out.push(name);
            assert(self.ids().take(i + 1) == self.ids().take(i as int).push(self.ids()[i as int]));
            i = i + 1;
        }
        out
    }
}

impl Clone for PafReads {
    /// An index with the same mapping, whose names are listed in the same
    /// order.
    fn clone(&self) -> (copy: Self)
        ensures
            copy@ == self@,
            copy.ids() == self.ids(),
    {
        proof {
            use_type_invariant(self);
        }
        let mut copy = PafReads::new();
        let mut i: usize = 0;
        while i < self.names.len()
            invariant
                i <= self.names.len(),
                self.wf(),
                copy.wf(),
                copy.ids() == self.ids().take(i as int),
                forall|name: Seq<char>| #[trigger]
                    copy@.contains_key(name) ==> copy@[name] == self@[name],
            decreases self.names.len() - i,
        {
            let name = &self.names[i];
            proof {
                lemma_not_listed_before(self.ids(), i as int);
            }
            let strand = self.get(name.as_str());
            copy.insert(PafRead { name: name.clone(), strand });
            i = i + 1;
        }
        proof {
            assert(self.ids().take(i as int) == self.ids());
        }
        copy
    }
}

/// Builds the index from alignment records, one per line.
///
/// The first line that is not valid UTF-8 ends the build with
/// `MalformedRecord`; no line is skipped.
pub fn parse_lines(lines: &Vec<Vec<u8>>) -> (reads: Result<PafReads, EvalError>)
    ensures
        match reads {
            Ok(r) => {
                &&& all_text(byte_views(lines@))
                &&& r.wf()
                &&& r@ == index_of(paf_records(byte_views(lines@)))
                &&& r.ids() == first_seen(paf_records(byte_views(lines@)))
            },
            Err(e) => !all_text(byte_views(lines@)) && e == EvalError::MalformedRecord,
        },
{
    let mut reads = PafReads::new();
    let ghost records = paf_records(byte_views(lines@));
    let mut i: usize = 0;
    while i < lines.len()
        invariant
            i <= lines.len(),
            records == paf_records(byte_views(lines@)),
            reads.wf(),
            all_text(byte_views(lines@).take(i as int)),
            reads@ == index_of(records.take(i as int)),
            reads.ids() == first_seen(records.take(i as int)),
        decreases lines.len() - i,
    {
        match PafRead::from_paf_line(&lines[i]) {
            Ok(read) => {
                proof {
                    let done = records.take(i as int);
                    let next = records.take(i + 1);
                    assert(next.drop_last() == done);
                }
                reads.insert(read);
            },
            Err(e) => {
                assert(!valid_utf8(byte_views(lines@)[i as int]));
                return Err(e);
            },
        }
        i = i + 1;
    }
    proof {
        assert(records.take(i as int) == records);
        assert(byte_views(lines@).take(i as int) == byte_views(lines@));
    }
    Ok(reads)
}

/// Builds the index from the bytes of an alignment file.
pub fn parse(data: &[u8]) -> (reads: Result<PafReads, EvalError>)
    ensures
        match reads {
            Ok(r) => {
                &&& all_text(lines_of(data@))
                &&& r.wf()
                &&& r@ == index_of(paf_records(lines_of(data@)))
                &&& r.ids() == first_seen(paf_records(lines_of(data@)))
            },
            Err(e) => !all_text(lines_of(data@)) && e == EvalError::MalformedRecord,
        },
{
    let lines = split_lines(data);
    parse_lines(&lines)
}

/// The names listed for a sequence of reads are the keys of its mapping, and
/// none is listed twice.
pub proof fn lemma_index_keys(records: Seq<(Seq<char>, ReadOrientation)>)
    ensures
        first_seen(records).no_duplicates(),
        first_seen(records).to_set() == index_of(records).dom(),
    decreases records.len(),
{
    if records.len() != 0 {
        let before = first_seen(records.drop_last());
        let name = records.last().0;
        lemma_index_keys(records.drop_last());
        before.lemma_push_to_set_commute(name);
    }
}

/// Every read is kept under its name with the strand of the last record of
/// that name: a later record overwrites an earlier one.
pub proof fn lemma_last_record_wins(records: Seq<(Seq<char>, ReadOrientation)>, i: int)
    requires
        0 <= i < records.len(),
        forall|j: int| i < j < records.len() ==> records[j].0 != records[i].0,
    ensures
        index_of(records).contains_key(records[i].0),
        index_of(records)[records[i].0] == records[i].1,
    decreases records.len(),
{
    if i < records.len() - 1 {
        let before = records.drop_last();
        assert forall|j: int| i < j < before.len() implies before[j].0 != before[i].0 by {
        }
        lemma_last_record_wins(before, i);
    }
}

} // verus!
