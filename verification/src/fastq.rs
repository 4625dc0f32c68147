//! A classifier's output: from sequence records to a mapping of calls.
//!
//! A classifier writes one sequence record per read. The header of a record
//! starts with an identifier, which ends at the first space, and holds the
//! symbol of the orientation that the classifier chose, mostly as its last
//! byte. The identifier is itself a list of fields, one of which is the name
//! of the read. Which field that is, and where the symbol stands, depends on
//! the classifier, and is given by an `IdentifierRule`.

use crate::error::EvalError;
use crate::orientation::orientation_of;
use crate::orientation::ReadOrientation;
use crate::orientation::symbol_of;
use crate::orientation::Verdict;
use crate::paf::first_seen;
use crate::paf::index_of;
use crate::paf::PafRead;
use crate::paf::PafReads;
use crate::paf::reads_of;
use crate::score::AccuracyResultExact;
use crate::score::CategorisedReads;
use crate::score::counts_of;
use crate::score::judged;
use crate::score::lemma_counts_add_up;
use crate::score::score;
use crate::text::byte_views;
use crate::text::field_of;
use crate::text::find_field;
use crate::text::first_byte;
use crate::text::free_of;
use crate::text::joined;
use crate::text::lemma_first_of_unique;
use crate::text::lemma_joined_field;
use crate::text::lemma_joined_free;
use crate::text::lemma_joined_is_text;
use crate::text::SPACE;
use crate::text::text_of;
use seq_io::fastq::Record;
use vstd::hash_map::StringHashMap;
use vstd::prelude::*;
use vstd::slice::slice_subrange;
use vstd::utf8::decode_utf8;
use vstd::utf8::decode_utf8_encode_utf8;
use vstd::utf8::valid_utf8;

verus! {

/// The byte that separates the fields of an identifier.
pub const PIPE: u8 = 0x7c;

/// The classifiers whose output can be read.
#[derive(Clone, Copy, Debug, PartialEq, Eq, Structural)]
pub enum ClassifierFamily {
    /// Writes the name of the read as the first field of the identifier.
    Restrander,
    /// Writes a name of its own first and the name of the read second.
    Pychopper,
    /// Writes the name of the read as the whole identifier, and tags the
    /// strand in the eighth field of the header.
    Nanoprep,
}

/// Where in a record the orientation symbol stands.
#[derive(Clone, Copy, Debug, PartialEq, Eq, Structural)]
pub enum OrientationSource {
    /// The last byte of the header line.
    LastByteOfDescriptor,
    /// The byte at `offset` in one of the fields that spaces cut the header
    /// line into: the field number `field`, counted from zero.
    FieldByte { field: usize, offset: usize },
}

/// How to find the name of the read and the call in a record's header.
#[derive(Clone, Copy, Debug, PartialEq, Eq, Structural)]
pub struct IdentifierRule {
    /// The byte that separates the fields of the identifier.
    pub split_header_on: u8,
    /// Which field, counted from zero, is the name of the read.
    pub identifier_field_index: usize,
    /// Where the orientation symbol stands.
    pub orientation_source: OrientationSource,
}

/// The rule of each classifier family.
pub open spec fn rule_of(family: ClassifierFamily) -> IdentifierRule {
    match family {
        ClassifierFamily::Restrander => IdentifierRule {
            split_header_on: PIPE,
            identifier_field_index: 0,
            orientation_source: OrientationSource::LastByteOfDescriptor,
        },
        ClassifierFamily::Pychopper => IdentifierRule {
            split_header_on: PIPE,
            identifier_field_index: 1,
            orientation_source: OrientationSource::LastByteOfDescriptor,
        },
        ClassifierFamily::Nanoprep => IdentifierRule {
            split_header_on: SPACE,
            identifier_field_index: 0,
            orientation_source: OrientationSource::FieldByte { field: 7, offset: 7 },
        },
    }
}

impl IdentifierRule {
    /// The rule for the output of a classifier family.
    pub fn for_family(family: ClassifierFamily) -> (rule: IdentifierRule)
        ensures
            rule == rule_of(family),
    {
        match family {
            ClassifierFamily::Restrander => IdentifierRule {
                split_header_on: PIPE,
                identifier_field_index: 0,
                orientation_source: OrientationSource::LastByteOfDescriptor,
            },
            ClassifierFamily::Pychopper => IdentifierRule {
                split_header_on: PIPE,
                identifier_field_index: 1,
                orientation_source: OrientationSource::LastByteOfDescriptor,
            },
            ClassifierFamily::Nanoprep => IdentifierRule {
                split_header_on: SPACE,
                identifier_field_index: 0,
                orientation_source: OrientationSource::FieldByte { field: 7, offset: 7 },
            },
        }
    }
}

/// The bytes of a header's identifier: everything before the first space.
pub open spec fn id_bytes(head: Seq<u8>) -> Seq<u8> {
    head.take(first_byte(head, SPACE))
}

/// The orientation symbol of a header, where it has one.
pub open spec fn marker_of(source: OrientationSource, head: Seq<u8>) -> Option<u8> {
    match source {
        OrientationSource::LastByteOfDescriptor => if head.len() > 0 {
            Some(head.last())
        } else {
            None
        },
        OrientationSource::FieldByte { field, offset } => match field_of(
            head,
            SPACE,
            field as nat,
        ) {
            Some(tag) => if offset < tag.len() {
                Some(tag[offset as int])
            } else {
                None
            },
            None => None,
        },
    }
}

/// What one header says: the name of the read and the call for it.
///
/// An empty header has no orientation symbol. An identifier that is not valid
/// UTF-8 cannot be read, nor can a name that is not. An identifier with too
/// few fields for the rule is malformed. A header without the byte that the
/// rule reads the orientation from has no orientation symbol.
pub open spec fn head_call(rule: IdentifierRule, head: Seq<u8>) -> Result<
    (Seq<char>, ReadOrientation),
    EvalError,
> {
    if head.len() == 0 {
        Err(EvalError::MissingOrientationMarker)
    } else if !valid_utf8(id_bytes(head)) {
        Err(EvalError::UnreadableRecord)
    } else {
        match field_of(id_bytes(head), rule.split_header_on, rule.identifier_field_index as nat) {
            None => Err(EvalError::MalformedRecord),
            Some(name) => if !valid_utf8(name) {
                Err(EvalError::UnreadableRecord)
            } else {
                match marker_of(rule.orientation_source, head) {
                    None => Err(EvalError::MissingOrientationMarker),
                    Some(symbol) => Ok((decode_utf8(name), orientation_of(symbol))),
                }
            },
        }
    }
}

/// What a sequence of headers says, in order; the failure of the first
/// header that has one, where any has.
pub open spec fn head_calls(rule: IdentifierRule, heads: Seq<Seq<u8>>) -> Result<
    Seq<(Seq<char>, ReadOrientation)>,
    EvalError,
>
    decreases heads.len(),
{
    if heads.len() == 0 {
        Ok(Seq::empty())
    } else {
        match head_calls(rule, heads.drop_last()) {
            Err(e) => Err(e),
            Ok(before) => match head_call(rule, heads.last()) {
                Err(e) => Err(e),
                Ok(call) => Ok(before.push(call)),
            },
        }
    }
}

/// The calls of a classifier: a mapping from the name of a read to the
/// orientation called for it. It is viewed as that mapping.
pub struct ClassifierCalls {
    map: StringHashMap<ReadOrientation>,
}

impl View for ClassifierCalls {
    type V = Map<Seq<char>, ReadOrientation>;

    closed spec fn view(&self) -> Map<Seq<char>, ReadOrientation> {
        self.map@
    }
}

/// The call recorded for a read, if there is one.
pub open spec fn call_for(calls: Map<Seq<char>, ReadOrientation>, name: Seq<char>) -> Option<
    ReadOrientation,
> {
    if calls.contains_key(name) {
        Some(calls[name])
    } else {
        None
    }
}

impl ClassifierCalls {
    /// The mapping without any call.
    pub fn new() -> (calls: ClassifierCalls)
        ensures
            calls@ == Map::<Seq<char>, ReadOrientation>::empty(),
    {
        ClassifierCalls { map: StringHashMap::new() }
    }

    /// Records a call. A later call for a read replaces an earlier one.
    pub fn insert(&mut self, name: String, call: ReadOrientation)
        ensures
            final(self)@ == old(self)@.insert(name@, call),
    {
        self.map.insert(name, call);
    }

    /// The call recorded for a read, if there is one.
    pub fn get(&self, name: &str) -> (call: Option<ReadOrientation>)
        ensures
            call == call_for(self@, name@),
    {
        match self.map.get(name) {
            Some(call) => Some(*call),
            None => None,
        }
    }

    /// Whether a call is recorded for a read.
    pub fn contains(&self, name: &str) -> (found: bool)
        ensures
            found == self@.contains_key(name@),
    {
        self.map.contains_key(name)
    }
}

/// The header lines of the records of a FASTQ stream, in order, as the
/// FASTQ reader of `seq_io` finds them; `None` where the reader reports an
/// error before the end of the stream.
pub uninterp spec fn fastq_heads(data: Seq<u8>) -> Option<Seq<Seq<u8>>>;

/// The error type of the FASTQ reader of `seq_io`.
#[verifier::external_type_specification]
#[verifier::external_body]
pub struct ExFastqError(seq_io::fastq::Error);

/// Reads all records of a FASTQ stream and keeps their header lines.
///
/// Runs `seq_io::fastq::Reader` over the bytes, through `records()`, up to
/// the end of the stream or the reader's first error. The contract only
/// names what comes back: the headers are a function of the bytes.
#[verifier::external_body]
pub(crate) fn read_heads(data: &[u8]) -> (heads: Result<Vec<Vec<u8>>, seq_io::fastq::Error>)
    ensures
        match heads {
            Ok(found) => fastq_heads(data@) == Some(byte_views(found@)),
            Err(_) => fastq_heads(data@) is None,
        },
{
    let mut reader = seq_io::fastq::Reader::new(data);
    reader.records().map(|record| record.map(|r| r.head)).collect()
}

/// The identifier of a record with the given header line, as text.
///
/// Calls `seq_io::fastq::Record::id` on a record with that header. By its
/// documentation and source the identifier is everything before the first
/// space of the header, and the call fails exactly where those bytes are not
/// valid UTF-8.
#[verifier::external_body]
pub(crate) fn record_id(head: &[u8]) -> (id: Option<String>)
    ensures
        id is Some <==> valid_utf8(id_bytes(head@)),
        id matches Some(text) ==> text@ == decode_utf8(id_bytes(head@)),
{
    let record = seq_io::fastq::OwnedRecord { head: head.to_vec(), seq: Vec::new(), qual: Vec::new() };
    match record.id() {
        Ok(id) => Some(id.to_owned()),
        Err(_) => None,
    }
}

/// Reads the name of the read and the call from one header line.
pub fn parse_head(rule: &IdentifierRule, head: &[u8]) -> (call: Result<
    (String, ReadOrientation),
    EvalError,
>)
    ensures
        match call {
            Ok((name, orientation)) => head_call(*rule, head@) == Ok::<_, EvalError>(
                (name@, orientation),
            ),
            Err(e) => head_call(*rule, head@) == Err::<(Seq<char>, ReadOrientation), _>(e),
        },
{
    if head.len() == 0 {
        return Err(EvalError::MissingOrientationMarker);
    }
    let id = match record_id(head) {
        Some(id) => id,
        None => {
            return Err(EvalError::UnreadableRecord);
        },
    };
    let fields = id.as_str().as_bytes();
    proof {
        decode_utf8_encode_utf8(id_bytes(head@));
    }
    let (from, to) = match find_field(fields, rule.split_header_on, rule.identifier_field_index) {
        Some(range) => range,
        None => {
            return Err(EvalError::MalformedRecord);
        },
    };
    let name = match text_of(slice_subrange(fields, from, to)) {
        Some(name) => name.to_owned(),
        None => {
            return Err(EvalError::UnreadableRecord);
        },
    };
    let symbol = match rule.orientation_source {
        OrientationSource::LastByteOfDescriptor => head[head.len() - 1],
        OrientationSource::FieldByte { field, offset } => match find_field(head, SPACE, field) {
            Some((tag_from, tag_to)) => {
                if offset < tag_to - tag_from {
                    head[tag_from + offset]
                } else {
                    return Err(EvalError::MissingOrientationMarker);
                }
            },
            None => {
                return Err(EvalError::MissingOrientationMarker);
            },
        },
    };
    Ok((name, ReadOrientation::from_symbol(symbol)))
}

/// Builds the mapping of calls from the header lines of a classifier's
/// records. The first header that cannot be read ends the build with its
/// failure; of two records for one read the later one counts.
pub fn parse_heads(heads: &Vec<Vec<u8>>, rule: &IdentifierRule) -> (calls: Result<
    ClassifierCalls,
    EvalError,
>)
    ensures
        match calls {
            Ok(c) => head_calls(*rule, byte_views(heads@)) matches Ok(found) && c@ == index_of(
                found,
            ),
            Err(e) => head_calls(*rule, byte_views(heads@)) == Err::<
                Seq<(Seq<char>, ReadOrientation)>,
                _,
            >(e),
        },
{
    let mut calls = ClassifierCalls::new();
    let ghost all = byte_views(heads@);
    let mut i: usize = 0;
    while i < heads.len()
        invariant
            i <= heads.len(),
            all == byte_views(heads@),
            head_calls(*rule, all.take(i as int)) matches Ok(found) && calls@ == index_of(found),
        decreases heads.len() - i,
    {
        proof {
            assert(all.take(i + 1).drop_last() == all.take(i as int));
        }
        match parse_head(rule, heads[i].as_slice()) {
            Ok((name, orientation)) => {
                proof {
                    let before = head_calls(*rule, all.take(i as int))->Ok_0;
                    let after = before.push((name@, orientation));
                    assert(after.drop_last() == before);
                }
                calls.insert(name, orientation);
            },
            Err(e) => {
                proof {
                    lemma_head_calls_fail(*rule, all, i + 1);
                }
                return Err(e);
            },
        }
        i = i + 1;
    }
    proof {
        assert(all.take(i as int) == all);
    }
    Ok(calls)
}

/// The headers of a stream fail as unreadable, as malformed or for want of
/// an orientation symbol, and in no other way.
pub proof fn lemma_head_failures(rule: IdentifierRule, heads: Seq<Seq<u8>>)
    ensures
        head_calls(rule, heads) matches Err(e) ==> e == EvalError::UnreadableRecord || e
            == EvalError::MalformedRecord || e == EvalError::MissingOrientationMarker,
    decreases heads.len(),
{
    if heads.len() != 0 {
        lemma_head_failures(rule, heads.drop_last());
    }
}

/// A failure among the first `n` headers is the failure of them all.
pub proof fn lemma_head_calls_fail(rule: IdentifierRule, heads: Seq<Seq<u8>>, n: int)
    requires
        0 <= n <= heads.len(),
        head_calls(rule, heads.take(n)) is Err,
    ensures
        head_calls(rule, heads) == head_calls(rule, heads.take(n)),
    decreases heads.len() - n,
{
    if n < heads.len() {
        assert(heads.take(n + 1).drop_last() == heads.take(n));
        lemma_head_calls_fail(rule, heads, n + 1);
    } else {
        assert(heads.take(n) == heads);
    }
}

/// The header line of a record whose identifier has the given fields, and
/// which carries a description and then the symbol of a call.
pub open spec fn header_of(
    rule: IdentifierRule,
    fields: Seq<Seq<u8>>,
    description: Seq<u8>,
    call: ReadOrientation,
) -> Seq<u8> {
    joined(fields, rule.split_header_on) + seq![SPACE] + description + seq![symbol_of(call)]
}

/// The name and the call that a header was written with are the ones that
/// are read from it. This holds under every rule that reads the call from
/// the last byte and whose separator is an ASCII byte other than the space,
/// for every identifier that has the field that the rule reads and whose
/// fields are text without the separator and without a space.
pub proof fn lemma_header_round_trip(
    rule: IdentifierRule,
    fields: Seq<Seq<u8>>,
    description: Seq<u8>,
    call: ReadOrientation,
)
    requires
        rule.split_header_on < 0x80,
        rule.split_header_on != SPACE,
        rule.orientation_source is LastByteOfDescriptor,
        rule.identifier_field_index < fields.len(),
        free_of(fields, rule.split_header_on),
        free_of(fields, SPACE),
        forall|i: int| 0 <= i < fields.len() ==> valid_utf8(#[trigger] fields[i]),
    ensures
        head_call(rule, header_of(rule, fields, description, call)) == Ok::<_, EvalError>(
            (decode_utf8(fields[rule.identifier_field_index as int]), call),
        ),
{
    let sep = rule.split_header_on;
    let id = joined(fields, sep);
    let head = header_of(rule, fields, description, call);
    lemma_joined_free(fields, sep, SPACE);
    assert forall|j: int| 0 <= j < id.len() implies head[j] != SPACE by {
    }
    lemma_first_of_unique(head, SPACE, SPACE, id.len() as int);
    assert(id_bytes(head) == id);
    lemma_joined_is_text(fields, sep);
    lemma_joined_field(fields, sep, rule.identifier_field_index as nat);
}

/// What a FASTQ stream says, given the headers that the reader found in it:
/// a stream that the reader cannot read is `UnreadableRecord`.
pub open spec fn stream_calls(rule: IdentifierRule, heads: Option<Seq<Seq<u8>>>) -> Result<
    Seq<(Seq<char>, ReadOrientation)>,
    EvalError,
> {
    match heads {
        None => Err(EvalError::UnreadableRecord),
        Some(found) => head_calls(rule, found),
    }
}

/// Builds the mapping of calls from the bytes of a classifier's output.
pub fn read_calls(data: &[u8], rule: &IdentifierRule) -> (calls: Result<
    ClassifierCalls,
    EvalError,
>)
    ensures
        match calls {
            Ok(c) => stream_calls(*rule, fastq_heads(data@)) matches Ok(found) && c@ == index_of(
                found,
            ),
            Err(e) => stream_calls(*rule, fastq_heads(data@)) == Err::<
                Seq<(Seq<char>, ReadOrientation)>,
                _,
            >(e),
        },
{
    match read_heads(data) {
        Ok(heads) => parse_heads(&heads, rule),
        Err(_) => Err(EvalError::UnreadableRecord),
    }
}

/// Scores a classifier's output against the ground truth, and returns the
/// number of reads of each verdict.
pub fn parse(data: &[u8], paf_reads: &PafReads, rule: &IdentifierRule) -> (counts: Result<
    AccuracyResultExact,
    EvalError,
>)
    ensures
        match counts {
            Ok(c) => stream_calls(*rule, fastq_heads(data@)) matches Ok(found) && c == counts_of(
                paf_reads.ids(),
                paf_reads@,
                index_of(found),
            ) && c.spec_total() == paf_reads.ids().len(),
            Err(e) => stream_calls(*rule, fastq_heads(data@)) == Err::<
                Seq<(Seq<char>, ReadOrientation)>,
                _,
            >(e),
        },
{
    match read_calls(data, rule) {
        Ok(calls) => {
            let (counts, reads) = score(paf_reads, &calls);
            proof {
                lemma_counts_add_up(paf_reads.ids(), paf_reads@, calls@, counts, reads);
            }
            Ok(counts)
        },
        Err(e) => Err(e),
    }
}

/// Scores a classifier's output against the ground truth, and returns the
/// reads of each verdict.
pub fn parse_categorise(data: &[u8], paf_reads: &PafReads, rule: &IdentifierRule) -> (reads: Result<
    CategorisedReads,
    EvalError,
>)
    ensures
        match reads {
            Ok(r) => {
                &&& stream_calls(*rule, fastq_heads(data@)) matches Ok(found)
                &&& r.wf()
                &&& r.correct.ids() == judged(
                    paf_reads.ids(),
                    paf_reads@,
                    index_of(found),
                    Verdict::Correct,
                )
                &&& r.incorrect.ids() == judged(
                    paf_reads.ids(),
                    paf_reads@,
                    index_of(found),
                    Verdict::Incorrect,
                )
                &&& r.ambiguous.ids() == judged(
                    paf_reads.ids(),
                    paf_reads@,
                    index_of(found),
                    Verdict::Ambiguous,
                )
            },
            Err(e) => stream_calls(*rule, fastq_heads(data@)) == Err::<
                Seq<(Seq<char>, ReadOrientation)>,
                _,
            >(e),
        },
{
    match read_calls(data, rule) {
        Ok(calls) => {
            let (_, reads) = score(paf_reads, &calls);
            Ok(reads)
        },
        Err(e) => Err(e),
    }
}

/// Scores the output of Nanoprep against the reads of the ground truth,
/// given as a list. Of two reads of one name the later one counts.
pub fn parse_nanoprep(data: &[u8], paf_reads: &Vec<PafRead>) -> (counts: Result<
    AccuracyResultExact,
    EvalError,
>)
    ensures
        match counts {
            Ok(c) => stream_calls(rule_of(ClassifierFamily::Nanoprep), fastq_heads(data@))
                matches Ok(found) && c == counts_of(
                first_seen(reads_of(paf_reads@)),
                index_of(reads_of(paf_reads@)),
                index_of(found),
            ),
            Err(e) => stream_calls(rule_of(ClassifierFamily::Nanoprep), fastq_heads(data@))
                == Err::<Seq<(Seq<char>, ReadOrientation)>, _>(e),
        },
{
    let mut index = PafReads::new();
    let mut i: usize = 0;
    while i < paf_reads.len()
        invariant
            i <= paf_reads.len(),
            index.wf(),
            index@ == index_of(reads_of(paf_reads@).take(i as int)),
            index.ids() == first_seen(reads_of(paf_reads@).take(i as int)),
        decreases paf_reads.len() - i,
    {
        let read = &paf_reads[i];
        proof {
            let all = reads_of(paf_reads@);
            assert(all.take(i + 1).drop_last() == all.take(i as int));
        }
        index.insert(PafRead { name: read.name.clone(), strand: read.strand });
        i = i + 1;
    }
    proof {
        assert(reads_of(paf_reads@).take(i as int) == reads_of(paf_reads@));
    }
    let rule = IdentifierRule::for_family(ClassifierFamily::Nanoprep);
    parse(data, &index, &rule)
}

} // verus!
