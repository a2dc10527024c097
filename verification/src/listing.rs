//! The container listing: one record for each line of the runtime's
//! tabular output that holds at least six fields.

use crate::text::{
    is_blank, join_of, lemma_join_split, lemma_not_blank, lemma_split_single,
    lemma_trim_keeps_fields, lines, lines_of, split, split_of, trim, trimmed, without_return,
};
use vstd::prelude::*;

verus! {

/// The character that parts the fields of a line.
pub const FIELD_SEPARATOR: char = '|';

/// The number of fields that a record is made of.
pub const FIELD_COUNT: usize = 6;

/// One container as the runtime reports it. The fields are kept as they
/// stand in the line: none is trimmed or read any further.
#[derive(Clone, Debug, PartialEq, Eq)]
pub struct ContainerRecord {
    pub id: String,
    pub name: String,
    pub image: String,
    pub status: String,
    pub ports: String,
    pub created: String,
}

/// A record as mathematical values.
pub struct ContainerRecordView {
    pub id: Seq<char>,
    pub name: Seq<char>,
    pub image: Seq<char>,
    pub status: Seq<char>,
    pub ports: Seq<char>,
    pub created: Seq<char>,
}

impl ContainerRecordView {
    /// The fields in the order in which a line holds them.
    pub open spec fn fields(self) -> Seq<Seq<char>> {
        seq![self.id, self.name, self.image, self.status, self.ports, self.created]
    }
}

impl View for ContainerRecord {
    type V = ContainerRecordView;

    open spec fn view(&self) -> ContainerRecordView {
        ContainerRecordView {
            id: self.id@,
            name: self.name@,
            image: self.image@,
            status: self.status@,
            ports: self.ports@,
            created: self.created@,
        }
    }
}

impl DeepView for ContainerRecord {
    type V = ContainerRecordView;

    open spec fn deep_view(&self) -> ContainerRecordView {
        self@
    }
}

/// The record made of the first six of `fields`.
pub open spec fn record_of(fields: Seq<Seq<char>>) -> ContainerRecordView
    recommends
        fields.len() >= FIELD_COUNT,
{
    ContainerRecordView {
        id: fields[0],
        name: fields[1],
        image: fields[2],
        status: fields[3],
        ports: fields[4],
        created: fields[5],
    }
}

/// The record that `line` holds: none where the line is blank or has
/// fewer than six fields; fields after the sixth are left out.
pub open spec fn line_record(line: Seq<char>) -> Option<ContainerRecordView> {
    let fields = split_of(line, FIELD_SEPARATOR);
    if !is_blank(line) && fields.len() >= FIELD_COUNT {
        Some(record_of(fields))
    } else {
        None
    }
}

/// The records of those of `lines` that hold one, in the order of the lines.
pub open spec fn records_of(lines: Seq<Seq<char>>) -> Seq<ContainerRecordView> {
    lines.filter_map(|line: Seq<char>| line_record(line))
}

/// The records that the listing `text` holds.
pub open spec fn listing_of(text: Seq<char>) -> Seq<ContainerRecordView> {
    records_of(lines_of(text))
}

/// A line with fewer than six fields holds no record. The fields may be
/// counted after trimming: white space is no separator, so trimming takes
/// no field away.
pub proof fn lemma_short_line_dropped(line: Seq<char>)
    requires
        split_of(trimmed(line), FIELD_SEPARATOR).len() < FIELD_COUNT,
    ensures
        split_of(line, FIELD_SEPARATOR).len() < FIELD_COUNT,
        line_record(line) is None,
{
    lemma_trim_keeps_fields(line, FIELD_SEPARATOR);
}

/// A line of at least six fields is read as one record, and the fields of
/// that record, joined by the separator, are the first six fields of the
/// line as they stood in it: a line of exactly six fields comes back whole.
pub proof fn lemma_line_round_trip(line: Seq<char>)
    requires
        !line.contains('\n'),
        split_of(line, FIELD_SEPARATOR).len() >= FIELD_COUNT,
    ensures
        line_record(line) is Some,
        listing_of(line) == seq![line_record(line).unwrap()],
        join_of(line_record(line).unwrap().fields(), FIELD_SEPARATOR) == join_of(
            split_of(line, FIELD_SEPARATOR).take(FIELD_COUNT as int),
            FIELD_SEPARATOR,
        ),
        split_of(line, FIELD_SEPARATOR).len() == FIELD_COUNT ==> join_of(
            line_record(line).unwrap().fields(),
            FIELD_SEPARATOR,
        ) == line,
{
    let fields = split_of(line, FIELD_SEPARATOR);
    if !line.contains(FIELD_SEPARATOR) {
        lemma_split_single(line, FIELD_SEPARATOR);
    }
    let at = choose|i: int| 0 <= i < line.len() && line[i] == FIELD_SEPARATOR;
    lemma_not_blank(line, at);
    assert(record_of(fields).fields() == fields.take(FIELD_COUNT as int));
    if fields.len() == FIELD_COUNT {
        assert(fields.take(FIELD_COUNT as int) == fields);
        lemma_join_split(line, FIELD_SEPARATOR);
    }
    lemma_split_single(line, '\n');
    let closed = Seq::new(0, |i: int| without_return(seq![line][i]));
    assert(closed.push(line) == seq![line]);
    assert(lines_of(line) == seq![line]);
    let read = |l: Seq<char>| line_record(l);
    assert(seq![line].drop_last() == Seq::<Seq<char>>::empty());
    assert(Seq::<Seq<char>>::empty().filter_map(read) == Seq::<ContainerRecordView>::empty());
    assert(seq![line].filter_map(read) == Seq::<ContainerRecordView>::empty() + seq![
        line_record(line).unwrap(),
    ]);
}

/// There are as many records as there are lines that hold one: a line
/// that holds none is passed over and takes no other line with it.
pub proof fn lemma_record_count(lines: Seq<Seq<char>>)
    ensures
        records_of(lines).len() == lines.filter(|line: Seq<char>| line_record(line) is Some).len(),
    decreases lines.len(),
{
    reveal(Seq::filter);
    if lines.len() > 0 {
        lemma_record_count(lines.drop_last());
    }
}

/// Reads one line of the listing.
pub fn parse_line(line: &str) -> (record: Option<ContainerRecord>)
    ensures
        record.deep_view() == line_record(line@),
{
    if trim(line).as_str().is_empty() {
        return None;
    }
    let parts = split(line, FIELD_SEPARATOR);
    if parts.len() >= FIELD_COUNT {
        Some(
            ContainerRecord {
                id: parts[0].clone(),
                name: parts[1].clone(),
                image: parts[2].clone(),
                status: parts[3].clone(),
                ports: parts[4].clone(),
                created: parts[5].clone(),
            },
        )
    } else {
        None
    }
}

/// Reads the listing: the records of its lines, in the order in which the
/// runtime wrote them.
pub fn parse_listing(text: &str) -> (records: Vec<ContainerRecord>)
    ensures
        records.deep_view() == listing_of(text@),
{
    let all = lines(text);
    let mut records: Vec<ContainerRecord> = Vec::new();
    let mut i: usize = 0;
    assert(all.deep_view().take(0) == Seq::<Seq<char>>::empty());
    while i < all.len()
        invariant
            i <= all.len(),
            all.deep_view() == lines_of(text@),
            records.deep_view() == records_of(all.deep_view().take(i as int)),
        decreases all.len() - i,
    {
        let ghost before = records.deep_view();
        proof {
            let read = all.deep_view().take(i + 1);
            assert(read.drop_last() == all.deep_view().take(i as int));
            assert(read.last() == all[i as int]@);
        }
        match parse_line(all[i].as_str()) {
            Some(record) => {
                records.push(record);
                assert(records.deep_view() == before + seq![record@]);
            },
            None => {},
        }
        i += 1;
    }
    assert(all.deep_view().take(all.len() as int) == all.deep_view());
    records
}

} // verus!
