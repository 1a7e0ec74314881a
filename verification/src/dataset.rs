//! A data set of records, shuffled once and cut into a training part and a
//! test part. The record type is left open: the trainer's records are pairs
//! of a feature vector and a target vector.

use rand::seq::SliceRandom;
use vstd::prelude::*;

verus! {

/// Number of feature columns in a row of the reference data set; the column
/// after them is the target.
pub const FEATURE_COUNT: usize = 57;

/// Why a row of values is no record.
#[derive(Clone, Copy, Debug, PartialEq, Eq, Structural)]
pub enum DataError {
    /// The row has no column left for the target.
    MissingColumns,
}

/// The records for training and the records held back for testing.
pub struct Dataset<R> {
    pub train_data: Vec<R>,
    pub test_data: Vec<R>,
}

/// Puts the records into a random order with `rand`'s `SliceRandom::shuffle`,
/// drawing from the thread's generator `rand::rng()`.
///
/// Not proved, taken from the source of `shuffle`: it only swaps elements of
/// the slice, so afterwards the vector holds the same records, each as often
/// as before. Nothing is claimed of their order. (The generator is seeded
/// from the operating system when a thread first asks for it, and `rand`
/// panics there if the system gives it nothing.)
#[verifier::external_body]
pub(crate) fn shuffle_data<R>(data: &mut Vec<R>)
    ensures
        final(data)@.to_multiset() == old(data)@.to_multiset(),
        final(data)@.len() == old(data)@.len(),
{
    let mut rng = rand::rng();
    data.shuffle(&mut rng);
}

/// Cuts `data` at `split_idx`: the records before it, in their order, and the
/// records from it on, in their order. No record is lost or added.
pub fn split_data<R>(data: Vec<R>, split_idx: usize) -> (parts: (Vec<R>, Vec<R>))
    requires
        split_idx <= data@.len(),
    ensures
        parts.0@ == data@.subrange(0, split_idx as int),
        parts.1@ == data@.subrange(split_idx as int, data@.len() as int),
        parts.0@.len() + parts.1@.len() == data@.len(),
        parts.0@ + parts.1@ == data@,
{
    let mut train = data;
    let test = train.split_off(split_idx);
    assert(train@ + test@ =~= data@);
    (train, test)
}

/// The byte that separates two fields of a row.
pub const SEPARATOR: u8 = 44;

/// The bytes from `start` up to `end` are one field of the row: they hold no
/// separator, and on either side stands a separator or an end of the row.
pub open spec fn is_field(row: Seq<u8>, start: int, end: int) -> bool {
    &&& 0 <= start <= end <= row.len()
    &&& start == 0 || row[start - 1] == SEPARATOR
    &&& end == row.len() || row[end] == SEPARATOR
    &&& forall|k: int| start <= k < end ==> row[k] != SEPARATOR
}

/// The fields come one after another, each parted from the next by one
/// separator, from the start of the row to its end.
pub open spec fn covers(row: Seq<u8>, fields: Seq<(usize, usize)>) -> bool {
    &&& fields.len() > 0
    &&& fields[0].0 == 0
    &&& fields.last().1 == row.len()
    &&& forall|i: int|
        0 <= i < fields.len() ==> is_field(
            row,
            (#[trigger] fields[i]).0 as int,
            fields[i].1 as int,
        )
    &&& forall|i: int|
        0 <= i < fields.len() - 1 ==> (#[trigger] fields[i]).1 + 1 == fields[i + 1].0
}

/// Cuts a row at its separators. Each field is given by the position of its
/// first byte and the position after its last; a row without a separator is
/// one field, and between two separators that touch lies an empty field.
pub fn split_fields(row: &[u8]) -> (fields: Vec<(usize, usize)>)
    ensures
        covers(row@, fields@),
{
    let mut fields: Vec<(usize, usize)> = Vec::new();
    let mut start: usize = 0;
    let mut i: usize = 0;
    while i < row.len()
        invariant
            start <= i <= row@.len(),
            start == 0 || row@[start - 1] == SEPARATOR,
            forall|k: int| start <= k < i ==> row@[k] != SEPARATOR,
            fields@.len() == 0 ==> start == 0,
            fields@.len() > 0 ==> fields@[0].0 == 0 && fields@.last().1 + 1 == start,
            forall|j: int|
                0 <= j < fields@.len() ==> is_field(
                    row@,
                    (#[trigger] fields@[j]).0 as int,
                    fields@[j].1 as int,
                ),
            forall|j: int|
                0 <= j < fields@.len() - 1 ==> (#[trigger] fields@[j]).1 + 1 == fields@[j + 1].0,
        decreases row@.len() - i,
    {
        if row[i] == SEPARATOR {
            fields.push((start, i));
            start = i + 1;
        }
        i += 1;
    }
    fields.push((start, row.len()));
    fields
}

/// Two ways of cutting one row at its separators agree on every field that
/// both have.
proof fn lemma_fields_agree(row: Seq<u8>, a: Seq<(usize, usize)>, b: Seq<(usize, usize)>, i: int)
    requires
        covers(row, a),
        covers(row, b),
        0 <= i < a.len(),
        i < b.len(),
    ensures
        a[i] == b[i],
    decreases i,
{
    if i > 0 {
        lemma_fields_agree(row, a, b, i - 1);
        assert(a[i - 1].1 + 1 == a[i].0);
        assert(b[i - 1].1 + 1 == b[i].0);
    }
    if a[i].1 < b[i].1 {
        assert(row[a[i].1 as int] == SEPARATOR);
    } else if b[i].1 < a[i].1 {
        assert(row[b[i].1 as int] == SEPARATOR);
    }
}

/// A row can be cut at its separators in one way only: what `split_fields`
/// promises of its result holds of no other sequence of fields.
pub proof fn lemma_fields_unique(row: Seq<u8>, a: Seq<(usize, usize)>, b: Seq<(usize, usize)>)
    requires
        covers(row, a),
        covers(row, b),
    ensures
        a == b,
{
    if a.len() < b.len() {
        let last = a.len() - 1;
        lemma_fields_agree(row, a, b, last);
        assert(b[last].1 + 1 == b[last + 1].0);
        assert(is_field(row, b[last + 1].0 as int, b[last + 1].1 as int));
    } else if b.len() < a.len() {
        let last = b.len() - 1;
        lemma_fields_agree(row, a, b, last);
        assert(a[last].1 + 1 == a[last + 1].0);
        assert(is_field(row, a[last + 1].0 as int, a[last + 1].1 as int));
    }
    assert forall|i: int| 0 <= i < a.len() implies a[i] == b[i] by {
        lemma_fields_agree(row, a, b, i);
    }
    assert(a =~= b);
}

/// Cuts a row of values into a record: the first `feature_count` values are
/// the features, the value after them is the target, and further values are
/// dropped. A row with no value for the target is refused.
pub fn split_record<T>(values: Vec<T>, feature_count: usize) -> (record: Result<
    (Vec<T>, Vec<T>),
    DataError,
>)
    ensures
        record is Ok <==> values@.len() > feature_count,
        record matches Ok(pair) ==> pair.0@ == values@.subrange(0, feature_count as int)
            && pair.1@ == seq![values@[feature_count as int]],
        record matches Err(e) ==> e == DataError::MissingColumns,
{
    if values.len() <= feature_count {
        return Err(DataError::MissingColumns);
    }
    let mut features = values;
    features.truncate(feature_count + 1);
    let target = features.split_off(feature_count);
    assert(target@ =~= seq![values@[feature_count as int]]);
    assert(features@ =~= values@.subrange(0, feature_count as int));
    Ok((features, target))
}

impl<R> Dataset<R> {
    pub fn new(train_data: Vec<R>, test_data: Vec<R>) -> (dataset: Self)
        ensures
            dataset.train_data == train_data,
            dataset.test_data == test_data,
    {
        Self { train_data, test_data }
    }

    /// All records of the data set, the training part first.
    pub open spec fn records(&self) -> Seq<R> {
        self.train_data@ + self.test_data@
    }

    /// Shuffles the records once and cuts them at `split_idx`: that many go to
    /// the training part, the rest to the test part. Together the two parts
    /// hold exactly the records given, each as often as it was given.
    pub fn from_records(records: Vec<R>, split_idx: usize) -> (dataset: Self)
        requires
            split_idx <= records@.len(),
        ensures
            dataset.train_data@.len() == split_idx,
            dataset.train_data@.len() + dataset.test_data@.len() == records@.len(),
            dataset.records().to_multiset() == records@.to_multiset(),
    {
        let mut all = records;
        shuffle_data(&mut all);
        let (train_data, test_data) = split_data(all, split_idx);
        Dataset::new(train_data, test_data)
    }
}

} // verus!
