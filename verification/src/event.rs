//! The notification batch and its records, as plain values.

use vstd::prelude::*;

verus! {

/// One entry of a notification batch: the object-storage event fields that
/// the cleanup logic reads. Every field is optional in the transport schema.
pub struct Record {
    /// Name of the bucket holding the created object.
    pub bucket: Option<String>,
    /// Object key, still in transport encoding (`+` stands for a space).
    pub key: Option<String>,
    /// Object size in bytes; absent counts as zero.
    pub size: Option<i64>,
}

/// A platform-delivered batch of records; may be empty.
pub struct NotificationBatch {
    pub records: Vec<Record>,
}

/// The key of a record, with an absent key reading as the empty string.
pub open spec fn record_key(r: Record) -> Seq<char> {
    match r.key {
        Some(k) => k@,
        None => Seq::<char>::empty(),
    }
}

/// The size of a record in bytes, with an absent size reading as zero.
pub open spec fn record_size(r: Record) -> int {
    match r.size {
        Some(n) => n as int,
        None => 0,
    }
}

/// Sum of the sizes of all records, in order.
pub open spec fn total_size(rs: Seq<Record>) -> int
    decreases rs.len(),
{
    if rs.len() == 0 {
        0
    } else {
        total_size(rs.drop_last()) + record_size(rs.last())
    }
}

/// Every left-to-right partial sum of the sizes stays within `i64`.
pub open spec fn prefix_sums_fit(rs: Seq<Record>) -> bool {
    forall|i: int| 0 <= i <= rs.len() ==> i64::MIN <= #[trigger] total_size(rs.take(i)) <= i64::MAX
}

} // verus!
