//! Bucket resolution, record processing and delete-plan construction.

use crate::errors::HandlerError;
use crate::event::{prefix_sums_fit, record_key, total_size, NotificationBatch, Record};
use crate::keys::{decode_key, decoded_key};
use vstd::prelude::*;

verus! {

/// Addresses one object for deletion: a decoded, non-empty key.
pub struct ObjectIdentifier {
    key: String,
}

impl ObjectIdentifier {
    /// The decoded key that the identifier addresses.
    pub closed spec fn key_seq(&self) -> Seq<char> {
        self.key@
    }

    /// A well-formed identifier never addresses the empty key.
    pub open spec fn wf(&self) -> bool {
        self.key_seq().len() > 0
    }

    /// Build an identifier from a decoded key. The storage API rejects an
    /// empty key, so construction refuses it rather than substituting a
    /// default.
    pub fn new(key: String) -> (r: Result<ObjectIdentifier, HandlerError>)
        ensures
            match r {
                Ok(id) => key@.len() > 0 && id.key_seq() == key@ && id.wf(),
                Err(e) => key@.len() == 0 && e == HandlerError::IdentifierBuild,
            },
    {
        if key.as_str().is_empty() {
            Err(HandlerError::IdentifierBuild)
        } else {
            Ok(ObjectIdentifier { key })
        }
    }

    /// The key, for handing to the storage client.
    pub fn key(&self) -> (k: &String)
        ensures
            k@ == self.key_seq(),
    {
        &self.key
    }
}

/// Resolve the bucket to operate on: the bucket name of the first record.
/// All records of one batch are assumed to share it, per the platform's
/// one-bucket-per-batch contract; it is deliberately not re-derived per
/// record.
pub fn get_bucket_name(batch: &NotificationBatch) -> (r: Result<String, HandlerError>)
    ensures
        match r {
            Ok(name) => {
                &&& batch.records@.len() > 0
                &&& batch.records@[0].bucket is Some
                &&& name@ == batch.records@[0].bucket.unwrap()@
            },
            Err(e) => {
                &&& batch.records@.len() == 0 || batch.records@[0].bucket is None
                &&& e == HandlerError::MissingBucket
            },
        },
{
    if batch.records.len() == 0 {
        return Err(HandlerError::MissingBucket);
    }
    match &batch.records[0].bucket {
        Some(name) => Ok(name.clone()),
        None => Err(HandlerError::MissingBucket),
    }
}

/// Walk the records in order: add every record's size (absent reading as
/// zero) to a running total and build one identifier per record from its
/// decoded key, duplicates preserved.
pub fn process_records(batch: &NotificationBatch) -> (r: Result<
    (i64, Vec<ObjectIdentifier>),
    HandlerError,
>)
    requires
        prefix_sums_fit(batch.records@),
    ensures
        match r {
            Ok(out) => {
                &&& out.0 as int == total_size(batch.records@)
                &&& out.1@.len() == batch.records@.len()
                &&& forall|i: int|
                    0 <= i < batch.records@.len() ==> (#[trigger] out.1@[i]).key_seq()
                        == decoded_key(record_key(batch.records@[i]))
                &&& forall|i: int| 0 <= i < batch.records@.len() ==> (#[trigger] out.1@[i]).wf()
                &&& forall|i: int|
                    0 <= i < batch.records@.len() ==> record_key(
                        #[trigger] batch.records@[i],
                    ).len() > 0
            },
            Err(e) => {
                &&& e == HandlerError::IdentifierBuild
                &&& exists|i: int|
                    0 <= i < batch.records@.len() && record_key(
                        #[trigger] batch.records@[i],
                    ).len() == 0
            },
        },
{
    let n = batch.records.len();
    let mut total: i64 = 0;
    let mut objs: Vec<ObjectIdentifier> = Vec::new();
    let mut idx: usize = 0;
    while idx < n
        invariant
            prefix_sums_fit(batch.records@),
            n == batch.records@.len(),
            idx <= n,
            total as int == total_size(batch.records@.take(idx as int)),
            objs@.len() == idx,
            forall|i: int|
                0 <= i < idx ==> (#[trigger] objs@[i]).key_seq() == decoded_key(
                    record_key(batch.records@[i]),
                ),
            forall|i: int| 0 <= i < idx ==> (#[trigger] objs@[i]).wf(),
            forall|i: int| 0 <= i < idx ==> record_key(#[trigger] batch.records@[i]).len() > 0,
        decreases n - idx,
    {
        let record = &batch.records[idx];
        let size: i64 = match record.size {
            Some(v) => v,
            None => 0,
        };
        proof {
            assert(batch.records@.take(idx as int + 1).drop_last() =~= batch.records@.take(
                idx as int,
            ));
            assert(total_size(batch.records@.take(idx as int + 1)) == total as int + size as int);
            assert(i64::MIN <= total_size(batch.records@.take(idx as int + 1)) <= i64::MAX);
        }
        let new_total: i64 = total + size;
        let key_raw: &str = match &record.key {
            Some(k) => k.as_str(),
            None => "",
        };
        proof {
            reveal_strlit("");
            assert(key_raw@ == record_key(batch.records@[idx as int]));
        }
        let decoded = decode_key(key_raw);
        match ObjectIdentifier::new(decoded) {
            Ok(id) => {
                objs.push(id);
            },
            Err(e) => {
                proof {
                    assert(record_key(batch.records@[idx as int]).len() == 0);
                }
                return Err(e);
            },
        }
        total = new_total;
        idx = idx + 1;
    }
    proof {
        assert(batch.records@.take(n as int) =~= batch.records@);
    }
    Ok((total, objs))
}

/// Everything one invocation deletes: the single target bucket, one
/// identifier per record, and the byte total for the final report.
pub struct DeletePlan {
    pub bucket: String,
    pub objects: Vec<ObjectIdentifier>,
    pub total_bytes: i64,
}

impl DeletePlan {
    /// The plan is exactly what the given records call for: the bucket is
    /// the first record's, there is one identifier per record in input
    /// order holding its decoded key, and the total is the sum of all
    /// sizes.
    pub open spec fn matches_batch(&self, rs: Seq<Record>) -> bool {
        &&& rs.len() > 0
        &&& rs[0].bucket is Some
        &&& self.bucket@ == rs[0].bucket.unwrap()@
        &&& self.objects@.len() == rs.len()
        &&& forall|i: int|
            0 <= i < rs.len() ==> (#[trigger] self.objects@[i]).key_seq() == decoded_key(
                record_key(rs[i]),
            )
        &&& forall|i: int| 0 <= i < rs.len() ==> (#[trigger] self.objects@[i]).wf()
        &&& self.total_bytes as int == total_size(rs)
    }
}

/// Resolve the bucket, then process the records into one delete plan.
/// Succeeds exactly when the batch is non-empty, its first record names a
/// bucket, and no record's decoded key is empty.
pub fn build_delete_plan(batch: &NotificationBatch) -> (r: Result<DeletePlan, HandlerError>)
    requires
        prefix_sums_fit(batch.records@),
    ensures
        match r {
            Ok(plan) => plan.matches_batch(batch.records@),
            Err(e) => {
                &&& (e == HandlerError::MissingBucket <==> (batch.records@.len() == 0
                    || batch.records@[0].bucket is None))
                &&& (e == HandlerError::IdentifierBuild ==> (batch.records@.len() > 0
                    && batch.records@[0].bucket is Some && exists|i: int|
                    0 <= i < batch.records@.len() && record_key(
                        #[trigger] batch.records@[i],
                    ).len() == 0))
                &&& e != HandlerError::DeleteRequest
            },
        },
{
    let bucket = match get_bucket_name(batch) {
        Ok(name) => name,
        Err(e) => {
            return Err(e);
        },
    };
    match process_records(batch) {
        Ok((total_bytes, objects)) => Ok(DeletePlan { bucket, objects, total_bytes }),
        Err(e) => Err(e),
    }
}

} // verus!
