use s3_cleanup::errors::HandlerError;
use s3_cleanup::event::{NotificationBatch, Record};
use s3_cleanup::handler::{finish_invocation, plan_invocation, InvocationPlan};
use s3_cleanup::keys::decode_key;
use s3_cleanup::plan::{build_delete_plan, get_bucket_name, process_records, ObjectIdentifier};

fn record(bucket: Option<&str>, key: Option<&str>, size: Option<i64>) -> Record {
    Record {
        bucket: bucket.map(|s| s.to_string()),
        key: key.map(|s| s.to_string()),
        size,
    }
}

#[test]
fn test_event_handler() {
    let batch = NotificationBatch {
        records: vec![record(Some("test-bucket"), Some("test object"), Some(1234))],
    };
    let plan = match plan_invocation(&batch) {
        Ok(InvocationPlan::Delete(plan)) => plan,
        _ => panic!("expected a delete plan"),
    };
    assert_eq!(plan.bucket, "test-bucket");
    assert_eq!(plan.objects.len(), 1);
    assert_eq!(plan.objects[0].key(), "test object");
    assert_eq!(plan.total_bytes, 1234);
    let response = finish_invocation(&plan, true);
    assert_eq!(response, Ok(1234));
}

#[test]
fn empty_batch_is_benign_and_plans_no_delete() {
    let batch = NotificationBatch { records: vec![] };
    match plan_invocation(&batch) {
        Ok(InvocationPlan::EmptyBatch) => {}
        _ => panic!("an empty batch must complete without a delete plan"),
    }
}

#[test]
fn single_record_with_encoded_space() {
    let batch = NotificationBatch {
        records: vec![record(Some("test-bucket"), Some("test+object"), Some(1234))],
    };
    let plan = match plan_invocation(&batch) {
        Ok(InvocationPlan::Delete(plan)) => plan,
        _ => panic!("expected a delete plan"),
    };
    assert_eq!(plan.bucket, "test-bucket");
    assert_eq!(plan.objects.len(), 1);
    assert_eq!(plan.objects[0].key(), "test object");
    assert_eq!(plan.total_bytes, 1234);
    let reported_mb = plan.total_bytes as f64 / 1024.0 / 1024.0;
    assert!((reported_mb - 1234.0 / 1024.0 / 1024.0).abs() < 1e-12);
}

#[test]
fn total_is_exact_sum_and_order_is_kept() {
    let batch = NotificationBatch {
        records: vec![
            record(Some("b"), Some("first"), Some(100)),
            record(None, Some("second"), None),
            record(Some("other"), Some("first"), Some(23)),
            record(None, Some("third+part"), Some(7)),
        ],
    };
    let (total, objs) = process_records(&batch).unwrap();
    assert_eq!(total, 130);
    assert_eq!(objs.len(), 4);
    let keys: Vec<&str> = objs.iter().map(|o| o.key().as_str()).collect();
    assert_eq!(keys, vec!["first", "second", "first", "third part"]);
}

#[test]
fn missing_bucket_fails_before_any_plan() {
    let batch = NotificationBatch {
        records: vec![
            record(None, Some("some object"), Some(10)),
            record(Some("late-bucket"), Some("other"), Some(20)),
        ],
    };
    assert_eq!(plan_invocation(&batch).err(), Some(HandlerError::MissingBucket));
    assert_eq!(get_bucket_name(&batch), Err(HandlerError::MissingBucket));
}

#[test]
fn empty_batch_has_no_bucket() {
    let batch = NotificationBatch { records: vec![] };
    assert_eq!(get_bucket_name(&batch), Err(HandlerError::MissingBucket));
}

#[test]
fn bucket_comes_from_first_record() {
    let batch = NotificationBatch {
        records: vec![
            record(Some("first-bucket"), Some("a"), Some(1)),
            record(Some("second-bucket"), Some("b"), Some(2)),
        ],
    };
    assert_eq!(get_bucket_name(&batch), Ok("first-bucket".to_string()));
}

#[test]
fn decode_leaves_plus_free_keys_unchanged() {
    assert_eq!(decode_key("plain-key/with_chars.txt"), "plain-key/with_chars.txt");
    let once = decode_key("a+b+c");
    assert_eq!(once, "a b c");
    let twice = decode_key(&once);
    assert_eq!(twice, once);
}

#[test]
fn decode_replaces_every_plus() {
    assert_eq!(decode_key("test+object"), "test object");
    assert_eq!(decode_key("++"), "  ");
    assert_eq!(decode_key(""), "");
    assert_eq!(decode_key("a%2Bb+c"), "a%2Bb c");
}

#[test]
fn failed_delete_fails_the_invocation_without_a_report() {
    let batch = NotificationBatch {
        records: vec![record(Some("test-bucket"), Some("test object"), Some(1234))],
    };
    let plan = match plan_invocation(&batch) {
        Ok(InvocationPlan::Delete(plan)) => plan,
        _ => panic!("expected a delete plan"),
    };
    assert_eq!(finish_invocation(&plan, false), Err(HandlerError::DeleteRequest));
}

#[test]
fn empty_decoded_key_is_rejected() {
    let batch = NotificationBatch {
        records: vec![
            record(Some("b"), Some("ok-key"), Some(1)),
            record(None, None, Some(2)),
        ],
    };
    assert_eq!(build_delete_plan(&batch).err(), Some(HandlerError::IdentifierBuild));
    let batch2 = NotificationBatch {
        records: vec![record(Some("b"), Some(""), Some(1))],
    };
    assert_eq!(build_delete_plan(&batch2).err(), Some(HandlerError::IdentifierBuild));
}

#[test]
fn identifier_construction_rejects_only_empty_keys() {
    assert_eq!(
        ObjectIdentifier::new("".to_string()).err(),
        Some(HandlerError::IdentifierBuild)
    );
    let id = ObjectIdentifier::new("test object".to_string()).unwrap();
    assert_eq!(id.key(), "test object");
}

#[test]
fn error_messages_name_the_failure() {
    assert_eq!(
        HandlerError::MissingBucket.message(),
        "No bucket name found in S3 event"
    );
    assert_eq!(
        HandlerError::IdentifierBuild.message(),
        "Object key rejected while building an object identifier"
    );
    assert_eq!(HandlerError::DeleteRequest.message(), "Batched delete request failed");
}
