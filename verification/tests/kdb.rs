use elektra::{
    classify_ensure_code, classify_sync_code, EnsureOutcome, KDBError, StringKey, SyncOutcome,
};

fn classifier_with_number(number: &str) -> KDBError {
    let mut key = StringKey::new("user/tests/rust/classifier");
    key.set_meta("error/number", number);
    KDBError::new(key.duplicate())
}

fn predicate_values(e: &KDBError) -> [bool; 12] {
    [
        e.is_permanent(),
        e.is_resource(),
        e.is_out_of_memory(),
        e.is_installation(),
        e.is_logical(),
        e.is_internal(),
        e.is_interface(),
        e.is_plugin_misbehavior(),
        e.is_conflicting_state(),
        e.is_validation(),
        e.is_syntactic(),
        e.is_semantic(),
    ]
}

const PREFIXES: [&str; 12] = [
    "C01", "C011", "C01110", "C012", "C013", "C01310", "C01320", "C01330", "C02", "C03", "C03100",
    "C03200",
];

#[test]
fn each_predicate_is_exactly_a_prefix_test() {
    for code in [
        "C01110", "C01310", "C01320", "C01330", "C012", "C02", "C03100", "C03200", "C01", "C011",
        "C013", "C03", "", "D01", "C0", "C019999",
    ] {
        let e = classifier_with_number(code);
        let got = predicate_values(&e);
        for (i, prefix) in PREFIXES.iter().enumerate() {
            assert_eq!(
                got[i],
                code.starts_with(prefix),
                "code {:?} against prefix {:?}",
                code,
                prefix
            );
        }
    }
}

#[test]
fn nested_prefixes_report_together() {
    let e = classifier_with_number("C01110");
    assert!(e.is_permanent());
    assert!(e.is_resource());
    assert!(e.is_out_of_memory());
    assert!(!e.is_logical());
}

#[test]
fn missing_metadata_reads_empty_and_classifies_as_nothing() {
    let e = KDBError::new(StringKey::new_empty());
    assert_eq!(e.number(), "");
    assert_eq!(e.reason(), "");
    assert_eq!(e.module(), "");
    assert_eq!(e.description(), "");
    assert_eq!(e.file(), "");
    assert_eq!(e.line(), "");
    for value in predicate_values(&e) {
        assert!(!value);
    }
}

#[test]
fn field_accessors_read_their_entries() {
    let mut key = StringKey::new("user/tests/rust/fields");
    key.set_meta("error/number", "C03200");
    key.set_meta("error/reason", "value out of range");
    key.set_meta("error/module", "type");
    key.set_meta("error/description", "validation failed");
    key.set_meta("error/file", "types.c");
    key.set_meta("error/line", "271");
    let e = KDBError::new(key.duplicate());
    assert_eq!(e.number(), "C03200");
    assert_eq!(e.reason(), "value out of range");
    assert_eq!(e.module(), "type");
    assert_eq!(e.description(), "validation failed");
    assert_eq!(e.file(), "types.c");
    assert_eq!(e.line(), "271");
}

#[test]
fn message_renders_all_fields_in_order() {
    let mut key = StringKey::new("user/tests/rust/message");
    key.set_meta("error/number", "C03200");
    key.set_meta("error/reason", "value out of range");
    key.set_meta("error/module", "type");
    key.set_meta("error/description", "validation failed");
    let e = KDBError::new(key.duplicate());
    assert_eq!(
        e.to_error_message(),
        "Sorry, module type issued error C03200:\nvalidation failed: value out of range"
    );
}

#[test]
fn message_renders_whole_with_all_fields_empty() {
    let e = KDBError::new(StringKey::new_empty());
    assert_eq!(e.to_error_message(), "Sorry, module  issued error :\n: ");
}

#[test]
fn sync_codes_are_tri_state() {
    assert_eq!(classify_sync_code(1), SyncOutcome::Changed);
    assert_eq!(classify_sync_code(0), SyncOutcome::Unchanged);
    assert_eq!(classify_sync_code(-1), SyncOutcome::Failed);
    assert_eq!(classify_sync_code(2), SyncOutcome::Failed);
    assert_eq!(classify_sync_code(i32::MIN), SyncOutcome::Failed);
    assert_eq!(classify_sync_code(i32::MAX), SyncOutcome::Failed);
}

#[test]
fn store_with_nothing_pending_is_no_change_not_error() {
    assert_eq!(classify_sync_code(0), SyncOutcome::Unchanged);
    assert_ne!(classify_sync_code(0), SyncOutcome::Failed);
}

#[test]
fn ensure_codes_invert_polarity() {
    assert_eq!(classify_ensure_code(0), EnsureOutcome::Satisfied);
    assert_eq!(classify_ensure_code(1), EnsureOutcome::Unmet);
    assert_eq!(classify_ensure_code(-1), EnsureOutcome::Failed);
    assert_eq!(classify_ensure_code(2), EnsureOutcome::Failed);
    assert_eq!(classify_ensure_code(i32::MIN), EnsureOutcome::Failed);
}

#[test]
fn meta_returns_first_match_or_none() {
    let mut key = StringKey::new("user/tests/rust/meta");
    key.set_meta("error/number", "C01");
    key.set_meta("error/number", "C02");
    assert_eq!(key.meta("error/number"), Some(String::from("C01")));
    assert_eq!(key.meta("error/reason"), None);
    assert_eq!(key.name(), "user/tests/rust/meta");
}

#[test]
fn duplicate_is_decoupled_from_later_changes() {
    let mut hint = StringKey::new("user/tests/rust/hint");
    let snapshot = hint.duplicate();
    hint.set_meta("error/number", "C02");
    let from_snapshot = KDBError::new(snapshot);
    assert_eq!(from_snapshot.number(), "");
    assert!(!from_snapshot.is_conflicting_state());
    let from_hint = KDBError::new(hint.duplicate());
    assert_eq!(from_hint.number(), "C02");
    assert!(from_hint.is_conflicting_state());
}
