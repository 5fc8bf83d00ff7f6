use openlifter_server::consistency::check_consistency;
use openlifter_server::decimal::parse_u32;
use openlifter_server::errors::{ErrorKind, FieldId, Ladder, Lift, ValidationError};
use openlifter_server::gateway::{Gateway, Rejection};
use openlifter_server::json::JsonValue;
use openlifter_server::model::GlobalState;
use openlifter_server::parse::validate_document;
use openlifter_server::serialize::{round_trip, to_json};
use openlifter_server::weight::{parse_weight, weight_to_text, Weight};

fn num(s: &str) -> JsonValue {
    JsonValue::Num(s.chars().collect())
}

fn st(s: &str) -> JsonValue {
    JsonValue::Str(s.to_string())
}

fn key(k: &str, v: JsonValue) -> (String, JsonValue) {
    (k.to_string(), v)
}

fn entry_doc(id: u32, day: &str, platform: &str, flight: &str) -> JsonValue {
    JsonValue::Obj(vec![
        key("id", num(&id.to_string())),
        key("day", num(day)),
        key("platform", num(platform)),
        key("flight", st(flight)),
        key("name", st("Lifter")),
        key("sex", st("M")),
        key("birthDate", st("1990-01-01")),
        key("age", num("30")),
        key("country", st("USA")),
        key("state", st("CA")),
        key("intendedWeightClassKg", st("82.5")),
        key("equipment", st("Raw")),
        key("divisions", JsonValue::Arr(vec![st("Open")])),
        key("events", JsonValue::Arr(vec![st("SBD")])),
        key("lot", num("1")),
        key("memberId", st("m-1")),
        key("paid", JsonValue::Bool(true)),
        key("team", st("")),
        key("guest", JsonValue::Bool(false)),
        key("instagram", JsonValue::Null),
        key("notes", st("")),
        key("bodyweightKg", num("81.45")),
        key("squatRackInfo", st("12 out")),
        key("benchRackInfo", st("7")),
        key("squatKg", JsonValue::Arr(vec![num("100"), num("105"), num("110")])),
        key("benchKg", JsonValue::Arr(vec![num("60"), num("65"), num("70")])),
        key("deadliftKg", JsonValue::Arr(vec![num("120"), num("130"), num("140")])),
        key("squatStatus", JsonValue::Arr(vec![num("1"), num("1"), num("0")])),
        key("benchStatus", JsonValue::Arr(vec![num("1"), num("0"), num("0")])),
        key("deadliftStatus", JsonValue::Arr(vec![num("1"), num("1"), num("1")])),
    ])
}

fn meet_doc(men_ladder: Vec<JsonValue>) -> JsonValue {
    JsonValue::Obj(vec![
        key("name", st("Test Meet")),
        key("country", st("USA")),
        key("state", st("CA")),
        key("city", st("Fresno")),
        key("federation", st("Fed")),
        key("date", st("2026-02-01")),
        key("lengthDays", num("2")),
        key("platformsOnDays", JsonValue::Arr(vec![num("1"), num("1")])),
        key("ageCoefficients", st("none")),
        key("divisions", JsonValue::Arr(vec![st("Open")])),
        key("weightClassesKgMen", JsonValue::Arr(men_ladder)),
        key("weightClassesKgWomen", JsonValue::Arr(vec![num("47"), num("52"), num("57")])),
        key("weightClassesKgMx", JsonValue::Arr(vec![])),
        key("formula", st("Wilks")),
        key("combineSleevesAndWraps", JsonValue::Bool(false)),
        key("combineSingleAndMulti", JsonValue::Bool(false)),
        key("allow4thAttempts", JsonValue::Bool(false)),
        key("inKg", JsonValue::Bool(true)),
        key("squatBarAndCollarsWeightKg", num("25")),
        key("benchBarAndCollarsWeightKg", num("25")),
        key("deadliftBarAndCollarsWeightKg", num("25")),
        key(
            "plates",
            JsonValue::Arr(vec![JsonValue::Obj(vec![
                key("weightKg", num("25")),
                key("pairCount", num("8")),
                key("color", st("red")),
            ])]),
        ),
        key("showAlternateUnits", JsonValue::Bool(false)),
    ])
}

fn lifting_doc(flight: &str) -> JsonValue {
    JsonValue::Obj(vec![
        key("day", num("1")),
        key("platform", num("1")),
        key("flight", st(flight)),
        key("lift", st("S")),
        key("overrideAttempt", JsonValue::Null),
        key("overrideEntryId", JsonValue::Null),
        key("columnDivisionWidthPx", num("200")),
    ])
}

fn global_doc(language: &str, next_entry_id: &str, entries: Vec<JsonValue>) -> JsonValue {
    JsonValue::Obj(vec![
        key(
            "versions",
            JsonValue::Obj(vec![
                key("stateVersion", st("1")),
                key("releaseVersion", st("2026.1")),
            ]),
        ),
        key("language", st(language)),
        key("meet", meet_doc(vec![num("60"), num("75"), num("90")])),
        key(
            "registration",
            JsonValue::Obj(vec![
                key("nextEntryId", num(next_entry_id)),
                key("entries", JsonValue::Arr(entries)),
            ]),
        ),
        key("lifting", lifting_doc("A")),
    ])
}

fn two_lifter_doc() -> JsonValue {
    global_doc("en", "2", vec![entry_doc(0, "1", "1", "A"), entry_doc(1, "1", "1", "A")])
}

/// Replaces one field of a top-level object.
fn set_field(doc: JsonValue, section: &str, field: &str, value: JsonValue) -> JsonValue {
    match doc {
        JsonValue::Obj(fields) => JsonValue::Obj(
            fields
                .into_iter()
                .map(|(k, v)| {
                    if k == section {
                        match v {
                            JsonValue::Obj(inner) => (
                                k,
                                JsonValue::Obj(
                                    inner
                                        .into_iter()
                                        .map(|(ik, iv)| {
                                            if ik == field {
                                                (ik, clone_for_test(&value))
                                            } else {
                                                (ik, iv)
                                            }
                                        })
                                        .collect(),
                                ),
                            ),
                            other => (k, other),
                        }
                    } else {
                        (k, v)
                    }
                })
                .collect(),
        ),
        other => other,
    }
}

fn clone_for_test(v: &JsonValue) -> JsonValue {
    match v {
        JsonValue::Null => JsonValue::Null,
        JsonValue::Bool(b) => JsonValue::Bool(*b),
        JsonValue::Num(t) => JsonValue::Num(t.clone()),
        JsonValue::Str(s) => JsonValue::Str(s.clone()),
        JsonValue::Arr(items) => JsonValue::Arr(items.iter().map(clone_for_test).collect()),
        JsonValue::Obj(fields) => JsonValue::Obj(
            fields.iter().map(|(k, v)| (k.clone(), clone_for_test(v))).collect(),
        ),
    }
}

fn text(s: &str) -> Vec<char> {
    s.chars().collect()
}

#[test]
fn weight_parse_exact() {
    assert_eq!(parse_weight(&text("82.5")), Some(Weight { hundredths: 8250 }));
    assert_eq!(parse_weight(&text("60")), Some(Weight { hundredths: 6000 }));
    assert_eq!(parse_weight(&text("-12.25")), Some(Weight { hundredths: -1225 }));
    assert_eq!(parse_weight(&text("0.05")), Some(Weight { hundredths: 5 }));
    assert_eq!(parse_weight(&text("007")), Some(Weight { hundredths: 700 }));
    assert_eq!(parse_weight(&text("")), None);
    assert_eq!(parse_weight(&text("-")), None);
    assert_eq!(parse_weight(&text("1e5")), None);
    assert_eq!(parse_weight(&text("1.234")), None);
    assert_eq!(parse_weight(&text("1.")), None);
    assert_eq!(parse_weight(&text(".5")), None);
    assert_eq!(parse_weight(&text("1..5")), None);
}

#[test]
fn weight_format_canonical() {
    assert_eq!(weight_to_text(Weight { hundredths: 8250 }), text("82.5"));
    assert_eq!(weight_to_text(Weight { hundredths: 6000 }), text("60"));
    assert_eq!(weight_to_text(Weight { hundredths: -1225 }), text("-12.25"));
    assert_eq!(weight_to_text(Weight { hundredths: 8145 }), text("81.45"));
    assert_eq!(weight_to_text(Weight { hundredths: 0 }), text("0"));
    assert_eq!(weight_to_text(Weight { hundredths: 50 }), text("0.5"));
    assert_eq!(weight_to_text(Weight { hundredths: 5 }), text("0.05"));
}

#[test]
fn u32_parse_exact() {
    assert_eq!(parse_u32(&text("4294967295")), Some(u32::MAX));
    assert_eq!(parse_u32(&text("4294967296")), None);
    assert_eq!(parse_u32(&text("10")), Some(10));
    assert_eq!(parse_u32(&text("")), None);
    assert_eq!(parse_u32(&text("-1")), None);
}

#[test]
fn validation_sanity() {
    let g: GlobalState = validate_document(&two_lifter_doc()).expect("well-formed document");
    assert_eq!(g.registration.entries.len(), 2);
    assert_eq!(g.registration.next_entry_id, 2);
    assert_eq!(g.registration.entries[0].bodyweight_kg.hundredths, 8145);
    assert_eq!(g.registration.entries[1].id, 1);
    assert_eq!(g.meet.length_days, 2);
    assert_eq!(g.meet.weight_classes_kg_men[0].hundredths, 6000);
    assert_eq!(g.lifting.lift, "S");
    assert_eq!(g.lifting.column_division_width_px.hundredths, 20000);
    assert_eq!(g.lifting.override_attempt, None);
}

#[test]
fn round_trip_equal_document() {
    let g = validate_document(&two_lifter_doc()).expect("well-formed document");
    let doc2 = to_json(&g);
    let g2 = validate_document(&doc2).expect("serialized form validates");
    assert_eq!(g2.registration.entries.len(), g.registration.entries.len());
    assert_eq!(g2.registration.next_entry_id, g.registration.next_entry_id);
    assert_eq!(g2.registration.entries[0].name, g.registration.entries[0].name);
    assert_eq!(
        g2.registration.entries[0].bodyweight_kg,
        g.registration.entries[0].bodyweight_kg
    );
    assert_eq!(g2.registration.entries[1].squat_kg, g.registration.entries[1].squat_kg);
    assert_eq!(g2.meet.name, g.meet.name);
    assert_eq!(g2.meet.plates[0].pair_count, g.meet.plates[0].pair_count);
    assert_eq!(g2.lifting.flight, g.lifting.flight);
    assert_eq!(g2.language, g.language);
    let g3 = round_trip(&g).expect("round trip succeeds");
    assert_eq!(g3.registration.entries[0].member_id, g.registration.entries[0].member_id);
}

#[test]
fn duplicate_entry_id_rejected() {
    let doc = global_doc("en", "5", vec![entry_doc(3, "1", "1", "A"), entry_doc(3, "1", "1", "A")]);
    let errs = validate_document(&doc).expect_err("duplicate ids must be rejected");
    let found = errs.iter().any(|e| {
        matches!(
            e,
            ValidationError::DuplicateEntryId { first: 0, second: 1, id: 3 }
        ) && matches!(e.kind(), ErrorKind::Consistency)
    });
    assert!(found, "expected a consistency error naming both occurrences: {:?}", errs);
    // and the canonical state is unchanged
    let mut gw = Gateway::new(vec!["1".to_string()]);
    let r = gw.submit(&doc);
    assert!(matches!(r, Err(Rejection::Invalid(_))));
    assert!(gw.current().is_none());
}

#[test]
fn attempt_length_mismatch_rejected() {
    let entry = match entry_doc(0, "1", "1", "A") {
        JsonValue::Obj(fields) => JsonValue::Obj(
            fields
                .into_iter()
                .map(|(k, v)| {
                    if k == "squatStatus" {
                        (k, JsonValue::Arr(vec![num("1"), num("1")]))
                    } else {
                        (k, v)
                    }
                })
                .collect(),
        ),
        other => other,
    };
    let doc = global_doc("en", "1", vec![entry]);
    let errs = validate_document(&doc).expect_err("mismatched attempt arrays must be rejected");
    let found = errs.iter().any(|e| {
        matches!(
            e,
            ValidationError::AttemptLengthMismatch {
                index: 0,
                lift: Lift::Squat,
                kg_len: 3,
                status_len: 2,
            }
        ) && matches!(e.kind(), ErrorKind::Consistency)
    });
    assert!(found, "expected an attempt-length consistency error: {:?}", errs);
    let mut gw = Gateway::new(vec!["1".to_string()]);
    assert!(matches!(gw.submit(&doc), Err(Rejection::Invalid(_))));
    assert!(gw.current().is_none());
}

#[test]
fn idempotent_resubmission_accepted() {
    let doc = two_lifter_doc();
    let mut gw = Gateway::new(vec!["1".to_string()]);
    assert!(gw.submit(&doc).is_ok());
    assert!(gw.submit(&doc).is_ok(), "same document twice must be accepted both times");
    let current = gw.current().as_ref().expect("canonical state set");
    assert_eq!(current.registration.next_entry_id, 2);
    assert_eq!(current.registration.entries.len(), 2);
    assert_eq!(current.language, "en");
}

#[test]
fn stale_submission_rejected() {
    let mut gw = Gateway::new(vec!["1".to_string()]);
    let fresh = global_doc("en", "10", vec![entry_doc(0, "1", "1", "A")]);
    assert!(gw.submit(&fresh).is_ok());
    let stale = global_doc("en", "9", vec![entry_doc(0, "1", "1", "A")]);
    let r = gw.submit(&stale);
    assert!(matches!(r, Err(Rejection::StaleUpdate)));
    let current = gw.current().as_ref().expect("canonical state kept");
    assert_eq!(current.registration.next_entry_id, 10);
}

#[test]
fn ladder_not_increasing_rejected() {
    let doc = match two_lifter_doc() {
        JsonValue::Obj(fields) => JsonValue::Obj(
            fields
                .into_iter()
                .map(|(k, v)| {
                    if k == "meet" {
                        (k, meet_doc(vec![num("60"), num("60"), num("75")]))
                    } else {
                        (k, v)
                    }
                })
                .collect(),
        ),
        other => other,
    };
    let errs = validate_document(&doc).expect_err("non-increasing ladder must be rejected");
    let found = errs.iter().any(|e| {
        matches!(e, ValidationError::LadderNotIncreasing { ladder: Ladder::Men, index: 0 })
            && matches!(e.kind(), ErrorKind::Consistency)
    });
    assert!(found, "expected a ladder consistency error: {:?}", errs);
}

#[test]
fn unsupported_version_rejected() {
    let mut gw = Gateway::new(vec!["1".to_string()]);
    let doc = set_field(two_lifter_doc(), "versions", "stateVersion", st("999"));
    let r = gw.submit(&doc);
    assert!(matches!(r, Err(Rejection::UnsupportedVersion)));
    assert!(gw.current().is_none());
}

#[test]
fn highest_lineage_wins() {
    let mut gw = Gateway::new(vec!["1".to_string()]);
    let a = global_doc("en-a", "3", vec![entry_doc(0, "1", "1", "A")]);
    let b = global_doc("en-b", "7", vec![entry_doc(0, "1", "1", "A")]);
    let c = global_doc("en-c", "5", vec![entry_doc(0, "1", "1", "A")]);
    assert!(gw.submit(&a).is_ok());
    assert!(gw.submit(&b).is_ok());
    assert!(matches!(gw.submit(&c), Err(Rejection::StaleUpdate)));
    assert!(gw.submit(&b).is_ok());
    let current = gw.current().as_ref().expect("canonical state set");
    // the canonical state is exactly the submission with the highest
    // accepted lineage counter, never a mixture of two submissions
    assert_eq!(current.registration.next_entry_id, 7);
    assert_eq!(current.language, "en-b");
}

#[test]
fn missing_field_reported() {
    let entry = match entry_doc(0, "1", "1", "A") {
        JsonValue::Obj(fields) => JsonValue::Obj(
            fields.into_iter().filter(|(k, _)| k != "bodyweightKg").collect(),
        ),
        other => other,
    };
    let doc = global_doc("en", "1", vec![entry]);
    let errs = validate_document(&doc).expect_err("missing field must be rejected");
    let found = errs.iter().any(|e| match e {
        ValidationError::MissingField { path } => {
            path.field == Some(FieldId::BodyweightKg) && path.index == Some(0)
                && matches!(e.kind(), ErrorKind::Schema)
        },
        _ => false,
    });
    assert!(found, "expected a schema error naming the field: {:?}", errs);
}

#[test]
fn bad_weight_text_reported() {
    let entry = match entry_doc(0, "1", "1", "A") {
        JsonValue::Obj(fields) => JsonValue::Obj(
            fields
                .into_iter()
                .map(|(k, v)| {
                    if k == "bodyweightKg" {
                        (k, num("abc"))
                    } else {
                        (k, v)
                    }
                })
                .collect(),
        ),
        other => other,
    };
    let doc = global_doc("en", "1", vec![entry]);
    let errs = validate_document(&doc).expect_err("unparseable weight must be rejected");
    let found = errs.iter().any(|e| match e {
        ValidationError::BadWeight { path, raw } => {
            path.field == Some(FieldId::BodyweightKg) && raw == &text("abc")
                && matches!(e.kind(), ErrorKind::WeightParse)
        },
        _ => false,
    });
    assert!(found, "expected a weight-parse error with the raw text: {:?}", errs);
}

#[test]
fn empty_version_reported() {
    let doc = set_field(two_lifter_doc(), "versions", "stateVersion", st(""));
    let errs = validate_document(&doc).expect_err("empty version must be rejected");
    assert!(errs.iter().any(|e| matches!(
        e,
        ValidationError::EmptyVersion { field: FieldId::StateVersion }
    )));
}

#[test]
fn lifting_flight_must_exist() {
    let doc = set_field(two_lifter_doc(), "lifting", "flight", st("B"));
    let errs = validate_document(&doc).expect_err("unknown flight must be rejected");
    assert!(errs.iter().any(|e| matches!(e, ValidationError::LiftingFlightMissing)));
}

#[test]
fn override_checks() {
    let doc = set_field(two_lifter_doc(), "lifting", "overrideEntryId", num("99"));
    let errs = validate_document(&doc).expect_err("unknown override entry must be rejected");
    assert!(errs.iter().any(|e| matches!(e, ValidationError::OverrideEntryMissing { id: 99 })));

    let doc = set_field(
        set_field(two_lifter_doc(), "lifting", "overrideEntryId", num("0")),
        "lifting",
        "overrideAttempt",
        num("5"),
    );
    let errs = validate_document(&doc).expect_err("attempt outside range must be rejected");
    assert!(errs.iter().any(|e| matches!(
        e,
        ValidationError::OverrideAttemptOutOfRange { attempt: 5, attempts: 3 }
    )));

    let doc = set_field(
        set_field(two_lifter_doc(), "lifting", "overrideEntryId", num("0")),
        "lifting",
        "overrideAttempt",
        num("2"),
    );
    assert!(validate_document(&doc).is_ok(), "a valid override is accepted");
}

#[test]
fn entry_out_of_schedule_rejected() {
    let doc = global_doc("en", "1", vec![entry_doc(0, "3", "1", "A")]);
    let errs = validate_document(&doc).expect_err("day outside the meet must be rejected");
    assert!(errs.iter().any(|e| matches!(
        e,
        ValidationError::EntryDayOutOfRange { index: 0, day: 3, length_days: 2 }
    )));

    let doc = global_doc("en", "1", vec![entry_doc(0, "1", "2", "A")]);
    let errs = validate_document(&doc).expect_err("platform outside the day must be rejected");
    assert!(errs.iter().any(|e| matches!(
        e,
        ValidationError::EntryPlatformOutOfRange { index: 0, platform: 2, platforms: 1 }
    )));
}

#[test]
fn id_not_below_next_rejected() {
    let doc = global_doc("en", "1", vec![entry_doc(1, "1", "1", "A")]);
    let errs = validate_document(&doc).expect_err("id at nextEntryId must be rejected");
    assert!(errs.iter().any(|e| matches!(
        e,
        ValidationError::EntryIdTooLarge { index: 0, id: 1, next_entry_id: 1 }
    )));
}

#[test]
fn wrong_type_reported() {
    let doc = match two_lifter_doc() {
        JsonValue::Obj(fields) => JsonValue::Obj(
            fields
                .into_iter()
                .map(|(k, v)| if k == "language" { (k, num("3")) } else { (k, v) })
                .collect(),
        ),
        other => other,
    };
    let errs = validate_document(&doc).expect_err("mistyped field must be rejected");
    let found = errs.iter().any(|e| match e {
        ValidationError::WrongType { path } => {
            matches!(path.section, openlifter_server::errors::Section::Language)
                && matches!(e.kind(), ErrorKind::Schema)
        },
        _ => false,
    });
    assert!(found, "expected a schema error for the mistyped field: {:?}", errs);
}

#[test]
fn bad_number_reported() {
    let entry = match entry_doc(0, "1", "1", "A") {
        JsonValue::Obj(fields) => JsonValue::Obj(
            fields
                .into_iter()
                .map(|(k, v)| if k == "age" { (k, num("3.5")) } else { (k, v) })
                .collect(),
        ),
        other => other,
    };
    let doc = global_doc("en", "1", vec![entry]);
    let errs = validate_document(&doc).expect_err("fractional count must be rejected");
    assert!(errs.iter().any(|e| matches!(
        e,
        ValidationError::BadNumber { path, .. } if path.field == Some(FieldId::Age)
    )));
}

#[test]
fn platforms_on_days_shape_checked() {
    let doc = set_field(
        two_lifter_doc(),
        "meet",
        "platformsOnDays",
        JsonValue::Arr(vec![num("1")]),
    );
    let errs = validate_document(&doc).expect_err("one count per day is required");
    assert!(errs.iter().any(|e| matches!(
        e,
        ValidationError::PlatformsOnDaysWrongLength { length_days: 2, actual: 1 }
    )));

    let doc = set_field(
        two_lifter_doc(),
        "meet",
        "platformsOnDays",
        JsonValue::Arr(vec![num("1"), num("0")]),
    );
    let errs = validate_document(&doc).expect_err("a day with no platform must be rejected");
    assert!(errs.iter().any(|e| matches!(
        e,
        ValidationError::PlatformCountZero { day_index: 1 }
    )));
}

#[test]
fn too_many_attempts_rejected() {
    let entry = match entry_doc(0, "1", "1", "A") {
        JsonValue::Obj(fields) => JsonValue::Obj(
            fields
                .into_iter()
                .map(|(k, v)| {
                    if k == "squatKg" {
                        (k, JsonValue::Arr(vec![num("100"), num("105"), num("110"), num("115")]))
                    } else if k == "squatStatus" {
                        (k, JsonValue::Arr(vec![num("1"), num("1"), num("0"), num("0")]))
                    } else {
                        (k, v)
                    }
                })
                .collect(),
        ),
        other => other,
    };
    let doc = global_doc("en", "1", vec![entry]);
    let errs = validate_document(&doc).expect_err("a fourth attempt must be rejected here");
    assert!(errs.iter().any(|e| matches!(
        e,
        ValidationError::TooManyAttempts { index: 0, lift: Lift::Squat, len: 4, max: 3 }
    )));
}

#[test]
fn weight_out_of_range_reported() {
    let mut g = validate_document(&two_lifter_doc()).expect("well-formed document");
    g.meet.squat_bar_and_collars_weight_kg = Weight { hundredths: i64::MAX };
    let errs = check_consistency(&g);
    assert!(errs.iter().any(|e| matches!(e, ValidationError::WeightOutOfRange { .. })));
}

#[test]
fn lifting_cursor_range_checked() {
    let doc = set_field(two_lifter_doc(), "lifting", "day", num("5"));
    let errs = validate_document(&doc).expect_err("cursor outside the meet must be rejected");
    assert!(errs.iter().any(|e| matches!(
        e,
        ValidationError::LiftingDayOutOfRange { day: 5, length_days: 2 }
    )));

    let doc = set_field(two_lifter_doc(), "lifting", "platform", num("2"));
    let errs = validate_document(&doc).expect_err("cursor platform must be declared");
    assert!(errs.iter().any(|e| matches!(
        e,
        ValidationError::LiftingPlatformOutOfRange { platform: 2, platforms: 1 }
    )));
}

#[test]
fn unknown_lift_with_override_rejected() {
    let doc = set_field(
        set_field(
            set_field(two_lifter_doc(), "lifting", "overrideEntryId", num("0")),
            "lifting",
            "overrideAttempt",
            num("2"),
        ),
        "lifting",
        "lift",
        st("X"),
    );
    let errs = validate_document(&doc).expect_err("an override needs a known lift code");
    assert!(errs.iter().any(|e| matches!(e, ValidationError::UnknownLift)));
}

#[test]
fn override_attempt_without_entry_rejected() {
    let doc = set_field(two_lifter_doc(), "lifting", "overrideAttempt", num("2"));
    let errs = validate_document(&doc).expect_err("an attempt override needs an entry");
    assert!(errs.iter().any(|e| matches!(
        e,
        ValidationError::OverrideAttemptWithoutEntry { attempt: 2 }
    )));
}

#[test]
fn all_violations_reported_together() {
    // two independent violations in one submission: both come back at once
    let doc = set_field(
        global_doc("en", "1", vec![entry_doc(1, "1", "1", "A")]),
        "versions",
        "stateVersion",
        st(""),
    );
    let errs = validate_document(&doc).expect_err("must be rejected");
    assert!(errs.iter().any(|e| matches!(e, ValidationError::EmptyVersion { .. })));
    assert!(errs.iter().any(|e| matches!(e, ValidationError::EntryIdTooLarge { .. })));
}
