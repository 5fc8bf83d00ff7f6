//! The structural phase of validation: reading a `GlobalState` out of a
//! JSON-like tree. Shape is strict (required fields, basic shapes, numeric
//! and weight parseability); vocabulary is free. Every structural failure
//! found is reported, and parsing succeeds exactly when the mathematical
//! reading of the tree succeeds.

use vstd::prelude::*;

use crate::consistency::{extends, push_err};
use crate::decimal::parse_u32_text;
use crate::errors::{entry_field_path, plate_field_path, section_field_path, FieldId, FieldPath, Section, ValidationError};
use crate::json::{lookup, get_field, JsonValue};
use crate::model::{
    Entry, EntryV, GlobalState, GlobalV, LiftingState, LiftingV, MeetState, MeetV, Plate, PlateV,
    RegistrationState, RegistrationV, VersionsState, VersionsV,
};
use crate::weight::{parse_weight, parse_weight_text, Weight};

verus! {

// The mathematical reading of single fields.

pub open spec fn as_str_v(j: JsonValue) -> Option<Seq<char>> {
    match j {
        JsonValue::Str(s) => Some(s@),
        _ => None,
    }
}

pub open spec fn as_bool_v(j: JsonValue) -> Option<bool> {
    match j {
        JsonValue::Bool(b) => Some(b),
        _ => None,
    }
}

pub open spec fn as_u32_v(j: JsonValue) -> Option<u32> {
    match j {
        JsonValue::Num(t) => parse_u32_text(t@),
        _ => None,
    }
}

pub open spec fn as_weight_v(j: JsonValue) -> Option<int> {
    match j {
        JsonValue::Num(t) => parse_weight_text(t@),
        _ => None,
    }
}

pub open spec fn f_str(fs: Seq<(String, JsonValue)>, key: Seq<char>) -> Option<Seq<char>> {
    match lookup(fs, key) {
        Some(v) => as_str_v(v),
        None => None,
    }
}

pub open spec fn f_bool(fs: Seq<(String, JsonValue)>, key: Seq<char>) -> Option<bool> {
    match lookup(fs, key) {
        Some(v) => as_bool_v(v),
        None => None,
    }
}

pub open spec fn f_u32(fs: Seq<(String, JsonValue)>, key: Seq<char>) -> Option<u32> {
    match lookup(fs, key) {
        Some(v) => as_u32_v(v),
        None => None,
    }
}

pub open spec fn f_weight(fs: Seq<(String, JsonValue)>, key: Seq<char>) -> Option<int> {
    match lookup(fs, key) {
        Some(v) => as_weight_v(v),
        None => None,
    }
}

/// An optional string field: absent or null reads as `None`.
pub open spec fn f_opt_str(fs: Seq<(String, JsonValue)>, key: Seq<char>) -> Option<
    Option<Seq<char>>,
> {
    match lookup(fs, key) {
        None => Some(None),
        Some(JsonValue::Null) => Some(None),
        Some(JsonValue::Str(s)) => Some(Some(s@)),
        Some(_) => None,
    }
}

/// An optional unsigned field: absent or null reads as `None`.
pub open spec fn f_opt_u32(fs: Seq<(String, JsonValue)>, key: Seq<char>) -> Option<Option<u32>> {
    match lookup(fs, key) {
        None => Some(None),
        Some(JsonValue::Null) => Some(None),
        Some(JsonValue::Num(t)) => match parse_u32_text(t@) {
            Some(v) => Some(Some(v)),
            None => None,
        },
        Some(_) => None,
    }
}

pub open spec fn strs_of(items: Seq<JsonValue>) -> Option<Seq<Seq<char>>>
    decreases items.len(),
{
    if items.len() == 0 {
        Some(Seq::empty())
    } else {
        match (strs_of(items.drop_last()), as_str_v(items.last())) {
            (Some(pre), Some(s)) => Some(pre.push(s)),
            _ => None,
        }
    }
}

pub open spec fn u32s_of(items: Seq<JsonValue>) -> Option<Seq<u32>>
    decreases items.len(),
{
    if items.len() == 0 {
        Some(Seq::empty())
    } else {
        match (u32s_of(items.drop_last()), as_u32_v(items.last())) {
            (Some(pre), Some(v)) => Some(pre.push(v)),
            _ => None,
        }
    }
}

pub open spec fn weights_of(items: Seq<JsonValue>) -> Option<Seq<int>>
    decreases items.len(),
{
    if items.len() == 0 {
        Some(Seq::empty())
    } else {
        match (weights_of(items.drop_last()), as_weight_v(items.last())) {
            (Some(pre), Some(v)) => Some(pre.push(v)),
            _ => None,
        }
    }
}

pub open spec fn f_strs(fs: Seq<(String, JsonValue)>, key: Seq<char>) -> Option<Seq<Seq<char>>> {
    match lookup(fs, key) {
        Some(JsonValue::Arr(v)) => strs_of(v@),
        _ => None,
    }
}

pub open spec fn f_u32s(fs: Seq<(String, JsonValue)>, key: Seq<char>) -> Option<Seq<u32>> {
    match lookup(fs, key) {
        Some(JsonValue::Arr(v)) => u32s_of(v@),
        _ => None,
    }
}

pub open spec fn f_weights(fs: Seq<(String, JsonValue)>, key: Seq<char>) -> Option<Seq<int>> {
    match lookup(fs, key) {
        Some(JsonValue::Arr(v)) => weights_of(v@),
        _ => None,
    }
}

pub open spec fn f_obj(fs: Seq<(String, JsonValue)>, key: Seq<char>) -> Option<
    Seq<(String, JsonValue)>,
> {
    match lookup(fs, key) {
        Some(JsonValue::Obj(o)) => Some(o@),
        _ => None,
    }
}

proof fn lemma_strs_of_bad(items: Seq<JsonValue>, k: int)
    requires
        0 <= k < items.len(),
        as_str_v(items[k]) is None,
    ensures
        strs_of(items) is None,
    decreases items.len(),
{
    if k < items.len() - 1 {
        assert(items.drop_last()[k] == items[k]);
        lemma_strs_of_bad(items.drop_last(), k);
    }
}

proof fn lemma_u32s_of_bad(items: Seq<JsonValue>, k: int)
    requires
        0 <= k < items.len(),
        as_u32_v(items[k]) is None,
    ensures
        u32s_of(items) is None,
    decreases items.len(),
{
    if k < items.len() - 1 {
        assert(items.drop_last()[k] == items[k]);
        lemma_u32s_of_bad(items.drop_last(), k);
    }
}

proof fn lemma_weights_of_bad(items: Seq<JsonValue>, k: int)
    requires
        0 <= k < items.len(),
        as_weight_v(items[k]) is None,
    ensures
        weights_of(items) is None,
    decreases items.len(),
{
    if k < items.len() - 1 {
        assert(items.drop_last()[k] == items[k]);
        lemma_weights_of_bad(items.drop_last(), k);
    }
}

// Field readers. Each reads one field, pushes exactly the errors it finds,
// and succeeds exactly when the mathematical reading does.

fn get_string(
    fs: &Vec<(String, JsonValue)>,
    key: &str,
    path: FieldPath,
    errs: &mut Vec<ValidationError>,
) -> (r: Option<String>)
    ensures
        extends(old(errs)@, final(errs)@),
        r matches Some(s) ==> f_str(fs@, key@) == Some(s@) && final(errs)@ == old(errs)@,
        r is None ==> f_str(fs@, key@) is None && final(errs)@.len() > old(errs)@.len(),
{
    match get_field(fs, key) {
        None => {
            push_err(errs, ValidationError::MissingField { path });
            None
        },
        Some(JsonValue::Str(s)) => Some(s.clone()),
        Some(_) => {
            push_err(errs, ValidationError::WrongType { path });
            None
        },
    }
}

fn get_bool(
    fs: &Vec<(String, JsonValue)>,
    key: &str,
    path: FieldPath,
    errs: &mut Vec<ValidationError>,
) -> (r: Option<bool>)
    ensures
        extends(old(errs)@, final(errs)@),
        r matches Some(b) ==> f_bool(fs@, key@) == Some(b) && final(errs)@ == old(errs)@,
        r is None ==> f_bool(fs@, key@) is None && final(errs)@.len() > old(errs)@.len(),
{
    match get_field(fs, key) {
        None => {
            push_err(errs, ValidationError::MissingField { path });
            None
        },
        Some(JsonValue::Bool(b)) => Some(*b),
        Some(_) => {
            push_err(errs, ValidationError::WrongType { path });
            None
        },
    }
}

fn get_u32(
    fs: &Vec<(String, JsonValue)>,
    key: &str,
    path: FieldPath,
    errs: &mut Vec<ValidationError>,
) -> (r: Option<u32>)
    ensures
        extends(old(errs)@, final(errs)@),
        r matches Some(v) ==> f_u32(fs@, key@) == Some(v) && final(errs)@ == old(errs)@,
        r is None ==> f_u32(fs@, key@) is None && final(errs)@.len() > old(errs)@.len(),
{
    match get_field(fs, key) {
        None => {
            push_err(errs, ValidationError::MissingField { path });
            None
        },
        Some(JsonValue::Num(t)) => {
            match crate::decimal::parse_u32(t) {
                Some(v) => Some(v),
                None => {
                    push_err(errs, ValidationError::BadNumber { path, raw: t.clone() });
                    None
                },
            }
        },
        Some(_) => {
            push_err(errs, ValidationError::WrongType { path });
            None
        },
    }
}

fn get_weight(
    fs: &Vec<(String, JsonValue)>,
    key: &str,
    path: FieldPath,
    errs: &mut Vec<ValidationError>,
) -> (r: Option<Weight>)
    ensures
        extends(old(errs)@, final(errs)@),
        r matches Some(w) ==> f_weight(fs@, key@) == Some(w@) && final(errs)@ == old(errs)@,
        r is None ==> f_weight(fs@, key@) is None && final(errs)@.len() > old(errs)@.len(),
{
    match get_field(fs, key) {
        None => {
            push_err(errs, ValidationError::MissingField { path });
            None
        },
        Some(JsonValue::Num(t)) => {
            match parse_weight(t) {
                Some(w) => Some(w),
                None => {
                    push_err(errs, ValidationError::BadWeight { path, raw: t.clone() });
                    None
                },
            }
        },
        Some(_) => {
            push_err(errs, ValidationError::WrongType { path });
            None
        },
    }
}

fn get_opt_string(
    fs: &Vec<(String, JsonValue)>,
    key: &str,
    path: FieldPath,
    errs: &mut Vec<ValidationError>,
) -> (r: Option<Option<String>>)
    ensures
        extends(old(errs)@, final(errs)@),
        r matches Some(o) ==> f_opt_str(fs@, key@) == Some(o.deep_view()) && final(errs)@ == old(
            errs,
        )@,
        r is None ==> f_opt_str(fs@, key@) is None && final(errs)@.len() > old(errs)@.len(),
{
    match get_field(fs, key) {
        None => Some(None),
        Some(JsonValue::Null) => Some(None),
        Some(JsonValue::Str(s)) => Some(Some(s.clone())),
        Some(_) => {
            push_err(errs, ValidationError::WrongType { path });
            None
        },
    }
}

fn get_opt_u32(
    fs: &Vec<(String, JsonValue)>,
    key: &str,
    path: FieldPath,
    errs: &mut Vec<ValidationError>,
) -> (r: Option<Option<u32>>)
    ensures
        extends(old(errs)@, final(errs)@),
        r matches Some(o) ==> f_opt_u32(fs@, key@) == Some(o) && final(errs)@ == old(errs)@,
        r is None ==> f_opt_u32(fs@, key@) is None && final(errs)@.len() > old(errs)@.len(),
{
    match get_field(fs, key) {
        None => Some(None),
        Some(JsonValue::Null) => Some(None),
        Some(JsonValue::Num(t)) => {
            match crate::decimal::parse_u32(t) {
                Some(v) => Some(Some(v)),
                None => {
                    push_err(errs, ValidationError::BadNumber { path, raw: t.clone() });
                    None
                },
            }
        },
        Some(_) => {
            push_err(errs, ValidationError::WrongType { path });
            None
        },
    }
}

fn get_strings(
    fs: &Vec<(String, JsonValue)>,
    key: &str,
    path: FieldPath,
    errs: &mut Vec<ValidationError>,
) -> (r: Option<Vec<String>>)
    ensures
        extends(old(errs)@, final(errs)@),
        r matches Some(v) ==> f_strs(fs@, key@) == Some(v.deep_view()),
        r is None ==> f_strs(fs@, key@) is None && final(errs)@.len() > old(errs)@.len(),
{
    let items = match get_field(fs, key) {
        None => {
            push_err(errs, ValidationError::MissingField { path });
            return None;
        },
        Some(JsonValue::Arr(v)) => v,
        Some(_) => {
            push_err(errs, ValidationError::WrongType { path });
            return None;
        },
    };
    let ghost base = errs@;
    let mut out: Vec<String> = Vec::new();
    let mut failed: bool = false;
    let mut i: usize = 0;
    while i < items.len()
        invariant
            0 <= i <= items@.len(),
            extends(base, errs@),
            !failed ==> strs_of(items@.take(i as int)) == Some(out.deep_view()) && errs@ == base,
            failed ==> strs_of(items@) is None && errs@.len() > base.len(),
        decreases items@.len() - i,
    {
        match &items[i] {
            JsonValue::Str(s) => {
                if !failed {
                    out.push(s.clone());
                    proof {
                        assert(items@.take(i + 1).drop_last() =~= items@.take(i as int));
                        assert(items@.take(i + 1).last() == items@[i as int]);
                        assert(out.deep_view() =~= out.deep_view().take(
                            out.deep_view().len() as int,
                        ));
                    }
                }
            },
            _ => {
                push_err(
                    errs,
                    ValidationError::WrongType {
                        path: FieldPath {
                            section: path.section,
                            index: path.index,
                            field: path.field,
                            item: Some(i),
                        },
                    },
                );
                proof {
                    lemma_strs_of_bad(items@, i as int);
                }
                failed = true;
            },
        }
        i = i + 1;
    }
    proof {
        assert(items@.take(items@.len() as int) =~= items@);
    }
    if failed {
        None
    } else {
        Some(out)
    }
}

fn get_u32s(
    fs: &Vec<(String, JsonValue)>,
    key: &str,
    path: FieldPath,
    errs: &mut Vec<ValidationError>,
) -> (r: Option<Vec<u32>>)
    ensures
        extends(old(errs)@, final(errs)@),
        r matches Some(v) ==> f_u32s(fs@, key@) == Some(v.deep_view()),
        r is None ==> f_u32s(fs@, key@) is None && final(errs)@.len() > old(errs)@.len(),
{
    let items = match get_field(fs, key) {
        None => {
            push_err(errs, ValidationError::MissingField { path });
            return None;
        },
        Some(JsonValue::Arr(v)) => v,
        Some(_) => {
            push_err(errs, ValidationError::WrongType { path });
            return None;
        },
    };
    let ghost base = errs@;
    let mut out: Vec<u32> = Vec::new();
    let mut failed: bool = false;
    let mut i: usize = 0;
    while i < items.len()
        invariant
            0 <= i <= items@.len(),
            extends(base, errs@),
            !failed ==> u32s_of(items@.take(i as int)) == Some(out.deep_view()) && errs@ == base,
            failed ==> u32s_of(items@) is None && errs@.len() > base.len(),
        decreases items@.len() - i,
    {
        let item_path = FieldPath {
            section: path.section,
            index: path.index,
            field: path.field,
            item: Some(i),
        };
        match &items[i] {
            JsonValue::Num(t) => {
                match crate::decimal::parse_u32(t) {
                    Some(v) => {
                        if !failed {
                            out.push(v);
                            proof {
                                assert(items@.take(i + 1).drop_last() =~= items@.take(i as int));
                                assert(items@.take(i + 1).last() == items@[i as int]);
                            }
                        }
                    },
                    None => {
                        push_err(errs, ValidationError::BadNumber { path: item_path, raw: t.clone() });
                        proof {
                            lemma_u32s_of_bad(items@, i as int);
                        }
                        failed = true;
                    },
                }
            },
            _ => {
                push_err(errs, ValidationError::WrongType { path: item_path });
                proof {
                    lemma_u32s_of_bad(items@, i as int);
                }
                failed = true;
            },
        }
        i = i + 1;
    }
    proof {
        assert(items@.take(items@.len() as int) =~= items@);
    }
    if failed {
        None
    } else {
        Some(out)
    }
}

fn get_weights(
    fs: &Vec<(String, JsonValue)>,
    key: &str,
    path: FieldPath,
    errs: &mut Vec<ValidationError>,
) -> (r: Option<Vec<Weight>>)
    ensures
        extends(old(errs)@, final(errs)@),
        r matches Some(v) ==> f_weights(fs@, key@) == Some(v.deep_view()),
        r is None ==> f_weights(fs@, key@) is None && final(errs)@.len() > old(errs)@.len(),
{
    let items = match get_field(fs, key) {
        None => {
            push_err(errs, ValidationError::MissingField { path });
            return None;
        },
        Some(JsonValue::Arr(v)) => v,
        Some(_) => {
            push_err(errs, ValidationError::WrongType { path });
            return None;
        },
    };
    let ghost base = errs@;
    let mut out: Vec<Weight> = Vec::new();
    let mut failed: bool = false;
    let mut i: usize = 0;
    while i < items.len()
        invariant
            0 <= i <= items@.len(),
            extends(base, errs@),
            !failed ==> weights_of(items@.take(i as int)) == Some(out.deep_view()) && errs@
                == base,
            failed ==> weights_of(items@) is None && errs@.len() > base.len(),
        decreases items@.len() - i,
    {
        let item_path = FieldPath {
            section: path.section,
            index: path.index,
            field: path.field,
            item: Some(i),
        };
        match &items[i] {
            JsonValue::Num(t) => {
                match parse_weight(t) {
                    Some(w) => {
                        if !failed {
                            out.push(w);
                            proof {
                                assert(items@.take(i + 1).drop_last() =~= items@.take(i as int));
                                assert(items@.take(i + 1).last() == items@[i as int]);
                            }
                        }
                    },
                    None => {
                        push_err(errs, ValidationError::BadWeight { path: item_path, raw: t.clone() });
                        proof {
                            lemma_weights_of_bad(items@, i as int);
                        }
                        failed = true;
                    },
                }
            },
            _ => {
                push_err(errs, ValidationError::WrongType { path: item_path });
                proof {
                    lemma_weights_of_bad(items@, i as int);
                }
                failed = true;
            },
        }
        i = i + 1;
    }
    proof {
        assert(items@.take(items@.len() as int) =~= items@);
    }
    if failed {
        None
    } else {
        Some(out)
    }
}

pub open spec fn parse_versions_v(fs: Seq<(String, JsonValue)>) -> Option<VersionsV> {
    if f_str(fs, "stateVersion"@) is Some && f_str(fs, "releaseVersion"@) is Some {
        Some(VersionsV {
            state_version: f_str(fs, "stateVersion"@).unwrap(),
            release_version: f_str(fs, "releaseVersion"@).unwrap(),
        })
    } else {
        None
    }
}

fn parse_versions(fs: &Vec<(String, JsonValue)>, errs: &mut Vec<ValidationError>) -> (r: Option<VersionsState>)
    ensures
        extends(old(errs)@, final(errs)@),
        r matches Some(x) ==> parse_versions_v(fs@) == Some(x.deep_view()),
        r is Some ==> parse_versions_v(fs@) is Some,
        r is None ==> parse_versions_v(fs@) is None && final(errs)@.len() > old(errs)@.len(),
{
    let r_state_version = get_string(fs, "stateVersion", section_field_path(Section::Versions, FieldId::StateVersion), errs);
    let r_release_version = get_string(fs, "releaseVersion", section_field_path(Section::Versions, FieldId::ReleaseVersion), errs);
    if let (Some(state_version), Some(release_version)) = (r_state_version, r_release_version) {
        Some(VersionsState {
            state_version,
            release_version,
        })
    } else {
        None
    }
}

pub open spec fn parse_plate_v(fs: Seq<(String, JsonValue)>) -> Option<PlateV> {
    if f_weight(fs, "weightKg"@) is Some && f_u32(fs, "pairCount"@) is Some && f_str(fs, "color"@) is Some {
        Some(PlateV {
            weight_kg: f_weight(fs, "weightKg"@).unwrap(),
            pair_count: f_u32(fs, "pairCount"@).unwrap(),
            color: f_str(fs, "color"@).unwrap(),
        })
    } else {
        None
    }
}

fn parse_plate(fs: &Vec<(String, JsonValue)>, index: usize, errs: &mut Vec<ValidationError>) -> (r: Option<Plate>)
    ensures
        extends(old(errs)@, final(errs)@),
        r matches Some(x) ==> parse_plate_v(fs@) == Some(x.deep_view()),
        r is Some ==> parse_plate_v(fs@) is Some,
        r is None ==> parse_plate_v(fs@) is None && final(errs)@.len() > old(errs)@.len(),
{
    let r_weight_kg = get_weight(fs, "weightKg", plate_field_path(index, FieldId::WeightKg), errs);
    let r_pair_count = get_u32(fs, "pairCount", plate_field_path(index, FieldId::PairCount), errs);
    let r_color = get_string(fs, "color", plate_field_path(index, FieldId::Color), errs);
    if let (Some(weight_kg), Some(pair_count), Some(color)) = (r_weight_kg, r_pair_count, r_color) {
        Some(Plate {
            weight_kg,
            pair_count,
            color,
        })
    } else {
        None
    }
}

pub open spec fn parse_entry_v(fs: Seq<(String, JsonValue)>) -> Option<EntryV> {
    if f_u32(fs, "id"@) is Some && f_u32(fs, "day"@) is Some && f_u32(fs, "platform"@) is Some && f_str(fs, "flight"@) is Some && f_str(fs, "name"@) is Some && f_str(fs, "sex"@) is Some && f_str(fs, "birthDate"@) is Some && f_u32(fs, "age"@) is Some && f_str(fs, "country"@) is Some && f_str(fs, "state"@) is Some && f_str(fs, "intendedWeightClassKg"@) is Some && f_str(fs, "equipment"@) is Some && f_strs(fs, "divisions"@) is Some && f_strs(fs, "events"@) is Some && f_u32(fs, "lot"@) is Some && f_str(fs, "memberId"@) is Some && f_bool(fs, "paid"@) is Some && f_str(fs, "team"@) is Some && f_bool(fs, "guest"@) is Some && f_opt_str(fs, "instagram"@) is Some && f_str(fs, "notes"@) is Some && f_weight(fs, "bodyweightKg"@) is Some && f_str(fs, "squatRackInfo"@) is Some && f_str(fs, "benchRackInfo"@) is Some && f_weights(fs, "squatKg"@) is Some && f_weights(fs, "benchKg"@) is Some && f_weights(fs, "deadliftKg"@) is Some && f_u32s(fs, "squatStatus"@) is Some && f_u32s(fs, "benchStatus"@) is Some && f_u32s(fs, "deadliftStatus"@) is Some {
        Some(EntryV {
            id: f_u32(fs, "id"@).unwrap(),
            day: f_u32(fs, "day"@).unwrap(),
            platform: f_u32(fs, "platform"@).unwrap(),
            flight: f_str(fs, "flight"@).unwrap(),
            name: f_str(fs, "name"@).unwrap(),
            sex: f_str(fs, "sex"@).unwrap(),
            birth_date: f_str(fs, "birthDate"@).unwrap(),
            age: f_u32(fs, "age"@).unwrap(),
            country: f_str(fs, "country"@).unwrap(),
            state: f_str(fs, "state"@).unwrap(),
            intended_weight_class_kg: f_str(fs, "intendedWeightClassKg"@).unwrap(),
            equipment: f_str(fs, "equipment"@).unwrap(),
            divisions: f_strs(fs, "divisions"@).unwrap(),
            events: f_strs(fs, "events"@).unwrap(),
            lot: f_u32(fs, "lot"@).unwrap(),
            member_id: f_str(fs, "memberId"@).unwrap(),
            paid: f_bool(fs, "paid"@).unwrap(),
            team: f_str(fs, "team"@).unwrap(),
            guest: f_bool(fs, "guest"@).unwrap(),
            instagram: f_opt_str(fs, "instagram"@).unwrap(),
            notes: f_str(fs, "notes"@).unwrap(),
            bodyweight_kg: f_weight(fs, "bodyweightKg"@).unwrap(),
            squat_rack_info: f_str(fs, "squatRackInfo"@).unwrap(),
            bench_rack_info: f_str(fs, "benchRackInfo"@).unwrap(),
            squat_kg: f_weights(fs, "squatKg"@).unwrap(),
            bench_kg: f_weights(fs, "benchKg"@).unwrap(),
            deadlift_kg: f_weights(fs, "deadliftKg"@).unwrap(),
            squat_status: f_u32s(fs, "squatStatus"@).unwrap(),
            bench_status: f_u32s(fs, "benchStatus"@).unwrap(),
            deadlift_status: f_u32s(fs, "deadliftStatus"@).unwrap(),
        })
    } else {
        None
    }
}

#[verifier::rlimit(100)]
#[verifier::spinoff_prover]
fn parse_entry(fs: &Vec<(String, JsonValue)>, index: usize, errs: &mut Vec<ValidationError>) -> (r: Option<Entry>)
    ensures
        extends(old(errs)@, final(errs)@),
        r matches Some(x) ==> parse_entry_v(fs@) == Some(x.deep_view()),
        r is Some ==> parse_entry_v(fs@) is Some,
        r is None ==> parse_entry_v(fs@) is None && final(errs)@.len() > old(errs)@.len(),
{
    let r_id = get_u32(fs, "id", entry_field_path(index, FieldId::Id), errs);
    let r_day = get_u32(fs, "day", entry_field_path(index, FieldId::Day), errs);
    let r_platform = get_u32(fs, "platform", entry_field_path(index, FieldId::Platform), errs);
    let r_flight = get_string(fs, "flight", entry_field_path(index, FieldId::Flight), errs);
    let r_name = get_string(fs, "name", entry_field_path(index, FieldId::Name), errs);
    let r_sex = get_string(fs, "sex", entry_field_path(index, FieldId::Sex), errs);
    let r_birth_date = get_string(fs, "birthDate", entry_field_path(index, FieldId::BirthDate), errs);
    let r_age = get_u32(fs, "age", entry_field_path(index, FieldId::Age), errs);
    let r_country = get_string(fs, "country", entry_field_path(index, FieldId::Country), errs);
    let r_state = get_string(fs, "state", entry_field_path(index, FieldId::State), errs);
    let r_intended_weight_class_kg = get_string(fs, "intendedWeightClassKg", entry_field_path(index, FieldId::IntendedWeightClassKg), errs);
    let r_equipment = get_string(fs, "equipment", entry_field_path(index, FieldId::Equipment), errs);
    let r_divisions = get_strings(fs, "divisions", entry_field_path(index, FieldId::Divisions), errs);
    let r_events = get_strings(fs, "events", entry_field_path(index, FieldId::Events), errs);
    let r_lot = get_u32(fs, "lot", entry_field_path(index, FieldId::Lot), errs);
    let r_member_id = get_string(fs, "memberId", entry_field_path(index, FieldId::MemberId), errs);
    let r_paid = get_bool(fs, "paid", entry_field_path(index, FieldId::Paid), errs);
    let r_team = get_string(fs, "team", entry_field_path(index, FieldId::Team), errs);
    let r_guest = get_bool(fs, "guest", entry_field_path(index, FieldId::Guest), errs);
    let r_instagram = get_opt_string(fs, "instagram", entry_field_path(index, FieldId::Instagram), errs);
    let r_notes = get_string(fs, "notes", entry_field_path(index, FieldId::Notes), errs);
    let r_bodyweight_kg = get_weight(fs, "bodyweightKg", entry_field_path(index, FieldId::BodyweightKg), errs);
    let r_squat_rack_info = get_string(fs, "squatRackInfo", entry_field_path(index, FieldId::SquatRackInfo), errs);
    let r_bench_rack_info = get_string(fs, "benchRackInfo", entry_field_path(index, FieldId::BenchRackInfo), errs);
    let r_squat_kg = get_weights(fs, "squatKg", entry_field_path(index, FieldId::SquatKg), errs);
    let r_bench_kg = get_weights(fs, "benchKg", entry_field_path(index, FieldId::BenchKg), errs);
    let r_deadlift_kg = get_weights(fs, "deadliftKg", entry_field_path(index, FieldId::DeadliftKg), errs);
    let r_squat_status = get_u32s(fs, "squatStatus", entry_field_path(index, FieldId::SquatStatus), errs);
    let r_bench_status = get_u32s(fs, "benchStatus", entry_field_path(index, FieldId::BenchStatus), errs);
    let r_deadlift_status = get_u32s(fs, "deadliftStatus", entry_field_path(index, FieldId::DeadliftStatus), errs);
    if let (Some(id), Some(day), Some(platform), Some(flight), Some(name), Some(sex), Some(birth_date), Some(age), Some(country), Some(state), Some(intended_weight_class_kg), Some(equipment), Some(divisions), Some(events), Some(lot), Some(member_id), Some(paid), Some(team), Some(guest), Some(instagram), Some(notes), Some(bodyweight_kg), Some(squat_rack_info), Some(bench_rack_info), Some(squat_kg), Some(bench_kg), Some(deadlift_kg), Some(squat_status), Some(bench_status), Some(deadlift_status)) = (r_id, r_day, r_platform, r_flight, r_name, r_sex, r_birth_date, r_age, r_country, r_state, r_intended_weight_class_kg, r_equipment, r_divisions, r_events, r_lot, r_member_id, r_paid, r_team, r_guest, r_instagram, r_notes, r_bodyweight_kg, r_squat_rack_info, r_bench_rack_info, r_squat_kg, r_bench_kg, r_deadlift_kg, r_squat_status, r_bench_status, r_deadlift_status) {
        Some(Entry {
            id,
            day,
            platform,
            flight,
            name,
            sex,
            birth_date,
            age,
            country,
            state,
            intended_weight_class_kg,
            equipment,
            divisions,
            events,
            lot,
            member_id,
            paid,
            team,
            guest,
            instagram,
            notes,
            bodyweight_kg,
            squat_rack_info,
            bench_rack_info,
            squat_kg,
            bench_kg,
            deadlift_kg,
            squat_status,
            bench_status,
            deadlift_status,
        })
    } else {
        None
    }
}

pub open spec fn parse_lifting_v(fs: Seq<(String, JsonValue)>) -> Option<LiftingV> {
    if f_u32(fs, "day"@) is Some && f_u32(fs, "platform"@) is Some && f_str(fs, "flight"@) is Some && f_str(fs, "lift"@) is Some && f_opt_u32(fs, "overrideAttempt"@) is Some && f_opt_u32(fs, "overrideEntryId"@) is Some && f_weight(fs, "columnDivisionWidthPx"@) is Some {
        Some(LiftingV {
            day: f_u32(fs, "day"@).unwrap(),
            platform: f_u32(fs, "platform"@).unwrap(),
            flight: f_str(fs, "flight"@).unwrap(),
            lift: f_str(fs, "lift"@).unwrap(),
            override_attempt: f_opt_u32(fs, "overrideAttempt"@).unwrap(),
            override_entry_id: f_opt_u32(fs, "overrideEntryId"@).unwrap(),
            column_division_width_px: f_weight(fs, "columnDivisionWidthPx"@).unwrap(),
        })
    } else {
        None
    }
}

fn parse_lifting(fs: &Vec<(String, JsonValue)>, errs: &mut Vec<ValidationError>) -> (r: Option<LiftingState>)
    ensures
        extends(old(errs)@, final(errs)@),
        r matches Some(x) ==> parse_lifting_v(fs@) == Some(x.deep_view()),
        r is Some ==> parse_lifting_v(fs@) is Some,
        r is None ==> parse_lifting_v(fs@) is None && final(errs)@.len() > old(errs)@.len(),
{
    let r_day = get_u32(fs, "day", section_field_path(Section::Lifting, FieldId::Day), errs);
    let r_platform = get_u32(fs, "platform", section_field_path(Section::Lifting, FieldId::Platform), errs);
    let r_flight = get_string(fs, "flight", section_field_path(Section::Lifting, FieldId::Flight), errs);
    let r_lift = get_string(fs, "lift", section_field_path(Section::Lifting, FieldId::Lift), errs);
    let r_override_attempt = get_opt_u32(fs, "overrideAttempt", section_field_path(Section::Lifting, FieldId::OverrideAttempt), errs);
    let r_override_entry_id = get_opt_u32(fs, "overrideEntryId", section_field_path(Section::Lifting, FieldId::OverrideEntryId), errs);
    let r_column_division_width_px = get_weight(fs, "columnDivisionWidthPx", section_field_path(Section::Lifting, FieldId::ColumnDivisionWidthPx), errs);
    if let (Some(day), Some(platform), Some(flight), Some(lift), Some(override_attempt), Some(override_entry_id), Some(column_division_width_px)) = (r_day, r_platform, r_flight, r_lift, r_override_attempt, r_override_entry_id, r_column_division_width_px) {
        Some(LiftingState {
            day,
            platform,
            flight,
            lift,
            override_attempt,
            override_entry_id,
            column_division_width_px,
        })
    } else {
        None
    }
}

pub open spec fn parse_meet_v(fs: Seq<(String, JsonValue)>) -> Option<MeetV> {
    if f_str(fs, "name"@) is Some && f_str(fs, "country"@) is Some && f_str(fs, "state"@) is Some && f_str(fs, "city"@) is Some && f_str(fs, "federation"@) is Some && f_str(fs, "date"@) is Some && f_u32(fs, "lengthDays"@) is Some && f_u32s(fs, "platformsOnDays"@) is Some && f_str(fs, "ageCoefficients"@) is Some && f_strs(fs, "divisions"@) is Some && f_weights(fs, "weightClassesKgMen"@) is Some && f_weights(fs, "weightClassesKgWomen"@) is Some && f_weights(fs, "weightClassesKgMx"@) is Some && f_str(fs, "formula"@) is Some && f_bool(fs, "combineSleevesAndWraps"@) is Some && f_bool(fs, "combineSingleAndMulti"@) is Some && f_bool(fs, "allow4thAttempts"@) is Some && f_bool(fs, "inKg"@) is Some && f_weight(fs, "squatBarAndCollarsWeightKg"@) is Some && f_weight(fs, "benchBarAndCollarsWeightKg"@) is Some && f_weight(fs, "deadliftBarAndCollarsWeightKg"@) is Some && f_plates(fs, "plates"@) is Some && f_bool(fs, "showAlternateUnits"@) is Some {
        Some(MeetV {
            name: f_str(fs, "name"@).unwrap(),
            country: f_str(fs, "country"@).unwrap(),
            state: f_str(fs, "state"@).unwrap(),
            city: f_str(fs, "city"@).unwrap(),
            federation: f_str(fs, "federation"@).unwrap(),
            date: f_str(fs, "date"@).unwrap(),
            length_days: f_u32(fs, "lengthDays"@).unwrap(),
            platforms_on_days: f_u32s(fs, "platformsOnDays"@).unwrap(),
            age_coefficients: f_str(fs, "ageCoefficients"@).unwrap(),
            divisions: f_strs(fs, "divisions"@).unwrap(),
            weight_classes_kg_men: f_weights(fs, "weightClassesKgMen"@).unwrap(),
            weight_classes_kg_women: f_weights(fs, "weightClassesKgWomen"@).unwrap(),
            weight_classes_kg_mx: f_weights(fs, "weightClassesKgMx"@).unwrap(),
            formula: f_str(fs, "formula"@).unwrap(),
            combine_sleeves_and_wraps: f_bool(fs, "combineSleevesAndWraps"@).unwrap(),
            combine_single_and_multi: f_bool(fs, "combineSingleAndMulti"@).unwrap(),
            allow_4th_attempts: f_bool(fs, "allow4thAttempts"@).unwrap(),
            in_kg: f_bool(fs, "inKg"@).unwrap(),
            squat_bar_and_collars_weight_kg: f_weight(fs, "squatBarAndCollarsWeightKg"@).unwrap(),
            bench_bar_and_collars_weight_kg: f_weight(fs, "benchBarAndCollarsWeightKg"@).unwrap(),
            deadlift_bar_and_collars_weight_kg: f_weight(fs, "deadliftBarAndCollarsWeightKg"@).unwrap(),
            plates: f_plates(fs, "plates"@).unwrap(),
            show_alternate_units: f_bool(fs, "showAlternateUnits"@).unwrap(),
        })
    } else {
        None
    }
}

#[verifier::rlimit(100)]
#[verifier::spinoff_prover]
fn parse_meet(fs: &Vec<(String, JsonValue)>, errs: &mut Vec<ValidationError>) -> (r: Option<MeetState>)
    ensures
        extends(old(errs)@, final(errs)@),
        r matches Some(x) ==> parse_meet_v(fs@) == Some(x.deep_view()),
        r is Some ==> parse_meet_v(fs@) is Some,
        r is None ==> parse_meet_v(fs@) is None && final(errs)@.len() > old(errs)@.len(),
{
    let r_name = get_string(fs, "name", section_field_path(Section::Meet, FieldId::Name), errs);
    let r_country = get_string(fs, "country", section_field_path(Section::Meet, FieldId::Country), errs);
    let r_state = get_string(fs, "state", section_field_path(Section::Meet, FieldId::State), errs);
    let r_city = get_string(fs, "city", section_field_path(Section::Meet, FieldId::City), errs);
    let r_federation = get_string(fs, "federation", section_field_path(Section::Meet, FieldId::Federation), errs);
    let r_date = get_string(fs, "date", section_field_path(Section::Meet, FieldId::Date), errs);
    let r_length_days = get_u32(fs, "lengthDays", section_field_path(Section::Meet, FieldId::LengthDays), errs);
    let r_platforms_on_days = get_u32s(fs, "platformsOnDays", section_field_path(Section::Meet, FieldId::PlatformsOnDays), errs);
    let r_age_coefficients = get_string(fs, "ageCoefficients", section_field_path(Section::Meet, FieldId::AgeCoefficients), errs);
    let r_divisions = get_strings(fs, "divisions", section_field_path(Section::Meet, FieldId::Divisions), errs);
    let r_weight_classes_kg_men = get_weights(fs, "weightClassesKgMen", section_field_path(Section::Meet, FieldId::WeightClassesKgMen), errs);
    let r_weight_classes_kg_women = get_weights(fs, "weightClassesKgWomen", section_field_path(Section::Meet, FieldId::WeightClassesKgWomen), errs);
    let r_weight_classes_kg_mx = get_weights(fs, "weightClassesKgMx", section_field_path(Section::Meet, FieldId::WeightClassesKgMx), errs);
    let r_formula = get_string(fs, "formula", section_field_path(Section::Meet, FieldId::Formula), errs);
    let r_combine_sleeves_and_wraps = get_bool(fs, "combineSleevesAndWraps", section_field_path(Section::Meet, FieldId::CombineSleevesAndWraps), errs);
    let r_combine_single_and_multi = get_bool(fs, "combineSingleAndMulti", section_field_path(Section::Meet, FieldId::CombineSingleAndMulti), errs);
    let r_allow_4th_attempts = get_bool(fs, "allow4thAttempts", section_field_path(Section::Meet, FieldId::Allow4thAttempts), errs);
    let r_in_kg = get_bool(fs, "inKg", section_field_path(Section::Meet, FieldId::InKg), errs);
    let r_squat_bar_and_collars_weight_kg = get_weight(fs, "squatBarAndCollarsWeightKg", section_field_path(Section::Meet, FieldId::SquatBarAndCollarsWeightKg), errs);
    let r_bench_bar_and_collars_weight_kg = get_weight(fs, "benchBarAndCollarsWeightKg", section_field_path(Section::Meet, FieldId::BenchBarAndCollarsWeightKg), errs);
    let r_deadlift_bar_and_collars_weight_kg = get_weight(fs, "deadliftBarAndCollarsWeightKg", section_field_path(Section::Meet, FieldId::DeadliftBarAndCollarsWeightKg), errs);
    let r_plates = get_plates(fs, "plates", section_field_path(Section::Meet, FieldId::Plates), errs);
    let r_show_alternate_units = get_bool(fs, "showAlternateUnits", section_field_path(Section::Meet, FieldId::ShowAlternateUnits), errs);
    if let (Some(name), Some(country), Some(state), Some(city), Some(federation), Some(date), Some(length_days), Some(platforms_on_days), Some(age_coefficients), Some(divisions), Some(weight_classes_kg_men), Some(weight_classes_kg_women), Some(weight_classes_kg_mx), Some(formula), Some(combine_sleeves_and_wraps), Some(combine_single_and_multi), Some(allow_4th_attempts), Some(in_kg), Some(squat_bar_and_collars_weight_kg), Some(bench_bar_and_collars_weight_kg), Some(deadlift_bar_and_collars_weight_kg), Some(plates), Some(show_alternate_units)) = (r_name, r_country, r_state, r_city, r_federation, r_date, r_length_days, r_platforms_on_days, r_age_coefficients, r_divisions, r_weight_classes_kg_men, r_weight_classes_kg_women, r_weight_classes_kg_mx, r_formula, r_combine_sleeves_and_wraps, r_combine_single_and_multi, r_allow_4th_attempts, r_in_kg, r_squat_bar_and_collars_weight_kg, r_bench_bar_and_collars_weight_kg, r_deadlift_bar_and_collars_weight_kg, r_plates, r_show_alternate_units) {
        Some(MeetState {
            name,
            country,
            state,
            city,
            federation,
            date,
            length_days,
            platforms_on_days,
            age_coefficients,
            divisions,
            weight_classes_kg_men,
            weight_classes_kg_women,
            weight_classes_kg_mx,
            formula,
            combine_sleeves_and_wraps,
            combine_single_and_multi,
            allow_4th_attempts,
            in_kg,
            squat_bar_and_collars_weight_kg,
            bench_bar_and_collars_weight_kg,
            deadlift_bar_and_collars_weight_kg,
            plates,
            show_alternate_units,
        })
    } else {
        None
    }
}

pub open spec fn parse_registration_v(fs: Seq<(String, JsonValue)>) -> Option<RegistrationV> {
    if f_u32(fs, "nextEntryId"@) is Some && f_entries(fs, "entries"@) is Some {
        Some(RegistrationV {
            next_entry_id: f_u32(fs, "nextEntryId"@).unwrap(),
            entries: f_entries(fs, "entries"@).unwrap(),
        })
    } else {
        None
    }
}

fn parse_registration(fs: &Vec<(String, JsonValue)>, errs: &mut Vec<ValidationError>) -> (r: Option<RegistrationState>)
    ensures
        extends(old(errs)@, final(errs)@),
        r matches Some(x) ==> parse_registration_v(fs@) == Some(x.deep_view()),
        r is Some ==> parse_registration_v(fs@) is Some,
        r is None ==> parse_registration_v(fs@) is None && final(errs)@.len() > old(errs)@.len(),
{
    let r_next_entry_id = get_u32(fs, "nextEntryId", section_field_path(Section::Registration, FieldId::NextEntryId), errs);
    let r_entries = get_entries(fs, "entries", section_field_path(Section::Registration, FieldId::Entries), errs);
    if let (Some(next_entry_id), Some(entries)) = (r_next_entry_id, r_entries) {
        Some(RegistrationState {
            next_entry_id,
            entries,
        })
    } else {
        None
    }
}


pub open spec fn plate_of(j: JsonValue) -> Option<PlateV> {
    match j {
        JsonValue::Obj(o) => parse_plate_v(o@),
        _ => None,
    }
}

pub open spec fn plates_of(items: Seq<JsonValue>) -> Option<Seq<PlateV>>
    decreases items.len(),
{
    if items.len() == 0 {
        Some(Seq::empty())
    } else {
        match (plates_of(items.drop_last()), plate_of(items.last())) {
            (Some(pre), Some(p)) => Some(pre.push(p)),
            _ => None,
        }
    }
}

pub open spec fn f_plates(fs: Seq<(String, JsonValue)>, key: Seq<char>) -> Option<Seq<PlateV>> {
    match lookup(fs, key) {
        Some(JsonValue::Arr(v)) => plates_of(v@),
        _ => None,
    }
}

pub open spec fn entry_of(j: JsonValue) -> Option<EntryV> {
    match j {
        JsonValue::Obj(o) => parse_entry_v(o@),
        _ => None,
    }
}

pub open spec fn entries_of(items: Seq<JsonValue>) -> Option<Seq<EntryV>>
    decreases items.len(),
{
    if items.len() == 0 {
        Some(Seq::empty())
    } else {
        match (entries_of(items.drop_last()), entry_of(items.last())) {
            (Some(pre), Some(e)) => Some(pre.push(e)),
            _ => None,
        }
    }
}

pub open spec fn f_entries(fs: Seq<(String, JsonValue)>, key: Seq<char>) -> Option<Seq<EntryV>> {
    match lookup(fs, key) {
        Some(JsonValue::Arr(v)) => entries_of(v@),
        _ => None,
    }
}

proof fn lemma_plates_of_bad(items: Seq<JsonValue>, k: int)
    requires
        0 <= k < items.len(),
        plate_of(items[k]) is None,
    ensures
        plates_of(items) is None,
    decreases items.len(),
{
    if k < items.len() - 1 {
        assert(items.drop_last()[k] == items[k]);
        lemma_plates_of_bad(items.drop_last(), k);
    }
}

proof fn lemma_entries_of_bad(items: Seq<JsonValue>, k: int)
    requires
        0 <= k < items.len(),
        entry_of(items[k]) is None,
    ensures
        entries_of(items) is None,
    decreases items.len(),
{
    if k < items.len() - 1 {
        assert(items.drop_last()[k] == items[k]);
        lemma_entries_of_bad(items.drop_last(), k);
    }
}

fn get_plates(
    fs: &Vec<(String, JsonValue)>,
    key: &str,
    path: FieldPath,
    errs: &mut Vec<ValidationError>,
) -> (r: Option<Vec<Plate>>)
    ensures
        extends(old(errs)@, final(errs)@),
        r matches Some(v) ==> f_plates(fs@, key@) == Some(v.deep_view()),
        r is None ==> f_plates(fs@, key@) is None && final(errs)@.len() > old(errs)@.len(),
{
    let items = match get_field(fs, key) {
        None => {
            push_err(errs, ValidationError::MissingField { path });
            return None;
        },
        Some(JsonValue::Arr(v)) => v,
        Some(_) => {
            push_err(errs, ValidationError::WrongType { path });
            return None;
        },
    };
    let ghost base = errs@;
    let mut out: Vec<Plate> = Vec::new();
    let mut failed: bool = false;
    let mut i: usize = 0;
    while i < items.len()
        invariant
            0 <= i <= items@.len(),
            extends(base, errs@),
            !failed ==> plates_of(items@.take(i as int)) == Some(out.deep_view()),
            failed ==> plates_of(items@) is None && errs@.len() > base.len(),
        decreases items@.len() - i,
    {
        match &items[i] {
            JsonValue::Obj(o) => {
                match parse_plate(o, i, errs) {
                    Some(p) => {
                        if !failed {
                            out.push(p);
                            proof {
                                assert(items@.take(i + 1).drop_last() =~= items@.take(i as int));
                                assert(items@.take(i + 1).last() == items@[i as int]);
                            }
                        }
                    },
                    None => {
                        proof {
                            lemma_plates_of_bad(items@, i as int);
                        }
                        failed = true;
                    },
                }
            },
            _ => {
                push_err(
                    errs,
                    ValidationError::WrongType {
                        path: FieldPath {
                            section: Section::Meet,
                            index: Some(i),
                            field: None,
                            item: None,
                        },
                    },
                );
                proof {
                    lemma_plates_of_bad(items@, i as int);
                }
                failed = true;
            },
        }
        i = i + 1;
    }
    proof {
        assert(items@.take(items@.len() as int) =~= items@);
    }
    if failed {
        None
    } else {
        Some(out)
    }
}

fn get_entries(
    fs: &Vec<(String, JsonValue)>,
    key: &str,
    path: FieldPath,
    errs: &mut Vec<ValidationError>,
) -> (r: Option<Vec<Entry>>)
    ensures
        extends(old(errs)@, final(errs)@),
        r matches Some(v) ==> f_entries(fs@, key@) == Some(v.deep_view()),
        r is None ==> f_entries(fs@, key@) is None && final(errs)@.len() > old(errs)@.len(),
{
    let items = match get_field(fs, key) {
        None => {
            push_err(errs, ValidationError::MissingField { path });
            return None;
        },
        Some(JsonValue::Arr(v)) => v,
        Some(_) => {
            push_err(errs, ValidationError::WrongType { path });
            return None;
        },
    };
    let ghost base = errs@;
    let mut out: Vec<Entry> = Vec::new();
    let mut failed: bool = false;
    let mut i: usize = 0;
    while i < items.len()
        invariant
            0 <= i <= items@.len(),
            extends(base, errs@),
            !failed ==> entries_of(items@.take(i as int)) == Some(out.deep_view()),
            failed ==> entries_of(items@) is None && errs@.len() > base.len(),
        decreases items@.len() - i,
    {
        match &items[i] {
            JsonValue::Obj(o) => {
                match parse_entry(o, i, errs) {
                    Some(e) => {
                        if !failed {
                            out.push(e);
                            proof {
                                assert(items@.take(i + 1).drop_last() =~= items@.take(i as int));
                                assert(items@.take(i + 1).last() == items@[i as int]);
                            }
                        }
                    },
                    None => {
                        proof {
                            lemma_entries_of_bad(items@, i as int);
                        }
                        failed = true;
                    },
                }
            },
            _ => {
                push_err(
                    errs,
                    ValidationError::WrongType {
                        path: FieldPath {
                            section: Section::Registration,
                            index: Some(i),
                            field: None,
                            item: None,
                        },
                    },
                );
                proof {
                    lemma_entries_of_bad(items@, i as int);
                }
                failed = true;
            },
        }
        i = i + 1;
    }
    proof {
        assert(items@.take(items@.len() as int) =~= items@);
    }
    if failed {
        None
    } else {
        Some(out)
    }
}

fn get_object<'a>(
    fs: &'a Vec<(String, JsonValue)>,
    key: &str,
    path: FieldPath,
    errs: &mut Vec<ValidationError>,
) -> (r: Option<&'a Vec<(String, JsonValue)>>)
    ensures
        extends(old(errs)@, final(errs)@),
        r matches Some(o) ==> f_obj(fs@, key@) == Some(o@) && final(errs)@ == old(errs)@,
        r is None ==> f_obj(fs@, key@) is None && final(errs)@.len() > old(errs)@.len(),
{
    match get_field(fs, key) {
        None => {
            push_err(errs, ValidationError::MissingField { path });
            None
        },
        Some(JsonValue::Obj(o)) => Some(o),
        Some(_) => {
            push_err(errs, ValidationError::WrongType { path });
            None
        },
    }
}

/// The mathematical reading of a whole document.
pub open spec fn parse_global_v(j: JsonValue) -> Option<GlobalV> {
    match j {
        JsonValue::Obj(fs) => {
            if f_obj(fs@, "versions"@) is Some && parse_versions_v(
                f_obj(fs@, "versions"@).unwrap(),
            ) is Some && f_str(fs@, "language"@) is Some && f_obj(fs@, "meet"@) is Some
                && parse_meet_v(f_obj(fs@, "meet"@).unwrap()) is Some && f_obj(
                fs@,
                "registration"@,
            ) is Some && parse_registration_v(f_obj(fs@, "registration"@).unwrap()) is Some
                && f_obj(fs@, "lifting"@) is Some && parse_lifting_v(
                f_obj(fs@, "lifting"@).unwrap(),
            ) is Some {
                Some(
                    GlobalV {
                        versions: parse_versions_v(f_obj(fs@, "versions"@).unwrap()).unwrap(),
                        language: f_str(fs@, "language"@).unwrap(),
                        meet: parse_meet_v(f_obj(fs@, "meet"@).unwrap()).unwrap(),
                        registration: parse_registration_v(
                            f_obj(fs@, "registration"@).unwrap(),
                        ).unwrap(),
                        lifting: parse_lifting_v(f_obj(fs@, "lifting"@).unwrap()).unwrap(),
                    },
                )
            } else {
                None
            }
        },
        _ => None,
    }
}

/// Reads a document out of a tree: the structural and weight-parsing
/// phase. Succeeds exactly when the mathematical reading succeeds, and
/// returns every structural failure found otherwise.
pub fn parse_global(j: &JsonValue) -> (r: Result<GlobalState, Vec<ValidationError>>)
    ensures
        r matches Ok(g) ==> parse_global_v(*j) == Some(g.deep_view()),
        r is Ok <==> parse_global_v(*j) is Some,
        r matches Err(es) ==> es@.len() > 0,
{
    let fs = match j {
        JsonValue::Obj(fs) => fs,
        _ => {
            let mut errs: Vec<ValidationError> = Vec::new();
            push_err(
                &mut errs,
                ValidationError::WrongType {
                    path: FieldPath { section: Section::Root, index: None, field: None, item: None },
                },
            );
            return Err(errs);
        },
    };
    let mut errs: Vec<ValidationError> = Vec::new();
    let versions = match get_object(
        fs,
        "versions",
        FieldPath { section: Section::Versions, index: None, field: None, item: None },
        &mut errs,
    ) {
        Some(o) => parse_versions(o, &mut errs),
        None => None,
    };
    let language = get_string(
        fs,
        "language",
        FieldPath { section: Section::Language, index: None, field: None, item: None },
        &mut errs,
    );
    let meet = match get_object(
        fs,
        "meet",
        FieldPath { section: Section::Meet, index: None, field: None, item: None },
        &mut errs,
    ) {
        Some(o) => parse_meet(o, &mut errs),
        None => None,
    };
    let registration = match get_object(
        fs,
        "registration",
        FieldPath { section: Section::Registration, index: None, field: None, item: None },
        &mut errs,
    ) {
        Some(o) => parse_registration(o, &mut errs),
        None => None,
    };
    let lifting = match get_object(
        fs,
        "lifting",
        FieldPath { section: Section::Lifting, index: None, field: None, item: None },
        &mut errs,
    ) {
        Some(o) => parse_lifting(o, &mut errs),
        None => None,
    };
    if let (Some(versions), Some(language), Some(meet), Some(registration), Some(lifting)) = (
        versions,
        language,
        meet,
        registration,
        lifting,
    ) {
        Ok(GlobalState { versions, language, meet, registration, lifting })
    } else {
        Err(errs)
    }
}

/// Full validation: the structural phase, then — only once the whole
/// document reads — every cross-field consistency rule. Succeeds exactly
/// when the tree reads as a well-formed document.
pub fn validate_document(j: &JsonValue) -> (r: Result<GlobalState, Vec<ValidationError>>)
    ensures
        r matches Ok(g) ==> parse_global_v(*j) == Some(g.deep_view()) && crate::model::global_wf(
            g.deep_view(),
        ),
        r is Ok <==> (parse_global_v(*j) matches Some(gv) && crate::model::global_wf(gv)),
        r matches Err(es) ==> es@.len() > 0,
{
    match parse_global(j) {
        Err(es) => Err(es),
        Ok(g) => {
            let errs = crate::consistency::check_consistency(&g);
            if errs.len() == 0 {
                Ok(g)
            } else {
                Err(errs)
            }
        },
    }
}

} // verus!
