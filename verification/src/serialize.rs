//! Serialization: building the canonical JSON-like tree of a document.
//! Weights are printed in their canonical decimal text, so the tree a
//! well-formed document serializes to reads back as an equal document —
//! the round-trip law at the bottom of this file.

use vstd::prelude::*;

use crate::decimal::{lemma_u32_round_trip, u32_to_text};
use crate::errors::ValidationError;
use crate::json::{lemma_lookup_at, JsonValue};
use crate::model::{
    entry_weights_wf, entry_wf, global_wf, meet_shape_wf, plates_wf, Entry, GlobalState,
    LiftingState, MeetState, Plate, RegistrationState, VersionsState,
};
use crate::parse::{
    entries_of, parse_entry_v, parse_global_v, parse_lifting_v, parse_meet_v, parse_plate_v,
    parse_registration_v, parse_versions_v, plates_of, strs_of, u32s_of, validate_document,
    weights_of,
};
use crate::weight::{lemma_weight_round_trip, weight_to_text, weight_wf, Weight};
use crate::model::all_weights_wf;

verus! {

fn strs_to_json(v: &Vec<String>) -> (r: JsonValue)
    ensures
        r matches JsonValue::Arr(items) && strs_of(items@) == Some(v.deep_view()),
{
    let mut items: Vec<JsonValue> = Vec::new();
    let mut i: usize = 0;
    while i < v.len()
        invariant
            0 <= i <= v@.len(),
            items@.len() == i,
            strs_of(items@) == Some(v.deep_view().take(i as int)),
        decreases v@.len() - i,
    {
        let ghost pre = items@;
        items.push(JsonValue::Str(v[i].clone()));
        proof {
            assert(items@.drop_last() =~= pre);
            assert(v.deep_view()[i as int] == v@[i as int]@);
            assert(v.deep_view().take(i + 1) =~= v.deep_view().take(i as int).push(
                v.deep_view()[i as int],
            ));
        }
        i = i + 1;
    }
    proof {
        assert(v.deep_view().take(v@.len() as int) =~= v.deep_view());
    }
    JsonValue::Arr(items)
}

fn u32s_to_json(v: &Vec<u32>) -> (r: JsonValue)
    ensures
        r matches JsonValue::Arr(items) && u32s_of(items@) == Some(v.deep_view()),
{
    let mut items: Vec<JsonValue> = Vec::new();
    let mut i: usize = 0;
    while i < v.len()
        invariant
            0 <= i <= v@.len(),
            items@.len() == i,
            u32s_of(items@) == Some(v.deep_view().take(i as int)),
        decreases v@.len() - i,
    {
        let ghost pre = items@;
        proof {
            lemma_u32_round_trip(v@[i as int]);
        }
        items.push(JsonValue::Num(u32_to_text(v[i])));
        proof {
            assert(items@.drop_last() =~= pre);
            assert(v.deep_view()[i as int] == v@[i as int]);
            assert(v.deep_view().take(i + 1) =~= v.deep_view().take(i as int).push(
                v.deep_view()[i as int],
            ));
        }
        i = i + 1;
    }
    proof {
        assert(v.deep_view().take(v@.len() as int) =~= v.deep_view());
    }
    JsonValue::Arr(items)
}

fn weights_to_json(v: &Vec<Weight>) -> (r: JsonValue)
    requires
        all_weights_wf(v.deep_view()),
    ensures
        r matches JsonValue::Arr(items) && weights_of(items@) == Some(v.deep_view()),
{
    let mut items: Vec<JsonValue> = Vec::new();
    let mut i: usize = 0;
    while i < v.len()
        invariant
            0 <= i <= v@.len(),
            all_weights_wf(v.deep_view()),
            items@.len() == i,
            weights_of(items@) == Some(v.deep_view().take(i as int)),
        decreases v@.len() - i,
    {
        let ghost pre = items@;
        proof {
            assert(v.deep_view()[i as int] == v@[i as int]@);
            assert(weight_wf(v.deep_view()[i as int]));
            lemma_weight_round_trip(v@[i as int]@);
        }
        items.push(JsonValue::Num(weight_to_text(v[i])));
        proof {
            assert(items@.drop_last() =~= pre);
            assert(v.deep_view().take(i + 1) =~= v.deep_view().take(i as int).push(
                v.deep_view()[i as int],
            ));
        }
        i = i + 1;
    }
    proof {
        assert(v.deep_view().take(v@.len() as int) =~= v.deep_view());
    }
    JsonValue::Arr(items)
}

fn plates_to_json(v: &Vec<Plate>) -> (r: JsonValue)
    requires
        plates_wf(v.deep_view()),
    ensures
        r matches JsonValue::Arr(items) && plates_of(items@) == Some(v.deep_view()),
{
    let mut items: Vec<JsonValue> = Vec::new();
    let mut i: usize = 0;
    while i < v.len()
        invariant
            0 <= i <= v@.len(),
            plates_wf(v.deep_view()),
            items@.len() == i,
            plates_of(items@) == Some(v.deep_view().take(i as int)),
        decreases v@.len() - i,
    {
        let ghost pre = items@;
        proof {
            assert(v.deep_view()[i as int] == v@[i as int].deep_view());
        }
        items.push(JsonValue::Obj(plate_fields(&v[i])));
        proof {
            assert(items@.drop_last() =~= pre);
            assert(v.deep_view().take(i + 1) =~= v.deep_view().take(i as int).push(
                v.deep_view()[i as int],
            ));
        }
        i = i + 1;
    }
    proof {
        assert(v.deep_view().take(v@.len() as int) =~= v.deep_view());
    }
    JsonValue::Arr(items)
}

fn entries_to_json(v: &Vec<Entry>) -> (r: JsonValue)
    requires
        forall|i: int| 0 <= i < v.deep_view().len() ==> entry_weights_wf(
            #[trigger] v.deep_view()[i],
        ),
    ensures
        r matches JsonValue::Arr(items) && entries_of(items@) == Some(v.deep_view()),
{
    let mut items: Vec<JsonValue> = Vec::new();
    let mut i: usize = 0;
    while i < v.len()
        invariant
            0 <= i <= v@.len(),
            forall|k: int| 0 <= k < v.deep_view().len() ==> entry_weights_wf(
                #[trigger] v.deep_view()[k],
            ),
            items@.len() == i,
            entries_of(items@) == Some(v.deep_view().take(i as int)),
        decreases v@.len() - i,
    {
        let ghost pre = items@;
        proof {
            assert(v.deep_view()[i as int] == v@[i as int].deep_view());
        }
        items.push(JsonValue::Obj(entry_fields(&v[i])));
        proof {
            assert(items@.drop_last() =~= pre);
            assert(v.deep_view().take(i + 1) =~= v.deep_view().take(i as int).push(
                v.deep_view()[i as int],
            ));
        }
        i = i + 1;
    }
    proof {
        assert(v.deep_view().take(v@.len() as int) =~= v.deep_view());
    }
    JsonValue::Arr(items)
}

#[verifier::rlimit(100)]
#[verifier::spinoff_prover]
fn versions_fields(x: &VersionsState) -> (fs: Vec<(String, JsonValue)>)
    ensures
        parse_versions_v(fs@) == Some(x.deep_view()),
{
    let mut fs: Vec<(String, JsonValue)> = Vec::new();
    fs.push(("stateVersion".to_owned(), JsonValue::Str(x.state_version.clone())));
    fs.push(("releaseVersion".to_owned(), JsonValue::Str(x.release_version.clone())));
    proof {
        reveal_strlit("stateVersion");
        reveal_strlit("releaseVersion");
        assert(("stateVersion"@).len() == 12);
        assert(("stateVersion"@)[0] == 's');
        assert(("releaseVersion"@).len() == 14);
        assert(("releaseVersion"@)[0] == 'r');
        lemma_lookup_at(fs@, "stateVersion"@, 0);
        lemma_lookup_at(fs@, "releaseVersion"@, 1);

    }
    fs
}

#[verifier::rlimit(100)]
#[verifier::spinoff_prover]
fn plate_fields(x: &Plate) -> (fs: Vec<(String, JsonValue)>)
    requires
        weight_wf(x.deep_view().weight_kg),
    ensures
        parse_plate_v(fs@) == Some(x.deep_view()),
{
    let mut fs: Vec<(String, JsonValue)> = Vec::new();
    fs.push(("weightKg".to_owned(), JsonValue::Num(weight_to_text(x.weight_kg))));
    fs.push(("pairCount".to_owned(), JsonValue::Num(u32_to_text(x.pair_count))));
    fs.push(("color".to_owned(), JsonValue::Str(x.color.clone())));
    proof {
        reveal_strlit("weightKg");
        reveal_strlit("pairCount");
        reveal_strlit("color");
        assert(("weightKg"@).len() == 8);
        assert(("weightKg"@)[0] == 'w');
        assert(("pairCount"@).len() == 9);
        assert(("pairCount"@)[0] == 'p');
        assert(("color"@).len() == 5);
        assert(("color"@)[0] == 'c');
        lemma_lookup_at(fs@, "weightKg"@, 0);
        lemma_lookup_at(fs@, "pairCount"@, 1);
        lemma_lookup_at(fs@, "color"@, 2);
        lemma_weight_round_trip(x.weight_kg@);
        lemma_u32_round_trip(x.pair_count);
    }
    fs
}

#[verifier::rlimit(100)]
#[verifier::spinoff_prover]
fn entry_fields(x: &Entry) -> (fs: Vec<(String, JsonValue)>)
    requires
        entry_weights_wf(x.deep_view()),
    ensures
        parse_entry_v(fs@) == Some(x.deep_view()),
{
    let mut fs: Vec<(String, JsonValue)> = Vec::new();
    fs.push(("id".to_owned(), JsonValue::Num(u32_to_text(x.id))));
    fs.push(("day".to_owned(), JsonValue::Num(u32_to_text(x.day))));
    fs.push(("platform".to_owned(), JsonValue::Num(u32_to_text(x.platform))));
    fs.push(("flight".to_owned(), JsonValue::Str(x.flight.clone())));
    fs.push(("name".to_owned(), JsonValue::Str(x.name.clone())));
    fs.push(("sex".to_owned(), JsonValue::Str(x.sex.clone())));
    fs.push(("birthDate".to_owned(), JsonValue::Str(x.birth_date.clone())));
    fs.push(("age".to_owned(), JsonValue::Num(u32_to_text(x.age))));
    fs.push(("country".to_owned(), JsonValue::Str(x.country.clone())));
    fs.push(("state".to_owned(), JsonValue::Str(x.state.clone())));
    fs.push(("intendedWeightClassKg".to_owned(), JsonValue::Str(x.intended_weight_class_kg.clone())));
    fs.push(("equipment".to_owned(), JsonValue::Str(x.equipment.clone())));
    fs.push(("divisions".to_owned(), strs_to_json(&x.divisions)));
    fs.push(("events".to_owned(), strs_to_json(&x.events)));
    fs.push(("lot".to_owned(), JsonValue::Num(u32_to_text(x.lot))));
    fs.push(("memberId".to_owned(), JsonValue::Str(x.member_id.clone())));
    fs.push(("paid".to_owned(), JsonValue::Bool(x.paid)));
    fs.push(("team".to_owned(), JsonValue::Str(x.team.clone())));
    fs.push(("guest".to_owned(), JsonValue::Bool(x.guest)));
    fs.push(("instagram".to_owned(), (match &x.instagram { Some(s) => JsonValue::Str(s.clone()), None => JsonValue::Null })));
    fs.push(("notes".to_owned(), JsonValue::Str(x.notes.clone())));
    fs.push(("bodyweightKg".to_owned(), JsonValue::Num(weight_to_text(x.bodyweight_kg))));
    fs.push(("squatRackInfo".to_owned(), JsonValue::Str(x.squat_rack_info.clone())));
    fs.push(("benchRackInfo".to_owned(), JsonValue::Str(x.bench_rack_info.clone())));
    fs.push(("squatKg".to_owned(), weights_to_json(&x.squat_kg)));
    fs.push(("benchKg".to_owned(), weights_to_json(&x.bench_kg)));
    fs.push(("deadliftKg".to_owned(), weights_to_json(&x.deadlift_kg)));
    fs.push(("squatStatus".to_owned(), u32s_to_json(&x.squat_status)));
    fs.push(("benchStatus".to_owned(), u32s_to_json(&x.bench_status)));
    fs.push(("deadliftStatus".to_owned(), u32s_to_json(&x.deadlift_status)));
    proof {
        reveal_strlit("id");
        reveal_strlit("day");
        reveal_strlit("platform");
        reveal_strlit("flight");
        reveal_strlit("name");
        reveal_strlit("sex");
        reveal_strlit("birthDate");
        reveal_strlit("age");
        reveal_strlit("country");
        reveal_strlit("state");
        reveal_strlit("intendedWeightClassKg");
        reveal_strlit("equipment");
        reveal_strlit("divisions");
        reveal_strlit("events");
        reveal_strlit("lot");
        reveal_strlit("memberId");
        reveal_strlit("paid");
        reveal_strlit("team");
        reveal_strlit("guest");
        reveal_strlit("instagram");
        reveal_strlit("notes");
        reveal_strlit("bodyweightKg");
        reveal_strlit("squatRackInfo");
        reveal_strlit("benchRackInfo");
        reveal_strlit("squatKg");
        reveal_strlit("benchKg");
        reveal_strlit("deadliftKg");
        reveal_strlit("squatStatus");
        reveal_strlit("benchStatus");
        reveal_strlit("deadliftStatus");
        assert(("id"@).len() == 2);
        assert(("id"@)[0] == 'i');
        assert(("day"@).len() == 3);
        assert(("day"@)[0] == 'd');
        assert(("platform"@).len() == 8);
        assert(("platform"@)[0] == 'p');
        assert(("flight"@).len() == 6);
        assert(("flight"@)[0] == 'f');
        assert(("name"@).len() == 4);
        assert(("name"@)[0] == 'n');
        assert(("sex"@).len() == 3);
        assert(("sex"@)[0] == 's');
        assert(("birthDate"@).len() == 9);
        assert(("birthDate"@)[0] == 'b');
        assert(("age"@).len() == 3);
        assert(("age"@)[0] == 'a');
        assert(("country"@).len() == 7);
        assert(("country"@)[0] == 'c');
        assert(("state"@).len() == 5);
        assert(("state"@)[0] == 's');
        assert(("intendedWeightClassKg"@).len() == 21);
        assert(("intendedWeightClassKg"@)[0] == 'i');
        assert(("equipment"@).len() == 9);
        assert(("equipment"@)[0] == 'e');
        assert(("divisions"@).len() == 9);
        assert(("divisions"@)[0] == 'd');
        assert(("events"@).len() == 6);
        assert(("events"@)[0] == 'e');
        assert(("lot"@).len() == 3);
        assert(("lot"@)[0] == 'l');
        assert(("memberId"@).len() == 8);
        assert(("memberId"@)[0] == 'm');
        assert(("paid"@).len() == 4);
        assert(("paid"@)[0] == 'p');
        assert(("team"@).len() == 4);
        assert(("team"@)[0] == 't');
        assert(("guest"@).len() == 5);
        assert(("guest"@)[0] == 'g');
        assert(("instagram"@).len() == 9);
        assert(("instagram"@)[0] == 'i');
        assert(("notes"@).len() == 5);
        assert(("notes"@)[0] == 'n');
        assert(("bodyweightKg"@).len() == 12);
        assert(("bodyweightKg"@)[0] == 'b');
        assert(("squatRackInfo"@).len() == 13);
        assert(("squatRackInfo"@)[0] == 's');
        assert(("benchRackInfo"@).len() == 13);
        assert(("benchRackInfo"@)[0] == 'b');
        assert(("squatKg"@).len() == 7);
        assert(("squatKg"@)[0] == 's');
        assert(("benchKg"@).len() == 7);
        assert(("benchKg"@)[0] == 'b');
        assert(("deadliftKg"@).len() == 10);
        assert(("deadliftKg"@)[0] == 'd');
        assert(("squatStatus"@).len() == 11);
        assert(("squatStatus"@)[0] == 's');
        assert(("benchStatus"@).len() == 11);
        assert(("benchStatus"@)[0] == 'b');
        assert(("deadliftStatus"@).len() == 14);
        assert(("deadliftStatus"@)[0] == 'd');
        lemma_lookup_at(fs@, "id"@, 0);
        lemma_lookup_at(fs@, "day"@, 1);
        lemma_lookup_at(fs@, "platform"@, 2);
        lemma_lookup_at(fs@, "flight"@, 3);
        lemma_lookup_at(fs@, "name"@, 4);
        lemma_lookup_at(fs@, "sex"@, 5);
        lemma_lookup_at(fs@, "birthDate"@, 6);
        lemma_lookup_at(fs@, "age"@, 7);
        lemma_lookup_at(fs@, "country"@, 8);
        lemma_lookup_at(fs@, "state"@, 9);
        lemma_lookup_at(fs@, "intendedWeightClassKg"@, 10);
        lemma_lookup_at(fs@, "equipment"@, 11);
        lemma_lookup_at(fs@, "divisions"@, 12);
        lemma_lookup_at(fs@, "events"@, 13);
        lemma_lookup_at(fs@, "lot"@, 14);
        lemma_lookup_at(fs@, "memberId"@, 15);
        lemma_lookup_at(fs@, "paid"@, 16);
        lemma_lookup_at(fs@, "team"@, 17);
        lemma_lookup_at(fs@, "guest"@, 18);
        lemma_lookup_at(fs@, "instagram"@, 19);
        lemma_lookup_at(fs@, "notes"@, 20);
        lemma_lookup_at(fs@, "bodyweightKg"@, 21);
        lemma_lookup_at(fs@, "squatRackInfo"@, 22);
        lemma_lookup_at(fs@, "benchRackInfo"@, 23);
        lemma_lookup_at(fs@, "squatKg"@, 24);
        lemma_lookup_at(fs@, "benchKg"@, 25);
        lemma_lookup_at(fs@, "deadliftKg"@, 26);
        lemma_lookup_at(fs@, "squatStatus"@, 27);
        lemma_lookup_at(fs@, "benchStatus"@, 28);
        lemma_lookup_at(fs@, "deadliftStatus"@, 29);
        lemma_u32_round_trip(x.id);
        lemma_u32_round_trip(x.day);
        lemma_u32_round_trip(x.platform);
        lemma_u32_round_trip(x.age);
        lemma_u32_round_trip(x.lot);
        lemma_weight_round_trip(x.bodyweight_kg@);
    }
    fs
}

#[verifier::rlimit(100)]
#[verifier::spinoff_prover]
fn meet_fields(x: &MeetState) -> (fs: Vec<(String, JsonValue)>)
    requires
        meet_shape_wf(x.deep_view()),
    ensures
        parse_meet_v(fs@) == Some(x.deep_view()),
{
    let mut fs: Vec<(String, JsonValue)> = Vec::new();
    fs.push(("name".to_owned(), JsonValue::Str(x.name.clone())));
    fs.push(("country".to_owned(), JsonValue::Str(x.country.clone())));
    fs.push(("state".to_owned(), JsonValue::Str(x.state.clone())));
    fs.push(("city".to_owned(), JsonValue::Str(x.city.clone())));
    fs.push(("federation".to_owned(), JsonValue::Str(x.federation.clone())));
    fs.push(("date".to_owned(), JsonValue::Str(x.date.clone())));
    fs.push(("lengthDays".to_owned(), JsonValue::Num(u32_to_text(x.length_days))));
    fs.push(("platformsOnDays".to_owned(), u32s_to_json(&x.platforms_on_days)));
    fs.push(("ageCoefficients".to_owned(), JsonValue::Str(x.age_coefficients.clone())));
    fs.push(("divisions".to_owned(), strs_to_json(&x.divisions)));
    fs.push(("weightClassesKgMen".to_owned(), weights_to_json(&x.weight_classes_kg_men)));
    fs.push(("weightClassesKgWomen".to_owned(), weights_to_json(&x.weight_classes_kg_women)));
    fs.push(("weightClassesKgMx".to_owned(), weights_to_json(&x.weight_classes_kg_mx)));
    fs.push(("formula".to_owned(), JsonValue::Str(x.formula.clone())));
    fs.push(("combineSleevesAndWraps".to_owned(), JsonValue::Bool(x.combine_sleeves_and_wraps)));
    fs.push(("combineSingleAndMulti".to_owned(), JsonValue::Bool(x.combine_single_and_multi)));
    fs.push(("allow4thAttempts".to_owned(), JsonValue::Bool(x.allow_4th_attempts)));
    fs.push(("inKg".to_owned(), JsonValue::Bool(x.in_kg)));
    fs.push(("squatBarAndCollarsWeightKg".to_owned(), JsonValue::Num(weight_to_text(x.squat_bar_and_collars_weight_kg))));
    fs.push(("benchBarAndCollarsWeightKg".to_owned(), JsonValue::Num(weight_to_text(x.bench_bar_and_collars_weight_kg))));
    fs.push(("deadliftBarAndCollarsWeightKg".to_owned(), JsonValue::Num(weight_to_text(x.deadlift_bar_and_collars_weight_kg))));
    fs.push(("plates".to_owned(), plates_to_json(&x.plates)));
    fs.push(("showAlternateUnits".to_owned(), JsonValue::Bool(x.show_alternate_units)));
    proof {
        reveal_strlit("name");
        reveal_strlit("country");
        reveal_strlit("state");
        reveal_strlit("city");
        reveal_strlit("federation");
        reveal_strlit("date");
        reveal_strlit("lengthDays");
        reveal_strlit("platformsOnDays");
        reveal_strlit("ageCoefficients");
        reveal_strlit("divisions");
        reveal_strlit("weightClassesKgMen");
        reveal_strlit("weightClassesKgWomen");
        reveal_strlit("weightClassesKgMx");
        reveal_strlit("formula");
        reveal_strlit("combineSleevesAndWraps");
        reveal_strlit("combineSingleAndMulti");
        reveal_strlit("allow4thAttempts");
        reveal_strlit("inKg");
        reveal_strlit("squatBarAndCollarsWeightKg");
        reveal_strlit("benchBarAndCollarsWeightKg");
        reveal_strlit("deadliftBarAndCollarsWeightKg");
        reveal_strlit("plates");
        reveal_strlit("showAlternateUnits");
        assert(("name"@).len() == 4);
        assert(("name"@)[0] == 'n');
        assert(("country"@).len() == 7);
        assert(("country"@)[0] == 'c');
        assert(("state"@).len() == 5);
        assert(("state"@)[0] == 's');
        assert(("city"@).len() == 4);
        assert(("city"@)[0] == 'c');
        assert(("federation"@).len() == 10);
        assert(("federation"@)[0] == 'f');
        assert(("date"@).len() == 4);
        assert(("date"@)[0] == 'd');
        assert(("lengthDays"@).len() == 10);
        assert(("lengthDays"@)[0] == 'l');
        assert(("platformsOnDays"@).len() == 15);
        assert(("platformsOnDays"@)[0] == 'p');
        assert(("ageCoefficients"@).len() == 15);
        assert(("ageCoefficients"@)[0] == 'a');
        assert(("divisions"@).len() == 9);
        assert(("divisions"@)[0] == 'd');
        assert(("weightClassesKgMen"@).len() == 18);
        assert(("weightClassesKgMen"@)[0] == 'w');
        assert(("weightClassesKgWomen"@).len() == 20);
        assert(("weightClassesKgWomen"@)[0] == 'w');
        assert(("weightClassesKgMx"@).len() == 17);
        assert(("weightClassesKgMx"@)[0] == 'w');
        assert(("formula"@).len() == 7);
        assert(("formula"@)[0] == 'f');
        assert(("combineSleevesAndWraps"@).len() == 22);
        assert(("combineSleevesAndWraps"@)[0] == 'c');
        assert(("combineSingleAndMulti"@).len() == 21);
        assert(("combineSingleAndMulti"@)[0] == 'c');
        assert(("allow4thAttempts"@).len() == 16);
        assert(("allow4thAttempts"@)[0] == 'a');
        assert(("inKg"@).len() == 4);
        assert(("inKg"@)[0] == 'i');
        assert(("squatBarAndCollarsWeightKg"@).len() == 26);
        assert(("squatBarAndCollarsWeightKg"@)[0] == 's');
        assert(("benchBarAndCollarsWeightKg"@).len() == 26);
        assert(("benchBarAndCollarsWeightKg"@)[0] == 'b');
        assert(("deadliftBarAndCollarsWeightKg"@).len() == 29);
        assert(("deadliftBarAndCollarsWeightKg"@)[0] == 'd');
        assert(("plates"@).len() == 6);
        assert(("plates"@)[0] == 'p');
        assert(("showAlternateUnits"@).len() == 18);
        assert(("showAlternateUnits"@)[0] == 's');
        lemma_lookup_at(fs@, "name"@, 0);
        lemma_lookup_at(fs@, "country"@, 1);
        lemma_lookup_at(fs@, "state"@, 2);
        lemma_lookup_at(fs@, "city"@, 3);
        lemma_lookup_at(fs@, "federation"@, 4);
        lemma_lookup_at(fs@, "date"@, 5);
        lemma_lookup_at(fs@, "lengthDays"@, 6);
        lemma_lookup_at(fs@, "platformsOnDays"@, 7);
        lemma_lookup_at(fs@, "ageCoefficients"@, 8);
        lemma_lookup_at(fs@, "divisions"@, 9);
        lemma_lookup_at(fs@, "weightClassesKgMen"@, 10);
        lemma_lookup_at(fs@, "weightClassesKgWomen"@, 11);
        lemma_lookup_at(fs@, "weightClassesKgMx"@, 12);
        lemma_lookup_at(fs@, "formula"@, 13);
        lemma_lookup_at(fs@, "combineSleevesAndWraps"@, 14);
        lemma_lookup_at(fs@, "combineSingleAndMulti"@, 15);
        lemma_lookup_at(fs@, "allow4thAttempts"@, 16);
        lemma_lookup_at(fs@, "inKg"@, 17);
        lemma_lookup_at(fs@, "squatBarAndCollarsWeightKg"@, 18);
        lemma_lookup_at(fs@, "benchBarAndCollarsWeightKg"@, 19);
        lemma_lookup_at(fs@, "deadliftBarAndCollarsWeightKg"@, 20);
        lemma_lookup_at(fs@, "plates"@, 21);
        lemma_lookup_at(fs@, "showAlternateUnits"@, 22);
        lemma_u32_round_trip(x.length_days);
        lemma_weight_round_trip(x.squat_bar_and_collars_weight_kg@);
        lemma_weight_round_trip(x.bench_bar_and_collars_weight_kg@);
        lemma_weight_round_trip(x.deadlift_bar_and_collars_weight_kg@);
    }
    fs
}

#[verifier::rlimit(100)]
#[verifier::spinoff_prover]
fn registration_fields(x: &RegistrationState) -> (fs: Vec<(String, JsonValue)>)
    requires
        forall|i: int| 0 <= i < x.deep_view().entries.len() ==> entry_weights_wf(#[trigger] x.deep_view().entries[i]),
    ensures
        parse_registration_v(fs@) == Some(x.deep_view()),
{
    proof {
        assert forall|i: int| 0 <= i < x.entries.deep_view().len() implies entry_weights_wf(
            #[trigger] x.entries.deep_view()[i],
        ) by {
            assert(x.deep_view().entries[i] == x.entries.deep_view()[i]);
        }
    }
    let mut fs: Vec<(String, JsonValue)> = Vec::new();
    fs.push(("nextEntryId".to_owned(), JsonValue::Num(u32_to_text(x.next_entry_id))));
    fs.push(("entries".to_owned(), entries_to_json(&x.entries)));
    proof {
        reveal_strlit("nextEntryId");
        reveal_strlit("entries");
        assert(("nextEntryId"@).len() == 11);
        assert(("nextEntryId"@)[0] == 'n');
        assert(("entries"@).len() == 7);
        assert(("entries"@)[0] == 'e');
        lemma_lookup_at(fs@, "nextEntryId"@, 0);
        lemma_lookup_at(fs@, "entries"@, 1);
        lemma_u32_round_trip(x.next_entry_id);
    }
    fs
}

#[verifier::rlimit(100)]
#[verifier::spinoff_prover]
fn lifting_fields(x: &LiftingState) -> (fs: Vec<(String, JsonValue)>)
    requires
        weight_wf(x.deep_view().column_division_width_px),
    ensures
        parse_lifting_v(fs@) == Some(x.deep_view()),
{
    let mut fs: Vec<(String, JsonValue)> = Vec::new();
    fs.push(("day".to_owned(), JsonValue::Num(u32_to_text(x.day))));
    fs.push(("platform".to_owned(), JsonValue::Num(u32_to_text(x.platform))));
    fs.push(("flight".to_owned(), JsonValue::Str(x.flight.clone())));
    fs.push(("lift".to_owned(), JsonValue::Str(x.lift.clone())));
    fs.push(("overrideAttempt".to_owned(), (match x.override_attempt { Some(a) => JsonValue::Num(u32_to_text(a)), None => JsonValue::Null })));
    fs.push(("overrideEntryId".to_owned(), (match x.override_entry_id { Some(a) => JsonValue::Num(u32_to_text(a)), None => JsonValue::Null })));
    fs.push(("columnDivisionWidthPx".to_owned(), JsonValue::Num(weight_to_text(x.column_division_width_px))));
    proof {
        reveal_strlit("day");
        reveal_strlit("platform");
        reveal_strlit("flight");
        reveal_strlit("lift");
        reveal_strlit("overrideAttempt");
        reveal_strlit("overrideEntryId");
        reveal_strlit("columnDivisionWidthPx");
        assert(("day"@).len() == 3);
        assert(("day"@)[0] == 'd');
        assert(("platform"@).len() == 8);
        assert(("platform"@)[0] == 'p');
        assert(("flight"@).len() == 6);
        assert(("flight"@)[0] == 'f');
        assert(("lift"@).len() == 4);
        assert(("lift"@)[0] == 'l');
        assert(("overrideAttempt"@).len() == 15);
        assert(("overrideAttempt"@)[0] == 'o');
        assert(("overrideAttempt"@)[8] == 'A');
        assert(("overrideEntryId"@).len() == 15);
        assert(("overrideEntryId"@)[0] == 'o');
        assert(("overrideEntryId"@)[8] == 'E');
        assert(("columnDivisionWidthPx"@).len() == 21);
        assert(("columnDivisionWidthPx"@)[0] == 'c');
        lemma_lookup_at(fs@, "day"@, 0);
        lemma_lookup_at(fs@, "platform"@, 1);
        lemma_lookup_at(fs@, "flight"@, 2);
        lemma_lookup_at(fs@, "lift"@, 3);
        lemma_lookup_at(fs@, "overrideAttempt"@, 4);
        lemma_lookup_at(fs@, "overrideEntryId"@, 5);
        lemma_lookup_at(fs@, "columnDivisionWidthPx"@, 6);
        lemma_u32_round_trip(x.day);
        lemma_u32_round_trip(x.platform);
        if x.override_attempt is Some {
            lemma_u32_round_trip(x.override_attempt.unwrap());
        }
        if x.override_entry_id is Some {
            lemma_u32_round_trip(x.override_entry_id.unwrap());
        }
        lemma_weight_round_trip(x.column_division_width_px@);
    }
    fs
}

/// The canonical JSON-like tree of a well-formed document. Every field is
/// emitted; weights are printed canonically, so the tree reads back as
/// exactly this document.
#[verifier::rlimit(100)]
pub fn to_json(g: &GlobalState) -> (r: JsonValue)
    requires
        global_wf(g.deep_view()),
    ensures
        parse_global_v(r) == Some(g.deep_view()),
{
    proof {
        assert forall|i: int| 0 <= i < g.registration.entries.deep_view().len()
            implies entry_weights_wf(#[trigger] g.registration.entries.deep_view()[i]) by {
            assert(entry_wf(g.registration.entries.deep_view()[i], g.meet.deep_view()));
        }
    }
    let mut fs: Vec<(String, JsonValue)> = Vec::new();
    fs.push(("versions".to_owned(), JsonValue::Obj(versions_fields(&g.versions))));
    fs.push(("language".to_owned(), JsonValue::Str(g.language.clone())));
    fs.push(("meet".to_owned(), JsonValue::Obj(meet_fields(&g.meet))));
    fs.push(("registration".to_owned(), JsonValue::Obj(registration_fields(&g.registration))));
    fs.push(("lifting".to_owned(), JsonValue::Obj(lifting_fields(&g.lifting))));
    proof {
        reveal_strlit("versions");
        reveal_strlit("language");
        reveal_strlit("meet");
        reveal_strlit("registration");
        reveal_strlit("lifting");
        assert(("versions"@).len() == 8);
        assert(("versions"@)[0] == 'v');
        assert(("language"@).len() == 8);
        assert(("language"@)[0] == 'l');
        assert(("meet"@).len() == 4);
        assert(("meet"@)[0] == 'm');
        assert(("registration"@).len() == 12);
        assert(("registration"@)[0] == 'r');
        assert(("lifting"@).len() == 7);
        assert(("lifting"@)[0] == 'l');
        lemma_lookup_at(fs@, "versions"@, 0);
        lemma_lookup_at(fs@, "language"@, 1);
        lemma_lookup_at(fs@, "meet"@, 2);
        lemma_lookup_at(fs@, "registration"@, 3);
        lemma_lookup_at(fs@, "lifting"@, 4);
    }
    JsonValue::Obj(fs)
}

/// Round-trip law: validating the serialized form of a well-formed
/// document succeeds, and re-parsing yields a document equal to it
/// (equal deep views: the same field contents throughout).
pub fn round_trip(g: &GlobalState) -> (r: Result<GlobalState, Vec<ValidationError>>)
    requires
        global_wf(g.deep_view()),
    ensures
        r matches Ok(g2) && g2.deep_view() == g.deep_view(),
{
    let doc = to_json(g);
    validate_document(&doc)
}

} // verus!
