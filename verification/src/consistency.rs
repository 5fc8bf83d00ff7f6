//! Cross-field consistency checks. Every rule of the model's consistency
//! contract is checked, every violation found is reported (never only the
//! first), and the collected list is empty exactly when the document is
//! well formed.

use vstd::prelude::*;

use crate::errors::{entry_field_path, plate_field_path, section_field_path, FieldId, Ladder, Lift, Section, ValidationError};
use crate::model::{
    all_weights_wf, entries_wf, entry_wf, entry_with_id, flight_exists, global_wf, ladder_wf,
    lift_attempts_of, lift_lens_ok, max_attempts, meet_shape_wf, plates_wf, unique_ids,
    versions_wf, Entry, EntryV, GlobalState, LiftingState, MeetState, MeetV, VersionsState,
};
use crate::weight::{weight_wf, Weight, MAX_HUNDREDTHS};

verus! {

/// The attempt weights of one lift of an entry.
pub open spec fn kg_of(e: EntryV, lift: Lift) -> Seq<int> {
    match lift {
        Lift::Squat => e.squat_kg,
        Lift::Bench => e.bench_kg,
        Lift::Deadlift => e.deadlift_kg,
    }
}

/// The attempt statuses of one lift of an entry.
pub open spec fn st_of(e: EntryV, lift: Lift) -> Seq<u32> {
    match lift {
        Lift::Squat => e.squat_status,
        Lift::Bench => e.bench_status,
        Lift::Deadlift => e.deadlift_status,
    }
}

/// The selected weight-class ladder of a meet.
pub open spec fn ladder_of(m: MeetV, ladder: Ladder) -> Seq<int> {
    match ladder {
        Ladder::Men => m.weight_classes_kg_men,
        Ladder::Women => m.weight_classes_kg_women,
        Ladder::Mx => m.weight_classes_kg_mx,
    }
}

/// Earlier errors are kept in place when more are appended.
pub open spec fn extends(base: Seq<ValidationError>, cur: Seq<ValidationError>) -> bool {
    cur.len() >= base.len() && (forall|k: int| 0 <= k < base.len() ==> cur[k] == base[k]) && (
    forall|x: ValidationError| base.contains(x) ==> #[trigger] cur.contains(x))
}

/// Appends one error, keeping every error already collected.
pub fn push_err(errs: &mut Vec<ValidationError>, e: ValidationError)
    ensures
        final(errs)@.len() == old(errs)@.len() + 1,
        extends(old(errs)@, final(errs)@),
        final(errs)@.contains(e),
{
    let ghost pre = errs@;
    errs.push(e);
    proof {
        assert(errs@[pre.len() as int] == e);
        assert forall|x: ValidationError| pre.contains(x) implies errs@.contains(x) by {
            let k = choose|k: int| 0 <= k < pre.len() && pre[k] == x;
            assert(errs@[k] == x);
        }
    }
}

/// Every weight of the vector is representable.
fn weights_in_range(v: &Vec<Weight>) -> (b: bool)
    ensures
        b == all_weights_wf(v.deep_view()),
{
    let mut i: usize = 0;
    while i < v.len()
        invariant
            0 <= i <= v@.len(),
            forall|k: int| 0 <= k < i ==> weight_wf(#[trigger] v.deep_view()[k]),
        decreases v@.len() - i,
    {
        let h = v[i].hundredths;
        if h < -MAX_HUNDREDTHS || h > MAX_HUNDREDTHS {
            proof {
                assert(v.deep_view()[i as int] == v@[i as int]@);
                assert(!weight_wf(v.deep_view()[i as int]));
            }
            return false;
        }
        proof {
            assert(v.deep_view()[i as int] == v@[i as int]@);
        }
        i = i + 1;
    }
    true
}

/// Appends an error for each place a ladder fails to increase strictly.
fn ladder_errors(v: &Vec<Weight>, ladder: Ladder, errs: &mut Vec<ValidationError>)
    ensures
        extends(old(errs)@, final(errs)@),
        final(errs)@.len() == old(errs)@.len() <==> ladder_wf(v.deep_view()),
        forall|i: int|
            #![trigger v.deep_view()[i]]
            0 <= i && i + 1 < v.deep_view().len() && v.deep_view()[i] >= v.deep_view()[i + 1]
                ==> final(errs)@.contains(
                ValidationError::LadderNotIncreasing { ladder, index: i as usize },
            ),
{
    let ghost base = errs@;
    let ghost s = v.deep_view();
    let mut i: usize = 0;
    if v.len() == 0 {
        return ;
    }
    while i < v.len() - 1
        invariant
            v@.len() >= 1,
            0 <= i,
            i + 1 <= v@.len(),
            s == v.deep_view(),
            extends(base, errs@),
            errs@.len() == base.len() <==> (forall|k: int| 0 <= k && k + 1 < i + 1 ==> #[trigger] s[k] < s[k + 1]),
            forall|k: int|
                #![trigger s[k]]
                0 <= k && k + 1 < i + 1 && s[k] >= s[k + 1] ==> errs@.contains(
                    ValidationError::LadderNotIncreasing { ladder, index: k as usize },
                ),
        decreases v@.len() - i,
    {
        proof {
            assert(s[i as int] == v@[i as int]@);
            assert(s[i + 1] == v@[i + 1]@);
        }
        if v[i].hundredths >= v[i + 1].hundredths {
            push_err(errs, ValidationError::LadderNotIncreasing { ladder, index: i });
        }
        i = i + 1;
    }
}

/// Appends one error for each pair of entries that share an id.
#[verifier::rlimit(100)]
fn duplicate_errors(entries: &Vec<Entry>, errs: &mut Vec<ValidationError>)
    ensures
        extends(old(errs)@, final(errs)@),
        final(errs)@.len() == old(errs)@.len() <==> unique_ids(entries.deep_view()),
        forall|a: int, b: int|
            #![trigger entries.deep_view()[a], entries.deep_view()[b]]
            0 <= a < b < entries.deep_view().len() && entries.deep_view()[a].id
                == entries.deep_view()[b].id ==> final(errs)@.contains(
                ValidationError::DuplicateEntryId {
                    first: a as usize,
                    second: b as usize,
                    id: entries.deep_view()[a].id,
                },
            ),
{
    let ghost base = errs@;
    let ghost es = entries.deep_view();
    let n = entries.len();
    let mut j: usize = 0;
    while j < n
        invariant
            0 <= j <= n,
            n == entries@.len(),
            es == entries.deep_view(),
            extends(base, errs@),
            errs@.len() == base.len() <==> (forall|a: int, b: int|
                0 <= a < b < j ==> (#[trigger] es[a]).id != (#[trigger] es[b]).id),
            forall|a: int, b: int|
                0 <= a < b < j && (#[trigger] es[a]).id == (#[trigger] es[b]).id
                    ==> errs@.contains(
                    ValidationError::DuplicateEntryId {
                        first: a as usize,
                        second: b as usize,
                        id: es[a].id,
                    },
                ),
        decreases n - j,
    {
        let mut i: usize = 0;
        while i < j
            invariant
                0 <= i <= j < n,
                n == entries@.len(),
                es == entries.deep_view(),
                extends(base, errs@),
                errs@.len() == base.len() <==> ((forall|a: int, b: int|
                    0 <= a < b < j ==> (#[trigger] es[a]).id != (#[trigger] es[b]).id) && (
                forall|a: int| 0 <= a < i ==> (#[trigger] es[a]).id != es[j as int].id)),
                forall|a: int, b: int|
                    0 <= a < b < j && (#[trigger] es[a]).id == (#[trigger] es[b]).id
                        ==> errs@.contains(
                        ValidationError::DuplicateEntryId {
                            first: a as usize,
                            second: b as usize,
                            id: es[a].id,
                        },
                    ),
                forall|a: int|
                    0 <= a < i && (#[trigger] es[a]).id == es[j as int].id ==> errs@.contains(
                        ValidationError::DuplicateEntryId {
                            first: a as usize,
                            second: j as usize,
                            id: es[a].id,
                        },
                    ),
            decreases j - i,
        {
            proof {
                assert(es[i as int] == entries@[i as int].deep_view());
                assert(es[j as int] == entries@[j as int].deep_view());
            }
            if entries[i].id == entries[j].id {
                let e = ValidationError::DuplicateEntryId {
                    first: i,
                    second: j,
                    id: entries[i].id,
                };
                push_err(errs, e);
            }
            i = i + 1;
        }
        j = j + 1;
    }
}

/// Appends one error for each entry id not below `nextEntryId`.
fn id_range_errors(next_entry_id: u32, entries: &Vec<Entry>, errs: &mut Vec<ValidationError>)
    ensures
        extends(old(errs)@, final(errs)@),
        final(errs)@.len() == old(errs)@.len() <==> (forall|i: int|
            0 <= i < entries.deep_view().len() ==> (#[trigger] entries.deep_view()[i]).id
                < next_entry_id),
{
    let ghost base = errs@;
    let ghost es = entries.deep_view();
    let mut i: usize = 0;
    while i < entries.len()
        invariant
            0 <= i <= entries@.len(),
            es == entries.deep_view(),
            extends(base, errs@),
            errs@.len() == base.len() <==> (forall|k: int|
                0 <= k < i ==> (#[trigger] es[k]).id < next_entry_id),
        decreases entries@.len() - i,
    {
        proof {
            assert(es[i as int] == entries@[i as int].deep_view());
        }
        if entries[i].id >= next_entry_id {
            push_err(errs, 
                ValidationError::EntryIdTooLarge {
                    index: i,
                    id: entries[i].id,
                    next_entry_id,
                },
            );
        }
        i = i + 1;
    }
}

/// Appends the length errors of one lift of one entry.
fn lift_errors(
    index: usize,
    lift: Lift,
    kg: &Vec<Weight>,
    st: &Vec<u32>,
    max: usize,
    errs: &mut Vec<ValidationError>,
)
    ensures
        extends(old(errs)@, final(errs)@),
        final(errs)@.len() == old(errs)@.len() <==> lift_lens_ok(
            kg.deep_view(),
            st.deep_view(),
            max as int,
        ),
        kg.deep_view().len() != st.deep_view().len() ==> final(errs)@.contains(
            ValidationError::AttemptLengthMismatch {
                index,
                lift,
                kg_len: kg@.len() as usize,
                status_len: st@.len() as usize,
            },
        ),
{
    if kg.len() != st.len() {
        push_err(errs, 
            ValidationError::AttemptLengthMismatch {
                index,
                lift,
                kg_len: kg.len(),
                status_len: st.len(),
            },
        );
    }
    if kg.len() > max {
        push_err(errs, ValidationError::TooManyAttempts { index, lift, len: kg.len(), max });
    }
}

/// Appends the attempt-shape, schedule, and weight-range errors of every
/// entry.
#[verifier::rlimit(100)]
fn entry_errors(entries: &Vec<Entry>, m: &MeetState, errs: &mut Vec<ValidationError>)
    ensures
        extends(old(errs)@, final(errs)@),
        final(errs)@.len() == old(errs)@.len() <==> entries_wf(
            entries.deep_view(),
            m.deep_view(),
        ),
        forall|i: int, lift: Lift|
            #![trigger kg_of(entries.deep_view()[i], lift)]
            0 <= i < entries.deep_view().len() && kg_of(entries.deep_view()[i], lift).len()
                != st_of(entries.deep_view()[i], lift).len() ==> final(errs)@.contains(
                ValidationError::AttemptLengthMismatch {
                    index: i as usize,
                    lift,
                    kg_len: kg_of(entries.deep_view()[i], lift).len() as usize,
                    status_len: st_of(entries.deep_view()[i], lift).len() as usize,
                },
            ),
{
    let ghost base = errs@;
    let ghost es = entries.deep_view();
    let ghost mv = m.deep_view();
    let max: usize = if m.allow_4th_attempts {
        4
    } else {
        3
    };
    let mut i: usize = 0;
    while i < entries.len()
        invariant
            0 <= i <= entries@.len(),
            es == entries.deep_view(),
            mv == m.deep_view(),
            max as int == max_attempts(mv.allow_4th_attempts),
            extends(base, errs@),
            errs@.len() == base.len() <==> (forall|k: int|
                0 <= k < i ==> entry_wf(#[trigger] es[k], mv)),
            forall|k: int, lift: Lift|
                #![trigger kg_of(es[k], lift)]
                0 <= k < i && kg_of(es[k], lift).len() != st_of(es[k], lift).len()
                    ==> errs@.contains(
                    ValidationError::AttemptLengthMismatch {
                        index: k as usize,
                        lift,
                        kg_len: kg_of(es[k], lift).len() as usize,
                        status_len: st_of(es[k], lift).len() as usize,
                    },
                ),
        decreases entries@.len() - i,
    {
        proof {
            assert(es[i as int] == entries@[i as int].deep_view());
        }
        let ghost before: nat = errs@.len();
        let e = &entries[i];
        lift_errors(i, Lift::Squat, &e.squat_kg, &e.squat_status, max, errs);
        lift_errors(i, Lift::Bench, &e.bench_kg, &e.bench_status, max, errs);
        lift_errors(i, Lift::Deadlift, &e.deadlift_kg, &e.deadlift_status, max, errs);
        // schedule coordinates
        let day_ok = 1 <= e.day && e.day <= m.length_days;
        if !day_ok {
            push_err(errs, 
                ValidationError::EntryDayOutOfRange {
                    index: i,
                    day: e.day,
                    length_days: m.length_days,
                },
            );
        }
        let plat_count: Option<u32> = if e.day >= 1 && ((e.day - 1) as usize)
            < m.platforms_on_days.len() {
            Some(m.platforms_on_days[(e.day - 1) as usize])
        } else {
            None
        };
        match plat_count {
            Some(c) => {
                if !(1 <= e.platform && e.platform <= c) {
                    push_err(errs, 
                        ValidationError::EntryPlatformOutOfRange {
                            index: i,
                            platform: e.platform,
                            platforms: c,
                        },
                    );
                }
            },
            None => {
                push_err(errs, 
                    ValidationError::EntryPlatformOutOfRange {
                        index: i,
                        platform: e.platform,
                        platforms: 0,
                    },
                );
            },
        }
        proof {
            assert(mv.platforms_on_days.len() == m.platforms_on_days@.len());
            assert(forall|k: int|
                0 <= k < mv.platforms_on_days.len() ==> mv.platforms_on_days[k]
                    == m.platforms_on_days@[k]);
        }
        // representable weights
        let bw = e.bodyweight_kg.hundredths;
        if bw < -MAX_HUNDREDTHS || bw > MAX_HUNDREDTHS {
            push_err(errs, 
                ValidationError::WeightOutOfRange { path: entry_field_path(i, FieldId::BodyweightKg) },
            );
        }
        if !weights_in_range(&e.squat_kg) {
            push_err(errs, 
                ValidationError::WeightOutOfRange { path: entry_field_path(i, FieldId::SquatKg) },
            );
        }
        if !weights_in_range(&e.bench_kg) {
            push_err(errs, 
                ValidationError::WeightOutOfRange { path: entry_field_path(i, FieldId::BenchKg) },
            );
        }
        if !weights_in_range(&e.deadlift_kg) {
            push_err(errs, 
                ValidationError::WeightOutOfRange {
                    path: entry_field_path(i, FieldId::DeadliftKg),
                },
            );
        }
        proof {
            assert(errs@.len() == before <==> entry_wf(es[i as int], mv));
        }
        i = i + 1;
    }
}

/// Appends the platform-count errors.
fn pod_errors(m: &MeetState, errs: &mut Vec<ValidationError>)
    ensures
        extends(old(errs)@, final(errs)@),
        final(errs)@.len() == old(errs)@.len() <==> (m.deep_view().platforms_on_days.len()
            == m.deep_view().length_days && (forall|i: int|
            0 <= i < m.deep_view().platforms_on_days.len()
                ==> #[trigger] m.deep_view().platforms_on_days[i] >= 1)),
{
    let ghost base = errs@;
    let ghost mv = m.deep_view();
    if m.platforms_on_days.len() != m.length_days as usize {
        push_err(
            errs,
            ValidationError::PlatformsOnDaysWrongLength {
                length_days: m.length_days,
                actual: m.platforms_on_days.len(),
            },
        );
    }
    let ghost after_len = errs@;
    let mut i: usize = 0;
    while i < m.platforms_on_days.len()
        invariant
            0 <= i <= m.platforms_on_days@.len(),
            mv == m.deep_view(),
            extends(base, errs@),
            extends(after_len, errs@),
            after_len.len() >= base.len(),
            after_len.len() == base.len() <==> mv.platforms_on_days.len() == mv.length_days,
            errs@.len() == after_len.len() <==> (forall|k: int|
                0 <= k < i ==> #[trigger] mv.platforms_on_days[k] >= 1),
        decreases m.platforms_on_days@.len() - i,
    {
        proof {
            assert(mv.platforms_on_days[i as int] == m.platforms_on_days@[i as int]);
        }
        if m.platforms_on_days[i] < 1 {
            push_err(errs, ValidationError::PlatformCountZero { day_index: i });
        }
        i = i + 1;
    }
}

/// Appends an error for each configured weight out of range: the three
/// bar-and-collar weights and the three weight-class ladders.
fn bar_weight_errors(m: &MeetState, errs: &mut Vec<ValidationError>)
    ensures
        extends(old(errs)@, final(errs)@),
        final(errs)@.len() == old(errs)@.len() <==> (weight_wf(
            m.deep_view().squat_bar_and_collars_weight_kg,
        ) && weight_wf(m.deep_view().bench_bar_and_collars_weight_kg) && weight_wf(
            m.deep_view().deadlift_bar_and_collars_weight_kg,
        ) && all_weights_wf(m.deep_view().weight_classes_kg_men) && all_weights_wf(
            m.deep_view().weight_classes_kg_women,
        ) && all_weights_wf(m.deep_view().weight_classes_kg_mx)),
{
    if !weights_in_range(&m.weight_classes_kg_men) {
        push_err(
            errs,
            ValidationError::WeightOutOfRange {
                path: section_field_path(Section::Meet, FieldId::WeightClassesKgMen),
            },
        );
    }
    if !weights_in_range(&m.weight_classes_kg_women) {
        push_err(
            errs,
            ValidationError::WeightOutOfRange {
                path: section_field_path(Section::Meet, FieldId::WeightClassesKgWomen),
            },
        );
    }
    if !weights_in_range(&m.weight_classes_kg_mx) {
        push_err(
            errs,
            ValidationError::WeightOutOfRange {
                path: section_field_path(Section::Meet, FieldId::WeightClassesKgMx),
            },
        );
    }
    let sq = m.squat_bar_and_collars_weight_kg.hundredths;
    if sq < -MAX_HUNDREDTHS || sq > MAX_HUNDREDTHS {
        push_err(
            errs,
            ValidationError::WeightOutOfRange {
                path: section_field_path(Section::Meet, FieldId::SquatBarAndCollarsWeightKg),
            },
        );
    }
    let be = m.bench_bar_and_collars_weight_kg.hundredths;
    if be < -MAX_HUNDREDTHS || be > MAX_HUNDREDTHS {
        push_err(
            errs,
            ValidationError::WeightOutOfRange {
                path: section_field_path(Section::Meet, FieldId::BenchBarAndCollarsWeightKg),
            },
        );
    }
    let dl = m.deadlift_bar_and_collars_weight_kg.hundredths;
    if dl < -MAX_HUNDREDTHS || dl > MAX_HUNDREDTHS {
        push_err(
            errs,
            ValidationError::WeightOutOfRange {
                path: section_field_path(Section::Meet, FieldId::DeadliftBarAndCollarsWeightKg),
            },
        );
    }
}

/// Appends an error for each plate whose weight is out of range.
fn plate_errors(m: &MeetState, errs: &mut Vec<ValidationError>)
    ensures
        extends(old(errs)@, final(errs)@),
        final(errs)@.len() == old(errs)@.len() <==> plates_wf(m.deep_view().plates),
{
    let ghost base = errs@;
    let ghost mv = m.deep_view();
    let mut p: usize = 0;
    while p < m.plates.len()
        invariant
            0 <= p <= m.plates@.len(),
            mv == m.deep_view(),
            extends(base, errs@),
            errs@.len() == base.len() <==> (forall|k: int|
                0 <= k < p ==> weight_wf((#[trigger] mv.plates[k]).weight_kg)),
        decreases m.plates@.len() - p,
    {
        proof {
            assert(mv.plates[p as int] == m.plates@[p as int].deep_view());
        }
        let h = m.plates[p].weight_kg.hundredths;
        if h < -MAX_HUNDREDTHS || h > MAX_HUNDREDTHS {
            push_err(
                errs,
                ValidationError::WeightOutOfRange {
                    path: plate_field_path(p, FieldId::WeightKg),
                },
            );
        }
        p = p + 1;
    }
}

/// Appends the meet-shape errors: platform counts, ladders, and the
/// configured weights.
#[verifier::rlimit(100)]
fn meet_errors(m: &MeetState, errs: &mut Vec<ValidationError>)
    ensures
        extends(old(errs)@, final(errs)@),
        final(errs)@.len() == old(errs)@.len() <==> meet_shape_wf(m.deep_view()),
        forall|ladder: Ladder, i: int|
            #![trigger ladder_of(m.deep_view(), ladder)[i]]
            0 <= i && i + 1 < ladder_of(m.deep_view(), ladder).len() && ladder_of(
                m.deep_view(),
                ladder,
            )[i] >= ladder_of(m.deep_view(), ladder)[i + 1] ==> final(errs)@.contains(
                ValidationError::LadderNotIncreasing { ladder, index: i as usize },
            ),
{
    pod_errors(m, errs);
    ladder_errors(&m.weight_classes_kg_men, Ladder::Men, errs);
    ladder_errors(&m.weight_classes_kg_women, Ladder::Women, errs);
    ladder_errors(&m.weight_classes_kg_mx, Ladder::Mx, errs);
    bar_weight_errors(m, errs);
    plate_errors(m, errs);
    proof {
        assert forall|ladder: Ladder, i: int|
            #![trigger ladder_of(m.deep_view(), ladder)[i]]
            0 <= i && i + 1 < ladder_of(m.deep_view(), ladder).len() && ladder_of(
                m.deep_view(),
                ladder,
            )[i] >= ladder_of(m.deep_view(), ladder)[i + 1] implies errs@.contains(
            ValidationError::LadderNotIncreasing { ladder, index: i as usize },
        ) by {
            match ladder {
                Ladder::Men => {},
                Ladder::Women => {},
                Ladder::Mx => {},
            }
        }
    }
}

/// Appends an error for each empty version identifier.
fn versions_errors(v: &VersionsState, errs: &mut Vec<ValidationError>)
    ensures
        extends(old(errs)@, final(errs)@),
        final(errs)@.len() == old(errs)@.len() <==> versions_wf(v.deep_view()),
{
    if v.state_version.as_str().is_empty() {
        push_err(errs, ValidationError::EmptyVersion { field: FieldId::StateVersion });
    }
    if v.release_version.as_str().is_empty() {
        push_err(errs, ValidationError::EmptyVersion { field: FieldId::ReleaseVersion });
    }
}

/// Whether some entry lifts in the given day/platform/flight.
fn find_flight(entries: &Vec<Entry>, day: u32, platform: u32, flight: &String) -> (b: bool)
    ensures
        b == flight_exists(entries.deep_view(), day, platform, flight@),
{
    let mut i: usize = 0;
    while i < entries.len()
        invariant
            0 <= i <= entries@.len(),
            forall|k: int|
                0 <= k < i ==> !((#[trigger] entries.deep_view()[k]).day == day
                    && entries.deep_view()[k].platform == platform && entries.deep_view()[k].flight
                    == flight@),
        decreases entries@.len() - i,
    {
        proof {
            assert(entries.deep_view()[i as int] == entries@[i as int].deep_view());
        }
        if entries[i].day == day && entries[i].platform == platform && entries[i].flight
            == *flight {
            return true;
        }
        i = i + 1;
    }
    false
}

/// Whether some entry carries the given id.
fn find_entry_id(entries: &Vec<Entry>, id: u32) -> (b: bool)
    ensures
        b == entry_with_id(entries.deep_view(), id),
{
    let mut i: usize = 0;
    while i < entries.len()
        invariant
            0 <= i <= entries@.len(),
            forall|k: int| 0 <= k < i ==> (#[trigger] entries.deep_view()[k]).id != id,
        decreases entries@.len() - i,
    {
        proof {
            assert(entries.deep_view()[i as int] == entries@[i as int].deep_view());
        }
        if entries[i].id == id {
            return true;
        }
        i = i + 1;
    }
    false
}

/// Appends the lifting-cursor errors.
#[verifier::rlimit(100)]
fn lifting_errors(
    l: &LiftingState,
    m: &MeetState,
    entries: &Vec<Entry>,
    errs: &mut Vec<ValidationError>,
)
    ensures
        extends(old(errs)@, final(errs)@),
        final(errs)@.len() == old(errs)@.len() <==> crate::model::lifting_wf(
            l.deep_view(),
            m.deep_view(),
            entries.deep_view(),
        ),
{
    let ghost lv = l.deep_view();
    let ghost mv = m.deep_view();
    let ghost es = entries.deep_view();
    if !(1 <= l.day && l.day <= m.length_days) {
        push_err(errs, 
            ValidationError::LiftingDayOutOfRange { day: l.day, length_days: m.length_days },
        );
    }
    proof {
        assert(mv.platforms_on_days.len() == m.platforms_on_days@.len());
    }
    let plat_count: Option<u32> = if l.day >= 1 && ((l.day - 1) as usize)
        < m.platforms_on_days.len() {
        proof {
            assert(mv.platforms_on_days[l.day - 1] == m.platforms_on_days@[l.day - 1]);
        }
        Some(m.platforms_on_days[(l.day - 1) as usize])
    } else {
        None
    };
    match plat_count {
        Some(c) => {
            if !(1 <= l.platform && l.platform <= c) {
                push_err(errs, 
                    ValidationError::LiftingPlatformOutOfRange { platform: l.platform, platforms: c },
                );
            }
        },
        None => {
            push_err(errs, 
                ValidationError::LiftingPlatformOutOfRange { platform: l.platform, platforms: 0 },
            );
        },
    }
    if !find_flight(entries, l.day, l.platform, &l.flight) {
        push_err(errs, ValidationError::LiftingFlightMissing);
    }
    let px = l.column_division_width_px.hundredths;
    if px < -MAX_HUNDREDTHS || px > MAX_HUNDREDTHS {
        push_err(errs, 
            ValidationError::WeightOutOfRange {
                path: section_field_path(Section::Lifting, FieldId::ColumnDivisionWidthPx),
            },
        );
    }
    match (l.override_entry_id, l.override_attempt) {
        (None, None) => {},
        (None, Some(a)) => {
            push_err(errs, ValidationError::OverrideAttemptWithoutEntry { attempt: a });
        },
        (Some(id), None) => {
            if !find_entry_id(entries, id) {
                push_err(errs, ValidationError::OverrideEntryMissing { id });
            }
        },
        (Some(id), Some(a)) => {
            if !find_entry_id(entries, id) {
                push_err(errs, ValidationError::OverrideEntryMissing { id });
            } else {
                let is_s = compare_str(&l.lift, "S");
                let is_b = compare_str(&l.lift, "B");
                let is_d = compare_str(&l.lift, "D");
                if !(is_s || is_b || is_d) {
                    push_err(errs, ValidationError::UnknownLift);
                } else {
                    let mut found: bool = false;
                    let mut attempts: usize = 0;
                    let mut i: usize = 0;
                    while i < entries.len()
                        invariant
                            0 <= i <= entries@.len(),
                            es == entries.deep_view(),
                            lv == l.deep_view(),
                            is_s == (lv.lift == "S"@),
                            is_b == (lv.lift == "B"@),
                            is_d == (lv.lift == "D"@),
                            is_s || is_b || is_d,
                            found <==> (exists|k: int|
                                0 <= k < i && (#[trigger] es[k]).id == id && 1 <= a
                                    && a <= lift_attempts_of(es[k], lv.lift)),
                        decreases entries@.len() - i,
                    {
                        proof {
                            assert(es[i as int] == entries@[i as int].deep_view());
                        }
                        if entries[i].id == id {
                            let att: usize = if is_s {
                                entries[i].squat_kg.len()
                            } else if is_b {
                                entries[i].bench_kg.len()
                            } else {
                                entries[i].deadlift_kg.len()
                            };
                            proof {
                                assert(att as int == lift_attempts_of(es[i as int], lv.lift));
                            }
                            attempts = att;
                            if 1 <= a && (a as usize) <= att {
                                found = true;
                            }
                        }
                        i = i + 1;
                    }
                    if !found {
                        push_err(errs, 
                            ValidationError::OverrideAttemptOutOfRange { attempt: a, attempts },
                        );
                    }
                }
            }
        },
    }
}

/// String equality against a literal code.
fn compare_str(s: &String, lit: &str) -> (b: bool)
    ensures
        b == (s@ == lit@),
{
    let other: String = lit.to_owned();
    *s == other
}

/// Checks every consistency rule of the document and returns every
/// violation found; the result is empty exactly when the document is
/// well formed.
pub fn check_consistency(g: &GlobalState) -> (errs: Vec<ValidationError>)
    ensures
        errs@.len() == 0 <==> global_wf(g.deep_view()),
        forall|a: int, b: int|
            #![trigger g.registration.entries.deep_view()[a], g.registration.entries.deep_view()[b]]
            0 <= a < b < g.registration.entries.deep_view().len()
                && g.registration.entries.deep_view()[a].id
                == g.registration.entries.deep_view()[b].id ==> errs@.contains(
                ValidationError::DuplicateEntryId {
                    first: a as usize,
                    second: b as usize,
                    id: g.registration.entries.deep_view()[a].id,
                },
            ),
        forall|i: int, lift: Lift|
            #![trigger kg_of(g.registration.entries.deep_view()[i], lift)]
            0 <= i < g.registration.entries.deep_view().len() && kg_of(
                g.registration.entries.deep_view()[i],
                lift,
            ).len() != st_of(g.registration.entries.deep_view()[i], lift).len()
                ==> errs@.contains(
                ValidationError::AttemptLengthMismatch {
                    index: i as usize,
                    lift,
                    kg_len: kg_of(g.registration.entries.deep_view()[i], lift).len() as usize,
                    status_len: st_of(g.registration.entries.deep_view()[i], lift).len() as usize,
                },
            ),
        forall|ladder: Ladder, i: int|
            #![trigger ladder_of(g.meet.deep_view(), ladder)[i]]
            0 <= i && i + 1 < ladder_of(g.meet.deep_view(), ladder).len() && ladder_of(
                g.meet.deep_view(),
                ladder,
            )[i] >= ladder_of(g.meet.deep_view(), ladder)[i + 1] ==> errs@.contains(
                ValidationError::LadderNotIncreasing { ladder, index: i as usize },
            ),
{
    let mut errs: Vec<ValidationError> = Vec::new();
    versions_errors(&g.versions, &mut errs);
    meet_errors(&g.meet, &mut errs);
    duplicate_errors(&g.registration.entries, &mut errs);
    id_range_errors(g.registration.next_entry_id, &g.registration.entries, &mut errs);
    entry_errors(&g.registration.entries, &g.meet, &mut errs);
    lifting_errors(&g.lifting, &g.meet, &g.registration.entries, &mut errs);
    errs
}

} // verus!
