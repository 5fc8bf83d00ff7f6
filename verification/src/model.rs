//! The document model: a meet's full state and its well-formedness rules.
//! Classification strings (sex, equipment, divisions, events, ...) are
//! deliberately free-form — federations rename categories — so the model
//! constrains only shape and cross-field consistency, never vocabulary.

use vstd::prelude::*;

use crate::weight::{weight_wf, Weight};

verus! {

/// Schema/release identifiers of the authoring client.
#[derive(Debug, Clone)]
pub struct VersionsState {
    pub state_version: String,
    pub release_version: String,
}

/// One lifter's registration and live attempt data.
#[derive(Debug, Clone)]
pub struct Entry {
    pub id: u32,
    pub day: u32,
    pub platform: u32,
    pub flight: String,
    pub name: String,
    pub sex: String,
    pub birth_date: String,
    pub age: u32,
    pub country: String,
    pub state: String,
    pub intended_weight_class_kg: String,
    pub equipment: String,
    pub divisions: Vec<String>,
    pub events: Vec<String>,
    pub lot: u32,
    pub member_id: String,
    pub paid: bool,
    pub team: String,
    pub guest: bool,
    pub instagram: Option<String>,
    pub notes: String,
    pub bodyweight_kg: Weight,
    pub squat_rack_info: String,
    pub bench_rack_info: String,
    pub squat_kg: Vec<Weight>,
    pub bench_kg: Vec<Weight>,
    pub deadlift_kg: Vec<Weight>,
    pub squat_status: Vec<u32>,
    pub bench_status: Vec<u32>,
    pub deadlift_status: Vec<u32>,
}

/// One entry in the meet's plate-loading inventory.
#[derive(Debug, Clone)]
pub struct Plate {
    pub weight_kg: Weight,
    pub pair_count: u32,
    pub color: String,
}

/// Sanction metadata, competition rules, and loading setup.
#[derive(Debug, Clone)]
pub struct MeetState {
    pub name: String,
    pub country: String,
    pub state: String,
    pub city: String,
    pub federation: String,
    pub date: String,
    pub length_days: u32,
    pub platforms_on_days: Vec<u32>,
    pub age_coefficients: String,
    pub divisions: Vec<String>,
    pub weight_classes_kg_men: Vec<Weight>,
    pub weight_classes_kg_women: Vec<Weight>,
    pub weight_classes_kg_mx: Vec<Weight>,
    pub formula: String,
    pub combine_sleeves_and_wraps: bool,
    pub combine_single_and_multi: bool,
    pub allow_4th_attempts: bool,
    pub in_kg: bool,
    pub squat_bar_and_collars_weight_kg: Weight,
    pub bench_bar_and_collars_weight_kg: Weight,
    pub deadlift_bar_and_collars_weight_kg: Weight,
    pub plates: Vec<Plate>,
    pub show_alternate_units: bool,
}

/// The roster and the id the authoring side will assign next.
#[derive(Debug, Clone)]
pub struct RegistrationState {
    pub next_entry_id: u32,
    pub entries: Vec<Entry>,
}

/// The "now lifting" cursor. The one decimal display field is held as a
/// fixed-precision decimal, never binary floating point.
#[derive(Debug, Clone)]
pub struct LiftingState {
    pub day: u32,
    pub platform: u32,
    pub flight: String,
    pub lift: String,
    pub override_attempt: Option<u32>,
    pub override_entry_id: Option<u32>,
    pub column_division_width_px: Weight,
}

/// The root aggregate: the unit of synchronization.
#[derive(Debug, Clone)]
pub struct GlobalState {
    pub versions: VersionsState,
    pub language: String,
    pub meet: MeetState,
    pub registration: RegistrationState,
    pub lifting: LiftingState,
}

// Mathematical mirrors: the deep views the contracts speak of.

pub struct VersionsV {
    pub state_version: Seq<char>,
    pub release_version: Seq<char>,
}

pub struct EntryV {
    pub id: u32,
    pub day: u32,
    pub platform: u32,
    pub flight: Seq<char>,
    pub name: Seq<char>,
    pub sex: Seq<char>,
    pub birth_date: Seq<char>,
    pub age: u32,
    pub country: Seq<char>,
    pub state: Seq<char>,
    pub intended_weight_class_kg: Seq<char>,
    pub equipment: Seq<char>,
    pub divisions: Seq<Seq<char>>,
    pub events: Seq<Seq<char>>,
    pub lot: u32,
    pub member_id: Seq<char>,
    pub paid: bool,
    pub team: Seq<char>,
    pub guest: bool,
    pub instagram: Option<Seq<char>>,
    pub notes: Seq<char>,
    pub bodyweight_kg: int,
    pub squat_rack_info: Seq<char>,
    pub bench_rack_info: Seq<char>,
    pub squat_kg: Seq<int>,
    pub bench_kg: Seq<int>,
    pub deadlift_kg: Seq<int>,
    pub squat_status: Seq<u32>,
    pub bench_status: Seq<u32>,
    pub deadlift_status: Seq<u32>,
}

pub struct PlateV {
    pub weight_kg: int,
    pub pair_count: u32,
    pub color: Seq<char>,
}

pub struct MeetV {
    pub name: Seq<char>,
    pub country: Seq<char>,
    pub state: Seq<char>,
    pub city: Seq<char>,
    pub federation: Seq<char>,
    pub date: Seq<char>,
    pub length_days: u32,
    pub platforms_on_days: Seq<u32>,
    pub age_coefficients: Seq<char>,
    pub divisions: Seq<Seq<char>>,
    pub weight_classes_kg_men: Seq<int>,
    pub weight_classes_kg_women: Seq<int>,
    pub weight_classes_kg_mx: Seq<int>,
    pub formula: Seq<char>,
    pub combine_sleeves_and_wraps: bool,
    pub combine_single_and_multi: bool,
    pub allow_4th_attempts: bool,
    pub in_kg: bool,
    pub squat_bar_and_collars_weight_kg: int,
    pub bench_bar_and_collars_weight_kg: int,
    pub deadlift_bar_and_collars_weight_kg: int,
    pub plates: Seq<PlateV>,
    pub show_alternate_units: bool,
}

pub struct RegistrationV {
    pub next_entry_id: u32,
    pub entries: Seq<EntryV>,
}

pub struct LiftingV {
    pub day: u32,
    pub platform: u32,
    pub flight: Seq<char>,
    pub lift: Seq<char>,
    pub override_attempt: Option<u32>,
    pub override_entry_id: Option<u32>,
    pub column_division_width_px: int,
}

pub struct GlobalV {
    pub versions: VersionsV,
    pub language: Seq<char>,
    pub meet: MeetV,
    pub registration: RegistrationV,
    pub lifting: LiftingV,
}

impl DeepView for VersionsState {
    type V = VersionsV;

    open spec fn deep_view(&self) -> VersionsV {
        VersionsV {
            state_version: self.state_version@,
            release_version: self.release_version@,
        }
    }
}

impl DeepView for Entry {
    type V = EntryV;

    open spec fn deep_view(&self) -> EntryV {
        EntryV {
            id: self.id,
            day: self.day,
            platform: self.platform,
            flight: self.flight@,
            name: self.name@,
            sex: self.sex@,
            birth_date: self.birth_date@,
            age: self.age,
            country: self.country@,
            state: self.state@,
            intended_weight_class_kg: self.intended_weight_class_kg@,
            equipment: self.equipment@,
            divisions: self.divisions.deep_view(),
            events: self.events.deep_view(),
            lot: self.lot,
            member_id: self.member_id@,
            paid: self.paid,
            team: self.team@,
            guest: self.guest,
            instagram: self.instagram.deep_view(),
            notes: self.notes@,
            bodyweight_kg: self.bodyweight_kg@,
            squat_rack_info: self.squat_rack_info@,
            bench_rack_info: self.bench_rack_info@,
            squat_kg: self.squat_kg.deep_view(),
            bench_kg: self.bench_kg.deep_view(),
            deadlift_kg: self.deadlift_kg.deep_view(),
            squat_status: self.squat_status.deep_view(),
            bench_status: self.bench_status.deep_view(),
            deadlift_status: self.deadlift_status.deep_view(),
        }
    }
}

impl DeepView for Plate {
    type V = PlateV;

    open spec fn deep_view(&self) -> PlateV {
        PlateV { weight_kg: self.weight_kg@, pair_count: self.pair_count, color: self.color@ }
    }
}

impl DeepView for MeetState {
    type V = MeetV;

    open spec fn deep_view(&self) -> MeetV {
        MeetV {
            name: self.name@,
            country: self.country@,
            state: self.state@,
            city: self.city@,
            federation: self.federation@,
            date: self.date@,
            length_days: self.length_days,
            platforms_on_days: self.platforms_on_days.deep_view(),
            age_coefficients: self.age_coefficients@,
            divisions: self.divisions.deep_view(),
            weight_classes_kg_men: self.weight_classes_kg_men.deep_view(),
            weight_classes_kg_women: self.weight_classes_kg_women.deep_view(),
            weight_classes_kg_mx: self.weight_classes_kg_mx.deep_view(),
            formula: self.formula@,
            combine_sleeves_and_wraps: self.combine_sleeves_and_wraps,
            combine_single_and_multi: self.combine_single_and_multi,
            allow_4th_attempts: self.allow_4th_attempts,
            in_kg: self.in_kg,
            squat_bar_and_collars_weight_kg: self.squat_bar_and_collars_weight_kg@,
            bench_bar_and_collars_weight_kg: self.bench_bar_and_collars_weight_kg@,
            deadlift_bar_and_collars_weight_kg: self.deadlift_bar_and_collars_weight_kg@,
            plates: self.plates.deep_view(),
            show_alternate_units: self.show_alternate_units,
        }
    }
}

impl DeepView for RegistrationState {
    type V = RegistrationV;

    open spec fn deep_view(&self) -> RegistrationV {
        RegistrationV { next_entry_id: self.next_entry_id, entries: self.entries.deep_view() }
    }
}

impl DeepView for LiftingState {
    type V = LiftingV;

    open spec fn deep_view(&self) -> LiftingV {
        LiftingV {
            day: self.day,
            platform: self.platform,
            flight: self.flight@,
            lift: self.lift@,
            override_attempt: self.override_attempt,
            override_entry_id: self.override_entry_id,
            column_division_width_px: self.column_division_width_px@,
        }
    }
}

impl DeepView for GlobalState {
    type V = GlobalV;

    open spec fn deep_view(&self) -> GlobalV {
        GlobalV {
            versions: self.versions.deep_view(),
            language: self.language@,
            meet: self.meet.deep_view(),
            registration: self.registration.deep_view(),
            lifting: self.lifting.deep_view(),
        }
    }
}

// Well-formedness: the consistency contract of a document.

/// Both version identifiers are non-empty.
pub open spec fn versions_wf(v: VersionsV) -> bool {
    v.state_version.len() > 0 && v.release_version.len() > 0
}

/// How many attempts one lift may hold.
pub open spec fn max_attempts(allow_4th: bool) -> int {
    if allow_4th {
        4
    } else {
        3
    }
}

/// One lift's weights and statuses agree in length and fit the attempt cap.
pub open spec fn lift_lens_ok(kg: Seq<int>, st: Seq<u32>, max: int) -> bool {
    kg.len() == st.len() && kg.len() <= max
}

pub open spec fn entry_attempts_wf(e: EntryV, max: int) -> bool {
    lift_lens_ok(e.squat_kg, e.squat_status, max) && lift_lens_ok(e.bench_kg, e.bench_status, max)
        && lift_lens_ok(e.deadlift_kg, e.deadlift_status, max)
}

/// Every weight of the sequence is representable.
pub open spec fn all_weights_wf(s: Seq<int>) -> bool {
    forall|i: int| 0 <= i < s.len() ==> weight_wf(#[trigger] s[i])
}

pub open spec fn entry_weights_wf(e: EntryV) -> bool {
    weight_wf(e.bodyweight_kg) && all_weights_wf(e.squat_kg) && all_weights_wf(e.bench_kg)
        && all_weights_wf(e.deadlift_kg)
}

/// The day is a declared day of the meet.
pub open spec fn day_in_range(day: u32, m: MeetV) -> bool {
    1 <= day && day <= m.length_days
}

/// The platform is a declared platform of the given day.
pub open spec fn platform_in_range(day: u32, platform: u32, m: MeetV) -> bool {
    1 <= day && day - 1 < m.platforms_on_days.len() && 1 <= platform && platform
        <= m.platforms_on_days[day - 1]
}

pub open spec fn entry_sched_wf(e: EntryV, m: MeetV) -> bool {
    day_in_range(e.day, m) && platform_in_range(e.day, e.platform, m)
}

pub open spec fn entry_wf(e: EntryV, m: MeetV) -> bool {
    entry_attempts_wf(e, max_attempts(m.allow_4th_attempts)) && entry_sched_wf(e, m)
        && entry_weights_wf(e)
}

pub open spec fn entries_wf(es: Seq<EntryV>, m: MeetV) -> bool {
    forall|i: int| 0 <= i < es.len() ==> entry_wf(#[trigger] es[i], m)
}

/// All entry ids are pairwise distinct.
pub open spec fn unique_ids(es: Seq<EntryV>) -> bool {
    forall|i: int, j: int|
        0 <= i < j < es.len() ==> (#[trigger] es[i]).id != (#[trigger] es[j]).id
}

/// Every entry id is below the id to be assigned next.
pub open spec fn ids_below_next(r: RegistrationV) -> bool {
    forall|i: int| 0 <= i < r.entries.len() ==> (#[trigger] r.entries[i]).id < r.next_entry_id
}

/// A weight-class ladder is strictly increasing.
pub open spec fn ladder_wf(s: Seq<int>) -> bool {
    forall|i: int| 0 <= i && i + 1 < s.len() ==> #[trigger] s[i] < s[i + 1]
}

pub open spec fn plates_wf(ps: Seq<PlateV>) -> bool {
    forall|i: int| 0 <= i < ps.len() ==> weight_wf((#[trigger] ps[i]).weight_kg)
}

/// The meet's own shape: one platform count per day, each at least one,
/// strictly increasing ladders, and representable configured weights.
pub open spec fn meet_shape_wf(m: MeetV) -> bool {
    m.platforms_on_days.len() == m.length_days && (forall|i: int|
        0 <= i < m.platforms_on_days.len() ==> #[trigger] m.platforms_on_days[i] >= 1)
        && ladder_wf(m.weight_classes_kg_men) && ladder_wf(m.weight_classes_kg_women) && ladder_wf(
        m.weight_classes_kg_mx,
    ) && all_weights_wf(m.weight_classes_kg_men) && all_weights_wf(m.weight_classes_kg_women)
        && all_weights_wf(m.weight_classes_kg_mx) && weight_wf(m.squat_bar_and_collars_weight_kg)
        && weight_wf(m.bench_bar_and_collars_weight_kg) && weight_wf(
        m.deadlift_bar_and_collars_weight_kg,
    ) && plates_wf(m.plates)
}

/// The lift codes the attempt-override check understands.
pub open spec fn known_lift(lift: Seq<char>) -> bool {
    lift == "S"@ || lift == "B"@ || lift == "D"@
}

/// How many attempts the entry holds for the given lift code.
pub open spec fn lift_attempts_of(e: EntryV, lift: Seq<char>) -> int {
    if lift == "S"@ {
        e.squat_kg.len() as int
    } else if lift == "B"@ {
        e.bench_kg.len() as int
    } else {
        e.deadlift_kg.len() as int
    }
}

/// Some entry carries the given id.
pub open spec fn entry_with_id(es: Seq<EntryV>, id: u32) -> bool {
    exists|i: int| 0 <= i < es.len() && (#[trigger] es[i]).id == id
}

/// Some entry lifts in the given day/platform/flight.
pub open spec fn flight_exists(es: Seq<EntryV>, day: u32, platform: u32, flight: Seq<char>) -> bool {
    exists|i: int|
        0 <= i < es.len() && (#[trigger] es[i]).day == day && es[i].platform == platform
            && es[i].flight == flight
}

/// The "now lifting" cursor references a combination that exists, and any
/// override references an existing entry and a valid attempt of it.
pub open spec fn lifting_wf(l: LiftingV, m: MeetV, es: Seq<EntryV>) -> bool {
    day_in_range(l.day, m) && platform_in_range(l.day, l.platform, m) && flight_exists(
        es,
        l.day,
        l.platform,
        l.flight,
    ) && weight_wf(l.column_division_width_px) && match (l.override_entry_id, l.override_attempt) {
        (None, None) => true,
        (None, Some(_)) => false,
        (Some(id), None) => entry_with_id(es, id),
        (Some(id), Some(a)) => known_lift(l.lift) && exists|i: int|
            0 <= i < es.len() && (#[trigger] es[i]).id == id && 1 <= a && a <= lift_attempts_of(
                es[i],
                l.lift,
            ),
    }
}

/// The whole consistency contract of a document.
pub open spec fn global_wf(g: GlobalV) -> bool {
    versions_wf(g.versions) && meet_shape_wf(g.meet) && unique_ids(g.registration.entries)
        && ids_below_next(g.registration) && entries_wf(g.registration.entries, g.meet)
        && lifting_wf(g.lifting, g.meet, g.registration.entries)
}

} // verus!
