//! Structured validation failures. Every error locates the offending field
//! by a structured path (no formatted strings), and carries the values in
//! conflict, so a client can fix a submission in one round trip.

use vstd::prelude::*;

verus! {

/// Top-level region of the document a path points into.
#[derive(Clone, Copy, Debug, PartialEq, Eq, Structural)]
pub enum Section {
    Root,
    Versions,
    Language,
    Meet,
    Registration,
    Lifting,
}

/// A named field of the document, in any of its objects.
#[derive(Clone, Copy, Debug, PartialEq, Eq, Structural)]
pub enum FieldId {
    StateVersion,
    ReleaseVersion,
    Id,
    Day,
    Platform,
    Flight,
    Name,
    Sex,
    BirthDate,
    Age,
    Country,
    State,
    IntendedWeightClassKg,
    Equipment,
    Divisions,
    Events,
    Lot,
    MemberId,
    Paid,
    Team,
    Guest,
    Instagram,
    Notes,
    BodyweightKg,
    SquatRackInfo,
    BenchRackInfo,
    SquatKg,
    BenchKg,
    DeadliftKg,
    SquatStatus,
    BenchStatus,
    DeadliftStatus,
    City,
    Federation,
    Date,
    LengthDays,
    PlatformsOnDays,
    AgeCoefficients,
    WeightClassesKgMen,
    WeightClassesKgWomen,
    WeightClassesKgMx,
    Formula,
    CombineSleevesAndWraps,
    CombineSingleAndMulti,
    Allow4thAttempts,
    InKg,
    SquatBarAndCollarsWeightKg,
    BenchBarAndCollarsWeightKg,
    DeadliftBarAndCollarsWeightKg,
    Plates,
    ShowAlternateUnits,
    WeightKg,
    PairCount,
    Color,
    NextEntryId,
    Entries,
    Lift,
    OverrideAttempt,
    OverrideEntryId,
    ColumnDivisionWidthPx,
}

/// Where in the document a failure was found: a section, the position
/// within that section's collection (an entry or plate index), the field,
/// and the position within an array-valued field.
#[derive(Clone, Copy, Debug, PartialEq, Eq, Structural)]
pub struct FieldPath {
    pub section: Section,
    pub index: Option<usize>,
    pub field: Option<FieldId>,
    pub item: Option<usize>,
}

/// One of the three lifts.
#[derive(Clone, Copy, Debug, PartialEq, Eq, Structural)]
pub enum Lift {
    Squat,
    Bench,
    Deadlift,
}

/// Which weight-class ladder a failure is about.
#[derive(Clone, Copy, Debug, PartialEq, Eq, Structural)]
pub enum Ladder {
    Men,
    Women,
    Mx,
}

/// The error taxonomy a validation failure belongs to.
#[derive(Clone, Copy, Debug, PartialEq, Eq, Structural)]
pub enum ErrorKind {
    Schema,
    WeightParse,
    Consistency,
}

/// A single validation failure.
#[derive(Debug, Clone)]
pub enum ValidationError {
    /// A required field is absent.
    MissingField { path: FieldPath },
    /// A field is present with the wrong basic shape.
    WrongType { path: FieldPath },
    /// A numeric field is not an unsigned decimal integer in range.
    BadNumber { path: FieldPath, raw: Vec<char> },
    /// A weight field is not a valid decimal-kilogram literal.
    BadWeight { path: FieldPath, raw: Vec<char> },
    /// An empty version identifier.
    EmptyVersion { field: FieldId },
    /// Two entries carry the same id; both positions are named.
    DuplicateEntryId { first: usize, second: usize, id: u32 },
    /// An entry id is not below `nextEntryId`.
    EntryIdTooLarge { index: usize, id: u32, next_entry_id: u32 },
    /// A lift's attempt weights and statuses differ in length.
    AttemptLengthMismatch { index: usize, lift: Lift, kg_len: usize, status_len: usize },
    /// A lift holds more attempts than the meet allows.
    TooManyAttempts { index: usize, lift: Lift, len: usize, max: usize },
    /// `platformsOnDays` does not have one count per day.
    PlatformsOnDaysWrongLength { length_days: u32, actual: usize },
    /// A day declares no platform.
    PlatformCountZero { day_index: usize },
    /// A weight-class ladder is not strictly increasing at `index`.
    LadderNotIncreasing { ladder: Ladder, index: usize },
    /// A weight's magnitude exceeds what the model can represent.
    WeightOutOfRange { path: FieldPath },
    /// An entry's day is outside the meet's declared days.
    EntryDayOutOfRange { index: usize, day: u32, length_days: u32 },
    /// An entry's platform is outside its day's declared platforms.
    EntryPlatformOutOfRange { index: usize, platform: u32, platforms: u32 },
    /// The lifting cursor's day is outside the meet's declared days.
    LiftingDayOutOfRange { day: u32, length_days: u32 },
    /// The lifting cursor's platform is outside its day's platforms.
    LiftingPlatformOutOfRange { platform: u32, platforms: u32 },
    /// No entry lifts in the referenced day/platform/flight.
    LiftingFlightMissing,
    /// An attempt override needs a known lift code to name its range.
    UnknownLift,
    /// `overrideEntryId` references no entry.
    OverrideEntryMissing { id: u32 },
    /// `overrideAttempt` is outside the referenced entry's attempt range.
    OverrideAttemptOutOfRange { attempt: u32, attempts: usize },
    /// `overrideAttempt` is set without an `overrideEntryId`.
    OverrideAttemptWithoutEntry { attempt: u32 },
}

/// The taxonomy kind of a failure.
pub open spec fn kind_of(e: ValidationError) -> ErrorKind {
    match e {
        ValidationError::MissingField { .. } => ErrorKind::Schema,
        ValidationError::WrongType { .. } => ErrorKind::Schema,
        ValidationError::BadNumber { .. } => ErrorKind::Schema,
        ValidationError::BadWeight { .. } => ErrorKind::WeightParse,
        _ => ErrorKind::Consistency,
    }
}

impl ValidationError {
    /// The taxonomy kind of this failure.
    pub fn kind(&self) -> (k: ErrorKind)
        ensures
            k == kind_of(*self),
    {
        match self {
            ValidationError::MissingField { .. } => ErrorKind::Schema,
            ValidationError::WrongType { .. } => ErrorKind::Schema,
            ValidationError::BadNumber { .. } => ErrorKind::Schema,
            ValidationError::BadWeight { .. } => ErrorKind::WeightParse,
            _ => ErrorKind::Consistency,
        }
    }
}

/// Path of a top-level field of a section's object.
pub open spec fn sec_path(section: Section, field: FieldId) -> FieldPath {
    FieldPath { section, index: None, field: Some(field), item: None }
}

/// Path of a field of the entry at `index`.
pub open spec fn entry_path(index: int, field: FieldId) -> FieldPath {
    FieldPath {
        section: Section::Registration,
        index: Some(index as usize),
        field: Some(field),
        item: None,
    }
}

/// Path of a field of the plate at `index`.
pub open spec fn plate_path(index: int, field: FieldId) -> FieldPath {
    FieldPath { section: Section::Meet, index: Some(index as usize), field: Some(field), item: None }
}

/// Builds the path of a top-level field of a section's object.
pub fn section_field_path(section: Section, field: FieldId) -> (p: FieldPath)
    ensures
        p == sec_path(section, field),
{
    FieldPath { section, index: None, field: Some(field), item: None }
}

/// Builds the path of a field of the entry at `index`.
pub fn entry_field_path(index: usize, field: FieldId) -> (p: FieldPath)
    ensures
        p == entry_path(index as int, field),
{
    FieldPath {
        section: Section::Registration,
        index: Some(index),
        field: Some(field),
        item: None,
    }
}

/// Builds the path of a field of the plate at `index`.
pub fn plate_field_path(index: usize, field: FieldId) -> (p: FieldPath)
    ensures
        p == plate_path(index as int, field),
{
    FieldPath { section: Section::Meet, index: Some(index), field: Some(field), item: None }
}

} // verus!
