//! Course records of the catalog and the vocabulary of their fields.

use crate::text::{
    decimal, decimal_digits, lowercased, same_text, to_lowercase, trim, trimmed,
};
use std::num::ParseIntError;
use std::str::FromStr;
use vstd::prelude::*;

verus! {

/// Why a course record could not be read.
#[derive(Debug, PartialEq, Eq)]
pub enum LsfError {
    /// The catalog holds no entry under this id.
    CourseDoesNotExist(usize),
    /// The classification is outside the vocabulary.
    InvalidCourseType(CourseTypeParseError),
    /// The rotation is outside the vocabulary.
    InvalidRotation(RotationParseError),
    /// The semester is outside the vocabulary.
    InvalidSemesterType(SemesterTypeParseError),
    /// The course number is no number, with the reason.
    MalformedCourseId(ParseIntError),
    /// The weekly hours are no number up to 255, with the reason.
    MalformedWeeklyHours(ParseIntError),
    /// The year is no number, with the reason.
    MalformedYear(ParseIntError),
}

/// What an `LsfError` stands for: its kind, with the id, the label or the
/// parse failure that it holds.
pub enum Failure {
    CourseDoesNotExist(usize),
    InvalidCourseType(Seq<char>),
    InvalidRotation(Seq<char>),
    InvalidSemesterType(Seq<char>),
    MalformedCourseId(ParseIntError),
    MalformedWeeklyHours(ParseIntError),
    MalformedYear(ParseIntError),
}

impl View for LsfError {
    type V = Failure;

    open spec fn view(&self) -> Failure {
        match self {
            LsfError::CourseDoesNotExist(id) => Failure::CourseDoesNotExist(*id),
            LsfError::InvalidCourseType(CourseTypeParseError::Invalid(label)) =>
                Failure::InvalidCourseType(label@),
            LsfError::InvalidRotation(RotationParseError::Invalid(label)) =>
                Failure::InvalidRotation(label@),
            LsfError::InvalidSemesterType(SemesterTypeParseError::Invalid(label)) =>
                Failure::InvalidSemesterType(label@),
            LsfError::MalformedCourseId(reason) => Failure::MalformedCourseId(*reason),
            LsfError::MalformedWeeklyHours(reason) => Failure::MalformedWeeklyHours(*reason),
            LsfError::MalformedYear(reason) => Failure::MalformedYear(*reason),
        }
    }
}

impl From<CourseTypeParseError> for LsfError {
    fn from(error: CourseTypeParseError) -> (failure: LsfError) {
        LsfError::InvalidCourseType(error)
    }
}

impl vstd::std_specs::convert::FromSpecImpl<CourseTypeParseError> for LsfError {
    open spec fn obeys_from_spec() -> bool {
        true
    }

    open spec fn from_spec(error: CourseTypeParseError) -> LsfError {
        LsfError::InvalidCourseType(error)
    }
}

impl From<RotationParseError> for LsfError {
    fn from(error: RotationParseError) -> (failure: LsfError) {
        LsfError::InvalidRotation(error)
    }
}

impl vstd::std_specs::convert::FromSpecImpl<RotationParseError> for LsfError {
    open spec fn obeys_from_spec() -> bool {
        true
    }

    open spec fn from_spec(error: RotationParseError) -> LsfError {
        LsfError::InvalidRotation(error)
    }
}

impl From<SemesterTypeParseError> for LsfError {
    fn from(error: SemesterTypeParseError) -> (failure: LsfError) {
        LsfError::InvalidSemesterType(error)
    }
}

impl vstd::std_specs::convert::FromSpecImpl<SemesterTypeParseError> for LsfError {
    open spec fn obeys_from_spec() -> bool {
        true
    }

    open spec fn from_spec(error: SemesterTypeParseError) -> LsfError {
        LsfError::InvalidSemesterType(error)
    }
}

/// The classification of a course.
#[derive(Debug, PartialEq, Eq, Clone, Copy)]
pub enum CourseType {
    Lecture,
    Excercise,
    Practice,
    /// A seminar, plain or held as a block.
    Seminar(SeminarType),
    Blockseminar,
    Proseminar,
    TechProject,
    ProjectGroup,
    Other,
}

#[derive(Debug, PartialEq, Eq, Clone, Copy)]
pub enum SeminarType {
    Normal,
    Block,
}

/// A classification label outside the vocabulary, as it was given.
#[derive(Debug, PartialEq, Eq)]
pub enum CourseTypeParseError {
    Invalid(String),
}

/// The classification that a trimmed, lower-case label stands for.
pub open spec fn course_type_of(label: Seq<char>) -> Option<CourseType> {
    if label == "vorlesung"@ || label == "wahlpflichtvorlesung"@ || label
        == "vertiefungsvorlesung"@ {
        Some(CourseType::Lecture)
    } else if label == "\u{fc}bung"@ || label == "uebung"@ || label == "blockkurs"@ {
        Some(CourseType::Excercise)
    } else if label == "seminar"@ {
        Some(CourseType::Seminar(SeminarType::Normal))
    } else if label == "blockseminar"@ {
        Some(CourseType::Seminar(SeminarType::Block))
    } else if label == "proseminar"@ {
        Some(CourseType::Proseminar)
    } else if label == "praktikum"@ {
        Some(CourseType::Practice)
    } else if label == "fachprojekt"@ {
        Some(CourseType::TechProject)
    } else if label == "projektgruppe"@ {
        Some(CourseType::ProjectGroup)
    } else {
        None
    }
}

impl CourseType {
    /// The classification that `label` stands for, where `label` is trimmed
    /// and in lower case already; `None` for a label outside the vocabulary.
    pub fn from_label(label: &str) -> (kind: Option<CourseType>)
        ensures
            kind == course_type_of(label@),
    {
        if same_text(label, "vorlesung") || same_text(label, "wahlpflichtvorlesung") || same_text(
            label,
            "vertiefungsvorlesung",
        ) {
            Some(CourseType::Lecture)
        } else if same_text(label, "\u{fc}bung") || same_text(label, "uebung") || same_text(
            label,
            "blockkurs",
        ) {
            Some(CourseType::Excercise)
        } else if same_text(label, "seminar") {
            Some(CourseType::Seminar(SeminarType::Normal))
        } else if same_text(label, "blockseminar") {
            Some(CourseType::Seminar(SeminarType::Block))
        } else if same_text(label, "proseminar") {
            Some(CourseType::Proseminar)
        } else if same_text(label, "praktikum") {
            Some(CourseType::Practice)
        } else if same_text(label, "fachprojekt") {
            Some(CourseType::TechProject)
        } else if same_text(label, "projektgruppe") {
            Some(CourseType::ProjectGroup)
        } else {
            None
        }
    }

    /// The classification that the label `s` stands for, whatever its case
    /// and the white space around it. A label outside the vocabulary is an
    /// error that holds `s` as it was given, never `Other`.
    pub fn from_str(s: &str) -> (kind: Result<CourseType, CourseTypeParseError>)
        ensures
            match course_type_of(lowercased(trimmed(s@))) {
                Some(found) => kind == Ok::<CourseType, CourseTypeParseError>(found),
                None => kind matches Err(CourseTypeParseError::Invalid(given)) && given@ == s@,
            },
    {
        let label = to_lowercase(trim(s));
        match CourseType::from_label(label.as_str()) {
            Some(found) => Ok(found),
            None => Err(CourseTypeParseError::Invalid(s.to_string())),
        }
    }
}

impl FromStr for CourseType {
    type Err = CourseTypeParseError;

    /// As the function `from_str` of `CourseType` itself.
    fn from_str(s: &str) -> (kind: Result<CourseType, CourseTypeParseError>)
        ensures
            match course_type_of(lowercased(trimmed(s@))) {
                Some(found) => kind == Ok::<CourseType, CourseTypeParseError>(found),
                None => kind matches Err(CourseTypeParseError::Invalid(given)) && given@ == s@,
            },
    {
        CourseType::from_str(s)
    }
}

impl Default for CourseType {
    fn default() -> (kind: Self)
        ensures
            kind == CourseType::Other,
    {
        CourseType::Other
    }
}

/// How often a course is offered.
#[derive(Debug, PartialEq, Eq, Clone, Copy)]
pub enum Rotation {
    EverySemester,
    /// Once a year, in the given semester where that is known.
    Yearly(Option<SemesterType>),
}

impl Default for Rotation {
    fn default() -> (rotation: Self)
        ensures
            rotation == Rotation::Yearly(None),
    {
        Rotation::Yearly(None)
    }
}

/// A rotation label outside the vocabulary, as it was given.
#[derive(Debug, PartialEq, Eq)]
pub enum RotationParseError {
    Invalid(String),
}

/// The rotation that a lower-case label stands for, a yearly one being
/// offered in `semester`.
pub open spec fn rotation_of(label: Seq<char>, semester: Option<SemesterType>) -> Option<
    Rotation,
> {
    if label == "j\u{e4}hrlich"@ || label == "jedes 2. semester"@ {
        Some(Rotation::Yearly(semester))
    } else if label == "jedes semester"@ {
        Some(Rotation::EverySemester)
    } else {
        None
    }
}

impl Rotation {
    /// The rotation that `label` stands for, where `label` is in lower case
    /// already; `None` for a label outside the vocabulary.
    pub fn from_label(label: &str, semester: Option<SemesterType>) -> (rotation: Option<Rotation>)
        ensures
            rotation == rotation_of(label@, semester),
    {
        if same_text(label, "j\u{e4}hrlich") || same_text(label, "jedes 2. semester") {
            Some(Rotation::Yearly(semester))
        } else if same_text(label, "jedes semester") {
            Some(Rotation::EverySemester)
        } else {
            None
        }
    }

    /// The rotation that `label` stands for, whatever its case, a yearly one
    /// being offered in `semester`. White space around the label is not
    /// removed. A label outside the vocabulary is an error that holds the
    /// label as it was given.
    pub fn from_parts(label: &str, semester: Option<SemesterType>) -> (rotation: Result<
        Rotation,
        RotationParseError,
    >)
        ensures
            match rotation_of(lowercased(label@), semester) {
                Some(found) => rotation == Ok::<Rotation, RotationParseError>(found),
                None => rotation matches Err(RotationParseError::Invalid(given)) && given@
                    == label@,
            },
    {
        let lower = to_lowercase(label);
        match Rotation::from_label(lower.as_str(), semester) {
            Some(found) => Ok(found),
            None => Err(RotationParseError::Invalid(label.to_string())),
        }
    }
}

impl<'a> TryFrom<(&'a str, Option<SemesterType>)> for Rotation {
    type Error = RotationParseError;

    /// The rotation that the label `parts.0` stands for, whatever its case, a
    /// yearly one being offered in the semester `parts.1`.
    fn try_from(parts: (&'a str, Option<SemesterType>)) -> (rotation: Result<
        Rotation,
        RotationParseError,
    >)
        ensures
            match rotation_of(lowercased(parts.0@), parts.1) {
                Some(found) => rotation == Ok::<Rotation, RotationParseError>(found),
                None => rotation matches Err(RotationParseError::Invalid(given)) && given@
                    == parts.0@,
            },
    {
        Rotation::from_parts(parts.0, parts.1)
    }
}

impl<'a> vstd::std_specs::convert::TryFromSpecImpl<(&'a str, Option<SemesterType>)> for Rotation {
    open spec fn obeys_try_from_spec() -> bool {
        false
    }

    open spec fn try_from_spec(parts: (&'a str, Option<SemesterType>)) -> Result<
        Rotation,
        RotationParseError,
    > {
        arbitrary()
    }
}

impl<'a> TryFrom<(&'a str, SemesterType)> for Rotation {
    type Error = RotationParseError;

    /// As for a semester that may be unknown, with the semester `parts.1`
    /// known.
    fn try_from(parts: (&'a str, SemesterType)) -> (rotation: Result<Rotation, RotationParseError>)
        ensures
            match rotation_of(lowercased(parts.0@), Some(parts.1)) {
                Some(found) => rotation == Ok::<Rotation, RotationParseError>(found),
                None => rotation matches Err(RotationParseError::Invalid(given)) && given@
                    == parts.0@,
            },
    {
        Rotation::from_parts(parts.0, Some(parts.1))
    }
}

impl<'a> vstd::std_specs::convert::TryFromSpecImpl<(&'a str, SemesterType)> for Rotation {
    open spec fn obeys_try_from_spec() -> bool {
        false
    }

    open spec fn try_from_spec(parts: (&'a str, SemesterType)) -> Result<
        Rotation,
        RotationParseError,
    > {
        arbitrary()
    }
}

/// One of the two semesters of a year.
#[derive(Debug, PartialEq, Eq, Clone, Copy)]
pub enum SemesterType {
    Winter,
    Summer,
}

/// A semester label outside the vocabulary, as it was given.
#[derive(Debug, PartialEq, Eq)]
pub enum SemesterTypeParseError {
    Invalid(String),
}

/// The semester that a trimmed, lower-case label stands for.
pub open spec fn semester_type_of(label: Seq<char>) -> Option<SemesterType> {
    if label == "wise"@ || label == "ws"@ || label == "winter"@ {
        Some(SemesterType::Winter)
    } else if label == "sose"@ || label == "ss"@ || label == "sommer"@ {
        Some(SemesterType::Summer)
    } else {
        None
    }
}

impl SemesterType {
    /// The semester that `label` stands for, where `label` is trimmed and in
    /// lower case already; `None` for a label outside the vocabulary.
    pub fn from_label(label: &str) -> (semester: Option<SemesterType>)
        ensures
            semester == semester_type_of(label@),
    {
        if same_text(label, "wise") || same_text(label, "ws") || same_text(label, "winter") {
            Some(SemesterType::Winter)
        } else if same_text(label, "sose") || same_text(label, "ss") || same_text(
            label,
            "sommer",
        ) {
            Some(SemesterType::Summer)
        } else {
            None
        }
    }

    /// The semester that the label `s` stands for, whatever its case and the
    /// white space around it. A label outside the vocabulary is an error that
    /// holds `s` as it was given.
    pub fn from_str(s: &str) -> (semester: Result<SemesterType, SemesterTypeParseError>)
        ensures
            match semester_type_of(lowercased(trimmed(s@))) {
                Some(found) => semester == Ok::<SemesterType, SemesterTypeParseError>(found),
                None => semester matches Err(SemesterTypeParseError::Invalid(given)) && given@
                    == s@,
            },
    {
        let label = to_lowercase(trim(s));
        match SemesterType::from_label(label.as_str()) {
            Some(found) => Ok(found),
            None => Err(SemesterTypeParseError::Invalid(s.to_string())),
        }
    }

    /// The short name of the semester: `WiSe` or `SoSe`.
    pub open spec fn label(self) -> Seq<char> {
        match self {
            SemesterType::Winter => "WiSe"@,
            SemesterType::Summer => "SoSe"@,
        }
    }

    /// The short name of the semester: `WiSe` or `SoSe`.
    pub fn to_string(&self) -> (text: String)
        ensures
            text@ == self.label(),
    {
        match self {
            SemesterType::Winter => "WiSe".to_owned(),
            SemesterType::Summer => "SoSe".to_owned(),
        }
    }
}

impl FromStr for SemesterType {
    type Err = SemesterTypeParseError;

    /// As the function `from_str` of `SemesterType` itself.
    fn from_str(s: &str) -> (semester: Result<SemesterType, SemesterTypeParseError>)
        ensures
            match semester_type_of(lowercased(trimmed(s@))) {
                Some(found) => semester == Ok::<SemesterType, SemesterTypeParseError>(found),
                None => semester matches Err(SemesterTypeParseError::Invalid(given)) && given@
                    == s@,
            },
    {
        SemesterType::from_str(s)
    }
}

/// A semester of a given year.
#[derive(Debug, PartialEq, Eq, Clone, Copy)]
pub struct Semester {
    year: usize,
    semester_type: SemesterType,
}

impl Semester {
    /// The semester of kind `semester_type` in `year`.
    pub fn new(year: usize, semester_type: SemesterType) -> (semester: Self)
        ensures
            semester.year() == year,
            semester.semester_type() == semester_type,
    {
        Semester { year, semester_type }
    }

    pub closed spec fn year(self) -> usize {
        self.year
    }

    pub closed spec fn semester_type(self) -> SemesterType {
        self.semester_type
    }

    /// The short name of the semester, a space and the year in decimal.
    pub fn to_string(&self) -> (text: String)
        ensures
            text@ == self.semester_type().label() + " "@ + decimal_digits(self.year() as nat),
    {
        let mut text = self.semester_type.to_string();
        text.append(" ");
        text.append(decimal(self.year).as_str());
        text
    }
}

/// A course of the catalog.
#[derive(Debug, PartialEq, Eq)]
pub struct Course {
    pub course_type: CourseType,
    pub course_id: usize,
    pub lsf_id: usize,
    pub rotation: Rotation,
    pub credits: u8,
    pub name: String,
    pub short_name: Option<String>,
    pub weekly_hours: u8,
}

/// A course record with its texts as sequences of characters.
pub struct CourseRecord {
    pub course_type: CourseType,
    pub course_id: usize,
    pub lsf_id: usize,
    pub rotation: Rotation,
    pub credits: u8,
    pub name: Seq<char>,
    pub short_name: Option<Seq<char>>,
    pub weekly_hours: u8,
}

impl CourseRecord {
    /// The record that nothing is known of yet: a course of kind `Other`,
    /// offered yearly in an unknown semester, with zeros and empty texts.
    pub open spec fn blank() -> CourseRecord {
        CourseRecord {
            course_type: CourseType::Other,
            course_id: 0,
            lsf_id: 0,
            rotation: Rotation::Yearly(None),
            credits: 0,
            name: Seq::empty(),
            short_name: None,
            weekly_hours: 0,
        }
    }
}

impl View for Course {
    type V = CourseRecord;

    open spec fn view(&self) -> CourseRecord {
        CourseRecord {
            course_type: self.course_type,
            course_id: self.course_id,
            lsf_id: self.lsf_id,
            rotation: self.rotation,
            credits: self.credits,
            name: self.name@,
            short_name: match self.short_name {
                Some(short) => Some(short@),
                None => None,
            },
            weekly_hours: self.weekly_hours,
        }
    }
}

impl Clone for Course {
    fn clone(&self) -> (copy: Self)
        ensures
            copy@ == self@,
    {
        Course {
            course_type: self.course_type,
            course_id: self.course_id,
            lsf_id: self.lsf_id,
            rotation: self.rotation,
            credits: self.credits,
            name: self.name.clone(),
            short_name: match &self.short_name {
                Some(short) => Some(short.clone()),
                None => None,
            },
            weekly_hours: self.weekly_hours,
        }
    }
}

impl Default for Course {
    fn default() -> (course: Self)
        ensures
            course@ == CourseRecord::blank(),
    {
        Course {
            course_type: CourseType::Other,
            course_id: 0,
            lsf_id: 0,
            rotation: Rotation::Yearly(None),
            credits: 0,
            name: String::new(),
            short_name: None,
            weekly_hours: 0,
        }
    }
}

} // verus!
