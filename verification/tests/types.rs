use scrapperino::types::{
    Course, CourseType, CourseTypeParseError, LsfError, Rotation, RotationParseError, Semester, SemesterType,
    SemesterTypeParseError, SeminarType,
};

#[test]
fn course_type_vocabulary() {
    assert_eq!(CourseType::from_str("vorlesung"), Ok(CourseType::Lecture));
    assert_eq!(CourseType::from_str("wahlpflichtvorlesung"), Ok(CourseType::Lecture));
    assert_eq!(CourseType::from_str("vertiefungsvorlesung"), Ok(CourseType::Lecture));
    assert_eq!(CourseType::from_str("\u{fc}bung"), Ok(CourseType::Excercise));
    assert_eq!(CourseType::from_str("uebung"), Ok(CourseType::Excercise));
    assert_eq!(CourseType::from_str("blockkurs"), Ok(CourseType::Excercise));
    assert_eq!(CourseType::from_str("seminar"), Ok(CourseType::Seminar(SeminarType::Normal)));
    assert_eq!(CourseType::from_str("blockseminar"), Ok(CourseType::Seminar(SeminarType::Block)));
    assert_eq!(CourseType::from_str("proseminar"), Ok(CourseType::Proseminar));
    assert_eq!(CourseType::from_str("praktikum"), Ok(CourseType::Practice));
    assert_eq!(CourseType::from_str("fachprojekt"), Ok(CourseType::TechProject));
    assert_eq!(CourseType::from_str("projektgruppe"), Ok(CourseType::ProjectGroup));
}

#[test]
fn course_type_label_vorlesung_is_a_lecture() {
    assert_eq!(CourseType::from_str("Vorlesung"), Ok(CourseType::Lecture));
    assert_eq!("Vorlesung".parse::<CourseType>(), Ok(CourseType::Lecture));
}

#[test]
fn course_type_unrecognized_label_is_an_error() {
    assert_eq!(CourseType::from_str("Foo"), Err(CourseTypeParseError::Invalid("Foo".to_string())));
    assert_eq!("Foo".parse::<CourseType>(), Err(CourseTypeParseError::Invalid("Foo".to_string())));
    assert_eq!(CourseType::from_str(""), Err(CourseTypeParseError::Invalid(String::new())));
    assert_eq!(CourseType::from_str("other"), Err(CourseTypeParseError::Invalid("other".to_string())));
}

#[test]
fn course_type_ignores_case_and_surrounding_space() {
    assert_eq!(CourseType::from_str("  VORLESUNG\n"), Ok(CourseType::Lecture));
    assert_eq!(CourseType::from_str("\t\u{dc}bung "), Ok(CourseType::Excercise));
    assert_eq!(CourseType::from_str(" Block Seminar "), Err(CourseTypeParseError::Invalid(" Block Seminar ".to_string())));
}

#[test]
fn course_type_from_label_is_exact() {
    assert_eq!(CourseType::from_label("vorlesung"), Some(CourseType::Lecture));
    assert_eq!(CourseType::from_label("Vorlesung"), None);
    assert_eq!(CourseType::from_label(" vorlesung"), None);
    assert_eq!(CourseType::from_label("projektgruppe"), Some(CourseType::ProjectGroup));
    assert_eq!(CourseType::from_label(""), None);
}

#[test]
fn defaults() {
    assert_eq!(CourseType::default(), CourseType::Other);
    assert_eq!(Rotation::default(), Rotation::Yearly(None));
    let course = Course::default();
    assert_eq!(course.course_type, CourseType::Other);
    assert_eq!(course.course_id, 0);
    assert_eq!(course.lsf_id, 0);
    assert_eq!(course.rotation, Rotation::Yearly(None));
    assert_eq!(course.credits, 0);
    assert_eq!(course.name, "");
    assert_eq!(course.short_name, None);
    assert_eq!(course.weekly_hours, 0);
}

#[test]
fn course_clone_is_equal() {
    let course = Course {
        course_type: CourseType::Seminar(SeminarType::Block),
        course_id: 40105,
        lsf_id: 283038,
        rotation: Rotation::EverySemester,
        credits: 9,
        name: "Name".to_string(),
        short_name: Some("N".to_string()),
        weekly_hours: 4,
    };
    assert_eq!(course.clone(), course);
}

#[test]
fn rotation_vocabulary() {
    assert_eq!(Rotation::try_from(("j\u{e4}hrlich", None)), Ok(Rotation::Yearly(None)));
    assert_eq!(
        Rotation::try_from(("jedes 2. semester", Some(SemesterType::Summer))),
        Ok(Rotation::Yearly(Some(SemesterType::Summer)))
    );
    assert_eq!(Rotation::try_from(("jedes semester", Some(SemesterType::Winter))), Ok(Rotation::EverySemester));
    assert_eq!(Rotation::try_from(("Jedes Semester", None)), Ok(Rotation::EverySemester));
    assert_eq!(Rotation::try_from(("J\u{c4}HRLICH", None)), Ok(Rotation::Yearly(None)));
}

#[test]
fn rotation_unrecognized_label_is_an_error() {
    assert_eq!(
        Rotation::try_from(("monthly", None)),
        Err(RotationParseError::Invalid("monthly".to_string()))
    );
    assert_eq!(
        Rotation::try_from((" jedes semester", None)),
        Err(RotationParseError::Invalid(" jedes semester".to_string()))
    );
}

#[test]
fn rotation_with_known_semester() {
    assert_eq!(
        Rotation::try_from(("j\u{e4}hrlich", SemesterType::Winter)),
        Ok(Rotation::Yearly(Some(SemesterType::Winter)))
    );
    assert_eq!(Rotation::try_from(("jedes semester", SemesterType::Winter)), Ok(Rotation::EverySemester));
    assert_eq!(
        Rotation::try_from(("nie", SemesterType::Winter)),
        Err(RotationParseError::Invalid("nie".to_string()))
    );
    let converted: Result<Rotation, RotationParseError> = ("jedes 2. Semester", SemesterType::Summer).try_into();
    assert_eq!(converted, Ok(Rotation::Yearly(Some(SemesterType::Summer))));
}

#[test]
fn rotation_from_parts() {
    assert_eq!(Rotation::from_parts("Jedes Semester", None), Ok(Rotation::EverySemester));
    assert_eq!(
        Rotation::from_parts("J\u{e4}hrlich", Some(SemesterType::Winter)),
        Ok(Rotation::Yearly(Some(SemesterType::Winter)))
    );
    assert_eq!(Rotation::from_parts("", None), Err(RotationParseError::Invalid(String::new())));
}

#[test]
fn rotation_from_label_is_exact() {
    assert_eq!(Rotation::from_label("jedes semester", None), Some(Rotation::EverySemester));
    assert_eq!(Rotation::from_label("Jedes Semester", None), None);
    assert_eq!(
        Rotation::from_label("jedes 2. semester", Some(SemesterType::Winter)),
        Some(Rotation::Yearly(Some(SemesterType::Winter)))
    );
}

#[test]
fn semester_type_vocabulary() {
    for label in ["wise", "ws", "winter", "WiSe", " WS ", "Winter"] {
        assert_eq!(SemesterType::from_str(label), Ok(SemesterType::Winter));
    }
    for label in ["sose", "ss", "sommer", "SoSe", "SS\n", "Sommer"] {
        assert_eq!(SemesterType::from_str(label), Ok(SemesterType::Summer));
    }
    assert_eq!("SoSe".parse::<SemesterType>(), Ok(SemesterType::Summer));
}

#[test]
fn semester_type_unrecognized_label_is_an_error() {
    assert_eq!(
        SemesterType::from_str("Herbst"),
        Err(SemesterTypeParseError::Invalid("Herbst".to_string()))
    );
    assert_eq!(SemesterType::from_str("summer"), Err(SemesterTypeParseError::Invalid("summer".to_string())));
    assert_eq!(SemesterType::from_label("WiSe"), None);
    assert_eq!(SemesterType::from_label("ss"), Some(SemesterType::Summer));
}

#[test]
fn semester_type_to_string() {
    assert_eq!(SemesterType::Winter.to_string(), "WiSe");
    assert_eq!(SemesterType::Summer.to_string(), "SoSe");
}

#[test]
fn semester_to_string() {
    assert_eq!(Semester::new(2022, SemesterType::Winter).to_string(), "WiSe 2022");
    assert_eq!(Semester::new(0, SemesterType::Summer).to_string(), "SoSe 0");
    assert_eq!(Semester::new(usize::MAX, SemesterType::Summer).to_string(), format!("SoSe {}", usize::MAX));
    assert_eq!(Semester::new(7, SemesterType::Summer), Semester::new(7, SemesterType::Summer));
    assert_ne!(Semester::new(7, SemesterType::Summer), Semester::new(7, SemesterType::Winter));
}

#[test]
fn lsf_error_wraps_the_parse_errors() {
    assert_eq!(
        LsfError::from(CourseTypeParseError::Invalid("x".to_string())),
        LsfError::InvalidCourseType(CourseTypeParseError::Invalid("x".to_string()))
    );
    assert_eq!(
        LsfError::from(RotationParseError::Invalid("y".to_string())),
        LsfError::InvalidRotation(RotationParseError::Invalid("y".to_string()))
    );
    assert_eq!(
        LsfError::from(SemesterTypeParseError::Invalid("z".to_string())),
        LsfError::InvalidSemesterType(SemesterTypeParseError::Invalid("z".to_string()))
    );
}

fn has_white_space_property(c: char) -> bool {
    matches!(
        c as u32,
        0x09..=0x0D | 0x20 | 0x85 | 0xA0 | 0x1680 | 0x2000..=0x200A | 0x2028 | 0x2029 | 0x202F | 0x205F | 0x3000
    )
}

#[test]
fn white_space_is_what_std_takes_for_it() {
    for code in 0..=0x10FFFFu32 {
        if let Some(c) = char::from_u32(code) {
            assert_eq!(c.is_whitespace(), has_white_space_property(c), "U+{:04X}", code);
        }
    }
}

#[test]
fn labels_are_trimmed_of_every_kind_of_white_space() {
    for code in 0..=0x3000u32 {
        let Some(c) = char::from_u32(code) else { continue };
        let padded = format!("{c}{c}ws{c}");
        if has_white_space_property(c) {
            assert_eq!(SemesterType::from_str(&padded), Ok(SemesterType::Winter), "U+{:04X}", code);
        } else {
            assert_eq!(
                SemesterType::from_str(&padded),
                Err(SemesterTypeParseError::Invalid(padded.clone())),
                "U+{:04X}",
                code
            );
        }
    }
}

#[test]
fn labels_keep_white_space_inside() {
    assert_eq!(SemesterType::from_str(" w s "), Err(SemesterTypeParseError::Invalid(" w s ".to_string())));
    assert_eq!(CourseType::from_str(" \t "), Err(CourseTypeParseError::Invalid(" \t ".to_string())));
}
