use scrapperino::catalog::{apply_field, course_from_cells, parse_course, Cell, CELLS, HEADING, ROWS};
use scrapperino::types::{
    Course, CourseType, CourseTypeParseError, LsfError, Rotation, RotationParseError, SemesterType,
    SeminarType,
};

fn cell(tag: &str, html: &str) -> Cell {
    Cell { tag: tag.to_string(), html: html.to_string() }
}

fn field(header: &str, data: &str) -> Vec<Cell> {
    vec![cell("th", header), cell("td", data)]
}

fn read(header: &str, data: &str) -> Result<(Course, Option<SemesterType>), LsfError> {
    apply_field(Course::default(), None, header, data)
}

fn page(heading: &str, rows: &str) -> String {
    format!(
        "<html><body><div class=\"form\"><h1>{}</h1><table>{}</table>\
         <table><tr><th>SWS</th><td>99</td></tr></table></div></body></html>",
        heading, rows
    )
}

const ROWS_OF_DAP: &str = "<tr><th>Veranstaltungsart</th><td> Vorlesung </td><th>Langtext</th><td></td></tr>\
    <tr><th>Veranstaltungsnummer</th><td>040105</td><th>Kurztext</th><td>DAP 1</td></tr>\
    <tr><th> Semester </th><td>WiSe-2022/23</td><th>SWS</th><td>4</td></tr>\
    <tr><th>Rhythmus</th><td>jedes 2. Semester</td><th>Credits</th><td>9</td></tr>";

#[test]
fn selectors_are_those_of_the_catalog_page() {
    assert_eq!(HEADING, ".form > h1:nth-child(1)");
    assert_eq!(ROWS, ".form > table:first-of-type tr");
    assert_eq!(CELLS, "th, td");
}

#[test]
fn parse_course_reads_a_whole_page() {
    let text = page("Datenstrukturen, Algorithmen und Programmierung 1 - Einzelansicht", ROWS_OF_DAP);
    let course = parse_course(283038, &text);
    assert_eq!(
        course,
        Ok(Course {
            course_type: CourseType::Lecture,
            course_id: 40105,
            lsf_id: 283038,
            rotation: Rotation::Yearly(Some(SemesterType::Winter)),
            credits: 9,
            name: "Datenstrukturen, Algorithmen und Programmierung 1".to_string(),
            short_name: Some("DAP 1".to_string()),
            weekly_hours: 4,
        })
    );
}

#[test]
fn parse_course_without_heading_is_no_entry() {
    let text = "<html><body><div class=\"form\"><p>nothing</p><table><tr><th>SWS</th><td>4</td></tr></table></div></body></html>";
    assert_eq!(parse_course(12345, text), Err(LsfError::CourseDoesNotExist(12345)));
    assert_eq!(parse_course(7, ""), Err(LsfError::CourseDoesNotExist(7)));
}

#[test]
fn parse_course_wants_the_heading_first_in_the_form() {
    let text = "<div class=\"form\"><p>first</p><h1>Name</h1></div>";
    assert_eq!(parse_course(1, text), Err(LsfError::CourseDoesNotExist(1)));
    let text = "<div class=\"other\"><h1>Name</h1></div>";
    assert_eq!(parse_course(2, text), Err(LsfError::CourseDoesNotExist(2)));
}

#[test]
fn parse_course_without_table_gives_the_defaults() {
    let text = "<div class=\"form\"><h1> Logik - Einzelansicht</h1></div>";
    let course = parse_course(5, text).unwrap();
    assert_eq!(course, Course { lsf_id: 5, name: "Logik".to_string(), ..Course::default() });
}

#[test]
fn parse_course_reads_the_first_table_only() {
    let text = page("Logik", "<tr><th>Credits</th><td>5</td></tr>");
    let course = parse_course(5, &text).unwrap();
    assert_eq!(course.credits, 5);
    assert_eq!(course.weekly_hours, 0);
    assert_eq!(course.name, "Logik");
}

#[test]
fn parse_course_stops_at_the_first_failure() {
    let text = page("Logik", "<tr><th>Veranstaltungsart</th><td>Foo</td><th>SWS</th><td>x</td></tr>");
    assert_eq!(
        parse_course(5, &text),
        Err(LsfError::InvalidCourseType(CourseTypeParseError::Invalid("Foo".to_string())))
    );
    let text = page("Logik", "<tr><th>SWS</th><td>x</td><th>Veranstaltungsart</th><td>Foo</td></tr>");
    assert!(matches!(parse_course(5, &text), Err(LsfError::MalformedWeeklyHours(_))));
}

#[test]
fn course_from_cells_without_heading() {
    assert_eq!(course_from_cells(9, None, &field("SWS", "x")), Err(LsfError::CourseDoesNotExist(9)));
    assert_eq!(course_from_cells(9, None, &vec![]), Err(LsfError::CourseDoesNotExist(9)));
}

#[test]
fn course_from_cells_names_the_course_by_the_heading() {
    let course = course_from_cells(9, Some("  Betriebssysteme  - Einzelansicht - x"), &vec![]).unwrap();
    assert_eq!(course, Course { lsf_id: 9, name: "Betriebssysteme".to_string(), ..Course::default() });
    let course = course_from_cells(9, Some("Betriebssysteme"), &vec![]).unwrap();
    assert_eq!(course.name, "Betriebssysteme");
    let course = course_from_cells(9, Some("- x"), &vec![]).unwrap();
    assert_eq!(course.name, "");
}

#[test]
fn course_from_cells_ignores_a_lone_cell() {
    let course = course_from_cells(9, Some("x"), &vec![cell("th", "SWS")]).unwrap();
    assert_eq!(course, Course { lsf_id: 9, name: "x".to_string(), ..Course::default() });
}

#[test]
fn course_from_cells_takes_the_next_cell_whatever_it_is() {
    let cells = vec![cell("th", "Kurztext"), cell("th", "SWS"), cell("td", " 2 ")];
    let course = course_from_cells(9, Some("x"), &cells).unwrap();
    assert_eq!(course.short_name, Some("SWS".to_string()));
    assert_eq!(course.weekly_hours, 2);
}

#[test]
fn course_from_cells_skips_data_cells_as_headers() {
    let cells = vec![cell("td", "SWS"), cell("td", "2"), cell("TH", "Credits"), cell("td", "3")];
    let course = course_from_cells(9, Some("x"), &cells).unwrap();
    assert_eq!(course.weekly_hours, 0);
    assert_eq!(course.credits, 0);
}

#[test]
fn course_from_cells_puts_the_semester_into_a_yearly_rotation() {
    let mut cells = field("Semester", "SoSe-2023");
    cells.extend(field("Rhythmus", "j\u{e4}hrlich"));
    let course = course_from_cells(9, Some("x"), &cells).unwrap();
    assert_eq!(course.rotation, Rotation::Yearly(Some(SemesterType::Summer)));

    let course = course_from_cells(9, Some("x"), &field("Semester", "SoSe")).unwrap();
    assert_eq!(course.rotation, Rotation::Yearly(Some(SemesterType::Summer)));

    let mut cells = field("Rhythmus", "jedes Semester");
    cells.extend(field("Semester", "WiSe-2023"));
    let course = course_from_cells(9, Some("x"), &cells).unwrap();
    assert_eq!(course.rotation, Rotation::EverySemester);

    let course = course_from_cells(9, Some("x"), &field("Rhythmus", "j\u{e4}hrlich")).unwrap();
    assert_eq!(course.rotation, Rotation::Yearly(None));
}

#[test]
fn course_from_cells_fails_on_an_unrecognized_rotation() {
    assert_eq!(
        course_from_cells(9, Some("x"), &field("Rhythmus", " unbekannt ")),
        Err(LsfError::InvalidRotation(RotationParseError::Invalid("unbekannt".to_string())))
    );
    let mut cells = field("SWS", "2");
    cells.extend(field("Rhythmus", "Foo"));
    cells.extend(field("SWS", "x"));
    assert_eq!(
        course_from_cells(9, Some("x"), &cells),
        Err(LsfError::InvalidRotation(RotationParseError::Invalid("Foo".to_string())))
    );
}

#[test]
fn parse_course_fails_on_an_unrecognized_rotation() {
    let rows = "<tr><th>Veranstaltungsart</th><td>Vorlesung</td><th>SWS</th><td>4</td></tr>\
        <tr><th>Rhythmus</th><td>Foo</td><th>Credits</th><td>9</td></tr>";
    assert_eq!(
        parse_course(5, &page("Logik", rows)),
        Err(LsfError::InvalidRotation(RotationParseError::Invalid("Foo".to_string())))
    );
}

#[test]
fn parse_course_fails_on_an_unrecognized_classification() {
    let rows = "<tr><th>SWS</th><td>4</td><th>Veranstaltungsart</th><td> Foo </td></tr>\
        <tr><th>Rhythmus</th><td>jedes Semester</td><th>Credits</th><td>9</td></tr>";
    assert_eq!(
        parse_course(5, &page("Logik", rows)),
        Err(LsfError::InvalidCourseType(CourseTypeParseError::Invalid("Foo".to_string())))
    );
}

#[test]
fn apply_field_course_type() {
    let (course, semester) = read("Veranstaltungsart", "Blockseminar").unwrap();
    assert_eq!(course.course_type, CourseType::Seminar(SeminarType::Block));
    assert_eq!(semester, None);
    assert_eq!(
        read("Veranstaltungsart", "Foo"),
        Err(LsfError::InvalidCourseType(CourseTypeParseError::Invalid("Foo".to_string())))
    );
}

#[test]
fn apply_field_course_number() {
    let (course, _) = read("Veranstaltungsnummer", "040105").unwrap();
    assert_eq!(course.course_id, 40105);
    let (course, _) = read("Veranstaltungsnummer", "+12").unwrap();
    assert_eq!(course.course_id, 12);
    for bad in ["", "+", "12a", " 12", "-1", "1_000", "99999999999999999999999999"] {
        match read("Veranstaltungsnummer", bad) {
            Err(LsfError::MalformedCourseId(error)) => {
                assert_eq!(error, bad.parse::<usize>().unwrap_err())
            }
            other => panic!("{:?} gave {:?}", bad, other),
        }
    }
}

#[test]
fn apply_field_weekly_hours() {
    let (course, _) = read("SWS", "255").unwrap();
    assert_eq!(course.weekly_hours, 255);
    let (course, _) = read("SWS", "007").unwrap();
    assert_eq!(course.weekly_hours, 7);
    for bad in ["256", "", "2.5", "vier"] {
        match read("SWS", bad) {
            Err(LsfError::MalformedWeeklyHours(error)) => assert_eq!(error, bad.parse::<u8>().unwrap_err()),
            other => panic!("{:?} gave {:?}", bad, other),
        }
    }
}

#[test]
fn apply_field_credits_keeps_the_old_value_on_a_bad_number() {
    let (course, _) = read("Credits", "9").unwrap();
    assert_eq!(course.credits, 9);
    let start = Course { credits: 3, ..Course::default() };
    let (course, _) = apply_field(start, None, "Credits", "many").unwrap();
    assert_eq!(course.credits, 3);
    let start = Course { credits: 3, ..Course::default() };
    let (course, _) = apply_field(start, None, "Credits", "256").unwrap();
    assert_eq!(course.credits, 3);
}

#[test]
fn apply_field_short_name() {
    let (course, _) = read("Kurztext", "DAP 1").unwrap();
    assert_eq!(course.short_name, Some("DAP 1".to_string()));
    let (course, _) = read("Kurztext", "").unwrap();
    assert_eq!(course.short_name, None);
}

#[test]
fn apply_field_rotation() {
    let (course, _) = read("Rhythmus", "Jedes Semester").unwrap();
    assert_eq!(course.rotation, Rotation::EverySemester);
    let (course, semester) = apply_field(Course::default(), Some(SemesterType::Winter), "Rhythmus", "J\u{e4}hrlich").unwrap();
    assert_eq!(course.rotation, Rotation::Yearly(None));
    assert_eq!(semester, Some(SemesterType::Winter));
    let start = Course { rotation: Rotation::EverySemester, ..Course::default() };
    assert_eq!(
        apply_field(start, None, "Rhythmus", "selten"),
        Err(LsfError::InvalidRotation(RotationParseError::Invalid("selten".to_string())))
    );
    assert_eq!(
        read("Rhythmus", ""),
        Err(LsfError::InvalidRotation(RotationParseError::Invalid(String::new())))
    );
}

#[test]
fn apply_field_semester() {
    assert_eq!(read("Semester", "WiSe-2022/23").unwrap().1, Some(SemesterType::Winter));
    assert_eq!(read("Semester", " sose -2023").unwrap().1, Some(SemesterType::Summer));
    assert_eq!(read("Semester", "SS").unwrap().1, Some(SemesterType::Summer));
    assert_eq!(read("Semester", "2023").unwrap().1, None);
    assert_eq!(read("Semester", "Herbst-2023-x/y").unwrap().1, None);
    let (course, semester) = apply_field(Course::default(), Some(SemesterType::Winter), "Semester", "Herbst-2023").unwrap();
    assert_eq!(semester, Some(SemesterType::Winter));
    assert_eq!(course, Course::default());
}

#[test]
fn apply_field_semester_with_a_bad_year() {
    for (bad, year) in [
        ("WiSe-", ""),
        ("WiSe- 2022", " 2022"),
        ("WiSe-/23", ""),
        ("WiSe-zwei", "zwei"),
        ("WiSe--2022", ""),
        ("WiSe-99999999999999999999999999/23", "99999999999999999999999999"),
    ] {
        match read("Semester", bad) {
            Err(LsfError::MalformedYear(reason)) => {
                assert_eq!(reason, year.parse::<usize>().unwrap_err())
            }
            other => panic!("{:?} gave {:?}", bad, other),
        }
    }
}

#[test]
fn apply_field_knows_its_headers_exactly() {
    for header in ["sws", "SWS ", "Langtext", "", "Veranstaltungs"] {
        assert_eq!(read(header, "x"), Ok((Course::default(), None)));
    }
}
