//! Reading a course record out of a page of the course catalog.

use crate::text::{
    after_first, before_first, decimal_value, is_decimal_up_to, lemma_trimmed_twice, lowercased,
    parse_u8, parse_usize, same_text, split_first, trim, trimmed, u8_parse_error, unsigned_digits,
    usize_parse_error,
};
use crate::types::{
    course_type_of, rotation_of, semester_type_of, Course, CourseRecord, CourseType, Failure,
    LsfError, Rotation, SemesterType,
};
use vstd::prelude::*;

verus! {

/// An element of a page: its name and the markup inside it.
#[derive(Debug, PartialEq, Eq)]
pub struct Cell {
    pub tag: String,
    pub html: String,
}

impl View for Cell {
    type V = (Seq<char>, Seq<char>);

    open spec fn view(&self) -> (Seq<char>, Seq<char>) {
        (self.tag@, self.html@)
    }
}

/// The elements `cells` as pairs of name and inner markup, in order.
pub open spec fn cell_views(cells: Seq<Cell>) -> Seq<(Seq<char>, Seq<char>)> {
    Seq::new(cells.len(), |i: int| cells[i]@)
}

/// The selector of the heading that names the course.
pub const HEADING: &'static str = ".form > h1:nth-child(1)";

/// The selector of the rows of the table of fields.
pub const ROWS: &'static str = ".form > table:first-of-type tr";

/// The selector of the cells of a row: headers and data alike.
pub const CELLS: &'static str = "th, td";

/// What scraper finds in the document `page` for the CSS selector
/// `selector`: the elements that match, in the order in which scraper yields
/// them, each as its name and its inner markup; `None` where `selector` is no
/// selector.
pub uninterp spec fn selected(page: Seq<char>, selector: Seq<char>) -> Option<
    Seq<(Seq<char>, Seq<char>)>,
>;

/// What scraper finds in the document `page` below the elements that match
/// `outer`: for each of them, in the order in which scraper yields them, its
/// descendants that match `inner`, in the order in which scraper yields
/// those, each as its name and its inner markup; `None` where `outer` or
/// `inner` is no selector.
pub uninterp spec fn selected_within(page: Seq<char>, outer: Seq<char>, inner: Seq<char>) -> Option<
    Seq<(Seq<char>, Seq<char>)>,
>;

/// Parses `page` with scraper's `Html::parse_document` and `selector` with
/// `Selector::parse`, and walks `Html::select`, taking of each element
/// `Element::name` and `ElementRef::inner_html`. The result is the named
/// sequence `selected`; a selector that does not parse gives `None`.
#[verifier::external_body]
fn select(page: &str, selector: &str) -> (found: Option<Vec<Cell>>)
    ensures
        match found {
            Some(cells) => selected(page@, selector@) == Some(cell_views(cells@)),
            None => selected(page@, selector@) is None,
        },
{
    let selector = scraper::Selector::parse(selector).ok()?;
    let document = scraper::Html::parse_document(page);
    let cells = document.select(&selector);
    Some(cells.map(|e| Cell { tag: e.value().name().to_owned(), html: e.inner_html() }).collect())
}

/// As `select`, but walks `ElementRef::select` with `inner` on each element
/// that `Html::select` finds for `outer`. The result is the named sequence
/// `selected_within`; a selector that does not parse gives `None`.
#[verifier::external_body]
fn select_within(page: &str, outer: &str, inner: &str) -> (found: Option<Vec<Cell>>)
    ensures
        match found {
            Some(cells) => selected_within(page@, outer@, inner@) == Some(cell_views(cells@)),
            None => selected_within(page@, outer@, inner@) is None,
        },
{
    let outer = scraper::Selector::parse(outer).ok()?;
    let inner = scraper::Selector::parse(inner).ok()?;
    let document = scraper::Html::parse_document(page);
    let cells = document.select(&outer).flat_map(|row| row.select(&inner));
    Some(cells.map(|e| Cell { tag: e.value().name().to_owned(), html: e.inner_html() }).collect())
}

/// A course record being read, with the semester that the page names, which
/// goes into a yearly rotation at the end.
pub struct Draft {
    pub record: CourseRecord,
    pub semester: Option<SemesterType>,
}

/// The draft after the `Semester` field with the content `data`.
///
/// The part before the first `-` names the semester; where it is no semester
/// label, the semester stays as it was. The part between the first `-` and the
/// next `-` or `/` is the year, which has to be a number.
pub open spec fn semester_applied(draft: Draft, data: Seq<char>) -> Result<Draft, Failure> {
    let named = semester_type_of(lowercased(trimmed(before_first(data, '-'))));
    let semester = if named is Some {
        named
    } else {
        draft.semester
    };
    match after_first(data, '-') {
        None => Ok(Draft { semester, ..draft }),
        Some(rest) => {
            let year = before_first(before_first(rest, '-'), '/');
            if is_decimal_up_to(year, usize::MAX as nat) {
                Ok(Draft { semester, ..draft })
            } else {
                Err(Failure::MalformedYear(usize_parse_error(year)))
            }
        },
    }
}

/// The draft after the field named `header` with the content `data`, both
/// trimmed, or the failure that ends the reading.
pub open spec fn field_applied(draft: Draft, header: Seq<char>, data: Seq<char>) -> Result<
    Draft,
    Failure,
> {
    let record = draft.record;
    if header == "Veranstaltungsart"@ {
        match course_type_of(lowercased(trimmed(data))) {
            Some(kind) => Ok(Draft { record: CourseRecord { course_type: kind, ..record }, ..draft }),
            None => Err(Failure::InvalidCourseType(data)),
        }
    } else if header == "Veranstaltungsnummer"@ {
        if is_decimal_up_to(data, usize::MAX as nat) {
            Ok(
                Draft {
                    record: CourseRecord {
                        course_id: decimal_value(unsigned_digits(data)) as usize,
                        ..record
                    },
                    ..draft
                },
            )
        } else {
            Err(Failure::MalformedCourseId(usize_parse_error(data)))
        }
    } else if header == "Kurztext"@ && data.len() > 0 {
        Ok(Draft { record: CourseRecord { short_name: Some(data), ..record }, ..draft })
    } else if header == "SWS"@ {
        if is_decimal_up_to(data, u8::MAX as nat) {
            Ok(
                Draft {
                    record: CourseRecord {
                        weekly_hours: decimal_value(unsigned_digits(data)) as u8,
                        ..record
                    },
                    ..draft
                },
            )
        } else {
            Err(Failure::MalformedWeeklyHours(u8_parse_error(data)))
        }
    } else if header == "Rhythmus"@ {
        match rotation_of(lowercased(data), None) {
            Some(rotation) => Ok(Draft { record: CourseRecord { rotation, ..record }, ..draft }),
            None => Err(Failure::InvalidRotation(data)),
        }
    } else if header == "Semester"@ {
        semester_applied(draft, data)
    } else if header == "Credits"@ {
        if is_decimal_up_to(data, u8::MAX as nat) {
            Ok(
                Draft {
                    record: CourseRecord {
                        credits: decimal_value(unsigned_digits(data)) as u8,
                        ..record
                    },
                    ..draft
                },
            )
        } else {
            Ok(draft)
        }
    } else {
        Ok(draft)
    }
}

/// The draft after the fields of `cells` from the index `from` on, or the
/// first failure among them. A field is a `th` element and the element that
/// follows it; the last element starts no field.
pub open spec fn fields_applied(cells: Seq<(Seq<char>, Seq<char>)>, from: int, draft: Draft) -> Result<
    Draft,
    Failure,
>
    decreases cells.len() - from,
{
    if from < 0 || from + 1 >= cells.len() {
        Ok(draft)
    } else if cells[from].0 != "th"@ {
        fields_applied(cells, from + 1, draft)
    } else {
        match field_applied(draft, trimmed(cells[from].1), trimmed(cells[from + 1].1)) {
            Ok(next) => fields_applied(cells, from + 1, next),
            Err(failure) => Err(failure),
        }
    }
}

/// The record that a finished draft stands for: a yearly rotation is offered
/// in the semester that the page named, if it named one.
pub open spec fn finished(draft: Draft) -> CourseRecord {
    if draft.record.rotation is Yearly {
        CourseRecord { rotation: Rotation::Yearly(draft.semester), ..draft.record }
    } else {
        draft.record
    }
}

/// The draft that reading starts from: the entry's id, the name that the
/// heading's markup gives, and nothing else known.
pub open spec fn first_draft(id: usize, markup: Seq<char>) -> Draft {
    Draft {
        record: CourseRecord {
            lsf_id: id,
            name: trimmed(before_first(markup, '-')),
            ..CourseRecord::blank()
        },
        semester: None,
    }
}

/// The course record of the catalog entry `id`, given the inner markup of the
/// page's heading, if it has one, and the cells of its table of fields.
///
/// A page without heading is no entry. The course's name is the heading up to
/// its first `-`, trimmed.
pub open spec fn course_of(
    id: usize,
    heading: Option<Seq<char>>,
    cells: Seq<(Seq<char>, Seq<char>)>,
) -> Result<CourseRecord, Failure> {
    match heading {
        None => Err(Failure::CourseDoesNotExist(id)),
        Some(markup) => {
            match fields_applied(cells, 0, first_draft(id, markup)) {
                Ok(draft) => Ok(finished(draft)),
                Err(failure) => Err(failure),
            }
        },
    }
}

/// What a result of reading a course stands for.
pub open spec fn outcome(read: Result<Course, LsfError>) -> Result<CourseRecord, Failure> {
    match read {
        Ok(course) => Ok(course@),
        Err(error) => Err(error@),
    }
}

/// What a draft in progress stands for.
pub open spec fn draft_of(course: Course, semester: Option<SemesterType>) -> Draft {
    Draft { record: course@, semester }
}

/// What a step of reading stands for.
pub open spec fn step_outcome(step: Result<(Course, Option<SemesterType>), LsfError>) -> Result<
    Draft,
    Failure,
> {
    match step {
        Ok((course, semester)) => Ok(draft_of(course, semester)),
        Err(error) => Err(error@),
    }
}

/// Reads the `Semester` field with the content `data` into the draft.
fn apply_semester(course: Course, semester: Option<SemesterType>, data: &str) -> (step: Result<
    (Course, Option<SemesterType>),
    LsfError,
>)
    ensures
        step_outcome(step) == semester_applied(draft_of(course, semester), data@),
{
    let (name, rest) = split_first(data, '-');
    let semester = match SemesterType::from_str(name) {
        Ok(named) => Some(named),
        Err(_) => semester,
    };
    match rest {
        None => Ok((course, semester)),
        Some(rest) => {
            let (piece, _) = split_first(rest, '-');
            let (year, _) = split_first(piece, '/');
            match parse_usize(year) {
                Ok(_) => Ok((course, semester)),
                Err(error) => Err(LsfError::MalformedYear(error)),
            }
        },
    }
}

/// Reads the field named `header` with the content `data`, both trimmed,
/// into the draft.
pub fn apply_field(
    course: Course,
    semester: Option<SemesterType>,
    header: &str,
    data: &str,
) -> (step: Result<(Course, Option<SemesterType>), LsfError>)
    ensures
        step_outcome(step) == field_applied(draft_of(course, semester), header@, data@),
{
    let mut course = course;
    if same_text(header, "Veranstaltungsart") {
        match CourseType::from_str(data) {
            Ok(kind) => {
                course.course_type = kind;
                Ok((course, semester))
            },
            Err(error) => Err(LsfError::InvalidCourseType(error)),
        }
    } else if same_text(header, "Veranstaltungsnummer") {
        match parse_usize(data) {
            Ok(number) => {
                course.course_id = number;
                Ok((course, semester))
            },
            Err(error) => Err(LsfError::MalformedCourseId(error)),
        }
    } else if same_text(header, "Kurztext") && !data.is_empty() {
        course.short_name = Some(data.to_owned());
        Ok((course, semester))
    } else if same_text(header, "SWS") {
        match parse_u8(data) {
            Ok(hours) => {
                course.weekly_hours = hours;
                Ok((course, semester))
            },
            Err(error) => Err(LsfError::MalformedWeeklyHours(error)),
        }
    } else if same_text(header, "Rhythmus") {
        match Rotation::try_from((data, None)) {
            Ok(found) => {
                course.rotation = found;
                Ok((course, semester))
            },
            Err(error) => Err(LsfError::InvalidRotation(error)),
        }
    } else if same_text(header, "Semester") {
        apply_semester(course, semester, data)
    } else if same_text(header, "Credits") {
        match parse_u8(data) {
            Ok(credits) => {
                course.credits = credits;
            },
            Err(_) => {},
        }
        Ok((course, semester))
    } else {
        Ok((course, semester))
    }
}

/// Reads the course record of the catalog entry `id` from the inner markup of
/// the page's heading, if it has one, and the cells of its table of fields.
///
/// The first field that cannot be read ends the reading with its failure.
pub fn course_from_cells(id: usize, heading: Option<&str>, cells: &Vec<Cell>) -> (read: Result<
    Course,
    LsfError,
>)
    ensures
        outcome(read) == course_of(
            id,
            match heading {
                Some(markup) => Some(markup@),
                None => None,
            },
            cell_views(cells@),
        ),
{
    let markup = match heading {
        Some(markup) => markup,
        None => {
            return Err(LsfError::CourseDoesNotExist(id));
        },
    };
    let (title, _) = split_first(markup, '-');
    let mut course = Course::default();
    course.lsf_id = id;
    course.name = trim(title).to_owned();
    let mut semester: Option<SemesterType> = None;
    let ghost all = cell_views(cells@);
    let ghost start = draft_of(course, semester);
    let ghost goal = course_of(id, Some(markup@), all);
    let last = if cells.len() > 0 {
        cells.len() - 1
    } else {
        0
    };
    let mut at: usize = 0;
    while at < last
        invariant
            all == cell_views(cells@),
            at <= last,
            goal == course_of(
                id,
                match heading {
                    Some(markup) => Some(markup@),
                    None => None,
                },
                cell_views(cells@),
            ),
            goal == match fields_applied(all, 0, start) {
                Ok(draft) => Ok::<CourseRecord, Failure>(finished(draft)),
                Err(failure) => Err(failure),
            },
            last + 1 == cells@.len() || (last == 0 && cells@.len() == 0),
            fields_applied(all, 0, start) == fields_applied(
                all,
                at as int,
                draft_of(course, semester),
            ),
        decreases last - at,
    {
        if same_text(cells[at].tag.as_str(), "th") {
            let header = trim(cells[at].html.as_str());
            let data = trim(cells[at + 1].html.as_str());
            match apply_field(course, semester, header, data) {
                Ok((next, named)) => {
                    course = next;
                    semester = named;
                },
                Err(error) => {
                    return Err(error);
                },
            }
        }
        at += 1;
    }
    match course.rotation {
        Rotation::Yearly(_) => {
            course.rotation = Rotation::Yearly(semester);
        },
        Rotation::EverySemester => {},
    }
    Ok(course)
}

/// The first of the elements found, as its inner markup.
pub open spec fn first_markup(found: Option<Seq<(Seq<char>, Seq<char>)>>) -> Option<Seq<char>> {
    match found {
        Some(cells) => if cells.len() > 0 {
            Some(cells[0].1)
        } else {
            None
        },
        None => None,
    }
}

/// The elements found, none where there was nothing to find them with.
pub open spec fn found_cells(found: Option<Seq<(Seq<char>, Seq<char>)>>) -> Seq<
    (Seq<char>, Seq<char>),
> {
    match found {
        Some(cells) => cells,
        None => Seq::empty(),
    }
}

/// Reads the course record of the catalog entry `id` from the text of its
/// page: the heading gives the name, the first table its fields.
pub fn parse_course(id: usize, page: &str) -> (read: Result<Course, LsfError>)
    ensures
        outcome(read) == course_of(
            id,
            first_markup(selected(page@, HEADING@)),
            found_cells(selected_within(page@, ROWS@, CELLS@)),
        ),
{
    let cells = match select_within(page, ROWS, CELLS) {
        Some(cells) => cells,
        None => Vec::new(),
    };
    let headings = match select(page, HEADING) {
        Some(headings) => headings,
        None => Vec::new(),
    };
    assert(cell_views(cells@) =~= found_cells(selected_within(page@, ROWS@, CELLS@)));
    if headings.len() > 0 {
        course_from_cells(id, Some(headings[0].html.as_str()), &cells)
    } else {
        course_from_cells(id, None, &cells)
    }
}

/// The first field that cannot be read ends the reading with its failure:
/// where the fields before the cell `at` are read, and give `before`, and the
/// field that starts at `at` fails, the whole reading fails in that way.
pub proof fn lemma_failing_field_ends_reading(
    cells: Seq<(Seq<char>, Seq<char>)>,
    from: int,
    at: int,
    draft: Draft,
    before: Draft,
    failure: Failure,
)
    requires
        0 <= from <= at,
        at + 1 < cells.len(),
        cells[at].0 == "th"@,
        fields_applied(cells.take(at + 1), from, draft) == Ok::<Draft, Failure>(before),
        field_applied(before, trimmed(cells[at].1), trimmed(cells[at + 1].1)) == Err::<
            Draft,
            Failure,
        >(failure),
    ensures
        fields_applied(cells, from, draft) == Err::<Draft, Failure>(failure),
    decreases at - from,
{
    let fields_before = cells.take(at + 1);
    if from < at {
        assert(fields_before[from] == cells[from]);
        assert(fields_before[from + 1] == cells[from + 1]);
        if cells[from].0 != "th"@ {
            lemma_failing_field_ends_reading(cells, from + 1, at, draft, before, failure);
        } else {
            match field_applied(draft, trimmed(cells[from].1), trimmed(cells[from + 1].1)) {
                Ok(next) => {
                    lemma_failing_field_ends_reading(cells, from + 1, at, next, before, failure);
                },
                Err(_) => {},
            }
        }
    }
}

/// A label outside the vocabulary is a failure that holds the label as the
/// field gave it: a classification is never taken as `Other`, nor a rotation
/// as yearly.
pub proof fn lemma_unrecognized_label_fails(draft: Draft, data: Seq<char>)
    ensures
        course_type_of(lowercased(trimmed(data))) is None ==> field_applied(
            draft,
            "Veranstaltungsart"@,
            data,
        ) == Err::<Draft, Failure>(Failure::InvalidCourseType(data)),
        rotation_of(lowercased(data), None) is None ==> field_applied(draft, "Rhythmus"@, data)
            == Err::<Draft, Failure>(Failure::InvalidRotation(data)),
{
    reveal_strlit("Veranstaltungsart");
    reveal_strlit("Veranstaltungsnummer");
    reveal_strlit("Kurztext");
    reveal_strlit("SWS");
    reveal_strlit("Rhythmus");
    assert("Rhythmus"@.len() == 8);
    assert("Veranstaltungsart"@.len() == 17);
    assert("Veranstaltungsnummer"@.len() == 20);
    assert("SWS"@.len() == 3);
    assert("Kurztext"@[0] == 'K');
    assert("Rhythmus"@[0] == 'R');
}

/// Reading a page whose classification is outside the vocabulary fails with
/// that label, trimmed, whatever follows: given that the fields before it
/// are read, and that the label, trimmed and in lower case, is no word of the
/// vocabulary.
pub proof fn lemma_unrecognized_classification_fails(
    id: usize,
    markup: Seq<char>,
    cells: Seq<(Seq<char>, Seq<char>)>,
    at: int,
)
    requires
        0 <= at,
        at + 1 < cells.len(),
        cells[at].0 == "th"@,
        trimmed(cells[at].1) == "Veranstaltungsart"@,
        fields_applied(cells.take(at + 1), 0, first_draft(id, markup)) is Ok,
        course_type_of(lowercased(trimmed(cells[at + 1].1))) is None,
    ensures
        course_of(id, Some(markup), cells) == Err::<CourseRecord, Failure>(
            Failure::InvalidCourseType(trimmed(cells[at + 1].1)),
        ),
{
    let before = fields_applied(cells.take(at + 1), 0, first_draft(id, markup))->Ok_0;
    let label = trimmed(cells[at + 1].1);
    lemma_trimmed_twice(cells[at + 1].1);
    lemma_unrecognized_label_fails(before, label);
    lemma_failing_field_ends_reading(
        cells,
        0,
        at,
        first_draft(id, markup),
        before,
        Failure::InvalidCourseType(label),
    );
}

/// Reading a page whose rotation is outside the vocabulary fails with that
/// label, trimmed, whatever follows: given that the fields before it are
/// read, and that the label, trimmed and in lower case, is no word of the
/// vocabulary.
pub proof fn lemma_unrecognized_rotation_fails(
    id: usize,
    markup: Seq<char>,
    cells: Seq<(Seq<char>, Seq<char>)>,
    at: int,
)
    requires
        0 <= at,
        at + 1 < cells.len(),
        cells[at].0 == "th"@,
        trimmed(cells[at].1) == "Rhythmus"@,
        fields_applied(cells.take(at + 1), 0, first_draft(id, markup)) is Ok,
        rotation_of(lowercased(trimmed(cells[at + 1].1)), None) is None,
    ensures
        course_of(id, Some(markup), cells) == Err::<CourseRecord, Failure>(
            Failure::InvalidRotation(trimmed(cells[at + 1].1)),
        ),
{
    let before = fields_applied(cells.take(at + 1), 0, first_draft(id, markup))->Ok_0;
    let label = trimmed(cells[at + 1].1);
    lemma_unrecognized_label_fails(before, label);
    lemma_failing_field_ends_reading(
        cells,
        0,
        at,
        first_draft(id, markup),
        before,
        Failure::InvalidRotation(label),
    );
}

} // verus!
