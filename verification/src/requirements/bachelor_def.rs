//! The plan of the bachelor's degree in computer science.

use super::model::Requirement;
use super::{course_codes, PlanRequirements};
use vstd::prelude::*;

verus! {

/// The courses that everyone has to complete.
pub open spec fn required_courses() -> Seq<Seq<char>> {
    seq![
        "040105"@,
        "040115"@,
        "040101"@,
        "040111"@,
        "040501"@,
        "040503"@,
        "040113"@,
        "040125"@,
        "040121"@,
        "050358"@,
        "040131"@,
        "040135"@,
        "040141"@,
        "080624"@,
    ]
}

/// The two forms of the software project, of which one is needed: during the
/// semester, or in the break.
pub open spec fn software_project_courses() -> Seq<Seq<char>> {
    seq!["040137"@, "040138"@]
}

/// The elective software courses, of which two are needed.
pub open spec fn software_elective_courses() -> Seq<Seq<char>> {
    seq!["040215"@, "040217"@, "040211"@]
}

/// The plan: all required courses, one form of the software project, and two
/// of the software electives, combined one after the other.
pub open spec fn bachelor_plan() -> Requirement {
    Requirement::All(
        seq![
            Requirement::All(
                seq![
                    Requirement::All(Requirement::leaves(required_courses())),
                    Requirement::Any(1, Requirement::leaves(software_project_courses())),
                ],
            ),
            Requirement::Any(2, Requirement::leaves(software_elective_courses())),
        ],
    )
}

/// Builds the plan of the bachelor's degree.
pub fn bachelor_requirements() -> (plan: PlanRequirements)
    ensures
        plan@ == bachelor_plan(),
{
    let required = [
        "040105",  // DAP 1
        "040115",  // DAP 2
        "040101",  // RS
        "040111",  // BS
        "040501",  // MafI 1
        "040503",  // MafI 2
        "040113",  // RvS
        "040125",  // Logik
        "040121",  // HaPra
        "050358",  // WrumS
        "040131",  // IS
        "040135",  // SWT
        "040141",  // GTI
        "080624",  // ETKT
    ];
    let project = ["040137", "040138"];
    let electives = [
        "040215",  // UeBau
        "040217",  // FuPro
        "040211",  // SWK
    ];
    assert(course_codes(required@) =~= required_courses());
    assert(course_codes(project@) =~= software_project_courses());
    assert(course_codes(electives@) =~= software_elective_courses());

    let mut plan = PlanRequirements::Empty;
    plan.and_assign(PlanRequirements::all_courses(required.as_slice()));
    plan.and_assign(PlanRequirements::any_courses(1, project.as_slice()));
    plan.and_assign(PlanRequirements::any_courses(2, electives.as_slice()));
    plan
}

} // verus!
