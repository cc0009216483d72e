//! The mathematical model of a requirement expression and its meaning.

use crate::text::{decimal_digits, quoted};
use vstd::prelude::*;

verus! {

/// A requirement expression as a mathematical tree.
pub enum Requirement {
    Empty,
    Course(Seq<char>),
    All(Seq<Requirement>),
    Any(nat, Seq<Requirement>),
}

impl Requirement {
    /// The conjunctive group over `members`; no members give `Empty`.
    pub open spec fn all(members: Seq<Requirement>) -> Requirement {
        if members.len() == 0 {
            Requirement::Empty
        } else {
            Requirement::All(members)
        }
    }

    /// The group that asks for `needed` of `members`; no members give `Empty`,
    /// whatever `needed` is.
    pub open spec fn any(needed: nat, members: Seq<Requirement>) -> Requirement {
        if members.len() == 0 {
            Requirement::Empty
        } else {
            Requirement::Any(needed, members)
        }
    }

    /// One leaf per course code, in order.
    pub open spec fn leaves(ids: Seq<Seq<char>>) -> Seq<Requirement> {
        Seq::new(ids.len(), |i: int| Requirement::Course(ids[i]))
    }

    /// The members of a node: those of a group, the leaf itself for a leaf,
    /// none for `Empty`.
    pub open spec fn members(self) -> Seq<Requirement> {
        match self {
            Requirement::Empty => Seq::empty(),
            Requirement::Course(id) => seq![self],
            Requirement::All(members) => members,
            Requirement::Any(_, members) => members,
        }
    }

    /// Whether the tree is well formed: no group in it is without members, and
    /// every threshold is at least one and at most the number of members it
    /// ranges over.
    pub open spec fn well_formed(self) -> bool
        decreases self,
    {
        match self {
            Requirement::Empty => true,
            Requirement::Course(_) => true,
            Requirement::All(members) => members.len() > 0 && all_well_formed(members),
            Requirement::Any(needed, members) => members.len() > 0 && 1 <= needed
                <= members.len() && all_well_formed(members),
        }
    }

    /// The text that shows this node: `Empty` for the neutral node, the quoted
    /// course code for a leaf, and for a group its label, `All` or `Any` with
    /// the threshold, around the list of its members.
    pub open spec fn rendering(self) -> Seq<char>
        decreases self,
    {
        match self {
            Requirement::Empty => "Empty"@,
            Requirement::Course(id) => quoted(id),
            Requirement::All(members) => "All(["@ + joined_renderings(members) + "])"@,
            Requirement::Any(needed, members) => "Any("@ + decimal_digits(needed) + ", ["@
                + joined_renderings(members) + "])"@,
        }
    }

    /// The conjunction of `self` and `other`, given which of the two, if both
    /// are conjunctive groups, holds its members exclusively.
    pub open spec fn and_outcome(
        self,
        other: Requirement,
        left_owned: bool,
        right_owned: bool,
    ) -> Requirement {
        if self is Empty {
            other
        } else if other is Empty {
            self
        } else {
            match (self, other) {
                (Requirement::All(left), Requirement::All(right)) => Requirement::All(
                    merged_members(true, left, right, left_owned, right_owned),
                ),
                _ => Requirement::All(seq![self, other]),
            }
        }
    }

    /// The disjunction of `self` and `other`, given which of the two, if both
    /// are one-of groups, holds its members exclusively.
    pub open spec fn or_outcome(
        self,
        other: Requirement,
        left_owned: bool,
        right_owned: bool,
    ) -> Requirement {
        if self is Empty {
            other
        } else if other is Empty {
            self
        } else {
            match (self, other) {
                (Requirement::Any(left_needed, left), Requirement::Any(right_needed, right)) => {
                    if left_needed == 1 && right_needed == 1 {
                        Requirement::Any(
                            1,
                            merged_members(false, left, right, left_owned, right_owned),
                        )
                    } else {
                        Requirement::Any(1, seq![self, other])
                    }
                },
                _ => Requirement::Any(1, seq![self, other]),
            }
        }
    }

    /// Whether `self` is a result that the conjunction of `left` and `right`
    /// can have.
    pub open spec fn is_and_of(self, left: Requirement, right: Requirement) -> bool {
        exists|left_owned: bool, right_owned: bool|
            self == #[trigger] left.and_outcome(right, left_owned, right_owned)
    }

    /// Whether `self` is a result that the disjunction of `left` and `right`
    /// can have.
    pub open spec fn is_or_of(self, left: Requirement, right: Requirement) -> bool {
        exists|left_owned: bool, right_owned: bool|
            self == #[trigger] left.or_outcome(right, left_owned, right_owned)
    }

    /// Whether the courses in `done` satisfy this requirement.
    pub open spec fn holds(self, done: Set<Seq<char>>) -> bool
        decreases self,
    {
        match self {
            Requirement::Empty => true,
            Requirement::Course(id) => done.contains(id),
            Requirement::All(members) => all_hold(members, done),
            Requirement::Any(needed, members) => count_holding(members, done) >= needed,
        }
    }
}

/// What a conjunctive (`true`) or one-of (`false`) group over `members` is.
pub open spec fn group_of(conjunctive: bool, members: Seq<Requirement>) -> Requirement {
    if conjunctive {
        Requirement::All(members)
    } else {
        Requirement::Any(1, members)
    }
}

/// The members of the group that combining two like groups gives.
///
/// A side whose members have no other owner is the base and is extended in
/// place; when both are exclusively owned the longer one is the base and takes
/// the other's members. A side whose members are shared is kept whole, as one
/// nested member.
pub open spec fn merged_members(
    conjunctive: bool,
    left: Seq<Requirement>,
    right: Seq<Requirement>,
    left_owned: bool,
    right_owned: bool,
) -> Seq<Requirement> {
    if left_owned && right_owned {
        if left.len() > right.len() {
            left + right
        } else {
            right + left
        }
    } else if left_owned {
        left.push(group_of(conjunctive, right))
    } else if right_owned {
        right.push(group_of(conjunctive, left))
    } else {
        seq![group_of(conjunctive, left), group_of(conjunctive, right)]
    }
}

/// Whether every one of `members` is well formed.
pub open spec fn all_well_formed(members: Seq<Requirement>) -> bool
    decreases members,
{
    forall|i: int| 0 <= i < members.len() ==> (#[trigger] members[i]).well_formed()
}

/// The texts that show `members`, in order, with `, ` between each two.
pub open spec fn joined_renderings(members: Seq<Requirement>) -> Seq<char>
    decreases members,
{
    if members.len() == 0 {
        Seq::empty()
    } else if members.len() == 1 {
        members[0].rendering()
    } else {
        joined_renderings(members.drop_last()) + ", "@ + members.last().rendering()
    }
}

/// Whether every one of `members` is satisfied by the courses in `done`.
pub open spec fn all_hold(members: Seq<Requirement>, done: Set<Seq<char>>) -> bool
    decreases members,
{
    forall|i: int| 0 <= i < members.len() ==> (#[trigger] members[i]).holds(done)
}

/// How many of `members` are satisfied by the courses in `done`.
pub open spec fn count_holding(members: Seq<Requirement>, done: Set<Seq<char>>) -> nat
    decreases members,
{
    if members.len() == 0 {
        0
    } else {
        count_holding(members.drop_last(), done) + if members.last().holds(done) {
            1nat
        } else {
            0nat
        }
    }
}

} // verus!
