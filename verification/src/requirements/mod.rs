//! Requirement expressions: which combinations of courses complete a plan.

use std::ops::{BitAnd, BitAndAssign, BitOr, BitOrAssign};
use std::sync::Arc;
use vstd::prelude::*;

pub mod bachelor_def;
pub mod laws;
pub mod model;

use self::model::{
    all_hold, count_holding, group_of, joined_renderings, merged_members, Requirement,
};
use crate::text::{decimal, quote, same_text};

verus! {

/// A requirement over course identifiers.
///
/// Two requirements are equal when they have the same shape, whoever holds
/// their members.
pub enum PlanRequirements {
    /// The neutral requirement: always satisfied, absorbed by every combination.
    Empty,
    /// A single course, named by its course code.
    Course(&'static str),
    /// Every member must be satisfied.
    All(Arc<Vec<PlanRequirements>>),
    /// At least the given number of members must be satisfied.
    Any(usize, Arc<Vec<PlanRequirements>>),
}

/// The models of a sequence of requirement nodes, in order. (The test on the
/// index is there to show that a node's model is made of the models of nodes
/// below it only.)
pub open spec fn views(nodes: Seq<PlanRequirements>) -> Seq<Requirement>
    decreases nodes,
{
    Seq::new(nodes.len(), |i: int| if 0 <= i < nodes.len() { nodes[i]@ } else { Requirement::Empty })
}

impl View for PlanRequirements {
    type V = Requirement;

    open spec fn view(&self) -> Requirement
        decreases self,
    {
        match self {
            PlanRequirements::Empty => Requirement::Empty,
            PlanRequirements::Course(id) => Requirement::Course(id@),
            PlanRequirements::All(members) => Requirement::All(views(members@)),
            PlanRequirements::Any(needed, members) => Requirement::Any(*needed as nat, views(members@)),
        }
    }
}

/// The models of the requirement nodes that `nodes` refer to, in order.
pub open spec fn ref_views(nodes: Seq<&PlanRequirements>) -> Seq<Requirement> {
    Seq::new(nodes.len(), |i: int| nodes[i]@)
}

/// The course codes in `courses` as sequences of characters, in order.
pub open spec fn course_codes(courses: Seq<&'static str>) -> Seq<Seq<char>> {
    Seq::new(courses.len(), |i: int| courses[i]@)
}

/// A copy of each node that `reqs` refers to, in order.
fn copies(reqs: &[&PlanRequirements]) -> (members: Vec<PlanRequirements>)
    ensures
        views(members@) == ref_views(reqs@),
        members@.len() == reqs@.len(),
{
    let mut members: Vec<PlanRequirements> = Vec::new();
    let mut at: usize = 0;
    while at < reqs.len()
        invariant
            at <= reqs@.len(),
            members@.len() == at,
            forall|i: int| 0 <= i < at ==> members@[i] == *reqs@[i],
        decreases reqs@.len() - at,
    {
        members.push(reqs[at].clone());
        at += 1;
    }
    assert(views(members@) =~= ref_views(reqs@));
    members
}

/// One leaf per course code in `courses`, in order.
fn leaves(courses: &[&'static str]) -> (members: Vec<PlanRequirements>)
    ensures
        views(members@) == Requirement::leaves(course_codes(courses@)),
        members@.len() == courses@.len(),
{
    let mut members: Vec<PlanRequirements> = Vec::new();
    let mut at: usize = 0;
    while at < courses.len()
        invariant
            at <= courses@.len(),
            members@.len() == at,
            forall|i: int| 0 <= i < at ==> members@[i] == PlanRequirements::Course(courses@[i]),
        decreases courses@.len() - at,
    {
        members.push(PlanRequirements::Course(courses[at]));
        at += 1;
    }
    assert(views(members@) =~= Requirement::leaves(course_codes(courses@)));
    members
}

/// The set of the course codes listed in `completed`.
pub open spec fn completed_set(completed: Seq<&str>) -> Set<Seq<char>> {
    Set::new(
        |id: Seq<char>| exists|i: int| 0 <= i < completed.len() && (#[trigger] completed[i])@ == id,
    )
}

/// Whether `completed` lists the course `id`.
fn lists_course(completed: &[&str], id: &str) -> (listed: bool)
    ensures
        listed == completed_set(completed@).contains(id@),
{
    let mut at: usize = 0;
    while at < completed.len()
        invariant
            at <= completed@.len(),
            forall|i: int| 0 <= i < at ==> (#[trigger] completed@[i])@ != id@,
        decreases completed@.len() - at,
    {
        if same_text(completed[at], id) {
            return true;
        }
        at += 1;
    }
    false
}

/// The members of one side of a merge: `Ok` when no other owner holds them,
/// `Err` with the shared sequence otherwise.
pub open spec fn side_members(
    side: Result<Vec<PlanRequirements>, Arc<Vec<PlanRequirements>>>,
) -> Seq<Requirement> {
    match side {
        Ok(owned) => views(owned@),
        Err(shared) => views(shared@),
    }
}

/// Calls `Arc::try_unwrap`: hands the members out when no other owner holds
/// them, and hands the shared sequence back otherwise. Which of the two
/// happens depends on the other owners, so only what holds of both is stated:
/// either way the members are those that went in.
#[verifier::external_body]
fn take_or_share(members: Arc<Vec<PlanRequirements>>) -> (side: Result<
    Vec<PlanRequirements>,
    Arc<Vec<PlanRequirements>>,
>)
    ensures
        match side {
            Ok(owned) => owned == *members,
            Err(shared) => shared == members,
        },
{
    Arc::try_unwrap(members)
}

/// Calls `Arc::clone`: one more owner of the same members. The result is the
/// sequence that went in.
#[verifier::external_body]
fn share(members: &Arc<Vec<PlanRequirements>>) -> (shared: Arc<Vec<PlanRequirements>>)
    ensures
        shared == *members,
{
    Arc::clone(members)
}

/// Combines the members of two like groups, conjunctive (`true`) or one-of
/// (`false`), into one group of that kind.
pub fn merge_groups(
    conjunctive: bool,
    left: Result<Vec<PlanRequirements>, Arc<Vec<PlanRequirements>>>,
    right: Result<Vec<PlanRequirements>, Arc<Vec<PlanRequirements>>>,
) -> (node: PlanRequirements)
    ensures
        node@ == group_of(
            conjunctive,
            merged_members(
                conjunctive,
                side_members(left),
                side_members(right),
                left is Ok,
                right is Ok,
            ),
        ),
{
    let members = match (left, right) {
        (Ok(mut left_owned), Ok(mut right_owned)) => {
            if left_owned.len() > right_owned.len() {
                left_owned.append(&mut right_owned);
                left_owned
            } else {
                right_owned.append(&mut left_owned);
                right_owned
            }
        },
        (Ok(mut left_owned), Err(right_shared)) => {
            left_owned.push(group(conjunctive, right_shared));
            left_owned
        },
        (Err(left_shared), Ok(mut right_owned)) => {
            right_owned.push(group(conjunctive, left_shared));
            right_owned
        },
        (Err(left_shared), Err(right_shared)) => {
            let mut pair = Vec::new();
            pair.push(group(conjunctive, left_shared));
            pair.push(group(conjunctive, right_shared));
            pair
        },
    };
    assert(views(members@) =~= merged_members(
        conjunctive,
        side_members(left),
        side_members(right),
        left is Ok,
        right is Ok,
    ));
    group(conjunctive, Arc::new(members))
}

/// The conjunctive (`true`) or one-of (`false`) group over `members`.
fn group(conjunctive: bool, members: Arc<Vec<PlanRequirements>>) -> (node: PlanRequirements)
    ensures
        node@ == group_of(conjunctive, views(members@)),
{
    if conjunctive {
        PlanRequirements::All(members)
    } else {
        PlanRequirements::Any(1, members)
    }
}

/// The texts that show `members`, in order, with `, ` between each two.
fn render_members(members: &Vec<PlanRequirements>) -> (text: String)
    ensures
        text@ == joined_renderings(views(members@)),
    decreases members,
{
    let mut text = String::new();
    let mut at: usize = 0;
    while at < members.len()
        invariant
            at <= members@.len(),
            text@ == joined_renderings(views(members@).take(at as int)),
        decreases members@.len() - at,
    {
        if at > 0 {
            text.append(", ");
        }
        assert(decreases_to!(members => members[at as int])) by {
            broadcast use vstd::std_specs::vec::group_vec_axioms;

        }
        let shown = members[at].render();
        text.append(shown.as_str());
        proof {
            let upto = views(members@).take(at as int + 1);
            assert(upto.drop_last() =~= views(members@).take(at as int));
            assert(upto.last() == members@[at as int]@);
            if at == 0 {
                assert(text@ =~= upto[0].rendering());
            }
        }
        at += 1;
    }
    assert(views(members@).take(at as int) =~= views(members@));
    text
}

/// Whether the two sequences hold equal nodes, one by one.
fn same_members(left: &Vec<PlanRequirements>, right: &Vec<PlanRequirements>) -> (same: bool)
    ensures
        same == (views(left@) == views(right@)),
    decreases left,
{
    if left.len() != right.len() {
        assert(views(left@).len() != views(right@).len());
        return false;
    }
    let mut at: usize = 0;
    while at < left.len()
        invariant
            at <= left@.len(),
            left@.len() == right@.len(),
            forall|i: int| 0 <= i < at ==> (#[trigger] left@[i])@ == right@[i]@,
        decreases left@.len() - at,
    {
        assert(decreases_to!(left => left[at as int])) by {
            broadcast use vstd::std_specs::vec::group_vec_axioms;

        }
        if !left[at].eq(&right[at]) {
            assert(views(left@)[at as int] != views(right@)[at as int]);
            return false;
        }
        at += 1;
    }
    assert(views(left@) =~= views(right@));
    true
}

impl PartialEq for PlanRequirements {
    /// Whether `self` and `other` have the same shape.
    fn eq(&self, other: &Self) -> (same: bool)
        decreases self,
    {
        match (self, other) {
            (PlanRequirements::Empty, PlanRequirements::Empty) => true,
            (PlanRequirements::Course(left), PlanRequirements::Course(right)) => same_text(
                left,
                right,
            ),
            (PlanRequirements::All(left), PlanRequirements::All(right)) => {
                assert(self->All_0 == *left);
                same_members(left, right)
            },
            (PlanRequirements::Any(left_needed, left), PlanRequirements::Any(right_needed, right)) => {
                assert(self->Any_1 == *left);
                *left_needed == *right_needed && same_members(left, right)
            },
            _ => false,
        }
    }
}

impl vstd::std_specs::cmp::PartialEqSpecImpl for PlanRequirements {
    open spec fn obeys_eq_spec() -> bool {
        true
    }

    open spec fn eq_spec(&self, other: &Self) -> bool {
        self@ == other@
    }
}

impl Eq for PlanRequirements {

}

impl Clone for PlanRequirements {
    /// A copy that shares the members of a group with `self`.
    fn clone(&self) -> (copy: Self)
        ensures
            copy == *self,
    {
        match self {
            PlanRequirements::Empty => PlanRequirements::Empty,
            PlanRequirements::Course(id) => PlanRequirements::Course(id),
            PlanRequirements::All(members) => PlanRequirements::All(share(members)),
            PlanRequirements::Any(needed, members) => PlanRequirements::Any(
                *needed,
                share(members),
            ),
        }
    }
}

impl PlanRequirements {
    /// The conjunction of `self` and `rhs`.
    ///
    /// `Empty` on either side gives the other side back. Two conjunctive
    /// groups are merged into one; which members the merge can move depends on
    /// who else holds them, so the result is one of the forms that
    /// `Requirement::and_outcome` lists. Any other pair is wrapped, as it is,
    /// in a new group of two.
    pub fn and_with(self, rhs: Self) -> (node: Self)
        ensures
            node@.is_and_of(self@, rhs@),
            self is Empty ==> node == rhs,
            rhs is Empty ==> node == self,
    {
        if self.is_empty() {
            assert(rhs@ == self@.and_outcome(rhs@, true, true));
            return rhs;
        }
        if rhs.is_empty() {
            assert(self@ == self@.and_outcome(rhs@, true, true));
            return self;
        }
        match (self, rhs) {
            (PlanRequirements::All(left), PlanRequirements::All(right)) => {
                let left_side = take_or_share(left);
                let right_side = take_or_share(right);
                let node = merge_groups(true, left_side, right_side);
                assert(node@ == self@.and_outcome(rhs@, left_side is Ok, right_side is Ok));
                node
            },
            (left, right) => {
                let mut pair = Vec::new();
                pair.push(left);
                pair.push(right);
                let node = PlanRequirements::All(Arc::new(pair));
                assert(views(pair@) =~= seq![self@, rhs@]);
                assert(node@ == self@.and_outcome(rhs@, true, true));
                node
            },
        }
    }

    /// The disjunction of `self` and `rhs`.
    ///
    /// `Empty` on either side gives the other side back. Two groups that each
    /// ask for one of their members are merged into one such group, in one of
    /// the forms that `Requirement::or_outcome` lists. Any other pair, a group
    /// with a higher threshold included, is wrapped, as it is, in a new
    /// one-of group of two.
    pub fn or_with(self, rhs: Self) -> (node: Self)
        ensures
            node@.is_or_of(self@, rhs@),
            self is Empty ==> node == rhs,
            rhs is Empty ==> node == self,
    {
        if self.is_empty() {
            assert(rhs@ == self@.or_outcome(rhs@, true, true));
            return rhs;
        }
        if rhs.is_empty() {
            assert(self@ == self@.or_outcome(rhs@, true, true));
            return self;
        }
        match (self, rhs) {
            (PlanRequirements::Any(1, left), PlanRequirements::Any(1, right)) => {
                let left_side = take_or_share(left);
                let right_side = take_or_share(right);
                let node = merge_groups(false, left_side, right_side);
                assert(node@ == self@.or_outcome(rhs@, left_side is Ok, right_side is Ok));
                node
            },
            (left, right) => {
                let mut pair = Vec::new();
                pair.push(left);
                pair.push(right);
                let node = PlanRequirements::Any(1, Arc::new(pair));
                assert(views(pair@) =~= seq![self@, rhs@]);
                assert(node@ == self@.or_outcome(rhs@, true, true));
                node
            },
        }
    }

    /// Replaces `self` by its conjunction with `rhs`.
    pub fn and_assign(&mut self, rhs: Self)
        ensures
            final(self)@.is_and_of(old(self)@, rhs@),
            *old(self) is Empty ==> *final(self) == rhs,
            rhs is Empty ==> *final(self) == *old(self),
    {
        let mut current = PlanRequirements::Empty;
        core::mem::swap(self, &mut current);
        *self = current.and_with(rhs);
    }

    /// Replaces `self` by its disjunction with `rhs`.
    pub fn or_assign(&mut self, rhs: Self)
        ensures
            final(self)@.is_or_of(old(self)@, rhs@),
            *old(self) is Empty ==> *final(self) == rhs,
            rhs is Empty ==> *final(self) == *old(self),
    {
        let mut current = PlanRequirements::Empty;
        core::mem::swap(self, &mut current);
        *self = current.or_with(rhs);
    }

    /// Whether the courses listed in `completed` satisfy this requirement.
    ///
    /// `Empty` is always satisfied, a leaf when its course is listed, a
    /// conjunctive group when every member is, and a threshold group when at
    /// least as many members are as it asks for.
    pub fn evaluate(&self, completed: &[&str]) -> (satisfied: bool)
        ensures
            satisfied == self@.holds(completed_set(completed@)),
        decreases self,
    {
        match self {
            PlanRequirements::Empty => true,
            PlanRequirements::Course(id) => lists_course(completed, id),
            PlanRequirements::All(members) => {
                let mut at: usize = 0;
                while at < members.len()
                    invariant
                        at <= members@.len(),
                        forall|i: int|
                            0 <= i < at ==> (#[trigger] views(members@)[i]).holds(
                                completed_set(completed@),
                            ),
                        self == PlanRequirements::All(*members),
                    decreases members@.len() - at,
                {
                    assert(decreases_to!(self => members[at as int])) by {
                        broadcast use vstd::std_specs::vec::group_vec_axioms;

                        assert(decreases_to!(self => *members));
                    }
                    if !members[at].evaluate(completed) {
                        assert(!views(members@)[at as int].holds(completed_set(completed@)));
                        return false;
                    }
                    at += 1;
                }
                assert(all_hold(views(members@), completed_set(completed@)));
                true
            },
            PlanRequirements::Any(needed, members) => {
                let ghost done = completed_set(completed@);
                let mut met: usize = 0;
                let mut at: usize = 0;
                while at < members.len()
                    invariant
                        at <= members@.len(),
                        met <= at,
                        met == count_holding(views(members@).take(at as int), done),
                        done == completed_set(completed@),
                        self == PlanRequirements::Any(*needed, *members),
                    decreases members@.len() - at,
                {
                    assert(decreases_to!(self => members[at as int])) by {
                        broadcast use vstd::std_specs::vec::group_vec_axioms;

                        assert(self->Any_1 == *members);
                    }
                    let member_met = members[at].evaluate(completed);
                    proof {
                        let upto = views(members@).take(at as int + 1);
                        assert(upto.drop_last() =~= views(members@).take(at as int));
                        assert(upto.last() == members@[at as int]@);
                    }
                    if member_met {
                        met += 1;
                    }
                    at += 1;
                }
                assert(views(members@).take(at as int) =~= views(members@));
                met >= *needed
            },
        }
    }

    /// The text that shows this node and, for a group, its members.
    pub fn render(&self) -> (text: String)
        ensures
            text@ == self@.rendering(),
        decreases self,
    {
        match self {
            PlanRequirements::Empty => String::from_str("Empty"),
            PlanRequirements::Course(id) => quote(id),
            PlanRequirements::All(members) => {
                let mut text = String::from_str("All([");
                assert(self->All_0 == *members);
                let list = render_members(members);
                text.append(list.as_str());
                text.append("])");
                text
            },
            PlanRequirements::Any(needed, members) => {
                let mut text = String::from_str("Any(");
                text.append(decimal(*needed).as_str());
                text.append(", [");
                assert(self->Any_1 == *members);
                let list = render_members(members);
                text.append(list.as_str());
                text.append("])");
                text
            },
        }
    }

    /// Whether this is the neutral requirement.
    pub fn is_empty(&self) -> (empty: bool)
        ensures
            empty == (self is Empty),
            empty == (self@ is Empty),
    {
        matches!(self, PlanRequirements::Empty)
    }

    /// The neutral requirement.
    pub fn empty() -> (node: Self)
        ensures
            node == PlanRequirements::Empty,
    {
        PlanRequirements::Empty
    }

    /// The leaf that asks for the course `id`. Whether such a course exists
    /// is not looked at.
    pub fn course(id: &'static str) -> (node: Self)
        ensures
            node == PlanRequirements::Course(id),
    {
        PlanRequirements::Course(id)
    }

    /// The conjunctive group over copies of `reqs`, in order; `Empty` when
    /// there are none.
    pub fn all(reqs: &[&PlanRequirements]) -> (node: Self)
        ensures
            node@ == Requirement::all(ref_views(reqs@)),
    {
        let members = copies(reqs);
        if members.is_empty() {
            return PlanRequirements::Empty;
        }
        PlanRequirements::All(Arc::new(members))
    }

    /// The conjunctive group over one leaf per course in `courses`, in order;
    /// `Empty` when there are none.
    pub fn all_courses(courses: &[&'static str]) -> (node: Self)
        ensures
            node@ == Requirement::all(Requirement::leaves(course_codes(courses@))),
    {
        let members = leaves(courses);
        if members.is_empty() {
            return PlanRequirements::Empty;
        }
        PlanRequirements::All(Arc::new(members))
    }

    /// The group that asks for `num_required` of copies of `reqs`, in order;
    /// `Empty` when there are none, whatever `num_required` is. A threshold of
    /// zero or above the number of members is taken as it is.
    pub fn any(num_required: usize, reqs: &[&PlanRequirements]) -> (node: Self)
        ensures
            node@ == Requirement::any(num_required as nat, ref_views(reqs@)),
    {
        let members = copies(reqs);
        if members.is_empty() {
            return PlanRequirements::Empty;
        }
        PlanRequirements::Any(num_required, Arc::new(members))
    }

    /// The group that asks for `num_required` of the courses in `courses`,
    /// one leaf each, in order; `Empty` when there are none, whatever
    /// `num_required` is.
    pub fn any_courses(num_required: usize, courses: &[&'static str]) -> (node: Self)
        ensures
            node@ == Requirement::any(num_required as nat, Requirement::leaves(course_codes(courses@))),
    {
        let members = leaves(courses);
        if members.is_empty() {
            return PlanRequirements::Empty;
        }
        PlanRequirements::Any(num_required, Arc::new(members))
    }

    /// The members of this node, shared with it: those of a group, the leaf
    /// itself for a leaf, none for `Empty`.
    pub fn inner(&self) -> (members: Arc<Vec<PlanRequirements>>)
        ensures
            views(members@) == self@.members(),
            match self {
                PlanRequirements::All(own) => members == own,
                PlanRequirements::Any(_, own) => members == own,
                _ => true,
            },
    {
        match self {
            PlanRequirements::Empty => {
                let none: Vec<PlanRequirements> = Vec::new();
                assert(views(none@) =~= self@.members());
                Arc::new(none)
            },
            PlanRequirements::Course(id) => {
                let mut one: Vec<PlanRequirements> = Vec::new();
                one.push(PlanRequirements::Course(id));
                assert(views(one@) =~= self@.members());
                Arc::new(one)
            },
            PlanRequirements::All(members) => share(members),
            PlanRequirements::Any(_, members) => share(members),
        }
    }
}

impl BitAnd for PlanRequirements {
    type Output = Self;

    /// `self & rhs` is `self.and_with(rhs)`.
    fn bitand(self, rhs: Self) -> (node: Self)
        ensures
            node@.is_and_of(self@, rhs@),
            self is Empty ==> node == rhs,
            rhs is Empty ==> node == self,
    {
        self.and_with(rhs)
    }
}

impl vstd::std_specs::ops::BitAndSpecImpl for PlanRequirements {
    open spec fn obeys_bitand_spec() -> bool {
        false
    }

    open spec fn bitand_req(self, rhs: Self) -> bool {
        true
    }

    open spec fn bitand_spec(self, rhs: Self) -> Self {
        arbitrary()
    }
}

impl BitOr for PlanRequirements {
    type Output = Self;

    /// `self | rhs` is `self.or_with(rhs)`.
    fn bitor(self, rhs: Self) -> (node: Self)
        ensures
            node@.is_or_of(self@, rhs@),
            self is Empty ==> node == rhs,
            rhs is Empty ==> node == self,
    {
        self.or_with(rhs)
    }
}

impl vstd::std_specs::ops::BitOrSpecImpl for PlanRequirements {
    open spec fn obeys_bitor_spec() -> bool {
        false
    }

    open spec fn bitor_req(self, rhs: Self) -> bool {
        true
    }

    open spec fn bitor_spec(self, rhs: Self) -> Self {
        arbitrary()
    }
}

impl BitAndAssign for PlanRequirements {
    /// `self &= rhs` is `self.and_assign(rhs)`.
    fn bitand_assign(&mut self, rhs: Self)
        ensures
            final(self)@.is_and_of(old(self)@, rhs@),
            *old(self) is Empty ==> *final(self) == rhs,
            rhs is Empty ==> *final(self) == *old(self),
    {
        self.and_assign(rhs)
    }
}

impl BitOrAssign for PlanRequirements {
    /// `self |= rhs` is `self.or_assign(rhs)`.
    fn bitor_assign(&mut self, rhs: Self)
        ensures
            final(self)@.is_or_of(old(self)@, rhs@),
            *old(self) is Empty ==> *final(self) == rhs,
            rhs is Empty ==> *final(self) == *old(self),
    {
        self.or_assign(rhs)
    }
}

} // verus!
