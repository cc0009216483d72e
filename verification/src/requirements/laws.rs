//! What holds of every requirement expression and of every way two of them
//! combine.

use super::model::{all_well_formed, count_holding, group_of, merged_members, Requirement};
use vstd::prelude::*;

verus! {

/// Counting over a concatenation adds the two counts.
pub proof fn lemma_count_concat(
    left: Seq<Requirement>,
    right: Seq<Requirement>,
    done: Set<Seq<char>>,
)
    ensures
        count_holding(left + right, done) == count_holding(left, done) + count_holding(
            right,
            done,
        ),
    decreases right.len(),
{
    if right.len() == 0 {
        assert(left + right =~= left);
    } else {
        assert((left + right).drop_last() =~= left + right.drop_last());
        lemma_count_concat(left, right.drop_last(), done);
    }
}

/// Counting after one more member adds one exactly when that member holds.
pub proof fn lemma_count_push(members: Seq<Requirement>, last: Requirement, done: Set<Seq<char>>)
    ensures
        count_holding(members.push(last), done) == count_holding(members, done) + if last.holds(
            done,
        ) {
            1nat
        } else {
            0nat
        },
{
    assert(members.push(last).drop_last() =~= members);
}

/// The count never exceeds the number of members, and it is positive exactly
/// when some member holds.
pub proof fn lemma_count_bounds(members: Seq<Requirement>, done: Set<Seq<char>>)
    ensures
        count_holding(members, done) <= members.len(),
        count_holding(members, done) >= 1 <==> exists|i: int|
            0 <= i < members.len() && (#[trigger] members[i]).holds(done),
    decreases members.len(),
{
    if members.len() > 0 {
        let front = members.drop_last();
        lemma_count_bounds(front, done);
        if count_holding(members, done) >= 1 {
            if members.last().holds(done) {
                assert(members[members.len() - 1].holds(done));
            } else {
                let i = choose|i: int| 0 <= i < front.len() && (#[trigger] front[i]).holds(done);
                assert(members[i].holds(done));
            }
        }
        if exists|i: int| 0 <= i < members.len() && (#[trigger] members[i]).holds(done) {
            let i = choose|i: int| 0 <= i < members.len() && (#[trigger] members[i]).holds(done);
            if i < front.len() {
                assert(front[i].holds(done));
            }
        }
    }
}

/// A group of either kind over merged members holds exactly when a group of
/// that kind over the two sides' members, one after the other, does.
pub proof fn lemma_merge_keeps_meaning(
    conjunctive: bool,
    left: Seq<Requirement>,
    right: Seq<Requirement>,
    left_owned: bool,
    right_owned: bool,
    done: Set<Seq<char>>,
)
    ensures
        group_of(
            conjunctive,
            merged_members(conjunctive, left, right, left_owned, right_owned),
        ).holds(done) == group_of(conjunctive, left + right).holds(done),
        group_of(conjunctive, left + right).holds(done) == if conjunctive {
            group_of(conjunctive, left).holds(done) && group_of(conjunctive, right).holds(done)
        } else {
            group_of(conjunctive, left).holds(done) || group_of(conjunctive, right).holds(done)
        },
{
    let merged = merged_members(conjunctive, left, right, left_owned, right_owned);
    let both = left + right;
    if conjunctive {
        let all_left = Requirement::All(left);
        let all_right = Requirement::All(right);
        assert(Requirement::All(both).holds(done) == (all_left.holds(done) && all_right.holds(
            done,
        ))) by {
            if Requirement::All(both).holds(done) {
                assert forall|i: int| 0 <= i < left.len() implies (#[trigger] left[i]).holds(
                    done,
                ) by {
                    assert(both[i].holds(done));
                }
                assert forall|i: int| 0 <= i < right.len() implies (#[trigger] right[i]).holds(
                    done,
                ) by {
                    assert(both[left.len() + i].holds(done));
                }
            }
        }
        assert(Requirement::All(merged).holds(done) == (all_left.holds(done) && all_right.holds(
            done,
        ))) by {
            if Requirement::All(merged).holds(done) {
                if left_owned && right_owned {
                    if left.len() > right.len() {
                        assert forall|i: int| 0 <= i < left.len() implies (
                        #[trigger] left[i]).holds(done) by {
                            assert(merged[i].holds(done));
                        }
                        assert forall|i: int| 0 <= i < right.len() implies (
                        #[trigger] right[i]).holds(done) by {
                            assert(merged[left.len() + i].holds(done));
                        }
                    } else {
                        assert forall|i: int| 0 <= i < right.len() implies (
                        #[trigger] right[i]).holds(done) by {
                            assert(merged[i].holds(done));
                        }
                        assert forall|i: int| 0 <= i < left.len() implies (
                        #[trigger] left[i]).holds(done) by {
                            assert(merged[right.len() + i].holds(done));
                        }
                    }
                } else if left_owned {
                    assert forall|i: int| 0 <= i < left.len() implies (#[trigger] left[i]).holds(
                        done,
                    ) by {
                        assert(merged[i].holds(done));
                    }
                    assert(merged[left.len() as int].holds(done));
                } else if right_owned {
                    assert forall|i: int| 0 <= i < right.len() implies (
                    #[trigger] right[i]).holds(done) by {
                        assert(merged[i].holds(done));
                    }
                    assert(merged[right.len() as int].holds(done));
                } else {
                    assert(merged[0].holds(done));
                    assert(merged[1].holds(done));
                }
            }
        }
    } else {
        lemma_count_concat(left, right, done);
        lemma_count_concat(right, left, done);
        lemma_count_push(left, Requirement::Any(1, right), done);
        lemma_count_push(right, Requirement::Any(1, left), done);
        let nested = seq![Requirement::Any(1, left), Requirement::Any(1, right)];
        assert(nested =~= seq![Requirement::Any(1, left)].push(Requirement::Any(1, right)));
        lemma_count_push(seq![Requirement::Any(1, left)], Requirement::Any(1, right), done);
        assert(seq![Requirement::Any(1, left)] =~= Seq::<Requirement>::empty().push(
            Requirement::Any(1, left),
        ));
        lemma_count_push(Seq::<Requirement>::empty(), Requirement::Any(1, left), done);
    }
}

/// A conjunction holds exactly when both operands hold, whichever of its forms
/// came out.
pub proof fn lemma_and_meaning(
    left: Requirement,
    right: Requirement,
    node: Requirement,
    done: Set<Seq<char>>,
)
    requires
        node.is_and_of(left, right),
    ensures
        node.holds(done) == (left.holds(done) && right.holds(done)),
{
    let (left_owned, right_owned) = choose|left_owned: bool, right_owned: bool|
        node == #[trigger] left.and_outcome(right, left_owned, right_owned);
    if left is Empty || right is Empty {
    } else {
        match (left, right) {
            (Requirement::All(l), Requirement::All(r)) => {
                lemma_merge_keeps_meaning(true, l, r, left_owned, right_owned, done);
            },
            _ => {
                let pair = seq![left, right];
                if left.holds(done) && right.holds(done) {
                    assert forall|i: int| 0 <= i < pair.len() implies (#[trigger] pair[i]).holds(
                        done,
                    ) by {}
                }
                if node.holds(done) {
                    assert(pair[0].holds(done));
                    assert(pair[1].holds(done));
                }
            },
        }
    }
}

/// A disjunction of two operands, neither of them `Empty`, holds exactly when
/// one of the operands holds, whichever of its forms came out.
pub proof fn lemma_or_meaning(
    left: Requirement,
    right: Requirement,
    node: Requirement,
    done: Set<Seq<char>>,
)
    requires
        node.is_or_of(left, right),
        !(left is Empty),
        !(right is Empty),
    ensures
        node.holds(done) == (left.holds(done) || right.holds(done)),
{
    let (left_owned, right_owned) = choose|left_owned: bool, right_owned: bool|
        node == #[trigger] left.or_outcome(right, left_owned, right_owned);
    let pair = seq![left, right];
    assert(pair =~= Seq::<Requirement>::empty().push(left).push(right));
    lemma_count_push(Seq::<Requirement>::empty(), left, done);
    lemma_count_push(Seq::<Requirement>::empty().push(left), right, done);
    match (left, right) {
        (Requirement::Any(left_needed, l), Requirement::Any(right_needed, r)) => {
            if left_needed == 1 && right_needed == 1 {
                lemma_merge_keeps_meaning(false, l, r, left_owned, right_owned, done);
            }
        },
        _ => {},
    }
}

/// `Empty` is the identity of conjunction and of disjunction, on either side:
/// the other operand comes back as it is.
pub proof fn lemma_empty_is_identity(tree: Requirement, node: Requirement)
    requires
        node.is_and_of(tree, Requirement::Empty) || node.is_and_of(Requirement::Empty, tree)
            || node.is_or_of(tree, Requirement::Empty) || node.is_or_of(Requirement::Empty, tree),
    ensures
        node == tree,
{
}

/// Conjunction is associative up to meaning: grouping to the left or to the
/// right, and whichever forms the four combinations take, the two results hold
/// for the same sets of completed courses.
pub proof fn lemma_and_associative(
    a: Requirement,
    b: Requirement,
    c: Requirement,
    ab: Requirement,
    ab_c: Requirement,
    bc: Requirement,
    a_bc: Requirement,
    done: Set<Seq<char>>,
)
    requires
        ab.is_and_of(a, b),
        ab_c.is_and_of(ab, c),
        bc.is_and_of(b, c),
        a_bc.is_and_of(a, bc),
    ensures
        ab_c.holds(done) == a_bc.holds(done),
{
    lemma_and_meaning(a, b, ab, done);
    lemma_and_meaning(ab, c, ab_c, done);
    lemma_and_meaning(b, c, bc, done);
    lemma_and_meaning(a, bc, a_bc, done);
}

/// Flattening keeps the meaning: the conjunction of two conjunctive groups
/// holds exactly when the one group over all their members does.
pub proof fn lemma_and_flattening(
    left: Seq<Requirement>,
    right: Seq<Requirement>,
    node: Requirement,
    done: Set<Seq<char>>,
)
    requires
        node.is_and_of(Requirement::All(left), Requirement::All(right)),
    ensures
        node.holds(done) == Requirement::All(left + right).holds(done),
{
    let (left_owned, right_owned) = choose|left_owned: bool, right_owned: bool|
        node == #[trigger] Requirement::All(left).and_outcome(
            Requirement::All(right),
            left_owned,
            right_owned,
        );
    lemma_merge_keeps_meaning(true, left, right, left_owned, right_owned, done);
}

/// Merging keeps the threshold's meaning: the disjunction of two one-of groups
/// holds exactly when the one-of group over all their members does.
pub proof fn lemma_or_flattening(
    left: Seq<Requirement>,
    right: Seq<Requirement>,
    node: Requirement,
    done: Set<Seq<char>>,
)
    requires
        node.is_or_of(Requirement::Any(1, left), Requirement::Any(1, right)),
    ensures
        node.holds(done) == Requirement::Any(1, left + right).holds(done),
{
    let (left_owned, right_owned) = choose|left_owned: bool, right_owned: bool|
        node == #[trigger] Requirement::Any(1, left).or_outcome(
            Requirement::Any(1, right),
            left_owned,
            right_owned,
        );
    lemma_merge_keeps_meaning(false, left, right, left_owned, right_owned, done);
}

/// A threshold group over no members is `Empty`, whatever its threshold, and
/// so holds for every set of completed courses, the empty one included.
pub proof fn lemma_any_of_nothing(needed: nat, done: Set<Seq<char>>)
    ensures
        Requirement::any(needed, Seq::empty()) == Requirement::Empty,
        Requirement::any(needed, Requirement::leaves(Seq::empty())) == Requirement::Empty,
        Requirement::any(needed, Seq::empty()).holds(done),
        Requirement::any(needed, Seq::empty()).holds(Set::empty()),
{
}

/// A threshold above the number of members can never be met.
pub proof fn lemma_threshold_out_of_reach(
    needed: nat,
    members: Seq<Requirement>,
    done: Set<Seq<char>>,
)
    requires
        needed > members.len(),
    ensures
        !Requirement::Any(needed, members).holds(done),
{
    lemma_count_bounds(members, done);
}

/// The builders make well-formed trees out of well-formed members: no group
/// without members comes out of them, whatever goes in, and the threshold is
/// the one thing that the caller has to keep within the number of members.
pub proof fn lemma_builders_well_formed(needed: nat, members: Seq<Requirement>, ids: Seq<Seq<char>>)
    requires
        all_well_formed(members),
    ensures
        Requirement::all(members).well_formed(),
        Requirement::all(Requirement::leaves(ids)).well_formed(),
        1 <= needed <= members.len() ==> Requirement::any(needed, members).well_formed(),
        1 <= needed <= ids.len() ==> Requirement::any(
            needed,
            Requirement::leaves(ids),
        ).well_formed(),
        members.len() == 0 ==> Requirement::any(needed, members).well_formed(),
{
    let leaves = Requirement::leaves(ids);
    assert forall|i: int| 0 <= i < leaves.len() implies (#[trigger] leaves[i]).well_formed() by {
        assert(leaves[i] == Requirement::Course(ids[i]));
    }
    assert(all_well_formed(leaves));
}

/// Combining keeps trees well formed: the conjunction and the disjunction of
/// two well-formed trees are well formed, whichever of their forms comes out.
pub proof fn lemma_combining_keeps_well_formed(
    left: Requirement,
    right: Requirement,
    node: Requirement,
)
    requires
        left.well_formed(),
        right.well_formed(),
        node.is_and_of(left, right) || node.is_or_of(left, right),
    ensures
        node.well_formed(),
{
    if node.is_and_of(left, right) {
        let (left_owned, right_owned) = choose|left_owned: bool, right_owned: bool|
            node == #[trigger] left.and_outcome(right, left_owned, right_owned);
        if !(left is Empty) && !(right is Empty) {
            match (left, right) {
                (Requirement::All(l), Requirement::All(r)) => {
                    lemma_merged_well_formed(true, l, r, left_owned, right_owned);
                },
                _ => {
                    assert(all_well_formed(seq![left, right]));
                },
            }
        }
    } else {
        let (left_owned, right_owned) = choose|left_owned: bool, right_owned: bool|
            node == #[trigger] left.or_outcome(right, left_owned, right_owned);
        if !(left is Empty) && !(right is Empty) {
            assert(all_well_formed(seq![left, right]));
            match (left, right) {
                (Requirement::Any(left_needed, l), Requirement::Any(right_needed, r)) => {
                    if left_needed == 1 && right_needed == 1 {
                        lemma_merged_well_formed(false, l, r, left_owned, right_owned);
                    }
                },
                _ => {},
            }
        }
    }
}

/// Merging the members of two well-formed groups of one kind gives the
/// members of a well-formed group of that kind.
pub proof fn lemma_merged_well_formed(
    conjunctive: bool,
    left: Seq<Requirement>,
    right: Seq<Requirement>,
    left_owned: bool,
    right_owned: bool,
)
    requires
        group_of(conjunctive, left).well_formed(),
        group_of(conjunctive, right).well_formed(),
    ensures
        group_of(
            conjunctive,
            merged_members(conjunctive, left, right, left_owned, right_owned),
        ).well_formed(),
{
    let merged = merged_members(conjunctive, left, right, left_owned, right_owned);
    assert(all_well_formed(left));
    assert(all_well_formed(right));
    assert(all_well_formed(merged));
}

} // verus!
