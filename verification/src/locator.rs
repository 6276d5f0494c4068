use vstd::prelude::*;
use vstd::string::*;
use crate::error::ScanError;
use crate::snapshot::{snapshots_view, Properties, PropertiesView};
use crate::text::{
    case_match_is_symmetric, case_match_is_transitive, eq_ignore_ascii_case, same_ignoring_case,
};

verus! {

/// The peripheral is the one that `target` names: its address is `target`,
/// whatever the case of the letters in either.
pub open spec fn is_target(snapshot: PropertiesView, target: Seq<char>) -> bool {
    same_ignoring_case(snapshot.address, target)
}

/// No peripheral before position `end` is the one that `target` names.
pub open spec fn none_before(
    snapshots: Seq<PropertiesView>,
    target: Seq<char>,
    end: int,
) -> bool {
    forall|j: int| 0 <= j < end && j < snapshots.len() ==> !is_target(#[trigger] snapshots[j], target)
}

/// The position of the first peripheral that `target` names, if there is one.
pub open spec fn first_match(snapshots: Seq<PropertiesView>, target: Seq<char>) -> Option<
    int,
>
    decreases snapshots.len(),
{
    if snapshots.len() == 0 {
        None
    } else if is_target(snapshots[0], target) {
        Some(0)
    } else {
        match first_match(snapshots.drop_first(), target) {
            Some(i) => Some(i + 1),
            None => None,
        }
    }
}

/// `first_match` names a matching position with no match before it, and
/// finds nothing exactly when nothing matches.
pub proof fn first_match_is_first(snapshots: Seq<PropertiesView>, target: Seq<char>)
    ensures
        match first_match(snapshots, target) {
            Some(i) => 0 <= i < snapshots.len() && is_target(snapshots[i], target) && none_before(
                snapshots,
                target,
                i,
            ),
            None => none_before(snapshots, target, snapshots.len() as int),
        },
    decreases snapshots.len(),
{
    if snapshots.len() > 0 && !is_target(snapshots[0], target) {
        let rest = snapshots.drop_first();
        first_match_is_first(rest, target);
        assert(forall|j: int| 0 < j < snapshots.len() ==> snapshots[j] == rest[j - 1]);
    }
}

/// A position that matches with no match before it is the one that
/// `first_match` names.
pub proof fn first_match_is_unique(
    snapshots: Seq<PropertiesView>,
    target: Seq<char>,
    i: int,
)
    requires
        0 <= i < snapshots.len(),
        is_target(snapshots[i], target),
        none_before(snapshots, target, i),
    ensures
        first_match(snapshots, target) == Some(i),
{
    first_match_is_first(snapshots, target);
}

/// The case of the letters in the wanted address does not matter: two
/// addresses that differ by case alone find the same device, or both none.
pub proof fn target_case_is_irrelevant(
    snapshots: Seq<PropertiesView>,
    target: Seq<char>,
    other: Seq<char>,
)
    requires
        same_ignoring_case(target, other),
    ensures
        first_match(snapshots, target) == first_match(snapshots, other),
        forall|s: PropertiesView| is_target(s, target) == is_target(s, other),
    decreases snapshots.len(),
{
    assert forall|s: PropertiesView| is_target(s, target) == is_target(s, other) by {
        let a = s.address;
        case_match_is_symmetric(target, other);
        if same_ignoring_case(a, target) {
            case_match_is_transitive(a, target, other);
        }
        if same_ignoring_case(a, other) {
            case_match_is_transitive(a, other, target);
        }
    }
    if snapshots.len() > 0 {
        target_case_is_irrelevant(snapshots.drop_first(), target, other);
    }
}

/// Whether a peripheral is the one that `target` names depends on its
/// address alone, not on what it has advertised, and an address matches only
/// a target of its own length: a peripheral with an address is never named
/// by the empty target.
pub proof fn match_depends_on_address_alone(
    snapshot: PropertiesView,
    other: PropertiesView,
    target: Seq<char>,
)
    requires
        snapshot.address == other.address,
    ensures
        is_target(snapshot, target) == is_target(other, target),
        is_target(snapshot, target) ==> snapshot.address.len() == target.len(),
        snapshot.address.len() > 0 ==> !is_target(snapshot, Seq::empty()),
{
}

/// Tells whether one peripheral is the one that `target` names.
pub fn matches_target(snapshot: &Properties, target: &str) -> (found: bool)
    ensures
        found == is_target(snapshot@, target@),
{
    eq_ignore_ascii_case(snapshot.address.as_str(), target)
}

/// Searches the discovered peripherals for the one that `target` names and
/// gives the position of the first. Letters match whatever their case. With
/// no match the search fails with `DeviceNotFound`.
pub fn find_device(snapshots: &Vec<Properties>, target: &str) -> (found: Result<
    usize,
    ScanError,
>)
    ensures
        match found {
            Ok(i) => first_match(snapshots_view(snapshots@), target@) == Some(
                i as int,
            ),
            Err(e) => e == ScanError::DeviceNotFound && first_match(
                snapshots_view(snapshots@),
                target@,
            ).is_none(),
        },
{
    let ghost views = snapshots_view(snapshots@);
    let mut i: usize = 0;
    while i < snapshots.len()
        invariant
            i <= snapshots@.len(),
            views == snapshots_view(snapshots@),
            none_before(views, target@, i as int),
        decreases snapshots@.len() - i,
    {
        if matches_target(&snapshots[i], target) {
            proof {
                first_match_is_unique(views, target@, i as int);
            }
            return Ok(i);
        }
        i = i + 1;
    }
    proof {
        first_match_is_first(views, target@);
    }
    Err(ScanError::DeviceNotFound)
}

} // verus!
