//! What holds of setting permissions, in one directory and in all below it.

use vstd::prelude::*;

use crate::directory::EntryKind;
use crate::error::BackupError;
#[allow(unused_imports)]
use crate::permissions::{mode_for, permissions_next};
use crate::permissions::{PermissionsEvent, PermissionsStep, DIRECTORY_MODE};

verus! {

/// Whether the event is an answer to the step.
pub open spec fn permissions_answers(step: PermissionsStep, event: PermissionsEvent) -> bool {
    match (step, event) {
        (PermissionsStep::List, PermissionsEvent::Listed(_)) => true,
        (PermissionsStep::ReadEntry, PermissionsEvent::EntryRead(_)) => true,
        (PermissionsStep::Inspect, PermissionsEvent::Inspected(_)) => true,
        (
            PermissionsStep::SetMode { kind, .. },
            PermissionsEvent::ModeSet { kind: back, .. },
        ) => kind == back,
        (PermissionsStep::Descend, PermissionsEvent::Descended(_)) => true,
        _ => false,
    }
}

/// Whether the event at `i` answers the step that follows from the one before.
pub open spec fn permissions_follow(run: Seq<PermissionsEvent>, i: int) -> bool {
    permissions_answers(permissions_next(run[i - 1]), run[i])
}

/// Whether the events are those of setting the permissions in one directory.
pub open spec fn is_permission_run(run: Seq<PermissionsEvent>) -> bool {
    &&& run.len() > 0
    &&& run[0] is Start
    &&& forall|i: int| 0 < i < run.len() ==> #[trigger] permissions_follow(run, i)
}

/// The entries that were inspected up to the event at `i`, in order.
pub open spec fn inspected(run: Seq<PermissionsEvent>, i: int) -> Seq<EntryKind>
    decreases i,
{
    if i <= 0 {
        Seq::empty()
    } else {
        match run[i] {
            PermissionsEvent::Inspected(Ok(kind)) => inspected(run, i - 1).push(kind),
            _ => inspected(run, i - 1),
        }
    }
}

/// What became of the entries up to the event at `i`, in order: which mode was
/// set, if any, and whether the entry was entered. An entry is settled when
/// the next one is read; a directory is entered right after its mode is set.
pub open spec fn settled(run: Seq<PermissionsEvent>, i: int) -> Seq<(Option<u32>, bool)>
    decreases i,
{
    if i <= 0 {
        Seq::empty()
    } else {
        let before = settled(run, i - 1);
        match (permissions_next(run[i - 1]), run[i]) {
            (_, PermissionsEvent::Inspected(Ok(EntryKind::Symlink))) => before.push((None, false)),
            (
                PermissionsStep::SetMode { mode, .. },
                PermissionsEvent::ModeSet { kind, result: Ok(_) },
            ) => if kind is Directory {
                before
            } else {
                before.push((Some(mode), false))
            },
            (_, PermissionsEvent::Descended(Ok(_))) => match permissions_next(run[i - 2]) {
                PermissionsStep::SetMode { mode, .. } => before.push((Some(mode), true)),
                _ => before.push((None, true)),
            },
            _ => before,
        }
    }
}

/// What is to become of an entry: a directory gets the mode 755 and is entered,
/// a symbolic link is left alone, and anything else gets the mode 644.
pub open spec fn treatment(kind: EntryKind) -> (Option<u32>, bool) {
    match kind {
        EntryKind::Directory => (Some(0o755u32), true),
        EntryKind::Symlink => (None, false),
        EntryKind::File | EntryKind::Other => (Some(0o644u32), false),
    }
}

proof fn permissions_so_far(run: Seq<PermissionsEvent>, i: int)
    requires
        is_permission_run(run),
        0 <= i < run.len(),
    ensures
        ({
            let kinds = inspected(run, i);
            let done = settled(run, i);
            let all = kinds.map_values(|kind: EntryKind| treatment(kind));
            match permissions_next(run[i]) {
                PermissionsStep::SetMode { kind, mode } => {
                    &&& mode_for(kind) == Some(mode)
                    &&& kinds.len() > 0
                    &&& kinds.last() == kind
                    &&& done == all.drop_last()
                },
                PermissionsStep::Descend => {
                    &&& kinds.len() > 0
                    &&& kinds.last() is Directory
                    &&& permissions_next(run[i - 1]) matches PermissionsStep::SetMode { mode, .. }
                        && mode == DIRECTORY_MODE
                    &&& done == all.drop_last()
                },
                PermissionsStep::Done(Err(_)) => true,
                _ => done == all,
            }
        }),
    decreases i,
{
    if i > 0 {
        permissions_so_far(run, i - 1);
        assert(permissions_follow(run, i));
        let kinds = inspected(run, i - 1);
        let all = kinds.map_values(|kind: EntryKind| treatment(kind));
        if let PermissionsEvent::Inspected(Ok(kind)) = run[i] {
            assert(kinds.push(kind).map_values(|kind: EntryKind| treatment(kind)) =~= all.push(
                treatment(kind),
            ));
        } else if kinds.len() > 0 {
            assert(all.drop_last().push(treatment(kinds.last())) =~= all);
        }
    } else {
        assert(settled(run, 0) =~= inspected(run, 0).map_values(|kind: EntryKind| treatment(kind)));
    }
}

/// Setting the permissions in a directory, where it succeeds, gives each entry
/// that was found the mode for its kind, in order, enters exactly the
/// directories, and leaves symbolic links alone.
pub proof fn every_entry_gets_its_mode(run: Seq<PermissionsEvent>)
    requires
        is_permission_run(run),
        permissions_next(run.last()) matches PermissionsStep::Done(result) && result is Ok,
    ensures
        settled(run, run.len() - 1) == inspected(run, run.len() - 1).map_values(
            |kind: EntryKind| treatment(kind),
        ),
{
    permissions_so_far(run, run.len() - 1);
}

/// Whether the event tells of a failure.
pub open spec fn permissions_failed(event: PermissionsEvent) -> bool {
    match event {
        PermissionsEvent::Start => false,
        PermissionsEvent::Listed(result) => result is Err,
        PermissionsEvent::EntryRead(result) => result is Err,
        PermissionsEvent::Inspected(result) => result is Err,
        PermissionsEvent::ModeSet { result, .. } => result is Err,
        PermissionsEvent::Descended(result) => result is Err,
    }
}

/// An entry of a directory, with all that lies below it.
pub struct Node {
    pub kind: EntryKind,
    pub mode: u32,
    /// What a directory holds.
    pub inside: Seq<Node>,
}

/// The entry with the mode for its kind, and so all that lies below it. A
/// symbolic link stays as it is.
pub open spec fn fixed_node(node: Node) -> Node
    decreases node,
{
    match node.kind {
        EntryKind::Symlink => node,
        EntryKind::Directory => Node { kind: node.kind, mode: 0o755, inside: fixed(node.inside) },
        EntryKind::File | EntryKind::Other => Node {
            kind: node.kind,
            mode: 0o644,
            inside: node.inside,
        },
    }
}

/// All these entries with their modes.
pub open spec fn fixed(nodes: Seq<Node>) -> Seq<Node>
    decreases nodes,
{
    if nodes.len() == 0 {
        Seq::empty()
    } else {
        fixed(nodes.drop_last()).push(fixed_node(nodes[nodes.len() - 1]))
    }
}

/// The events of setting the permissions in a directory, and those in each
/// directory that was entered, in order.
pub struct PermissionTree {
    pub events: Seq<PermissionsEvent>,
    pub inner: Seq<PermissionTree>,
}

/// How many directories were entered up to the event at `i`.
pub open spec fn entered(run: Seq<PermissionsEvent>, i: int) -> int
    decreases i,
{
    if i <= 0 {
        0
    } else {
        entered(run, i - 1) + if run[i] is Descended {
            1int
        } else {
            0
        }
    }
}

/// The entries of the directory after the event at `i`: a mode that was set
/// without a failure is there, and a directory that was entered holds what the
/// run in it left.
pub open spec fn modes_after(tree: PermissionTree, i: int, nodes: Seq<Node>) -> Seq<Node>
    decreases tree, i,
{
    if i <= 0 {
        nodes
    } else {
        let before = modes_after(tree, i - 1, nodes);
        let present = inspected(tree.events, i).len() - 1;
        let down = entered(tree.events, i - 1);
        match (permissions_next(tree.events[i - 1]), tree.events[i]) {
            (
                PermissionsStep::SetMode { mode, .. },
                PermissionsEvent::ModeSet { result: Ok(_), .. },
            ) => before.update(
                present,
                Node {
                    kind: before[present].kind,
                    mode,
                    inside: before[present].inside,
                },
            ),
            (_, PermissionsEvent::Descended(_)) => if 0 <= down < tree.inner.len() {
                before.update(
                    present,
                    Node {
                        kind: before[present].kind,
                        mode: before[present].mode,
                        inside: modes_after(
                            tree.inner[down],
                            tree.inner[down].events.len() - 1,
                            before[present].inside,
                        ),
                    },
                )
            } else {
                before
            },
            _ => before,
        }
    }
}

/// What setting the permissions left of the entries of the directory.
pub open spec fn left(tree: PermissionTree, nodes: Seq<Node>) -> Seq<Node> {
    modes_after(tree, tree.events.len() - 1, nodes)
}

/// Whether the run came to its end without a failure, found exactly these
/// entries, and each run in a directory that it entered found what that holds.
pub open spec fn runs_through(tree: PermissionTree, nodes: Seq<Node>) -> bool
    decreases tree,
{
    let run = tree.events;
    &&& is_permission_run(run)
    &&& permissions_next(run.last()) is Done
    &&& forall|i: int| 0 <= i < run.len() ==> !permissions_failed(#[trigger] run[i])
    &&& inspected(run, run.len() - 1) == nodes.map_values(|node: Node| node.kind)
    &&& forall|i: int|
        0 < i < run.len() && (#[trigger] run[i]) is Descended ==> {
            let down = entered(run, i - 1);
            0 <= down < tree.inner.len() && runs_through(
                tree.inner[down],
                nodes[inspected(run, i).len() - 1].inside,
            )
        }
}

proof fn fixed_entries(nodes: Seq<Node>)
    ensures
        fixed(nodes).len() == nodes.len(),
        forall|m: int| 0 <= m < nodes.len() ==> (#[trigger] fixed(nodes)[m]) == fixed_node(nodes[m]),
    decreases nodes.len(),
{
    if nodes.len() > 0 {
        fixed_entries(nodes.drop_last());
        assert forall|m: int| 0 <= m < nodes.len() implies (#[trigger] fixed(nodes)[m])
            == fixed_node(nodes[m]) by {
            if m < nodes.len() - 1 {
                assert(fixed(nodes.drop_last())[m] == fixed_node(nodes.drop_last()[m]));
            }
        }
    }
}

proof fn inspected_grows(run: Seq<PermissionsEvent>, i: int, j: int)
    requires
        i <= j,
    ensures
        inspected(run, i).is_prefix_of(inspected(run, j)),
    decreases j - i,
{
    if i < j {
        inspected_grows(run, i, j - 1);
        reveal_with_fuel(inspected, 2);
    }
}

proof fn modes_so_far(tree: PermissionTree, i: int, nodes: Seq<Node>)
    requires
        runs_through(tree, nodes),
        0 <= i < tree.events.len(),
    ensures
        ({
            let count = inspected(tree.events, i).len() as int;
            let now = modes_after(tree, i, nodes);
            let step = permissions_next(tree.events[i]);
            let done = if step is SetMode || step is Descend {
                count - 1
            } else {
                count
            };
            &&& 0 <= done <= count <= nodes.len()
            &&& now.len() == nodes.len()
            &&& forall|m: int| 0 <= m < done ==> (#[trigger] now[m]) == fixed_node(nodes[m])
            &&& forall|m: int| count <= m < nodes.len() ==> (#[trigger] now[m]) == nodes[m]
            &&& step matches PermissionsStep::SetMode { kind, mode } ==> {
                &&& now[count - 1] == nodes[count - 1]
                &&& kind == nodes[count - 1].kind
                &&& mode_for(kind) == Some(mode)
            }
            &&& step is Descend ==> {
                &&& nodes[count - 1].kind is Directory
                &&& now[count - 1] == (Node {
                    kind: nodes[count - 1].kind,
                    mode: DIRECTORY_MODE,
                    inside: nodes[count - 1].inside,
                })
            }
        }),
    decreases tree, i,
{
    let run = tree.events;
    let kinds = nodes.map_values(|node: Node| node.kind);
    assert(!permissions_failed(run[i]));
    inspected_grows(run, i, run.len() - 1);
    if i > 0 {
        modes_so_far(tree, i - 1, nodes);
        assert(permissions_follow(run, i));
        assert(!permissions_failed(run[i - 1]));
        let count = inspected(run, i).len() as int;
        if run[i] is Inspected {
            assert(kinds[count - 1] == nodes[count - 1].kind);
            assert(inspected(run, i)[count - 1] == kinds[count - 1]);
        }
        if run[i] is Descended {
            let down = entered(run, i - 1);
            let inside = nodes[count - 1].inside;
            assert(runs_through(tree.inner[down], inside));
            runs_leave_what_is_fixed(tree.inner[down], inside);
        }
    }
}

proof fn runs_leave_what_is_fixed(tree: PermissionTree, nodes: Seq<Node>)
    requires
        runs_through(tree, nodes),
    ensures
        left(tree, nodes) == fixed(nodes),
    decreases tree, tree.events.len(),
{
    modes_so_far(tree, tree.events.len() - 1, nodes);
    fixed_entries(nodes);
    assert(nodes.map_values(|node: Node| node.kind).len() == nodes.len());
    assert(left(tree, nodes) =~= fixed(nodes));
}

/// Setting the permissions, where nothing fails, succeeds, and gives every
/// entry below the directory the mode for its kind, at any depth.
pub proof fn every_entry_below_gets_its_mode(tree: PermissionTree, nodes: Seq<Node>)
    requires
        runs_through(tree, nodes),
    ensures
        permissions_next(tree.events.last()) matches PermissionsStep::Done(result) && result is Ok,
        left(tree, nodes) == fixed(nodes),
{
    assert(!permissions_failed(tree.events[tree.events.len() - 1]));
    runs_leave_what_is_fixed(tree, nodes);
}

proof fn fixed_node_is_settled(node: Node)
    ensures
        fixed_node(fixed_node(node)) == fixed_node(node),
    decreases node,
{
    if node.kind is Directory {
        fixed_is_settled(node.inside);
    }
}

proof fn fixed_is_settled(nodes: Seq<Node>)
    ensures
        fixed(fixed(nodes)) == fixed(nodes),
    decreases nodes,
{
    if nodes.len() > 0 {
        fixed_is_settled(nodes.drop_last());
        fixed_node_is_settled(nodes[nodes.len() - 1]);
        assert(fixed(nodes).drop_last() =~= fixed(nodes.drop_last()));
    }
}

/// Setting the permissions a second time, with nothing changed in between and
/// nothing failing, succeeds and changes no mode.
pub proof fn second_run_changes_no_mode(
    first: PermissionTree,
    second: PermissionTree,
    nodes: Seq<Node>,
)
    requires
        runs_through(first, nodes),
        runs_through(second, left(first, nodes)),
    ensures
        permissions_next(second.events.last()) matches PermissionsStep::Done(result) && result
            is Ok,
        left(second, left(first, nodes)) == left(first, nodes),
{
    every_entry_below_gets_its_mode(first, nodes);
    every_entry_below_gets_its_mode(second, left(first, nodes));
    fixed_is_settled(nodes);
}

/// Where nothing fails, the directory is listed, each entry that is read is
/// looked at, and gets the mode 755 if it is a directory, none if it is a
/// symbolic link, and else 644. Exactly a directory is entered, after its mode
/// was set.
pub proof fn entries_are_treated_by_their_kind(event: PermissionsEvent, kind: EntryKind, mode: u32)
    ensures
        permissions_next(event) is List <==> event is Start,
        permissions_next(event) is Inspect <==> (event matches PermissionsEvent::EntryRead(Ok(more))
            && more),
        permissions_next(event) == (PermissionsStep::SetMode { kind, mode }) <==> {
            &&& event matches PermissionsEvent::Inspected(Ok(found)) && found == kind
            &&& !(kind is Symlink)
            &&& mode == if kind is Directory {
                0o755u32
            } else {
                0o644u32
            }
        },
        permissions_next(event) is Descend <==> (event matches PermissionsEvent::ModeSet {
            kind: set,
            result,
        } && set is Directory && result is Ok),
        permissions_next(event) is ReadEntry <==> {
            ||| event matches PermissionsEvent::Listed(result) && result is Ok
            ||| event matches PermissionsEvent::Descended(result) && result is Ok
            ||| event matches PermissionsEvent::Inspected(Ok(found)) && found is Symlink
            ||| event matches PermissionsEvent::ModeSet { kind: set, result } && !(set is Directory)
                && result is Ok
        },
{
}

/// Setting the permissions succeeds exactly when no entry is left, and fails
/// exactly when something it asked for fails, with that very error.
pub proof fn permissions_end_at_the_end_or_a_failure(event: PermissionsEvent, error: BackupError)
    ensures
        (permissions_next(event) matches PermissionsStep::Done(result) && result is Ok) <==> (event
            matches PermissionsEvent::EntryRead(Ok(more)) && !more),
        permissions_next(event) == PermissionsStep::Done(Err(error)) <==> {
            ||| event == PermissionsEvent::Listed(Err(error))
            ||| event == PermissionsEvent::EntryRead(Err(error))
            ||| event == PermissionsEvent::Inspected(Err(error))
            ||| event matches PermissionsEvent::ModeSet { result: Err(told), .. } && told == error
            ||| event == PermissionsEvent::Descended(Err(error))
        },
{
}

} // verus!
