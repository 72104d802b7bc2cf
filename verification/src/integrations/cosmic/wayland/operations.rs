//! What an operation is about, among what the compositor has.
use vstd::prelude::*;
use vstd::string::*;
use crate::text::{has_control, same_text};
use crate::values::Replicate;
use super::super::errors::{seen_native, CosmicError, CosmicErrorView};
use super::snapshot::{
    identities_read, lemma_identities_read, protocol_identity, tiling_known, workspace_identities,
};
use super::state::{
    NativeTilingState, ProtocolToplevel, ProtocolToplevelView, ProtocolWorkspace,
    ProtocolWorkspaceGroup, ProtocolWorkspaceGroupView, ProtocolWorkspaceView,
};

verus! {

/// How many have the requested identity.
#[derive(Debug, Clone, Copy, PartialEq, Eq, Structural)]
pub enum IdentityResolution {
    Missing,
    Unique,
    Ambiguous(usize),
}

impl DeepView for IdentityResolution {
    type V = IdentityResolution;

    open spec fn deep_view(&self) -> IdentityResolution {
        *self
    }
}

impl Replicate for IdentityResolution {
    fn replicate(&self) -> (r: Self) {
        *self
    }
}

/// How often a text is among others.
pub open spec fn occurrences(identities: Seq<Seq<char>>, requested: Seq<char>) -> nat
    decreases identities.len(),
{
    if identities.len() == 0 {
        0
    } else {
        occurrences(identities.drop_last(), requested) + if identities.last() == requested {
            1nat
        } else {
            0nat
        }
    }
}

/// How many have the requested identity.
pub open spec fn identity_resolution(identities: Seq<Seq<char>>, requested: Seq<char>) -> IdentityResolution {
    let matches = occurrences(identities, requested);
    if matches == 0 {
        IdentityResolution::Missing
    } else if matches == 1 {
        IdentityResolution::Unique
    } else {
        IdentityResolution::Ambiguous(matches as usize)
    }
}

/// How many have the requested identity.
pub fn classify_identity_matches(identities: &Vec<String>, requested: &str) -> (r: IdentityResolution)
    ensures
        r == identity_resolution(identities.deep_view(), requested@),
{
    let mut matches: usize = 0;
    let mut i: usize = 0;
    let ghost all = identities.deep_view();
    assert(all.take(0) =~= Seq::<Seq<char>>::empty());
    while i < identities.len()
        invariant
            i <= identities@.len(),
            matches <= i,
            all == identities.deep_view(),
            matches == occurrences(all.take(i as int), requested@),
        decreases identities@.len() - i,
    {
        assert(all[i as int] == identities@[i as int]@);
        assert(all.take(i as int + 1).drop_last() =~= all.take(i as int));
        if same_text(identities[i].as_str(), requested) {
            matches = matches + 1;
        }
        i = i + 1;
    }
    assert(all.take(i as int) =~= all);
    if matches == 0 {
        IdentityResolution::Missing
    } else if matches == 1 {
        IdentityResolution::Unique
    } else {
        IdentityResolution::Ambiguous(matches)
    }
}

/// The place of the first text that is the requested one.
pub open spec fn place_of(identities: Seq<Seq<char>>, requested: Seq<char>) -> Option<int>
    decreases identities.len(),
{
    if identities.len() == 0 {
        None
    } else {
        match place_of(identities.drop_last(), requested) {
            Some(place) => Some(place),
            None => if identities.last() == requested {
                Some(identities.len() - 1)
            } else {
                None
            },
        }
    }
}

fn find_place(identities: &Vec<String>, requested: &str) -> (r: Option<usize>)
    ensures
        match r {
            Some(place) => place_of(identities.deep_view(), requested@) == Some(place as int)
                && place < identities@.len(),
            None => place_of(identities.deep_view(), requested@) is None,
        },
{
    let mut found: Option<usize> = None;
    let mut i: usize = 0;
    let ghost all = identities.deep_view();
    assert(all.take(0) =~= Seq::<Seq<char>>::empty());
    while i < identities.len()
        invariant
            i <= identities@.len(),
            all == identities.deep_view(),
            match found {
                Some(place) => place_of(all.take(i as int), requested@) == Some(place as int) && place
                    < i,
                None => place_of(all.take(i as int), requested@) is None,
            },
        decreases identities@.len() - i,
    {
        assert(all[i as int] == identities@[i as int]@);
        assert(all.take(i as int + 1).drop_last() =~= all.take(i as int));
        if found.is_none() && same_text(identities[i].as_str(), requested) {
            found = Some(i);
        }
        i = i + 1;
    }
    assert(all.take(i as int) =~= all);
    found
}

proof fn lemma_place_of(identities: Seq<Seq<char>>, requested: Seq<char>)
    ensures
        match place_of(identities, requested) {
            Some(place) => 0 <= place < identities.len() && identities[place] == requested,
            None => occurrences(identities, requested) == 0,
        },
        occurrences(identities, requested) <= identities.len(),
    decreases identities.len(),
{
    if identities.len() > 0 {
        lemma_place_of(identities.drop_last(), requested);
    }
}

/// The one workspace that is known by an identity.
pub open spec fn workspace_resolved(
    workspaces: Seq<ProtocolWorkspaceView>,
    identity: Seq<char>,
    operation: Seq<char>,
) -> Result<ProtocolWorkspaceView, CosmicErrorView> {
    match identities_read(workspaces, operation) {
        Err(error) => Err(error),
        Ok(identities) => match (
            identity_resolution(identities, identity),
            place_of(identities, identity),
        ) {
            (IdentityResolution::Unique, Some(place)) => Ok(workspaces[place]),
            (IdentityResolution::Ambiguous(matches), _) => Err(
                CosmicErrorView::WorkspaceAmbiguous { operation, identity, matches },
            ),
            _ => Err(CosmicErrorView::WorkspaceNotFound { operation, identity }),
        },
    }
}

/// The identifiers of windows.
pub open spec fn identifiers(toplevels: Seq<ProtocolToplevelView>) -> Seq<Seq<char>> {
    toplevels.map_values(|toplevel: ProtocolToplevelView| toplevel.identifier)
}

/// The one window with an identifier.
pub open spec fn window_resolved(
    toplevels: Seq<ProtocolToplevelView>,
    identity: Seq<char>,
    operation: Seq<char>,
) -> Result<ProtocolToplevelView, CosmicErrorView> {
    match (
        identity_resolution(identifiers(toplevels), identity),
        place_of(identifiers(toplevels), identity),
    ) {
        (IdentityResolution::Unique, Some(place)) => Ok(toplevels[place]),
        (IdentityResolution::Ambiguous(matches), _) => Err(
            CosmicErrorView::WindowAmbiguous { operation, identity, matches },
        ),
        _ => Err(CosmicErrorView::WindowNotFound { operation, identity }),
    }
}

/// The first group that a workspace belongs to.
pub open spec fn group_of(groups: Seq<ProtocolWorkspaceGroupView>, handle: u64) -> Option<
    ProtocolWorkspaceGroupView,
>
    decreases groups.len(),
{
    if groups.len() == 0 {
        None
    } else if groups[0].workspaces.contains(handle) {
        Some(groups[0])
    } else {
        group_of(groups.drop_first(), handle)
    }
}

/// The first output of the group that a workspace belongs to.
pub open spec fn output_resolved(
    groups: Seq<ProtocolWorkspaceGroupView>,
    handle: u64,
    operation: Seq<char>,
    workspace: Seq<char>,
) -> Result<u64, CosmicErrorView> {
    match group_of(groups, handle) {
        Some(group) if group.outputs.len() > 0 => Ok(group.outputs[0]),
        _ => Err(CosmicErrorView::TargetWorkspaceOutputMissing { operation, workspace }),
    }
}

/// The one workspace that is known by an identity.
pub fn resolve_workspace(
    workspaces: &Vec<ProtocolWorkspace>,
    identity: &str,
    operation: &str,
) -> (r: Result<ProtocolWorkspace, CosmicError>)
    ensures
        seen_native(r) == workspace_resolved(workspaces.deep_view(), identity@, operation@),
{
    let identities = match workspace_identities(workspaces, operation) {
        Err(error) => {
            return Err(error);
        },
        Ok(identities) => identities,
    };
    proof {
        lemma_identities_read(workspaces.deep_view(), operation@);
        assert(identities.deep_view().len() == identities@.len());
        assert(workspaces.deep_view().len() == workspaces@.len());
    }
    match (
        classify_identity_matches(&identities, identity),
        find_place(&identities, identity),
    ) {
        (IdentityResolution::Unique, Some(place)) => {
            assert(workspaces.deep_view()[place as int] == workspaces@[place as int]@);
            Ok(workspaces[place].replicate())
        },
        (IdentityResolution::Ambiguous(matches), _) => Err(
            CosmicError::WorkspaceAmbiguous {
                operation: operation.to_owned(),
                identity: identity.to_owned(),
                matches,
            },
        ),
        _ => Err(
            CosmicError::WorkspaceNotFound {
                operation: operation.to_owned(),
                identity: identity.to_owned(),
            },
        ),
    }
}

fn identifiers_of(toplevels: &Vec<ProtocolToplevel>) -> (r: Vec<String>)
    ensures
        r.deep_view() == identifiers(toplevels.deep_view()),
        r@.len() == toplevels@.len(),
{
    let mut texts: Vec<String> = Vec::new();
    let mut i: usize = 0;
    let ghost all = toplevels.deep_view();
    while i < toplevels.len()
        invariant
            i <= toplevels@.len(),
            all == toplevels.deep_view(),
            texts@.len() == i,
            forall|j: int| 0 <= j < i ==> (#[trigger] texts@[j])@ == all[j].identifier,
        decreases toplevels@.len() - i,
    {
        assert(all[i as int] == toplevels@[i as int]@);
        texts.push(toplevels[i].identifier.clone());
        i = i + 1;
    }
    assert(texts.deep_view() =~= identifiers(all)) by {
        assert forall|j: int| 0 <= j < texts@.len() implies texts.deep_view()[j] == identifiers(
            all,
        )[j] by {
            assert(texts@[j]@ == all[j].identifier);
        }
    }
    texts
}

/// The one window with an identifier.
pub fn resolve_window(toplevels: &Vec<ProtocolToplevel>, identity: &str, operation: &str) -> (r: Result<
    ProtocolToplevel,
    CosmicError,
>)
    ensures
        seen_native(r) == window_resolved(toplevels.deep_view(), identity@, operation@),
{
    let texts = identifiers_of(toplevels);
    match (classify_identity_matches(&texts, identity), find_place(&texts, identity)) {
        (IdentityResolution::Unique, Some(place)) => {
            assert(toplevels.deep_view()[place as int] == toplevels@[place as int]@);
            Ok(toplevels[place].replicate())
        },
        (IdentityResolution::Ambiguous(matches), _) => Err(
            CosmicError::WindowAmbiguous {
                operation: operation.to_owned(),
                identity: identity.to_owned(),
                matches,
            },
        ),
        _ => Err(
            CosmicError::WindowNotFound {
                operation: operation.to_owned(),
                identity: identity.to_owned(),
            },
        ),
    }
}

/// Whether a handle is one of the list.
pub fn holds_handle(handles: &Vec<u64>, handle: u64) -> (r: bool)
    ensures
        r == handles@.contains(handle),
{
    let mut i: usize = 0;
    while i < handles.len()
        invariant
            i <= handles@.len(),
            forall|j: int| 0 <= j < i ==> handles@[j] != handle,
        decreases handles@.len() - i,
    {
        if handles[i] == handle {
            assert(handles@[i as int] == handle);
            return true;
        }
        i = i + 1;
    }
    false
}

/// The first output of the group that a workspace belongs to.
pub fn target_output(
    groups: &Vec<ProtocolWorkspaceGroup>,
    handle: u64,
    operation: &str,
    workspace_identity: &str,
) -> (r: Result<u64, CosmicError>)
    ensures
        seen_native(r) == output_resolved(
            groups.deep_view(),
            handle,
            operation@,
            workspace_identity@,
        ),
{
    let mut i: usize = 0;
    let ghost all = groups.deep_view();
    assert(all.skip(0) =~= all);
    while i < groups.len()
        invariant
            i <= groups@.len(),
            all == groups.deep_view(),
            group_of(all, handle) == group_of(all.skip(i as int), handle),
        decreases groups@.len() - i,
    {
        assert(all.skip(i as int)[0] == groups@[i as int]@);
        assert(all.skip(i as int).drop_first() =~= all.skip(i as int + 1));
        assert(groups@[i as int].workspaces.deep_view() =~= groups@[i as int].workspaces@);
        assert(groups@[i as int].outputs.deep_view() =~= groups@[i as int].outputs@);
        if holds_handle(&groups[i].workspaces, handle) {
            if groups[i].outputs.len() > 0 {
                return Ok(groups[i].outputs[0]);
            }
            return Err(
                CosmicError::TargetWorkspaceOutputMissing {
                    operation: operation.to_owned(),
                    workspace: workspace_identity.to_owned(),
                },
            );
        }
        i = i + 1;
    }
    Err(
        CosmicError::TargetWorkspaceOutputMissing {
            operation: operation.to_owned(),
            workspace: workspace_identity.to_owned(),
        },
    )
}

/// Whether a workspace tiles its windows, as far as that is known.
pub fn workspace_tiling_enabled(tiling: NativeTilingState) -> (r: Option<bool>)
    ensures
        r == tiling_known(tiling),
{
    match tiling {
        NativeTilingState::Enabled => Some(true),
        NativeTilingState::FloatingOnly => Some(false),
        NativeTilingState::Unknown => None,
    }
}

// ---------------------------------------------------------------------------------------------
// Laws
// ---------------------------------------------------------------------------------------------
proof fn lemma_two_occurrences(identities: Seq<Seq<char>>, requested: Seq<char>, i: int, j: int)
    requires
        0 <= i < j < identities.len(),
        identities[i] == requested,
        identities[j] == requested,
    ensures
        occurrences(identities, requested) >= 2,
    decreases identities.len(),
{
    let earlier = identities.drop_last();
    if j < earlier.len() {
        assert(earlier[i] == requested && earlier[j] == requested);
        lemma_two_occurrences(earlier, requested, i, j);
    } else {
        lemma_one_occurrence(earlier, requested, i);
    }
}

proof fn lemma_one_occurrence(identities: Seq<Seq<char>>, requested: Seq<char>, i: int)
    requires
        0 <= i < identities.len(),
        identities[i] == requested,
    ensures
        occurrences(identities, requested) >= 1,
    decreases identities.len(),
{
    if i < identities.len() - 1 {
        assert(identities.drop_last()[i] == requested);
        lemma_one_occurrence(identities.drop_last(), requested, i);
    }
}

/// An operation never picks one of several: a workspace is resolved only where no other one is known
/// by the same identity, and it is known by the identity that was asked for.
pub proof fn law_resolved_workspace_is_the_only_one(
    workspaces: Seq<ProtocolWorkspaceView>,
    identity: Seq<char>,
    operation: Seq<char>,
    i: int,
    j: int,
)
    requires
        workspace_resolved(workspaces, identity, operation) is Ok,
        0 <= i < workspaces.len(),
        0 <= j < workspaces.len(),
        protocol_identity(workspaces[i].id, workspaces[i].name, operation) == Ok::<
            Seq<char>,
            CosmicErrorView,
        >(identity),
        protocol_identity(workspaces[j].id, workspaces[j].name, operation) == Ok::<
            Seq<char>,
            CosmicErrorView,
        >(identity),
    ensures
        i == j,
        workspace_resolved(workspaces, identity, operation) == Ok::<
            ProtocolWorkspaceView,
            CosmicErrorView,
        >(workspaces[i]),
{
    lemma_identities_read(workspaces, operation);
    let identities = identities_read(workspaces, operation)->Ok_0;
    lemma_place_of(identities, identity);
    let place = place_of(identities, identity)->Some_0;
    assert(identities[i] == identity && identities[j] == identity && identities[place] == identity);
    if i < j {
        lemma_two_occurrences(identities, identity, i, j);
    }
    if j < i {
        lemma_two_occurrences(identities, identity, j, i);
    }
    if i < place {
        lemma_two_occurrences(identities, identity, i, place);
    }
    if place < i {
        lemma_two_occurrences(identities, identity, place, i);
    }
}

/// An operation never picks one of several: a window is resolved only where no other one has the
/// same identifier, and it has the identifier that was asked for.
pub proof fn law_resolved_window_is_the_only_one(
    toplevels: Seq<ProtocolToplevelView>,
    identity: Seq<char>,
    operation: Seq<char>,
    i: int,
    j: int,
)
    requires
        window_resolved(toplevels, identity, operation) is Ok,
        0 <= i < toplevels.len(),
        0 <= j < toplevels.len(),
        toplevels[i].identifier == identity,
        toplevels[j].identifier == identity,
    ensures
        i == j,
        window_resolved(toplevels, identity, operation) == Ok::<
            ProtocolToplevelView,
            CosmicErrorView,
        >(toplevels[i]),
{
    let identities = identifiers(toplevels);
    lemma_place_of(identities, identity);
    let place = place_of(identities, identity)->Some_0;
    assert(identities[i] == identity && identities[j] == identity && identities[place] == identity);
    if i < j {
        lemma_two_occurrences(identities, identity, i, j);
    }
    if j < i {
        lemma_two_occurrences(identities, identity, j, i);
    }
    if i < place {
        lemma_two_occurrences(identities, identity, i, place);
    }
    if place < i {
        lemma_two_occurrences(identities, identity, place, i);
    }
}

proof fn lemma_only_occurrence(identities: Seq<Seq<char>>, requested: Seq<char>, at: int)
    requires
        0 <= at < identities.len(),
        forall|k: int|
            0 <= k < identities.len() ==> ((#[trigger] identities[k]) == requested <==> k == at),
    ensures
        occurrences(identities, requested) == 1,
        place_of(identities, requested) == Some(at),
    decreases identities.len(),
{
    let earlier = identities.drop_last();
    assert(forall|k: int| 0 <= k < earlier.len() ==> #[trigger] earlier[k] == identities[k]);
    assert(identities.last() == identities[identities.len() - 1]);
    lemma_place_of(earlier, requested);
    if at < earlier.len() {
        lemma_only_occurrence(earlier, requested, at);
    } else {
        lemma_no_occurrence(earlier, requested);
    }
}

proof fn lemma_no_occurrence(identities: Seq<Seq<char>>, requested: Seq<char>)
    requires
        forall|k: int| 0 <= k < identities.len() ==> #[trigger] identities[k] != requested,
    ensures
        occurrences(identities, requested) == 0,
        place_of(identities, requested) is None,
    decreases identities.len(),
{
    if identities.len() > 0 {
        let earlier = identities.drop_last();
        assert(forall|k: int| 0 <= k < earlier.len() ==> #[trigger] earlier[k] == identities[k]);
        assert(identities.last() == identities[identities.len() - 1]);
        lemma_no_occurrence(earlier, requested);
    }
}

/// A window that is listed once is found by its identifier; one that is not listed, or listed twice,
/// is refused.
pub proof fn law_listed_window_is_resolved(
    toplevels: Seq<ProtocolToplevelView>,
    identity: Seq<char>,
    operation: Seq<char>,
)
    ensures
        forall|at: int|
            0 <= at < toplevels.len() && (forall|k: int|
                0 <= k < toplevels.len() ==> ((#[trigger] toplevels[k]).identifier == identity
                    <==> k == at)) ==> window_resolved(toplevels, identity, operation) == Ok::<
                ProtocolToplevelView,
                CosmicErrorView,
            >(#[trigger] toplevels[at]),
        (forall|k: int|
            0 <= k < toplevels.len() ==> (#[trigger] toplevels[k]).identifier != identity)
            ==> window_resolved(toplevels, identity, operation) == Err::<
            ProtocolToplevelView,
            CosmicErrorView,
        >(CosmicErrorView::WindowNotFound { operation, identity }),
        forall|i: int, j: int|
            0 <= i < j < toplevels.len() && (#[trigger] toplevels[i]).identifier == identity && (
            #[trigger] toplevels[j]).identifier == identity ==> (window_resolved(
                toplevels,
                identity,
                operation,
            ) matches Err(error) && error is WindowAmbiguous),
{
    let identities = identifiers(toplevels);
    assert forall|at: int|
        0 <= at < toplevels.len() && (forall|k: int|
            0 <= k < toplevels.len() ==> ((#[trigger] toplevels[k]).identifier == identity <==> k
                == at)) implies window_resolved(toplevels, identity, operation) == Ok::<
        ProtocolToplevelView,
        CosmicErrorView,
    >(#[trigger] toplevels[at]) by {
        assert forall|k: int| 0 <= k < identities.len() implies ((#[trigger] identities[k])
            == identity <==> k == at) by {
            assert(identities[k] == toplevels[k].identifier);
        }
        lemma_only_occurrence(identities, identity, at);
    }
    if forall|k: int|
        0 <= k < toplevels.len() ==> (#[trigger] toplevels[k]).identifier != identity {
        assert forall|k: int| 0 <= k < identities.len() implies #[trigger] identities[k]
            != identity by {
            assert(identities[k] == toplevels[k].identifier);
        }
        lemma_no_occurrence(identities, identity);
    }
    assert forall|i: int, j: int|
        0 <= i < j < toplevels.len() && (#[trigger] toplevels[i]).identifier == identity && (
        #[trigger] toplevels[j]).identifier == identity implies (window_resolved(
        toplevels,
        identity,
        operation,
    ) matches Err(error) && error is WindowAmbiguous) by {
        lemma_two_occurrences(identities, identity, i, j);
    }
}

/// A workspace is known by its protocol identity, or by its name where it has none. One that alone is
/// known by an identity is found by it; where none is, the request is refused.
pub proof fn law_known_workspace_is_resolved(
    workspaces: Seq<ProtocolWorkspaceView>,
    identity: Seq<char>,
    operation: Seq<char>,
)
    requires
        forall|k: int| 0 <= k < workspaces.len() ==> well_named(#[trigger] workspaces[k]),
    ensures
        forall|at: int|
            0 <= at < workspaces.len() && (forall|k: int|
                0 <= k < workspaces.len() ==> (known_as(#[trigger] workspaces[k]) == identity
                    <==> k == at)) ==> workspace_resolved(workspaces, identity, operation) == Ok::<
                ProtocolWorkspaceView,
                CosmicErrorView,
            >(#[trigger] workspaces[at]),
        (forall|k: int|
            0 <= k < workspaces.len() ==> known_as(#[trigger] workspaces[k]) != identity)
            ==> workspace_resolved(workspaces, identity, operation) == Err::<
            ProtocolWorkspaceView,
            CosmicErrorView,
        >(CosmicErrorView::WorkspaceNotFound { operation, identity }),
{
    lemma_well_named(workspaces, operation);
    let identities = identities_read(workspaces, operation)->Ok_0;
    assert forall|at: int|
        0 <= at < workspaces.len() && (forall|k: int|
            0 <= k < workspaces.len() ==> (known_as(#[trigger] workspaces[k]) == identity <==> k
                == at)) implies workspace_resolved(workspaces, identity, operation) == Ok::<
        ProtocolWorkspaceView,
        CosmicErrorView,
    >(#[trigger] workspaces[at]) by {
        assert forall|k: int| 0 <= k < identities.len() implies ((#[trigger] identities[k])
            == identity <==> k == at) by {
            assert(identities[k] == known_as(workspaces[k]));
        }
        lemma_only_occurrence(identities, identity, at);
    }
    if forall|k: int|
        0 <= k < workspaces.len() ==> known_as(#[trigger] workspaces[k]) != identity {
        assert forall|k: int| 0 <= k < identities.len() implies #[trigger] identities[k]
            != identity by {
            assert(identities[k] == known_as(workspaces[k]));
        }
        lemma_no_occurrence(identities, identity);
    }
}

/// A workspace whose name and identity can be shown.
pub open spec fn well_named(workspace: ProtocolWorkspaceView) -> bool {
    &&& workspace.name.len() > 0
    &&& !has_control(workspace.name)
    &&& workspace.id matches Some(id) ==> id.len() > 0 && !has_control(id)
}

/// What a workspace is known by.
pub open spec fn known_as(workspace: ProtocolWorkspaceView) -> Seq<char> {
    match workspace.id {
        Some(id) => id,
        None => workspace.name,
    }
}

/// Workspaces whose names can be shown are all read, each under what it is known by.
pub proof fn lemma_well_named(workspaces: Seq<ProtocolWorkspaceView>, operation: Seq<char>)
    requires
        forall|k: int| 0 <= k < workspaces.len() ==> well_named(#[trigger] workspaces[k]),
    ensures
        identities_read(workspaces, operation) matches Ok(identities) && identities.len()
            == workspaces.len() && forall|k: int|
            0 <= k < workspaces.len() ==> #[trigger] identities[k] == known_as(workspaces[k]),
    decreases workspaces.len(),
{
    if workspaces.len() > 0 {
        let earlier = workspaces.drop_last();
        assert(forall|k: int| 0 <= k < earlier.len() ==> #[trigger] earlier[k] == workspaces[k]);
        assert(well_named(workspaces[workspaces.len() - 1]));
        lemma_well_named(earlier, operation);
    }
}

/// A window is sent to the first output of the first group that holds its workspace; a workspace in no
/// group, or in one without an output, has nowhere to go.
pub proof fn law_output_is_that_of_the_group(
    groups: Seq<ProtocolWorkspaceGroupView>,
    handle: u64,
    operation: Seq<char>,
    workspace: Seq<char>,
)
    ensures
        forall|at: int|
            0 <= at < groups.len() && (#[trigger] groups[at]).workspaces.contains(handle) && (forall|
                k: int,
            |
                0 <= k < at ==> !(#[trigger] groups[k]).workspaces.contains(handle))
                && groups[at].outputs.len() > 0 ==> output_resolved(
                groups,
                handle,
                operation,
                workspace,
            ) == Ok::<u64, CosmicErrorView>(groups[at].outputs[0]),
        (forall|k: int|
            0 <= k < groups.len() ==> !(#[trigger] groups[k]).workspaces.contains(handle)
                || groups[k].outputs.len() == 0) ==> output_resolved(
            groups,
            handle,
            operation,
            workspace,
        ) is Err,
    decreases groups.len(),
{
    if groups.len() > 0 {
        let rest = groups.drop_first();
        assert(forall|k: int| 0 <= k < rest.len() ==> #[trigger] rest[k] == groups[k + 1]);
        law_output_is_that_of_the_group(rest, handle, operation, workspace);
        if !groups[0].workspaces.contains(handle) {
            assert forall|at: int|
                0 <= at < groups.len() && (#[trigger] groups[at]).workspaces.contains(handle) && (
                forall|k: int|
                    0 <= k < at ==> !(#[trigger] groups[k]).workspaces.contains(handle))
                    && groups[at].outputs.len() > 0 implies output_resolved(
                groups,
                handle,
                operation,
                workspace,
            ) == Ok::<u64, CosmicErrorView>(groups[at].outputs[0]) by {
                assert(rest[at - 1] == groups[at]);
                assert forall|k: int| 0 <= k < at - 1 implies !(
                #[trigger] rest[k]).workspaces.contains(handle) by {
                    assert(rest[k] == groups[k + 1]);
                }
            }
        }
    }
}

/// A window that was resolved is one of those that are listed, under the identifier that was asked for.
pub proof fn lemma_resolved_window_is_listed(
    toplevels: Seq<ProtocolToplevelView>,
    identity: Seq<char>,
    operation: Seq<char>,
)
    ensures
        window_resolved(toplevels, identity, operation) matches Ok(window) ==> exists|k: int|
            0 <= k < toplevels.len() && #[trigger] toplevels[k] == window && toplevels[k].identifier
                == identity,
{
    lemma_place_of(identifiers(toplevels), identity);
}

/// A workspace that was resolved is one of those that are there, and it is known by the identity that
/// was asked for.
pub proof fn lemma_resolved_workspace_is_known(
    workspaces: Seq<ProtocolWorkspaceView>,
    identity: Seq<char>,
    operation: Seq<char>,
)
    ensures
        workspace_resolved(workspaces, identity, operation) matches Ok(workspace) ==> exists|k: int|
            0 <= k < workspaces.len() && #[trigger] workspaces[k] == workspace && known_as(
                workspaces[k],
            ) == identity,
{
    lemma_identities_read(workspaces, operation);
    if let Ok(identities) = identities_read(workspaces, operation) {
        lemma_place_of(identities, identity);
        if let Some(place) = place_of(identities, identity) {
            assert(protocol_identity(workspaces[place].id, workspaces[place].name, operation)
                == Ok::<Seq<char>, CosmicErrorView>(identities[place]));
        }
    }
}

} // verus!
