//! What the COSMIC command line reports of workspaces and windows.
use vstd::prelude::*;
use vstd::string::*;
use crate::ports::{
    DesktopSnapshot, DesktopSnapshotView, DesktopWindowSnapshot, DesktopWindowSnapshotView,
    DesktopWorkspaceSnapshot, DesktopWorkspaceSnapshotView,
};
use crate::text::{
    has_control, join2, join3, join5, lower, same_text, text_has_control, text_lower,
};
use crate::values::{append, empty_list, Replicate};
use super::errors::{seen_native, CosmicError, CosmicErrorView};

verus! {

/// A value that may identify something: a text, a number as it is printed, or neither.
#[derive(Debug, Clone, PartialEq, Eq)]
pub enum CosmicValue {
    Text(String),
    Number(String),
    Other,
}

/// What a `CosmicValue` stands for.
#[verifier::ext_equal]
pub enum CosmicValueView {
    Text(Seq<char>),
    Number(Seq<char>),
    Other,
}

impl View for CosmicValue {
    type V = CosmicValueView;

    open spec fn view(&self) -> CosmicValueView {
        match self {
            CosmicValue::Text(value) => CosmicValueView::Text(value.deep_view()),
            CosmicValue::Number(value) => CosmicValueView::Number(value.deep_view()),
            CosmicValue::Other => CosmicValueView::Other,
        }
    }
}

impl DeepView for CosmicValue {
    type V = CosmicValueView;

    open spec fn deep_view(&self) -> CosmicValueView {
        self.view()
    }
}

impl Replicate for CosmicValue {
    fn replicate(&self) -> (r: Self) {
        match self {
            CosmicValue::Text(value) => CosmicValue::Text(value.replicate()),
            CosmicValue::Number(value) => CosmicValue::Number(value.replicate()),
            CosmicValue::Other => CosmicValue::Other,
        }
    }
}

/// What a report says of the tiling of a workspace.
#[derive(Debug, Clone, PartialEq, Eq)]
pub enum CosmicTilingModel {
    Enabled(bool),
    State(String),
}

/// What a `CosmicTilingModel` stands for.
#[verifier::ext_equal]
pub enum CosmicTilingModelView {
    Enabled(bool),
    State(Seq<char>),
}

impl View for CosmicTilingModel {
    type V = CosmicTilingModelView;

    open spec fn view(&self) -> CosmicTilingModelView {
        match self {
            CosmicTilingModel::Enabled(value) => CosmicTilingModelView::Enabled(value.deep_view()),
            CosmicTilingModel::State(value) => CosmicTilingModelView::State(value.deep_view()),
        }
    }
}

impl DeepView for CosmicTilingModel {
    type V = CosmicTilingModelView;

    open spec fn deep_view(&self) -> CosmicTilingModelView {
        self.view()
    }
}

/// A workspace of a report.
#[derive(Debug, Clone, PartialEq, Eq)]
pub struct CosmicWorkspaceModel {
    pub id: Option<CosmicValue>,
    pub name: Option<String>,
    pub coordinates: Vec<i64>,
    pub active: bool,
    pub tiling: Option<CosmicTilingModel>,
}

/// What a `CosmicWorkspaceModel` stands for.
#[verifier::ext_equal]
pub struct CosmicWorkspaceModelView {
    pub id: Option<CosmicValueView>,
    pub name: Option<Seq<char>>,
    pub coordinates: Seq<i64>,
    pub active: bool,
    pub tiling: Option<CosmicTilingModelView>,
}

impl View for CosmicWorkspaceModel {
    type V = CosmicWorkspaceModelView;

    open spec fn view(&self) -> CosmicWorkspaceModelView {
        CosmicWorkspaceModelView {
            id: self.id.deep_view(),
            name: self.name.deep_view(),
            coordinates: self.coordinates.deep_view(),
            active: self.active.deep_view(),
            tiling: self.tiling.deep_view(),
        }
    }
}

impl DeepView for CosmicWorkspaceModel {
    type V = CosmicWorkspaceModelView;

    open spec fn deep_view(&self) -> CosmicWorkspaceModelView {
        self.view()
    }
}

/// A window of a report.
#[derive(Debug, Clone, PartialEq, Eq)]
pub struct CosmicWindowModel {
    pub identity: Option<CosmicValue>,
    pub application: Option<String>,
    pub title: Option<String>,
    pub state: Vec<String>,
    pub workspaces: Vec<CosmicValue>,
    pub project_path: Option<String>,
}

/// What a `CosmicWindowModel` stands for.
#[verifier::ext_equal]
pub struct CosmicWindowModelView {
    pub identity: Option<CosmicValueView>,
    pub application: Option<Seq<char>>,
    pub title: Option<Seq<char>>,
    pub state: Seq<Seq<char>>,
    pub workspaces: Seq<CosmicValueView>,
    pub project_path: Option<Seq<char>>,
}

impl View for CosmicWindowModel {
    type V = CosmicWindowModelView;

    open spec fn view(&self) -> CosmicWindowModelView {
        CosmicWindowModelView {
            identity: self.identity.deep_view(),
            application: self.application.deep_view(),
            title: self.title.deep_view(),
            state: self.state.deep_view(),
            workspaces: self.workspaces.deep_view(),
            project_path: self.project_path.deep_view(),
        }
    }
}

impl DeepView for CosmicWindowModel {
    type V = CosmicWindowModelView;

    open spec fn deep_view(&self) -> CosmicWindowModelView {
        self.view()
    }
}

// ---------------------------------------------------------------------------------------------
// What a report means
// ---------------------------------------------------------------------------------------------
/// The text of a value that can identify something.
pub open spec fn value_text(value: Option<CosmicValueView>) -> Option<Seq<char>> {
    match value {
        Some(CosmicValueView::Text(text)) | Some(CosmicValueView::Number(text)) => Some(text),
        _ => None,
    }
}

pub open spec fn workspaces_malformed(detail: Seq<char>) -> CosmicErrorView {
    CosmicErrorView::MalformedOutput { operation: "get-workspaces"@, detail }
}

pub open spec fn windows_malformed(detail: Seq<char>) -> CosmicErrorView {
    CosmicErrorView::MalformedOutput { operation: "get-toplevels"@, detail }
}

/// A text of a report must not be empty, nor hold a control character.
pub open spec fn checked_text(value: Seq<char>, field: Seq<char>, operation: Seq<char>) -> Result<
    (),
    CosmicErrorView,
> {
    if value.len() == 0 || has_control(value) {
        Err(
            CosmicErrorView::MalformedOutput {
                operation,
                detail: field + " must be non-empty and contain no control characters"@,
            },
        )
    } else {
        Ok(())
    }
}

/// A text of a report that may be missing.
pub open spec fn checked_option(
    value: Option<Seq<char>>,
    field: Seq<char>,
    operation: Seq<char>,
) -> Result<(), CosmicErrorView> {
    match value {
        Some(text) => checked_text(text, field, operation),
        None => Ok(()),
    }
}

/// Every text of a list, the first that is refused deciding.
pub open spec fn checked_texts(values: Seq<Seq<char>>, field: Seq<char>, operation: Seq<char>) -> Result<
    (),
    CosmicErrorView,
>
    decreases values.len(),
{
    if values.len() == 0 {
        Ok(())
    } else {
        match checked_texts(values.drop_last(), field, operation) {
            Err(error) => Err(error),
            Ok(_) => checked_text(values.last(), field, operation),
        }
    }
}

/// Whether a workspace tiles its windows.
pub open spec fn tiling_read(tiling: Option<CosmicTilingModelView>) -> Result<
    Option<bool>,
    CosmicErrorView,
> {
    match tiling {
        None => Ok(None),
        Some(CosmicTilingModelView::Enabled(enabled)) => Ok(Some(enabled)),
        Some(CosmicTilingModelView::State(state)) => if lower(state) == lower("enabled"@) {
            Ok(Some(true))
        } else if lower(state) == lower("disabled"@) {
            Ok(Some(false))
        } else {
            Err(workspaces_malformed("unsupported tiling state '"@ + state + "'"@))
        },
    }
}

/// The position of a workspace: its first coordinate, where it can be one, else its place in the
/// report.
pub open spec fn workspace_position(coordinates: Seq<i64>, place: int) -> Option<u32> {
    if coordinates.len() > 0 && 0 <= coordinates[0] <= u32::MAX {
        Some(coordinates[0] as u32)
    } else if 0 <= place <= u32::MAX {
        Some(place as u32)
    } else {
        None
    }
}

/// One of the workspaces has the identity.
pub open spec fn has_workspace(workspaces: Seq<DesktopWorkspaceSnapshotView>, identity: Seq<char>) -> bool {
    exists|i: int| 0 <= i < workspaces.len() && #[trigger] workspaces[i].identity == identity
}

/// One of the windows has the identity.
pub open spec fn has_window(windows: Seq<DesktopWindowSnapshotView>, identity: Seq<char>) -> bool {
    exists|i: int| 0 <= i < windows.len() && #[trigger] windows[i].identity == identity
}

/// A workspace of a report, after those that come before it.
pub open spec fn workspace_read(
    earlier: Seq<DesktopWorkspaceSnapshotView>,
    place: int,
    model: CosmicWorkspaceModelView,
) -> Result<DesktopWorkspaceSnapshotView, CosmicErrorView> {
    let named = match value_text(model.id) {
        Some(text) => Some(text),
        None => model.name,
    };
    match named {
        None => Err(
            CosmicErrorView::IncompleteOutput {
                operation: "get-workspaces"@,
                detail: "every workspace must expose an identifier or name"@,
            },
        ),
        Some(identity) => match checked_text(
            identity,
            "workspace identifier"@,
            "get-workspaces"@,
        ) {
            Err(error) => Err(error),
            Ok(_) => if has_workspace(earlier, identity) {
                Err(
                    workspaces_malformed(
                        "workspace identifier '"@ + identity + "' appeared more than once"@,
                    ),
                )
            } else {
                match checked_option(model.name, "workspace name"@, "get-workspaces"@) {
                    Err(error) => Err(error),
                    Ok(_) => match tiling_read(model.tiling) {
                        Err(error) => Err(error),
                        Ok(tiling_enabled) => Ok(
                            DesktopWorkspaceSnapshotView {
                                identity,
                                name: model.name,
                                position: workspace_position(model.coordinates, place),
                                focused: model.active,
                                tiling_enabled,
                            },
                        ),
                    },
                }
            },
        },
    }
}

/// The workspaces of a report, the first that is refused deciding.
pub open spec fn workspaces_read(models: Seq<CosmicWorkspaceModelView>) -> Result<
    Seq<DesktopWorkspaceSnapshotView>,
    CosmicErrorView,
>
    decreases models.len(),
{
    if models.len() == 0 {
        Ok(Seq::empty())
    } else {
        match workspaces_read(models.drop_last()) {
            Err(error) => Err(error),
            Ok(earlier) => match workspace_read(earlier, models.len() - 1, models.last()) {
                Err(error) => Err(error),
                Ok(workspace) => Ok(earlier.push(workspace)),
            },
        }
    }
}

/// The workspaces that a window lists, each of which must be one of the report.
pub open spec fn links_read(
    workspaces: Seq<DesktopWorkspaceSnapshotView>,
    window: Seq<char>,
    values: Seq<CosmicValueView>,
) -> Result<Seq<Seq<char>>, CosmicErrorView>
    decreases values.len(),
{
    if values.len() == 0 {
        Ok(Seq::empty())
    } else {
        match links_read(workspaces, window, values.drop_last()) {
            Err(error) => Err(error),
            Ok(earlier) => match value_text(Some(values.last())) {
                None => Err(
                    CosmicErrorView::IncompleteOutput {
                        operation: "get-toplevels"@,
                        detail: "window '"@ + window
                            + "' contains a workspace without a stable identifier"@,
                    },
                ),
                Some(identity) => match checked_text(
                    identity,
                    "workspace identifier"@,
                    "get-toplevels"@,
                ) {
                    Err(error) => Err(error),
                    Ok(_) => if !has_workspace(workspaces, identity) {
                        Err(
                            windows_malformed(
                                "window '"@ + window + "' references unknown workspace '"@
                                    + identity + "'"@,
                            ),
                        )
                    } else {
                        Ok(earlier.push(identity))
                    },
                },
            },
        }
    }
}

/// A window is focused where one of its states says that it is activated.
pub open spec fn is_activated(states: Seq<Seq<char>>) -> bool {
    exists|i: int| 0 <= i < states.len() && lower(#[trigger] states[i]) == lower("activated"@)
}

/// The texts of a window, in the order in which they are checked.
pub open spec fn window_texts_checked(model: CosmicWindowModelView) -> Result<(), CosmicErrorView> {
    match checked_option(model.application, "window application"@, "get-toplevels"@) {
        Err(error) => Err(error),
        Ok(_) => match checked_option(model.title, "window title"@, "get-toplevels"@) {
            Err(error) => Err(error),
            Ok(_) => checked_texts(model.state, "window state"@, "get-toplevels"@),
        },
    }
}

/// A window of a report, after those that come before it. It is in a workspace where it lists exactly
/// one.
pub open spec fn window_read(
    workspaces: Seq<DesktopWorkspaceSnapshotView>,
    earlier: Seq<DesktopWindowSnapshotView>,
    model: CosmicWindowModelView,
) -> Result<DesktopWindowSnapshotView, CosmicErrorView> {
    match value_text(model.identity) {
        None => Err(
            CosmicErrorView::IncompleteOutput {
                operation: "get-toplevels"@,
                detail: "every window must expose a stable identifier"@,
            },
        ),
        Some(identity) => match checked_text(identity, "window identifier"@, "get-toplevels"@) {
            Err(error) => Err(error),
            Ok(_) => if has_window(earlier, identity) {
                Err(
                    windows_malformed(
                        "window identifier '"@ + identity + "' appeared more than once"@,
                    ),
                )
            } else {
                match window_texts_checked(model) {
                    Err(error) => Err(error),
                    Ok(_) => match links_read(workspaces, identity, model.workspaces) {
                        Err(error) => Err(error),
                        Ok(links) => match checked_option(
                            model.project_path,
                            "project path"@,
                            "get-toplevels"@,
                        ) {
                            Err(error) => Err(error),
                            Ok(_) => Ok(
                                DesktopWindowSnapshotView {
                                    identity,
                                    application: model.application,
                                    title: model.title,
                                    project_path: model.project_path,
                                    workspace_identity: if links.len() == 1 {
                                        Some(links[0])
                                    } else {
                                        None
                                    },
                                    focused: is_activated(model.state),
                                },
                            ),
                        },
                    },
                }
            },
        },
    }
}

/// The windows of a report, the first that is refused deciding.
pub open spec fn windows_read(
    workspaces: Seq<DesktopWorkspaceSnapshotView>,
    models: Seq<CosmicWindowModelView>,
) -> Result<Seq<DesktopWindowSnapshotView>, CosmicErrorView>
    decreases models.len(),
{
    if models.len() == 0 {
        Ok(Seq::empty())
    } else {
        match windows_read(workspaces, models.drop_last()) {
            Err(error) => Err(error),
            Ok(earlier) => match window_read(workspaces, earlier, models.last()) {
                Err(error) => Err(error),
                Ok(window) => Ok(earlier.push(window)),
            },
        }
    }
}

/// What the two reports say of the desktop. Where a report is no list of models, the text of the
/// parser's error stands in its place.
pub open spec fn snapshot_read(
    workspaces: Result<Seq<CosmicWorkspaceModelView>, Seq<char>>,
    windows: Result<Seq<CosmicWindowModelView>, Seq<char>>,
) -> Result<DesktopSnapshotView, CosmicErrorView> {
    match workspaces {
        Err(text) => Err(workspaces_malformed(text)),
        Ok(workspace_models) => match windows {
            Err(text) => Err(windows_malformed(text)),
            Ok(window_models) => match workspaces_read(workspace_models) {
                Err(error) => Err(error),
                Ok(workspaces) => if workspaces.len() == 0 {
                    Err(
                        CosmicErrorView::IncompleteOutput {
                            operation: "get-workspaces"@,
                            detail: "the compositor returned no workspaces"@,
                        },
                    )
                } else {
                    match windows_read(workspaces, window_models) {
                        Err(error) => Err(error),
                        Ok(windows) => Ok(DesktopSnapshotView { workspaces, windows }),
                    }
                },
            },
        },
    }
}

/// What a parsed report stands for.
pub open spec fn seen_report<T: DeepView>(report: Result<Vec<T>, String>) -> Result<
    Seq<T::V>,
    Seq<char>,
> {
    match report {
        Ok(models) => Ok(models.deep_view()),
        Err(text) => Err(text@),
    }
}

// ---------------------------------------------------------------------------------------------
// Reading
// ---------------------------------------------------------------------------------------------
fn value_string(value: &Option<CosmicValue>) -> (r: Option<String>)
    ensures
        r.deep_view() == value_text(value.deep_view()),
{
    match value {
        Some(CosmicValue::Text(text)) => Some(text.clone()),
        Some(CosmicValue::Number(text)) => Some(text.clone()),
        _ => None,
    }
}

fn malformed_workspaces(detail: String) -> (r: CosmicError)
    ensures
        r@ == workspaces_malformed(detail@),
{
    CosmicError::MalformedOutput { operation: "get-workspaces".to_owned(), detail }
}

fn malformed_windows(detail: String) -> (r: CosmicError)
    ensures
        r@ == windows_malformed(detail@),
{
    CosmicError::MalformedOutput { operation: "get-toplevels".to_owned(), detail }
}

fn validate_text(value: &str, field: &str, operation: &str) -> (r: Result<(), CosmicError>)
    ensures
        seen_native(r) == checked_text(value@, field@, operation@),
{
    if value.is_empty() || text_has_control(value) {
        return Err(
            CosmicError::MalformedOutput {
                operation: operation.to_owned(),
                detail: join2(field, " must be non-empty and contain no control characters"),
            },
        );
    }
    Ok(())
}

fn validate_option(value: &Option<String>, field: &str, operation: &str) -> (r: Result<
    (),
    CosmicError,
>)
    ensures
        seen_native(r) == checked_option(value.deep_view(), field@, operation@),
{
    match value {
        Some(text) => validate_text(text.as_str(), field, operation),
        None => Ok(()),
    }
}

fn validate_texts(values: &Vec<String>, field: &str, operation: &str) -> (r: Result<
    (),
    CosmicError,
>)
    ensures
        seen_native(r) == checked_texts(values.deep_view(), field@, operation@),
{
    let mut result: Result<(), CosmicError> = Ok(());
    let mut i: usize = 0;
    let ghost all = values.deep_view();
    assert(all.take(0) =~= Seq::<Seq<char>>::empty());
    while i < values.len()
        invariant
            i <= values@.len(),
            all == values.deep_view(),
            seen_native(result) == checked_texts(all.take(i as int), field@, operation@),
        decreases values@.len() - i,
    {
        assert(all[i as int] == values@[i as int]@);
        assert(all.take(i as int + 1).drop_last() =~= all.take(i as int));
        result = match result {
            Err(error) => Err(error),
            Ok(_) => validate_text(values[i].as_str(), field, operation),
        };
        i = i + 1;
    }
    assert(all.take(i as int) =~= all);
    result
}

fn tiling_value(tiling: &Option<CosmicTilingModel>) -> (r: Result<Option<bool>, CosmicError>)
    ensures
        seen_native(r) == tiling_read(tiling.deep_view()),
{
    match tiling {
        None => Ok(None),
        Some(CosmicTilingModel::Enabled(enabled)) => Ok(Some(*enabled)),
        Some(CosmicTilingModel::State(state)) => {
            let folded = text_lower(state.as_str());
            if same_text(folded.as_str(), text_lower("enabled").as_str()) {
                Ok(Some(true))
            } else if same_text(folded.as_str(), text_lower("disabled").as_str()) {
                Ok(Some(false))
            } else {
                Err(
                    malformed_workspaces(
                        join3("unsupported tiling state '", state.as_str(), "'"),
                    ),
                )
            }
        },
    }
}

fn position_of(coordinates: &Vec<i64>, place: usize) -> (r: Option<u32>)
    ensures
        r == workspace_position(coordinates.deep_view(), place as int),
{
    assert(coordinates.deep_view() =~= coordinates@);
    if coordinates.len() > 0 && 0 <= coordinates[0] && coordinates[0] <= 4_294_967_295 {
        Some(coordinates[0] as u32)
    } else if place <= 4_294_967_295 {
        Some(place as u32)
    } else {
        None
    }
}

/// Whether one of the workspaces has the identity.
pub fn lists_workspace(workspaces: &Vec<DesktopWorkspaceSnapshot>, identity: &str) -> (r: bool)
    ensures
        r == has_workspace(workspaces.deep_view(), identity@),
{
    let mut i: usize = 0;
    let ghost all = workspaces.deep_view();
    while i < workspaces.len()
        invariant
            i <= workspaces@.len(),
            all == workspaces.deep_view(),
            forall|j: int| 0 <= j < i ==> #[trigger] all[j].identity != identity@,
        decreases workspaces@.len() - i,
    {
        assert(all[i as int] == workspaces@[i as int]@);
        if same_text(workspaces[i].identity.as_str(), identity) {
            assert(all[i as int].identity == identity@);
            return true;
        }
        i = i + 1;
    }
    false
}

/// Whether one of the windows has the identity.
pub fn lists_window(windows: &Vec<DesktopWindowSnapshot>, identity: &str) -> (r: bool)
    ensures
        r == has_window(windows.deep_view(), identity@),
{
    let mut i: usize = 0;
    let ghost all = windows.deep_view();
    while i < windows.len()
        invariant
            i <= windows@.len(),
            all == windows.deep_view(),
            forall|j: int| 0 <= j < i ==> #[trigger] all[j].identity != identity@,
        decreases windows@.len() - i,
    {
        assert(all[i as int] == windows@[i as int]@);
        if same_text(windows[i].identity.as_str(), identity) {
            assert(all[i as int].identity == identity@);
            return true;
        }
        i = i + 1;
    }
    false
}

fn read_workspace(
    earlier: &Vec<DesktopWorkspaceSnapshot>,
    place: usize,
    model: &CosmicWorkspaceModel,
) -> (r: Result<DesktopWorkspaceSnapshot, CosmicError>)
    ensures
        seen_native(r) == workspace_read(earlier.deep_view(), place as int, model@),
{
    let named = match value_string(&model.id) {
        Some(text) => Some(text),
        None => model.name.replicate(),
    };
    let identity = match named {
        None => {
            return Err(
                CosmicError::IncompleteOutput {
                    operation: "get-workspaces".to_owned(),
                    detail: "every workspace must expose an identifier or name".to_owned(),
                },
            );
        },
        Some(identity) => identity,
    };
    if let Err(error) = validate_text(identity.as_str(), "workspace identifier", "get-workspaces") {
        return Err(error);
    }
    if lists_workspace(earlier, identity.as_str()) {
        return Err(
            malformed_workspaces(
                join3("workspace identifier '", identity.as_str(), "' appeared more than once"),
            ),
        );
    }
    if let Err(error) = validate_option(&model.name, "workspace name", "get-workspaces") {
        return Err(error);
    }
    match tiling_value(&model.tiling) {
        Err(error) => Err(error),
        Ok(tiling_enabled) => Ok(
            DesktopWorkspaceSnapshot {
                identity,
                name: model.name.replicate(),
                position: position_of(&model.coordinates, place),
                focused: model.active,
                tiling_enabled,
            },
        ),
    }
}

fn read_workspaces(models: &Vec<CosmicWorkspaceModel>) -> (r: Result<
    Vec<DesktopWorkspaceSnapshot>,
    CosmicError,
>)
    ensures
        seen_native(r) == workspaces_read(models.deep_view()),
{
    let mut result: Result<Vec<DesktopWorkspaceSnapshot>, CosmicError> = Ok(empty_list());
    let mut i: usize = 0;
    let ghost all = models.deep_view();
    assert(all.take(0) =~= Seq::<CosmicWorkspaceModelView>::empty());
    while i < models.len()
        invariant
            i <= models@.len(),
            all == models.deep_view(),
            seen_native(result) == workspaces_read(all.take(i as int)),
        decreases models@.len() - i,
    {
        assert(all[i as int] == models@[i as int]@);
        assert(all.take(i as int + 1).drop_last() =~= all.take(i as int));
        result = match result {
            Err(error) => Err(error),
            Ok(earlier) => match read_workspace(&earlier, i, &models[i]) {
                Err(error) => Err(error),
                Ok(workspace) => {
                    let mut workspaces = earlier;
                    append(&mut workspaces, workspace);
                    Ok(workspaces)
                },
            },
        };
        i = i + 1;
    }
    assert(all.take(i as int) =~= all);
    result
}

fn read_link(
    workspaces: &Vec<DesktopWorkspaceSnapshot>,
    window: &str,
    value: &CosmicValue,
) -> (r: Result<String, CosmicError>)
    ensures
        seen_native(r) == (match links_read(workspaces.deep_view(), window@, seq![value@]) {
            Ok(links) => Ok(links[0]),
            Err(error) => Err(error),
        }),
{
    proof {
        reveal_with_fuel(links_read, 2);
        assert(seq![value@].drop_last() =~= Seq::<CosmicValueView>::empty());
    }
    let identity = match value_string(&Some(value.replicate())) {
        None => {
            return Err(
                CosmicError::IncompleteOutput {
                    operation: "get-toplevels".to_owned(),
                    detail: join3(
                        "window '",
                        window,
                        "' contains a workspace without a stable identifier",
                    ),
                },
            );
        },
        Some(identity) => identity,
    };
    if let Err(error) = validate_text(identity.as_str(), "workspace identifier", "get-toplevels") {
        return Err(error);
    }
    if !lists_workspace(workspaces, identity.as_str()) {
        return Err(
            malformed_windows(
                join5(
                    "window '",
                    window,
                    "' references unknown workspace '",
                    identity.as_str(),
                    "'",
                ),
            ),
        );
    }
    Ok(identity)
}

fn read_links(
    workspaces: &Vec<DesktopWorkspaceSnapshot>,
    window: &str,
    values: &Vec<CosmicValue>,
) -> (r: Result<Vec<String>, CosmicError>)
    ensures
        seen_native(r) == links_read(workspaces.deep_view(), window@, values.deep_view()),
{
    let mut result: Result<Vec<String>, CosmicError> = Ok(empty_list());
    let mut i: usize = 0;
    let ghost all = values.deep_view();
    assert(all.take(0) =~= Seq::<CosmicValueView>::empty());
    while i < values.len()
        invariant
            i <= values@.len(),
            all == values.deep_view(),
            seen_native(result) == links_read(workspaces.deep_view(), window@, all.take(i as int)),
        decreases values@.len() - i,
    {
        assert(all[i as int] == values@[i as int]@);
        assert(all.take(i as int + 1).drop_last() =~= all.take(i as int));
        proof {
            reveal_with_fuel(links_read, 2);
            assert(seq![values@[i as int]@].drop_last() =~= Seq::<CosmicValueView>::empty());
        }
        result = match result {
            Err(error) => Err(error),
            Ok(earlier) => match read_link(workspaces, window, &values[i]) {
                Err(error) => Err(error),
                Ok(identity) => {
                    let mut links = earlier;
                    append(&mut links, identity);
                    Ok(links)
                },
            },
        };
        i = i + 1;
    }
    assert(all.take(i as int) =~= all);
    result
}

fn says_activated(states: &Vec<String>) -> (r: bool)
    ensures
        r == is_activated(states.deep_view()),
{
    let wanted = text_lower("activated");
    let mut i: usize = 0;
    let ghost all = states.deep_view();
    while i < states.len()
        invariant
            i <= states@.len(),
            all == states.deep_view(),
            wanted@ == lower("activated"@),
            forall|j: int| 0 <= j < i ==> lower(#[trigger] all[j]) != lower("activated"@),
        decreases states@.len() - i,
    {
        assert(all[i as int] == states@[i as int]@);
        if same_text(text_lower(states[i].as_str()).as_str(), wanted.as_str()) {
            return true;
        }
        i = i + 1;
    }
    false
}

fn validate_window_texts(model: &CosmicWindowModel) -> (r: Result<(), CosmicError>)
    ensures
        seen_native(r) == window_texts_checked(model@),
{
    if let Err(error) = validate_option(&model.application, "window application", "get-toplevels") {
        return Err(error);
    }
    if let Err(error) = validate_option(&model.title, "window title", "get-toplevels") {
        return Err(error);
    }
    validate_texts(&model.state, "window state", "get-toplevels")
}

fn read_window(
    workspaces: &Vec<DesktopWorkspaceSnapshot>,
    earlier: &Vec<DesktopWindowSnapshot>,
    model: &CosmicWindowModel,
) -> (r: Result<DesktopWindowSnapshot, CosmicError>)
    ensures
        seen_native(r) == window_read(workspaces.deep_view(), earlier.deep_view(), model@),
{
    let identity = match value_string(&model.identity) {
        None => {
            return Err(
                CosmicError::IncompleteOutput {
                    operation: "get-toplevels".to_owned(),
                    detail: "every window must expose a stable identifier".to_owned(),
                },
            );
        },
        Some(identity) => identity,
    };
    if let Err(error) = validate_text(identity.as_str(), "window identifier", "get-toplevels") {
        return Err(error);
    }
    if lists_window(earlier, identity.as_str()) {
        return Err(
            malformed_windows(
                join3("window identifier '", identity.as_str(), "' appeared more than once"),
            ),
        );
    }
    if let Err(error) = validate_window_texts(model) {
        return Err(error);
    }
    let links = match read_links(workspaces, identity.as_str(), &model.workspaces) {
        Err(error) => {
            return Err(error);
        },
        Ok(links) => links,
    };
    if let Err(error) = validate_option(&model.project_path, "project path", "get-toplevels") {
        return Err(error);
    }
    let workspace_identity = if links.len() == 1 {
        assert(links.deep_view()[0] == links@[0]@);
        Some(links[0].clone())
    } else {
        None
    };
    Ok(
        DesktopWindowSnapshot {
            identity,
            application: model.application.replicate(),
            title: model.title.replicate(),
            project_path: model.project_path.replicate(),
            workspace_identity,
            focused: says_activated(&model.state),
        },
    )
}

fn read_windows(
    workspaces: &Vec<DesktopWorkspaceSnapshot>,
    models: &Vec<CosmicWindowModel>,
) -> (r: Result<Vec<DesktopWindowSnapshot>, CosmicError>)
    ensures
        seen_native(r) == windows_read(workspaces.deep_view(), models.deep_view()),
{
    let mut result: Result<Vec<DesktopWindowSnapshot>, CosmicError> = Ok(empty_list());
    let mut i: usize = 0;
    let ghost all = models.deep_view();
    assert(all.take(0) =~= Seq::<CosmicWindowModelView>::empty());
    while i < models.len()
        invariant
            i <= models@.len(),
            all == models.deep_view(),
            seen_native(result) == windows_read(workspaces.deep_view(), all.take(i as int)),
        decreases models@.len() - i,
    {
        assert(all[i as int] == models@[i as int]@);
        assert(all.take(i as int + 1).drop_last() =~= all.take(i as int));
        result = match result {
            Err(error) => Err(error),
            Ok(earlier) => match read_window(workspaces, &earlier, &models[i]) {
                Err(error) => Err(error),
                Ok(window) => {
                    let mut windows = earlier;
                    append(&mut windows, window);
                    Ok(windows)
                },
            },
        };
        i = i + 1;
    }
    assert(all.take(i as int) =~= all);
    result
}

/// What the two reports say of the desktop: the parsed reports, or the text of the parser's error.
pub fn decode_snapshot(
    workspaces: Result<Vec<CosmicWorkspaceModel>, String>,
    windows: Result<Vec<CosmicWindowModel>, String>,
) -> (r: Result<DesktopSnapshot, CosmicError>)
    ensures
        seen_native(r) == snapshot_read(seen_report(workspaces), seen_report(windows)),
{
    let workspace_models = match workspaces {
        Err(text) => {
            return Err(malformed_workspaces(text));
        },
        Ok(models) => models,
    };
    let window_models = match windows {
        Err(text) => {
            return Err(malformed_windows(text));
        },
        Ok(models) => models,
    };
    let workspaces = match read_workspaces(&workspace_models) {
        Err(error) => {
            return Err(error);
        },
        Ok(workspaces) => workspaces,
    };
    assert(workspaces.deep_view().len() == workspaces@.len());
    if workspaces.len() == 0 {
        return Err(
            CosmicError::IncompleteOutput {
                operation: "get-workspaces".to_owned(),
                detail: "the compositor returned no workspaces".to_owned(),
            },
        );
    }
    match read_windows(&workspaces, &window_models) {
        Err(error) => Err(error),
        Ok(windows) => Ok(DesktopSnapshot { workspaces, windows }),
    }
}

// ---------------------------------------------------------------------------------------------
// Laws
// ---------------------------------------------------------------------------------------------
proof fn lemma_workspaces_distinct(models: Seq<CosmicWorkspaceModelView>)
    requires
        workspaces_read(models) is Ok,
    ensures
        distinct_workspaces(workspaces_read(models)->Ok_0),
        workspaces_read(models)->Ok_0.len() == models.len(),
    decreases models.len(),
{
    if models.len() > 0 {
        lemma_workspaces_distinct(models.drop_last());
    }
}

proof fn lemma_windows_distinct(
    workspaces: Seq<DesktopWorkspaceSnapshotView>,
    models: Seq<CosmicWindowModelView>,
)
    requires
        windows_read(workspaces, models) is Ok,
    ensures
        distinct_windows(windows_read(workspaces, models)->Ok_0),
        windows_placed(workspaces, windows_read(workspaces, models)->Ok_0),
        windows_read(workspaces, models)->Ok_0.len() == models.len(),
    decreases models.len(),
{
    if models.len() > 0 {
        lemma_windows_distinct(workspaces, models.drop_last());
        let earlier = windows_read(workspaces, models.drop_last())->Ok_0;
        let window = window_read(workspaces, earlier, models.last())->Ok_0;
        lemma_links_known(workspaces, window.identity, models.last().workspaces);
    }
}

proof fn lemma_links_known(
    workspaces: Seq<DesktopWorkspaceSnapshotView>,
    window: Seq<char>,
    values: Seq<CosmicValueView>,
)
    ensures
        links_read(workspaces, window, values) matches Ok(links) ==> forall|i: int|
            0 <= i < links.len() ==> has_workspace(workspaces, #[trigger] links[i]),
    decreases values.len(),
{
    if values.len() > 0 {
        lemma_links_known(workspaces, window, values.drop_last());
    }
}

/// No two workspaces have the same identity.
pub open spec fn distinct_workspaces(workspaces: Seq<DesktopWorkspaceSnapshotView>) -> bool {
    forall|i: int, j: int|
        0 <= i < j < workspaces.len() ==> (#[trigger] workspaces[i]).identity != (
        #[trigger] workspaces[j]).identity
}

/// No two windows have the same identity.
pub open spec fn distinct_windows(windows: Seq<DesktopWindowSnapshotView>) -> bool {
    forall|i: int, j: int|
        0 <= i < j < windows.len() ==> (#[trigger] windows[i]).identity != (
        #[trigger] windows[j]).identity
}

/// A window that is in a workspace is in one of those.
pub open spec fn windows_placed(
    workspaces: Seq<DesktopWorkspaceSnapshotView>,
    windows: Seq<DesktopWindowSnapshotView>,
) -> bool {
    forall|i: int|
        0 <= i < windows.len() && (#[trigger] windows[i]).workspace_identity is Some
            ==> has_workspace(workspaces, windows[i].workspace_identity->Some_0)
}

/// A snapshot that was read is consistent: it holds every workspace and every window of the reports,
/// at least one workspace, no two of a kind under one identity, and no window in a workspace that the
/// report does not hold.
pub proof fn law_read_snapshot_is_consistent(
    workspaces: Seq<CosmicWorkspaceModelView>,
    windows: Seq<CosmicWindowModelView>,
)
    ensures
        snapshot_read(Ok(workspaces), Ok(windows)) matches Ok(snapshot) ==> snapshot.workspaces.len()
            == workspaces.len() && snapshot.workspaces.len() > 0 && snapshot.windows.len()
            == windows.len() && distinct_workspaces(snapshot.workspaces) && distinct_windows(
            snapshot.windows,
        ) && windows_placed(snapshot.workspaces, snapshot.windows),
{
    if let Ok(snapshot) = snapshot_read(Ok(workspaces), Ok(windows)) {
        lemma_workspaces_distinct(workspaces);
        lemma_windows_distinct(snapshot.workspaces, windows);
    }
}

/// A workspace is shown as it was reported: under its identity, or its name where it has none, at its first
/// coordinate, focused where it is active, and with the tiling that was told.
pub proof fn law_reported_workspace_is_shown(
    earlier: Seq<CosmicWorkspaceModelView>,
    model: CosmicWorkspaceModelView,
    before: Seq<DesktopWorkspaceSnapshotView>,
    identity: Seq<char>,
)
    requires
        workspaces_read(earlier) == Ok::<Seq<DesktopWorkspaceSnapshotView>, CosmicErrorView>(before),
        model.id == Some(CosmicValueView::Text(identity)) || model.id == Some(
            CosmicValueView::Number(identity),
        ) || (model.id is None && model.name == Some(identity)),
        identity.len() > 0,
        !has_control(identity),
        !has_workspace(before, identity),
        model.name matches Some(name) ==> name.len() > 0 && !has_control(name),
        model.tiling is None || model.tiling matches Some(CosmicTilingModelView::Enabled(_)),
    ensures
        workspaces_read(earlier.push(model)) matches Ok(shown) && shown.len() == before.len() + 1
            && shown.drop_last() == before && shown.last().identity == identity
            && shown.last().name == model.name && shown.last().focused == model.active && (
        model.tiling matches Some(CosmicTilingModelView::Enabled(enabled))
            ==> shown.last().tiling_enabled == Some(enabled)) && (model.tiling is None
            ==> shown.last().tiling_enabled is None) && (model.coordinates.len() > 0
            && 0 <= model.coordinates[0] <= u32::MAX ==> (shown.last().position matches Some(place)
            && place == model.coordinates[0])),
        tiling_read(Some(CosmicTilingModelView::State("enabled"@))) == Ok::<
            Option<bool>,
            CosmicErrorView,
        >(Some(true)),
        tiling_read(Some(CosmicTilingModelView::State("disabled"@))) == Ok::<
            Option<bool>,
            CosmicErrorView,
        >(Some(false)),
{
    assert(earlier.push(model).drop_last() =~= earlier);
    reveal_strlit("enabled");
    reveal_strlit("disabled");
    assert(lower("enabled"@).len() == 7 && lower("disabled"@).len() == 8);
    let shown = workspaces_read(earlier.push(model))->Ok_0;
    assert(shown.drop_last() =~= before);
}

/// A window is shown as it was reported: under its identity, with its application, title and project,
/// focused where it is activated, and on its workspace where it is on one alone.
pub proof fn law_reported_window_is_shown(
    workspaces: Seq<DesktopWorkspaceSnapshotView>,
    earlier: Seq<CosmicWindowModelView>,
    model: CosmicWindowModelView,
    before: Seq<DesktopWindowSnapshotView>,
    identity: Seq<char>,
    place: Seq<char>,
)
    requires
        windows_read(workspaces, earlier) == Ok::<Seq<DesktopWindowSnapshotView>, CosmicErrorView>(
            before,
        ),
        model.identity == Some(CosmicValueView::Text(identity)),
        identity.len() > 0,
        !has_control(identity),
        !has_window(before, identity),
        model.application matches Some(text) ==> text.len() > 0 && !has_control(text),
        model.title matches Some(text) ==> text.len() > 0 && !has_control(text),
        model.project_path matches Some(text) ==> text.len() > 0 && !has_control(text),
        model.state == seq!["activated"@] || model.state.len() == 0,
        model.workspaces == seq![CosmicValueView::Text(place)],
        place.len() > 0,
        !has_control(place),
        has_workspace(workspaces, place),
    ensures
        windows_read(workspaces, earlier.push(model)) matches Ok(shown) && shown.len()
            == before.len() + 1 && shown.drop_last() == before && shown.last().identity == identity
            && shown.last().application == model.application && shown.last().title == model.title
            && shown.last().project_path == model.project_path && shown.last().workspace_identity
            == Some(place) && (shown.last().focused <==> model.state.len() > 0),
{
    assert(earlier.push(model).drop_last() =~= earlier);
    reveal_strlit("activated");
    let word = "activated"@;
    assert(word.len() == 9);
    assert(!has_control(word));
    reveal_with_fuel(checked_texts, 2);
    assert(seq![word].drop_last() =~= Seq::<Seq<char>>::empty());
    assert(seq![word].last() == word);
    if model.state.len() > 0 {
        assert(lower(model.state[0]) == lower("activated"@));
    }
    reveal_with_fuel(links_read, 2);
    let value = CosmicValueView::Text(place);
    assert(seq![value].drop_last() =~= Seq::<CosmicValueView>::empty());
    assert(seq![value].last() == value);
    let links = links_read(workspaces, identity, model.workspaces);
    assert(links->Ok_0 =~= seq![place]);
    let shown = windows_read(workspaces, earlier.push(model))->Ok_0;
    assert(shown.drop_last() =~= before);
}

} // verus!
