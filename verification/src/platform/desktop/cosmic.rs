//! The COSMIC desktop: how it is recognised, and the commands that it takes.
use vstd::prelude::*;
use vstd::string::*;
use crate::error::{seen, WorkstateError, WorkstateErrorView};
use crate::platform::identity::{DesktopEnvironment, DesktopEnvironmentView};
use crate::platform::probe::PlatformProbe;
use crate::platform::tokens::{normalize_token, normalized, safe_display, shown};
use crate::text::{contains_text, is_blank, lower, same_text, text_contains, text_trim, trim};
use crate::values::{append_text, text_list2, text_list4, Replicate};

verus! {

/// What can be asked of the desktop.
#[derive(Debug, Clone, PartialEq, Eq)]
pub enum CosmicOperation {
    GetWorkspaces,
    GetWindows,
    SetTiling { workspace: String, enabled: bool },
    MoveWindow { window: String, workspace: String },
    CloseWindow { window: String },
    FocusWindow { window: String },
}

/// What a `CosmicOperation` stands for.
#[verifier::ext_equal]
pub enum CosmicOperationView {
    GetWorkspaces,
    GetWindows,
    SetTiling { workspace: Seq<char>, enabled: bool },
    MoveWindow { window: Seq<char>, workspace: Seq<char> },
    CloseWindow { window: Seq<char> },
    FocusWindow { window: Seq<char> },
}

impl View for CosmicOperation {
    type V = CosmicOperationView;

    open spec fn view(&self) -> CosmicOperationView {
        match self {
            CosmicOperation::GetWorkspaces => CosmicOperationView::GetWorkspaces,
            CosmicOperation::GetWindows => CosmicOperationView::GetWindows,
            CosmicOperation::SetTiling { workspace, enabled } => CosmicOperationView::SetTiling { workspace: workspace.deep_view(), enabled: enabled.deep_view() },
            CosmicOperation::MoveWindow { window, workspace } => CosmicOperationView::MoveWindow { window: window.deep_view(), workspace: workspace.deep_view() },
            CosmicOperation::CloseWindow { window } => CosmicOperationView::CloseWindow { window: window.deep_view() },
            CosmicOperation::FocusWindow { window } => CosmicOperationView::FocusWindow { window: window.deep_view() },
        }
    }
}

impl DeepView for CosmicOperation {
    type V = CosmicOperationView;

    open spec fn deep_view(&self) -> CosmicOperationView {
        self.view()
    }
}

impl Replicate for CosmicOperation {
    fn replicate(&self) -> (r: Self) {
        match self {
            CosmicOperation::GetWorkspaces => CosmicOperation::GetWorkspaces,
            CosmicOperation::GetWindows => CosmicOperation::GetWindows,
            CosmicOperation::SetTiling { workspace, enabled } => CosmicOperation::SetTiling { workspace: workspace.replicate(), enabled: enabled.replicate() },
            CosmicOperation::MoveWindow { window, workspace } => CosmicOperation::MoveWindow { window: window.replicate(), workspace: workspace.replicate() },
            CosmicOperation::CloseWindow { window } => CosmicOperation::CloseWindow { window: window.replicate() },
            CosmicOperation::FocusWindow { window } => CosmicOperation::FocusWindow { window: window.replicate() },
        }
    }
}

/// The program that passes operations on to the desktop.
#[derive(Debug, Clone, PartialEq, Eq)]
pub struct CosmicCommand {
    program: String,
}

/// The arguments that stand for an operation.
pub open spec fn operation_arguments(operation: CosmicOperationView) -> Seq<Seq<char>> {
    match operation {
        CosmicOperationView::GetWorkspaces => seq!["--json"@, "get-workspaces"@],
        CosmicOperationView::GetWindows => seq!["--json"@, "get-toplevels"@],
        CosmicOperationView::SetTiling { workspace, enabled } => seq![
            "--json"@,
            "workspace"@,
            "set-tiling"@,
            workspace,
            if enabled {
                "enabled"@
            } else {
                "disabled"@
            },
        ],
        CosmicOperationView::MoveWindow { window, workspace } => seq![
            "--json"@,
            "window"@,
            "move-to-workspace"@,
            window,
            workspace,
        ],
        CosmicOperationView::CloseWindow { window } => seq![
            "--json"@,
            "window"@,
            "close"@,
            window,
        ],
        CosmicOperationView::FocusWindow { window } => seq![
            "--json"@,
            "window"@,
            "activate"@,
            window,
        ],
    }
}

impl CosmicCommand {
    pub closed spec fn name(&self) -> Seq<char> {
        self.program@
    }

    pub fn new(program: String) -> (r: Self)
        ensures
            r.name() == program@,
    {
        CosmicCommand { program }
    }

    pub fn program(&self) -> (r: &str)
        ensures
            r@ == self.name(),
    {
        self.program.as_str()
    }

    /// The arguments that stand for an operation.
    pub fn arguments(&self, operation: &CosmicOperation) -> (r: Vec<String>)
        ensures
            r.deep_view() == operation_arguments(operation@),
    {
        match operation {
            CosmicOperation::GetWorkspaces => text_list2("--json", "get-workspaces"),
            CosmicOperation::GetWindows => text_list2("--json", "get-toplevels"),
            CosmicOperation::SetTiling { workspace, enabled } => {
                let mut arguments = text_list4(
                    "--json",
                    "workspace",
                    "set-tiling",
                    workspace.as_str(),
                );
                if *enabled {
                    append_text(&mut arguments, "enabled");
                } else {
                    append_text(&mut arguments, "disabled");
                }
                assert(arguments.deep_view() =~= operation_arguments(operation@));
                arguments
            },
            CosmicOperation::MoveWindow { window, workspace } => {
                let mut arguments = text_list4(
                    "--json",
                    "window",
                    "move-to-workspace",
                    window.as_str(),
                );
                append_text(&mut arguments, workspace.as_str());
                assert(arguments.deep_view() =~= operation_arguments(operation@));
                arguments
            },
            CosmicOperation::CloseWindow { window } => text_list4(
                "--json",
                "window",
                "close",
                window.as_str(),
            ),
            CosmicOperation::FocusWindow { window } => text_list4(
                "--json",
                "window",
                "activate",
                window.as_str(),
            ),
        }
    }
}

impl Default for CosmicCommand {
    fn default() -> (r: Self)
        ensures
            r.name() == "cosmicmsg"@,
    {
        CosmicCommand::new("cosmicmsg".to_owned())
    }
}

/// The variables that say which desktop runs, the most telling first.
pub open spec fn desktop_variables() -> Seq<Seq<char>> {
    seq!["COSMIC_SESSION"@, "XDG_CURRENT_DESKTOP"@, "XDG_SESSION_DESKTOP"@, "DESKTOP_SESSION"@]
}

/// The desktop that a value names, where it is another one than COSMIC.
pub open spec fn other_desktop(value: Seq<char>) -> Option<DesktopEnvironmentView> {
    if contains_text(value, "gnome"@) {
        Some(DesktopEnvironmentView::Gnome)
    } else if contains_text(value, "kde"@) || contains_text(value, "plasma"@) {
        Some(DesktopEnvironmentView::Kde)
    } else {
        None
    }
}

fn classify_desktop(value: &str) -> (r: Option<DesktopEnvironment>)
    ensures
        r.deep_view() == other_desktop(value@),
{
    if text_contains(value, "gnome") {
        Some(DesktopEnvironment::Gnome)
    } else if text_contains(value, "kde") || text_contains(value, "plasma") {
        Some(DesktopEnvironment::Kde)
    } else {
        None
    }
}

/// A value that switches something on.
pub open spec fn is_on(value: Seq<char>) -> bool {
    value != "0"@ && value != "false"@ && value != "no"@ && value != "off"@
}

fn is_enabled_signal(value: &str) -> (r: bool)
    ensures
        r == is_on(value@),
{
    !same_text(value, "0") && !same_text(value, "false") && !same_text(value, "no") && !same_text(
        value,
        "off",
    )
}

/// A variable that says that COSMIC runs.
pub open spec fn says_cosmic(variable: Seq<char>, value: Seq<char>) -> bool {
    (variable == "COSMIC_SESSION"@ && is_on(normalized(value))) || contains_text(
        normalized(value),
        "cosmic"@,
    )
}

/// What the variables said so far.
pub struct DesktopSigns {
    pub cosmic: bool,
    pub named: Option<DesktopEnvironmentView>,
    pub observed: Option<Seq<char>>,
}

/// What the variables say, read in their order; the first answer that fails ends it. A blank value
/// says nothing.
pub open spec fn signs_read<P: PlatformProbe>(probe: &P, variables: Seq<Seq<char>>) -> Result<
    DesktopSigns,
    WorkstateErrorView,
>
    decreases variables.len(),
{
    if variables.len() == 0 {
        Ok(DesktopSigns { cosmic: false, named: None, observed: None })
    } else {
        match signs_read(probe, variables.drop_last()) {
            Err(error) => Err(error),
            Ok(before) => match probe.variable(variables.last()) {
                Err(error) => Err(error),
                Ok(Some(value)) if !is_blank(value) => Ok(
                    DesktopSigns {
                        cosmic: before.cosmic || says_cosmic(variables.last(), value),
                        named: if before.named is Some {
                            before.named
                        } else {
                            other_desktop(normalized(value))
                        },
                        observed: if before.observed is Some {
                            before.observed
                        } else {
                            Some(shown(value))
                        },
                    },
                ),
                Ok(_) => Ok(before),
            },
        }
    }
}

/// The desktop that the signs speak for: COSMIC before any other, and a desktop with a known name
/// before one without.
pub open spec fn desktop_of(signs: DesktopSigns) -> DesktopEnvironmentView {
    if signs.cosmic {
        DesktopEnvironmentView::Cosmic
    } else {
        match (signs.named, signs.observed) {
            (Some(desktop), _) => desktop,
            (None, Some(value)) => DesktopEnvironmentView::Other { value },
            (None, None) => DesktopEnvironmentView::Unknown,
        }
    }
}

/// The desktop that runs.
pub open spec fn desktop_found<P: PlatformProbe>(probe: &P) -> Result<
    DesktopEnvironmentView,
    WorkstateErrorView,
> {
    match signs_read(probe, desktop_variables()) {
        Err(error) => Err(error),
        Ok(signs) => Ok(desktop_of(signs)),
    }
}

/// Finds out which desktop runs.
#[derive(Debug, Clone, Copy)]
pub struct CosmicDetector;

impl Default for CosmicDetector {
    fn default() -> (r: Self)
        ensures
            r == CosmicDetector,
    {
        CosmicDetector
    }
}

impl CosmicDetector {
    /// The desktop that runs.
    pub fn detect<P: PlatformProbe>(probe: &P) -> (r: Result<DesktopEnvironment, WorkstateError>)
        ensures
            seen(r) == desktop_found(probe),
    {
        Self::detect_with_probe(probe)
    }

    /// The desktop that runs.
    pub fn detect_with_probe<P: PlatformProbe>(probe: &P) -> (r: Result<
        DesktopEnvironment,
        WorkstateError,
    >)
        ensures
            seen(r) == desktop_found(probe),
    {
        let variables = text_list4(
            "COSMIC_SESSION",
            "XDG_CURRENT_DESKTOP",
            "XDG_SESSION_DESKTOP",
            "DESKTOP_SESSION",
        );
        let ghost all = variables.deep_view();
        let mut cosmic: bool = false;
        let mut named: Option<DesktopEnvironment> = None;
        let mut observed: Option<String> = None;
        let mut failure: Option<WorkstateError> = None;
        let mut i: usize = 0;
        assert(all.take(0) =~= Seq::<Seq<char>>::empty());
        while i < variables.len()
            invariant
                i <= variables@.len(),
                all == variables.deep_view(),
                signs_read(probe, all.take(i as int)) == (match failure {
                    Some(error) => Err::<DesktopSigns, WorkstateErrorView>(error@),
                    None => Ok::<DesktopSigns, WorkstateErrorView>(
                        DesktopSigns {
                            cosmic,
                            named: named.deep_view(),
                            observed: observed.deep_view(),
                        },
                    ),
                }),
            decreases variables@.len() - i,
        {
            assert(all[i as int] == variables@[i as int]@);
            assert(all.take(i as int + 1).drop_last() =~= all.take(i as int));
            let variable = variables[i].as_str();
            if failure.is_none() {
                match probe.environment(variable) {
                    Err(error) => {
                        failure = Some(error);
                    },
                    Ok(None) => {},
                    Ok(Some(value)) => {
                        if !text_trim(value.as_str()).as_str().is_empty() {
                            let text = normalize_token(value.as_str());
                            if (same_text(variable, "COSMIC_SESSION") && is_enabled_signal(
                                text.as_str(),
                            )) || text_contains(text.as_str(), "cosmic") {
                                cosmic = true;
                            }
                            if named.is_none() {
                                named = classify_desktop(text.as_str());
                            }
                            if observed.is_none() {
                                observed = Some(safe_display(value.as_str()));
                            }
                        }
                    },
                }
            }
            i = i + 1;
        }
        assert(all.take(i as int) =~= desktop_variables());
        if let Some(error) = failure {
            return Err(error);
        }
        if cosmic {
            return Ok(DesktopEnvironment::Cosmic);
        }
        match (named, observed) {
            (Some(desktop), _) => Ok(desktop),
            (None, Some(value)) => Ok(DesktopEnvironment::Other { value }),
            (None, None) => Ok(DesktopEnvironment::Unknown),
        }
    }
}

/// Finds out which desktop a probe speaks of.
pub struct CosmicProbeDetector<P> {
    probe: P,
}

impl<P> CosmicProbeDetector<P> {
    pub closed spec fn source(&self) -> P {
        self.probe
    }

    pub fn new(probe: P) -> (r: Self)
        ensures
            r.source() == probe,
    {
        CosmicProbeDetector { probe }
    }
}

impl<P: PlatformProbe> CosmicProbeDetector<P> {
    /// The desktop that runs.
    pub fn detect(&self) -> (r: Result<DesktopEnvironment, WorkstateError>)
        ensures
            seen(r) == desktop_found(&self.source()),
    {
        CosmicDetector::detect_with_probe(&self.probe)
    }
}

/// Any sign of COSMIC decides, whatever else the variables name.
pub proof fn law_cosmic_sign_decides<P: PlatformProbe>(probe: &P, signs: DesktopSigns)
    requires
        signs_read(probe, desktop_variables()) == Ok::<DesktopSigns, WorkstateErrorView>(signs),
        signs.cosmic,
    ensures
        desktop_found(probe) == Ok::<DesktopEnvironmentView, WorkstateErrorView>(
            DesktopEnvironmentView::Cosmic,
        ),
{
}

/// A variable that says COSMIC makes the desktop COSMIC, wherever it stands among the variables; without
/// any the desktop is unknown, and another desktop that is named counts where nothing says COSMIC.
pub proof fn law_signs_decide_the_desktop<P: PlatformProbe>(
    probe: &P,
    variables: Seq<Seq<char>>,
    before: DesktopSigns,
    variable: Seq<char>,
    value: Seq<char>,
)
    requires
        signs_read(probe, variables) == Ok::<DesktopSigns, WorkstateErrorView>(before),
        probe.variable(variable) == Ok::<Option<Seq<char>>, WorkstateErrorView>(Some(value)),
        !is_blank(value),
    ensures
        signs_read(probe, variables.push(variable)) matches Ok(signs) && (before.cosmic
            ==> signs.cosmic) && (contains_text(lower(trim(value)), "cosmic"@) ==> signs.cosmic)
            && (before.named is Some ==> signs.named == before.named) && (before.named is None
            && contains_text(lower(trim(value)), "gnome"@) ==> signs.named == Some(
            DesktopEnvironmentView::Gnome,
        )) && (signs.cosmic && !before.cosmic ==> contains_text(lower(trim(value)), "cosmic"@)
            || variable == "COSMIC_SESSION"@),
        desktop_of(before) is Cosmic ==> before.cosmic || before.named is Some,
        !before.cosmic && before.named is None && before.observed is None ==> desktop_of(before)
            is Unknown,
        before.named matches Some(named) ==> (!before.cosmic ==> desktop_of(before) == named),
{
    assert(variables.push(variable).drop_last() =~= variables);
}

/// An operation is written out with the window and the workspace that it is about.
pub proof fn law_operation_names_what_it_is_about(
    window: Seq<char>,
    workspace: Seq<char>,
    enabled: bool,
)
    ensures
        operation_arguments((CosmicOperationView::MoveWindow { window, workspace })) == seq![
            "--json"@,
            "window"@,
            "move-to-workspace"@,
            window,
            workspace,
        ],
        operation_arguments((CosmicOperationView::CloseWindow { window })) == seq![
            "--json"@,
            "window"@,
            "close"@,
            window,
        ],
        operation_arguments((CosmicOperationView::FocusWindow { window })) == seq![
            "--json"@,
            "window"@,
            "activate"@,
            window,
        ],
        ({
            let arguments = operation_arguments(
                (CosmicOperationView::SetTiling { workspace, enabled }),
            );
            arguments.len() == 5 && arguments[2] == "set-tiling"@ && arguments[3] == workspace && (
            arguments[4] == "enabled"@ <==> enabled)
        }),
{
    reveal_strlit("enabled");
    reveal_strlit("disabled");
    assert("enabled"@.len() == 7 && "disabled"@.len() == 8);
}

} // verus!
