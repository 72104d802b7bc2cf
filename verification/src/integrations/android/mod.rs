//! Android virtual devices: their tools, their emulators, and the action that starts one.
use vstd::prelude::*;
use vstd::string::*;
use crate::error::{seen, WorkstateError, WorkstateErrorView};
use crate::paths::{joined_path, path_join};
use crate::platform::probe::PlatformProbe;
use crate::values::{append, empty_list, Replicate};

pub mod adb;
pub mod checks;
pub mod emulator;
pub mod errors;
pub mod handler;
pub mod models;

verus! {

/// The tools of the Android SDK.
#[derive(Debug, Clone, Copy, PartialEq, Eq, Structural)]
pub enum AndroidTool {
    Emulator,
    Adb,
}

impl DeepView for AndroidTool {
    type V = AndroidTool;

    open spec fn deep_view(&self) -> AndroidTool {
        *self
    }
}

impl Replicate for AndroidTool {
    fn replicate(&self) -> (r: Self) {
        *self
    }
}

impl AndroidTool {
    pub open spec fn name(self) -> Seq<char> {
        match self {
            AndroidTool::Emulator => "emulator"@,
            AndroidTool::Adb => "adb"@,
        }
    }

    /// Where the tool is in the SDK.
    pub open spec fn place(self) -> Seq<char> {
        match self {
            AndroidTool::Emulator => "emulator/emulator"@,
            AndroidTool::Adb => "platform-tools/adb"@,
        }
    }

    pub fn executable_name(self) -> (r: &'static str)
        ensures
            r@ == self.name(),
    {
        match self {
            AndroidTool::Emulator => "emulator",
            AndroidTool::Adb => "adb",
        }
    }

    /// Where the tool is under a directory of the SDK.
    pub fn sdk_relative_path(self) -> (r: &'static str)
        ensures
            r@ == self.place(),
    {
        match self {
            AndroidTool::Emulator => "emulator/emulator",
            AndroidTool::Adb => "platform-tools/adb",
        }
    }
}

/// A variable that is set to something.
pub open spec fn set_variable<P: PlatformProbe>(probe: &P, name: Seq<char>) -> Result<
    Option<Seq<char>>,
    WorkstateErrorView,
> {
    match probe.variable(name) {
        Ok(Some(value)) => if value.len() > 0 {
            Ok(Some(value))
        } else {
            Ok(None)
        },
        other => other,
    }
}

fn read_set_variable<P: PlatformProbe>(probe: &P, name: &str) -> (r: Result<
    Option<String>,
    WorkstateError,
>)
    ensures
        seen(r) == set_variable(probe, name@),
{
    match probe.environment(name) {
        Ok(Some(value)) => if value.as_str().is_empty() {
            Ok(None)
        } else {
            Ok(Some(value))
        },
        other => other,
    }
}

/// The directories of the SDK: those that the variables name; the one in the home directory where
/// they name none.
pub open spec fn sdk_roots<P: PlatformProbe>(probe: &P) -> Result<
    Seq<Seq<char>>,
    WorkstateErrorView,
> {
    match set_variable(probe, "ANDROID_HOME"@) {
        Err(error) => Err(error),
        Ok(first) => match set_variable(probe, "ANDROID_SDK_ROOT"@) {
            Err(error) => Err(error),
            Ok(second) => match (first, second) {
                (Some(first), Some(second)) => Ok(seq![first, second]),
                (Some(first), None) => Ok(seq![first]),
                (None, Some(second)) => Ok(seq![second]),
                (None, None) => match set_variable(probe, "HOME"@) {
                    Err(error) => Err(error),
                    Ok(Some(home)) => Ok(seq![joined_path(home, "Android/Sdk"@)]),
                    Ok(None) => Ok(Seq::empty()),
                },
            },
        },
    }
}

/// The directories of the SDK, in the order in which they are searched.
pub fn find_sdk_roots<P: PlatformProbe>(probe: &P) -> (r: Result<Vec<String>, WorkstateError>)
    ensures
        seen(r) == sdk_roots(probe),
{
    let first = match read_set_variable(probe, "ANDROID_HOME") {
        Err(error) => {
            return Err(error);
        },
        Ok(value) => value,
    };
    let second = match read_set_variable(probe, "ANDROID_SDK_ROOT") {
        Err(error) => {
            return Err(error);
        },
        Ok(value) => value,
    };
    let mut roots: Vec<String> = empty_list();
    if first.is_none() && second.is_none() {
        match read_set_variable(probe, "HOME") {
            Err(error) => {
                return Err(error);
            },
            Ok(Some(home)) => append(&mut roots, path_join(home.as_str(), "Android/Sdk")),
            Ok(None) => {},
        }
    }
    if let Some(value) = first {
        append(&mut roots, value);
    }
    if let Some(value) = second {
        append(&mut roots, value);
    }
    proof {
        if let Ok(expected) = sdk_roots(probe) {
            assert(roots.deep_view() =~= expected);
        }
    }
    Ok(roots)
}

/// The tool in the first of the directories that has it.
pub open spec fn tool_in<P: PlatformProbe>(
    probe: &P,
    tool: AndroidTool,
    roots: Seq<Seq<char>>,
) -> Result<Option<Seq<char>>, WorkstateErrorView>
    decreases roots.len(),
{
    if roots.len() == 0 {
        Ok(None)
    } else {
        match probe.program(joined_path(roots[0], tool.place())) {
            Err(error) => Err(error),
            Ok(Some(path)) => Ok(Some(path)),
            Ok(None) => tool_in(probe, tool, roots.drop_first()),
        }
    }
}

/// Where a tool is: where it can be called by its name, else in the SDK.
pub open spec fn tool_found<P: PlatformProbe>(probe: &P, tool: AndroidTool) -> Result<
    Option<Seq<char>>,
    WorkstateErrorView,
> {
    match probe.program(tool.name()) {
        Err(error) => Err(error),
        Ok(Some(path)) => Ok(Some(path)),
        Ok(None) => match sdk_roots(probe) {
            Err(error) => Err(error),
            Ok(roots) => tool_in(probe, tool, roots),
        },
    }
}

/// Where a tool is.
pub fn find_tool<P: PlatformProbe>(probe: &P, tool: AndroidTool) -> (r: Result<
    Option<String>,
    WorkstateError,
>)
    ensures
        seen(r) == tool_found(probe, tool),
{
    match probe.executable(tool.executable_name()) {
        Err(error) => {
            return Err(error);
        },
        Ok(Some(path)) => {
            return Ok(Some(path));
        },
        Ok(None) => {},
    }
    let roots = match find_sdk_roots(probe) {
        Err(error) => {
            return Err(error);
        },
        Ok(roots) => roots,
    };
    let ghost all = roots.deep_view();
    let mut i: usize = 0;
    assert(all.skip(0) =~= all);
    while i < roots.len()
        invariant
            i <= roots@.len(),
            all == roots.deep_view(),
            tool_in(probe, tool, all) == tool_in(probe, tool, all.skip(i as int)),
            tool_found(probe, tool) == tool_in(probe, tool, all),
        decreases roots@.len() - i,
    {
        assert(all.skip(i as int)[0] == roots@[i as int]@);
        assert(all.skip(i as int).drop_first() =~= all.skip(i as int + 1));
        let candidate = path_join(roots[i].as_str(), tool.sdk_relative_path());
        match probe.executable(candidate.as_str()) {
            Err(error) => {
                return Err(error);
            },
            Ok(Some(path)) => {
                return Ok(Some(path));
            },
            Ok(None) => {},
        }
        i = i + 1;
    }
    Ok(None)
}

/// A tool is the one that the search path knows; only where it knows none are the roots of the toolkit
/// looked through, in their order.
pub proof fn law_tool_of_the_path_comes_first<P: PlatformProbe>(
    probe: &P,
    tool: AndroidTool,
    path: Seq<char>,
    home: Seq<char>,
)
    ensures
        probe.program(tool.name()) == Ok::<Option<Seq<char>>, WorkstateErrorView>(Some(path))
            ==> tool_found(probe, tool) == Ok::<Option<Seq<char>>, WorkstateErrorView>(Some(path)),
        probe.program(tool.name()) == Ok::<Option<Seq<char>>, WorkstateErrorView>(None)
            && probe.variable("ANDROID_HOME"@) == Ok::<Option<Seq<char>>, WorkstateErrorView>(
            Some(home),
        ) && home.len() > 0 && probe.variable("ANDROID_SDK_ROOT"@) is Ok && probe.program(
            joined_path(home, tool.place()),
        ) == Ok::<Option<Seq<char>>, WorkstateErrorView>(Some(path)) ==> tool_found(probe, tool)
            == Ok::<Option<Seq<char>>, WorkstateErrorView>(Some(path)),
        tool.name() == (match tool {
            AndroidTool::Emulator => "emulator"@,
            AndroidTool::Adb => "adb"@,
        }),
{
}

} // verus!
