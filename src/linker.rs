//! Decisions behind enabling a faster linker on the host: which linkers a
//! name asks for, what to show, what to run, and what a run's status means.
use vstd::prelude::*;

use crate::text::{contains, has_substring, same_text};

verus! {

/// The host operating system.
#[derive(Debug, Clone, Copy, PartialEq, Eq, Structural)]
pub enum Platform {
    Windows,
    Linux,
    MacOs,
    /// Any system without linker support; nothing is done there.
    Other,
}

/// A linker that can be enabled.
#[derive(Debug, Clone, Copy, PartialEq, Eq, Structural)]
pub enum Linker {
    Lld,
    Mold,
    Zld,
}

/// A package-manager command that installs a linker.
#[derive(Debug, Clone, Copy, PartialEq, Eq, Structural)]
pub enum InstallCommand {
    /// `sudo apt install clang lld`
    AptClangLld,
    /// `brew install michaeleisel/zld/zld`
    BrewZld,
}

/// One step of enabling a linker.
#[derive(Debug, Clone, Copy, PartialEq, Eq, Structural)]
pub enum Action {
    /// Report that the linker is enabled.
    Enabled(Linker),
    /// Show the command line about to run.
    ShowCommand(InstallCommand),
    /// Show the host's distribution and release.
    ShowRelease,
    /// Run the command; the linker is enabled when it succeeds.
    Install(InstallCommand, Linker),
}

/// How a command run ended.
#[derive(Debug, Clone, Copy, PartialEq, Eq, Structural)]
pub enum RunStatus {
    /// The process could not be started.
    NotStarted,
    /// The process ended with this exit code.
    Exited(i32),
    /// The process was ended by a signal, without an exit code.
    Killed,
}

/// Why an installation failed.
#[derive(Debug, Clone, Copy, PartialEq, Eq, Structural)]
pub enum InstallError {
    SpawnFailed(InstallCommand),
    NonZeroExit(InstallCommand, i32),
    Killed(InstallCommand),
}

pub open spec fn platform_of(os: Seq<char>) -> Platform {
    if os == "windows"@ {
        Platform::Windows
    } else if os == "linux"@ {
        Platform::Linux
    } else if os == "macos"@ {
        Platform::MacOs
    } else {
        Platform::Other
    }
}

impl Platform {
    /// The platform named by an operating-system identifier (`"windows"`,
    /// `"linux"`, `"macos"`); any other name is `Other`.
    pub fn from_os(os: &str) -> (r: Platform)
        ensures
            r == platform_of(os@),
    {
        if same_text(os, "windows") {
            Platform::Windows
        } else if same_text(os, "linux") {
            Platform::Linux
        } else if same_text(os, "macos") {
            Platform::MacOs
        } else {
            Platform::Other
        }
    }
}

pub open spec fn asks_lld(name: Seq<char>) -> bool {
    has_substring(name, "lld"@)
}

pub open spec fn asks_mold(name: Seq<char>) -> bool {
    has_substring(name, "mold"@)
}

pub open spec fn asks_zld(name: Seq<char>) -> bool {
    has_substring(name, "zld"@)
}

pub open spec fn when(c: bool, s: Seq<Action>) -> Seq<Action> {
    if c {
        s
    } else {
        Seq::empty()
    }
}

/// The steps taken for a linker name on a platform. On macOS the lld
/// packages come from apt, as on Linux.
pub open spec fn plan_of(p: Platform, name: Seq<char>) -> Seq<Action> {
    match p {
        Platform::Windows => when(asks_lld(name), seq![Action::Enabled(Linker::Lld)]),
        Platform::Linux => when(asks_mold(name), seq![Action::Enabled(Linker::Mold)]) + when(
            asks_lld(name),
            seq![
                Action::ShowCommand(InstallCommand::AptClangLld),
                Action::ShowRelease,
                Action::Install(InstallCommand::AptClangLld, Linker::Lld),
            ],
        ),
        Platform::MacOs => when(
            asks_zld(name),
            seq![
                Action::ShowCommand(InstallCommand::BrewZld),
                Action::Install(InstallCommand::BrewZld, Linker::Zld),
            ],
        ) + when(
            asks_lld(name),
            seq![
                Action::ShowCommand(InstallCommand::AptClangLld),
                Action::Install(InstallCommand::AptClangLld, Linker::Lld),
            ],
        ),
        Platform::Other => Seq::empty(),
    }
}

/// The steps that enable the linkers that `linker` names on `platform`, in
/// the order they are taken.
pub fn install_plan(platform: Platform, linker: &str) -> (r: Vec<Action>)
    ensures
        r@ == plan_of(platform, linker@),
{
    let mut steps: Vec<Action> = Vec::new();
    match platform {
        Platform::Windows => {
            if contains(linker, "lld") {
                steps.push(Action::Enabled(Linker::Lld));
            }
        },
        Platform::Linux => {
            if contains(linker, "mold") {
                steps.push(Action::Enabled(Linker::Mold));
            }
            if contains(linker, "lld") {
                steps.push(Action::ShowCommand(InstallCommand::AptClangLld));
                steps.push(Action::ShowRelease);
                steps.push(Action::Install(InstallCommand::AptClangLld, Linker::Lld));
            }
        },
        Platform::MacOs => {
            if contains(linker, "zld") {
                steps.push(Action::ShowCommand(InstallCommand::BrewZld));
                steps.push(Action::Install(InstallCommand::BrewZld, Linker::Zld));
            }
            if contains(linker, "lld") {
                steps.push(Action::ShowCommand(InstallCommand::AptClangLld));
                steps.push(Action::Install(InstallCommand::AptClangLld, Linker::Lld));
            }
        },
        Platform::Other => {},
    }
    assert(steps@ =~= plan_of(platform, linker@));
    steps
}

pub open spec fn outcome_of(command: InstallCommand, linker: Linker, status: RunStatus) -> Result<
    Linker,
    InstallError,
> {
    match status {
        RunStatus::NotStarted => Err(InstallError::SpawnFailed(command)),
        RunStatus::Exited(code) => if code == 0 {
            Ok(linker)
        } else {
            Err(InstallError::NonZeroExit(command, code))
        },
        RunStatus::Killed => Err(InstallError::Killed(command)),
    }
}

/// What the run of an `Install` step means: the linker is enabled when the
/// command exited with code 0; otherwise the failure, with the exit code
/// where there is one.
pub fn install_outcome(command: InstallCommand, linker: Linker, status: RunStatus) -> (r: Result<
    Linker,
    InstallError,
>)
    ensures
        r == outcome_of(command, linker, status),
{
    match status {
        RunStatus::NotStarted => Err(InstallError::SpawnFailed(command)),
        RunStatus::Exited(code) => {
            if code == 0 {
                Ok(linker)
            } else {
                Err(InstallError::NonZeroExit(command, code))
            }
        },
        RunStatus::Killed => Err(InstallError::Killed(command)),
    }
}

impl Linker {
    pub open spec fn spec_name(self) -> Seq<char> {
        match self {
            Linker::Lld => "lld"@,
            Linker::Mold => "mold"@,
            Linker::Zld => "zld"@,
        }
    }

    /// The linker's name as shown to the user.
    pub fn name(&self) -> (r: String)
        ensures
            r@ == self.spec_name(),
    {
        match self {
            Linker::Lld => String::from_str("lld"),
            Linker::Mold => String::from_str("mold"),
            Linker::Zld => String::from_str("zld"),
        }
    }
}

impl InstallCommand {
    pub open spec fn spec_argv(self) -> Seq<Seq<char>> {
        match self {
            InstallCommand::AptClangLld => seq!["sudo"@, "apt"@, "install"@, "clang"@, "lld"@],
            InstallCommand::BrewZld => seq!["brew"@, "install"@, "michaeleisel/zld/zld"@],
        }
    }

    pub open spec fn spec_command_line(self) -> Seq<char> {
        match self {
            InstallCommand::AptClangLld => "sudo apt install clang lld"@,
            InstallCommand::BrewZld => "brew install michaeleisel/zld/zld"@,
        }
    }

    /// The program and its arguments, to be run without a shell.
    pub fn argv(&self) -> (r: Vec<String>)
        ensures
            r@.map_values(|s: String| s@) == self.spec_argv(),
    {
        let r = match self {
            InstallCommand::AptClangLld => vec![
                String::from_str("sudo"),
                String::from_str("apt"),
                String::from_str("install"),
                String::from_str("clang"),
                String::from_str("lld"),
            ],
            InstallCommand::BrewZld => vec![
                String::from_str("brew"),
                String::from_str("install"),
                String::from_str("michaeleisel/zld/zld"),
            ],
        };
        assert(r@.map_values(|s: String| s@) =~= self.spec_argv());
        r
    }

    /// The command as a line of text, as it is shown before it runs.
    pub fn command_line(&self) -> (r: String)
        ensures
            r@ == self.spec_command_line(),
    {
        match self {
            InstallCommand::AptClangLld => String::from_str("sudo apt install clang lld"),
            InstallCommand::BrewZld => String::from_str("brew install michaeleisel/zld/zld"),
        }
    }
}

/// The plan runs a command on the host.
pub open spec fn spawns(plan: Seq<Action>) -> bool {
    exists|i: int| 0 <= i < plan.len() && plan[i] is Install
}

/// The name asks for a linker that is installed on this platform.
pub open spec fn needs_install(p: Platform, name: Seq<char>) -> bool {
    match p {
        Platform::Linux => asks_lld(name),
        Platform::MacOs => asks_zld(name) || asks_lld(name),
        _ => false,
    }
}

/// A command runs exactly when the name holds a linker that is installed on
/// the platform: a platform or name that matches nothing runs nothing.
pub proof fn lemma_spawns_iff_needs_install(p: Platform, name: Seq<char>)
    ensures
        spawns(plan_of(p, name)) <==> needs_install(p, name),
        !needs_install(p, name) ==> forall|i: int|
            0 <= i < plan_of(p, name).len() ==> !(plan_of(p, name)[i] is Install),
{
    let plan = plan_of(p, name);
    match p {
        Platform::Linux => {
            if asks_lld(name) {
                assert(plan[plan.len() - 1] is Install);
            }
        },
        Platform::MacOs => {
            if asks_zld(name) {
                assert(plan[1] is Install);
            } else if asks_lld(name) {
                assert(plan[1] is Install);
            }
        },
        _ => {},
    }
}

} // verus!
