//! The run of the helper as a state machine. The host program performs each
//! action that `Session::step` returns and hands the outcome back as the next
//! event; the session decides everything else.
use vstd::prelude::*;
use crate::install::{command_for, install_command, install_outcome, views, InstallError};
use crate::launch::{exit_code_or_sentinel, LaunchError};
use crate::locate::{candidate_spec, installer_candidate};
use crate::os_release::{distro_id, os_id};
use crate::text::{trim, trim_spec};

verus! {

/// Where a run stands.
#[derive(Clone, Copy, PartialEq, Eq, Structural, Debug)]
pub enum Stage {
    /// Nothing has been done yet.
    Start,
    /// Waiting to learn whether Wine is installed.
    ProbingWine,
    /// Waiting for the distribution's descriptor text.
    ReadingDescriptor,
    /// Waiting for the package manager to finish.
    Installing,
    /// Waiting to learn whether the installer stands at its default path.
    Locating,
    /// Waiting for the user to give the installer's path.
    AskingInstaller,
    /// Waiting to learn whether the installer's path exists.
    Verifying,
    /// Waiting for the user to correct the installer's path.
    Correcting,
    /// Waiting for the user to accept or override the runtime prefix.
    AskingPrefix,
    /// Waiting to learn whether the runtime prefix directory exists.
    CheckingPrefix,
    /// Waiting for the runtime prefix directory to be created.
    CreatingPrefix,
    /// Waiting to learn whether the installer still exists just before launch.
    CheckingExe,
    /// Waiting for the installer to exit.
    Running,
    /// The run is over.
    Finished,
}

/// What the host program learned by performing the last action.
#[derive(Debug)]
pub enum Event {
    /// The run begins.
    Begin,
    /// Whether the lookup found Wine on the search path; any failure of the
    /// lookup counts as not found.
    WineProbed(bool),
    /// The descriptor file's text.
    DescriptorRead(String),
    /// The descriptor file could not be read; the text says why.
    DescriptorFailed(String),
    /// Whether the package manager was started and exited with success.
    InstallFinished(bool),
    /// Whether something stands at the path that was asked about.
    PathChecked(bool),
    /// The line that the user typed.
    Answer(String),
    /// The directory was created, with any missing parents.
    DirCreated,
    /// The directory could not be created; the text says why.
    DirFailed(String),
    /// The installer exited, with its code where it has one.
    Exited(Option<i32>),
    /// The installer could not be started or waited for; the text says why.
    LaunchFailed(String),
}

/// How a run ended.
#[derive(Debug)]
pub enum Outcome {
    /// Wine was missing and could not be installed.
    InstallFailed(InstallError),
    /// The installer could not be run.
    LaunchFailed(LaunchError),
    /// The installer ran and exited with this code (-1 where it had none).
    Exited(i32),
}

/// What the host program is to do next.
#[derive(Debug)]
pub enum Action {
    /// Look for `wine` on the search path, with no output shown.
    ProbeWine,
    /// Read the distribution's descriptor file.
    ReadDescriptor,
    /// Run this command, program name first, under `sudo`, attached to the terminal.
    RunInstall(Vec<String>),
    /// Tell whether something stands at this path.
    CheckPath(String),
    /// Print the notice, then show the prompt and read one line.
    Ask { notice: String, prompt: String },
    /// Announce the launch, then tell whether the runtime prefix directory exists.
    CheckPrefix(String),
    /// Create this directory and any missing parents.
    CreateDir(String),
    /// Run the installer under Wine from its own directory, with the runtime
    /// prefix in `WINEPREFIX`, forwarding its output line by line.
    Launch { exe: String, prefix: String },
    /// Report how the run ended; nothing follows.
    Finish(Outcome),
    /// The event did not fit the stage: nothing to do.
    Ignore,
}

/// The runtime prefix used unless the user gives another.
pub open spec fn default_prefix_spec(home: Seq<char>) -> Seq<char> {
    home + "/.wine-grandline"@
}

/// The notice printed when the installer is not at its default path.
pub open spec fn not_located_notice() -> Seq<char> {
    "Não foi possível localizar o arquivo 'gla_installer.exe' em ~/Downloads."@
}

/// The prompt for the installer's path.
pub open spec fn path_prompt() -> Seq<char> {
    "Digite o caminho completo do instalador: "@
}

/// The notice printed when the installer's path does not exist.
pub open spec fn missing_notice(exe: Seq<char>) -> Seq<char> {
    "Arquivo não encontrado: "@ + exe
}

/// The prompt for a corrected installer path.
pub open spec fn retry_prompt() -> Seq<char> {
    "Digite novamente o caminho válido para o .exe: "@
}

/// The notice that names the default runtime prefix.
pub open spec fn prefix_notice(home: Seq<char>) -> Seq<char> {
    "Usando WINEPREFIX padrão: "@ + default_prefix_spec(home)
}

/// The prompt for the runtime prefix.
pub open spec fn prefix_prompt() -> Seq<char> {
    "Pressione Enter para usar o padrão ou digite outro WINEPREFIX: "@
}

/// The runtime prefix chosen by answer `a`: the default where the trimmed
/// answer is empty, else the trimmed answer.
pub open spec fn chosen_prefix(home: Seq<char>, a: Seq<char>) -> Seq<char> {
    if trim_spec(a).len() == 0 {
        default_prefix_spec(home)
    } else {
        trim_spec(a)
    }
}

/// `r` asks with this notice and prompt.
pub open spec fn asks(r: Action, notice: Seq<char>, prompt: Seq<char>) -> bool {
    match r {
        Action::Ask { notice: n, prompt: p } => n@ == notice && p@ == prompt,
        _ => false,
    }
}

/// `r` asks whether something stands at path `p`.
pub open spec fn checks(r: Action, p: Seq<char>) -> bool {
    match r {
        Action::CheckPath(q) => q@ == p,
        _ => false,
    }
}

/// One run of the helper: where it stands and what it has settled.
pub struct Session {
    pub stage: Stage,
    /// The user's home directory.
    pub home: String,
    /// The installer's path, once known.
    pub exe: String,
    /// The runtime prefix, once chosen.
    pub prefix: String,
}

/// Whether event `ev` is one that a session at `stage` waits for.
pub open spec fn fits(stage: Stage, ev: Event) -> bool {
    match stage {
        Stage::Start => ev is Begin,
        Stage::ProbingWine => ev is WineProbed,
        Stage::ReadingDescriptor => ev is DescriptorRead || ev is DescriptorFailed,
        Stage::Installing => ev is InstallFinished,
        Stage::Locating | Stage::Verifying | Stage::CheckingPrefix | Stage::CheckingExe => ev is PathChecked,
        Stage::AskingInstaller | Stage::Correcting | Stage::AskingPrefix => ev is Answer,
        Stage::CreatingPrefix => ev is DirCreated || ev is DirFailed,
        Stage::Running => ev is Exited || ev is LaunchFailed,
        Stage::Finished => false,
    }
}

/// `r` ends the run with this outcome.
pub open spec fn finishes(r: Action, o: Outcome) -> bool {
    r == Action::Finish(o)
}

impl Session {
    /// A run that has not begun, for the user whose home directory is `home`.
    pub fn new(home: String) -> (r: Session)
        ensures
            r.stage == Stage::Start,
            r.home@ == home@,
    {
        Session { stage: Stage::Start, home, exe: String::new(), prefix: String::new() }
    }

    /// The runtime prefix used unless the user gives another:
    /// `<home>/.wine-grandline`.
    pub fn default_prefix(&self) -> (r: String)
        ensures
            r@ == default_prefix_spec(self.home@),
    {
        let mut r = self.home.clone();
        r.append("/.wine-grandline");
        r
    }

    fn ask_prefix(&self) -> (r: Action)
        ensures
            asks(r, prefix_notice(self.home@), prefix_prompt()),
    {
        let mut notice = String::from_str("Usando WINEPREFIX padrão: ");
        notice.append(self.default_prefix().as_str());
        Action::Ask { notice, prompt: String::from_str("Pressione Enter para usar o padrão ou digite outro WINEPREFIX: ") }
    }

    /// Takes in what the last action brought about and returns the next action.
    pub fn step(&mut self, ev: Event) -> (r: Action)
        ensures
            final(self).home == old(self).home,
            !fits(old(self).stage, ev) ==> *final(self) == *old(self) && r is Ignore,
            old(self).stage == Stage::Start && ev is Begin ==> final(self).stage == Stage::ProbingWine
                && r is ProbeWine,
            old(self).stage == Stage::ProbingWine && ev == Event::WineProbed(true) ==> final(self).stage
                == Stage::Locating && checks(r, candidate_spec(old(self).home@)),
            old(self).stage == Stage::ProbingWine && ev == Event::WineProbed(false) ==> final(self).stage
                == Stage::ReadingDescriptor && r is ReadDescriptor,
            old(self).stage == Stage::ReadingDescriptor && ev is DescriptorRead ==> match command_for(
                os_id(ev->DescriptorRead_0@),
            ) {
                Some(c) => final(self).stage == Stage::Installing && r is RunInstall && views(
                    r->RunInstall_0@,
                ) == c,
                None => final(self).stage == Stage::Finished && r is Finish && r->Finish_0 is InstallFailed
                    && r->Finish_0->InstallFailed_0 is Unsupported
                    && r->Finish_0->InstallFailed_0->Unsupported_0@ == os_id(ev->DescriptorRead_0@),
            },
            old(self).stage == Stage::ReadingDescriptor && ev is DescriptorFailed ==> final(self).stage
                == Stage::Finished && finishes(
                r,
                Outcome::InstallFailed(InstallError::DescriptorUnreadable(ev->DescriptorFailed_0)),
            ),
            old(self).stage == Stage::Installing && ev == Event::InstallFinished(true) ==> final(self).stage
                == Stage::Locating && checks(r, candidate_spec(old(self).home@)),
            old(self).stage == Stage::Installing && ev == Event::InstallFinished(false) ==> final(self).stage
                == Stage::Finished && finishes(r, Outcome::InstallFailed(InstallError::Failed)),
            old(self).stage == Stage::Locating && ev == Event::PathChecked(true) ==> final(self).stage
                == Stage::Verifying && final(self).exe@ == candidate_spec(old(self).home@) && checks(
                r,
                final(self).exe@,
            ),
            old(self).stage == Stage::Locating && ev == Event::PathChecked(false) ==> final(self).stage
                == Stage::AskingInstaller && asks(r, not_located_notice(), path_prompt()),
            old(self).stage == Stage::AskingInstaller && ev is Answer ==> final(self).stage
                == Stage::Verifying && final(self).exe@ == trim_spec(ev->Answer_0@) && checks(
                r,
                final(self).exe@,
            ),
            old(self).stage == Stage::Verifying && ev == Event::PathChecked(true) ==> final(self).stage
                == Stage::AskingPrefix && asks(r, prefix_notice(old(self).home@), prefix_prompt()),
            old(self).stage == Stage::Verifying && ev == Event::PathChecked(false) ==> final(self).stage
                == Stage::Correcting && asks(r, missing_notice(old(self).exe@), retry_prompt()),
            old(self).stage == Stage::Correcting && ev is Answer ==> final(self).stage
                == Stage::AskingPrefix && final(self).exe@ == trim_spec(ev->Answer_0@) && asks(
                r,
                prefix_notice(old(self).home@),
                prefix_prompt(),
            ),
            old(self).stage == Stage::AskingPrefix && ev is Answer ==> final(self).stage
                == Stage::CheckingPrefix && final(self).prefix@ == chosen_prefix(
                old(self).home@,
                ev->Answer_0@,
            ) && r is CheckPrefix && r->CheckPrefix_0@ == final(self).prefix@,
            old(self).stage == Stage::CheckingPrefix && ev == Event::PathChecked(true) ==> final(self).stage
                == Stage::CheckingExe && checks(r, old(self).exe@),
            old(self).stage == Stage::CheckingPrefix && ev == Event::PathChecked(false) ==> final(self).stage
                == Stage::CreatingPrefix && r is CreateDir && r->CreateDir_0@ == old(self).prefix@,
            old(self).stage == Stage::CreatingPrefix && ev is DirCreated ==> final(self).stage
                == Stage::CheckingExe && checks(r, old(self).exe@),
            old(self).stage == Stage::CreatingPrefix && ev is DirFailed ==> final(self).stage
                == Stage::Finished && finishes(
                r,
                Outcome::LaunchFailed(LaunchError::PrefixCreation(ev->DirFailed_0)),
            ),
            old(self).stage == Stage::CheckingExe && ev == Event::PathChecked(true) ==> final(self).stage
                == Stage::Running && r is Launch && r->Launch_exe@ == old(self).exe@ && r->Launch_prefix@
                == old(self).prefix@,
            old(self).stage == Stage::CheckingExe && ev == Event::PathChecked(false) ==> final(self).stage
                == Stage::Finished && r is Finish && r->Finish_0 is LaunchFailed
                && r->Finish_0->LaunchFailed_0 is NotFound
                && r->Finish_0->LaunchFailed_0->NotFound_0@ == old(self).exe@,
            old(self).stage == Stage::Running && ev is Exited ==> final(self).stage == Stage::Finished
                && r is Finish && r->Finish_0 is Exited && r->Finish_0->Exited_0 as int == (if ev->Exited_0 is Some {
                ev->Exited_0->0 as int
            } else {
                -1int
            }),
            old(self).stage == Stage::Running && ev is LaunchFailed ==> final(self).stage
                == Stage::Finished && finishes(
                r,
                Outcome::LaunchFailed(LaunchError::Spawn(ev->LaunchFailed_0)),
            ),
            // The installer is launched only right after its path was found to exist.
            r is Launch ==> old(self).stage == Stage::CheckingExe && ev == Event::PathChecked(true),
            // A package manager runs only for a supported distribution.
            r is RunInstall ==> old(self).stage == Stage::ReadingDescriptor && ev is DescriptorRead
                && command_for(os_id(ev->DescriptorRead_0@)) is Some,
            // The runtime prefix is created only where it was found missing.
            r is CreateDir ==> old(self).stage == Stage::CheckingPrefix && ev == Event::PathChecked(false),
            old(self).stage != Stage::Locating && old(self).stage != Stage::AskingInstaller
                && old(self).stage != Stage::Correcting ==> final(self).exe == old(self).exe,
            old(self).stage != Stage::AskingPrefix ==> final(self).prefix == old(self).prefix,
    {
        match (self.stage, ev) {
            (Stage::Start, Event::Begin) => {
                self.stage = Stage::ProbingWine;
                Action::ProbeWine
            },
            (Stage::ProbingWine, Event::WineProbed(found)) => {
                if found {
                    self.stage = Stage::Locating;
                    Action::CheckPath(installer_candidate(self.home.as_str()))
                } else {
                    self.stage = Stage::ReadingDescriptor;
                    Action::ReadDescriptor
                }
            },
            (Stage::ReadingDescriptor, Event::DescriptorRead(text)) => {
                let id = distro_id(text.as_str());
                match install_command(id.as_str()) {
                    Ok(cmd) => {
                        self.stage = Stage::Installing;
                        Action::RunInstall(cmd)
                    },
                    Err(e) => {
                        self.stage = Stage::Finished;
                        Action::Finish(Outcome::InstallFailed(e))
                    },
                }
            },
            (Stage::ReadingDescriptor, Event::DescriptorFailed(why)) => {
                self.stage = Stage::Finished;
                Action::Finish(Outcome::InstallFailed(InstallError::DescriptorUnreadable(why)))
            },
            (Stage::Installing, Event::InstallFinished(ok)) => match install_outcome(ok) {
                Ok(()) => {
                    self.stage = Stage::Locating;
                    Action::CheckPath(installer_candidate(self.home.as_str()))
                },
                Err(e) => {
                    self.stage = Stage::Finished;
                    Action::Finish(Outcome::InstallFailed(e))
                },
            },
            (Stage::Locating, Event::PathChecked(found)) => {
                if found {
                    self.exe = installer_candidate(self.home.as_str());
                    self.stage = Stage::Verifying;
                    Action::CheckPath(self.exe.clone())
                } else {
                    self.stage = Stage::AskingInstaller;
                    Action::Ask {
                        notice: String::from_str(
                            "Não foi possível localizar o arquivo 'gla_installer.exe' em ~/Downloads.",
                        ),
                        prompt: String::from_str("Digite o caminho completo do instalador: "),
                    }
                }
            },
            (Stage::AskingInstaller, Event::Answer(a)) => {
                self.exe = trim(a.as_str());
                self.stage = Stage::Verifying;
                Action::CheckPath(self.exe.clone())
            },
            (Stage::Verifying, Event::PathChecked(found)) => {
                if found {
                    self.stage = Stage::AskingPrefix;
                    self.ask_prefix()
                } else {
                    self.stage = Stage::Correcting;
                    let mut notice = String::from_str("Arquivo não encontrado: ");
                    notice.append(self.exe.as_str());
                    Action::Ask {
                        notice,
                        prompt: String::from_str("Digite novamente o caminho válido para o .exe: "),
                    }
                }
            },
            (Stage::Correcting, Event::Answer(a)) => {
                self.exe = trim(a.as_str());
                self.stage = Stage::AskingPrefix;
                self.ask_prefix()
            },
            (Stage::AskingPrefix, Event::Answer(a)) => {
                let custom = trim(a.as_str());
                if custom.as_str().unicode_len() == 0 {
                    self.prefix = self.default_prefix();
                } else {
                    self.prefix = custom;
                }
                self.stage = Stage::CheckingPrefix;
                Action::CheckPrefix(self.prefix.clone())
            },
            (Stage::CheckingPrefix, Event::PathChecked(found)) => {
                if found {
                    self.stage = Stage::CheckingExe;
                    Action::CheckPath(self.exe.clone())
                } else {
                    self.stage = Stage::CreatingPrefix;
                    Action::CreateDir(self.prefix.clone())
                }
            },
            (Stage::CreatingPrefix, Event::DirCreated) => {
                self.stage = Stage::CheckingExe;
                Action::CheckPath(self.exe.clone())
            },
            (Stage::CreatingPrefix, Event::DirFailed(why)) => {
                self.stage = Stage::Finished;
                Action::Finish(Outcome::LaunchFailed(LaunchError::PrefixCreation(why)))
            },
            (Stage::CheckingExe, Event::PathChecked(found)) => {
                if found {
                    self.stage = Stage::Running;
                    Action::Launch { exe: self.exe.clone(), prefix: self.prefix.clone() }
                } else {
                    self.stage = Stage::Finished;
                    Action::Finish(Outcome::LaunchFailed(LaunchError::NotFound(self.exe.clone())))
                }
            },
            (Stage::Running, Event::Exited(code)) => {
                self.stage = Stage::Finished;
                Action::Finish(Outcome::Exited(exit_code_or_sentinel(code)))
            },
            (Stage::Running, Event::LaunchFailed(why)) => {
                self.stage = Stage::Finished;
                Action::Finish(Outcome::LaunchFailed(LaunchError::Spawn(why)))
            },
            _ => Action::Ignore,
        }
    }
}

} // verus!
