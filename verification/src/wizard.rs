//! The installer wizard: its screens, and what each click or finished piece
//! of outside work does to them.
//!
//! The wizard is a state machine. The program around it reports what the
//! user did or what a piece of outside work returned (an [`Event`]); the
//! wizard moves to its next state and says what outside work to do next (a
//! list of [`Action`]s). Whatever the result of that work, it comes back as
//! another event.

use vstd::prelude::*;

use crate::install::{InstallResult, InstallResultView};
use crate::platform::Platform;
use crate::text::{join_text, contains_seq, contains_text, joined, path_join, position_of};

verus! {

/// One screen of the wizard.
#[derive(Clone, Debug, PartialEq, Eq)]
pub enum Screen {
    Welcome,
    Confirm,
    AppRunning,
    Installing,
    ExtensionGuide,
    Done,
    Error(String),
    UninstallConfirm,
    UninstallAppRunning,
    UninstallDone,
}

/// A screen, with its message as characters.
pub enum ScreenView {
    Welcome,
    Confirm,
    AppRunning,
    Installing,
    ExtensionGuide,
    Done,
    Error(Seq<char>),
    UninstallConfirm,
    UninstallAppRunning,
    UninstallDone,
}

impl View for Screen {
    type V = ScreenView;

    open spec fn view(&self) -> ScreenView {
        match self {
            Screen::Welcome => ScreenView::Welcome,
            Screen::Confirm => ScreenView::Confirm,
            Screen::AppRunning => ScreenView::AppRunning,
            Screen::Installing => ScreenView::Installing,
            Screen::ExtensionGuide => ScreenView::ExtensionGuide,
            Screen::Done => ScreenView::Done,
            Screen::Error(m) => ScreenView::Error(m@),
            Screen::UninstallConfirm => ScreenView::UninstallConfirm,
            Screen::UninstallAppRunning => ScreenView::UninstallAppRunning,
            Screen::UninstallDone => ScreenView::UninstallDone,
        }
    }
}

/// The screens of the uninstall flow.
pub open spec fn is_uninstall_screen(s: ScreenView) -> bool {
    ||| s is UninstallConfirm
    ||| s is UninstallAppRunning
    ||| s is UninstallDone
}

/// What the user did, or what a requested piece of outside work returned.
#[derive(Debug, PartialEq, Eq)]
pub enum Event {
    /// "Next" on the welcome and extension screens.
    Next,
    /// "Back" on the confirm, app-running and error screens.
    Back,
    /// "Install" on the confirm screen.
    Install,
    /// "Remove" on the uninstall screen.
    Remove,
    /// "Check again" while the desktop app is running.
    Recheck,
    /// "Choose..." for the configuration file.
    ChooseConfig,
    /// "Choose another folder..." for the installation.
    ChooseFolder,
    /// "Open extension folder".
    OpenExtensionFolder,
    /// "Open chrome://extensions".
    OpenExtensionsPage,
    /// The "show details" box on the done screen.
    ToggleDetails,
    /// Whether the payload next to the installer is complete.
    PayloadChecked(Result<(), String>),
    /// Whether the desktop app is running.
    DesktopAppRunning(bool),
    /// The file picked in the configuration dialog, if any.
    ConfigChosen(Option<String>),
    /// The folder picked in the folder dialog, if any.
    FolderChosen(Option<String>),
    /// How the installation went; the error as text.
    InstallFinished(Result<InstallResult, String>),
    /// The output of the installed program's `doctor`, or why it could not run.
    DoctorFinished(Result<String, String>),
    /// How removing the registration went.
    UninstallFinished(Result<(), String>),
}

pub enum EventView {
    Next,
    Back,
    Install,
    Remove,
    Recheck,
    ChooseConfig,
    ChooseFolder,
    OpenExtensionFolder,
    OpenExtensionsPage,
    ToggleDetails,
    PayloadChecked(Result<(), Seq<char>>),
    DesktopAppRunning(bool),
    ConfigChosen(Option<Seq<char>>),
    FolderChosen(Option<Seq<char>>),
    InstallFinished(Result<InstallResultView, Seq<char>>),
    DoctorFinished(Result<Seq<char>, Seq<char>>),
    UninstallFinished(Result<(), Seq<char>>),
}

pub open spec fn unit_result_view(r: Result<(), String>) -> Result<(), Seq<char>> {
    match r {
        Ok(()) => Ok(()),
        Err(m) => Err(m@),
    }
}

impl View for Event {
    type V = EventView;

    open spec fn view(&self) -> EventView {
        match self {
            Event::Next => EventView::Next,
            Event::Back => EventView::Back,
            Event::Install => EventView::Install,
            Event::Remove => EventView::Remove,
            Event::Recheck => EventView::Recheck,
            Event::ChooseConfig => EventView::ChooseConfig,
            Event::ChooseFolder => EventView::ChooseFolder,
            Event::OpenExtensionFolder => EventView::OpenExtensionFolder,
            Event::OpenExtensionsPage => EventView::OpenExtensionsPage,
            Event::ToggleDetails => EventView::ToggleDetails,
            Event::PayloadChecked(r) => EventView::PayloadChecked(unit_result_view(*r)),
            Event::DesktopAppRunning(b) => EventView::DesktopAppRunning(*b),
            Event::ConfigChosen(p) => EventView::ConfigChosen(p.deep_view()),
            Event::FolderChosen(p) => EventView::FolderChosen(p.deep_view()),
            Event::InstallFinished(r) => EventView::InstallFinished(
                match r {
                    Ok(v) => Ok(v@),
                    Err(m) => Err(m@),
                },
            ),
            Event::DoctorFinished(r) => EventView::DoctorFinished(
                match r {
                    Ok(v) => Ok(v@),
                    Err(m) => Err(m@),
                },
            ),
            Event::UninstallFinished(r) => EventView::UninstallFinished(unit_result_view(*r)),
        }
    }
}

/// Outside work that the wizard asks for. Each one that has a result is
/// answered by an event.
#[derive(Clone, Debug, PartialEq, Eq)]
pub enum Action {
    /// Check the payload; answered by `PayloadChecked`.
    CheckPayload,
    /// Check whether the desktop app runs; answered by `DesktopAppRunning`.
    CheckDesktopApp,
    /// Open the configuration file dialog; answered by `ConfigChosen`.
    PickConfigFile,
    /// Open the folder dialog; answered by `FolderChosen`.
    PickFolder,
    /// Install into `install_dir` and register in `config_path`; answered by
    /// `InstallFinished`.
    PerformInstall { config_path: String, install_dir: String },
    /// Copy the installer into `install_dir` and register it in the
    /// "Programs and Features" list; failures are ignored.
    RegisterUninstallEntry { install_dir: String },
    /// Run the installed program's `doctor`; answered by `DoctorFinished`.
    RunDoctor { exe_path: String },
    /// Open a folder in the file manager.
    OpenPath(String),
    /// Open a URL in the browser.
    OpenUrl(String),
    /// Remove the registration; answered by `UninstallFinished`.
    PerformUninstall { config_path: String, install_dir: String, installer_copy: String },
    /// Remove the "Programs and Features" entry.
    RemoveUninstallEntry,
    /// Delete the installer copy and the installation folder once the
    /// installer has exited.
    ScheduleSelfDelete { installer_copy: String, install_dir: String },
}

pub enum ActionView {
    CheckPayload,
    CheckDesktopApp,
    PickConfigFile,
    PickFolder,
    PerformInstall { config_path: Seq<char>, install_dir: Seq<char> },
    RegisterUninstallEntry { install_dir: Seq<char> },
    RunDoctor { exe_path: Seq<char> },
    OpenPath(Seq<char>),
    OpenUrl(Seq<char>),
    PerformUninstall { config_path: Seq<char>, install_dir: Seq<char>, installer_copy: Seq<char> },
    RemoveUninstallEntry,
    ScheduleSelfDelete { installer_copy: Seq<char>, install_dir: Seq<char> },
}

impl View for Action {
    type V = ActionView;

    open spec fn view(&self) -> ActionView {
        match self {
            Action::CheckPayload => ActionView::CheckPayload,
            Action::CheckDesktopApp => ActionView::CheckDesktopApp,
            Action::PickConfigFile => ActionView::PickConfigFile,
            Action::PickFolder => ActionView::PickFolder,
            Action::PerformInstall { config_path, install_dir } => ActionView::PerformInstall {
                config_path: config_path@,
                install_dir: install_dir@,
            },
            Action::RegisterUninstallEntry { install_dir } => ActionView::RegisterUninstallEntry {
                install_dir: install_dir@,
            },
            Action::RunDoctor { exe_path } => ActionView::RunDoctor { exe_path: exe_path@ },
            Action::OpenPath(p) => ActionView::OpenPath(p@),
            Action::OpenUrl(u) => ActionView::OpenUrl(u@),
            Action::PerformUninstall { config_path, install_dir, installer_copy } =>
                ActionView::PerformUninstall {
                config_path: config_path@,
                install_dir: install_dir@,
                installer_copy: installer_copy@,
            },
            Action::RemoveUninstallEntry => ActionView::RemoveUninstallEntry,
            Action::ScheduleSelfDelete { installer_copy, install_dir } =>
                ActionView::ScheduleSelfDelete {
                installer_copy: installer_copy@,
                install_dir: install_dir@,
            },
        }
    }
}

/// The actions of a list, each by its view.
pub open spec fn actions_view(v: Seq<Action>) -> Seq<ActionView> {
    v.map_values(|a: Action| a@)
}

/// The wizard's state.
pub struct InstallerApp {
    pub platform: Platform,
    pub screen: Screen,
    pub config_path: Option<String>,
    pub config_candidates: Vec<String>,
    pub install_dir: String,
    pub install_result: Option<InstallResult>,
    pub doctor_output: Option<String>,
    pub doctor_ok: bool,
    pub doctor_expanded: bool,
}

pub struct WizardView {
    pub platform: Platform,
    pub screen: ScreenView,
    pub config_path: Option<Seq<char>>,
    pub config_candidates: Seq<Seq<char>>,
    pub install_dir: Seq<char>,
    pub install_result: Option<InstallResultView>,
    pub doctor_output: Option<Seq<char>>,
    pub doctor_ok: bool,
    pub doctor_expanded: bool,
}

impl View for InstallerApp {
    type V = WizardView;

    open spec fn view(&self) -> WizardView {
        WizardView {
            platform: self.platform,
            screen: self.screen@,
            config_path: self.config_path.deep_view(),
            config_candidates: self.config_candidates.deep_view(),
            install_dir: self.install_dir@,
            install_result: match self.install_result {
                Some(r) => Some(r@),
                None => None,
            },
            doctor_output: self.doctor_output.deep_view(),
            doctor_ok: self.doctor_ok,
            doctor_expanded: self.doctor_expanded,
        }
    }
}

impl WizardView {
    pub open spec fn goto(self, screen: ScreenView) -> WizardView {
        WizardView { screen, ..self }
    }
}

/// The text in the `doctor` output that says that authentication worked.
pub open spec fn auth_ok_marker() -> Seq<char> {
    "✅ 인증 성공"@
}

pub open spec fn missing_config_message() -> Seq<char> {
    "설정 파일 경로가 지정되지 않았습니다."@
}

pub open spec fn install_failed_prefix() -> Seq<char> {
    "설치 중 오류가 발생했습니다: "@
}

pub open spec fn uninstall_failed_prefix() -> Seq<char> {
    "제거 중 오류가 발생했습니다: "@
}

pub open spec fn doctor_failed_prefix() -> Seq<char> {
    "doctor 실행 실패: "@
}

pub open spec fn extensions_page() -> Seq<char> {
    "chrome://extensions"@
}

pub open spec fn install_folder_name() -> Seq<char> {
    "inno-creed"@
}

pub open spec fn installer_copy_name() -> Seq<char> {
    "installer.exe"@
}

/// The first candidate that exists (the two lists taken side by side).
pub open spec fn first_existing(candidates: Seq<Seq<char>>, exists: Seq<bool>) -> Option<Seq<char>>
    decreases candidates.len(),
{
    if candidates.len() == 0 || exists.len() == 0 {
        None
    } else if exists[0] {
        Some(candidates[0])
    } else {
        first_existing(candidates.drop_first(), exists.drop_first())
    }
}

/// The state a wizard starts in.
pub open spec fn initial_view(
    platform: Platform,
    screen: ScreenView,
    candidates: Seq<Seq<char>>,
    exists: Seq<bool>,
    install_dir: Seq<char>,
) -> WizardView {
    WizardView {
        platform,
        screen,
        config_path: first_existing(candidates, exists),
        config_candidates: candidates,
        install_dir,
        install_result: None,
        doctor_output: None,
        doctor_ok: false,
        doctor_expanded: false,
    }
}

/// Well-formedness: what holds of every state that the wizard can reach.
pub open spec fn wf(s: WizardView) -> bool {
    &&& (s.screen is AppRunning || s.screen is Installing) ==> s.config_path is Some
    &&& s.screen is ExtensionGuide ==> (s.install_result matches Some(r)
        && r.extension_dir is Some)
    &&& s.screen is Done ==> s.install_result is Some
    &&& s.doctor_output is Some ==> s.screen is Done
    &&& s.doctor_expanded ==> s.screen is Done
    &&& s.install_result is Some ==> (s.screen is ExtensionGuide || s.screen is Done)
    &&& s.doctor_ok ==> (s.doctor_output matches Some(o) && contains_seq(o, auth_ok_marker()))
}

/// No change, no work.
pub open spec fn idle(s: WizardView, t: WizardView, acts: Seq<ActionView>) -> bool {
    t == s && acts.len() == 0
}

/// Going to the installing screen: the installation is requested, or the
/// error screen is shown when no configuration file is known.
pub open spec fn enter_installing(s: WizardView, t: WizardView, acts: Seq<ActionView>) -> bool {
    match s.config_path {
        Some(c) => t == s.goto(ScreenView::Installing) && acts == seq![
            ActionView::PerformInstall { config_path: c, install_dir: s.install_dir },
        ],
        None => t == s.goto(ScreenView::Error(missing_config_message())) && acts.len() == 0,
    }
}

/// The doctor run that the done screen asks for: once, when there is an
/// installation and no output yet.
pub open spec fn doctor_request(s: WizardView) -> Seq<ActionView> {
    match s.install_result {
        Some(r) => if s.doctor_output is None {
            seq![ActionView::RunDoctor { exe_path: r.exe_path }]
        } else {
            seq![]
        },
        None => seq![],
    }
}

/// After a successful installation: the result is kept, the extension guide
/// or the done screen follows, the uninstall entry is registered on Windows,
/// and the done screen asks for the doctor.
pub open spec fn after_install(s: WizardView, r: InstallResultView) -> (WizardView, Seq<ActionView>) {
    let t = WizardView {
        install_result: Some(r),
        screen: if r.extension_dir is Some {
            ScreenView::ExtensionGuide
        } else {
            ScreenView::Done
        },
        ..s
    };
    let register = if s.platform == Platform::Windows {
        seq![ActionView::RegisterUninstallEntry { install_dir: s.install_dir }]
    } else {
        seq![]
    };
    let doctor = if r.extension_dir is Some {
        seq![]
    } else {
        doctor_request(t)
    };
    (t, register + doctor)
}

/// What the uninstall flow asks for once the desktop app is not running:
/// with a known configuration file, the removal of the registration, with the
/// installer copy inside the installation folder (the files follow once it
/// succeeds); without one, only the deregistration is skipped and the files
/// are removed right away.
pub open spec fn uninstall_request(s: WizardView, acts: Seq<ActionView>) -> bool {
    match s.config_path {
        Some(c) => {
            &&& acts.len() == 1
            &&& acts[0] matches ActionView::PerformUninstall { config_path, install_dir, installer_copy }
            &&& config_path == c
            &&& install_dir == s.install_dir
            &&& joined(installer_copy, s.install_dir, installer_copy_name())
        },
        None => cleanup_request(s, acts),
    }
}

/// What follows a successful removal: the uninstall entry goes (on Windows)
/// and the installed files are deleted once the installer exits.
pub open spec fn cleanup_request(s: WizardView, acts: Seq<ActionView>) -> bool {
    let n: int = if s.platform == Platform::Windows {
        2
    } else {
        1
    };
    &&& acts.len() == n
    &&& s.platform == Platform::Windows ==> acts[0] is RemoveUninstallEntry
    &&& acts[n - 1] matches ActionView::ScheduleSelfDelete { installer_copy, install_dir }
    &&& install_dir == s.install_dir
    &&& joined(installer_copy, s.install_dir, installer_copy_name())
}

/// One step of the wizard: from state `s`, event `e` leads to state `t` and
/// the outside work `acts`. An event that a screen does not offer changes
/// nothing.
pub open spec fn transition(s: WizardView, e: EventView, t: WizardView, acts: Seq<ActionView>) -> bool {
    match s.screen {
        ScreenView::Welcome => match e {
            EventView::Next => t == s && acts == seq![ActionView::CheckPayload],
            EventView::PayloadChecked(r) => acts.len() == 0 && t == s.goto(
                match r {
                    Ok(_) => ScreenView::Confirm,
                    Err(m) => ScreenView::Error(m),
                },
            ),
            _ => idle(s, t, acts),
        },
        ScreenView::Confirm => match e {
            EventView::Back => t == s.goto(ScreenView::Welcome) && acts.len() == 0,
            EventView::ChooseConfig => t == s && acts == seq![ActionView::PickConfigFile],
            EventView::ChooseFolder => t == s && acts == seq![ActionView::PickFolder],
            EventView::ConfigChosen(Some(p)) => t == WizardView { config_path: Some(p), ..s }
                && acts.len() == 0,
            EventView::FolderChosen(Some(d)) => t == WizardView { install_dir: t.install_dir, ..s }
                && joined(t.install_dir, d, install_folder_name()) && acts.len() == 0,
            EventView::Install => t == s && acts == if s.config_path is Some {
                seq![ActionView::CheckDesktopApp]
            } else {
                seq![]
            },
            EventView::DesktopAppRunning(running) => if s.config_path is None {
                idle(s, t, acts)
            } else if running {
                t == s.goto(ScreenView::AppRunning) && acts.len() == 0
            } else {
                enter_installing(s, t, acts)
            },
            _ => idle(s, t, acts),
        },
        ScreenView::AppRunning => match e {
            EventView::Back => t == s.goto(ScreenView::Confirm) && acts.len() == 0,
            EventView::Recheck => t == s && acts == seq![ActionView::CheckDesktopApp],
            EventView::DesktopAppRunning(running) => if running {
                idle(s, t, acts)
            } else {
                enter_installing(s, t, acts)
            },
            _ => idle(s, t, acts),
        },
        ScreenView::Installing => match e {
            EventView::InstallFinished(Ok(r)) => (t, acts) == after_install(s, r),
            EventView::InstallFinished(Err(m)) => t == s.goto(
                ScreenView::Error(install_failed_prefix() + m),
            ) && acts.len() == 0,
            _ => idle(s, t, acts),
        },
        ScreenView::ExtensionGuide => match e {
            EventView::Next => t == s.goto(ScreenView::Done) && acts == doctor_request(s),
            EventView::OpenExtensionFolder => t == s && acts == match s.install_result {
                Some(r) => match r.extension_dir {
                    Some(d) => seq![ActionView::OpenPath(d)],
                    None => seq![],
                },
                None => seq![],
            },
            EventView::OpenExtensionsPage => t == s && acts == seq![
                ActionView::OpenUrl(extensions_page()),
            ],
            _ => idle(s, t, acts),
        },
        ScreenView::Done => match e {
            EventView::DoctorFinished(r) => acts.len() == 0 && if s.doctor_output is Some
                || s.install_result is None {
                t == s
            } else {
                match r {
                    Ok(o) => t == WizardView {
                        doctor_ok: contains_seq(o, auth_ok_marker()),
                        doctor_output: Some(o),
                        ..s
                    },
                    Err(m) => t == WizardView {
                        doctor_output: Some(doctor_failed_prefix() + m),
                        ..s
                    },
                }
            },
            EventView::ToggleDetails => t == WizardView {
                doctor_expanded: !s.doctor_expanded,
                ..s
            } && acts.len() == 0,
            _ => idle(s, t, acts),
        },
        ScreenView::Error(_) => match e {
            EventView::Back => t == s.goto(ScreenView::Welcome) && acts.len() == 0,
            _ => idle(s, t, acts),
        },
        ScreenView::UninstallConfirm => match e {
            EventView::Remove => t == s && acts == seq![ActionView::CheckDesktopApp],
            EventView::DesktopAppRunning(running) => if running {
                t == s.goto(ScreenView::UninstallAppRunning) && acts.len() == 0
            } else {
                t == s.goto(ScreenView::UninstallDone) && uninstall_request(s, acts)
            },
            _ => idle(s, t, acts),
        },
        ScreenView::UninstallAppRunning => match e {
            EventView::Recheck => t == s && acts == seq![ActionView::CheckDesktopApp],
            EventView::DesktopAppRunning(running) => if running {
                idle(s, t, acts)
            } else {
                t == s.goto(ScreenView::UninstallDone) && uninstall_request(s, acts)
            },
            _ => idle(s, t, acts),
        },
        ScreenView::UninstallDone => match e {
            EventView::UninstallFinished(Ok(())) => t == s && if s.config_path is Some {
                cleanup_request(s, acts)
            } else {
                acts.len() == 0
            },
            EventView::UninstallFinished(Err(m)) => if s.config_path is Some {
                t == s.goto(ScreenView::Error(uninstall_failed_prefix() + m)) && acts.len() == 0
            } else {
                idle(s, t, acts)
            },
            _ => idle(s, t, acts),
        },
    }
}

fn one(a: Action) -> (v: Vec<Action>)
    ensures
        actions_view(v@) == seq![a@],
{
    let v = vec![a];
    assert(actions_view(v@) =~= seq![a@]);
    v
}

fn no_actions() -> (v: Vec<Action>)
    ensures
        actions_view(v@) == Seq::<ActionView>::empty(),
{
    let v: Vec<Action> = Vec::new();
    assert(actions_view(v@) =~= Seq::<ActionView>::empty());
    v
}

/// The first of `candidates` that exists, `exists[i]` telling whether
/// `candidates[i]` does.
pub fn first_existing_candidate(candidates: &Vec<String>, exists: &Vec<bool>) -> (r: Option<String>)
    ensures
        r.deep_view() == first_existing(candidates.deep_view(), exists@),
{
    let ghost c = candidates.deep_view();
    let ghost e = exists@;
    let mut i: usize = 0;
    assert(c.skip(0) =~= c);
    assert(e.skip(0) =~= e);
    while i < candidates.len() && i < exists.len()
        invariant
            c == candidates.deep_view(),
            e == exists@,
            i <= c.len(),
            i <= e.len(),
            first_existing(c, e) == first_existing(c.skip(i as int), e.skip(i as int)),
        decreases c.len() - i,
    {
        if exists[i] {
            let found = candidates[i].clone();
            assert(c.skip(i as int)[0] == c[i as int]);
            return Some(found);
        }
        assert(c.skip(i as int).drop_first() =~= c.skip(i + 1));
        assert(e.skip(i as int).drop_first() =~= e.skip(i + 1));
        i = i + 1;
    }
    None
}

impl InstallerApp {
    /// The wizard for installing: the welcome screen, the first existing
    /// candidate as the configuration file (`candidate_exists[i]` says
    /// whether `config_candidates[i]` exists), and the default installation
    /// folder.
    pub fn new(
        platform: Platform,
        config_candidates: Vec<String>,
        candidate_exists: Vec<bool>,
        install_dir: String,
    ) -> (app: Self)
        ensures
            app@ == initial_view(
                platform,
                ScreenView::Welcome,
                config_candidates.deep_view(),
                candidate_exists@,
                install_dir@,
            ),
            wf(app@),
    {
        let config_path = first_existing_candidate(&config_candidates, &candidate_exists);
        InstallerApp {
            platform,
            screen: Screen::Welcome,
            config_path,
            config_candidates,
            install_dir,
            install_result: None,
            doctor_output: None,
            doctor_ok: false,
            doctor_expanded: false,
        }
    }

    /// The wizard for uninstalling (`--uninstall`): the same detection of the
    /// configuration file and installation folder, on the uninstall screen.
    pub fn new_uninstall(
        platform: Platform,
        config_candidates: Vec<String>,
        candidate_exists: Vec<bool>,
        install_dir: String,
    ) -> (app: Self)
        ensures
            app@ == initial_view(
                platform,
                ScreenView::UninstallConfirm,
                config_candidates.deep_view(),
                candidate_exists@,
                install_dir@,
            ),
            wf(app@),
    {
        let mut app = Self::new(platform, config_candidates, candidate_exists, install_dir);
        app.screen = Screen::UninstallConfirm;
        app
    }

    fn enter_installing(&mut self) -> (acts: Vec<Action>)
        ensures
            enter_installing(old(self)@, final(self)@, actions_view(acts@)),
    {
        match &self.config_path {
            Some(c) => {
                let a = Action::PerformInstall {
                    config_path: c.clone(),
                    install_dir: self.install_dir.clone(),
                };
                self.screen = Screen::Installing;
                one(a)
            },
            None => {
                self.screen = Screen::Error(String::from_str("설정 파일 경로가 지정되지 않았습니다."));
                no_actions()
            },
        }
    }

    fn doctor_request(&self) -> (acts: Vec<Action>)
        ensures
            actions_view(acts@) == doctor_request(self@),
    {
        match &self.install_result {
            Some(r) => if self.doctor_output.is_none() {
                one(Action::RunDoctor { exe_path: r.exe_path.clone() })
            } else {
                no_actions()
            },
            None => {
                no_actions()
            },
        }
    }

    fn after_install(&mut self, r: InstallResult) -> (acts: Vec<Action>)
        ensures
            (final(self)@, actions_view(acts@)) == after_install(old(self)@, r@),
    {
        let ghost s = self@;
        let ghost rv = r@;
        let has_extension = r.extension_dir.is_some();
        self.install_result = Some(r);
        self.screen = if has_extension {
            Screen::ExtensionGuide
        } else {
            Screen::Done
        };
        let ghost t = self@;
        assert(t == after_install(s, rv).0);
        let mut acts: Vec<Action> = Vec::new();
        if self.platform == Platform::Windows {
            acts.push(Action::RegisterUninstallEntry { install_dir: self.install_dir.clone() });
        }
        if !has_extension {
            let mut doctor = self.doctor_request();
            acts.append(&mut doctor);
        }
        assert(actions_view(acts@) =~= after_install(s, rv).1);
        acts
    }

    /// What the uninstall flow asks for once the desktop app is not running:
    /// with a known configuration file, the removal of the registration, with
    /// the installer copy inside the installation folder; without one, the
    /// deregistration is skipped and the entry and files are removed at once.
    pub fn do_uninstall(&self) -> (acts: Vec<Action>)
        ensures
            uninstall_request(self@, actions_view(acts@)),
    {
        match &self.config_path {
            Some(c) => {
                let installer_copy = path_join(self.install_dir.as_str(), "installer.exe");
                one(
                    Action::PerformUninstall {
                        config_path: c.clone(),
                        install_dir: self.install_dir.clone(),
                        installer_copy,
                    },
                )
            },
            None => self.cleanup(),
        }
    }

    fn cleanup(&self) -> (acts: Vec<Action>)
        ensures
            cleanup_request(self@, actions_view(acts@)),
    {
        let mut acts: Vec<Action> = Vec::new();
        if self.platform == Platform::Windows {
            acts.push(Action::RemoveUninstallEntry);
        }
        let installer_copy = path_join(self.install_dir.as_str(), "installer.exe");
        acts.push(
            Action::ScheduleSelfDelete { installer_copy, install_dir: self.install_dir.clone() },
        );
        acts
    }

    /// Takes one event: moves the wizard to its next screen and returns the
    /// outside work to do next, as `transition` states.
    pub fn step(&mut self, event: Event) -> (acts: Vec<Action>)
        ensures
            transition(old(self)@, event@, final(self)@, actions_view(acts@)),
            wf(old(self)@) ==> wf(final(self)@),
    {
        match self.screen {
            Screen::Welcome => match event {
                Event::Next => one(Action::CheckPayload),
                Event::PayloadChecked(r) => {
                    match r {
                        Ok(()) => {
                            self.screen = Screen::Confirm;
                        },
                        Err(m) => {
                            self.screen = Screen::Error(m);
                        },
                    }
                    no_actions()
                },
                _ => no_actions(),
            },
            Screen::Confirm => match event {
                Event::Back => {
                    self.screen = Screen::Welcome;
                    no_actions()
                },
                Event::ChooseConfig => one(Action::PickConfigFile),
                Event::ChooseFolder => one(Action::PickFolder),
                Event::ConfigChosen(Some(p)) => {
                    self.config_path = Some(p);
                    no_actions()
                },
                Event::FolderChosen(Some(d)) => {
                    self.install_dir = path_join(d.as_str(), "inno-creed");
                    no_actions()
                },
                Event::Install => if self.config_path.is_some() {
                    one(Action::CheckDesktopApp)
                } else {
                    no_actions()
                },
                Event::DesktopAppRunning(running) => if self.config_path.is_none() {
                    no_actions()
                } else if running {
                    self.screen = Screen::AppRunning;
                    no_actions()
                } else {
                    self.enter_installing()
                },
                _ => no_actions(),
            },
            Screen::AppRunning => match event {
                Event::Back => {
                    self.screen = Screen::Confirm;
                    no_actions()
                },
                Event::Recheck => one(Action::CheckDesktopApp),
                Event::DesktopAppRunning(running) => if running {
                    no_actions()
                } else {
                    self.enter_installing()
                },
                _ => no_actions(),
            },
            Screen::Installing => match event {
                Event::InstallFinished(Ok(r)) => self.after_install(r),
                Event::InstallFinished(Err(m)) => {
                    self.screen = Screen::Error(join_text("설치 중 오류가 발생했습니다: ", m.as_str()));
                    no_actions()
                },
                _ => no_actions(),
            },
            Screen::ExtensionGuide => match event {
                Event::Next => {
                    let acts = self.doctor_request();
                    self.screen = Screen::Done;
                    acts
                },
                Event::OpenExtensionFolder => match &self.install_result {
                    Some(r) => match &r.extension_dir {
                        Some(d) => one(Action::OpenPath(d.clone())),
                        None => {
                            no_actions()
                        },
                    },
                    None => {
                        no_actions()
                    },
                },
                Event::OpenExtensionsPage => one(
                    Action::OpenUrl(String::from_str("chrome://extensions")),
                ),
                _ => no_actions(),
            },
            Screen::Done => match event {
                Event::DoctorFinished(r) => {
                    if self.doctor_output.is_none() && self.install_result.is_some() {
                        match r {
                            Ok(o) => {
                                self.doctor_ok = contains_text(o.as_str(), "✅ 인증 성공");
                                self.doctor_output = Some(o);
                            },
                            Err(m) => {
                                self.doctor_output = Some(join_text("doctor 실행 실패: ", m.as_str()));
                            },
                        }
                    }
                    no_actions()
                },
                Event::ToggleDetails => {
                    self.doctor_expanded = !self.doctor_expanded;
                    no_actions()
                },
                _ => no_actions(),
            },
            Screen::Error(_) => match event {
                Event::Back => {
                    self.screen = Screen::Welcome;
                    no_actions()
                },
                _ => no_actions(),
            },
            Screen::UninstallConfirm => match event {
                Event::Remove => one(Action::CheckDesktopApp),
                Event::DesktopAppRunning(running) => if running {
                    self.screen = Screen::UninstallAppRunning;
                    no_actions()
                } else {
                    let acts = self.do_uninstall();
                    self.screen = Screen::UninstallDone;
                    acts
                },
                _ => no_actions(),
            },
            Screen::UninstallAppRunning => match event {
                Event::Recheck => one(Action::CheckDesktopApp),
                Event::DesktopAppRunning(running) => if running {
                    no_actions()
                } else {
                    let acts = self.do_uninstall();
                    self.screen = Screen::UninstallDone;
                    acts
                },
                _ => no_actions(),
            },
            Screen::UninstallDone => match event {
                Event::UninstallFinished(Ok(())) => if self.config_path.is_some() {
                    self.cleanup()
                } else {
                    no_actions()
                },
                Event::UninstallFinished(Err(m)) => {
                    if self.config_path.is_some() {
                        self.screen = Screen::Error(join_text("제거 중 오류가 발생했습니다: ", m.as_str()));
                    }
                    no_actions()
                },
                _ => no_actions(),
            },
        }
    }
}

/// Whether the installer was started with `--uninstall` (any argument,
/// the program name included).
pub fn wants_uninstall(args: &Vec<String>) -> (r: bool)
    ensures
        r == exists|i: int| 0 <= i < args@.len() && #[trigger] args.deep_view()[i] == "--uninstall"@,
{
    let r = position_of(args, "--uninstall");
    proof {
        if let Some(p) = r {
            assert(args.deep_view()[p as int] == "--uninstall"@);
        }
    }
    r.is_some()
}

/// The window title of the installer.
pub fn window_title(uninstall: bool) -> (t: &'static str)
    ensures
        t@ == if uninstall {
            "inno-creed 제거"@
        } else {
            "inno-creed 설치"@
        },
{
    if uninstall {
        "inno-creed 제거"
    } else {
        "inno-creed 설치"
    }
}

/// The fonts with Hangul glyphs that come with Windows, macOS and Linux, in
/// the order they are tried.
pub fn korean_font_candidates() -> (v: Vec<String>)
    ensures
        v.deep_view() == seq![
            "C:/Windows/Fonts/malgun.ttf"@,
            "/System/Library/Fonts/Supplemental/AppleGothic.ttf"@,
            "/usr/share/fonts/truetype/nanum/NanumGothic.ttf"@,
        ],
{
    let v = vec![
        String::from_str("C:/Windows/Fonts/malgun.ttf"),
        String::from_str("/System/Library/Fonts/Supplemental/AppleGothic.ttf"),
        String::from_str("/usr/share/fonts/truetype/nanum/NanumGothic.ttf"),
    ];
    assert(v.deep_view() =~= seq![
        "C:/Windows/Fonts/malgun.ttf"@,
        "/System/Library/Fonts/Supplemental/AppleGothic.ttf"@,
        "/usr/share/fonts/truetype/nanum/NanumGothic.ttf"@,
    ]);
    v
}

/// Every step keeps the wizard well-formed: the app-running and installing
/// screens always have a configuration file, the extension guide always has
/// an installation with an extension folder, the done screen always has an
/// installation, an installation is kept only from the extension guide on,
/// the doctor output and its details exist only on the done screen, and a
/// successful authentication is reported only when the doctor output says so.
pub proof fn lemma_step_keeps_wf(s: WizardView, e: EventView, t: WizardView, acts: Seq<ActionView>)
    requires
        wf(s),
        transition(s, e, t, acts),
    ensures
        wf(t),
{
}

/// The install flow never reaches an uninstall screen, and the uninstall
/// flow leaves its screens only for the error screen.
pub proof fn lemma_step_keeps_mode(s: WizardView, e: EventView, t: WizardView, acts: Seq<ActionView>)
    requires
        transition(s, e, t, acts),
    ensures
        !is_uninstall_screen(s.screen) ==> !is_uninstall_screen(t.screen),
        is_uninstall_screen(s.screen) ==> (is_uninstall_screen(t.screen) || t.screen is Error),
{
}

/// The done screen is final; the uninstall-done screen is left only for the
/// error screen, when removing the registration failed.
pub proof fn lemma_final_screens_stay(s: WizardView, e: EventView, t: WizardView, acts: Seq<ActionView>)
    requires
        transition(s, e, t, acts),
    ensures
        s.screen is Done ==> t.screen is Done,
        s.screen is UninstallDone ==> (t.screen is UninstallDone || (e matches EventView::UninstallFinished(
            Err(_),
        ) && t.screen is Error)),
{
}

/// A failed removal of the registration is shown: the error screen with the
/// reason, and neither the uninstall entry nor the files are touched.
pub proof fn lemma_failed_removal_shown(s: WizardView, m: Seq<char>, t: WizardView, acts: Seq<ActionView>)
    requires
        s.screen is UninstallDone,
        s.config_path is Some,
        transition(s, EventView::UninstallFinished(Err(m)), t, acts),
    ensures
        t == s.goto(ScreenView::Error(uninstall_failed_prefix() + m)),
        acts.len() == 0,
{
}

/// The configuration file is written (installation) or edited (removal) only
/// right after the desktop app was found not running; an installation is
/// requested only for the known configuration file and the chosen folder,
/// on the installing screen.
pub proof fn lemma_config_touched_only_when_app_stopped(
    s: WizardView,
    e: EventView,
    t: WizardView,
    acts: Seq<ActionView>,
)
    requires
        transition(s, e, t, acts),
    ensures
        forall|i: int|
            0 <= i < acts.len() && (acts[i] is PerformInstall || acts[i] is PerformUninstall)
                ==> e == EventView::DesktopAppRunning(false),
        forall|i: int|
            0 <= i < acts.len() ==> (#[trigger] acts[i] matches ActionView::PerformInstall {
                config_path,
                install_dir,
            } ==> s.config_path == Some(config_path) && install_dir == s.install_dir
                && t.screen is Installing),
{
}

/// The doctor runs at most once: once its output is kept, no step asks for
/// it again or replaces the output.
pub proof fn lemma_doctor_runs_once(s: WizardView, e: EventView, t: WizardView, acts: Seq<ActionView>)
    requires
        transition(s, e, t, acts),
        s.doctor_output is Some,
    ensures
        forall|i: int| 0 <= i < acts.len() ==> !(acts[i] is RunDoctor),
        t.doctor_output == s.doctor_output,
{
}

/// On the done screen, once the doctor output is kept, or when no
/// installation is kept, a doctor answer changes nothing and no step asks
/// for the doctor; only the details box may change.
pub proof fn lemma_done_doctor_settled(s: WizardView, e: EventView, t: WizardView, acts: Seq<ActionView>)
    requires
        s.screen is Done,
        s.doctor_output is Some || s.install_result is None,
        transition(s, e, t, acts),
    ensures
        acts.len() == 0,
        t == (WizardView { doctor_expanded: t.doctor_expanded, ..s }),
{
}

/// Once the desktop app is found not running, the uninstall flow ends on its
/// final screen and the installation folder goes: at once when no
/// configuration file is known (on Windows after the uninstall entry), or
/// as the answer to a successful removal of the registration.
pub proof fn lemma_uninstall_removes_files(s: WizardView, t: WizardView, acts: Seq<ActionView>)
    requires
        s.screen is UninstallConfirm || s.screen is UninstallAppRunning,
        transition(s, EventView::DesktopAppRunning(false), t, acts),
    ensures
        t.screen is UninstallDone,
        s.config_path is None ==> cleanup_request(s, acts),
        s.config_path is Some ==> (acts.len() == 1 && acts[0] is PerformUninstall),
        s.config_path is Some ==> (forall|t2: WizardView, acts2: Seq<ActionView>|
            #[trigger] transition(t, EventView::UninstallFinished(Ok(())), t2, acts2)
                ==> cleanup_request(t, acts2)),
{
}

/// The uninstall flow never installs, registers or runs the doctor.
pub proof fn lemma_uninstall_never_installs(
    s: WizardView,
    e: EventView,
    t: WizardView,
    acts: Seq<ActionView>,
)
    requires
        transition(s, e, t, acts),
        is_uninstall_screen(s.screen),
    ensures
        forall|i: int|
            0 <= i < acts.len() ==> !(acts[i] is PerformInstall) && !(acts[i] is RunDoctor)
                && !(acts[i] is RegisterUninstallEntry),
{
}

/// "Back to start" on the error screen returns to the welcome screen and
/// keeps everything else.
pub proof fn lemma_error_back_restarts(s: WizardView, t: WizardView, acts: Seq<ActionView>)
    requires
        s.screen is Error,
        transition(s, EventView::Back, t, acts),
    ensures
        t == s.goto(ScreenView::Welcome),
        acts.len() == 0,
{
}

/// The doctor's verdict on the done screen: the first doctor answer after an
/// installation marks authentication as confirmed exactly when its output
/// holds "✅ 인증 성공" somewhere, whatever else (a stderr section, say) the
/// output holds; the output is kept as it came.
pub proof fn lemma_doctor_verdict(s: WizardView, o: Seq<char>, t: WizardView, acts: Seq<ActionView>)
    requires
        s.screen is Done,
        s.install_result is Some,
        s.doctor_output is None,
        transition(s, EventView::DoctorFinished(Ok(o)), t, acts),
    ensures
        t.doctor_ok <==> exists|i: int|
            0 <= i && i + "✅ 인증 성공"@.len() <= o.len() && #[trigger] o.subrange(
                i,
                i + "✅ 인증 성공"@.len(),
            ) == "✅ 인증 성공"@,
        t.doctor_output == Some(o),
        t.screen is Done,
        acts.len() == 0,
{
    let m = "✅ 인증 성공"@;
    if contains_seq(o, m) {
        let i = choose|i: int| crate::text::occurs_at(o, m, i);
        assert(o.subrange(i, i + m.len()) == m);
    }
    if exists|i: int| 0 <= i && i + m.len() <= o.len() && #[trigger] o.subrange(i, i + m.len()) == m {
        let i = choose|i: int| 0 <= i && i + m.len() <= o.len() && #[trigger] o.subrange(i, i + m.len()) == m;
        assert(crate::text::occurs_at(o, m, i));
    }
}

/// After a successful removal of the registration, the uninstall ends by
/// deleting the installer copy (`installer.exe` inside the installation
/// folder) and the installation folder, on every platform; on Windows the
/// "Programs and Features" entry is removed first, and on no other platform.
pub proof fn lemma_successful_removal_deletes_files(s: WizardView, t: WizardView, acts: Seq<ActionView>)
    requires
        s.screen is UninstallDone,
        s.config_path is Some,
        transition(s, EventView::UninstallFinished(Ok(())), t, acts),
    ensures
        t == s,
        s.platform == Platform::Windows ==> acts.len() == 2 && acts[0] == ActionView::RemoveUninstallEntry,
        s.platform == Platform::Other ==> acts.len() == 1,
        acts.len() >= 1,
        acts.last() matches ActionView::ScheduleSelfDelete { installer_copy, install_dir }
            && install_dir == s.install_dir && joined(installer_copy, s.install_dir, "installer.exe"@),
{
}

/// Without a configuration file the uninstall deletes the files at once
/// when the desktop app is found not running: on Windows after removing the
/// "Programs and Features" entry, elsewhere directly.
pub proof fn lemma_removal_without_config_deletes_files(
    s: WizardView,
    t: WizardView,
    acts: Seq<ActionView>,
)
    requires
        s.screen is UninstallConfirm || s.screen is UninstallAppRunning,
        s.config_path is None,
        transition(s, EventView::DesktopAppRunning(false), t, acts),
    ensures
        t.screen is UninstallDone,
        s.platform == Platform::Windows ==> acts.len() == 2 && acts[0] == ActionView::RemoveUninstallEntry,
        s.platform == Platform::Other ==> acts.len() == 1,
        acts.len() >= 1,
        acts.last() matches ActionView::ScheduleSelfDelete { installer_copy, install_dir }
            && install_dir == s.install_dir && joined(installer_copy, s.install_dir, "installer.exe"@),
{
}

} // verus!

