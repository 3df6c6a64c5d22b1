use vstd::prelude::*;

use crate::app::App;
use crate::linux;
use crate::os::{display_name_of, OperatingSystem};
use crate::text::concat_str;
use crate::windows;
use crate::windows::system::WindowsAdminStatus;
use crate::windows::wizard::{
    advance, go_back, next_screen, previous_screen, record_execution, WindowsCommandResult,
    WindowsScreen, WindowsWizardState,
};
use vstd::view::View as _;

verus! {

/// What a screen shows: a title and a body of text.
pub struct View<'a> {
    pub title: &'a str,
    pub body: String,
}

/// The screens of the app.
#[derive(Debug, Clone, Copy, PartialEq, Eq)]
pub enum Screen {
    Welcome,
    DetectedSystem,
    WindowsWizard,
    Unsupported,
}

/// The text that names an unsupported operating system.
pub open spec fn unsupported_text(name: Seq<char>) -> Seq<char> {
    "Unsupported operating system detected: "@ + name
}

/// The title and body of the detected-system screen.
pub open spec fn detected_view(os: OperatingSystem, admin_summary: Seq<char>) -> (Seq<char>, Seq<char>) {
    match os {
        OperatingSystem::Windows => ("Detected System"@, windows::wizard::detected_details_text(display_name_of(os), admin_summary)),
        OperatingSystem::Linux => ("Detected System"@, linux::wizard::detected_details_text(display_name_of(os))),
        OperatingSystem::Unsupported(name) => ("Unsupported"@, unsupported_text(name@)),
    }
}

/// The title and body of the unsupported screen.
pub open spec fn unsupported_screen(os: OperatingSystem) -> (Seq<char>, Seq<char>) {
    ("Unsupported"@, match os {
        OperatingSystem::Unsupported(name) => unsupported_text(name@),
        _ => "Unsupported screen reached unexpectedly for supported OS: "@ + display_name_of(os),
    })
}

/// The title and body of `screen`.
pub open spec fn screen_view(
    os: OperatingSystem,
    screen: Screen,
    windows_wizard: Option<&WindowsWizardState>,
    admin_summary: Seq<char>,
) -> (Seq<char>, Seq<char>) {
    match screen {
        Screen::Welcome => ("Welcome"@, "Press Enter to continue to the detected system flow."@),
        Screen::DetectedSystem => detected_view(os, admin_summary),
        Screen::WindowsWizard => windows::wizard::wizard_view(windows_wizard, admin_summary),
        Screen::Unsupported => unsupported_screen(os),
    }
}

/// The detected-system screen: the flow details of Windows or Linux, or a note that the
/// operating system is unsupported.
pub fn detected_system_view(app: &App, admin: &WindowsAdminStatus) -> (view: View<'static>)
    ensures
        (view.title@, view.body@) == detected_view(app.os(), admin.summary@),
{
    match app.operating_system() {
        OperatingSystem::Windows => View {
            title: "Detected System",
            body: windows::wizard::detected_system_details(app, admin),
        },
        OperatingSystem::Linux => View {
            title: "Detected System",
            body: linux::wizard::detected_system_details(app),
        },
        OperatingSystem::Unsupported(name) => View {
            title: "Unsupported",
            body: concat_str("Unsupported operating system detected: ".to_owned(), name.as_str()),
        },
    }
}

/// The unsupported screen: it names the unsupported operating system, and says so when
/// it is reached for a supported one.
pub fn unsupported_view(app: &App) -> (view: View<'static>)
    ensures
        (view.title@, view.body@) == unsupported_screen(app.os()),
{
    let details = match app.operating_system() {
        OperatingSystem::Unsupported(name) => concat_str(
            "Unsupported operating system detected: ".to_owned(),
            name.as_str(),
        ),
        supported => concat_str(
            "Unsupported screen reached unexpectedly for supported OS: ".to_owned(),
            supported.display_name(),
        ),
    };
    View { title: "Unsupported", body: details }
}

/// What the app shows on `screen`, given the Windows wizard and the current admin status.
pub fn current_view(
    app: &App,
    screen: Screen,
    windows_wizard: Option<&WindowsWizardState>,
    admin: &WindowsAdminStatus,
) -> (view: View<'static>)
    ensures
        (view.title@, view.body@) == screen_view(app.os(), screen, windows_wizard, admin.summary@),
{
    match screen {
        Screen::Welcome => View {
            title: "Welcome",
            body: "Press Enter to continue to the detected system flow.".to_owned(),
        },
        Screen::DetectedSystem => detected_system_view(app, admin),
        Screen::WindowsWizard => windows::wizard::current_view(windows_wizard, admin),
        Screen::Unsupported => unsupported_view(app),
    }
}

/// The key hints for `screen`.
pub fn key_hints(screen: Screen, windows_wizard: Option<&WindowsWizardState>) -> (hints: &'static str)
    ensures
        hints@ == match screen {
            Screen::Welcome => "Enter: advance | q: quit"@,
            Screen::WindowsWizard => windows::wizard::wizard_hints(windows_wizard),
            _ => "Enter: keep current screen | Esc: back | q: quit"@,
        },
{
    match screen {
        Screen::Welcome => "Enter: advance | q: quit",
        Screen::WindowsWizard => windows::wizard::key_hints(windows_wizard),
        Screen::DetectedSystem => "Enter: keep current screen | Esc: back | q: quit",
        Screen::Unsupported => "Enter: keep current screen | Esc: back | q: quit",
    }
}


// ---------------------------------------------------------------------------
// Navigation
// ---------------------------------------------------------------------------

/// The keys the app reacts to.
#[derive(Debug, Clone, Copy, PartialEq, Eq)]
pub enum KeyInput {
    Quit,
    Enter,
    Escape,
    Other,
}

/// What the event loop does after a key.
#[derive(Debug, Clone, Copy, PartialEq, Eq)]
pub enum UiAction {
    /// Draw the screen again and wait for the next key.
    Redraw,
    /// Leave the app.
    Quit,
    /// Run `powercfg /h off` and hand its result to `record_fast_startup`.
    RunFastStartup,
}

/// Where the user is: the screen, the Fast Startup wizard, and whether to quit.
#[derive(Debug, Clone)]
pub struct Navigation {
    screen: Screen,
    wizard: WindowsWizardState,
    quit: bool,
}

/// The screen after the user confirms on `screen`, outside the Fast Startup wizard.
pub open spec fn screen_after_enter(screen: Screen, os: OperatingSystem) -> Screen {
    match screen {
        Screen::Welcome => Screen::DetectedSystem,
        Screen::DetectedSystem => if os is Windows {
            Screen::WindowsWizard
        } else {
            Screen::DetectedSystem
        },
        s => s,
    }
}

/// The screen after the user goes back from `screen`; from the wizard the user leaves
/// only when it is on its first screen.
pub open spec fn screen_after_escape(screen: Screen, wizard_screen: WindowsScreen) -> Screen {
    match screen {
        Screen::Welcome => Screen::Welcome,
        Screen::DetectedSystem => Screen::Welcome,
        Screen::Unsupported => Screen::Welcome,
        Screen::WindowsWizard => if wizard_screen is Explanation {
            Screen::DetectedSystem
        } else {
            Screen::WindowsWizard
        },
    }
}

impl Navigation {
    /// The screen shown.
    pub closed spec fn screen_of(&self) -> Screen {
        self.screen
    }

    /// The Fast Startup wizard.
    pub closed spec fn wizard_of(&self) -> WindowsWizardState {
        self.wizard
    }

    /// Whether the user asked to quit.
    pub closed spec fn quits(&self) -> bool {
        self.quit
    }

    /// The app at its welcome screen, with the wizard at its start.
    pub fn new() -> (n: Self)
        ensures
            n.screen_of() is Welcome,
            n.wizard_of().screen() is Explanation,
            n.wizard_of().result() is None,
            !n.quits(),
    {
        Navigation { screen: Screen::Welcome, wizard: WindowsWizardState::new(), quit: false }
    }

    /// The screen shown.
    pub fn screen(&self) -> (screen: Screen)
        ensures
            screen == self.screen_of(),
    {
        self.screen
    }

    /// The Fast Startup wizard.
    pub fn wizard(&self) -> (wizard: &WindowsWizardState)
        ensures
            *wizard == self.wizard_of(),
    {
        &self.wizard
    }

    /// Whether the user asked to quit.
    pub fn should_quit(&self) -> (quit: bool)
        ensures
            quit == self.quits(),
    {
        self.quit
    }
}

/// What a key does: `q` quits; Enter moves forward (through the Fast Startup wizard
/// when it is shown, and into it from the detected-system screen on Windows); Esc goes
/// back (leaving the wizard from its first screen); other keys, and key releases, do
/// nothing. When the wizard reaches the point of running `powercfg /h off`, the action
/// says so and nothing moves until `record_fast_startup`.
pub fn on_key(nav: &mut Navigation, os: &OperatingSystem, key: KeyInput, pressed: bool) -> (action: UiAction)
    ensures
        !pressed || key is Other ==> *final(nav) == *old(nav) && action is Redraw,
        pressed && key is Quit ==> final(nav).quits() && action is Quit
            && final(nav).screen_of() == old(nav).screen_of()
            && final(nav).wizard_of() == old(nav).wizard_of(),
        pressed && key is Enter ==> {
            &&& final(nav).quits() == old(nav).quits()
            &&& final(nav).screen_of() == screen_after_enter(old(nav).screen_of(), *os)
            &&& (action is RunFastStartup <==> old(nav).screen_of() is WindowsWizard
                && old(nav).wizard_of().screen() is Execution)
            &&& !(action is RunFastStartup) ==> action is Redraw
            &&& final(nav).wizard_of().result() == old(nav).wizard_of().result()
            &&& if old(nav).screen_of() is WindowsWizard && !(action is RunFastStartup) {
                final(nav).wizard_of().screen() == next_screen(old(nav).wizard_of().screen())
            } else {
                final(nav).wizard_of().screen() == old(nav).wizard_of().screen()
            }
        },
        pressed && key is Escape ==> {
            &&& action is Redraw
            &&& final(nav).quits() == old(nav).quits()
            &&& final(nav).screen_of() == screen_after_escape(
                old(nav).screen_of(),
                old(nav).wizard_of().screen(),
            )
            &&& final(nav).wizard_of().result() == old(nav).wizard_of().result()
            &&& if old(nav).screen_of() is WindowsWizard {
                final(nav).wizard_of().screen() == previous_screen(old(nav).wizard_of().screen())
            } else {
                final(nav).wizard_of().screen() == old(nav).wizard_of().screen()
            }
        },
        old(nav).wizard_of().well_formed() ==> final(nav).wizard_of().well_formed(),
{
    if !pressed {
        return UiAction::Redraw;
    }
    match key {
        KeyInput::Other => UiAction::Redraw,
        KeyInput::Quit => {
            nav.quit = true;
            UiAction::Quit
        },
        KeyInput::Enter => match nav.screen {
            Screen::Welcome => {
                nav.screen = Screen::DetectedSystem;
                UiAction::Redraw
            },
            Screen::DetectedSystem => {
                if let OperatingSystem::Windows = os {
                    nav.screen = Screen::WindowsWizard;
                }
                UiAction::Redraw
            },
            Screen::WindowsWizard => {
                if advance(&mut nav.wizard) {
                    UiAction::RunFastStartup
                } else {
                    UiAction::Redraw
                }
            },
            Screen::Unsupported => UiAction::Redraw,
        },
        KeyInput::Escape => {
            match nav.screen {
                Screen::Welcome => {},
                Screen::DetectedSystem => {
                    nav.screen = Screen::Welcome;
                },
                Screen::Unsupported => {
                    nav.screen = Screen::Welcome;
                },
                Screen::WindowsWizard => {
                    if go_back(&mut nav.wizard) {
                        nav.screen = Screen::DetectedSystem;
                    }
                },
            }
            UiAction::Redraw
        },
    }
}

/// Records the result of `powercfg /h off` in the wizard, as `record_execution` does;
/// the screen and the wish to quit stay as they were.
pub fn record_fast_startup(nav: &mut Navigation, result: WindowsCommandResult)
    ensures
        final(nav).screen_of() == old(nav).screen_of(),
        final(nav).quits() == old(nav).quits(),
        old(nav).wizard_of().screen() is Execution ==> final(nav).wizard_of().screen() is Result
            && final(nav).wizard_of().result() == Some(result),
        !(old(nav).wizard_of().screen() is Execution) ==> final(nav).wizard_of().screen()
            == old(nav).wizard_of().screen() && final(nav).wizard_of().result() == old(
            nav,
        ).wizard_of().result(),
        old(nav).wizard_of().well_formed() ==> final(nav).wizard_of().well_formed(),
{
    record_execution(&mut nav.wizard, result);
}

/// Whether the screen shown uses the admin status: the detected-system screen on
/// Windows, and the wizard's confirmation and execution screens.
pub open spec fn admin_status_shown(nav: Navigation, os: OperatingSystem) -> bool {
    match nav.screen_of() {
        Screen::DetectedSystem => os is Windows,
        Screen::WindowsWizard => nav.wizard_of().screen() is Confirmation
            || nav.wizard_of().screen() is Execution,
        _ => false,
    }
}

/// Whether the screen shown uses the admin status, which then has to be asked for.
pub fn shows_admin_status(nav: &Navigation, os: &OperatingSystem) -> (shown: bool)
    ensures
        shown == admin_status_shown(*nav, *os),
{
    match nav.screen {
        Screen::DetectedSystem => {
            if let OperatingSystem::Windows = os {
                true
            } else {
                false
            }
        },
        Screen::WindowsWizard => match nav.wizard.current_screen() {
            WindowsScreen::Confirmation => true,
            WindowsScreen::Execution => true,
            _ => false,
        },
        _ => false,
    }
}

} // verus!
