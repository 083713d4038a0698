//! What a chord can be bound to, and what the host can be asked to do.

use vstd::prelude::*;
use vstd::string::*;
use crate::chord::Chord;

verus! {

/// Where the focus goes, or the focused container.
#[derive(Clone, Copy, Debug, PartialEq, Eq, Structural)]
pub enum Direction {
    Left,
    Down,
    Up,
    Right,
}

/// Along which axis a container is split.
#[derive(Clone, Copy, Debug, PartialEq, Eq, Structural)]
pub enum Axis {
    Horizontal,
    Vertical,
}

/// A program the policy starts, on a key press or once graphics are ready.
#[derive(Clone, Copy, Debug, PartialEq, Eq, Structural)]
pub enum Program {
    Terminal,
    Launcher,
    PasswordMenu,
    Bookmarks,
    Notifications,
    Browser,
    BrowserProfiles,
    EnvironmentImport,
    ActivationEnvironment,
    AuthenticationAgent,
    SessionTerminal,
    Wallpaper,
}

/// The deferred work stored under a chord.
#[derive(Clone, Copy, Debug, PartialEq, Eq, Structural)]
pub enum Action {
    Focus(Direction),
    Move(Direction),
    Split(Axis),
    ToggleSplit,
    ToggleMono,
    ToggleFullscreen,
    FocusParent,
    Close,
    ToggleFloating,
    Launch(Program),
    Quit,
    Reload,
    ToggleHardwareCursor,
    /// Switch to the virtual terminal with this number, counted from one.
    SwitchVt(u32),
    /// Show the workspace with this number on the seat.
    ShowWorkspace(u32),
    /// Move the focused container to the workspace, then show it.
    MoveToWorkspace(u32),
    /// Capture every keyboard of the seat.
    EnterGrab,
    /// Release every keyboard of the seat.
    ExitGrab,
}

/// One request to the host, addressed to the seat that saw the key.
#[derive(Clone, Copy, Debug, PartialEq, Eq, Structural)]
pub enum HostCommand {
    Focus(Direction),
    Move(Direction),
    Split(Axis),
    ToggleSplit,
    ToggleMono,
    ToggleFullscreen,
    FocusParent,
    Close,
    ToggleFloating,
    Spawn(Program),
    Quit,
    Reload,
    UseHardwareCursor(bool),
    SwitchVt(u32),
    ShowWorkspace(u32),
    SetWorkspace(u32),
    /// Capture the device exclusively, or release it.
    GrabDevice { device: u64, grab: bool },
    /// Start intercepting the chord.
    Bind(Chord),
    /// Stop intercepting the chord.
    Unbind(Chord),
}

/// A program with its arguments.
pub struct CommandLine {
    pub program: String,
    pub args: Vec<String>,
}

impl CommandLine {
    /// The program, followed by its arguments.
    pub open spec fn words(&self) -> Seq<Seq<char>> {
        seq![self.program@] + self.args@.map_values(|word: String| word@)
    }
}

impl Program {
    /// The words of the command line: the program, then its arguments.
    pub open spec fn words(self) -> Seq<Seq<char>> {
        match self {
            Program::Terminal => seq![
                "alacritty"@,
                "-e"@,
                "tmux"@,
                "attach"@,
                "-t "@,
                "-config"@,
            ],
            Program::Launcher => seq!["fuzzel"@],
            Program::PasswordMenu => seq!["tessen"@, "-d"@, "fuzzel"@],
            Program::Bookmarks => seq!["/home/uncomfy/.config/river/book.nu"@],
            Program::Notifications => seq!["/home/uncomfy/.config/river/fnottctl_list.sh"@],
            Program::Browser => seq!["/home/uncomfy/.config/river/nubrowser.nu"@],
            Program::BrowserProfiles => seq!["/home/uncomfy/.config/river/firefoxprofiles.nu"@],
            Program::EnvironmentImport => seq![
                "systemctl"@,
                "--user"@,
                "import-environment"@,
                "WAYLAND_DISPLAY"@,
                "XDG_CURRENT_DESKTOP"@,
            ],
            Program::ActivationEnvironment => seq![
                "dbus-update-activation-environment"@,
                "SEATD_SOCK"@,
                "DISPLAY"@,
                "WAYLAND_DISPLAY"@,
                "DESKTOP_SESSION=jay"@,
                "XDG_CURRENT_DESKTOP=jay"@,
            ],
            Program::AuthenticationAgent => seq![
                "/usr/libexec/polkit-kde-authentication-agent-1"@,
            ],
            Program::SessionTerminal => seq![
                "alacritty"@,
                "-e"@,
                "tmux"@,
                "attach"@,
                "-t"@,
                "jay-config"@,
            ],
            Program::Wallpaper => seq![
                "wbg"@,
                "/home/uncomfy/.config/river/backgrounds/romb.png"@,
            ],
        }
    }

    /// The command line that starts the program.
    pub fn command_line(self) -> (r: CommandLine)
        ensures
            r.words() == self.words(),
    {
        let words: Vec<&'static str> = match self {
            Program::Terminal => vec!["alacritty", "-e", "tmux", "attach", "-t ", "-config"],
            Program::Launcher => vec!["fuzzel"],
            Program::PasswordMenu => vec!["tessen", "-d", "fuzzel"],
            Program::Bookmarks => vec!["/home/uncomfy/.config/river/book.nu"],
            Program::Notifications => vec!["/home/uncomfy/.config/river/fnottctl_list.sh"],
            Program::Browser => vec!["/home/uncomfy/.config/river/nubrowser.nu"],
            Program::BrowserProfiles => vec!["/home/uncomfy/.config/river/firefoxprofiles.nu"],
            Program::EnvironmentImport => vec![
                "systemctl",
                "--user",
                "import-environment",
                "WAYLAND_DISPLAY",
                "XDG_CURRENT_DESKTOP",
            ],
            Program::ActivationEnvironment => vec![
                "dbus-update-activation-environment",
                "SEATD_SOCK",
                "DISPLAY",
                "WAYLAND_DISPLAY",
                "DESKTOP_SESSION=jay",
                "XDG_CURRENT_DESKTOP=jay",
            ],
            Program::AuthenticationAgent => vec!["/usr/libexec/polkit-kde-authentication-agent-1"],
            Program::SessionTerminal => vec!["alacritty", "-e", "tmux", "attach", "-t", "jay-config"],
            Program::Wallpaper => vec!["wbg", "/home/uncomfy/.config/river/backgrounds/romb.png"],
        };
        let ghost texts = words@.map_values(|word: &'static str| word@);
        assert(texts =~= self.words());
        let program = String::from_str(words[0]);
        let mut args: Vec<String> = Vec::new();
        let mut i: usize = 1;
        while i < words.len()
            invariant
                1 <= i <= words.len(),
                texts.len() == words.len(),
                forall|k: int| 0 <= k < words.len() ==> texts[k] == (#[trigger] words[k])@,
                args.len() == i - 1,
                forall|k: int| 0 <= k < args.len() ==> (#[trigger] args[k])@ == texts[k + 1],
            decreases words.len() - i,
        {
            args.push(String::from_str(words[i]));
            i += 1;
        }
        let r = CommandLine { program, args };
        assert(r.words() =~= texts);
        r
    }
}

} // verus!
