use vstd::prelude::*;
use vstd::string::StringExecFns;
use crate::content::{
    lemma_render_one, lemma_render_three, login_item_command, login_item_text, render, service_content,
    service_text, shortcut_script, shortcut_script_pieces, LOGIN_ITEM_HEAD, LOGIN_ITEM_TAIL, SERVICE_HEAD,
    SERVICE_TAIL, SHORTCUT_SCRIPT_HEAD, SHORTCUT_SCRIPT_MIDDLE, SHORTCUT_SCRIPT_TAIL,
};
use crate::plan::LocationView;
use crate::plan::{
    command, home_dir, home_of, loc, location, pieces, text_args, text_pieces, CommandView, DirCreate,
    DirCreateView, FileWrite, FileWriteView, InstallPlan, Piece, PieceView, PlanView, Report,
    ReportView, SetupError,
};

verus! {

/// The Windows Startup folder, under the home directory.
pub const STARTUP_FOLDER: &'static str = "AppData/Roaming/Microsoft/Windows/Start Menu/Programs/Startup";

/// Linux: the systemd user unit `~/.config/systemd/user/clipboard-manager.service`
/// (its directory made where missing), enabled and started.
pub open spec fn linux_autostart_spec(home: std::path::PathBuf, binary: Seq<char>) -> PlanView {
    PlanView {
        create_dir: Some(
            DirCreateView {
                path: loc(home, seq![".config/systemd/user"@]),
                failure: "Failed to create systemd directory"@,
            },
        ),
        file: Some(
            FileWriteView {
                path: loc(home, seq![".config/systemd/user"@, "clipboard-manager.service"@]),
                content: seq![PieceView::Text(service_text(binary))],
                failure: "Failed to write systemd service"@,
            },
        ),
        commands: seq![
            CommandView {
                program: "systemctl"@,
                args: text_pieces(seq!["--user"@, "enable"@, "clipboard-manager"@]),
                failure: "Failed to enable systemd service"@,
            },
            CommandView {
                program: "systemctl"@,
                args: text_pieces(seq!["--user"@, "start"@, "clipboard-manager"@]),
                failure: "Failed to start clipboard-manager"@,
            },
        ],
        report: ReportView::Line("Clipboard Manager set to auto-start on boot."@),
    }
}

/// Windows: the PowerShell script `create_autostart.ps1` in the Startup
/// folder, which puts the shortcut `Clipboard Manager.lnk` there, then run.
pub open spec fn windows_autostart_spec(home: std::path::PathBuf, binary: Seq<char>) -> PlanView {
    let script = loc(home, seq![STARTUP_FOLDER@, "create_autostart.ps1"@]);
    PlanView {
        create_dir: None,
        file: Some(
            FileWriteView {
                path: script,
                content: shortcut_script_pieces(loc(home, seq![STARTUP_FOLDER@, "Clipboard Manager.lnk"@]), binary),
                failure: "Failed to write PowerShell script"@,
            },
        ),
        commands: seq![
            CommandView {
                program: "powershell"@,
                args: text_pieces(seq!["-ExecutionPolicy"@, "Bypass"@, "-File"@]).push(PieceView::Place(script)),
                failure: "Failed to execute PowerShell script"@,
            },
        ],
        report: ReportView::Line("Clipboard Manager set to auto-start on Windows boot."@),
    }
}

/// macOS: the program added to the login items through AppleScript; the
/// report tells whether that worked.
pub open spec fn macos_autostart_spec(binary: Seq<char>) -> PlanView {
    PlanView {
        create_dir: None,
        file: None,
        commands: seq![
            CommandView {
                program: "sh"@,
                args: text_pieces(seq!["-c"@, login_item_text(binary)]),
                failure: "Failed to execute AppleScript"@,
            },
        ],
        report: ReportView::ByStatus(
            "Clipboard Manager added to macOS startup."@,
            "Failed to add Clipboard Manager to macOS startup."@,
        ),
    }
}

/// The Linux autostart steps for the given home directory and program.
pub fn linux_autostart_plan(home: &std::path::PathBuf, binary_path: &str) -> (p: InstallPlan)
    ensures
        p@ == linux_autostart_spec(*home, binary_path@),
        p@.file is Some,
        p@.file->Some_0.path == loc(*home, seq![".config/systemd/user"@, "clipboard-manager.service"@]),
        p@.file->Some_0.content == seq![PieceView::Text(SERVICE_HEAD@ + binary_path@ + SERVICE_TAIL@)],
{
    let enable = command(
        "systemctl",
        text_args(&["--user", "enable", "clipboard-manager"]),
        "Failed to enable systemd service",
    );
    let start = command(
        "systemctl",
        text_args(&["--user", "start", "clipboard-manager"]),
        "Failed to start clipboard-manager",
    );
    assert(enable@.args =~~= text_pieces(seq!["--user"@, "enable"@, "clipboard-manager"@]));
    assert(start@.args =~~= text_pieces(seq!["--user"@, "start"@, "clipboard-manager"@]));
    let commands = vec![enable, start];
    let dir = location(home, &[".config/systemd/user"]);
    let file = location(home, &[".config/systemd/user", "clipboard-manager.service"]);
    assert(dir@.parts =~= seq![".config/systemd/user"@]);
    assert(file@.parts =~= seq![".config/systemd/user"@, "clipboard-manager.service"@]);
    let content = vec![Piece::Text(service_content(binary_path))];
    let p = InstallPlan {
        create_dir: Some(DirCreate { path: dir, failure: String::from_str("Failed to create systemd directory") }),
        file: Some(FileWrite { path: file, content, failure: String::from_str("Failed to write systemd service") }),
        commands,
        report: Report::Line(String::from_str("Clipboard Manager set to auto-start on boot.")),
    };
    let ghost want = linux_autostart_spec(*home, binary_path@);
    assert(p@.commands =~~= want.commands);
    assert(p@.file.unwrap().content =~~= want.file.unwrap().content);
    assert(p@.file =~~= want.file);
    assert(p@.create_dir =~~= want.create_dir);
    assert(p@ =~~= want);
    p
}

/// The Linux autostart steps under the given home directory: `None` (an
/// unknown home directory) is the one input that fails.
pub fn linux_autostart_for_home(home: Option<std::path::PathBuf>, binary_path: &str) -> (res: Result<InstallPlan, SetupError>)
    ensures
        match home {
            Some(h) => res matches Ok(p) && p@ == linux_autostart_spec(h, binary_path@),
            None => res is Err,
        },
{
    match home {
        None => Err(SetupError::NoHomeDir),
        Some(h) => Ok(linux_autostart_plan(&h, binary_path)),
    }
}

/// Registers the program to start at login on Linux, through a systemd user
/// unit under the home directory. Fails only where `dirs::home_dir` finds no
/// home directory, which the environment decides; `linux_autostart_for_home`
/// states the outcome for each answer.
pub fn setup_autostart_linux(binary_path: &str) -> (res: Result<InstallPlan, SetupError>)
    ensures
        res matches Ok(p) ==> p@ == linux_autostart_spec(home_of(p@), binary_path@),
{
    linux_autostart_for_home(home_dir(), binary_path)
}

/// The Windows autostart steps for the given home directory and program.
pub fn windows_autostart_plan(home: &std::path::PathBuf, binary_path: &str) -> (p: InstallPlan)
    ensures
        p@ == windows_autostart_spec(*home, binary_path@),
        p@.file is Some,
        p@.file->Some_0.path == loc(*home, seq![STARTUP_FOLDER@, "create_autostart.ps1"@]),
        p@.file->Some_0.content == seq![
            PieceView::Text(SHORTCUT_SCRIPT_HEAD@),
            PieceView::Place(loc(*home, seq![STARTUP_FOLDER@, "Clipboard Manager.lnk"@])),
            PieceView::Text(SHORTCUT_SCRIPT_MIDDLE@ + binary_path@ + SHORTCUT_SCRIPT_TAIL@),
        ],
{
    let ghost script = loc(*home, seq![STARTUP_FOLDER@, "create_autostart.ps1"@]);
    let mut args = text_args(&["-ExecutionPolicy", "Bypass", "-File"]);
    let script_place = location(home, &[STARTUP_FOLDER, "create_autostart.ps1"]);
    assert(script_place@.parts =~= script.parts);
    let ghost before = args@;
    args.push(Piece::Place(script_place));
    assert(pieces(args@) =~~= pieces(before).push(PieceView::Place(script)));
    let run = command("powershell", args, "Failed to execute PowerShell script");
    assert(run@.args =~~= text_pieces(seq!["-ExecutionPolicy"@, "Bypass"@, "-File"@]).push(PieceView::Place(script)));
    let commands = vec![run];
    let path = location(home, &[STARTUP_FOLDER, "create_autostart.ps1"]);
    let shortcut = location(home, &[STARTUP_FOLDER, "Clipboard Manager.lnk"]);
    assert(path@.parts =~= script.parts);
    assert(shortcut@.parts =~= seq![STARTUP_FOLDER@, "Clipboard Manager.lnk"@]);
    let content = shortcut_script(shortcut, binary_path);
    let p = InstallPlan {
        create_dir: None,
        file: Some(FileWrite { path, content, failure: String::from_str("Failed to write PowerShell script") }),
        commands,
        report: Report::Line(String::from_str("Clipboard Manager set to auto-start on Windows boot.")),
    };
    let ghost want = windows_autostart_spec(*home, binary_path@);
    assert(p@.commands =~~= want.commands);
    assert(p@.file =~~= want.file);
    assert(p@ =~~= want);
    p
}

/// The Windows autostart steps under the given home directory: `None` (an
/// unknown home directory) is the one input that fails.
pub fn windows_autostart_for_home(home: Option<std::path::PathBuf>, binary_path: &str) -> (res: Result<InstallPlan, SetupError>)
    ensures
        match home {
            Some(h) => res matches Ok(p) && p@ == windows_autostart_spec(h, binary_path@),
            None => res is Err,
        },
{
    match home {
        None => Err(SetupError::NoHomeDir),
        Some(h) => Ok(windows_autostart_plan(&h, binary_path)),
    }
}

/// Registers the program to start at login on Windows, through a shortcut in
/// the Startup folder that a PowerShell script makes. Fails only where
/// `dirs::home_dir` finds no home directory, which the environment decides;
/// `windows_autostart_for_home` states the outcome for each answer.
pub fn setup_autostart_windows(binary_path: &str) -> (res: Result<InstallPlan, SetupError>)
    ensures
        res matches Ok(p) ==> p@ == windows_autostart_spec(home_of(p@), binary_path@),
{
    windows_autostart_for_home(home_dir(), binary_path)
}

/// Registers the program to start at login on macOS, as a login item added
/// through AppleScript.
pub fn setup_autostart_macos(binary_path: &str) -> (p: InstallPlan)
    ensures
        p@ == macos_autostart_spec(binary_path@),
{
    let script = login_item_command(binary_path);
    let run = command("sh", text_args(&["-c", script.as_str()]), "Failed to execute AppleScript");
    assert(run@.args =~~= text_pieces(seq!["-c"@, login_item_text(binary_path@)]));
    let commands = vec![run];
    let p = InstallPlan {
        create_dir: None,
        file: None,
        commands,
        report: Report::ByStatus(
            String::from_str("Clipboard Manager added to macOS startup."),
            String::from_str("Failed to add Clipboard Manager to macOS startup."),
        ),
    };
    assert(p@.commands =~~= macos_autostart_spec(binary_path@).commands);
    p
}

/// The Linux plan makes `~/.config/systemd/user` and writes
/// `~/.config/systemd/user/clipboard-manager.service`, whose text is the unit
/// around the given program: the program stands right after `ExecStart=`.
pub proof fn lemma_linux_unit_runs_binary(
    home: std::path::PathBuf,
    binary: Seq<char>,
    spell: spec_fn(LocationView) -> Seq<char>,
)
    ensures
        linux_autostart_spec(home, binary).create_dir is Some,
        linux_autostart_spec(home, binary).create_dir->Some_0.path == loc(home, seq![".config/systemd/user"@]),
        linux_autostart_spec(home, binary).file is Some,
        linux_autostart_spec(home, binary).file->Some_0.path == loc(
            home,
            seq![".config/systemd/user"@, "clipboard-manager.service"@],
        ),
        render(linux_autostart_spec(home, binary).file->Some_0.content, spell) == SERVICE_HEAD@ + binary
            + SERVICE_TAIL@,
        render(linux_autostart_spec(home, binary).file->Some_0.content, spell).subrange(
            SERVICE_HEAD@.len() as int,
            (SERVICE_HEAD@.len() + binary.len()) as int,
        ) == binary,
{
    let t = SERVICE_HEAD@ + binary + SERVICE_TAIL@;
    lemma_render_one(PieceView::Text(service_text(binary)), spell);
    assert(t.subrange(SERVICE_HEAD@.len() as int, (SERVICE_HEAD@.len() + binary.len()) as int) =~= binary);
}

/// The Windows plan writes `create_autostart.ps1` in the Startup folder; once
/// its paths are spelled out, the script makes the shortcut
/// `Clipboard Manager.lnk` in that folder, aimed at the given program; then
/// PowerShell runs that very script.
pub proof fn lemma_windows_autostart_targets_binary(
    home: std::path::PathBuf,
    binary: Seq<char>,
    spell: spec_fn(LocationView) -> Seq<char>,
)
    ensures
        windows_autostart_spec(home, binary).file is Some,
        windows_autostart_spec(home, binary).file->Some_0.path == loc(
            home,
            seq![STARTUP_FOLDER@, "create_autostart.ps1"@],
        ),
        render(windows_autostart_spec(home, binary).file->Some_0.content, spell) == SHORTCUT_SCRIPT_HEAD@
            + spell(loc(home, seq![STARTUP_FOLDER@, "Clipboard Manager.lnk"@])) + SHORTCUT_SCRIPT_MIDDLE@
            + binary + SHORTCUT_SCRIPT_TAIL@,
        windows_autostart_spec(home, binary).commands.len() == 1,
        windows_autostart_spec(home, binary).commands[0].program == "powershell"@,
        windows_autostart_spec(home, binary).commands[0].args.last() == PieceView::Place(
            windows_autostart_spec(home, binary).file->Some_0.path,
        ),
{
    let shortcut = loc(home, seq![STARTUP_FOLDER@, "Clipboard Manager.lnk"@]);
    lemma_render_three(
        PieceView::Text(SHORTCUT_SCRIPT_HEAD@),
        PieceView::Place(shortcut),
        PieceView::Text(SHORTCUT_SCRIPT_MIDDLE@ + binary + SHORTCUT_SCRIPT_TAIL@),
        spell,
    );
    assert(render(windows_autostart_spec(home, binary).file->Some_0.content, spell) =~= SHORTCUT_SCRIPT_HEAD@
        + spell(shortcut) + SHORTCUT_SCRIPT_MIDDLE@ + binary + SHORTCUT_SCRIPT_TAIL@);
}

/// The macOS plan runs `sh -c` on the AppleScript command that adds the given
/// program to the login items.
pub proof fn lemma_macos_login_item_names_binary(binary: Seq<char>)
    ensures
        macos_autostart_spec(binary).commands.len() == 1,
        macos_autostart_spec(binary).commands[0].program == "sh"@,
        macos_autostart_spec(binary).commands[0].args == seq![
            PieceView::Text("-c"@),
            PieceView::Text(LOGIN_ITEM_HEAD@ + binary + LOGIN_ITEM_TAIL@),
        ],
{
    assert(macos_autostart_spec(binary).commands[0].args =~= seq![
        PieceView::Text("-c"@),
        PieceView::Text(LOGIN_ITEM_HEAD@ + binary + LOGIN_ITEM_TAIL@),
    ]);
}

} // verus!
