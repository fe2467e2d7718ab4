use vstd::prelude::*;
use vstd::string::StringExecFns;
use crate::content::{
    alias_script, alias_script_pieces, desktop_entry, desktop_entry_text, lemma_render_one,
    lemma_render_three, render, shortcut_script, shortcut_script_pieces, ALIAS_SCRIPT_HEAD,
    ALIAS_SCRIPT_MIDDLE, ALIAS_SCRIPT_TAIL, DESKTOP_ENTRY_HEAD, DESKTOP_ENTRY_TAIL, SHORTCUT_SCRIPT_HEAD,
    SHORTCUT_SCRIPT_MIDDLE, SHORTCUT_SCRIPT_TAIL,
};
use crate::plan::LocationView;
use crate::plan::{
    command, home_dir, home_of, loc, location, pieces, text_args, text_pieces, CommandView,
    DirCreate, DirCreateView, FileWrite, FileWriteView, InstallPlan, Piece, PieceView, PlanView,
    Platform, Report, ReportView, SetupError,
};

verus! {

/// The text printed before the path of a new desktop shortcut.
pub const SHORTCUT_NOTICE: &'static str = "Desktop shortcut created at ";

/// Linux: the desktop entry
/// `~/.local/share/applications/clipboard-manager.desktop` (its directory
/// made where missing), made executable.
pub open spec fn linux_shortcut_spec(home: std::path::PathBuf, binary: Seq<char>) -> PlanView {
    let file = loc(home, seq![".local/share/applications"@, "clipboard-manager.desktop"@]);
    PlanView {
        create_dir: Some(
            DirCreateView {
                path: loc(home, seq![".local/share/applications"@]),
                failure: "Failed to create applications directory"@,
            },
        ),
        file: Some(
            FileWriteView {
                path: file,
                content: seq![PieceView::Text(desktop_entry_text(binary))],
                failure: "Failed to write desktop entry"@,
            },
        ),
        commands: seq![
            CommandView {
                program: "chmod"@,
                args: seq![PieceView::Text("+x"@), PieceView::Place(file)],
                failure: "Failed to make desktop shortcut executable"@,
            },
        ],
        report: ReportView::PathNotice(SHORTCUT_NOTICE@, file),
    }
}

/// Windows: the PowerShell script `~/Desktop/create_shortcut.ps1`, which puts
/// the shortcut `~/Desktop/Clipboard Manager.lnk`, then run.
pub open spec fn windows_shortcut_spec(home: std::path::PathBuf, binary: Seq<char>) -> PlanView {
    let script = loc(home, seq!["Desktop"@, "create_shortcut.ps1"@]);
    let shortcut = loc(home, seq!["Desktop"@, "Clipboard Manager.lnk"@]);
    PlanView {
        create_dir: None,
        file: Some(
            FileWriteView {
                path: script,
                content: shortcut_script_pieces(shortcut, binary),
                failure: "Failed to write PowerShell script"@,
            },
        ),
        commands: seq![
            CommandView {
                program: "powershell"@,
                args: text_pieces(seq!["-ExecutionPolicy"@, "Bypass"@, "-File"@]).push(PieceView::Place(script)),
                failure: "Failed to execute PowerShell script"@,
            },
        ],
        report: ReportView::PathNotice(SHORTCUT_NOTICE@, shortcut),
    }
}

/// macOS: the AppleScript `~/Desktop/create_alias.scpt`, which makes a
/// Finder alias of the program in `~/Desktop`, then run; the notice names
/// `~/Desktop/Clipboard Manager.app`.
pub open spec fn macos_shortcut_spec(home: std::path::PathBuf, binary: Seq<char>) -> PlanView {
    let script = loc(home, seq!["Desktop"@, "create_alias.scpt"@]);
    PlanView {
        create_dir: None,
        file: Some(
            FileWriteView {
                path: script,
                content: alias_script_pieces(binary, loc(home, seq!["Desktop"@])),
                failure: "Failed to write AppleScript"@,
            },
        ),
        commands: seq![
            CommandView {
                program: "osascript"@,
                args: seq![PieceView::Place(script)],
                failure: "Failed to execute AppleScript"@,
            },
        ],
        report: ReportView::PathNotice(SHORTCUT_NOTICE@, loc(home, seq!["Desktop"@, "Clipboard Manager.app"@])),
    }
}

/// The shortcut steps of each platform.
pub open spec fn shortcut_spec(platform: Platform, home: std::path::PathBuf, binary: Seq<char>) -> PlanView {
    match platform {
        Platform::Linux => linux_shortcut_spec(home, binary),
        Platform::Windows => windows_shortcut_spec(home, binary),
        Platform::MacOs => macos_shortcut_spec(home, binary),
    }
}

/// The Linux shortcut steps for the given home directory and program.
pub fn linux_shortcut_plan(home: &std::path::PathBuf, binary_path: &str) -> (p: InstallPlan)
    ensures
        p@ == linux_shortcut_spec(*home, binary_path@),
        p@.file is Some,
        p@.file->Some_0.path == loc(*home, seq![".local/share/applications"@, "clipboard-manager.desktop"@]),
        p@.file->Some_0.content == seq![PieceView::Text(DESKTOP_ENTRY_HEAD@ + binary_path@ + DESKTOP_ENTRY_TAIL@)],
{
    let ghost file = loc(*home, seq![".local/share/applications"@, "clipboard-manager.desktop"@]);
    let target = location(home, &[".local/share/applications", "clipboard-manager.desktop"]);
    assert(target@.parts =~= file.parts);
    let args = vec![Piece::Text(String::from_str("+x")), Piece::Place(target)];
    assert(pieces(args@) =~~= seq![PieceView::Text("+x"@), PieceView::Place(file)]);
    let chmod = command("chmod", args, "Failed to make desktop shortcut executable");
    let commands = vec![chmod];
    let dir = location(home, &[".local/share/applications"]);
    assert(dir@.parts =~= seq![".local/share/applications"@]);
    let path = location(home, &[".local/share/applications", "clipboard-manager.desktop"]);
    assert(path@.parts =~= file.parts);
    let shown = location(home, &[".local/share/applications", "clipboard-manager.desktop"]);
    assert(shown@.parts =~= file.parts);
    let content = vec![Piece::Text(desktop_entry(binary_path))];
    let p = InstallPlan {
        create_dir: Some(DirCreate { path: dir, failure: String::from_str("Failed to create applications directory") }),
        file: Some(FileWrite { path, content, failure: String::from_str("Failed to write desktop entry") }),
        commands,
        report: Report::PathNotice(String::from_str(SHORTCUT_NOTICE), shown),
    };
    let ghost want = linux_shortcut_spec(*home, binary_path@);
    assert(p@.commands =~~= want.commands);
    assert(p@.file.unwrap().content =~~= want.file.unwrap().content);
    assert(p@.file =~~= want.file);
    assert(p@.create_dir =~~= want.create_dir);
    assert(p@.report =~~= want.report);
    assert(p@ =~~= want);
    p
}

/// The Windows shortcut steps for the given home directory and program.
pub fn windows_shortcut_plan(home: &std::path::PathBuf, binary_path: &str) -> (p: InstallPlan)
    ensures
        p@ == windows_shortcut_spec(*home, binary_path@),
        p@.file is Some,
        p@.file->Some_0.path == loc(*home, seq!["Desktop"@, "create_shortcut.ps1"@]),
        p@.file->Some_0.content == seq![
            PieceView::Text(SHORTCUT_SCRIPT_HEAD@),
            PieceView::Place(loc(*home, seq!["Desktop"@, "Clipboard Manager.lnk"@])),
            PieceView::Text(SHORTCUT_SCRIPT_MIDDLE@ + binary_path@ + SHORTCUT_SCRIPT_TAIL@),
        ],
{
    let ghost script = loc(*home, seq!["Desktop"@, "create_shortcut.ps1"@]);
    let ghost shortcut = loc(*home, seq!["Desktop"@, "Clipboard Manager.lnk"@]);
    let mut args = text_args(&["-ExecutionPolicy", "Bypass", "-File"]);
    let script_place = location(home, &["Desktop", "create_shortcut.ps1"]);
    assert(script_place@.parts =~= script.parts);
    let ghost before = args@;
    args.push(Piece::Place(script_place));
    assert(pieces(args@) =~~= pieces(before).push(PieceView::Place(script)));
    let run = command("powershell", args, "Failed to execute PowerShell script");
    assert(run@.args =~~= text_pieces(seq!["-ExecutionPolicy"@, "Bypass"@, "-File"@]).push(PieceView::Place(script)));
    let commands = vec![run];
    let path = location(home, &["Desktop", "create_shortcut.ps1"]);
    assert(path@.parts =~= script.parts);
    let target = location(home, &["Desktop", "Clipboard Manager.lnk"]);
    assert(target@.parts =~= shortcut.parts);
    let shown = location(home, &["Desktop", "Clipboard Manager.lnk"]);
    assert(shown@.parts =~= shortcut.parts);
    let content = shortcut_script(target, binary_path);
    let p = InstallPlan {
        create_dir: None,
        file: Some(FileWrite { path, content, failure: String::from_str("Failed to write PowerShell script") }),
        commands,
        report: Report::PathNotice(String::from_str(SHORTCUT_NOTICE), shown),
    };
    let ghost want = windows_shortcut_spec(*home, binary_path@);
    assert(p@.commands =~~= want.commands);
    assert(p@.file =~~= want.file);
    assert(p@.report =~~= want.report);
    assert(p@ =~~= want);
    p
}

/// The macOS shortcut steps for the given home directory and program.
pub fn macos_shortcut_plan(home: &std::path::PathBuf, binary_path: &str) -> (p: InstallPlan)
    ensures
        p@ == macos_shortcut_spec(*home, binary_path@),
        p@.file is Some,
        p@.file->Some_0.path == loc(*home, seq!["Desktop"@, "create_alias.scpt"@]),
        p@.file->Some_0.content == seq![
            PieceView::Text(ALIAS_SCRIPT_HEAD@ + binary_path@ + ALIAS_SCRIPT_MIDDLE@),
            PieceView::Place(loc(*home, seq!["Desktop"@])),
            PieceView::Text(ALIAS_SCRIPT_TAIL@),
        ],
{
    let ghost script = loc(*home, seq!["Desktop"@, "create_alias.scpt"@]);
    let script_place = location(home, &["Desktop", "create_alias.scpt"]);
    assert(script_place@.parts =~= script.parts);
    let args = vec![Piece::Place(script_place)];
    assert(pieces(args@) =~~= seq![PieceView::Place(script)]);
    let run = command("osascript", args, "Failed to execute AppleScript");
    let commands = vec![run];
    let path = location(home, &["Desktop", "create_alias.scpt"]);
    assert(path@.parts =~= script.parts);
    let folder = location(home, &["Desktop"]);
    assert(folder@.parts =~= seq!["Desktop"@]);
    let shown = location(home, &["Desktop", "Clipboard Manager.app"]);
    assert(shown@.parts =~= seq!["Desktop"@, "Clipboard Manager.app"@]);
    let content = alias_script(binary_path, folder);
    let p = InstallPlan {
        create_dir: None,
        file: Some(FileWrite { path, content, failure: String::from_str("Failed to write AppleScript") }),
        commands,
        report: Report::PathNotice(String::from_str(SHORTCUT_NOTICE), shown),
    };
    let ghost want = macos_shortcut_spec(*home, binary_path@);
    assert(p@.commands =~~= want.commands);
    assert(p@.file =~~= want.file);
    assert(p@.report =~~= want.report);
    assert(p@ =~~= want);
    p
}

/// The shortcut steps under the given home directory: `None` (an unknown
/// home directory) is the one input that fails.
pub fn desktop_shortcut_for_home(home: Option<std::path::PathBuf>, platform: Platform, binary_path: &str) -> (res: Result<InstallPlan, SetupError>)
    ensures
        match home {
            Some(h) => res matches Ok(p) && p@ == shortcut_spec(platform, h, binary_path@),
            None => res is Err,
        },
{
    match home {
        None => Err(SetupError::NoHomeDir),
        Some(h) => match platform {
            Platform::Linux => Ok(linux_shortcut_plan(&h, binary_path)),
            Platform::Windows => Ok(windows_shortcut_plan(&h, binary_path)),
            Platform::MacOs => Ok(macos_shortcut_plan(&h, binary_path)),
        },
    }
}

/// Puts a shortcut to the program where the platform's users look for one:
/// the applications menu on Linux, the desktop on Windows and macOS. Fails
/// only where `dirs::home_dir` finds no home directory, which the environment
/// decides; `desktop_shortcut_for_home` states the outcome for each answer.
pub fn setup_desktop_shortcut(platform: Platform, binary_path: &str) -> (res: Result<InstallPlan, SetupError>)
    ensures
        res matches Ok(p) ==> p@ == shortcut_spec(platform, home_of(p@), binary_path@),
{
    desktop_shortcut_for_home(home_dir(), platform, binary_path)
}

/// On Linux the plan writes
/// `~/.local/share/applications/clipboard-manager.desktop`, whose text is the
/// desktop entry launching the given program (right after `Exec=`), and
/// makes that very file executable.
pub proof fn lemma_linux_entry_launches_binary(
    home: std::path::PathBuf,
    binary: Seq<char>,
    spell: spec_fn(LocationView) -> Seq<char>,
)
    ensures
        linux_shortcut_spec(home, binary).file is Some,
        linux_shortcut_spec(home, binary).file->Some_0.path == loc(
            home,
            seq![".local/share/applications"@, "clipboard-manager.desktop"@],
        ),
        render(linux_shortcut_spec(home, binary).file->Some_0.content, spell) == DESKTOP_ENTRY_HEAD@ + binary
            + DESKTOP_ENTRY_TAIL@,
        render(linux_shortcut_spec(home, binary).file->Some_0.content, spell).subrange(
            DESKTOP_ENTRY_HEAD@.len() as int,
            (DESKTOP_ENTRY_HEAD@.len() + binary.len()) as int,
        ) == binary,
        linux_shortcut_spec(home, binary).commands.len() == 1,
        linux_shortcut_spec(home, binary).commands[0].program == "chmod"@,
        linux_shortcut_spec(home, binary).commands[0].args == seq![
            PieceView::Text("+x"@),
            PieceView::Place(linux_shortcut_spec(home, binary).file->Some_0.path),
        ],
{
    let t = DESKTOP_ENTRY_HEAD@ + binary + DESKTOP_ENTRY_TAIL@;
    lemma_render_one(PieceView::Text(desktop_entry_text(binary)), spell);
    assert(t.subrange(DESKTOP_ENTRY_HEAD@.len() as int, (DESKTOP_ENTRY_HEAD@.len() + binary.len()) as int)
        =~= binary);
}

/// On Windows the plan writes `~/Desktop/create_shortcut.ps1`; once its paths
/// are spelled out, the script makes `~/Desktop/Clipboard Manager.lnk` aimed
/// at the given program (its `TargetPath`), and PowerShell runs that very
/// script.
pub proof fn lemma_windows_shortcut_targets_binary(
    home: std::path::PathBuf,
    binary: Seq<char>,
    spell: spec_fn(LocationView) -> Seq<char>,
)
    ensures
        windows_shortcut_spec(home, binary).file is Some,
        windows_shortcut_spec(home, binary).file->Some_0.path == loc(
            home,
            seq!["Desktop"@, "create_shortcut.ps1"@],
        ),
        render(windows_shortcut_spec(home, binary).file->Some_0.content, spell) == SHORTCUT_SCRIPT_HEAD@
            + spell(loc(home, seq!["Desktop"@, "Clipboard Manager.lnk"@])) + SHORTCUT_SCRIPT_MIDDLE@ + binary
            + SHORTCUT_SCRIPT_TAIL@,
        windows_shortcut_spec(home, binary).commands.len() == 1,
        windows_shortcut_spec(home, binary).commands[0].program == "powershell"@,
        windows_shortcut_spec(home, binary).commands[0].args.last() == PieceView::Place(
            windows_shortcut_spec(home, binary).file->Some_0.path,
        ),
{
    let shortcut = loc(home, seq!["Desktop"@, "Clipboard Manager.lnk"@]);
    lemma_render_three(
        PieceView::Text(SHORTCUT_SCRIPT_HEAD@),
        PieceView::Place(shortcut),
        PieceView::Text(SHORTCUT_SCRIPT_MIDDLE@ + binary + SHORTCUT_SCRIPT_TAIL@),
        spell,
    );
    assert(render(windows_shortcut_spec(home, binary).file->Some_0.content, spell) =~= SHORTCUT_SCRIPT_HEAD@
        + spell(shortcut) + SHORTCUT_SCRIPT_MIDDLE@ + binary + SHORTCUT_SCRIPT_TAIL@);
}

/// On macOS the plan writes `~/Desktop/create_alias.scpt`; once its paths are
/// spelled out, the script makes a Finder alias of the given program in
/// `~/Desktop`, and `osascript` runs that very script.
pub proof fn lemma_macos_alias_targets_binary(
    home: std::path::PathBuf,
    binary: Seq<char>,
    spell: spec_fn(LocationView) -> Seq<char>,
)
    ensures
        macos_shortcut_spec(home, binary).file is Some,
        macos_shortcut_spec(home, binary).file->Some_0.path == loc(
            home,
            seq!["Desktop"@, "create_alias.scpt"@],
        ),
        render(macos_shortcut_spec(home, binary).file->Some_0.content, spell) == ALIAS_SCRIPT_HEAD@ + binary
            + ALIAS_SCRIPT_MIDDLE@ + spell(loc(home, seq!["Desktop"@])) + ALIAS_SCRIPT_TAIL@,
        macos_shortcut_spec(home, binary).commands.len() == 1,
        macos_shortcut_spec(home, binary).commands[0].program == "osascript"@,
        macos_shortcut_spec(home, binary).commands[0].args == seq![
            PieceView::Place(macos_shortcut_spec(home, binary).file->Some_0.path),
        ],
{
    let folder = loc(home, seq!["Desktop"@]);
    lemma_render_three(
        PieceView::Text(ALIAS_SCRIPT_HEAD@ + binary + ALIAS_SCRIPT_MIDDLE@),
        PieceView::Place(folder),
        PieceView::Text(ALIAS_SCRIPT_TAIL@),
        spell,
    );
    assert(render(macos_shortcut_spec(home, binary).file->Some_0.content, spell) =~= ALIAS_SCRIPT_HEAD@ + binary
        + ALIAS_SCRIPT_MIDDLE@ + spell(folder) + ALIAS_SCRIPT_TAIL@);
}

} // verus!
