use vstd::prelude::*;
use vstd::string::StringExecFns;
use crate::content::{
    launch_agent_plist, lemma_render_one, plist_text, render, service_content, service_text, PLIST_HEAD,
    PLIST_TAIL, SERVICE_HEAD, SERVICE_TAIL,
};
use crate::plan::LocationView;
use crate::plan::{
    command, home_dir, home_of, loc, location, pieces, text_args, text_pieces, CommandView,
    DirCreate, DirCreateView, FileWrite, FileWriteView, InstallPlan, Piece, PieceView, PlanView,
    Platform, Report, ReportView, SetupError,
};

verus! {

/// Linux: the systemd user unit `~/.config/systemd/user/clipboard-manager.service`
/// (its directory made where missing); systemd reloads its units, then
/// enables and starts it.
pub open spec fn systemd_service_spec(home: std::path::PathBuf, binary: Seq<char>) -> PlanView {
    PlanView {
        create_dir: Some(
            DirCreateView {
                path: loc(home, seq![".config/systemd/user"@]),
                failure: "Failed to create systemd user directory"@,
            },
        ),
        file: Some(
            FileWriteView {
                path: loc(home, seq![".config/systemd/user"@, "clipboard-manager.service"@]),
                content: seq![PieceView::Text(service_text(binary))],
                failure: "Failed to write systemd service"@,
            },
        ),
        commands: seq![
            CommandView {
                program: "systemctl"@,
                args: text_pieces(seq!["--user"@, "daemon-reload"@]),
                failure: "Failed to reload systemd daemon"@,
            },
            CommandView {
                program: "systemctl"@,
                args: text_pieces(seq!["--user"@, "enable"@, "clipboard-manager"@]),
                failure: "Failed to enable systemd service"@,
            },
            CommandView {
                program: "systemctl"@,
                args: text_pieces(seq!["--user"@, "start"@, "clipboard-manager"@]),
                failure: "Failed to start clipboard-manager"@,
            },
        ],
        report: ReportView::Silent,
    }
}

/// macOS: the launchd agent `~/Library/LaunchAgents/com.clipboard.manager.plist`,
/// loaded and started.
pub open spec fn launch_agent_spec(home: std::path::PathBuf, binary: Seq<char>) -> PlanView {
    let file = loc(home, seq!["Library/LaunchAgents/com.clipboard.manager.plist"@]);
    PlanView {
        create_dir: None,
        file: Some(
            FileWriteView {
                path: file,
                content: seq![PieceView::Text(plist_text(binary))],
                failure: "Failed to write macOS launchd plist"@,
            },
        ),
        commands: seq![
            CommandView {
                program: "launchctl"@,
                args: seq![PieceView::Text("load"@), PieceView::Place(file)],
                failure: "Failed to load launchd plist"@,
            },
            CommandView {
                program: "launchctl"@,
                args: text_pieces(seq!["start"@, "com.clipboard.manager"@]),
                failure: "Failed to start clipboard-manager"@,
            },
        ],
        report: ReportView::Silent,
    }
}

/// Windows: a scheduled task that runs the program at logon.
pub open spec fn scheduled_task_spec(binary: Seq<char>) -> PlanView {
    PlanView {
        create_dir: None,
        file: None,
        commands: seq![
            CommandView {
                program: "schtasks"@,
                args: text_pieces(
                    seq![
                        "/Create"@,
                        "/F"@,
                        "/SC"@,
                        "ONLOGON"@,
                        "/TN"@,
                        "ClipboardManager"@,
                        "/TR"@,
                        binary,
                        "/RL"@,
                        "LOW"@,
                    ],
                ),
                failure: "Failed to create Windows scheduled task"@,
            },
        ],
        report: ReportView::Silent,
    }
}

/// The systemd steps for the given home directory and program.
pub fn systemd_service_plan(home: &std::path::PathBuf, binary_path: &str) -> (p: InstallPlan)
    ensures
        p@ == systemd_service_spec(*home, binary_path@),
        p@.file is Some,
        p@.file->Some_0.path == loc(*home, seq![".config/systemd/user"@, "clipboard-manager.service"@]),
        p@.file->Some_0.content == seq![PieceView::Text(SERVICE_HEAD@ + binary_path@ + SERVICE_TAIL@)],
{
    let reload = command("systemctl", text_args(&["--user", "daemon-reload"]), "Failed to reload systemd daemon");
    let enable = command(
        "systemctl",
        text_args(&["--user", "enable", "clipboard-manager"]),
        "Failed to enable systemd service",
    );
    let start = command(
        "systemctl",
        text_args(&["--user", "start", "clipboard-manager"]),
        "Failed to start clipboard-manager",
    );
    assert(reload@.args =~~= text_pieces(seq!["--user"@, "daemon-reload"@]));
    assert(enable@.args =~~= text_pieces(seq!["--user"@, "enable"@, "clipboard-manager"@]));
    assert(start@.args =~~= text_pieces(seq!["--user"@, "start"@, "clipboard-manager"@]));
    let commands = vec![reload, enable, start];
    let dir = location(home, &[".config/systemd/user"]);
    let file = location(home, &[".config/systemd/user", "clipboard-manager.service"]);
    assert(dir@.parts =~= seq![".config/systemd/user"@]);
    assert(file@.parts =~= seq![".config/systemd/user"@, "clipboard-manager.service"@]);
    let content = vec![Piece::Text(service_content(binary_path))];
    let p = InstallPlan {
        create_dir: Some(DirCreate { path: dir, failure: String::from_str("Failed to create systemd user directory") }),
        file: Some(FileWrite { path: file, content, failure: String::from_str("Failed to write systemd service") }),
        commands,
        report: Report::Silent,
    };
    let ghost want = systemd_service_spec(*home, binary_path@);
    assert(p@.commands =~~= want.commands);
    assert(p@.file.unwrap().content =~~= want.file.unwrap().content);
    assert(p@.file =~~= want.file);
    assert(p@.create_dir =~~= want.create_dir);
    assert(p@ =~~= want);
    p
}

/// The systemd steps under the given home directory: `None` (an unknown
/// home directory) is the one input that fails.
pub fn systemd_service_for_home(home: Option<std::path::PathBuf>, binary_path: &str) -> (res: Result<InstallPlan, SetupError>)
    ensures
        match home {
            Some(h) => res matches Ok(p) && p@ == systemd_service_spec(h, binary_path@),
            None => res is Err,
        },
{
    match home {
        None => Err(SetupError::NoHomeDir),
        Some(h) => Ok(systemd_service_plan(&h, binary_path)),
    }
}

/// Registers the program to start at login on Linux as a systemd user
/// service. Fails only where `dirs::home_dir` finds no home directory, which
/// the environment decides; `systemd_service_for_home` states the outcome for
/// each answer.
pub fn setup_autostart_linux(binary_path: &str) -> (res: Result<InstallPlan, SetupError>)
    ensures
        res matches Ok(p) ==> p@ == systemd_service_spec(home_of(p@), binary_path@),
{
    systemd_service_for_home(home_dir(), binary_path)
}

/// The launchd steps for the given home directory and program.
pub fn launch_agent_plan(home: &std::path::PathBuf, binary_path: &str) -> (p: InstallPlan)
    ensures
        p@ == launch_agent_spec(*home, binary_path@),
        p@.file is Some,
        p@.file->Some_0.path == loc(*home, seq!["Library/LaunchAgents/com.clipboard.manager.plist"@]),
        p@.file->Some_0.content == seq![PieceView::Text(PLIST_HEAD@ + binary_path@ + PLIST_TAIL@)],
{
    let ghost file = loc(*home, seq!["Library/LaunchAgents/com.clipboard.manager.plist"@]);
    let target = location(home, &["Library/LaunchAgents/com.clipboard.manager.plist"]);
    assert(target@.parts =~= file.parts);
    let load_args = vec![Piece::Text(String::from_str("load")), Piece::Place(target)];
    assert(pieces(load_args@) =~~= seq![PieceView::Text("load"@), PieceView::Place(file)]);
    let load = command("launchctl", load_args, "Failed to load launchd plist");
    let start = command(
        "launchctl",
        text_args(&["start", "com.clipboard.manager"]),
        "Failed to start clipboard-manager",
    );
    assert(start@.args =~~= text_pieces(seq!["start"@, "com.clipboard.manager"@]));
    let commands = vec![load, start];
    let path = location(home, &["Library/LaunchAgents/com.clipboard.manager.plist"]);
    assert(path@.parts =~= file.parts);
    let content = vec![Piece::Text(launch_agent_plist(binary_path))];
    let p = InstallPlan {
        create_dir: None,
        file: Some(FileWrite { path, content, failure: String::from_str("Failed to write macOS launchd plist") }),
        commands,
        report: Report::Silent,
    };
    let ghost want = launch_agent_spec(*home, binary_path@);
    assert(p@.commands =~~= want.commands);
    assert(p@.file.unwrap().content =~~= want.file.unwrap().content);
    assert(p@.file =~~= want.file);
    assert(p@ =~~= want);
    p
}

/// The launchd steps under the given home directory: `None` (an unknown
/// home directory) is the one input that fails.
pub fn launch_agent_for_home(home: Option<std::path::PathBuf>, binary_path: &str) -> (res: Result<InstallPlan, SetupError>)
    ensures
        match home {
            Some(h) => res matches Ok(p) && p@ == launch_agent_spec(h, binary_path@),
            None => res is Err,
        },
{
    match home {
        None => Err(SetupError::NoHomeDir),
        Some(h) => Ok(launch_agent_plan(&h, binary_path)),
    }
}

/// Registers the program to start at login on macOS as a launchd agent.
/// Fails only where `dirs::home_dir` finds no home directory, which the
/// environment decides; `launch_agent_for_home` states the outcome for each
/// answer.
pub fn setup_autostart_macos(binary_path: &str) -> (res: Result<InstallPlan, SetupError>)
    ensures
        res matches Ok(p) ==> p@ == launch_agent_spec(home_of(p@), binary_path@),
{
    launch_agent_for_home(home_dir(), binary_path)
}

/// Registers the program to start at logon on Windows as a scheduled task.
pub fn setup_autostart_windows(binary_path: &str) -> (p: InstallPlan)
    ensures
        p@ == scheduled_task_spec(binary_path@),
{
    let run = command(
        "schtasks",
        text_args(&["/Create", "/F", "/SC", "ONLOGON", "/TN", "ClipboardManager", "/TR", binary_path, "/RL", "LOW"]),
        "Failed to create Windows scheduled task",
    );
    assert(run@.args =~~= text_pieces(
        seq![
            "/Create"@,
            "/F"@,
            "/SC"@,
            "ONLOGON"@,
            "/TN"@,
            "ClipboardManager"@,
            "/TR"@,
            binary_path@,
            "/RL"@,
            "LOW"@,
        ],
    ));
    let commands = vec![run];
    let p = InstallPlan { create_dir: None, file: None, commands, report: Report::Silent };
    assert(p@.commands =~~= scheduled_task_spec(binary_path@).commands);
    p
}

/// Registers the program to start at login in the way of the given
/// platform.
pub fn setup_autostart(platform: Platform, binary_path: &str) -> (res: Result<InstallPlan, SetupError>)
    ensures
        res matches Ok(p) ==> match platform {
            Platform::Linux => p@ == systemd_service_spec(home_of(p@), binary_path@),
            Platform::MacOs => p@ == launch_agent_spec(home_of(p@), binary_path@),
            Platform::Windows => p@ == scheduled_task_spec(binary_path@),
        },
        platform is Windows ==> res is Ok,
{
    match platform {
        Platform::Linux => setup_autostart_linux(binary_path),
        Platform::MacOs => setup_autostart_macos(binary_path),
        Platform::Windows => Ok(setup_autostart_windows(binary_path)),
    }
}

/// The Linux plan makes `~/.config/systemd/user` and writes
/// `~/.config/systemd/user/clipboard-manager.service`, whose text, however
/// its paths are spelled, is the unit around the given program: the program
/// stands right after `ExecStart=`.
pub proof fn lemma_systemd_unit_runs_binary(
    home: std::path::PathBuf,
    binary: Seq<char>,
    spell: spec_fn(LocationView) -> Seq<char>,
)
    ensures
        systemd_service_spec(home, binary).create_dir is Some,
        systemd_service_spec(home, binary).create_dir->Some_0.path == loc(home, seq![".config/systemd/user"@]),
        systemd_service_spec(home, binary).file is Some,
        systemd_service_spec(home, binary).file->Some_0.path == loc(
            home,
            seq![".config/systemd/user"@, "clipboard-manager.service"@],
        ),
        render(systemd_service_spec(home, binary).file->Some_0.content, spell) == SERVICE_HEAD@ + binary
            + SERVICE_TAIL@,
        render(systemd_service_spec(home, binary).file->Some_0.content, spell).subrange(
            SERVICE_HEAD@.len() as int,
            (SERVICE_HEAD@.len() + binary.len()) as int,
        ) == binary,
{
    let t = SERVICE_HEAD@ + binary + SERVICE_TAIL@;
    lemma_render_one(PieceView::Text(service_text(binary)), spell);
    assert(t.subrange(SERVICE_HEAD@.len() as int, (SERVICE_HEAD@.len() + binary.len()) as int) =~= binary);
}

/// The macOS plan writes `~/Library/LaunchAgents/com.clipboard.manager.plist`,
/// whose text is the property list around the given program, then loads
/// that very file.
pub proof fn lemma_launch_agent_runs_binary(
    home: std::path::PathBuf,
    binary: Seq<char>,
    spell: spec_fn(LocationView) -> Seq<char>,
)
    ensures
        launch_agent_spec(home, binary).file is Some,
        launch_agent_spec(home, binary).file->Some_0.path == loc(
            home,
            seq!["Library/LaunchAgents/com.clipboard.manager.plist"@],
        ),
        render(launch_agent_spec(home, binary).file->Some_0.content, spell) == PLIST_HEAD@ + binary + PLIST_TAIL@,
        launch_agent_spec(home, binary).commands.len() == 2,
        launch_agent_spec(home, binary).commands[0].program == "launchctl"@,
        launch_agent_spec(home, binary).commands[0].args == seq![
            PieceView::Text("load"@),
            PieceView::Place(launch_agent_spec(home, binary).file->Some_0.path),
        ],
{
    lemma_render_one(PieceView::Text(plist_text(binary)), spell);
}

/// The Windows plan runs `schtasks` once, with the given program as the task
/// to run (the argument after `/TR`).
pub proof fn lemma_scheduled_task_runs_binary(binary: Seq<char>)
    ensures
        scheduled_task_spec(binary).commands.len() == 1,
        scheduled_task_spec(binary).commands[0].program == "schtasks"@,
        scheduled_task_spec(binary).commands[0].args.len() == 10,
        scheduled_task_spec(binary).commands[0].args[6] == PieceView::Text("/TR"@),
        scheduled_task_spec(binary).commands[0].args[7] == PieceView::Text(binary),
{
}

} // verus!
