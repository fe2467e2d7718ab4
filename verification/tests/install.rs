use std::path::PathBuf;

use clipboard_manager::autostart;
use clipboard_manager::content::{desktop_entry, launch_agent_plist, login_item_command, service_content};
use clipboard_manager::icon::{
    desktop_shortcut_for_home, linux_shortcut_plan, macos_shortcut_plan, setup_desktop_shortcut,
    windows_shortcut_plan,
};
use clipboard_manager::plan::{report_line, CommandRun, InstallPlan, Location, Piece, Platform, Report};
use clipboard_manager::startup;

const BIN: &str = "/opt/clip/bin/clipboard-manager";

fn spell(l: &Location) -> String {
    let mut p = l.base.clone();
    for part in &l.parts {
        p = p.join(part);
    }
    p.to_string_lossy().into_owned()
}

fn render(ps: &[Piece]) -> String {
    ps.iter()
        .map(|p| match p {
            Piece::Text(t) => t.clone(),
            Piece::Place(l) => spell(l),
        })
        .collect()
}

fn cmd(c: &CommandRun) -> (String, Vec<String>, String) {
    (c.program.clone(), c.args.iter().map(|a| render(std::slice::from_ref(a))).collect(), c.failure.clone())
}

fn cmds(p: &InstallPlan) -> Vec<(String, Vec<String>, String)> {
    p.commands.iter().map(cmd).collect()
}

fn s(items: &[&str]) -> Vec<String> {
    items.iter().map(|x| x.to_string()).collect()
}

fn file_path(p: &InstallPlan) -> String {
    spell(&p.file.as_ref().unwrap().path)
}

fn file_text(p: &InstallPlan) -> String {
    render(&p.file.as_ref().unwrap().content)
}

fn dir_path(p: &InstallPlan) -> String {
    spell(&p.create_dir.as_ref().unwrap().path)
}

fn home_join(home: &str, parts: &[&str]) -> String {
    let mut p = PathBuf::from(home);
    for part in parts {
        p = p.join(part);
    }
    p.to_string_lossy().into_owned()
}

#[test]
fn service_unit_text() {
    let expected = format!(
        "[Unit]
        Description=Clipboard Manager
        After=network.target

        [Service]
        ExecStart={}
        Restart=always
        Environment=DISPLAY=:0

        [Install]
        WantedBy=default.target",
        BIN
    );
    assert_eq!(service_content(BIN), expected);
}

#[test]
fn login_item_text() {
    let expected = format!(
        "osascript -e 'tell application \"System Events\" to make login item at end with properties {{name:\"Clipboard Manager\", path:\"{}\", hidden:false}}'",
        BIN
    );
    assert_eq!(login_item_command(BIN), expected);
}

#[test]
fn plist_text() {
    let expected = format!(
        "<?xml version=\"1.0\" encoding=\"UTF-8\"?>
<!DOCTYPE plist PUBLIC \"-//Apple//DTD PLIST 1.0//EN\" \"http://www.apple.com/DTDs/PropertyList-1.0.dtd\">
<plist version=\"1.0\">
    <dict>
        <key>Label</key>
        <string>com.clipboard.manager</string>
        <key>ProgramArguments</key>
        <array>
            <string>{}</string>
        </array>
        <key>RunAtLoad</key>
        <true/>
        <key>KeepAlive</key>
        <true/>
    </dict>
</plist>",
        BIN
    );
    assert_eq!(launch_agent_plist(BIN), expected);
}

#[test]
fn desktop_entry_text() {
    let expected = format!(
        "[Desktop Entry]
        Type=Application
        Name=Clipboard Manager
        Exec={}
        Icon=edit-paste
        Terminal=false
        Categories=Utility;",
        BIN
    );
    assert_eq!(desktop_entry(BIN), expected);
}

#[test]
fn linux_autostart_steps() {
    let p = autostart::linux_autostart_plan(&PathBuf::from("/home/u"), BIN);
    assert_eq!(dir_path(&p), "/home/u/.config/systemd/user");
    assert_eq!(p.create_dir.as_ref().unwrap().failure, "Failed to create systemd directory");
    assert_eq!(file_path(&p), "/home/u/.config/systemd/user/clipboard-manager.service");
    assert_eq!(file_text(&p), service_content(BIN));
    assert_eq!(p.file.as_ref().unwrap().failure, "Failed to write systemd service");
    assert_eq!(
        cmds(&p),
        vec![
            ("systemctl".to_string(), s(&["--user", "enable", "clipboard-manager"]), "Failed to enable systemd service".to_string()),
            ("systemctl".to_string(), s(&["--user", "start", "clipboard-manager"]), "Failed to start clipboard-manager".to_string()),
        ]
    );
    assert_eq!(report_line(&p.report, true), Some("Clipboard Manager set to auto-start on boot.".to_string()));
}

#[test]
fn windows_autostart_steps() {
    let h = "/home/u";
    let p = autostart::windows_autostart_plan(&PathBuf::from(h), "C:\\clip.exe");
    assert!(p.create_dir.is_none());
    let startup = "AppData/Roaming/Microsoft/Windows/Start Menu/Programs/Startup";
    let script = home_join(h, &[startup, "create_autostart.ps1"]);
    let shortcut = home_join(h, &[startup, "Clipboard Manager.lnk"]);
    assert_eq!(file_path(&p), script);
    let expected = format!(
        "$WScriptShell = New-Object -ComObject WScript.Shell
        $Shortcut = $WScriptShell.CreateShortcut('{}')
        $Shortcut.TargetPath = '{}'
        $Shortcut.Save()",
        shortcut, "C:\\clip.exe"
    );
    assert_eq!(file_text(&p), expected);
    assert_eq!(
        cmds(&p),
        vec![(
            "powershell".to_string(),
            vec!["-ExecutionPolicy".to_string(), "Bypass".to_string(), "-File".to_string(), script],
            "Failed to execute PowerShell script".to_string()
        )]
    );
    assert_eq!(report_line(&p.report, false), Some("Clipboard Manager set to auto-start on Windows boot.".to_string()));
}

#[test]
fn macos_autostart_reports_by_status() {
    let p = autostart::setup_autostart_macos(BIN);
    assert!(p.create_dir.is_none() && p.file.is_none());
    assert_eq!(cmds(&p), vec![("sh".to_string(), vec!["-c".to_string(), login_item_command(BIN)], "Failed to execute AppleScript".to_string())]);
    assert_eq!(report_line(&p.report, true), Some("Clipboard Manager added to macOS startup.".to_string()));
    assert_eq!(report_line(&p.report, false), Some("Failed to add Clipboard Manager to macOS startup.".to_string()));
}

#[test]
fn setup_with_home_uses_the_home_directory() {
    let home = dirs::home_dir().map(|p| p.to_string_lossy().into_owned());
    match autostart::setup_autostart_linux(BIN) {
        Ok(p) => {
            let h = home.clone().unwrap();
            assert_eq!(file_path(&p), home_join(&h, &[".config/systemd/user", "clipboard-manager.service"]));
        }
        Err(_) => assert!(home.is_none()),
    }
    match autostart::setup_autostart_windows("C:\\clip.exe") {
        Ok(p) => {
            assert!(file_path(&p).ends_with("create_autostart.ps1"));
            assert!(file_text(&p).contains("Clipboard Manager.lnk"));
        }
        Err(_) => assert!(home.is_none()),
    }
}

#[test]
fn shortcut_steps() {
    let p = linux_shortcut_plan(&PathBuf::from("/home/u"), BIN);
    assert_eq!(dir_path(&p), "/home/u/.local/share/applications");
    assert_eq!(p.create_dir.as_ref().unwrap().failure, "Failed to create applications directory");
    assert_eq!(file_path(&p), "/home/u/.local/share/applications/clipboard-manager.desktop");
    assert_eq!(file_text(&p), desktop_entry(BIN));
    assert_eq!(
        cmds(&p),
        vec![("chmod".to_string(), s(&["+x", "/home/u/.local/share/applications/clipboard-manager.desktop"]), "Failed to make desktop shortcut executable".to_string())]
    );
    match &p.report {
        Report::PathNotice(t, path) => {
            assert_eq!(t, "Desktop shortcut created at ");
            assert_eq!(spell(path), "/home/u/.local/share/applications/clipboard-manager.desktop");
        }
        _ => panic!("expected a path notice"),
    }
    assert_eq!(report_line(&p.report, true), None);

    let w = windows_shortcut_plan(&PathBuf::from("/home/u"), "C:\\clip.exe");
    assert_eq!(file_path(&w), "/home/u/Desktop/create_shortcut.ps1");
    assert!(file_text(&w).contains("CreateShortcut('/home/u/Desktop/Clipboard Manager.lnk')"));
    assert_eq!(w.file.as_ref().unwrap().failure, "Failed to write PowerShell script");
    assert_eq!(cmds(&w)[0].1, s(&["-ExecutionPolicy", "Bypass", "-File", "/home/u/Desktop/create_shortcut.ps1"]));

    let m = macos_shortcut_plan(&PathBuf::from("/Users/u"), "/Apps/clip");
    assert_eq!(file_path(&m), "/Users/u/Desktop/create_alias.scpt");
    assert_eq!(
        file_text(&m),
        "tell application \"Finder\" to make alias file to POSIX file \"/Apps/clip\" at POSIX file \"/Users/u/Desktop\""
    );
    assert_eq!(cmds(&m), vec![("osascript".to_string(), s(&["/Users/u/Desktop/create_alias.scpt"]), "Failed to execute AppleScript".to_string())]);
    match &m.report {
        Report::PathNotice(_, path) => assert_eq!(spell(path), "/Users/u/Desktop/Clipboard Manager.app"),
        _ => panic!("expected a path notice"),
    }
}

#[test]
fn desktop_shortcut_with_home() {
    if let Ok(p) = setup_desktop_shortcut(Platform::Linux, BIN) {
        assert!(file_path(&p).ends_with("clipboard-manager.desktop"));
    }
    if let Ok(p) = setup_desktop_shortcut(Platform::MacOs, BIN) {
        assert!(file_path(&p).ends_with("create_alias.scpt"));
    }
}

#[test]
fn startup_steps() {
    let p = startup::systemd_service_plan(&PathBuf::from("/home/u"), BIN);
    assert_eq!(dir_path(&p), "/home/u/.config/systemd/user");
    assert_eq!(p.create_dir.as_ref().unwrap().failure, "Failed to create systemd user directory");
    assert_eq!(file_path(&p), "/home/u/.config/systemd/user/clipboard-manager.service");
    assert_eq!(cmds(&p)[0], ("systemctl".to_string(), s(&["--user", "daemon-reload"]), "Failed to reload systemd daemon".to_string()));
    assert_eq!(cmds(&p).len(), 3);
    assert_eq!(report_line(&p.report, true), None);

    let m = startup::launch_agent_plan(&PathBuf::from("/Users/u"), "/Apps/clip");
    assert_eq!(file_path(&m), "/Users/u/Library/LaunchAgents/com.clipboard.manager.plist");
    assert_eq!(file_text(&m), launch_agent_plist("/Apps/clip"));
    assert_eq!(cmds(&m)[0].1, s(&["load", "/Users/u/Library/LaunchAgents/com.clipboard.manager.plist"]));
    assert_eq!(cmds(&m)[1].1, s(&["start", "com.clipboard.manager"]));

    let w = startup::setup_autostart_windows("C:\\clip.exe");
    assert_eq!(
        cmds(&w),
        vec![(
            "schtasks".to_string(),
            s(&["/Create", "/F", "/SC", "ONLOGON", "/TN", "ClipboardManager", "/TR", "C:\\clip.exe", "/RL", "LOW"]),
            "Failed to create Windows scheduled task".to_string()
        )]
    );
    assert!(startup::setup_autostart(Platform::Windows, "C:\\clip.exe").is_ok());
}

#[test]
fn plans_for_a_given_home() {
    assert!(autostart::linux_autostart_for_home(None, BIN).is_err());
    assert!(autostart::windows_autostart_for_home(None, BIN).is_err());
    assert!(startup::systemd_service_for_home(None, BIN).is_err());
    assert!(startup::launch_agent_for_home(None, BIN).is_err());
    assert!(desktop_shortcut_for_home(None, Platform::Linux, BIN).is_err());

    let p = autostart::linux_autostart_for_home(Some(PathBuf::from("/home/a")), BIN).ok().unwrap();
    assert_eq!(dir_path(&p), "/home/a/.config/systemd/user");
    assert_eq!(file_path(&p), "/home/a/.config/systemd/user/clipboard-manager.service");
    let m = startup::launch_agent_for_home(Some(PathBuf::from("/Users/a")), BIN).ok().unwrap();
    assert_eq!(file_path(&m), "/Users/a/Library/LaunchAgents/com.clipboard.manager.plist");
    let d = desktop_shortcut_for_home(Some(PathBuf::from("/home/a")), Platform::Linux, BIN).ok().unwrap();
    assert_eq!(file_path(&d), "/home/a/.local/share/applications/clipboard-manager.desktop");
    let w = autostart::windows_autostart_for_home(Some(PathBuf::from("/home/a")), BIN).ok().unwrap();
    assert!(file_path(&w).ends_with("create_autostart.ps1"));
}
