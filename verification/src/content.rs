use vstd::prelude::*;
use vstd::string::StringExecFns;
use crate::plan::{concat3, pieces, LocationView, Location, Piece, PieceView};

verus! {

pub const SERVICE_HEAD: &'static str = "[Unit]\n        Description=Clipboard Manager\n        After=network.target\n\n        [Service]\n        ExecStart=";

pub const SERVICE_TAIL: &'static str = "\n        Restart=always\n        Environment=DISPLAY=:0\n\n        [Install]\n        WantedBy=default.target";

pub const SHORTCUT_SCRIPT_HEAD: &'static str = "$WScriptShell = New-Object -ComObject WScript.Shell\n        $Shortcut = $WScriptShell.CreateShortcut('";

pub const SHORTCUT_SCRIPT_MIDDLE: &'static str = "')\n        $Shortcut.TargetPath = '";

pub const SHORTCUT_SCRIPT_TAIL: &'static str = "'\n        $Shortcut.Save()";

pub const LOGIN_ITEM_HEAD: &'static str = "osascript -e 'tell application \"System Events\" to make login item at end with properties {name:\"Clipboard Manager\", path:\"";

pub const LOGIN_ITEM_TAIL: &'static str = "\", hidden:false}'";

pub const PLIST_HEAD: &'static str = "<?xml version=\"1.0\" encoding=\"UTF-8\"?>\n<!DOCTYPE plist PUBLIC \"-//Apple//DTD PLIST 1.0//EN\" \"http://www.apple.com/DTDs/PropertyList-1.0.dtd\">\n<plist version=\"1.0\">\n    <dict>\n        <key>Label</key>\n        <string>com.clipboard.manager</string>\n        <key>ProgramArguments</key>\n        <array>\n            <string>";

pub const PLIST_TAIL: &'static str = "</string>\n        </array>\n        <key>RunAtLoad</key>\n        <true/>\n        <key>KeepAlive</key>\n        <true/>\n    </dict>\n</plist>";

pub const DESKTOP_ENTRY_HEAD: &'static str = "[Desktop Entry]\n        Type=Application\n        Name=Clipboard Manager\n        Exec=";

pub const DESKTOP_ENTRY_TAIL: &'static str = "\n        Icon=edit-paste\n        Terminal=false\n        Categories=Utility;";

pub const ALIAS_SCRIPT_HEAD: &'static str = "tell application \"Finder\" to make alias file to POSIX file \"";

pub const ALIAS_SCRIPT_MIDDLE: &'static str = "\" at POSIX file \"";

pub const ALIAS_SCRIPT_TAIL: &'static str = "\"";

/// The systemd unit that starts the program at login.
pub open spec fn service_text(binary: Seq<char>) -> Seq<char> {
    SERVICE_HEAD@ + binary + SERVICE_TAIL@
}

pub fn service_content(binary_path: &str) -> (s: String)
    ensures
        s@ == service_text(binary_path@),
{
    concat3(SERVICE_HEAD, binary_path, SERVICE_TAIL)
}

/// The PowerShell script that makes a shortcut at `shortcut` to `binary`.
pub open spec fn shortcut_script_text(shortcut: Seq<char>, binary: Seq<char>) -> Seq<char> {
    SHORTCUT_SCRIPT_HEAD@ + shortcut + SHORTCUT_SCRIPT_MIDDLE@ + binary + SHORTCUT_SCRIPT_TAIL@
}

/// The same script, with the shortcut's path left to be spelled out.
pub open spec fn shortcut_script_pieces(shortcut: LocationView, binary: Seq<char>) -> Seq<PieceView> {
    seq![
        PieceView::Text(SHORTCUT_SCRIPT_HEAD@),
        PieceView::Place(shortcut),
        PieceView::Text(SHORTCUT_SCRIPT_MIDDLE@ + binary + SHORTCUT_SCRIPT_TAIL@),
    ]
}

pub fn shortcut_script(shortcut: Location, binary_path: &str) -> (v: Vec<Piece>)
    ensures
        pieces(v@) == shortcut_script_pieces(shortcut@, binary_path@),
{
    let ghost place = shortcut@;
    let v = vec![
        Piece::Text(String::from_str(SHORTCUT_SCRIPT_HEAD)),
        Piece::Place(shortcut),
        Piece::Text(concat3(SHORTCUT_SCRIPT_MIDDLE, binary_path, SHORTCUT_SCRIPT_TAIL)),
    ];
    assert(pieces(v@) =~~= shortcut_script_pieces(place, binary_path@));
    v
}

/// The shell command that adds `binary` to the macOS login items.
pub open spec fn login_item_text(binary: Seq<char>) -> Seq<char> {
    LOGIN_ITEM_HEAD@ + binary + LOGIN_ITEM_TAIL@
}

pub fn login_item_command(binary_path: &str) -> (s: String)
    ensures
        s@ == login_item_text(binary_path@),
{
    concat3(LOGIN_ITEM_HEAD, binary_path, LOGIN_ITEM_TAIL)
}

/// The launchd property list that starts `binary` at login and keeps it
/// alive.
pub open spec fn plist_text(binary: Seq<char>) -> Seq<char> {
    PLIST_HEAD@ + binary + PLIST_TAIL@
}

pub fn launch_agent_plist(binary_path: &str) -> (s: String)
    ensures
        s@ == plist_text(binary_path@),
{
    concat3(PLIST_HEAD, binary_path, PLIST_TAIL)
}

/// The desktop entry that launches `binary`.
pub open spec fn desktop_entry_text(binary: Seq<char>) -> Seq<char> {
    DESKTOP_ENTRY_HEAD@ + binary + DESKTOP_ENTRY_TAIL@
}

pub fn desktop_entry(binary_path: &str) -> (s: String)
    ensures
        s@ == desktop_entry_text(binary_path@),
{
    concat3(DESKTOP_ENTRY_HEAD, binary_path, DESKTOP_ENTRY_TAIL)
}

/// The AppleScript that makes a Finder alias of `binary` in `folder`.
pub open spec fn alias_script_text(binary: Seq<char>, folder: Seq<char>) -> Seq<char> {
    ALIAS_SCRIPT_HEAD@ + binary + ALIAS_SCRIPT_MIDDLE@ + folder + ALIAS_SCRIPT_TAIL@
}

/// The same script, with the folder's path left to be spelled out.
pub open spec fn alias_script_pieces(binary: Seq<char>, folder: LocationView) -> Seq<PieceView> {
    seq![
        PieceView::Text(ALIAS_SCRIPT_HEAD@ + binary + ALIAS_SCRIPT_MIDDLE@),
        PieceView::Place(folder),
        PieceView::Text(ALIAS_SCRIPT_TAIL@),
    ]
}

pub fn alias_script(binary_path: &str, folder: Location) -> (v: Vec<Piece>)
    ensures
        pieces(v@) == alias_script_pieces(binary_path@, folder@),
{
    let ghost place = folder@;
    let v = vec![
        Piece::Text(concat3(ALIAS_SCRIPT_HEAD, binary_path, ALIAS_SCRIPT_MIDDLE)),
        Piece::Place(folder),
        Piece::Text(String::from_str(ALIAS_SCRIPT_TAIL)),
    ];
    assert(pieces(v@) =~~= alias_script_pieces(binary_path@, place));
    v
}

/// A text made of pieces, each path spelled out by `spell`.
pub open spec fn render(ps: Seq<PieceView>, spell: spec_fn(LocationView) -> Seq<char>) -> Seq<char>
    decreases ps.len(),
{
    if ps.len() == 0 {
        Seq::empty()
    } else {
        render(ps.drop_last(), spell) + match ps.last() {
            PieceView::Text(t) => t,
            PieceView::Place(l) => spell(l),
        }
    }
}

/// Once its path is spelled out, the shortcut script is the script for that
/// path.
pub proof fn lemma_shortcut_script_renders(
    shortcut: LocationView,
    binary: Seq<char>,
    spell: spec_fn(LocationView) -> Seq<char>,
)
    ensures
        render(shortcut_script_pieces(shortcut, binary), spell) == shortcut_script_text(spell(shortcut), binary),
{
    let ps = shortcut_script_pieces(shortcut, binary);
    assert(ps.drop_last().drop_last().drop_last() =~= Seq::<PieceView>::empty());
    assert(render(ps, spell) =~= shortcut_script_text(spell(shortcut), binary)) by {
        reveal_with_fuel(render, 4);
    }
}

/// Once its path is spelled out, the alias script is the script for that
/// folder.
pub proof fn lemma_alias_script_renders(
    binary: Seq<char>,
    folder: LocationView,
    spell: spec_fn(LocationView) -> Seq<char>,
)
    ensures
        render(alias_script_pieces(binary, folder), spell) == alias_script_text(binary, spell(folder)),
{
    let ps = alias_script_pieces(binary, folder);
    assert(ps.drop_last().drop_last().drop_last() =~= Seq::<PieceView>::empty());
    assert(render(ps, spell) =~= alias_script_text(binary, spell(folder))) by {
        reveal_with_fuel(render, 4);
    }
}

/// One piece as text, its path spelled out by `spell`.
pub open spec fn piece_text(p: PieceView, spell: spec_fn(LocationView) -> Seq<char>) -> Seq<char> {
    match p {
        PieceView::Text(t) => t,
        PieceView::Place(l) => spell(l),
    }
}

/// A text of one piece is that piece's text.
pub proof fn lemma_render_one(a: PieceView, spell: spec_fn(LocationView) -> Seq<char>)
    ensures
        render(seq![a], spell) == piece_text(a, spell),
{
    assert(seq![a].drop_last() =~= Seq::<PieceView>::empty());
    assert(render(seq![a], spell) =~= piece_text(a, spell)) by {
        reveal_with_fuel(render, 2);
    }
}

/// A text of three pieces is their texts one after the other.
pub proof fn lemma_render_three(a: PieceView, b: PieceView, c: PieceView, spell: spec_fn(LocationView) -> Seq<char>)
    ensures
        render(seq![a, b, c], spell) == piece_text(a, spell) + piece_text(b, spell) + piece_text(c, spell),
{
    let ps = seq![a, b, c];
    assert(ps.drop_last() =~= seq![a, b]);
    assert(ps.drop_last().drop_last() =~= seq![a]);
    assert(ps.drop_last().drop_last().drop_last() =~= Seq::<PieceView>::empty());
    assert(render(ps, spell) =~= piece_text(a, spell) + piece_text(b, spell) + piece_text(c, spell)) by {
        reveal_with_fuel(render, 4);
    }
}

} // verus!
