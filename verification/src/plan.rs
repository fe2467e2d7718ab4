use vstd::prelude::*;
use vstd::string::StringExecFns;

verus! {

#[verifier::external_type_specification]
#[verifier::external_body]
pub struct ExPathBuf(std::path::PathBuf);

/// A path: `base` with each of `parts` joined onto it in turn, as
/// `std::path::Path::join` joins them on the platform that runs the plan.
pub struct Location {
    pub base: std::path::PathBuf,
    pub parts: Vec<String>,
}

/// A piece of a text or of a command argument: plain text, or a path that is
/// spelled out once joined.
pub enum Piece {
    Text(String),
    Place(Location),
}

/// A directory to create where it is missing, and the message to fail with
/// where that cannot be done.
pub struct DirCreate {
    pub path: Location,
    pub failure: String,
}

/// A file to write (its content made of pieces), and the message to fail
/// with where that cannot be done.
pub struct FileWrite {
    pub path: Location,
    pub content: Vec<Piece>,
    pub failure: String,
}

/// A program to run with its arguments (each made of one piece), and the
/// message to fail with where it cannot be started.
pub struct CommandRun {
    pub program: String,
    pub args: Vec<Piece>,
    pub failure: String,
}

/// What to print once the steps are done.
pub enum Report {
    Silent,
    /// Print this line.
    Line(String),
    /// Print the text followed by the path, shown as Rust shows a path with
    /// `{:?}`.
    PathNotice(String, Location),
    /// Print the first line where the last program ran successfully, the
    /// second otherwise.
    ByStatus(String, String),
}

/// The steps of an installation, in order: create the directory, write the
/// file, run the programs one after the other, then report.
pub struct InstallPlan {
    pub create_dir: Option<DirCreate>,
    pub file: Option<FileWrite>,
    pub commands: Vec<CommandRun>,
    pub report: Report,
}

pub struct LocationView {
    pub base: std::path::PathBuf,
    pub parts: Seq<Seq<char>>,
}

pub enum PieceView {
    Text(Seq<char>),
    Place(LocationView),
}

pub struct DirCreateView {
    pub path: LocationView,
    pub failure: Seq<char>,
}

pub struct FileWriteView {
    pub path: LocationView,
    pub content: Seq<PieceView>,
    pub failure: Seq<char>,
}

pub struct CommandView {
    pub program: Seq<char>,
    pub args: Seq<PieceView>,
    pub failure: Seq<char>,
}

pub enum ReportView {
    Silent,
    Line(Seq<char>),
    PathNotice(Seq<char>, LocationView),
    ByStatus(Seq<char>, Seq<char>),
}

pub struct PlanView {
    pub create_dir: Option<DirCreateView>,
    pub file: Option<FileWriteView>,
    pub commands: Seq<CommandView>,
    pub report: ReportView,
}

/// The texts of a list of strings.
pub open spec fn texts(v: Seq<String>) -> Seq<Seq<char>> {
    v.map_values(|s: String| s@)
}

/// The location `base` joined with `parts`.
pub open spec fn loc(base: std::path::PathBuf, parts: Seq<Seq<char>>) -> LocationView {
    LocationView { base, parts }
}

/// Plain-text pieces, one per text.
pub open spec fn text_pieces(items: Seq<Seq<char>>) -> Seq<PieceView> {
    items.map_values(|t: Seq<char>| PieceView::Text(t))
}

/// The base path of the file that a plan writes: the home directory that
/// the plan was made for (left open where the plan writes no file).
pub open spec fn home_of(p: PlanView) -> std::path::PathBuf {
    p.file->Some_0.path.base
}

impl View for Location {
    type V = LocationView;

    open spec fn view(&self) -> LocationView {
        LocationView { base: self.base, parts: texts(self.parts@) }
    }
}

impl View for Piece {
    type V = PieceView;

    open spec fn view(&self) -> PieceView {
        match self {
            Piece::Text(t) => PieceView::Text(t@),
            Piece::Place(l) => PieceView::Place(l@),
        }
    }
}

/// The views of a list of pieces.
pub open spec fn pieces(v: Seq<Piece>) -> Seq<PieceView> {
    v.map_values(|p: Piece| p@)
}

impl View for DirCreate {
    type V = DirCreateView;

    open spec fn view(&self) -> DirCreateView {
        DirCreateView { path: self.path@, failure: self.failure@ }
    }
}

impl View for FileWrite {
    type V = FileWriteView;

    open spec fn view(&self) -> FileWriteView {
        FileWriteView { path: self.path@, content: pieces(self.content@), failure: self.failure@ }
    }
}

impl View for CommandRun {
    type V = CommandView;

    open spec fn view(&self) -> CommandView {
        CommandView { program: self.program@, args: pieces(self.args@), failure: self.failure@ }
    }
}

impl View for Report {
    type V = ReportView;

    open spec fn view(&self) -> ReportView {
        match self {
            Report::Silent => ReportView::Silent,
            Report::Line(s) => ReportView::Line(s@),
            Report::PathNotice(s, p) => ReportView::PathNotice(s@, p@),
            Report::ByStatus(a, b) => ReportView::ByStatus(a@, b@),
        }
    }
}

impl View for InstallPlan {
    type V = PlanView;

    open spec fn view(&self) -> PlanView {
        PlanView {
            create_dir: match self.create_dir {
                Some(d) => Some(d@),
                None => None,
            },
            file: match self.file {
                Some(f) => Some(f@),
                None => None,
            },
            commands: self.commands@.map_values(|c: CommandRun| c@),
            report: self.report@,
        }
    }
}

/// An owned copy of each text, in order.
pub fn to_strings(items: &[&str]) -> (res: Vec<String>)
    ensures
        texts(res@) == items@.map_values(|s: &str| s@),
{
    let mut res: Vec<String> = Vec::new();
    let mut i: usize = 0;
    while i < items.len()
        invariant
            i <= items.len(),
            res@.len() == i,
            texts(res@) == items@.take(i as int).map_values(|s: &str| s@),
        decreases items.len() - i,
    {
        let ghost before = res@;
        res.push(String::from_str(items[i]));
        proof {
            assert forall|j: int| 0 <= j < i + 1 implies #[trigger] texts(res@)[j]
                == items@.take(i + 1).map_values(|s: &str| s@)[j] by {
                if j < i {
                    assert(res@[j] == before[j]);
                    assert(texts(before)[j] == items@.take(i as int).map_values(|s: &str| s@)[j]);
                }
            }
            assert(texts(res@) =~= items@.take(i + 1).map_values(|s: &str| s@));
        }
        i += 1;
    }
    assert(items@.take(items.len() as int) =~= items@);
    res
}

/// A plain-text piece for each text, in order.
pub fn text_args(items: &[&str]) -> (res: Vec<Piece>)
    ensures
        pieces(res@) == text_pieces(items@.map_values(|s: &str| s@)),
{
    let mut res: Vec<Piece> = Vec::new();
    let mut i: usize = 0;
    while i < items.len()
        invariant
            i <= items.len(),
            res@.len() == i,
            pieces(res@) == text_pieces(items@.take(i as int).map_values(|s: &str| s@)),
        decreases items.len() - i,
    {
        let ghost before = res@;
        res.push(Piece::Text(String::from_str(items[i])));
        proof {
            assert forall|j: int| 0 <= j < i + 1 implies #[trigger] pieces(res@)[j]
                == text_pieces(items@.take(i + 1).map_values(|s: &str| s@))[j] by {
                if j < i {
                    assert(res@[j] == before[j]);
                    assert(pieces(before)[j] == text_pieces(items@.take(i as int).map_values(|s: &str| s@))[j]);
                }
            }
            assert(pieces(res@) =~= text_pieces(items@.take(i + 1).map_values(|s: &str| s@)));
        }
        i += 1;
    }
    assert(items@.take(items.len() as int) =~= items@);
    res
}

/// The location `base` joined with `parts`.
pub fn location(base: &std::path::PathBuf, parts: &[&str]) -> (l: Location)
    ensures
        l@ == loc(*base, parts@.map_values(|s: &str| s@)),
{
    Location { base: path_clone(base), parts: to_strings(parts) }
}

/// A program run.
pub fn command(program: &str, args: Vec<Piece>, failure: &str) -> (c: CommandRun)
    ensures
        c@ == (CommandView { program: program@, args: pieces(args@), failure: failure@ }),
{
    CommandRun { program: String::from_str(program), args, failure: String::from_str(failure) }
}

/// `a`, `b` and `c` one after the other.
pub fn concat3(a: &str, b: &str, c: &str) -> (s: String)
    ensures
        s@ == a@ + b@ + c@,
{
    let mut s = String::from_str(a);
    s.append(b);
    s.append(c);
    s
}

/// The line that a report prints, if any; `last_ok` tells whether the last
/// program ran successfully.
pub open spec fn report_text(r: ReportView, last_ok: bool) -> Option<Seq<char>> {
    match r {
        ReportView::Silent => None,
        ReportView::Line(t) => Some(t),
        ReportView::PathNotice(_, _) => None,
        ReportView::ByStatus(a, b) => Some(if last_ok { a } else { b }),
    }
}

/// The line to print once the plan has run; `last_ok` tells whether the last
/// program ran successfully. `None` where nothing is printed, or where the
/// report is a path notice (printed with the path's own formatting).
pub fn report_line(report: &Report, last_ok: bool) -> (line: Option<String>)
    ensures
        match line {
            Some(l) => Some(l@),
            None => None,
        } == report_text(report@, last_ok),
{
    match report {
        Report::Silent => None,
        Report::Line(t) => Some(t.clone()),
        Report::PathNotice(_, _) => None,
        Report::ByStatus(a, b) => if last_ok {
            Some(a.clone())
        } else {
            Some(b.clone())
        },
    }
}

/// The operating systems that the program knows how to install itself on.
pub enum Platform {
    Linux,
    MacOs,
    Windows,
}

/// Why a plan could not be made.
pub enum SetupError {
    /// The home directory of the user is unknown.
    NoHomeDir,
}

/// Calls `dirs::home_dir`, which reads the environment (`$HOME`, the user
/// database, or the system's known folders): nothing is claimed of what
/// comes back.
#[verifier::external_body]
pub(crate) fn home_dir() -> Option<std::path::PathBuf> {
    dirs::home_dir()
}

/// Calls `PathBuf::clone`: the copy is the same path.
#[verifier::external_body]
pub(crate) fn path_clone(p: &std::path::PathBuf) -> (r: std::path::PathBuf)
    ensures
        r == *p,
{
    p.clone()
}

} // verus!
