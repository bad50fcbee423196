//! Virtual workspaces as the window manager lists them, one per line.

use crate::decimal::{parse_decimal, parse_decimal_spec};
use crate::pattern::{captures, groups_view, regex_captures};
use vstd::prelude::*;

verus! {

/// One workspace of the desktop.
#[derive(Debug, PartialEq, Eq)]
pub struct Workspace {
    /// Whether this is the workspace currently shown.
    pub active: bool,
    /// Position in the window manager's list, counted from zero.
    pub idx: usize,
    /// Desktop geometry, width and height.
    pub dg: Option<(isize, isize)>,
    /// Viewport position.
    pub vp: Option<(isize, isize)>,
    /// Usable area: left, top, width, height.
    pub available_area: Option<(isize, isize, isize, isize)>,
    /// The workspace's name.
    pub name: String,
}

/// What a [`Workspace`] holds, with the name as a sequence of characters.
pub struct WorkspaceView {
    pub active: bool,
    pub idx: usize,
    pub dg: Option<(isize, isize)>,
    pub vp: Option<(isize, isize)>,
    pub available_area: Option<(isize, isize, isize, isize)>,
    pub name: Seq<char>,
}

impl View for Workspace {
    type V = WorkspaceView;

    open spec fn view(&self) -> WorkspaceView {
        WorkspaceView {
            active: self.active,
            idx: self.idx,
            dg: self.dg,
            vp: self.vp,
            available_area: self.available_area,
            name: self.name@,
        }
    }
}

impl Clone for Workspace {
    fn clone(&self) -> (copy: Workspace)
        ensures
            copy@ == self@,
    {
        Workspace {
            active: self.active,
            idx: self.idx,
            dg: self.dg,
            vp: self.vp,
            available_area: self.available_area,
            name: self.name.clone(),
        }
    }
}

/// Why a line could not be read as a workspace.
#[derive(Clone, Copy, Debug, PartialEq, Eq, Structural)]
pub enum WorkspaceParseError {
    /// The line does not have the shape of a workspace line, or a part of it is absent.
    FieldMissing,
    /// A part is present but does not hold a value of its kind.
    IncorrectFieldType,
}

/// What is said of each error.
pub open spec fn error_text(e: WorkspaceParseError) -> Seq<char> {
    match e {
        WorkspaceParseError::FieldMissing => "Missing field(s)"@,
        WorkspaceParseError::IncorrectFieldType => "Field type(s) incorrect"@,
    }
}

impl WorkspaceParseError {
    /// The error in words.
    pub fn to_string(&self) -> (text: String)
        ensures
            text@ == error_text(*self),
    {
        match self {
            WorkspaceParseError::FieldMissing => "Missing field(s)".to_owned(),
            WorkspaceParseError::IncorrectFieldType => "Field type(s) incorrect".to_owned(),
        }
    }
}

/// The shape of a workspace line: index, active mark, then the geometry,
/// viewport and usable area (each possibly `N/A`), then the name.
pub const WORKSPACE_PATTERN: &'static str =
    "^(\\d+)\\s+(\\*|-)\\s+DG:\\s+(\\d+x\\d+|N/A)\\s+VP:\\s+(\\d+,\\d+|N/A)\\s+WA:\\s+(\\d+,\\d+\\s\\d+x\\d+|N/A)\\s+(.*)$";

/// Two numbers joined by `x` or a comma.
pub const PAIR_PATTERN: &'static str = "(\\d+)[x,](\\d+)";

/// A position and a size: `left,top widthxheight`.
pub const AREA_PATTERN: &'static str = "(\\d+),(\\d+) (\\d+)x(\\d+)";

/// The text of capture group `i`, if there is such a group and it took part in the match.
pub open spec fn group_text(groups: Seq<Option<Seq<char>>>, i: int) -> Option<Seq<char>> {
    if 0 <= i < groups.len() {
        groups[i]
    } else {
        None
    }
}

/// The number that capture group `i` denotes, if the group is there and holds
/// a run of ASCII digits that fits an `isize`.
pub open spec fn group_number(groups: Seq<Option<Seq<char>>>, i: int) -> Option<isize> {
    match group_text(groups, i) {
        Some(t) => match parse_decimal_spec(t, isize::MAX as int) {
            Some(v) => Some(v as isize),
            None => None,
        },
        None => None,
    }
}

/// The pair that the groups of a [`PAIR_PATTERN`] match denote.
pub open spec fn pair_of_groups(found: Option<Seq<Option<Seq<char>>>>) -> Option<(isize, isize)> {
    match found {
        Some(g) => match (group_number(g, 1), group_number(g, 2)) {
            (Some(a), Some(b)) => Some((a, b)),
            _ => None,
        },
        None => None,
    }
}

/// The area that the groups of an [`AREA_PATTERN`] match denote.
pub open spec fn area_of_groups(found: Option<Seq<Option<Seq<char>>>>) -> Option<
    (isize, isize, isize, isize),
> {
    match found {
        Some(g) => match (
            group_number(g, 1),
            group_number(g, 2),
            group_number(g, 3),
            group_number(g, 4),
        ) {
            (Some(l), Some(t), Some(w), Some(h)) => Some((l, t, w, h)),
            _ => None,
        },
        None => None,
    }
}

/// What the text of a geometry or viewport part stands for.
pub open spec fn pair_field(text: Seq<char>) -> Result<Option<(isize, isize)>, WorkspaceParseError> {
    if text == "N/A"@ {
        Ok(None)
    } else {
        match pair_of_groups(regex_captures(PAIR_PATTERN@, text)) {
            Some(p) => Ok(Some(p)),
            None => Err(WorkspaceParseError::IncorrectFieldType),
        }
    }
}

/// What the text of the usable-area part stands for.
pub open spec fn area_field(text: Seq<char>) -> Result<
    Option<(isize, isize, isize, isize)>,
    WorkspaceParseError,
> {
    if text == "N/A"@ {
        Ok(None)
    } else {
        match area_of_groups(regex_captures(AREA_PATTERN@, text)) {
            Some(a) => Ok(Some(a)),
            None => Err(WorkspaceParseError::IncorrectFieldType),
        }
    }
}

/// What the text of the active mark stands for.
pub open spec fn active_field(text: Seq<char>) -> Result<bool, WorkspaceParseError> {
    if text == "*"@ {
        Ok(true)
    } else if text == "-"@ {
        Ok(false)
    } else {
        Err(WorkspaceParseError::IncorrectFieldType)
    }
}

/// What the text of the index part stands for.
pub open spec fn index_field(text: Seq<char>) -> Result<usize, WorkspaceParseError> {
    match parse_decimal_spec(text, usize::MAX as int) {
        Some(v) => Ok(v as usize),
        None => Err(WorkspaceParseError::IncorrectFieldType),
    }
}

/// A part that must be there: its text, or `FieldMissing`.
pub open spec fn required(text: Option<Seq<char>>) -> Result<Seq<char>, WorkspaceParseError> {
    match text {
        Some(t) => Ok(t),
        None => Err(WorkspaceParseError::FieldMissing),
    }
}

/// The workspace that the capture groups of a [`WORKSPACE_PATTERN`] match
/// denote. The parts are read in the order index, active mark, geometry,
/// viewport, usable area, and the first part at fault decides the error: a
/// part that is absent is `FieldMissing`, one that does not hold a value of
/// its kind is `IncorrectFieldType`. An absent name is the empty name.
pub open spec fn workspace_of_groups(g: Seq<Option<Seq<char>>>) -> Result<
    WorkspaceView,
    WorkspaceParseError,
> {
    match required(group_text(g, 1)) {
        Err(e) => Err(e),
        Ok(t1) => match index_field(t1) {
            Err(e) => Err(e),
            Ok(idx) => match required(group_text(g, 2)) {
                Err(e) => Err(e),
                Ok(t2) => match active_field(t2) {
                    Err(e) => Err(e),
                    Ok(active) => match required(group_text(g, 3)) {
                        Err(e) => Err(e),
                        Ok(t3) => match pair_field(t3) {
                            Err(e) => Err(e),
                            Ok(dg) => match required(group_text(g, 4)) {
                                Err(e) => Err(e),
                                Ok(t4) => match pair_field(t4) {
                                    Err(e) => Err(e),
                                    Ok(vp) => match required(group_text(g, 5)) {
                                        Err(e) => Err(e),
                                        Ok(t5) => match area_field(t5) {
                                            Err(e) => Err(e),
                                            Ok(available_area) => Ok(
                                                WorkspaceView {
                                                    active,
                                                    idx,
                                                    dg,
                                                    vp,
                                                    available_area,
                                                    name: match group_text(g, 6) {
                                                        Some(n) => n,
                                                        None => Seq::empty(),
                                                    },
                                                },
                                            ),
                                        },
                                    },
                                },
                            },
                        },
                    },
                },
            },
        },
    }
}

/// The workspace that a line denotes: `FieldMissing` when the line does not
/// have the shape of [`WORKSPACE_PATTERN`], otherwise what its parts denote.
pub open spec fn workspace_of_line(line: Seq<char>) -> Result<WorkspaceView, WorkspaceParseError> {
    match regex_captures(WORKSPACE_PATTERN@, line) {
        None => Err(WorkspaceParseError::FieldMissing),
        Some(g) => workspace_of_groups(g),
    }
}

/// The text of capture group `i`, if there is such a group and it took part in the match.
pub fn group<'a>(groups: &'a Vec<Option<String>>, i: usize) -> (text: Option<&'a str>)
    ensures
        text is Some == group_text(groups_view(groups@), i as int) is Some,
        text matches Some(t) ==> group_text(groups_view(groups@), i as int) == Some(t@),
{
    if i < groups.len() {
        match &groups[i] {
            Some(s) => Some(s.as_str()),
            None => None,
        }
    } else {
        None
    }
}

/// The number in capture group `i`.
pub fn number(groups: &Vec<Option<String>>, i: usize) -> (n: Option<isize>)
    ensures
        n == group_number(groups_view(groups@), i as int),
{
    match group(groups, i) {
        Some(t) => match parse_decimal(t, isize::MAX as u64) {
            Some(v) => Some(v as isize),
            None => None,
        },
        None => None,
    }
}

/// The pair of numbers in groups 1 and 2 of a match, if there is a match and both are numbers.
pub fn pair_from_groups(found: &Option<Vec<Option<String>>>) -> (pair: Option<(isize, isize)>)
    ensures
        pair == pair_of_groups(
            match *found {
                Some(g) => Some(groups_view(g@)),
                None => None,
            },
        ),
{
    match found {
        Some(g) => {
            let a = number(g, 1);
            let b = number(g, 2);
            match (a, b) {
                (Some(a), Some(b)) => Some((a, b)),
                _ => None,
            }
        },
        None => None,
    }
}

/// The four numbers in groups 1 to 4 of a match, if there is a match and all are numbers.
pub fn area_from_groups(found: &Option<Vec<Option<String>>>) -> (area: Option<
    (isize, isize, isize, isize),
>)
    ensures
        area == area_of_groups(
            match *found {
                Some(g) => Some(groups_view(g@)),
                None => None,
            },
        ),
{
    match found {
        Some(g) => {
            let l = number(g, 1);
            let t = number(g, 2);
            let w = number(g, 3);
            let h = number(g, 4);
            match (l, t, w, h) {
                (Some(l), Some(t), Some(w), Some(h)) => Some((l, t, w, h)),
                _ => None,
            }
        },
        None => None,
    }
}

/// Whether `text` is exactly `N/A`, the mark of a part without a value.
fn is_not_available(text: &str) -> (b: bool)
    ensures
        b == (text@ == "N/A"@),
{
    let owned = text.to_owned();
    let mark = "N/A".to_owned();
    owned == mark
}

/// Reads a geometry or viewport part.
pub fn parse_pair(text: &str) -> (r: Result<Option<(isize, isize)>, WorkspaceParseError>)
    ensures
        r == pair_field(text@),
{
    if is_not_available(text) {
        Ok(None)
    } else {
        let found = captures(PAIR_PATTERN, text);
        match pair_from_groups(&found) {
            Some(p) => Ok(Some(p)),
            None => Err(WorkspaceParseError::IncorrectFieldType),
        }
    }
}

/// Reads the usable-area part.
pub fn parse_area(text: &str) -> (r: Result<
    Option<(isize, isize, isize, isize)>,
    WorkspaceParseError,
>)
    ensures
        r == area_field(text@),
{
    if is_not_available(text) {
        Ok(None)
    } else {
        let found = captures(AREA_PATTERN, text);
        match area_from_groups(&found) {
            Some(a) => Ok(Some(a)),
            None => Err(WorkspaceParseError::IncorrectFieldType),
        }
    }
}

/// Reads the active mark: `*` for the workspace shown, `-` for any other.
pub fn parse_active(text: &str) -> (r: Result<bool, WorkspaceParseError>)
    ensures
        r == active_field(text@),
{
    let owned = text.to_owned();
    if owned == "*".to_owned() {
        Ok(true)
    } else if owned == "-".to_owned() {
        Ok(false)
    } else {
        Err(WorkspaceParseError::IncorrectFieldType)
    }
}

/// Reads the index part.
pub fn parse_index(text: &str) -> (r: Result<usize, WorkspaceParseError>)
    ensures
        r == index_field(text@),
{
    match parse_decimal(text, usize::MAX as u64) {
        Some(v) => Ok(v as usize),
        None => Err(WorkspaceParseError::IncorrectFieldType),
    }
}

impl std::str::FromStr for Workspace {
    type Err = WorkspaceParseError;

    /// Reads one line of the window manager's workspace list, so that a line
    /// can be parsed like any other value. The result is that of the
    /// function of the same name on [`Workspace`] itself.
    fn from_str(s: &str) -> (r: Result<Workspace, WorkspaceParseError>)
        ensures
            r is Ok == workspace_of_line(s@) is Ok,
            r matches Ok(w) ==> workspace_of_line(s@) == Ok::<WorkspaceView, WorkspaceParseError>(
                w@,
            ),
            r matches Err(e) ==> workspace_of_line(s@) == Err::<
                WorkspaceView,
                WorkspaceParseError,
            >(e),
    {
        Workspace::from_str(s)
    }
}

/// A part that must be there.
fn require<'a>(text: Option<&'a str>) -> (r: Result<&'a str, WorkspaceParseError>)
    ensures
        r is Ok == text is Some,
        r matches Ok(t) ==> text == Some(t),
        r matches Err(e) ==> e == WorkspaceParseError::FieldMissing,
{
    match text {
        Some(t) => Ok(t),
        None => Err(WorkspaceParseError::FieldMissing),
    }
}

impl Workspace {
    /// Builds a workspace from the capture groups of a [`WORKSPACE_PATTERN`] match.
    pub fn from_groups(groups: &Vec<Option<String>>) -> (r: Result<Workspace, WorkspaceParseError>)
        ensures
            r is Ok == workspace_of_groups(groups_view(groups@)) is Ok,
            r matches Ok(w) ==> workspace_of_groups(groups_view(groups@)) == Ok::<
                WorkspaceView,
                WorkspaceParseError,
            >(w@),
            r matches Err(e) ==> workspace_of_groups(groups_view(groups@)) == Err::<
                WorkspaceView,
                WorkspaceParseError,
            >(e),
    {
        let idx = parse_index(require(group(groups, 1))?)?;
        let active = parse_active(require(group(groups, 2))?)?;
        let dg = parse_pair(require(group(groups, 3))?)?;
        let vp = parse_pair(require(group(groups, 4))?)?;
        let available_area = parse_area(require(group(groups, 5))?)?;
        let name = match group(groups, 6) {
            Some(n) => n.to_owned(),
            None => String::new(),
        };
        Ok(Workspace { active, idx, dg, vp, available_area, name })
    }

    /// Reads one line of the window manager's workspace list.
    ///
    /// The line must have the shape of [`WORKSPACE_PATTERN`], else the result
    /// is `FieldMissing`; what a line of that shape denotes is decided part by
    /// part, as [`workspace_of_groups`] says.
    pub fn from_str(s: &str) -> (r: Result<Workspace, WorkspaceParseError>)
        ensures
            r is Ok == workspace_of_line(s@) is Ok,
            r matches Ok(w) ==> workspace_of_line(s@) == Ok::<WorkspaceView, WorkspaceParseError>(
                w@,
            ),
            r matches Err(e) ==> workspace_of_line(s@) == Err::<
                WorkspaceView,
                WorkspaceParseError,
            >(e),
    {
        match captures(WORKSPACE_PATTERN, s) {
            None => Err(WorkspaceParseError::FieldMissing),
            Some(groups) => Workspace::from_groups(&groups),
        }
    }
}

} // verus!
