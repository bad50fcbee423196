//! The window manager's workspace list as text: writing a workspace as one
//! line, and reading a whole list.

use crate::decimal::{decimal_text, digits, push_decimal, push_digits};
use crate::workspace::{Workspace, WorkspaceParseError, WorkspaceView, workspace_of_line};
use vstd::prelude::*;
use vstd::string::*;

verus! {

/// A pair as `widthxheight`, or `N/A` if there is none.
pub open spec fn pair_text(pair: Option<(isize, isize)>) -> Seq<char> {
    match pair {
        Some((w, h)) => decimal_text(w as int) + "x"@ + decimal_text(h as int),
        None => "N/A"@,
    }
}

/// An area as `left,top widthxheight`, or `N/A` if there is none.
pub open spec fn area_text(area: Option<(isize, isize, isize, isize)>) -> Seq<char> {
    match area {
        Some((l, t, w, h)) => decimal_text(l as int) + ","@ + decimal_text(t as int) + " "@
            + decimal_text(w as int) + "x"@ + decimal_text(h as int),
        None => "N/A"@,
    }
}

/// The mark of an active workspace, `*`, or of any other, `-`.
pub open spec fn active_text(active: bool) -> Seq<char> {
    if active {
        "*"@
    } else {
        "-"@
    }
}

/// A workspace as one line of text.
pub open spec fn workspace_text(w: WorkspaceView) -> Seq<char> {
    digits(w.idx as nat) + "  "@ + active_text(w.active) + " DG: "@ + pair_text(w.dg) + "  VP: "@
        + pair_text(w.vp) + "  WA: "@ + area_text(w.available_area) + "  "@ + w.name
}

/// Writes a pair at the end of `out`.
fn push_pair(out: &mut String, pair: Option<(isize, isize)>)
    ensures
        final(out)@ == old(out)@ + pair_text(pair),
{
    match pair {
        Some((w, h)) => {
            push_decimal(out, w as i64);
            out.append("x");
            push_decimal(out, h as i64);
            assert(out@ =~= old(out)@ + pair_text(pair));
        },
        None => {
            out.append("N/A");
        },
    }
}

/// Writes an area at the end of `out`.
fn push_area(out: &mut String, area: Option<(isize, isize, isize, isize)>)
    ensures
        final(out)@ == old(out)@ + area_text(area),
{
    match area {
        Some((l, t, w, h)) => {
            push_decimal(out, l as i64);
            out.append(",");
            push_decimal(out, t as i64);
            out.append(" ");
            push_decimal(out, w as i64);
            out.append("x");
            push_decimal(out, h as i64);
            assert(out@ =~= old(out)@ + area_text(area));
        },
        None => {
            out.append("N/A");
        },
    }
}

impl Workspace {
    /// The workspace as one line of text: index, active mark, geometry,
    /// viewport, usable area and name.
    pub fn to_string(&self) -> (text: String)
        ensures
            text@ == workspace_text(self@),
    {
        let mut out = String::new();
        push_digits(&mut out, self.idx as u64);
        out.append("  ");
        out.append(if self.active {
            "*"
        } else {
            "-"
        });
        out.append(" DG: ");
        push_pair(&mut out, self.dg);
        out.append("  VP: ");
        push_pair(&mut out, self.vp);
        out.append("  WA: ");
        push_area(&mut out, self.available_area);
        out.append("  ");
        out.append(self.name.as_str());
        assert(out@ =~= workspace_text(self@));
        out
    }
}

/// The lines of a text: the pieces between line breaks, empty ones included.
/// Every text has at least one line, and a text that ends in a line break
/// ends in an empty line.
pub open spec fn lines_of(text: Seq<char>) -> Seq<Seq<char>>
    decreases text.len(),
{
    if text.len() == 0 {
        seq![Seq::empty()]
    } else {
        let before = lines_of(text.drop_last());
        if text.last() == '\n' {
            before.push(Seq::empty())
        } else {
            before.drop_last().push(before.last().push(text.last()))
        }
    }
}

/// The workspaces that a list of lines denotes: every line that is not empty
/// is one workspace, and the first line that cannot be read decides the error.
pub open spec fn listing_of(lines: Seq<Seq<char>>) -> Result<
    Seq<WorkspaceView>,
    WorkspaceParseError,
>
    decreases lines.len(),
{
    if lines.len() == 0 {
        Ok(Seq::empty())
    } else {
        match listing_of(lines.drop_last()) {
            Err(e) => Err(e),
            Ok(before) => if lines.last().len() == 0 {
                Ok(before)
            } else {
                match workspace_of_line(lines.last()) {
                    Ok(w) => Ok(before.push(w)),
                    Err(e) => Err(e),
                }
            },
        }
    }
}

/// The views of a list of workspaces.
pub open spec fn workspace_views(workspaces: Seq<Workspace>) -> Seq<WorkspaceView> {
    workspaces.map_values(|w: Workspace| w@)
}

/// Cuts a text into its lines.
pub fn split_lines<'a>(text: &'a str) -> (lines: Vec<&'a str>)
    ensures
        lines@.map_values(|l: &str| l@) == lines_of(text@),
{
    let len = text.unicode_len();
    let mut lines: Vec<&'a str> = Vec::new();
    let mut start: usize = 0;
    let mut i: usize = 0;
    proof {
        assert(text@.take(0) =~= Seq::<char>::empty());
        assert(lines@.map_values(|l: &str| l@).push(text@.subrange(0, 0)) =~= seq![
            Seq::<char>::empty(),
        ]);
    }
    while i < len
        invariant
            len == text@.len(),
            0 <= start <= i <= len,
            lines@.map_values(|l: &str| l@).push(text@.subrange(start as int, i as int))
                == lines_of(text@.take(i as int)),
        decreases len - i,
    {
        let c = text.get_char(i);
        proof {
            let done = lines@.map_values(|l: &str| l@);
            let part = text@.subrange(start as int, i as int);
            let next = text@.take(i + 1);
            assert(next.drop_last() =~= text@.take(i as int));
            assert(next.last() == c);
            assert(done.push(part).drop_last() =~= done);
            assert(part.push(c) =~= text@.subrange(start as int, i + 1));
            assert(text@.subrange(i + 1, i + 1) =~= Seq::<char>::empty());
        }
        if c == '\n' {
            let line = text.substring_char(start, i);
            proof {
                let done = lines@.map_values(|l: &str| l@);
                assert(lines@.push(line).map_values(|l: &str| l@) =~= done.push(line@));
            }
            lines.push(line);
            start = i + 1;
        }
        i = i + 1;
    }
    let line = text.substring_char(start, len);
    proof {
        let done = lines@.map_values(|l: &str| l@);
        assert(lines@.push(line).map_values(|l: &str| l@) =~= done.push(line@));
        assert(text@.take(len as int) =~= text@);
    }
    lines.push(line);
    lines
}

/// Reads the window manager's list of workspaces, one per line, passing
/// over empty lines.
pub fn query(output: &str) -> (r: Result<Vec<Workspace>, WorkspaceParseError>)
    ensures
        r is Ok == listing_of(lines_of(output@)) is Ok,
        r matches Ok(workspaces) ==> listing_of(lines_of(output@)) == Ok::<
            Seq<WorkspaceView>,
            WorkspaceParseError,
        >(workspace_views(workspaces@)),
        r matches Err(e) ==> listing_of(lines_of(output@)) == Err::<
            Seq<WorkspaceView>,
            WorkspaceParseError,
        >(e),
{
    let lines = split_lines(output);
    let ghost texts = lines@.map_values(|l: &str| l@);
    let mut workspaces: Vec<Workspace> = Vec::new();
    let mut i: usize = 0;
    proof {
        assert(texts.take(0) =~= Seq::<Seq<char>>::empty());
        assert(workspace_views(workspaces@) =~= Seq::<WorkspaceView>::empty());
    }
    while i < lines.len()
        invariant
            0 <= i <= lines.len(),
            texts == lines@.map_values(|l: &str| l@),
            texts == lines_of(output@),
            listing_of(texts.take(i as int)) == Ok::<Seq<WorkspaceView>, WorkspaceParseError>(
                workspace_views(workspaces@),
            ),
        decreases lines.len() - i,
    {
        let line = lines[i];
        proof {
            let next = texts.take(i + 1);
            assert(next.drop_last() =~= texts.take(i as int));
            assert(next.last() == line@);
            if listing_of(next) is Err {
                lemma_listing_error_stays(texts, i + 1);
            }
        }
        if line.unicode_len() != 0 {
            match Workspace::from_str(line) {
                Ok(w) => {
                    proof {
                        assert(workspace_views(workspaces@.push(w)) =~= workspace_views(
                            workspaces@,
                        ).push(w@));
                    }
                    workspaces.push(w);
                },
                Err(e) => {
                    return Err(e);
                },
            }
        }
        i = i + 1;
    }
    proof {
        assert(texts.take(lines@.len() as int) =~= texts);
    }
    Ok(workspaces)
}

/// Once a line cannot be read, the lines after it do not change the error.
pub proof fn lemma_listing_error_stays(lines: Seq<Seq<char>>, n: int)
    requires
        0 <= n <= lines.len(),
        listing_of(lines.take(n)) is Err,
    ensures
        listing_of(lines) == listing_of(lines.take(n)),
    decreases lines.len() - n,
{
    if n == lines.len() {
        assert(lines.take(n) =~= lines);
    } else {
        let next = lines.take(n + 1);
        assert(next.drop_last() =~= lines.take(n));
        lemma_listing_error_stays(lines, n + 1);
    }
}

} // verus!
