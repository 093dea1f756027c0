//! The commands and queries that go through the command line: how their
//! results are judged and how their listings are read. The host runs the
//! processes.

use vstd::prelude::*;
use vstd::string::*;
use crate::command::{Outcome, OutcomeView};
use crate::text::{
    contains,
    find,
    first_position,
    has_substring,
    joined,
    lemma_positions,
    lines,
    same_text,
    split_lines,
    text_views,
    trim,
    trimmed,
};

verus! {

/// A bookmark of the repository.
#[derive(Debug, Clone, PartialEq, Eq)]
pub struct BookmarkInfo {
    pub name: String,
    /// Whether the working copy stands on this bookmark.
    pub is_current: bool,
}

/// What a `BookmarkInfo` stands for.
pub struct BookmarkView {
    pub name: Seq<char>,
    pub is_current: bool,
}

impl View for BookmarkInfo {
    type V = BookmarkView;

    open spec fn view(&self) -> BookmarkView {
        BookmarkView { name: self.name@, is_current: self.is_current }
    }
}

/// What a finished process left behind.
#[derive(Debug, Clone, PartialEq, Eq)]
pub struct ProcessOutput {
    /// Whether the process ended with success.
    pub success: bool,
    pub stdout: String,
    pub stderr: String,
}

/// The result of a command: what it printed, or, where it failed, the
/// label of the command and what it printed as error.
pub open spec fn command_result(label: Seq<char>, output: ProcessOutput) -> Result<
    Seq<char>,
    Seq<char>,
> {
    if output.success {
        Ok(output.stdout@)
    } else {
        Err(label + " failed: "@ + output.stderr@)
    }
}

/// What a result of texts stands for.
pub open spec fn result_view(result: Result<String, String>) -> Result<Seq<char>, Seq<char>> {
    match result {
        Ok(text) => Ok(text@),
        Err(cause) => Err(cause@),
    }
}

/// The outcome that the result of a command amounts to.
pub open spec fn outcome_of_result(result: Result<Seq<char>, Seq<char>>) -> OutcomeView {
    match result {
        Ok(message) => OutcomeView::Success { message },
        Err(cause) => OutcomeView::Failed { cause },
    }
}

/// Judges the result of the command with the given label.
fn checked(label: &str, output: &ProcessOutput) -> (result: Result<String, String>)
    ensures
        result_view(result) == command_result(label@, *output),
{
    if output.success {
        Ok(output.stdout.clone())
    } else {
        let failed = joined(label, " failed: ");
        Err(joined(failed.as_str(), output.stderr.as_str()))
    }
}

/// The outcome that the result of a command amounts to.
pub fn outcome(result: Result<String, String>) -> (outcome: Outcome)
    ensures
        outcome@ == outcome_of_result(result_view(result)),
{
    match result {
        Ok(message) => Outcome::Success { message },
        Err(cause) => Outcome::Failed { cause },
    }
}

/// Judges the result of `jj restore`, which discards the changes of the
/// working copy.
pub fn restore_working_copy(output: &ProcessOutput) -> (result: Result<String, String>)
    ensures
        result_view(result) == command_result("jj restore"@, *output),
{
    checked("jj restore", output)
}

/// Judges the result of `jj describe`.
pub fn describe(output: &ProcessOutput) -> (result: Result<String, String>)
    ensures
        result_view(result) == command_result("jj describe"@, *output),
{
    checked("jj describe", output)
}

/// Judges the result of `jj commit`.
pub fn commit(output: &ProcessOutput) -> (result: Result<String, String>)
    ensures
        result_view(result) == command_result("jj commit"@, *output),
{
    checked("jj commit", output)
}

/// Judges the result of `jj new`, which starts an empty commit on top of
/// the working copy.
pub fn new_commit(output: &ProcessOutput) -> (result: Result<String, String>)
    ensures
        result_view(result) == command_result("jj new"@, *output),
{
    checked("jj new", output)
}

/// Judges the result of `jj git fetch`.
pub fn git_fetch(output: &ProcessOutput) -> (result: Result<String, String>)
    ensures
        result_view(result) == command_result("jj git fetch"@, *output),
{
    checked("jj git fetch", output)
}

/// Judges the result of `jj git push`.
pub fn git_push(output: &ProcessOutput) -> (result: Result<String, String>)
    ensures
        result_view(result) == command_result("jj git push"@, *output),
{
    checked("jj git push", output)
}

/// Judges the result of `jj rebase`.
pub fn rebase(output: &ProcessOutput) -> (result: Result<String, String>)
    ensures
        result_view(result) == command_result("jj rebase"@, *output),
{
    checked("jj rebase", output)
}

/// Judges the result of `jj bookmark set`.
pub fn set_bookmark(output: &ProcessOutput) -> (result: Result<String, String>)
    ensures
        result_view(result) == command_result("jj bookmark set"@, *output),
{
    checked("jj bookmark set", output)
}

/// Judges the result of `jj new` on a bookmark, which starts work there.
pub fn checkout_bookmark(output: &ProcessOutput) -> (result: Result<String, String>)
    ensures
        result_view(result) == command_result("jj new"@, *output),
{
    checked("jj new", output)
}

/// The arguments of a push: the bookmark where there is one, else the
/// current change.
pub open spec fn push_arguments(bookmark: Option<Seq<char>>) -> Seq<Seq<char>> {
    match bookmark {
        Some(name) => seq!["git"@, "push"@, "-b"@, name],
        None => seq!["git"@, "push"@, "--change"@, "@"@],
    }
}

/// The arguments that `jj` is run with for a push.
pub fn git_push_args(bookmark: Option<&str>) -> (args: Vec<String>)
    ensures
        text_views(args@) == push_arguments(
            match bookmark {
                Some(name) => Some(name@),
                None => None,
            },
        ),
{
    let mut args: Vec<String> = Vec::new();
    args.push(String::from_str("git"));
    args.push(String::from_str("push"));
    match bookmark {
        Some(name) => {
            args.push(String::from_str("-b"));
            args.push(String::from_str(name));
            assert(text_views(args@) =~= seq!["git"@, "push"@, "-b"@, name@]);
        },
        None => {
            args.push(String::from_str("--change"));
            args.push(String::from_str("@"));
            assert(text_views(args@) =~= seq!["git"@, "push"@, "--change"@, "@"@]);
        },
    }
    args
}

/// The bookmark that the query for the current bookmark printed, if it
/// printed more than whitespace.
pub open spec fn current_bookmark(stdout: Seq<char>) -> Option<Seq<char>> {
    if trimmed(stdout).len() == 0 {
        None
    } else {
        Some(trimmed(stdout))
    }
}

/// Reads the answer of the query for the current bookmark.
pub fn get_current_bookmark(stdout: &str) -> (bookmark: Option<String>)
    ensures
        (match bookmark {
            Some(name) => Some(name@),
            None => None,
        }) == current_bookmark(stdout@),
{
    let name = trim(stdout);
    if name.is_empty() {
        None
    } else {
        Some(String::from_str(name))
    }
}

/// The heading of the changes in the status report stands in line `k` and
/// in no line before it.
pub open spec fn is_heading_at(lines: Seq<Seq<char>>, k: int) -> bool {
    &&& 0 <= k < lines.len()
    &&& has_substring(lines[k], "Working copy changes:"@)
    &&& forall|j: int| 0 <= j < k ==> !has_substring(#[trigger] lines[j], "Working copy changes:"@)
}

/// The status report shows an empty working copy: it says that the working
/// copy is clean, or no line follows the heading of the changes.
pub open spec fn reports_empty(stdout: Seq<char>) -> bool {
    has_substring(stdout, "The working copy is clean"@) || !exists|k: int|
        is_heading_at(split_lines(stdout), k) && k + 1 < split_lines(stdout).len()
}

/// Reads from the status report whether the working copy is empty.
pub fn is_working_copy_empty(stdout: &str) -> (empty: bool)
    ensures
        empty == reports_empty(stdout@),
{
    if contains(stdout, "The working copy is clean") {
        return true;
    }
    let all = lines(stdout);
    let mut i: usize = 0;
    while i < all.len()
        invariant
            i <= all.len(),
            text_views(all@) == split_lines(stdout@),
            !has_substring(stdout@, "The working copy is clean"@),
            forall|j: int|
                0 <= j < i ==> !has_substring(
                    #[trigger] split_lines(stdout@)[j],
                    "Working copy changes:"@,
                ),
        decreases all.len() - i,
    {
        assert(text_views(all@)[i as int] == all@[i as int]@);
        if contains(all[i].as_str(), "Working copy changes:") {
            assert(is_heading_at(split_lines(stdout@), i as int));
            let followed = i + 1 < all.len();
            proof {
                let ls = split_lines(stdout@);
                assert(ls.len() == all@.len());
                if followed {
                    assert(is_heading_at(ls, i as int) && i + 1 < ls.len());
                } else {
                    assert forall|k: int| !(is_heading_at(ls, k) && k + 1 < ls.len()) by {
                        if is_heading_at(ls, k) && k < i {
                            assert(!has_substring(ls[k], "Working copy changes:"@));
                        }
                        if is_heading_at(ls, k) && k > i {
                            assert(!has_substring(ls[i as int], "Working copy changes:"@));
                        }
                    }
                }
            }
            return !followed;
        }
        i += 1;
    }
    proof {
        let ls = split_lines(stdout@);
        assert forall|k: int| !(is_heading_at(ls, k) && k + 1 < ls.len()) by {
            if is_heading_at(ls, k) {
                assert(!has_substring(ls[k], "Working copy changes:"@));
            }
        }
    }
    true
}

/// The name of the bookmark that a line of the bookmark listing is about:
/// what stands before the first colon, trimmed.
pub open spec fn listed_name(line: Seq<char>) -> Seq<char> {
    match first_position(line, ':') {
        Some(k) => trimmed(line.take(k)),
        None => trimmed(line),
    }
}

/// The bookmarks that the lines of a listing name, in their order. A line
/// without a name is passed over; a bookmark is the current one where its
/// name is that of the current bookmark.
pub open spec fn listed_bookmarks(lines: Seq<Seq<char>>, current: Option<Seq<char>>) -> Seq<
    BookmarkView,
>
    decreases lines.len(),
{
    if lines.len() == 0 {
        Seq::empty()
    } else {
        let before = listed_bookmarks(lines.drop_last(), current);
        let name = listed_name(lines.last());
        if name.len() > 0 {
            before.push(BookmarkView { name, is_current: current == Some(name) })
        } else {
            before
        }
    }
}

/// The name of the bookmark that a line of the listing is about.
fn name_of_line(line: &str) -> (name: String)
    ensures
        name@ == listed_name(line@),
{
    match find(line, ':') {
        Some(k) => {
            proof {
                lemma_positions(line@, ':', k as int);
                assert(line@.subrange(0, k as int) =~= line@.take(k as int));
            }
            String::from_str(trim(line.substring_char(0, k)))
        },
        None => String::from_str(trim(line)),
    }
}

/// What the bookmark listing amounts to: its bookmarks, or, where the
/// listing failed, the cause.
pub open spec fn bookmarks_result(output: ProcessOutput, current: Option<Seq<char>>) -> Result<
    Seq<BookmarkView>,
    Seq<char>,
> {
    if output.success {
        Ok(listed_bookmarks(split_lines(output.stdout@), current))
    } else {
        Err("jj bookmark list"@ + " failed: "@ + output.stderr@)
    }
}

/// Reads the bookmark listing, given the name of the current bookmark if
/// there is one.
pub fn get_bookmarks(output: &ProcessOutput, current: Option<&str>) -> (result: Result<
    Vec<BookmarkInfo>,
    String,
>)
    ensures
        (match result {
            Ok(list) => Ok(list@.map_values(|b: BookmarkInfo| b@)),
            Err(cause) => Err(cause@),
        }) == bookmarks_result(
            *output,
            match current {
                Some(name) => Some(name@),
                None => None,
            },
        ),
{
    if !output.success {
        let failed = joined("jj bookmark list", " failed: ");
        return Err(joined(failed.as_str(), output.stderr.as_str()));
    }
    let ghost now = match current {
        Some(name) => Some(name@),
        None => None,
    };
    let all = lines(output.stdout.as_str());
    let mut list: Vec<BookmarkInfo> = Vec::new();
    let mut i: usize = 0;
    assert(text_views(all@).take(0) =~= Seq::empty());
    assert(list@.map_values(|b: BookmarkInfo| b@) =~= Seq::empty());
    while i < all.len()
        invariant
            i <= all.len(),
            text_views(all@) == split_lines(output.stdout@),
            now == (match current {
                Some(name) => Some(name@),
                None => None,
            }),
            list@.map_values(|b: BookmarkInfo| b@) == listed_bookmarks(
                text_views(all@).take(i as int),
                now,
            ),
        decreases all.len() - i,
    {
        let ghost before = list@.map_values(|b: BookmarkInfo| b@);
        assert(text_views(all@).take(i + 1).drop_last() =~= text_views(all@).take(i as int));
        assert(text_views(all@).take(i + 1).last() == all@[i as int]@);
        let name = name_of_line(all[i].as_str());
        if !name.as_str().is_empty() {
            let is_current = match current {
                Some(c) => same_text(c, name.as_str()),
                None => false,
            };
            let bookmark = BookmarkInfo { name, is_current };
            let ghost view = bookmark@;
            list.push(bookmark);
            assert(list@.map_values(|b: BookmarkInfo| b@) =~= before.push(view));
        }
        i += 1;
    }
    assert(text_views(all@).take(i as int) =~= text_views(all@));
    Ok(list)
}

} // verus!
