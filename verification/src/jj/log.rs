//! The commit log: one commit per line, as change id, commit id,
//! description and author.

use vstd::prelude::*;
use vstd::string::*;
use crate::jj::operations::ProcessOutput;
use crate::text::{
    decimal,
    decimal_digits,
    find,
    first_position,
    joined,
    last_position,
    lemma_positions,
    lines,
    rfind,
    split_lines,
    text_views,
    trim,
    trimmed,
};

verus! {

/// One commit of the log.
#[derive(Debug, Clone, PartialEq, Eq)]
pub struct CommitInfo {
    pub change_id: String,
    /// The short commit id.
    pub commit_id: String,
    pub description: String,
    pub author: String,
}

/// What a `CommitInfo` stands for.
pub struct CommitView {
    pub change_id: Seq<char>,
    pub commit_id: Seq<char>,
    pub description: Seq<char>,
    pub author: Seq<char>,
}

impl View for CommitInfo {
    type V = CommitView;

    open spec fn view(&self) -> CommitView {
        CommitView {
            change_id: self.change_id@,
            commit_id: self.commit_id@,
            description: self.description@,
            author: self.author@,
        }
    }
}

/// The template that makes the log print one commit per line: change id,
/// commit id, first line of the description, and the author's address in
/// angle brackets, with one space between them.
pub const LOG_TEMPLATE: &'static str =
    "change_id.short() ++ \" \" ++ commit_id.short() ++ \" \" ++ description.first_line() ++ \" <\" ++ author.email() ++ \">\\n\"";

/// The arguments of the log query for the last `limit` commits.
pub open spec fn log_arguments(limit: nat) -> Seq<Seq<char>> {
    seq!["log"@, "--limit"@, decimal_digits(limit), "--no-graph"@, "-T"@, LOG_TEMPLATE@]
}

/// The commit that a line of the log names, if it names one. The change id
/// ends at the first space and the commit id at the second; of what
/// follows, the author starts at the last opening angle bracket, and the
/// description is what stands before it, trimmed. A line with fewer than
/// two spaces, or without an angle bracket after them, names no commit.
pub open spec fn parsed_log_line(line: Seq<char>) -> Option<CommitView> {
    match first_position(line, ' ') {
        Some(a) => {
            let after_change = line.skip(a + 1);
            match first_position(after_change, ' ') {
                Some(b) => {
                    let rest = after_change.skip(b + 1);
                    match last_position(rest, '<') {
                        Some(k) => Some(
                            CommitView {
                                change_id: line.take(a),
                                commit_id: after_change.take(b),
                                description: trimmed(rest.take(k)),
                                author: rest.skip(k),
                            },
                        ),
                        None => None,
                    }
                },
                None => None,
            }
        },
        None => None,
    }
}

/// The commits that the lines of a log name, in their order.
pub open spec fn parsed_log(lines: Seq<Seq<char>>) -> Seq<CommitView>
    decreases lines.len(),
{
    if lines.len() == 0 {
        Seq::empty()
    } else {
        let before = parsed_log(lines.drop_last());
        match parsed_log_line(lines.last()) {
            Some(commit) => before.push(commit),
            None => before,
        }
    }
}

/// What the log query amounts to: its commits, or, where the query failed,
/// the cause.
pub open spec fn log_result(output: ProcessOutput) -> Result<Seq<CommitView>, Seq<char>> {
    if output.success {
        Ok(parsed_log(split_lines(output.stdout@)))
    } else {
        Err("jj log failed: "@ + output.stderr@)
    }
}

/// The arguments that `jj` is run with for the last `limit` commits of the
/// log.
pub fn get_log_args(limit: usize) -> (args: Vec<String>)
    ensures
        text_views(args@) == log_arguments(limit as nat),
{
    let mut args: Vec<String> = Vec::new();
    args.push(String::from_str("log"));
    args.push(String::from_str("--limit"));
    args.push(decimal(limit));
    args.push(String::from_str("--no-graph"));
    args.push(String::from_str("-T"));
    args.push(String::from_str(LOG_TEMPLATE));
    assert(text_views(args@) =~= log_arguments(limit as nat));
    args
}

/// Reads one line of the log.
fn parse_log_line(line: &str) -> (commit: Option<CommitInfo>)
    ensures
        (match commit {
            Some(c) => Some(c@),
            None => None,
        }) == parsed_log_line(line@),
{
    let a = match find(line, ' ') {
        Some(a) => a,
        None => {
            return None;
        },
    };
    proof {
        lemma_positions(line@, ' ', a as int);
    }
    let line_len = line.unicode_len();
    let after_change = line.substring_char(a + 1, line_len);
    assert(after_change@ =~= line@.skip(a + 1));
    let b = match find(after_change, ' ') {
        Some(b) => b,
        None => {
            return None;
        },
    };
    proof {
        lemma_positions(after_change@, ' ', b as int);
    }
    let after_len = after_change.unicode_len();
    let rest = after_change.substring_char(b + 1, after_len);
    assert(rest@ =~= after_change@.skip(b + 1));
    let k = match rfind(rest, '<') {
        Some(k) => k,
        None => {
            return None;
        },
    };
    proof {
        lemma_positions(rest@, '<', k as int);
    }
    let change_id = String::from_str(line.substring_char(0, a));
    let commit_id = String::from_str(after_change.substring_char(0, b));
    let description = String::from_str(trim(rest.substring_char(0, k)));
    let author = String::from_str(rest.substring_char(k, rest.unicode_len()));
    assert(change_id@ =~= line@.take(a as int));
    assert(commit_id@ =~= after_change@.take(b as int));
    assert(rest@.subrange(0, k as int) =~= rest@.take(k as int));
    assert(author@ =~= rest@.skip(k as int));
    Some(CommitInfo { change_id, commit_id, description, author })
}

/// Reads the log. Lines that name no commit are passed over.
pub fn get_log(output: &ProcessOutput) -> (result: Result<Vec<CommitInfo>, String>)
    ensures
        (match result {
            Ok(commits) => Ok(commits@.map_values(|c: CommitInfo| c@)),
            Err(cause) => Err(cause@),
        }) == log_result(*output),
{
    if !output.success {
        return Err(joined("jj log failed: ", output.stderr.as_str()));
    }
    let all = lines(output.stdout.as_str());
    let mut commits: Vec<CommitInfo> = Vec::new();
    let mut i: usize = 0;
    assert(text_views(all@).take(0) =~= Seq::empty());
    assert(commits@.map_values(|c: CommitInfo| c@) =~= Seq::empty());
    while i < all.len()
        invariant
            i <= all.len(),
            text_views(all@) == split_lines(output.stdout@),
            commits@.map_values(|c: CommitInfo| c@) == parsed_log(text_views(all@).take(i as int)),
        decreases all.len() - i,
    {
        let ghost before = commits@.map_values(|c: CommitInfo| c@);
        assert(text_views(all@).take(i + 1).drop_last() =~= text_views(all@).take(i as int));
        assert(text_views(all@).take(i + 1).last() == all@[i as int]@);
        match parse_log_line(all[i].as_str()) {
            Some(commit) => {
                let ghost view = commit@;
                commits.push(commit);
                assert(commits@.map_values(|c: CommitInfo| c@) =~= before.push(view));
            },
            None => {},
        }
        i += 1;
    }
    assert(text_views(all@).take(i as int) =~= text_views(all@));
    Ok(commits)
}

} // verus!
