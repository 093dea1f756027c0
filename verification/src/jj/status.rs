//! The status listing of the working copy: one changed file per line, a
//! letter for the kind of change and then the path.

use vstd::prelude::*;
use vstd::string::*;
use vstd::utf8::encode_utf8;
use crate::jj::repo::{ChangeType, FileStatus, FileStatusView};
use crate::text::{lines, split_lines, text_views, trim, trimmed};

verus! {

/// The changed file that a line of the listing names, if it names one: the
/// line, trimmed, is at least three bytes long and starts with the letter
/// of a kind of change; the path is what follows the letter, trimmed.
pub open spec fn parsed_status_line(line: Seq<char>) -> Option<FileStatusView> {
    let entry = trimmed(line);
    if encode_utf8(entry).len() < 3 {
        None
    } else {
        match ChangeType::of_letter(entry[0]) {
            Some(status) => Some(FileStatusView { path: trimmed(entry.skip(1)), status }),
            None => None,
        }
    }
}

/// The changed files that the lines of a listing name, in their order.
pub open spec fn parsed_status(lines: Seq<Seq<char>>) -> Seq<FileStatusView>
    decreases lines.len(),
{
    if lines.len() == 0 {
        Seq::empty()
    } else {
        let before = parsed_status(lines.drop_last());
        match parsed_status_line(lines.last()) {
            Some(file) => before.push(file),
            None => before,
        }
    }
}

/// The view of an optional changed file.
pub open spec fn optional_file_view(file: Option<FileStatus>) -> Option<FileStatusView> {
    match file {
        Some(f) => Some(f@),
        None => None,
    }
}

/// Reads one line of the status listing.
pub fn parse_status_line(line: &str) -> (file: Option<FileStatus>)
    ensures
        optional_file_view(file) == parsed_status_line(line@),
{
    let entry = trim(line);
    if entry.as_bytes().len() < 3 {
        return None;
    }
    assert(entry@.len() > 0) by {
        if entry@.len() == 0 {
            assert(encode_utf8(entry@) =~= Seq::<u8>::empty());
        }
    }
    let letter = entry.get_char(0);
    let status = if letter == 'A' {
        ChangeType::Added
    } else if letter == 'M' {
        ChangeType::Modified
    } else if letter == 'D' {
        ChangeType::Deleted
    } else {
        return None;
    };
    let count = entry.unicode_len();
    assert(entry@.subrange(1, count as int) =~= entry@.skip(1));
    let path = String::from_str(trim(entry.substring_char(1, count)));
    Some(FileStatus { path, status })
}

/// Reads the status listing: the changed files of the working copy, in the
/// order of the listing. Lines that name no changed file are passed over.
pub fn get_working_copy_status(stdout: &str) -> (files: Vec<FileStatus>)
    ensures
        files@.map_values(|f: FileStatus| f@) == parsed_status(split_lines(stdout@)),
{
    let all = lines(stdout);
    let mut files: Vec<FileStatus> = Vec::new();
    let mut i: usize = 0;
    assert(text_views(all@).take(0) =~= Seq::empty());
    assert(files@.map_values(|f: FileStatus| f@) =~= Seq::empty());
    while i < all.len()
        invariant
            i <= all.len(),
            text_views(all@) == split_lines(stdout@),
            files@.map_values(|f: FileStatus| f@) == parsed_status(
                text_views(all@).take(i as int),
            ),
        decreases all.len() - i,
    {
        let ghost before = files@.map_values(|f: FileStatus| f@);
        assert(text_views(all@).take(i + 1).drop_last() =~= text_views(all@).take(i as int));
        assert(text_views(all@).take(i + 1).last() == all@[i as int]@);
        match parse_status_line(all[i].as_str()) {
            Some(file) => {
                let ghost view = file@;
                files.push(file);
                assert(files@.map_values(|f: FileStatus| f@) =~= before.push(view));
            },
            None => {},
        }
        i += 1;
    }
    assert(text_views(all@).take(i as int) =~= text_views(all@));
    files
}

} // verus!
