//! Where a download is written, and whether it has to be unpacked.

use crate::inspect::{mod_dir, mod_dir_of};
use crate::lifecycle::{action_views, Action, ActionView};
use crate::text::{after_last, same_text, suffix_after_last};
use vstd::prelude::*;
use vstd::string::*;

verus! {

/// The extension of an address: what follows its last dot; all of it where
/// it has no dot.
pub open spec fn extension_of(url: Seq<char>) -> Seq<char> {
    after_last(url, '.')
}

/// Whether the address names an archive that has to be unpacked: its
/// extension is `zip`.
pub open spec fn names_archive(url: Seq<char>) -> bool {
    extension_of(url) == "zip"@
}

/// The file name of an address: its last path segment, that is what follows
/// its last slash.
pub open spec fn file_name_of(url: Seq<char>) -> Seq<char> {
    after_last(url, '/')
}

/// The path to which a download is written: an archive goes to `temp.zip`
/// in the folder of the mod, any other file goes there under its own name.
pub open spec fn download_path_of(root: Seq<char>, name: Seq<char>, url: Seq<char>) -> Seq<
    char,
> {
    if names_archive(url) {
        mod_dir_of(root, name) + "/temp.zip"@
    } else {
        mod_dir_of(root, name) + "/"@ + file_name_of(url)
    }
}

/// The extension of an address.
pub fn extension(url: &str) -> (r: String)
    ensures
        r@ == extension_of(url@),
{
    suffix_after_last(url, '.')
}

/// Whether the address names an archive that has to be unpacked.
pub fn is_archive(url: &str) -> (r: bool)
    ensures
        r == names_archive(url@),
{
    let e = extension(url);
    same_text(e.as_str(), "zip")
}

/// The file name of an address.
pub fn file_name(url: &str) -> (r: String)
    ensures
        r@ == file_name_of(url@),
{
    suffix_after_last(url, '/')
}

/// The path to which the download of a mod is written.
pub fn download_path(root: &str, name: &str, url: &str) -> (r: String)
    ensures
        r@ == download_path_of(root@, name@, url@),
{
    let mut p = mod_dir(root, name);
    if is_archive(url) {
        p.append("/temp.zip");
    } else {
        let f = file_name(url);
        p.append("/");
        p.append(f.as_str());
    }
    p
}

/// What it takes to bring a file that lies at `source` into the folder
/// `into`: an archive is unpacked there and then removed; any other file is
/// copied there under its own name.
pub open spec fn unpack_plan(source: Seq<char>, into: Seq<char>) -> Seq<ActionView> {
    if names_archive(source) {
        seq![
            ActionView::Extract { archive: source, into },
            ActionView::Discard { path: source },
        ]
    } else {
        seq![ActionView::CopyFile { from: source, to: into + "/"@ + file_name_of(source) }]
    }
}

/// What it takes to bring a file that lies at `source` into the folder
/// `into`.
pub fn plan_unpack(source: &str, into: &str) -> (r: Vec<Action>)
    ensures
        action_views(r@) == unpack_plan(source@, into@),
{
    let mut plan: Vec<Action> = Vec::new();
    if is_archive(source) {
        plan.push(Action::Extract { archive: source.to_owned(), into: into.to_owned() });
        plan.push(Action::Discard { path: source.to_owned() });
    } else {
        let mut to = into.to_owned();
        to.append("/");
        let f = file_name(source);
        to.append(f.as_str());
        plan.push(Action::CopyFile { from: source.to_owned(), to });
    }
    assert(action_views(plan@) =~= unpack_plan(source@, into@));
    plan
}

} // verus!
