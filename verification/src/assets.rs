//! Asset discovery: from the paths that the patterns matched to the files
//! that are built.
//!
//! A file is built when its extension is `png`, spelled in lower case. The
//! files keep the order in which they were found, which is alphabetical within
//! one pattern, and a path that several patterns matched is kept once. A
//! directory among the patterns stands for every file below it.

use crate::text::texts;
use std::path::Path;
use vstd::prelude::*;
use vstd::string::StrSliceExecFns;
use vstd::string::StringExecFns;

verus! {

/// The extension of a path as `std::path::Path::extension` gives it.
pub uninterp spec fn path_extension(path: Seq<char>) -> Option<Seq<char>>;

/// `std::path::Path::extension` on a path given as text: the part of the
/// file name after its last dot, if it has one. Trusted: the result is the
/// extension of `path`, whatever that is; the path being text, so is its
/// extension.
#[verifier::external_body]
fn extension_of(path: &str) -> (extension: Option<String>)
    ensures
        extension is Some == path_extension(path@) is Some,
        extension matches Some(found) ==> path_extension(path@) == Some(found@),
{
    match Path::new(path).extension() {
        Some(found) => Some(found.to_string_lossy().into_owned()),
        None => None,
    }
}

/// Whether files of this extension are built.
pub open spec fn supported(extension: Option<Seq<char>>) -> bool {
    extension == Some("png"@)
}

/// Whether the file at `path` is built.
pub open spec fn wanted(path: Seq<char>) -> bool {
    supported(path_extension(path))
}

/// Whether files of this extension are built.
pub fn is_supported(extension: &Option<String>) -> (answer: bool)
    ensures
        answer == supported(
            match *extension {
                Some(found) => Some(found@),
                None => None,
            },
        ),
{
    match extension {
        Some(found) => {
            let png = String::from_str("png");
            *found == png
        },
        None => false,
    }
}

/// Whether the file at `path` is built.
pub fn is_asset(path: &str) -> (answer: bool)
    ensures
        answer == wanted(path@),
{
    let extension = extension_of(path);
    is_supported(&extension)
}

/// `root` without the slashes at its end.
pub open spec fn without_trailing_slashes(root: Seq<char>) -> Seq<char>
    decreases root.len(),
{
    if root.len() > 0 && root.last() == '/' {
        without_trailing_slashes(root.drop_last())
    } else {
        root
    }
}

/// The pattern that matches every file below the directory `root`, at any
/// depth: the root without the slashes at its end, then `/**/*`.
pub open spec fn below(root: Seq<char>) -> Seq<char> {
    without_trailing_slashes(root) + "/**/*"@
}

/// The pattern to expand in place of a pattern that names a directory.
pub fn directory_pattern(root: &str) -> (pattern: String)
    ensures
        pattern@ == below(root@),
{
    let mut end: usize = root.unicode_len();
    assert(root@.take(end as int) =~= root@);
    while end > 0 && root.get_char(end - 1) == '/'
        invariant
            end <= root@.len(),
            without_trailing_slashes(root@) == without_trailing_slashes(root@.take(end as int)),
        decreases end,
    {
        assert(root@.take(end as int).drop_last() =~= root@.take(end - 1));
        end -= 1;
    }
    let mut pattern = String::from_str(root.substring_char(0, end));
    assert(root@.subrange(0, end as int) =~= root@.take(end as int));
    pattern.append("/**/*");
    pattern
}

/// The files to build among `candidates`: each wanted path at the place
/// where it first occurs.
pub open spec fn retained(candidates: Seq<Seq<char>>) -> Seq<Seq<char>>
    decreases candidates.len(),
{
    if candidates.len() == 0 {
        Seq::empty()
    } else {
        let earlier = retained(candidates.drop_last());
        let path = candidates.last();
        if wanted(path) && !earlier.contains(path) {
            earlier.push(path)
        } else {
            earlier
        }
    }
}

/// Whether `path` is among `files`.
fn holds(files: &Vec<String>, path: &String) -> (answer: bool)
    ensures
        answer == texts(files@).contains(path@),
{
    let mut i: usize = 0;
    while i < files.len()
        invariant
            i <= files.len(),
            forall|k: int| 0 <= k < i ==> texts(files@)[k] != path@,
        decreases files.len() - i,
    {
        if files[i] == *path {
            assert(texts(files@)[i as int] == path@);
            return true;
        }
        i += 1;
    }
    false
}

/// Picks the files to build out of the paths that the patterns matched.
pub fn discover(candidates: &Vec<String>) -> (files: Vec<String>)
    ensures
        texts(files@) == retained(texts(candidates@)),
{
    let mut files: Vec<String> = Vec::new();
    let mut i: usize = 0;
    assert(texts(candidates@).take(0) =~= Seq::<Seq<char>>::empty());
    while i < candidates.len()
        invariant
            i <= candidates.len(),
            texts(files@) == retained(texts(candidates@).take(i as int)),
        decreases candidates.len() - i,
    {
        let path = &candidates[i];
        proof {
            let now = texts(candidates@).take(i + 1);
            assert(now.drop_last() =~= texts(candidates@).take(i as int));
            assert(now.last() == path@);
        }
        if is_asset(path.as_str()) && !holds(&files, path) {
            let ghost before = texts(files@);
            files.push(path.clone());
            assert(texts(files@) =~= before.push(path@));
        }
        i += 1;
    }
    assert(texts(candidates@).take(candidates.len() as int) =~= texts(candidates@));
    files
}

/// What discovery keeps: every file is a wanted candidate, every wanted
/// candidate is a file, and no file occurs twice.
pub proof fn lemma_retained_is_exact(candidates: Seq<Seq<char>>)
    ensures
        forall|path: Seq<char>|
            #![trigger retained(candidates).contains(path)]
            #![trigger candidates.contains(path)]
            retained(candidates).contains(path) <==> candidates.contains(path) && wanted(path),
        retained(candidates).no_duplicates(),
        retained(candidates).len() <= candidates.len(),
    decreases candidates.len(),
{
    if candidates.len() > 0 {
        let shorter = candidates.drop_last();
        let earlier = retained(shorter);
        let last = candidates.last();
        lemma_retained_is_exact(shorter);
        assert forall|path: Seq<char>|
            #![trigger retained(candidates).contains(path)]
            #![trigger candidates.contains(path)]
            retained(candidates).contains(path) <==> candidates.contains(path) && wanted(
                path,
            ) by {
            if retained(candidates).contains(path) {
                let at = choose|at: int|
                    0 <= at < retained(candidates).len() && retained(candidates)[at] == path;
                if at < earlier.len() {
                    assert(earlier[at] == path);
                    assert(earlier.contains(path));
                    assert(shorter.contains(path) && wanted(path));
                    let from = choose|from: int| 0 <= from < shorter.len() && shorter[from] == path;
                    assert(candidates[from] == path);
                } else {
                    assert(path == last);
                    assert(candidates[candidates.len() - 1] == path);
                }
            }
            if candidates.contains(path) && wanted(path) {
                let from = choose|from: int| 0 <= from < candidates.len() && candidates[from] == path;
                if from < shorter.len() {
                    assert(shorter[from] == path);
                    assert(shorter.contains(path));
                    assert(earlier.contains(path));
                    let at = choose|at: int| 0 <= at < earlier.len() && earlier[at] == path;
                    assert(retained(candidates)[at] == path);
                } else if earlier.contains(path) {
                    let at = choose|at: int| 0 <= at < earlier.len() && earlier[at] == path;
                    assert(retained(candidates)[at] == path);
                } else {
                    assert(retained(candidates)[earlier.len() as int] == path);
                }
            }
        }
    }
}

} // verus!
