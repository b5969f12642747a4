//! Where each photo goes under the output root, and the outcome of a whole run.

use crate::error::PhotoSortError;
use crate::paths::{below_root, file_name, file_name_of, join, join_of, parent, parent_of, strip_root};
use crate::photo::Photo;
use vstd::prelude::*;

verus! {

/// How the destination directory of a photo is built.
#[derive(Clone, Copy, Debug, PartialEq, Eq, Structural)]
pub enum PlacementMode {
    /// `output/date`: photos grouped by date alone.
    FlatByDate,
    /// `output/relative/date`: the photo's directories below the source root kept, the
    /// date directory added below them.
    TreePreserving,
}

/// The directory a photo at `path` with date `date` goes to; `None` where the tree is
/// kept and `path` does not lie under `root`. Where nothing of `path` lies below `root`,
/// the relative part is empty.
pub open spec fn target_dir_of(
    root: Seq<char>,
    output: Seq<char>,
    path: Seq<char>,
    date: Seq<char>,
    mode: PlacementMode,
) -> Option<Seq<char>> {
    match mode {
        PlacementMode::FlatByDate => Some(join_of(output, date)),
        PlacementMode::TreePreserving => match below_root(root, path) {
            Some(rest) => {
                let rel = match parent_of(rest) {
                    Some(d) => d,
                    None => Seq::empty(),
                };
                if rel.len() == 0 {
                    Some(join_of(output, date))
                } else {
                    Some(join_of(join_of(output, rel), date))
                }
            },
            None => None,
        },
    }
}

/// The path a photo at `path` is copied to inside `dir`: `None` where `path` names no file.
pub open spec fn destination_of(dir: Seq<char>, path: Seq<char>) -> Option<Seq<char>> {
    if file_name_of(path).len() == 0 {
        None
    } else {
        Some(join_of(dir, file_name_of(path)))
    }
}

/// The directory to create and the path to copy a photo to.
#[derive(Debug)]
pub struct Placement {
    pub dir: String,
    pub file: String,
}

pub open spec fn text_result(r: Result<String, PhotoSortError>) -> Option<Seq<char>> {
    match r {
        Ok(s) => Some(s@),
        Err(_) => None,
    }
}

/// The directory under `output_dir` that `photo`, found below `photo_dir`, is copied into.
pub fn target_dir(photo_dir: &str, output_dir: &str, photo: &Photo, mode: PlacementMode) -> (r: Result<String, PhotoSortError>)
    ensures
        text_result(r) == target_dir_of(photo_dir@, output_dir@, photo.path@, photo.date@, mode),
        r is Err ==> r matches Err(PhotoSortError::ProcessError(_)),
{
    match mode {
        PlacementMode::FlatByDate => Ok(join(output_dir, photo.date.as_str())),
        PlacementMode::TreePreserving => match strip_root(photo_dir, photo.path.as_str()) {
            Some(rest) => {
                let rel = match parent(rest.as_str()) {
                    Some(d) => d,
                    None => String::new(),
                };
                if rel.as_str().unicode_len() == 0 {
                    Ok(join(output_dir, photo.date.as_str()))
                } else {
                    let base = join(output_dir, rel.as_str());
                    Ok(join(base.as_str(), photo.date.as_str()))
                }
            },
            None => Err(PhotoSortError::ProcessError(String::from_str("path does not lie under the source root"))),
        },
    }
}

/// The path inside `dir` that `photo` is copied to, under its own file name.
pub fn destination_path(dir: &str, photo: &Photo) -> (r: Result<String, PhotoSortError>)
    ensures
        text_result(r) == destination_of(dir@, photo.path@),
        r is Err ==> r matches Err(PhotoSortError::ProcessError(_)),
{
    let name = file_name(photo.path.as_str());
    if name.as_str().unicode_len() == 0 {
        Err(PhotoSortError::ProcessError(String::from_str("invalid file name")))
    } else {
        Ok(join(dir, name.as_str()))
    }
}

/// The directory and the destination path of `photo`.
pub fn plan_placement(photo_dir: &str, output_dir: &str, photo: &Photo, mode: PlacementMode) -> (r: Result<Placement, PhotoSortError>)
    ensures
        r is Ok <==> (target_dir_of(photo_dir@, output_dir@, photo.path@, photo.date@, mode) matches Some(d) && destination_of(d, photo.path@) is Some),
        r matches Ok(p) ==> Some(p.dir@) == target_dir_of(photo_dir@, output_dir@, photo.path@, photo.date@, mode),
        r matches Ok(p) ==> Some(p.file@) == destination_of(p.dir@, photo.path@),
        r is Err ==> r matches Err(PhotoSortError::ProcessError(_)),
{
    let dir = match target_dir(photo_dir, output_dir, photo, mode) {
        Ok(d) => d,
        Err(e) => return Err(e),
    };
    match destination_path(dir.as_str(), photo) {
        Ok(file) => Ok(Placement { dir, file }),
        Err(e) => Err(e),
    }
}

/// The outcome of a run from the outcomes of its photos: success where every photo was
/// placed, otherwise the first failure.
pub fn first_failure(results: Vec<Result<(), PhotoSortError>>) -> (r: Result<(), PhotoSortError>)
    ensures
        r is Ok <==> forall|i: int| 0 <= i < results@.len() ==> results@[i] is Ok,
        r is Err ==> exists|i: int| 0 <= i < results@.len() && results@[i] == r && forall|j: int| 0 <= j < i ==> results@[j] is Ok,
{
    let mut i: usize = 0;
    while i < results.len()
        invariant
            i <= results@.len(),
            forall|j: int| 0 <= j < i ==> results@[j] is Ok,
        decreases results.len() - i,
    {
        if results[i].is_err() {
            let mut rest = results;
            let r = rest.remove(i);
            return r;
        }
        i = i + 1;
    }
    Ok(())
}

} // verus!
