//! Removal of what a finished render leaves behind: its frame-server script
//! (with the temporary directory, when the script is the only file in it)
//! and the index file that the frame server writes beside the video.
use vstd::prelude::*;
use crate::paths::{file_name, join, parent, path_file_name, path_join, path_parent};
use crate::render::Render;

verus! {

/// What to remove after a render.
#[derive(Clone, Debug)]
pub struct CleanupPlan {
    /// The directory that holds the script.
    pub temp_dir: String,
    pub script: String,
    /// The index file beside the video; that it is missing is no error.
    pub index_file: String,
}

/// The single removal that clears a script away.
#[derive(Clone, Debug, PartialEq, Eq)]
pub enum Removal {
    /// The whole directory, recursively.
    Directory(String),
    /// The script file alone.
    File(String),
}

/// The index file of a video: `<file name>.ffindex` in the video's directory.
pub open spec fn index_file_of(video: Seq<char>) -> Seq<char> {
    join(parent(video).unwrap(), file_name(video).unwrap() + ".ffindex"@)
}

/// A plan exists when the script has a directory and the video a file name.
pub open spec fn plannable(video: Seq<char>, script: Seq<char>) -> bool {
    parent(script) is Some && parent(video) is Some && file_name(video) is Some
}

pub open spec fn plan_matches(p: CleanupPlan, video: Seq<char>, script: Seq<char>) -> bool {
    &&& p.temp_dir@ == parent(script).unwrap()
    &&& p.script@ == script
    &&& p.index_file@ == index_file_of(video)
}

/// What to remove for a script whose directory holds `entries` entries: the
/// directory when the script is alone in it, else the script alone.
pub open spec fn removal_for(p: CleanupPlan, entries: nat) -> Removal {
    if entries <= 1 {
        Removal::Directory(p.temp_dir)
    } else {
        Removal::File(p.script)
    }
}

/// The plan for a render of `video` whose script is at `script`.
pub fn cleanup_plan(video: &str, script: &str) -> (r: Option<CleanupPlan>)
    ensures
        r is Some <==> plannable(video@, script@),
        r matches Some(p) ==> plan_matches(p, video@, script@),
{
    let temp_dir = match path_parent(script) {
        Some(d) => d,
        None => {
            return None;
        },
    };
    let video_dir = match path_parent(video) {
        Some(d) => d,
        None => {
            return None;
        },
    };
    let mut index_name = match path_file_name(video) {
        Some(n) => String::from_str(n),
        None => {
            return None;
        },
    };
    index_name.append(".ffindex");
    let index_file = path_join(video_dir.as_str(), index_name.as_str());
    Some(CleanupPlan { temp_dir, script: String::from_str(script), index_file })
}

impl CleanupPlan {
    /// The removal to make when the script's directory holds `entries`
    /// entries, the script included.
    pub fn removal(&self, entries: usize) -> (r: Removal)
        ensures
            r == removal_for(*self, entries as nat),
            entries <= 1 ==> r == Removal::Directory(self.temp_dir),
            entries > 1 ==> r == Removal::File(self.script),
    {
        if entries <= 1 {
            Removal::Directory(self.temp_dir.clone())
        } else {
            Removal::File(self.script.clone())
        }
    }
}

/// The cleanup plans of finished renders, one for each, in order.
pub fn clean_temp(videos: &Vec<Render>) -> (r: Vec<Option<CleanupPlan>>)
    ensures
        r@.len() == videos@.len(),
        forall|i: int|
            0 <= i < r@.len() ==> {
                &&& (r@[i] is Some <==> plannable(
                    videos@[i].video_path@,
                    videos@[i].script_path@,
                ))
                &&& (r@[i] matches Some(p) ==> plan_matches(
                    p,
                    videos@[i].video_path@,
                    videos@[i].script_path@,
                ))
            },
{
    let mut plans: Vec<Option<CleanupPlan>> = Vec::new();
    let mut i: usize = 0;
    while i < videos.len()
        invariant
            i <= videos@.len(),
            plans@.len() == i,
            forall|k: int|
                0 <= k < i ==> {
                    &&& (plans@[k] is Some <==> plannable(
                        videos@[k].video_path@,
                        videos@[k].script_path@,
                    ))
                    &&& (plans@[k] matches Some(p) ==> plan_matches(
                        p,
                        videos@[k].video_path@,
                        videos@[k].script_path@,
                    ))
                },
        decreases videos@.len() - i,
    {
        let v = &videos[i];
        plans.push(cleanup_plan(v.video_path.as_str(), v.script_path.as_str()));
        i = i + 1;
    }
    plans
}

} // verus!
