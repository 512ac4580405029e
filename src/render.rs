//! Render jobs, the queue they wait in, and the command-line options.
use vstd::prelude::*;
use crate::command::Settings;
use crate::paths::{file_name, file_stem, join, parent, path_file_name, path_file_stem, path_join, path_parent};

verus! {

/// Command-line options: the input file names (comma separated), and whether
/// to run without the user interface.
#[derive(Clone, Debug)]
pub struct Cli {
    pub input: Option<String>,
    pub noui: bool,
}

/// One render job. Two jobs are the same job when they read the same video.
#[derive(Clone, Debug)]
pub struct Render {
    pub video_path: String,
    pub video_folder: String,
    pub script_path: String,
    pub input_filename: String,
    pub output_filepath: String,
    pub settings: Settings,
    pub stdout: bool,
}

/// The output path of a render of `video`: `<stem>_blur.<container>` beside it.
pub open spec fn blur_output(video: Seq<char>, container: Seq<char>) -> Seq<char> {
    join(parent(video).unwrap(), file_stem(video).unwrap() + "_blur."@ + container)
}

/// A video path can be rendered when it has a parent directory and a file name.
pub open spec fn renderable(video: Seq<char>) -> bool {
    parent(video) is Some && file_name(video) is Some
}

impl Render {
    /// A job for the video at `input_path`, whose frame-server script is at
    /// `script_path`; `None` when the path has no parent or no file name.
    pub fn new(input_path: String, stdout: bool, settings: Settings, script_path: String) -> (r:
        Option<Render>)
        ensures
            r is Some <==> renderable(input_path@),
            r matches Some(job) ==> {
                &&& job.video_path@ == input_path@
                &&& job.video_folder@ == parent(input_path@).unwrap()
                &&& job.input_filename@ == file_name(input_path@).unwrap()
                &&& job.output_filepath@ == blur_output(input_path@, settings.container@)
                &&& job.script_path == script_path
                &&& job.settings == settings
                &&& job.stdout == stdout
            },
    {
        let video_folder = match path_parent(input_path.as_str()) {
            Some(p) => p,
            None => {
                return None;
            },
        };
        let input_filename = match path_file_name(input_path.as_str()) {
            Some(n) => String::from_str(n),
            None => {
                return None;
            },
        };
        let video_name = match path_file_stem(input_path.as_str()) {
            Some(s) => s,
            None => {
                return None;
            },
        };
        let mut name = String::from_str(video_name);
        name.append("_blur.");
        name.append(settings.container.as_str());
        let output_filepath = path_join(video_folder.as_str(), name.as_str());
        Some(
            Render {
                video_path: input_path,
                video_folder,
                script_path,
                input_filename,
                output_filepath,
                settings,
                stdout,
            },
        )
    }
}

impl PartialEq for Render {
    fn eq(&self, other: &Render) -> (r: bool) {
        self.video_path == other.video_path
    }
}

impl vstd::std_specs::cmp::PartialEqSpecImpl for Render {
    open spec fn obeys_eq_spec() -> bool {
        true
    }

    open spec fn eq_spec(&self, other: &Render) -> bool {
        self.video_path@ == other.video_path@
    }
}

/// The queue of render jobs, processed in the order they were added.
#[derive(Clone, Debug)]
pub struct Rendering {
    pub queue: Vec<Render>,
    pub renders_queued: bool,
}

impl Rendering {
    /// The queue holds jobs exactly when they are flagged as queued.
    pub open spec fn wf(&self) -> bool {
        self.renders_queued == (self.queue@.len() > 0)
    }

    /// An empty queue.
    pub fn new() -> (r: Rendering)
        ensures
            r.queue@.len() == 0,
            !r.renders_queued,
            r.wf(),
    {
        Rendering { queue: Vec::new(), renders_queued: false }
    }

    /// Adds a job at the end of the queue.
    pub fn queue_render(&mut self, render: Render)
        ensures
            final(self).queue@ == old(self).queue@.push(render),
            final(self).renders_queued,
            final(self).wf(),
    {
        self.queue.push(render);
        self.renders_queued = true;
    }

    /// Hands out the queued jobs, in order, and leaves the queue empty; a
    /// queue not flagged as queued hands out nothing.
    pub fn take_queued(&mut self) -> (r: Vec<Render>)
        ensures
            r@ == if old(self).renders_queued {
                old(self).queue@
            } else {
                Seq::empty()
            },
            old(self).renders_queued ==> final(self).queue@.len() == 0,
            !old(self).renders_queued ==> final(self).queue@ == old(self).queue@,
            !final(self).renders_queued,
            old(self).wf() ==> final(self).wf(),
    {
        if self.renders_queued {
            let mut jobs: Vec<Render> = Vec::new();
            core::mem::swap(&mut jobs, &mut self.queue);
            self.renders_queued = false;
            jobs
        } else {
            Vec::new()
        }
    }
}

} // verus!
