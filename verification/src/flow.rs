use vstd::prelude::*;
use vstd::string::*;

use crate::paths::cache_path_spec;
use crate::service::{download_request, execute_reply, function_bucket_spec, DownloadRequest, Reply};
use crate::upload::{upload_reply, UploadJob, UploadOutcome};

verus! {

/// A copy of a list of texts.
fn copy_texts(v: &Vec<String>) -> (r: Vec<String>)
    ensures
        r@.len() == v@.len(),
        forall|i: int| 0 <= i < v@.len() ==> #[trigger] r@[i]@ == v@[i]@,
{
    let mut r: Vec<String> = Vec::new();
    let mut i: usize = 0;
    while i < v.len()
        invariant
            i <= v@.len(),
            r@.len() == i,
            forall|j: int| 0 <= j < i ==> #[trigger] r@[j]@ == v@[j]@,
        decreases v@.len() - i,
    {
        r.push(v[i].clone());
        i = i + 1;
    }
    r
}

/// How far a run request has got.
pub enum ExecuteStage {
    /// The module is being fetched from the object store.
    Downloading,
    /// The fetched module is being looked for in the cache.
    Checking,
    /// The module is running.
    Running,
    /// The run ended with this result; the fetched copy is being removed.
    RemovingCopy(Result<String, String>),
    /// The request has been answered.
    Answered,
}

/// What the server reports back to a run request's flow.
pub enum ExecuteEvent {
    /// The module was fetched.
    Downloaded,
    /// Whether the fetched module is in the cache.
    FileChecked(bool),
    /// The run ended with this result.
    Ran(Result<String, String>),
    /// The fetched copy was removed.
    Removed,
}

/// What the server is to do next for a run request.
pub enum ExecuteAction {
    /// Fetch the module.
    Download(DownloadRequest),
    /// Look for the fetched module at `path`.
    CheckFile { path: String },
    /// Run the function `name` with `params`.
    Run { name: String, params: Vec<String> },
    /// Remove the fetched copy at `path`.
    RemoveFile { path: String },
    /// Answer the request.
    Answer(Reply),
}

/// The position of a run stage in the order the stages come in.
pub open spec fn execute_rank(stage: ExecuteStage) -> int {
    match stage {
        ExecuteStage::Downloading => 0,
        ExecuteStage::Checking => 1,
        ExecuteStage::Running => 2,
        ExecuteStage::RemovingCopy(_) => 3,
        ExecuteStage::Answered => 4,
    }
}

/// Whether `event` is what the stage `stage` waits for.
pub open spec fn execute_expects(stage: ExecuteStage, event: ExecuteEvent) -> bool {
    match stage {
        ExecuteStage::Downloading => event is Downloaded,
        ExecuteStage::Checking => event is FileChecked,
        ExecuteStage::Running => event is Ran,
        ExecuteStage::RemovingCopy(_) => event is Removed,
        ExecuteStage::Answered => false,
    }
}

/// The decisions of a request to run a function: fetch it to the cache, run
/// it when it is there (404 otherwise), remove the fetched copy, answer
/// with the run's output (200) or error (500).
pub struct ExecuteFlow {
    pub fn_name: String,
    pub params: Vec<String>,
    pub stage: ExecuteStage,
}

impl ExecuteFlow {
    /// Starts a request to run `fn_name` with `params`: the first step
    /// fetches the function to the cache.
    pub fn begin(fn_name: String, params: Vec<String>) -> (r: (ExecuteFlow, ExecuteAction))
        ensures
            r.0.fn_name@ == fn_name@,
            r.0.params@ == params@,
            r.0.stage is Downloading,
            r.1 matches ExecuteAction::Download(d) && d.bucket@ == function_bucket_spec()
                && d.object@ == fn_name@ && d.path@ == cache_path_spec(fn_name@),
    {
        let download = download_request(&fn_name);
        (ExecuteFlow { fn_name, params, stage: ExecuteStage::Downloading }, ExecuteAction::Download(download))
    }

    /// Takes what the last step gave and decides the next one.
    pub fn advance(&mut self, event: ExecuteEvent) -> (action: ExecuteAction)
        requires
            execute_expects(old(self).stage, event),
        ensures
            final(self).fn_name == old(self).fn_name,
            final(self).params == old(self).params,
            execute_rank(final(self).stage) > execute_rank(old(self).stage),
            match event {
                ExecuteEvent::Downloaded => final(self).stage is Checking
                    && (action matches ExecuteAction::CheckFile { path }
                    && path@ == cache_path_spec(old(self).fn_name@)),
                ExecuteEvent::FileChecked(true) => final(self).stage is Running
                    && (action matches ExecuteAction::Run { name, params } && name@ == old(self).fn_name@
                    && params@.len() == old(self).params@.len()
                    && forall|i: int| 0 <= i < params@.len() ==> #[trigger] params@[i]@ == old(self).params@[i]@),
                ExecuteEvent::FileChecked(false) => final(self).stage is Answered
                    && (action matches ExecuteAction::Answer(Reply::Text { status, body })
                    && status == 404 && body@ == "Function not found"@),
                ExecuteEvent::Ran(out) => final(self).stage == ExecuteStage::RemovingCopy(out)
                    && (action matches ExecuteAction::RemoveFile { path }
                    && path@ == cache_path_spec(old(self).fn_name@)),
                ExecuteEvent::Removed => final(self).stage is Answered && match old(self).stage {
                    ExecuteStage::RemovingCopy(Ok(content)) => action matches ExecuteAction::Answer(
                        Reply::Text { status, body },
                    ) && status == 200 && body@ == content@,
                    ExecuteStage::RemovingCopy(Err(e)) => action matches ExecuteAction::Answer(
                        Reply::Text { status, body },
                    ) && status == 500 && body@ == e@,
                    _ => false,
                },
            },
    {
        let mut stage = ExecuteStage::Answered;
        std::mem::swap(&mut stage, &mut self.stage);
        match event {
            ExecuteEvent::Downloaded => {
                self.stage = ExecuteStage::Checking;
                let download = download_request(&self.fn_name);
                ExecuteAction::CheckFile { path: download.path }
            },
            ExecuteEvent::FileChecked(present) => {
                if present {
                    self.stage = ExecuteStage::Running;
                    ExecuteAction::Run { name: self.fn_name.clone(), params: copy_texts(&self.params) }
                } else {
                    self.stage = ExecuteStage::Answered;
                    ExecuteAction::Answer(execute_reply(None))
                }
            },
            ExecuteEvent::Ran(out) => {
                self.stage = ExecuteStage::RemovingCopy(out);
                let download = download_request(&self.fn_name);
                ExecuteAction::RemoveFile { path: download.path }
            },
            ExecuteEvent::Removed => {
                self.stage = ExecuteStage::Answered;
                match stage {
                    ExecuteStage::RemovingCopy(out) => ExecuteAction::Answer(execute_reply(Some(out))),
                    _ => ExecuteAction::Answer(execute_reply(None)),
                }
            },
        }
    }
}

/// How far the storing of an uploaded module has got.
pub enum UploadStage {
    /// The directory of the temporary copy is being made.
    CreatingDirectory,
    /// The temporary copy is being written.
    Writing,
    /// The module is being put into the object store.
    Storing,
    /// The temporary copy is being removed.
    RemovingCopy,
    /// The upload has been answered.
    Answered,
}

/// What the server is to do next for an upload.
pub enum UploadAction {
    /// Make the directory that holds `path` (when `path` has one).
    CreateDirectory { path: String },
    /// Write the module to `path`.
    WriteFile { path: String },
    /// Put the file at `path` into `bucket` as `object`.
    StoreObject { bucket: String, object: String, path: String },
    /// Remove the temporary copy at `path`.
    RemoveFile { path: String },
    /// Answer the upload.
    Answer(Reply),
}

/// The position of an upload stage in the order the stages come in.
pub open spec fn upload_rank(stage: UploadStage) -> int {
    match stage {
        UploadStage::CreatingDirectory => 0,
        UploadStage::Writing => 1,
        UploadStage::Storing => 2,
        UploadStage::RemovingCopy => 3,
        UploadStage::Answered => 4,
    }
}

/// The decisions of storing an uploaded module: make the directory, write a
/// temporary copy, put it into the object store, remove the copy and answer
/// 200; a failing step is answered with 500 and its error.
pub struct UploadFlow {
    pub job: UploadJob,
    pub stage: UploadStage,
}

impl UploadFlow {
    /// Starts storing `job`: the first step makes the directory of its
    /// temporary copy.
    pub fn begin(job: UploadJob) -> (r: (UploadFlow, UploadAction))
        ensures
            r.0.job == job,
            r.0.stage is CreatingDirectory,
            r.1 matches UploadAction::CreateDirectory { path } && path@ == job.path@,
    {
        let path = job.path.clone();
        (UploadFlow { job, stage: UploadStage::CreatingDirectory }, UploadAction::CreateDirectory { path })
    }

    /// Takes how the last step went and decides the next one. (Removing the
    /// temporary copy is not expected to fail.)
    pub fn advance(&mut self, result: Result<(), String>) -> (action: UploadAction)
        requires
            !(old(self).stage is Answered),
            old(self).stage is RemovingCopy ==> result is Ok,
        ensures
            final(self).job == old(self).job,
            upload_rank(final(self).stage) > upload_rank(old(self).stage),
            match (old(self).stage, result) {
                (UploadStage::CreatingDirectory, Ok(_)) => final(self).stage is Writing
                    && (action matches UploadAction::WriteFile { path } && path@ == old(self).job.path@),
                (UploadStage::CreatingDirectory, Err(e)) => final(self).stage is Answered
                    && (action matches UploadAction::Answer(Reply::Text { status, body })
                    && status == 500 && body@ == "Failed to create directory: "@ + e@),
                (UploadStage::Writing, Ok(_)) => final(self).stage is Storing
                    && (action matches UploadAction::StoreObject { bucket, object, path }
                    && bucket@ == old(self).job.bucket@ && object@ == old(self).job.fn_name@
                    && path@ == old(self).job.path@),
                (UploadStage::Writing, Err(e)) => final(self).stage is Answered
                    && (action matches UploadAction::Answer(Reply::Text { status, body })
                    && status == 500 && body@ == "Failed to write file: "@ + e@),
                (UploadStage::Storing, Ok(_)) => final(self).stage is RemovingCopy
                    && (action matches UploadAction::RemoveFile { path } && path@ == old(self).job.path@),
                (UploadStage::Storing, Err(e)) => final(self).stage is Answered
                    && (action matches UploadAction::Answer(Reply::Text { status, body })
                    && status == 500 && body@ == "Failed to upload file to MinIO: "@ + e@),
                (UploadStage::RemovingCopy, _) => final(self).stage is Answered
                    && (action matches UploadAction::Answer(Reply::Text { status, body })
                    && status == 200
                    && body@ == "Function '"@ + old(self).job.fn_name@ + "' uploaded successfully"@),
                (UploadStage::Answered, _) => false,
            },
    {
        let mut stage = UploadStage::Answered;
        std::mem::swap(&mut stage, &mut self.stage);
        match stage {
            UploadStage::CreatingDirectory => match result {
                Ok(()) => {
                    self.stage = UploadStage::Writing;
                    UploadAction::WriteFile { path: self.job.path.clone() }
                },
                Err(e) => UploadAction::Answer(upload_reply(&self.job.fn_name, UploadOutcome::DirectoryFailed(e))),
            },
            UploadStage::Writing => match result {
                Ok(()) => {
                    self.stage = UploadStage::Storing;
                    UploadAction::StoreObject {
                        bucket: self.job.bucket.clone(),
                        object: self.job.fn_name.clone(),
                        path: self.job.path.clone(),
                    }
                },
                Err(e) => UploadAction::Answer(upload_reply(&self.job.fn_name, UploadOutcome::WriteFailed(e))),
            },
            UploadStage::Storing => match result {
                Ok(()) => {
                    self.stage = UploadStage::RemovingCopy;
                    UploadAction::RemoveFile { path: self.job.path.clone() }
                },
                Err(e) => UploadAction::Answer(upload_reply(&self.job.fn_name, UploadOutcome::StoreFailed(e))),
            },
            _ => UploadAction::Answer(upload_reply(&self.job.fn_name, UploadOutcome::Stored)),
        }
    }
}

} // verus!
