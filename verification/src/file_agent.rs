//! Requests handed to the file agent that moves encrypted payloads between
//! local paths and remote URLs.

use vstd::prelude::*;

verus! {

/// What the file agent should do with each file.
#[derive(Debug, Clone, Copy, PartialEq, Eq, Structural)]
pub enum HandleFileCommand {
    Download,
    Upload,
}

/// One file to move: a local path and the remote URL it corresponds to.
#[derive(Debug, Clone, PartialEq)]
pub struct HandleFileInfo {
    pub local: String,
    pub remote: String,
}

impl HandleFileInfo {
    /// Builds a file-transfer entry.
    pub fn new(local: String, remote: String) -> (r: HandleFileInfo)
        ensures
            r.local@ == local@,
            r.remote@ == remote@,
    {
        HandleFileInfo { local, remote }
    }
}

/// A batch of file transfers, with the base directory that fusion URLs are
/// resolved under.
#[derive(Debug)]
pub struct FileAgentRequest {
    pub cmd: HandleFileCommand,
    pub info: Vec<HandleFileInfo>,
    pub fusion_base: String,
}

impl FileAgentRequest {
    /// Builds a file-agent request.
    pub fn new(cmd: HandleFileCommand, info: Vec<HandleFileInfo>, fusion_base: String) -> (r:
        FileAgentRequest)
        ensures
            r.cmd == cmd,
            r.info.deep_view() == info.deep_view(),
            r.fusion_base@ == fusion_base@,
    {
        FileAgentRequest { cmd, info, fusion_base }
    }
}

impl DeepView for HandleFileInfo {
    type V = (Seq<char>, Seq<char>);

    open spec fn deep_view(&self) -> (Seq<char>, Seq<char>) {
        (self.local@, self.remote@)
    }
}

} // verus!
