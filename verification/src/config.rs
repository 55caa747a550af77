//! Settings of one publish run and the summary it returns.

use vstd::prelude::*;

verus! {

/// How to reach the remote host.
#[derive(Debug, Default, Clone)]
pub struct Server {
    pub host: String,
    pub port: u32,
    pub username: String,
    pub password: String,
    /// Seconds to wait for the host; `None` or zero stands for the default.
    pub timeout: Option<u64>,
}

impl Server {
    /// A server entry is incomplete when the host, the user or the password is
    /// missing, or the port is zero.
    pub open spec fn incomplete(&self) -> bool {
        self.host@.len() == 0 || self.port == 0 || self.username@.len() == 0
            || self.password@.len() == 0
    }

    pub fn is_empty(&self) -> (r: bool)
        ensures
            r == self.incomplete(),
    {
        self.host.as_str().is_empty() || self.port == 0 || self.username.as_str().is_empty()
            || self.password.as_str().is_empty()
    }
}

/// What to publish and where.
#[derive(Debug, Default, Clone)]
pub struct Upload {
    /// Shell commands to run on the host once the tree is in place.
    pub cmds: Vec<String>,
    /// Local directory that holds the built artifact.
    pub dir: String,
    /// Remote directory under which the artifact is published.
    pub server_dir: String,
    /// Name of the artifact on the host; derived from `dir` where absent.
    pub server_file_name: Option<String>,
    /// Whether to replace changed files only, where the host allows it.
    pub need_increment: bool,
}

impl Upload {
    /// An upload entry is incomplete when the local or the remote directory
    /// is missing.
    pub open spec fn incomplete(&self) -> bool {
        self.dir@.len() == 0 || self.server_dir@.len() == 0
    }

    pub fn is_empty(&self) -> (r: bool)
        ensures
            r == self.incomplete(),
    {
        self.dir.as_str().is_empty() || self.server_dir.as_str().is_empty()
    }
}

/// A program to copy to the host unless the host already holds it.
#[derive(Debug, Default, Clone)]
pub struct ValidateCopy {
    /// Digest of the local file.
    pub hash: String,
    /// Full local path of the file.
    pub file_path: String,
    /// Directory on the host, relative to the user's home.
    pub dest_dir: String,
}

impl ValidateCopy {
    /// A copy entry is incomplete when any of its three fields is missing.
    pub open spec fn incomplete(&self) -> bool {
        self.hash@.len() == 0 || self.file_path@.len() == 0 || self.dest_dir@.len() == 0
    }

    pub fn is_empty(&self) -> (r: bool)
        ensures
            r == self.incomplete(),
    {
        self.hash.as_str().is_empty() || self.file_path.as_str().is_empty()
            || self.dest_dir.as_str().is_empty()
    }
}

/// The outcome of planning one publish run.
#[derive(Debug, Default, Clone)]
pub struct SftpUploadResult {
    /// Files to add or replace.
    pub file_count: u64,
    /// The remote commands, in the order in which they run.
    pub exec_commands: Vec<String>,
    /// Files to delete.
    pub delete_file_count: u64,
    /// Whether the run replaces changed files only.
    pub need_increment: bool,
}

/// The mathematical value of a [`SftpUploadResult`].
pub struct PublishPlan {
    pub file_count: nat,
    pub exec_commands: Seq<Seq<char>>,
    pub delete_file_count: nat,
    pub need_increment: bool,
}

impl View for SftpUploadResult {
    type V = PublishPlan;

    open spec fn view(&self) -> PublishPlan {
        PublishPlan {
            file_count: self.file_count as nat,
            exec_commands: self.exec_commands.deep_view(),
            delete_file_count: self.delete_file_count as nat,
            need_increment: self.need_increment,
        }
    }
}

} // verus!
