//! Working with the host over one session: time-outs, progress lines,
//! digests of remote files, and the order of the steps of an upload.

use vstd::prelude::*;
use crate::text::{trim, trim_of, split_fields, fields_of, decimal, numeral, join_text};
use crate::config::Server;
use crate::digest::{content_digest, recorded_hash};

verus! {

/// The rules of a session with the host.
pub struct SftpHandler;

/// How grave a progress line is.
#[derive(Debug, Clone, Copy, PartialEq, Eq, Structural)]
pub enum LogLevel {
    Info,
    Error,
}

/// One progress line for the caller of a run.
#[derive(Debug, Clone)]
pub struct LogLine {
    pub level: LogLevel,
    pub text: String,
}

/// The mathematical value of a [`LogLine`].
pub struct LogEntry {
    pub level: LogLevel,
    pub text: Seq<char>,
}

impl View for LogLine {
    type V = LogEntry;

    open spec fn view(&self) -> LogEntry {
        LogEntry { level: self.level, text: self.text@ }
    }
}

impl DeepView for LogLine {
    type V = LogEntry;

    open spec fn deep_view(&self) -> LogEntry {
        self@
    }
}

/// The steps that put one file on the host, in the order in which they run.
#[derive(Debug, Clone, Copy, PartialEq, Eq, Structural)]
pub enum UploadStep {
    /// Create the remote directory, open to all.
    MakeDir,
    /// Delete the remote file that is in the way.
    Unlink,
    /// Create the remote file.
    Create,
    /// Write the content.
    Write,
    /// Open the remote file to all: mode 777.
    SetPermission,
}

/// The steps that close a channel, in the order in which they run.
#[derive(Debug, Clone, Copy, PartialEq, Eq, Structural)]
pub enum ChannelStep {
    SendEof,
    WaitEof,
    Close,
    WaitClose,
}

/// Seconds to wait for the host where the settings name none.
pub open spec fn default_time_out() -> u64 {
    10
}

/// Seconds to wait for the host: the setting, or the default where it is
/// absent or zero.
pub open spec fn time_out_of(timeout: Option<u64>) -> u64 {
    match timeout {
        Some(seconds) => if seconds > 0 {
            seconds
        } else {
            default_time_out()
        },
        None => default_time_out(),
    }
}

/// The address of the host: its name or number, a colon, and the port.
pub open spec fn address_of(server: Server) -> Seq<char> {
    server.host@ + ":"@ + numeral(server.port as nat)
}

/// The time to wait for the host in milliseconds, as far as 32 bits hold it.
pub open spec fn time_out_millis_of(timeout: Option<u64>) -> u32 {
    if time_out_of(timeout) * 1000 <= u32::MAX {
        (time_out_of(timeout) * 1000) as u32
    } else {
        u32::MAX
    }
}

/// The steps of an upload to a directory that exists or not, where a remote
/// file of that name exists or not.
pub open spec fn upload_steps(dir_exists: bool, remote_exists: bool) -> Seq<UploadStep> {
    (if dir_exists {
        Seq::<UploadStep>::empty()
    } else {
        seq![UploadStep::MakeDir]
    }) + (if remote_exists {
        seq![UploadStep::Unlink]
    } else {
        Seq::<UploadStep>::empty()
    }) + seq![UploadStep::Create, UploadStep::Write, UploadStep::SetPermission]
}

/// The home directory in one line of the password database: its sixth field,
/// the fields being set apart by colons.
pub open spec fn home_dir_of(output: Seq<char>) -> Option<Seq<char>> {
    let fields = fields_of(trim_of(output), ':');
    if fields.len() >= 6 {
        Some(fields[5])
    } else {
        None
    }
}

impl SftpHandler {
    /// The address to connect to.
    pub fn connect(server: &Server) -> (r: String)
        ensures
            r@ == address_of(*server),
    {
        let mut address = join_text(server.host.as_str(), ":");
        let port = decimal(server.port as u64);
        address.append(port.as_str());
        address
    }

    /// Seconds to wait for the host.
    pub fn get_time_out(timeout: Option<u64>) -> (r: u64)
        ensures
            r == time_out_of(timeout),
            r > 0,
    {
        match timeout {
            Some(seconds) => if seconds > 0 {
                seconds
            } else {
                10
            },
            None => 10,
        }
    }

    /// The time to wait for an answer of the host, in milliseconds; the
    /// longest time that 32 bits hold where the setting is longer.
    pub fn get_time_out_millis(timeout: Option<u64>) -> (r: u32)
        ensures
            r == time_out_millis_of(timeout),
            r > 0,
    {
        let seconds = Self::get_time_out(timeout);
        if seconds <= 4294967 {
            (seconds * 1000) as u32
        } else {
            u32::MAX
        }
    }

    /// Adds a progress line to `log`.
    pub fn log_info(msg: &str, log: &mut Vec<LogLine>)
        ensures
            final(log).deep_view() == old(log).deep_view().push(
                LogEntry { level: LogLevel::Info, text: msg@ },
            ),
    {
        let ghost before = log.deep_view();
        log.push(LogLine { level: LogLevel::Info, text: msg.to_owned() });
        assert(log.deep_view() =~= before.push(LogEntry { level: LogLevel::Info, text: msg@ }));
    }

    /// Adds a progress line that tells of an error to `log`.
    pub fn log_error(msg: &str, log: &mut Vec<LogLine>)
        ensures
            final(log).deep_view() == old(log).deep_view().push(
                LogEntry { level: LogLevel::Error, text: msg@ },
            ),
    {
        let ghost before = log.deep_view();
        log.push(LogLine { level: LogLevel::Error, text: msg.to_owned() });
        assert(log.deep_view() =~= before.push(LogEntry { level: LogLevel::Error, text: msg@ }));
    }

    /// The digest recorded for a remote file: that of its content, or the
    /// empty string where the file does not exist (`None`).
    pub fn get_file_hash(content: Option<&[u8]>) -> (r: String)
        ensures
            r@ == recorded_hash(
                match content {
                    Some(data) => Some(data@),
                    None => None,
                },
            ),
            content is Some ==> r@.len() == 64,
    {
        match content {
            Some(data) => content_digest(data),
            None => String::new(),
        }
    }

    /// The steps that put a local file on the host. `None` where the local
    /// file does not exist: nothing is sent then.
    pub fn upload(local_exists: bool, dir_exists: bool, remote_exists: bool) -> (r: Option<
        Vec<UploadStep>,
    >)
        ensures
            !local_exists ==> r is None,
            local_exists ==> r is Some && r->Some_0@ == upload_steps(dir_exists, remote_exists),
    {
        if !local_exists {
            return None;
        }
        let mut steps: Vec<UploadStep> = Vec::new();
        if Self::check_dir(dir_exists) {
            steps.push(UploadStep::MakeDir);
        }
        if remote_exists {
            steps.push(UploadStep::Unlink);
        }
        steps.push(UploadStep::Create);
        steps.push(UploadStep::Write);
        steps.push(UploadStep::SetPermission);
        assert(steps@ =~= upload_steps(dir_exists, remote_exists));
        Some(steps)
    }

    /// Whether a remote directory has to be created.
    pub fn check_dir(dir_exists: bool) -> (r: bool)
        ensures
            r == !dir_exists,
    {
        !dir_exists
    }

    /// The home directory of a user, from the line that the password
    /// database of the host holds for that user.
    pub fn get_user_home_dir(output: &str) -> (r: Option<String>)
        ensures
            r.deep_view() == home_dir_of(output@),
    {
        let line = trim(output);
        let fields = split_fields(line.as_str(), ':');
        if fields.len() >= 6 {
            assert(fields.deep_view()[5] == fields@[5]@);
            Some(fields[5].clone())
        } else {
            None
        }
    }

    /// The steps that close a channel: send the end of input, wait for the
    /// end of output, close, wait for the close.
    pub fn close_channel() -> (r: Vec<ChannelStep>)
        ensures
            r@ == seq![
                ChannelStep::SendEof,
                ChannelStep::WaitEof,
                ChannelStep::Close,
                ChannelStep::WaitClose,
            ],
    {
        let mut steps: Vec<ChannelStep> = Vec::new();
        steps.push(ChannelStep::SendEof);
        steps.push(ChannelStep::WaitEof);
        steps.push(ChannelStep::Close);
        steps.push(ChannelStep::WaitClose);
        assert(steps@ =~= seq![
            ChannelStep::SendEof,
            ChannelStep::WaitEof,
            ChannelStep::Close,
            ChannelStep::WaitClose,
        ]);
        steps
    }

    /// Whether a batch of commands succeeded, going by what it wrote to its
    /// error stream: anything there is a failure.
    pub fn get_channel_output(stderr: &str) -> (r: bool)
        ensures
            r == (stderr@.len() == 0),
    {
        stderr.is_empty()
    }
}

} // verus!
