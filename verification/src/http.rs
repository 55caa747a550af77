//! The rules of requests and downloads that need no network.

use vstd::prelude::*;
use crate::text::join_text;
use crate::text::join_text3;
use crate::paths::{dir_name, dir_name_of, join_path, join_of};

verus! {

/// What went wrong with a request. Each kind carries the text of its cause.
#[derive(Debug, Clone)]
pub enum HttpError {
    /// Something that is needed was empty.
    Empty(String),
    /// Any other error.
    Error(String),
    /// The client could not be made.
    CreateClientError(String),
    /// The request could not be sent.
    SendError(String),
    /// The response could not be got.
    ResponseError(String),
}

/// The text of an error.
pub open spec fn error_text(error: HttpError) -> Seq<char> {
    match error {
        HttpError::Empty(cause) => "`"@ + cause@ + "`"@,
        HttpError::Error(cause) => cause@,
        HttpError::CreateClientError(cause) => "create http client error: "@ + cause@,
        HttpError::SendError(cause) => "send request error: "@ + cause@,
        HttpError::ResponseError(cause) => "get response error: "@ + cause@,
    }
}

impl HttpError {
    /// The text of this error.
    pub fn message(&self) -> (r: String)
        ensures
            r@ == error_text(*self),
    {
        match self {
            HttpError::Empty(cause) => join_text3("`", cause.as_str(), "`"),
            HttpError::Error(cause) => cause.clone(),
            HttpError::CreateClientError(cause) => join_text(
                "create http client error: ",
                cause.as_str(),
            ),
            HttpError::SendError(cause) => join_text("send request error: ", cause.as_str()),
            HttpError::ResponseError(cause) => join_text("get response error: ", cause.as_str()),
        }
    }
}

/// The rules of a request.
pub struct HttpClient;

/// What is said of a request without an address.
pub open spec fn no_address_message() -> Seq<char> {
    "url is empty !"@
}

impl HttpClient {
    /// Checks a request before it is sent: one without an address is turned
    /// down.
    pub fn send(url: &str) -> (r: Result<(), HttpError>)
        ensures
            url@.len() > 0 ==> r is Ok,
            url@.len() == 0 ==> (r matches Err(HttpError::Empty(said)) && said@
                == no_address_message()),
    {
        if url.is_empty() {
            Err(HttpError::Empty("url is empty !".to_owned()))
        } else {
            Ok(())
        }
    }

    /// Seconds to wait for a response: the setting, or thirty.
    pub fn get_timeout(timeout: Option<u64>) -> (r: u64)
        ensures
            r == (match timeout {
                Some(seconds) => seconds,
                None => 30,
            }),
    {
        match timeout {
            Some(seconds) => seconds,
            None => 30,
        }
    }
}

/// What to download and where to.
#[derive(Debug, Default, Clone)]
pub struct DownloadOptions {
    /// Address of the file.
    pub url: String,
    /// Name to save it under; the last part of the address where absent.
    pub file_name: Option<String>,
    /// Seconds to wait; thirty where absent, for ever where zero.
    pub timeout: Option<u64>,
    /// Directory to save it in.
    pub output_dir: Option<String>,
    /// Whether a file that is there already is written again.
    pub overwrite: Option<bool>,
}

/// The outcome of a download.
#[derive(Default, Debug, Clone)]
pub struct DownloadResult {
    pub dir: String,
    pub success: bool,
    pub file_name: String,
    pub url: String,
}

impl DownloadResult {
    /// A result is empty when it names no directory, no file and no address.
    pub fn is_empty(args: &DownloadResult) -> (r: bool)
        ensures
            r == (args.dir@.len() == 0 && args.file_name@.len() == 0 && args.url@.len() == 0),
    {
        args.dir.as_str().is_empty() && args.file_name.as_str().is_empty()
            && args.url.as_str().is_empty()
    }
}

/// The rules of a download.
pub struct Download;

/// The name that a download is saved under: the name asked for, or the last
/// part of the address.
pub open spec fn download_name(options: DownloadOptions) -> Seq<char> {
    match options.file_name {
        Some(name) => name@,
        None => dir_name_of(options.url@),
    }
}

/// The path that a download is saved at.
pub open spec fn download_path(options: DownloadOptions, name: Seq<char>) -> Seq<char> {
    match options.output_dir {
        Some(dir) => join_of(dir@, name),
        None => name,
    }
}

/// Whether a file is fetched: always, unless a file of the length that the
/// server states is there already and is not to be written again.
pub open spec fn is_fetched(
    existing_size: Option<u64>,
    content_length: u64,
    overwrite: Option<bool>,
) -> bool {
    match existing_size {
        Some(size) => if size == content_length {
            match overwrite {
                Some(again) => again,
                None => true,
            }
        } else {
            true
        },
        None => true,
    }
}

/// How a download went.
#[derive(Debug, Clone, Copy, PartialEq, Eq, Structural)]
pub enum Fetched {
    /// The server answered with a status other than success.
    BadStatus,
    /// The server states a length of zero: the file is empty there.
    NoContent,
    /// A file of the stated length is there already and is kept.
    AlreadyThere,
    /// The file could not be created.
    NotCreated,
    /// The file could not be written to its end.
    NotWritten,
    /// The file was written.
    Written,
}

/// What is said of a download without an address.
pub open spec fn no_url_message() -> Seq<char> {
    "download url is empty !"@
}

/// What is said of a download without a name.
pub open spec fn no_name_message() -> Seq<char> {
    "download file name is empty, please check `url` or `file_name` !"@
}

/// How a download ends before anything is fetched, if it does: with a
/// status other than success, with a stated length of zero, or with the file
/// there already; `None` where the file is fetched.
pub open spec fn ended_before_fetch(
    status_success: bool,
    content_length: u64,
    existing_size: Option<u64>,
    overwrite: Option<bool>,
) -> Option<Fetched> {
    if !status_success {
        Some(Fetched::BadStatus)
    } else if content_length == 0 {
        Some(Fetched::NoContent)
    } else if !is_fetched(existing_size, content_length, overwrite) {
        Some(Fetched::AlreadyThere)
    } else {
        None
    }
}

/// Whether a download that went like this succeeded: the file is there, kept
/// or written.
pub open spec fn is_success(fetched: Fetched) -> bool {
    fetched == Fetched::AlreadyThere || fetched == Fetched::Written
}

/// The directory that a download is saved in; empty where none is set.
pub open spec fn download_dir(options: DownloadOptions) -> Seq<char> {
    match options.output_dir {
        Some(dir) => dir@,
        None => Seq::empty(),
    }
}

impl Download {
    /// The name that the download is saved under.
    pub fn get_file_name(options: &DownloadOptions) -> (r: String)
        ensures
            r@ == download_name(*options),
    {
        match &options.file_name {
            Some(name) => name.clone(),
            None => dir_name(options.url.as_str()),
        }
    }

    /// Checks a download before the server is asked, and gives the name that
    /// it is saved under. A download without an address, or without a name,
    /// is turned down.
    pub fn get_response(options: &DownloadOptions) -> (r: Result<String, HttpError>)
        ensures
            options.url@.len() == 0 ==> (r matches Err(HttpError::Empty(said)) && said@
                == no_url_message()),
            options.url@.len() > 0 && download_name(*options).len() == 0 ==> (r matches Err(
                HttpError::Empty(said),
            ) && said@ == no_name_message()),
            options.url@.len() > 0 && download_name(*options).len() > 0 ==> (r matches Ok(name)
                && name@ == download_name(*options)),
    {
        if options.url.as_str().is_empty() {
            return Err(HttpError::Empty("download url is empty !".to_owned()));
        }
        let name = Self::get_file_name(options);
        if name.as_str().is_empty() {
            return Err(
                HttpError::Empty(
                    "download file name is empty, please check `url` or `file_name` !".to_owned(),
                ),
            );
        }
        Ok(name)
    }

    /// Seconds to wait for the server: the setting, or thirty.
    pub fn get_timeout(options: &DownloadOptions) -> (r: u64)
        ensures
            r == (match options.timeout {
                Some(seconds) => seconds,
                None => 30,
            }),
    {
        match options.timeout {
            Some(seconds) => seconds,
            None => 30,
        }
    }

    /// The path that the download is saved at.
    pub fn get_output_file(options: &DownloadOptions, download_file_name: &str) -> (r: String)
        ensures
            r@ == download_path(*options, download_file_name@),
    {
        match &options.output_dir {
            Some(dir) => join_path(dir.as_str(), download_file_name),
            None => download_file_name.to_owned(),
        }
    }

    /// How the download ends before anything is fetched; `None` where the
    /// file is fetched. `status_success` says whether the server answered
    /// with success, `content_length` is the length that it states,
    /// `existing_size` the size of the file at the output path, `None` where
    /// there is none.
    pub fn decide(
        status_success: bool,
        content_length: u64,
        existing_size: Option<u64>,
        overwrite: Option<bool>,
    ) -> (r: Option<Fetched>)
        ensures
            r == ended_before_fetch(status_success, content_length, existing_size, overwrite),
    {
        if !status_success {
            return Some(Fetched::BadStatus);
        }
        if content_length == 0 {
            return Some(Fetched::NoContent);
        }
        let fetch = match existing_size {
            Some(size) => {
                if size == content_length {
                    match overwrite {
                        Some(again) => again,
                        None => true,
                    }
                } else {
                    true
                }
            },
            None => true,
        };
        if fetch {
            None
        } else {
            Some(Fetched::AlreadyThere)
        }
    }

    /// The outcome of a download that went as `fetched` says, saved under
    /// `download_file_name`.
    pub fn download(options: &DownloadOptions, download_file_name: &str, fetched: Fetched) -> (r:
        DownloadResult)
        ensures
            r.url@ == options.url@,
            r.dir@ == download_dir(*options),
            r.file_name@ == download_file_name@,
            r.success == is_success(fetched),
    {
        DownloadResult {
            dir: match &options.output_dir {
                Some(dir) => dir.clone(),
                None => String::new(),
            },
            success: match fetched {
                Fetched::AlreadyThere => true,
                Fetched::Written => true,
                _ => false,
            },
            file_name: download_file_name.to_owned(),
            url: options.url.clone(),
        }
    }
}

} // verus!
