//! Staging: what the artifact is called, where it goes on the host, and the
//! commands that unpack it there and remove it again.

use vstd::prelude::*;
use crate::config::{Server, Upload};
use crate::text::{trim, trim_of, join_text, join_text3, join_all, joined};
use crate::paths::{dir_name, dir_name_of, dir_parent, dir_parent_of, join_path, join_of};
use crate::paths::{file_name, file_name_of, without_extension, without_extension_of};
use crate::paths::{trim_end_slashes, trim_trailing_slashes};
use crate::plan::remove_command;
use crate::upload::SftpUpload;

verus! {

/// The name of the scratch directory on the host. It stands beside the
/// directory that the artifact is published under.
pub open spec fn scratch_dir_name() -> Seq<char> {
    "__SFTP_TEMP_DIR__"@
}

/// Why a run was turned down before it touched the host: the first setting
/// that is missing, or what is wrong with the source.
#[derive(Debug, Clone, Copy, PartialEq, Eq, Structural)]
pub enum ValidationError {
    /// The server has no host.
    HostMissing,
    /// The server has port zero.
    PortMissing,
    /// The server has no user.
    UsernameMissing,
    /// The server has no password.
    PasswordMissing,
    /// The upload names no local directory.
    DirMissing,
    /// The upload names no remote directory.
    ServerDirMissing,
    /// The local directory does not exist.
    SourceNotFound,
    /// The local directory holds nothing.
    SourceEmpty,
    /// No name could be found for the artifact.
    NoFileName,
}

/// The name of the artifact: the name asked for, if any; else the name of the
/// only directory of the source, where it holds one directory and no file;
/// else the name of its only file, where it holds one file and no directory;
/// else the name of the source directory itself. A source that holds nothing
/// has no name.
pub open spec fn upload_file_name(
    asked: Option<Seq<char>>,
    dir: Seq<char>,
    directories: Seq<Seq<char>>,
    files: Seq<Seq<char>>,
) -> Option<Seq<char>> {
    match asked {
        Some(name) => Some(name),
        None => if directories.len() == 1 && files.len() == 0 {
            Some(directories[0])
        } else if directories.len() == 0 && files.len() == 1 {
            Some(files[0])
        } else if directories.len() == 0 && files.len() == 0 {
            None
        } else {
            Some(dir_name_of(dir))
        },
    }
}

/// The outcome of validation: the name of the artifact, or the first check
/// that failed. The settings of the server are checked first, field by field,
/// then those of the upload, then the source.
pub open spec fn validated(
    server: Server,
    upload: Upload,
    dir_exists: bool,
    directories: Seq<Seq<char>>,
    files: Seq<Seq<char>>,
) -> Result<Seq<char>, ValidationError> {
    if server.host@.len() == 0 {
        Err(ValidationError::HostMissing)
    } else if server.port == 0 {
        Err(ValidationError::PortMissing)
    } else if server.username@.len() == 0 {
        Err(ValidationError::UsernameMissing)
    } else if server.password@.len() == 0 {
        Err(ValidationError::PasswordMissing)
    } else if upload.dir@.len() == 0 {
        Err(ValidationError::DirMissing)
    } else if upload.server_dir@.len() == 0 {
        Err(ValidationError::ServerDirMissing)
    } else if !dir_exists {
        Err(ValidationError::SourceNotFound)
    } else if directories.len() == 0 && files.len() == 0 {
        Err(ValidationError::SourceEmpty)
    } else {
        match upload_file_name(upload.server_file_name.deep_view(), upload.dir@, directories, files) {
            Some(name) => if name.len() == 0 {
                Err(ValidationError::NoFileName)
            } else {
                Ok(name)
            },
            None => Err(ValidationError::NoFileName),
        }
    }
}

/// Validation passes exactly where the settings of the server and of the
/// upload are complete, the source exists and holds something, and the
/// artifact has a name.
pub proof fn validation_passes_exactly_when(
    server: Server,
    upload: Upload,
    dir_exists: bool,
    directories: Seq<Seq<char>>,
    files: Seq<Seq<char>>,
)
    ensures
        validated(server, upload, dir_exists, directories, files) is Ok <==> (!server.incomplete()
            && !upload.incomplete() && dir_exists && directories.len() + files.len() > 0
            && (match upload_file_name(
            upload.server_file_name.deep_view(),
            upload.dir@,
            directories,
            files,
        ) {
            Some(name) => name.len() > 0,
            None => false,
        })),
{
}

/// The scratch directory: beside the directory `server_dir`, white space
/// around it set aside. A directory of one name has it beside itself, in
/// the directory that relative paths start from. Only the root, which
/// nothing stands beside, and the empty path have it inside.
pub open spec fn server_temp_path_of(server_dir: Seq<char>) -> Seq<char> {
    let dir = trim_of(server_dir);
    if trim_trailing_slashes(dir).len() > 0 {
        join_of(dir_parent_of(dir), scratch_dir_name())
    } else {
        join_of(dir, scratch_dir_name())
    }
}

/// The remote places of one run.
#[derive(Debug, Default, Clone)]
pub struct StagePaths {
    /// The scratch directory on the host.
    pub server_temp_path: String,
    /// The base name of the archive.
    pub zip_file_name: String,
    /// The archive in the scratch directory.
    pub server_file_path: String,
    /// The root of the temp tree: where the archive unpacks to.
    pub unzip_dir: String,
    /// The root of the live tree.
    pub server_file_dir: String,
}

/// The mathematical value of [`StagePaths`].
pub struct Places {
    pub server_temp_path: Seq<char>,
    pub zip_file_name: Seq<char>,
    pub server_file_path: Seq<char>,
    pub unzip_dir: Seq<char>,
    pub server_file_dir: Seq<char>,
}

impl View for StagePaths {
    type V = Places;

    open spec fn view(&self) -> Places {
        Places {
            server_temp_path: self.server_temp_path@,
            zip_file_name: self.zip_file_name@,
            server_file_path: self.server_file_path@,
            unzip_dir: self.unzip_dir@,
            server_file_dir: self.server_file_dir@,
        }
    }
}

/// The places of a run that publishes the archive `zip_file_path` as
/// `file_name` under `server_dir`.
pub open spec fn places_of(server_dir: Seq<char>, zip_file_path: Seq<char>, file_name: Seq<char>) -> Places {
    let temp = server_temp_path_of(server_dir);
    Places {
        server_temp_path: temp,
        zip_file_name: file_name_of(zip_file_path),
        server_file_path: join_of(temp, file_name_of(zip_file_path)),
        unzip_dir: join_of(temp, file_name),
        server_file_dir: join_of(server_dir, file_name),
    }
}

/// The commands that unpack the archive in the scratch directory: enter the
/// directory, remove what an earlier run left of the temp tree, unpack.
pub open spec fn uncompress_commands_of(places: Places) -> Seq<Seq<char>> {
    seq![
        "cd "@ + places.server_temp_path,
        remove_command(places.unzip_dir),
        "unzip "@ + places.server_file_path + " -d "@ + places.server_temp_path,
    ]
}

/// The separator between the commands of one batch: the remote shell runs
/// them one after the other.
pub open spec fn command_separator() -> Seq<char> {
    " \n "@
}

/// The local archive with a time stamp in its name: the path without its
/// extension, a hyphen, the stamp, and `.zip`.
pub open spec fn stamped_zip_path(zip_file_path: Seq<char>, stamp: Seq<char>) -> Seq<char> {
    without_extension_of(zip_file_path) + "-"@ + stamp + ".zip"@
}

/// How the local archive comes about.
#[derive(Debug, Clone, Copy, PartialEq, Eq, Structural)]
pub enum CompressPlan {
    /// The source holds the archive already: take it as it is.
    UseArchive,
    /// The source holds one directory, named like the artifact: pack it.
    PackDirectory,
    /// Gather what the source holds in a directory named like the artifact,
    /// then pack that.
    GatherAndPack,
}

/// The archive is taken as it is where the source holds one file and no
/// directory and the archive exists; the one directory is packed where the
/// source holds one directory and no file and the artifact's path exists;
/// everything is gathered first otherwise.
pub open spec fn compress_plan(
    directory_count: nat,
    file_count: nat,
    zip_exists: bool,
    path_exists: bool,
) -> CompressPlan {
    if directory_count == 0 && file_count == 1 && zip_exists {
        CompressPlan::UseArchive
    } else if directory_count == 1 && file_count == 0 && path_exists {
        CompressPlan::PackDirectory
    } else {
        CompressPlan::GatherAndPack
    }
}

/// The path of the archive of the artifact at `file_path`: that path with
/// `zip` for its extension.
pub open spec fn zip_path_of(file_path: Seq<char>) -> Seq<char> {
    without_extension_of(file_path) + ".zip"@
}

/// What cleanup removes.
#[derive(Debug, Default, Clone)]
pub struct CleanupPlan {
    /// The archive in the scratch directory, to delete over the file
    /// transfer channel.
    pub remote_archive: String,
    /// The commands that remove the temp tree.
    pub commands: Vec<String>,
    /// The local archive, to delete.
    pub local_archive: String,
}

impl SftpUpload {
    /// How the local archive comes about.
    pub fn compress_upload_dir(
        directory_count: usize,
        file_count: usize,
        zip_exists: bool,
        path_exists: bool,
    ) -> (r: CompressPlan)
        ensures
            r == compress_plan(directory_count as nat, file_count as nat, zip_exists, path_exists),
    {
        if directory_count == 0 && file_count == 1 && zip_exists {
            CompressPlan::UseArchive
        } else if directory_count == 1 && file_count == 0 && path_exists {
            CompressPlan::PackDirectory
        } else {
            CompressPlan::GatherAndPack
        }
    }

    /// The path of the archive of the artifact at `file_path`.
    pub fn generate_zip(file_path: &str) -> (r: String)
        ensures
            r@ == zip_path_of(file_path@),
    {
        let mut out = without_extension(file_path);
        out.append(".zip");
        out
    }

    /// The name of the artifact.
    pub fn get_upload_file_name(
        upload: &Upload,
        directories: &Vec<String>,
        files: &Vec<String>,
    ) -> (r: Option<String>)
        ensures
            r.deep_view() == upload_file_name(
                upload.server_file_name.deep_view(),
                upload.dir@,
                directories.deep_view(),
                files.deep_view(),
            ),
    {
        match &upload.server_file_name {
            Some(name) => Some(name.clone()),
            None => {
                if directories.len() == 1 && files.len() == 0 {
                    assert(directories.deep_view()[0] == directories@[0]@);
                    Some(directories[0].clone())
                } else if directories.len() == 0 && files.len() == 1 {
                    assert(files.deep_view()[0] == files@[0]@);
                    Some(files[0].clone())
                } else if directories.len() == 0 && files.len() == 0 {
                    None
                } else {
                    Some(dir_name(upload.dir.as_str()))
                }
            },
        }
    }

    /// Opens a run: checks the settings and the source directory before
    /// anything is sent, and gives the name of the artifact. `dir_exists` says whether the
    /// source directory exists; `directories` and `files` are the names of
    /// what it holds.
    pub fn exec(
        server: &Server,
        upload: &Upload,
        dir_exists: bool,
        directories: &Vec<String>,
        files: &Vec<String>,
    ) -> (r: Result<String, ValidationError>)
        ensures
            match r {
                Ok(name) => validated(
                    *server,
                    *upload,
                    dir_exists,
                    directories.deep_view(),
                    files.deep_view(),
                ) == Ok::<Seq<char>, ValidationError>(name@),
                Err(e) => validated(
                    *server,
                    *upload,
                    dir_exists,
                    directories.deep_view(),
                    files.deep_view(),
                ) == Err::<Seq<char>, ValidationError>(e),
            },
    {
        if server.host.as_str().is_empty() {
            return Err(ValidationError::HostMissing);
        }
        if server.port == 0 {
            return Err(ValidationError::PortMissing);
        }
        if server.username.as_str().is_empty() {
            return Err(ValidationError::UsernameMissing);
        }
        if server.password.as_str().is_empty() {
            return Err(ValidationError::PasswordMissing);
        }
        if upload.dir.as_str().is_empty() {
            return Err(ValidationError::DirMissing);
        }
        if upload.server_dir.as_str().is_empty() {
            return Err(ValidationError::ServerDirMissing);
        }
        if !dir_exists {
            return Err(ValidationError::SourceNotFound);
        }
        if directories.len() == 0 && files.len() == 0 {
            return Err(ValidationError::SourceEmpty);
        }
        match Self::get_upload_file_name(upload, directories, files) {
            Some(name) => {
                if name.as_str().is_empty() {
                    Err(ValidationError::NoFileName)
                } else {
                    Ok(name)
                }
            },
            None => Err(ValidationError::NoFileName),
        }
    }

    /// The scratch directory on the host.
    pub fn server_temp_path(server_dir: &str) -> (r: String)
        ensures
            r@ == server_temp_path_of(server_dir@),
    {
        let dir = trim(server_dir);
        let named = trim_end_slashes(dir.as_str());
        if !named.as_str().is_empty() {
            let above = dir_parent(dir.as_str());
            join_path(above.as_str(), "__SFTP_TEMP_DIR__")
        } else {
            join_path(dir.as_str(), "__SFTP_TEMP_DIR__")
        }
    }

    /// The remote places of a run.
    pub fn stage_paths(upload: &Upload, zip_file_path: &str, file_name_text: &str) -> (r:
        StagePaths)
        ensures
            r@ == places_of(upload.server_dir@, zip_file_path@, file_name_text@),
    {
        let temp = Self::server_temp_path(upload.server_dir.as_str());
        let zip_name = file_name(zip_file_path);
        let archive = join_path(temp.as_str(), zip_name.as_str());
        let unzip_dir = join_path(temp.as_str(), file_name_text);
        let live = join_path(upload.server_dir.as_str(), file_name_text);
        StagePaths {
            server_temp_path: temp,
            zip_file_name: zip_name,
            server_file_path: archive,
            unzip_dir: unzip_dir,
            server_file_dir: live,
        }
    }

    /// The commands that unpack the archive in the scratch directory.
    pub fn uncompress_zip(places: &StagePaths) -> (r: Vec<String>)
        ensures
            r.deep_view() == uncompress_commands_of(places@),
    {
        let mut out: Vec<String> = Vec::new();
        out.push(join_text("cd ", places.server_temp_path.as_str()));
        out.push(join_text("rm -rf ", places.unzip_dir.as_str()));
        let mut unzip = join_text3("unzip ", places.server_file_path.as_str(), " -d ");
        unzip.append(places.server_temp_path.as_str());
        out.push(unzip);
        assert(out.deep_view() =~= uncompress_commands_of(places@));
        out
    }

    /// What cleanup removes once the run is over: the remote archive, the
    /// temp tree, and the local archive `zip_file_path`.
    pub fn end(places: &StagePaths, zip_file_path: &str) -> (r: CleanupPlan)
        ensures
            r.remote_archive@ == places@.server_file_path,
            r.commands.deep_view() == seq![remove_command(places@.unzip_dir)],
            r.local_archive@ == zip_file_path@,
    {
        let mut commands: Vec<String> = Vec::new();
        commands.push(join_text("rm -rf ", places.unzip_dir.as_str()));
        assert(commands.deep_view() =~= seq![remove_command(places@.unzip_dir)]);
        CleanupPlan {
            remote_archive: places.server_file_path.clone(),
            commands: commands,
            local_archive: zip_file_path.to_owned(),
        }
    }

    /// The commands of one batch as the single text that is sent to the
    /// remote shell.
    pub fn exec_command(commands: &Vec<String>) -> (r: String)
        ensures
            r@ == joined(commands.deep_view(), command_separator()),
    {
        join_all(commands, " \n ")
    }

    /// The local archive with the time stamp `stamp` in its name.
    pub fn rename_file_upload_path(zip_file_path: &str, stamp: &str) -> (r: String)
        ensures
            r@ == stamped_zip_path(zip_file_path@, stamp@),
    {
        let mut out = without_extension(zip_file_path);
        out.append("-");
        out.append(stamp);
        out.append(".zip");
        out
    }
}

} // verus!
