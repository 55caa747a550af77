//! Choosing the files to minify.

use vstd::prelude::*;
use crate::text::same_text;
use crate::upload::SftpUpload;

verus! {

/// The rules of minifying.
pub struct Minimize;

/// What to minify.
#[derive(Clone, Debug, Default)]
pub struct Args {
    /// Directory to work in.
    pub dir: String,
    /// Patterns of paths to leave alone, beside the usual ones.
    pub excludes: Vec<String>,
    /// Whether scripts are checked before they are minified.
    pub validate_js: bool,
    /// Whether style sheets are simplified as well.
    pub optimization_css: bool,
}

/// The kinds of file that are minified.
#[derive(Debug, Clone, Copy, PartialEq, Eq, Structural)]
pub enum FileKind {
    Html,
    Js,
    Css,
    Json,
}

/// The patterns of paths that are always left alone: files that are
/// minified or bundled already.
pub open spec fn default_excludes() -> Seq<Seq<char>> {
    seq![
        "**/*.min.js"@,
        "**/*.min.css"@,
        "**/*.umd.js"@,
        "**/*.common.js"@,
        "**/*.esm.js"@,
        "**/*.amd.js"@,
        "**/*.iife.js"@,
        "**/*.cjs.js"@,
    ]
}

/// The kind of a file by its extension; `None` for a file that is left
/// alone.
pub open spec fn kind_of(extension: Seq<char>) -> Option<FileKind> {
    if extension == "html"@ {
        Some(FileKind::Html)
    } else if extension == "js"@ {
        Some(FileKind::Js)
    } else if extension == "css"@ {
        Some(FileKind::Css)
    } else if extension == "json"@ {
        Some(FileKind::Json)
    } else {
        None
    }
}

impl Minimize {
    /// The patterns of paths to leave alone: the usual ones, then those of
    /// the caller.
    pub fn get_excludes(excludes: &Vec<String>) -> (r: Vec<String>)
        ensures
            r.deep_view() == default_excludes() + excludes.deep_view(),
    {
        let mut all: Vec<String> = Vec::new();
        all.push("**/*.min.js".to_owned());
        all.push("**/*.min.css".to_owned());
        all.push("**/*.umd.js".to_owned());
        all.push("**/*.common.js".to_owned());
        all.push("**/*.esm.js".to_owned());
        all.push("**/*.amd.js".to_owned());
        all.push("**/*.iife.js".to_owned());
        all.push("**/*.cjs.js".to_owned());
        assert(all.deep_view() =~= default_excludes());
        SftpUpload::append_commands(&mut all, excludes);
        all
    }

    /// The kind of a file by its extension.
    pub fn minify_file(extension: &str) -> (r: Option<FileKind>)
        ensures
            r == kind_of(extension@),
    {
        if same_text(extension, "html") {
            Some(FileKind::Html)
        } else if same_text(extension, "js") {
            Some(FileKind::Js)
        } else if same_text(extension, "css") {
            Some(FileKind::Css)
        } else if same_text(extension, "json") {
            Some(FileKind::Json)
        } else {
            None
        }
    }
}

} // verus!
