//! Choosing the images to compress and where their compressed form goes.

use vstd::prelude::*;
use crate::text::{same_text, replace_all, replaced, join_text, join_text3};
use crate::paths::{file_name, file_name_of, extension, extension_of, relative_path, relative_of};

verus! {

/// An image that may be compressed.
#[derive(Debug, Default, Clone)]
pub struct CompressorFile {
    /// Base name.
    pub file_name: String,
    /// Extension of the base name.
    pub extension: String,
    /// Base name without its extension.
    pub file_stem: String,
    /// Size in bytes.
    pub file_size: u64,
    /// Full path.
    pub path: String,
    /// Path relative to the directory that is compressed.
    pub relative_path: String,
}

/// The kinds of image, by the way they are compressed.
#[derive(Debug, Clone, Copy, PartialEq, Eq, Structural)]
pub enum ImageKind {
    Png,
    Gif,
    Jpg,
}

/// Which of two files is kept once an image was compressed.
#[derive(Debug, Clone, Copy, PartialEq, Eq, Structural)]
pub enum Keep {
    /// The compressed file is no smaller: drop it and keep the image as it
    /// was.
    Uncompressed,
    /// The compressed file is smaller: it takes the place of the image.
    Compressed,
}

/// Whether files with this extension are compressed: `jpg`, `jpeg`, `png`
/// and `gif` are.
pub open spec fn is_image_extension(extension: Seq<char>) -> bool {
    extension == "jpg"@ || extension == "jpeg"@ || extension == "png"@ || extension == "gif"@
}

/// The base name without its extension: the name with every `.` followed by
/// the extension taken out.
pub open spec fn stem_of(file_name: Seq<char>, extension: Seq<char>) -> Seq<char> {
    replaced(file_name, "."@ + extension, Seq::empty())
}

/// Whether an image of this extension and size is compressed, images of
/// `image_size` kilobytes or less being left alone. A limit of zero lets every
/// image through.
pub open spec fn is_wanted(extension: Seq<char>, file_size: u64, image_size: u64) -> bool {
    is_image_extension(extension) && (image_size == 0 || file_size > image_size * 1024)
}

/// The name of the file that holds the compressed image while it is made.
pub open spec fn temp_name_of(file_stem: Seq<char>, extension: Seq<char>) -> Seq<char> {
    file_stem + "_tmp."@ + extension
}

impl CompressorFile {
    /// The record of the image at `path`, `file_size` bytes long, in the
    /// directory `root`.
    pub fn new(path: &str, root: &str, file_size: u64) -> (r: CompressorFile)
        ensures
            r.path@ == path@,
            r.file_size == file_size,
            r.file_name@ == file_name_of(path@),
            r.extension@ == extension_of(path@),
            r.file_stem@ == stem_of(file_name_of(path@), extension_of(path@)),
            r.relative_path@ == relative_of(path@, root@),
    {
        let name = file_name(path);
        let ext = extension(path);
        let dotted = join_text(".", ext.as_str());
        let stem = replace_all(name.as_str(), dotted.as_str(), "");
        proof {
            reveal_strlit("");
            assert(""@ =~= Seq::<char>::empty());
        }
        CompressorFile {
            file_name: name,
            extension: ext,
            file_stem: stem,
            file_size: file_size,
            path: path.to_owned(),
            relative_path: relative_path(path, root),
        }
    }

    /// Whether files with this extension are compressed.
    pub fn is_image(extension: &str) -> (r: bool)
        ensures
            r == is_image_extension(extension@),
    {
        same_text(extension, "jpg") || same_text(extension, "jpeg") || same_text(extension, "png")
            || same_text(extension, "gif")
    }

    /// Whether this image is compressed, images of `image_size` kilobytes or
    /// less being left alone.
    pub fn is_wanted(&self, image_size: u64) -> (r: bool)
        ensures
            r == is_wanted(self.extension@, self.file_size, image_size),
    {
        if !Self::is_image(self.extension.as_str()) {
            return false;
        }
        if image_size == 0 {
            return true;
        }
        if image_size > u64::MAX / 1024 {
            assert(image_size * 1024 > u64::MAX) by (nonlinear_arith)
                requires
                    image_size > u64::MAX / 1024,
            ;
            return false;
        }
        self.file_size > image_size * 1024
    }

    /// The way this image is compressed.
    pub fn kind(&self) -> (r: ImageKind)
        ensures
            r == (if self.extension@ == "png"@ {
                ImageKind::Png
            } else if self.extension@ == "gif"@ {
                ImageKind::Gif
            } else {
                ImageKind::Jpg
            }),
    {
        if same_text(self.extension.as_str(), "png") {
            ImageKind::Png
        } else if same_text(self.extension.as_str(), "gif") {
            ImageKind::Gif
        } else {
            ImageKind::Jpg
        }
    }

    /// The name of the file that holds the compressed image while it is
    /// made.
    pub fn temp_file_name(&self) -> (r: String)
        ensures
            r@ == temp_name_of(self.file_stem@, self.extension@),
    {
        join_text3(self.file_stem.as_str(), "_tmp.", self.extension.as_str())
    }

    /// The relative path of that file: the relative path of the image with
    /// its base name replaced.
    pub fn temp_relative_path(&self) -> (r: String)
        ensures
            r@ == replaced(
                self.relative_path@,
                self.file_name@,
                temp_name_of(self.file_stem@, self.extension@),
            ),
    {
        let temp = self.temp_file_name();
        replace_all(self.relative_path.as_str(), self.file_name.as_str(), temp.as_str())
    }

    /// Which file is kept once the compressed file of `tmp_file_size` bytes
    /// is there.
    pub fn validate_image(&self, tmp_file_size: u64) -> (r: Keep)
        ensures
            r == (if tmp_file_size >= self.file_size {
                Keep::Uncompressed
            } else {
                Keep::Compressed
            }),
    {
        if tmp_file_size >= self.file_size {
            Keep::Uncompressed
        } else {
            Keep::Compressed
        }
    }
}

} // verus!
