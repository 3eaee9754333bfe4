//! The context that travels with a stream through the adapters, and how a
//! simple one is made for a path.

use vstd::prelude::*;

verus! {

/// A matcher that needs only the name of a file.
#[derive(Debug)]
pub enum FastFileMatcher {
    /// The extension without the leading dot, such as `jpg`.
    FileExtension(String),
}

/// How a file is recognised.
#[derive(Debug)]
pub enum FileMatcher {
    /// By its name alone.
    Fast(FastFileMatcher),
    /// By the mime type of its content.
    MimeType(String),
}

/// What an adapter is told about the stream it gets. The tee reads none of
/// it; `R` is the byte source.
pub struct AdaptInfo<R> {
    /// The path of the file, which need not exist on disk.
    pub filepath_hint: String,
    /// Whether `filepath_hint` is a file on disk.
    pub is_real_file: bool,
    /// How deep in archives the file lies, 0 for a file on disk.
    pub archive_recursion_depth: i32,
    /// The source of the bytes.
    pub inp: R,
    /// What every line of output is prefixed with.
    pub line_prefix: String,
    /// Whether the output is post-processed.
    pub postprocess: bool,
}

/// Whether `extension` can be the extension of the last component of `path`:
/// it holds no dot, and it stands in `path` right after a dot that is not the
/// first character.
pub open spec fn extension_in(path: Seq<char>, extension: Seq<char>) -> bool {
    &&& !extension.contains('.')
    &&& exists|dot: int|
        1 <= dot && dot + 1 + extension.len() <= path.len() && path[dot] == '.'
            && #[trigger] path.subrange(dot + 1, dot + 1 + extension.len()) == extension
}

/// The text of an extension, empty where there is none.
pub open spec fn extension_text(extension: Option<String>) -> Seq<char> {
    match extension {
        Some(text) => text@,
        None => Seq::empty(),
    }
}

impl FileMatcher {
    /// Whether the matcher is one on the file extension `extension`.
    pub open spec fn on_extension(self, extension: Seq<char>) -> bool {
        self matches FileMatcher::Fast(FastFileMatcher::FileExtension(text)) && text@ == extension
    }

    /// Whether the matcher is one on a file extension that `path` can have,
    /// or on the empty extension.
    pub open spec fn on_extension_of(self, path: Seq<char>) -> bool {
        self matches FileMatcher::Fast(FastFileMatcher::FileExtension(text)) && (text@.len() == 0
            || extension_in(path, text@))
    }
}

/// `Path::extension` of the path that `path` spells, as text. Trusted, from
/// its documentation: the extension is the part of the file name after the
/// last dot, so it holds no dot and follows one in `path`; a file name that
/// only begins with a dot has none, so that dot is not the first character;
/// and a path without any dot has none.
#[verifier::external_body]
fn path_extension(path: &str) -> (extension: Option<String>)
    ensures
        extension matches Some(text) ==> extension_in(path@, text@),
        !path@.contains('.') ==> extension is None,
{
    match std::path::Path::new(path).extension() {
        Some(text) => Some(text.to_string_lossy().into_owned()),
        None => None,
    }
}

/// The context and matcher for a path whose extension is already known:
/// recursion depth 0, the line prefix `PREFIX:`, post-processing on, and a
/// matcher on the extension, which is empty where there is none.
pub fn adapt_info_with_extension<R>(
    filepath: &str,
    extension: Option<String>,
    inp: R,
    is_real_file: bool,
) -> (r: (AdaptInfo<R>, FileMatcher))
    ensures
        r.0.filepath_hint@ == filepath@,
        r.0.is_real_file == is_real_file,
        r.0.archive_recursion_depth == 0,
        r.0.inp == inp,
        r.0.line_prefix@ == "PREFIX:"@,
        r.0.postprocess,
        r.1.on_extension(extension_text(extension)),
{
    let text = match extension {
        Some(text) => text,
        None => String::new(),
    };
    (
        AdaptInfo {
            filepath_hint: filepath.to_owned(),
            is_real_file,
            archive_recursion_depth: 0,
            inp,
            line_prefix: "PREFIX:".to_owned(),
            postprocess: true,
        },
        FileMatcher::Fast(FastFileMatcher::FileExtension(text)),
    )
}

/// The context and matcher for `filepath` read from `inp`: as
/// [`adapt_info_with_extension`] with the extension of the path.
pub fn simple_adapt_info_full<R>(filepath: &str, inp: R, is_real_file: bool) -> (r: (
    AdaptInfo<R>,
    FileMatcher,
))
    ensures
        r.0.filepath_hint@ == filepath@,
        r.0.is_real_file == is_real_file,
        r.0.archive_recursion_depth == 0,
        r.0.inp == inp,
        r.0.line_prefix@ == "PREFIX:"@,
        r.0.postprocess,
        r.1.on_extension_of(filepath@),
        !filepath@.contains('.') ==> r.1.on_extension(Seq::empty()),
{
    adapt_info_with_extension(filepath, path_extension(filepath), inp, is_real_file)
}

/// As [`simple_adapt_info_full`], for a stream that is not a file on disk.
pub fn simple_adapt_info<R>(filepath: &str, inp: R) -> (r: (AdaptInfo<R>, FileMatcher))
    ensures
        r.0.filepath_hint@ == filepath@,
        !r.0.is_real_file,
        r.0.archive_recursion_depth == 0,
        r.0.inp == inp,
        r.0.line_prefix@ == "PREFIX:"@,
        r.0.postprocess,
        r.1.on_extension_of(filepath@),
        !filepath@.contains('.') ==> r.1.on_extension(Seq::empty()),
{
    simple_adapt_info_full(filepath, inp, false)
}

} // verus!
