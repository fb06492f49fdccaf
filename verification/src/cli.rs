use vstd::prelude::*;
use vstd::string::StringExecFns;

verus! {

/// One invocation's request, as plain values: the base name of the file to
/// generate, the language, whether a shebang was explicitly requested, the
/// file-type label selecting the extension, and the optional output
/// directory (the current directory when absent). Argument parsing itself is
/// the binary's business; the library only consumes the parsed values.
#[derive(Debug, Clone)]
pub struct Cli {
    pub filename: String,
    pub language: String,
    pub shebang: bool,
    pub filetype: String,
    pub path: Option<String>,
}

/// Builds one invocation's request from the values the argument parser hands
/// over. The one decision made here is the default file-type label: a request
/// that names no file type asks for a source file.
pub fn get_cli_arguments(
    filename: String,
    language: String,
    shebang: bool,
    filetype: Option<String>,
    path: Option<String>,
) -> (r: Cli)
    ensures
        r.filename == filename,
        r.language == language,
        r.shebang == shebang,
        r.filetype@ == (match filetype {
            Some(t) => t@,
            None => "source"@,
        }),
        r.path == path,
{
    let filetype = match filetype {
        Some(t) => t,
        None => String::from_str("source"),
    };
    Cli { filename, language, shebang, filetype, path }
}

} // verus!
