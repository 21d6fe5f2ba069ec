use vstd::prelude::*;
use vstd::string::StringExecFns;
use crate::command::view_opt;
use crate::error::JobError;
use crate::image::{image_extension, image_extension_of};

verus! {

/// Where a converted file goes: a directory, the input's base name, and the
/// extension of the target format.
#[derive(Debug)]
pub struct OutputPlan {
    pub directory: String,
    pub stem: String,
    pub extension: String,
}

/// The path without its last component, as `Path::parent` gives it.
pub uninterp spec fn parent_of(p: Seq<char>) -> Option<Seq<char>>;

/// The last component without its extension, as `Path::file_stem` gives it.
pub uninterp spec fn stem_of(p: Seq<char>) -> Option<Seq<char>>;

/// `name` appended to `dir` as one more component, as `Path::join` gives it.
pub uninterp spec fn joined_of(dir: Seq<char>, name: Seq<char>) -> Seq<char>;

/// `p` with its extension replaced, as `Path::with_extension` gives it.
pub uninterp spec fn with_extension_of(p: Seq<char>, ext: Seq<char>) -> Seq<char>;

/// An extension holds no path separator.
pub open spec fn no_separator(ext: Seq<char>) -> bool {
    forall|i: int| 0 <= i < ext.len() ==> #[trigger] ext[i] != '/' && ext[i] != '\\'
}

/// The output path of an image: the requested directory, else the input's
/// own, joined with the input's base name, whose extension is then replaced;
/// none when the input has no parent directory or no base name.
pub open spec fn image_output_path_of(input: Seq<char>, dir: Option<Seq<char>>, ext: Seq<char>) -> Option<Seq<char>> {
    match (parent_of(input), stem_of(input)) {
        (Some(p), Some(s)) => Some(
            with_extension_of(
                joined_of(
                    match dir {
                        Some(d) => d,
                        None => p,
                    },
                    s,
                ),
                ext,
            ),
        ),
        _ => None,
    }
}

/// The name of the output file: the base name, a dot, the extension.
pub open spec fn file_name_of(stem: Seq<char>, ext: Seq<char>) -> Seq<char> {
    stem + "."@ + ext
}

/// The output path of `input`: the requested directory, else the input's
/// own, joined with the input's base name and the new extension; none
/// when the input has no parent directory or no base name.
pub open spec fn output_path_of(input: Seq<char>, dir: Option<Seq<char>>, ext: Seq<char>) -> Option<Seq<char>> {
    match (parent_of(input), stem_of(input)) {
        (Some(p), Some(s)) => Some(
            joined_of(
                match dir {
                    Some(d) => d,
                    None => p,
                },
                file_name_of(s, ext),
            ),
        ),
        _ => None,
    }
}

/// Relies on `std::path::Path::parent`: the path without its last component,
/// a function of the path alone, and none for the empty path.
#[verifier::external_body]
fn path_parent(p: &str) -> (r: Option<String>)
    ensures
        view_opt(r) == parent_of(p@),
        p@.len() == 0 ==> r is None,
{
    std::path::Path::new(p).parent().map(|d| d.to_string_lossy().into_owned())
}

/// Relies on `std::path::Path::file_stem`: the last component without its
/// extension, a function of the path alone, and none for the empty path.
#[verifier::external_body]
fn path_file_stem(p: &str) -> (r: Option<String>)
    ensures
        view_opt(r) == stem_of(p@),
        p@.len() == 0 ==> r is None,
{
    std::path::Path::new(p).file_stem().map(|s| s.to_string_lossy().into_owned())
}

/// Relies on `std::path::Path::join`: `name` appended to `dir` as one more
/// component, a function of the two alone.
#[verifier::external_body]
fn path_join(dir: &str, name: &str) -> (r: String)
    ensures
        r@ == joined_of(dir@, name@),
{
    std::path::Path::new(dir).join(name).to_string_lossy().into_owned()
}

/// Relies on `std::path::Path::with_extension`: `p` with its extension
/// replaced by `ext`, a function of the two alone. It panics on an extension
/// that holds a path separator, which `requires` leaves out.
#[verifier::external_body]
fn path_with_extension(p: &str, ext: &str) -> (r: String)
    requires
        no_separator(ext@),
    ensures
        r@ == with_extension_of(p@, ext@),
{
    std::path::Path::new(p).with_extension(ext).to_string_lossy().into_owned()
}

/// Chooses the output location from the input's parent directory and base
/// name: the requested directory if there is one, else the input's own. An
/// input without parent or base name is an invalid path.
pub fn plan_output(
    parent: Option<String>,
    stem: Option<String>,
    output_directory: &Option<String>,
    extension: &str,
) -> (r: Result<OutputPlan, JobError>)
    ensures
        (parent is None || stem is None) <==> r is Err,
        r is Err ==> r == Err::<OutputPlan, JobError>(JobError::InvalidPath),
        match r {
            Ok(plan) => plan.directory@ == match output_directory {
                Some(d) => d@,
                None => parent.unwrap()@,
            } && plan.stem@ == stem.unwrap()@ && plan.extension@ == extension@,
            Err(_) => true,
        },
{
    let parent = match parent {
        Some(p) => p,
        None => return Err(JobError::InvalidPath),
    };
    let stem = match stem {
        Some(s) => s,
        None => return Err(JobError::InvalidPath),
    };
    let directory = match output_directory {
        Some(d) => d.clone(),
        None => parent,
    };
    Ok(OutputPlan { directory, stem, extension: extension.to_owned() })
}

/// The output path for `input`: the planned directory joined with the base
/// name and the new extension.
pub fn resolve_output_path(input: &str, output_directory: &Option<String>, extension: &str) -> (r: Result<String, JobError>)
    ensures
        match r {
            Ok(path) => output_path_of(input@, view_opt(*output_directory), extension@) == Some(path@),
            Err(e) => output_path_of(input@, view_opt(*output_directory), extension@) is None
                && e == JobError::InvalidPath,
        },
        input@.len() == 0 ==> r is Err,
{
    let plan = plan_output(path_parent(input), path_file_stem(input), output_directory, extension)?;
    let name = plan.stem.concat(".").concat(plan.extension.as_str());
    Ok(path_join(plan.directory.as_str(), name.as_str()))
}

/// The output path for an image `input` converted to the format named
/// `format`: the planned directory joined with the base name, whose
/// extension is then replaced by the format's.
pub fn resolve_image_output_path(input: &str, output_directory: &Option<String>, format: &str) -> (r: Result<String, JobError>)
    ensures
        match r {
            Ok(path) => image_output_path_of(
                input@,
                view_opt(*output_directory),
                image_extension_of(format@),
            ) == Some(path@),
            Err(e) => image_output_path_of(
                input@,
                view_opt(*output_directory),
                image_extension_of(format@),
            ) is None && e == JobError::InvalidPath,
        },
        input@.len() == 0 ==> r is Err,
{
    let extension = image_extension(format);
    let plan = plan_output(path_parent(input), path_file_stem(input), output_directory, extension)?;
    let joined = path_join(plan.directory.as_str(), plan.stem.as_str());
    Ok(path_with_extension(joined.as_str(), plan.extension.as_str()))
}

} // verus!
