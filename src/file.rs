//! Helpers on file names.

use vstd::prelude::*;

verus! {

/// Relies on `std::path::Path::parent` (read as `&str`): the parent is the path
/// without its final component, so a shorter prefix of it, and the empty path
/// has none.
#[verifier::external_body]
fn path_parent(filename: &str) -> (r: Option<&str>)
    ensures
        r matches Some(p) ==> p@.len() < filename@.len() && p@ == filename@.subrange(
            0,
            p@.len() as int,
        ),
        filename@.len() == 0 ==> r is None,
{
    match std::path::Path::new(filename).parent() {
        Some(p) => p.to_str(),
        None => None,
    }
}

/// Relies on `std::path::Path::extension` (read as `&str`): the extension is
/// what follows the last `.` of the file name, so it holds no `.` and comes
/// only from a path that holds one.
#[verifier::external_body]
fn path_extension(filename: &str) -> (r: Option<&str>)
    ensures
        r matches Some(e) ==> !e@.contains('.') && filename@.contains('.'),
{
    match std::path::Path::new(filename).extension() {
        Some(e) => e.to_str(),
        None => None,
    }
}

/// The directory named by a parent path: none when there is no parent or
/// it is empty.
pub fn directory_from_parent(parent: Option<&str>) -> (r: Option<String>)
    ensures
        match parent {
            Some(p) => if p@.len() > 0 {
                r matches Some(d) && d@ == p@
            } else {
                r is None
            },
            None => r is None,
        },
{
    match parent {
        Some(p) => if p.is_empty() {
            None
        } else {
            Some(p.to_owned())
        },
        None => None,
    }
}

/// The parent directory of a file, or none when it has no parent or the
/// parent is empty. The directory is a shorter, non-empty prefix of the name.
pub fn get_parent_directory(filename: &str) -> (r: Option<String>)
    ensures
        r matches Some(d) ==> 0 < d@.len() < filename@.len() && d@ == filename@.subrange(
            0,
            d@.len() as int,
        ),
        filename@.len() == 0 ==> r is None,
{
    let parent = path_parent(filename);
    directory_from_parent(parent)
}

/// The extension of a file name: what follows the last `.` of its final
/// component, if any.
pub fn get_file_ext(filename: &str) -> (r: Option<&str>)
    ensures
        r matches Some(e) ==> !e@.contains('.') && filename@.contains('.'),
{
    path_extension(filename)
}

} // verus!
