//! Work-item location: resolving the identifier and sector size from the
//! launch arguments, and the parameter file's path from the base-directory
//! configuration. Pure argument and text resolution; the surrounding
//! process supplies the argument list and the environment value and
//! performs every file access.

use vstd::prelude::*;
use crate::errors::WorkerError;
use crate::parse::{numeral_value, parse_usize, parses_as_usize};

verus! {

/// One work item as handed down by the parent: an opaque identifier token,
/// used verbatim as the parameter file's name, and the sector-size value to
/// dispatch on. The identifier is never interpreted here; restricting it to
/// a safe character set is left to the parent, a documented trust boundary.
#[derive(Debug)]
pub struct ParentParam {
    pub sector_size: usize,
    pub uuid: String,
}

/// What `param_from_parent` resolves from an argument list: the worker
/// expects its own name, then the identifier, then the sector size, and
/// fails with `ArgumentError` when either argument is missing or the size
/// is not an unsigned integer.
pub open spec fn spec_param_from_parent(args: Seq<String>) -> Result<ParentParam, WorkerError> {
    if args.len() < 3 || !parses_as_usize(args[2]@) {
        Err(WorkerError::ArgumentError)
    } else {
        Ok(
            ParentParam {
                sector_size: numeral_value(args[2]@) as usize,
                uuid: args[1],
            },
        )
    }
}

/// Resolve the work item from the launch arguments: the first positional
/// argument is the identifier, the second the sector size.
pub fn param_from_parent(args: &Vec<String>) -> (r: Result<ParentParam, WorkerError>)
    ensures
        r == spec_param_from_parent(args@),
{
    if args.len() < 3 {
        return Err(WorkerError::ArgumentError);
    }
    let uuid = args[1].clone();
    match parse_usize(args[2].as_str()) {
        None => Err(WorkerError::ArgumentError),
        Some(sector_size) => Ok(ParentParam { sector_size, uuid }),
    }
}

/// The parameter directory under a base directory.
pub open spec fn spec_param_folder(base: Seq<char>) -> Seq<char> {
    base + "/param"@
}

/// The parameter directory resolved from the base-directory configuration,
/// or nothing when that configuration is absent.
pub fn param_folder(base_dir: &Option<String>) -> (r: Option<String>)
    ensures
        base_dir is None ==> r is None,
        base_dir matches Some(b) ==> r matches Some(f) && f@ == spec_param_folder(b@),
{
    match base_dir {
        None => None,
        Some(b) => Some(b.clone().concat("/param")),
    }
}

/// The work item's file path: the identifier used verbatim as a file name
/// under the parameter directory of the base directory.
pub open spec fn work_item_path(base: Seq<char>, uuid: Seq<char>) -> Seq<char> {
    spec_param_folder(base) + "/"@ + uuid
}

/// Join the parameter directory and the identifier into the work item's
/// file path.
pub fn uuid_path(folder: &str, uuid: &str) -> (r: String)
    ensures
        r@ == folder@ + "/"@ + uuid@,
{
    let mut p = String::from_str(folder);
    p.append("/");
    p.append(uuid);
    p
}

} // verus!
