//! Where a dump of the recorded events goes.
use vstd::prelude::*;

verus! {

/// Destination of a dump.
#[derive(Debug, PartialEq, Eq)]
pub enum DumpTarget {
    /// The events are handed back in the response.
    Response,
    /// The events are written to the file at this path.
    File(String),
}

#[derive(Clone, Copy, Debug, PartialEq, Eq, Structural)]
pub enum DumpError {
    /// The node was started without a dump mode.
    DumpModeNotSet,
}

/// The path a dump uses: the requested one, else the configured one, else none.
pub open spec fn chosen_path(requested: Option<String>, configured: Option<String>) -> Seq<char> {
    match requested {
        Some(p) => p@,
        None => match configured {
            Some(p) => p@,
            None => Seq::<char>::empty(),
        },
    }
}

/// Decides where a dump goes. A node started without a dump mode refuses to
/// dump; an empty path sends the events back in the response.
pub fn dump_target(dump_on_set: bool, requested: Option<String>, configured: Option<String>) -> (r: Result<DumpTarget, DumpError>)
    ensures
        !dump_on_set ==> r == Err::<DumpTarget, DumpError>(DumpError::DumpModeNotSet),
        dump_on_set && chosen_path(requested, configured).len() == 0 ==> r == Ok::<DumpTarget, DumpError>(DumpTarget::Response),
        dump_on_set && chosen_path(requested, configured).len() != 0 ==> (r matches Ok(DumpTarget::File(p))
            && p@ == chosen_path(requested, configured)),
{
    if !dump_on_set {
        return Err(DumpError::DumpModeNotSet);
    }
    let path = match requested {
        Some(p) => p,
        None => match configured {
            Some(p) => p,
            None => String::new(),
        },
    };
    if path.as_str().is_empty() {
        Ok(DumpTarget::Response)
    } else {
        Ok(DumpTarget::File(path))
    }
}

} // verus!
