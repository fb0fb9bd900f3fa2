use vstd::prelude::*;

verus! {

/// The failures an extraction can report.
///
/// `NotFound`: no backend claims an input, a required field cannot be located,
/// or an HTTP response had a non-success status (all non-2xx collapse here).
/// `Transport`: the remote host could not be reached or the response could not
/// be read. `Parse`: a body that was expected to be JSON was not valid JSON.
/// `Extraction`: a structural assumption failed at the aggregate level, such
/// as a selector string that does not compile.
#[derive(Clone, Copy, Debug, PartialEq, Eq, Structural)]
pub enum Error {
    NotFound,
    Transport,
    Parse,
    Extraction,
}

} // verus!
