use vstd::prelude::*;
use vstd::string::{to_string_from_display_ensures, StringExecFns};

verus! {

/// Declares `std::io::Error` so that it can travel inside the error type.
#[verifier::external_type_specification]
#[verifier::external_body]
pub struct ExIoError(std::io::Error);

/// Every way in which turning STEP bytes into a mesh can fail.
#[derive(Debug)]
pub enum StepLoaderError {
    /// Reading the input, or a scratch file, failed.
    IoError(std::io::Error),
    /// The OpenCASCADE kernel rejected the geometry.
    OcctError(String),
    /// The in-memory STEP triangulator rejected the geometry.
    FoxtrotError(String),
    /// A structural expectation on the geometry or the mesh does not hold.
    ParseError(String),
}

impl StepLoaderError {
    /// The text a user reads for this error: a label naming its kind, then
    /// the detail it carries (for an I/O error, its own `Display` text).
    pub fn message(&self) -> (r: String)
        ensures
            self matches StepLoaderError::OcctError(m) ==> r@ == "OpenCASCADE error: "@ + m@,
            self matches StepLoaderError::FoxtrotError(m) ==> r@ == "Foxtrot triangulation error: "@
                + m@,
            self matches StepLoaderError::ParseError(m) ==> r@ == "Parse error: "@ + m@,
            self matches StepLoaderError::IoError(e) ==> exists|detail: String|
                to_string_from_display_ensures::<std::io::Error>(e, detail) && r@ == "IO error: "@
                    + detail@,
    {
        match self {
            StepLoaderError::IoError(e) => {
                let label = String::from_str("IO error: ");
                let detail = e.to_string();
                label.concat(detail.as_str())
            },
            StepLoaderError::OcctError(m) => String::from_str("OpenCASCADE error: ").concat(
                m.as_str(),
            ),
            StepLoaderError::FoxtrotError(m) => String::from_str(
                "Foxtrot triangulation error: ",
            ).concat(m.as_str()),
            StepLoaderError::ParseError(m) => String::from_str("Parse error: ").concat(m.as_str()),
        }
    }
}

impl From<std::io::Error> for StepLoaderError {
    fn from(error: std::io::Error) -> (r: Self) {
        StepLoaderError::IoError(error)
    }
}

impl vstd::std_specs::convert::FromSpecImpl<std::io::Error> for StepLoaderError {
    open spec fn obeys_from_spec() -> bool {
        true
    }

    open spec fn from_spec(error: std::io::Error) -> Self {
        StepLoaderError::IoError(error)
    }
}

/// Builds a `ParseError` carrying the given text.
pub fn parse_error(text: &str) -> (r: StepLoaderError)
    ensures
        r matches StepLoaderError::ParseError(m) && m@ == text@,
{
    StepLoaderError::ParseError(text.to_string())
}

} // verus!
