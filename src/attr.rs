use vstd::prelude::*;

verus! {

/// The kinds of attribute-file failure the library tells apart.
#[derive(Clone, Copy, Debug, PartialEq, Eq, Structural)]
pub enum IoKind {
    /// The file does not exist.
    NotFound,
    /// The file was read, but its text is not of the expected form.
    InvalidData,
    /// Any other failure to read or write (most often a permission).
    Other,
}

/// A failure to read or write an attribute file, with a message for the user.
#[derive(Debug)]
pub struct IoFailure {
    pub kind: IoKind,
    pub message: String,
}

/// The mathematical form of an `IoFailure`.
pub struct FailureView {
    pub kind: IoKind,
    pub message: Seq<char>,
}

impl View for IoFailure {
    type V = FailureView;

    open spec fn view(&self) -> FailureView {
        FailureView { kind: self.kind, message: self.message@ }
    }
}

/// What reading one attribute file gave: its text, or why there is none.
pub type Reading = Result<String, IoFailure>;

/// The mathematical form of a `Reading`.
pub open spec fn reading_view(r: Reading) -> Result<Seq<char>, FailureView> {
    match r {
        Ok(t) => Ok(t@),
        Err(e) => Err(e@),
    }
}

impl IoFailure {
    /// A failure of `kind` with `message`.
    pub fn new(kind: IoKind, message: String) -> (r: IoFailure)
        ensures
            r.kind == kind,
            r.message@ == message@,
    {
        IoFailure { kind, message }
    }
}

/// The path `std::path::Path::join` makes of a base directory and a name.
pub uninterp spec fn joined_path(base: Seq<char>, name: Seq<char>) -> Seq<char>;

/// Relies on `std::path::Path::join`: the name appended to the base
/// directory as one more component. Both are UTF-8, so the lossy conversion
/// back to text changes nothing.
#[verifier::external_body]
pub(crate) fn join_path(base: &str, name: &str) -> (r: String)
    ensures
        r@ == joined_path(base@, name@),
{
    std::path::Path::new(base).join(name).to_string_lossy().into_owned()
}

} // verus!
