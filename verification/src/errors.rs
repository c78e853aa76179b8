//! The errors a conversion can end in.

use vstd::prelude::*;
use vstd::string::StringExecFns;

verus! {

/// Why a Compose service could not be converted.
#[derive(Debug)]
pub enum ConvertError {
    /// The service declares no container image.
    MissingImage,
    /// An environment entry was left unresolved by interpolation and no
    /// resolution was supplied for it; the payload is the entry's name.
    UnresolvedEnvironmentReference(String),
    /// A published port range runs from a higher port down to a lower one.
    InvalidPortRange,
    /// Required deployment parameters were never supplied; the payload names
    /// every missing one, not just the first.
    MissingParameters(Vec<String>),
}

/// The mathematical content of a [`ConvertError`].
#[verifier::ext_equal]
pub enum ConvertErrorView {
    MissingImage,
    UnresolvedEnvironmentReference(Seq<char>),
    InvalidPortRange,
    MissingParameters(Seq<Seq<char>>),
}

impl View for ConvertError {
    type V = ConvertErrorView;

    open spec fn view(&self) -> ConvertErrorView {
        match self {
            ConvertError::MissingImage => ConvertErrorView::MissingImage,
            ConvertError::UnresolvedEnvironmentReference(name) => (
                ConvertErrorView::UnresolvedEnvironmentReference(name@)
            ),
            ConvertError::InvalidPortRange => ConvertErrorView::InvalidPortRange,
            ConvertError::MissingParameters(names) => (
                ConvertErrorView::MissingParameters(names.deep_view())
            ),
        }
    }
}

impl DeepView for ConvertError {
    type V = ConvertErrorView;

    open spec fn deep_view(&self) -> ConvertErrorView {
        self.view()
    }
}

impl ConvertError {
    /// A human-readable description of the error.
    pub fn message(&self) -> String {
        match self {
            ConvertError::MissingImage => (
                String::from_str("the service declares no container image")
            ),
            ConvertError::UnresolvedEnvironmentReference(name) => (
                String::from_str("no value could be resolved for the environment variable ")
                    .concat(name.as_str())
            ),
            ConvertError::InvalidPortRange => (
                String::from_str("a port range must run from a lower port up to a higher one")
            ),
            ConvertError::MissingParameters(_) => (
                String::from_str("required deployment parameters are missing")
            ),
        }
    }
}

/// The view of a `Result`, both sides taken member-wise.
pub open spec fn res_view<T: DeepView, E: DeepView>(r: Result<T, E>) -> Result<T::V, E::V> {
    match r {
        Ok(t) => Ok(t.deep_view()),
        Err(e) => Err(e.deep_view()),
    }
}

} // verus!
