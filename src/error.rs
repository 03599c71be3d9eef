//! The errors of every share operation.
use vstd::prelude::*;
use vstd::string::StringExecFns;

verus! {

/// What can go wrong in a share operation.
#[derive(Debug, PartialEq, Eq)]
pub enum ShareError {
    /// The operation is not implemented on this platform.
    UnsupportedPlatform,
    /// No window could be resolved to anchor the share surface.
    WindowNotFound,
    /// A platform call failed; its message is kept.
    NativeApiFailure(String),
    /// The user dismissed the native share surface.
    ShareCancelled,
    /// An activation held neither text nor any usable file.
    NoShareableContent,
    /// Persisted or transported content was malformed.
    InvalidData,
}

pub type Result<T> = core::result::Result<T, ShareError>;

impl ShareError {
    /// The message that a front-end shows for this error.
    pub open spec fn message_spec(&self) -> Seq<char> {
        match self {
            ShareError::UnsupportedPlatform => "sharing is not supported on this platform"@,
            ShareError::WindowNotFound => "window not found"@,
            ShareError::NativeApiFailure(detail) => "native API error: "@ + detail@,
            ShareError::ShareCancelled => "share cancelled"@,
            ShareError::NoShareableContent => "no shareable content"@,
            ShareError::InvalidData => "invalid data"@,
        }
    }

    /// The message that a front-end shows for this error.
    pub fn message(&self) -> (r: String)
        ensures
            r@ == self.message_spec(),
    {
        match self {
            ShareError::UnsupportedPlatform => String::from_str("sharing is not supported on this platform"),
            ShareError::WindowNotFound => String::from_str("window not found"),
            ShareError::NativeApiFailure(detail) => {
                String::from_str("native API error: ").concat(detail.as_str())
            },
            ShareError::ShareCancelled => String::from_str("share cancelled"),
            ShareError::NoShareableContent => String::from_str("no shareable content"),
            ShareError::InvalidData => String::from_str("invalid data"),
        }
    }
}

} // verus!
