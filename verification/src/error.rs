use vstd::prelude::*;

verus! {

/// Closed set of failure kinds produced anywhere in the stack. Failures of
/// the collaborator layers are converted into these kinds at the boundary;
/// the core keeps each underlying message as plain text.
#[derive(Debug, Clone, PartialEq, Eq)]
pub enum P2pError {
    /// A transport or method call error from the D-Bus layer.
    DBus(String),
    /// Serialization/deserialization failure for D-Bus values.
    ZVariant(String),
    /// The async command channel closed unexpectedly; carries the name of
    /// the endpoint that is gone.
    ChannelClosed(String),
    /// Invalid or empty interface name provided by the caller.
    InvalidInterface(String),
    /// Other backend-specific errors not mapped above.
    Backend(String),
}

/// Mathematical image of an error: the same kind with its message as a
/// character sequence.
pub enum ErrorView {
    DBus(Seq<char>),
    ZVariant(Seq<char>),
    ChannelClosed(Seq<char>),
    InvalidInterface(Seq<char>),
    Backend(Seq<char>),
}

impl View for P2pError {
    type V = ErrorView;

    open spec fn view(&self) -> ErrorView {
        match self {
            P2pError::DBus(msg) => ErrorView::DBus(msg@),
            P2pError::ZVariant(msg) => ErrorView::ZVariant(msg@),
            P2pError::ChannelClosed(msg) => ErrorView::ChannelClosed(msg@),
            P2pError::InvalidInterface(msg) => ErrorView::InvalidInterface(msg@),
            P2pError::Backend(msg) => ErrorView::Backend(msg@),
        }
    }
}

} // verus!
