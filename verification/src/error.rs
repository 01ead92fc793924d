//! The error type of the engine.

use vstd::prelude::*;

use crate::text::concat;

verus! {

/// What can go wrong in the engine. Each variant carries a message.
#[derive(Debug, Clone)]
pub enum GrinddError {
    Io(String),
    Config(String),
    Unsupported(String),
    Runtime(String),
    Cgroup(String),
    Image(String),
    Network(String),
    Daemon(String),
    Build(String),
}

/// The model of a `GrinddError`: its variant and its message.
pub enum ErrorView {
    Io(Seq<char>),
    Config(Seq<char>),
    Unsupported(Seq<char>),
    Runtime(Seq<char>),
    Cgroup(Seq<char>),
    Image(Seq<char>),
    Network(Seq<char>),
    Daemon(Seq<char>),
    Build(Seq<char>),
}

impl View for GrinddError {
    type V = ErrorView;

    open spec fn view(&self) -> ErrorView {
        match self {
            GrinddError::Io(m) => ErrorView::Io(m@),
            GrinddError::Config(m) => ErrorView::Config(m@),
            GrinddError::Unsupported(m) => ErrorView::Unsupported(m@),
            GrinddError::Runtime(m) => ErrorView::Runtime(m@),
            GrinddError::Cgroup(m) => ErrorView::Cgroup(m@),
            GrinddError::Image(m) => ErrorView::Image(m@),
            GrinddError::Network(m) => ErrorView::Network(m@),
            GrinddError::Daemon(m) => ErrorView::Daemon(m@),
            GrinddError::Build(m) => ErrorView::Build(m@),
        }
    }
}

/// The text an error is shown with: a label for its variant, then its message.
pub open spec fn error_text(e: ErrorView) -> Seq<char> {
    match e {
        ErrorView::Io(m) => "io error: "@ + m,
        ErrorView::Config(m) => "config error: "@ + m,
        ErrorView::Unsupported(m) => "unsupported on this platform: "@ + m,
        ErrorView::Runtime(m) => "runtime error: "@ + m,
        ErrorView::Cgroup(m) => "cgroup error: "@ + m,
        ErrorView::Image(m) => "image error: "@ + m,
        ErrorView::Network(m) => "network error: "@ + m,
        ErrorView::Daemon(m) => "daemon error: "@ + m,
        ErrorView::Build(m) => "build error: "@ + m,
    }
}

impl GrinddError {
    /// A copy of this error.
    pub fn duplicate(&self) -> (r: GrinddError)
        ensures
            r@ == self@,
    {
        match self {
            GrinddError::Io(m) => GrinddError::Io(m.clone()),
            GrinddError::Config(m) => GrinddError::Config(m.clone()),
            GrinddError::Unsupported(m) => GrinddError::Unsupported(m.clone()),
            GrinddError::Runtime(m) => GrinddError::Runtime(m.clone()),
            GrinddError::Cgroup(m) => GrinddError::Cgroup(m.clone()),
            GrinddError::Image(m) => GrinddError::Image(m.clone()),
            GrinddError::Network(m) => GrinddError::Network(m.clone()),
            GrinddError::Daemon(m) => GrinddError::Daemon(m.clone()),
            GrinddError::Build(m) => GrinddError::Build(m.clone()),
        }
    }

    /// The text this error is shown with.
    pub fn describe(&self) -> (r: String)
        ensures
            r@ == error_text(self@),
    {
        match self {
            GrinddError::Io(m) => concat("io error: ", m.as_str()),
            GrinddError::Config(m) => concat("config error: ", m.as_str()),
            GrinddError::Unsupported(m) => concat("unsupported on this platform: ", m.as_str()),
            GrinddError::Runtime(m) => concat("runtime error: ", m.as_str()),
            GrinddError::Cgroup(m) => concat("cgroup error: ", m.as_str()),
            GrinddError::Image(m) => concat("image error: ", m.as_str()),
            GrinddError::Network(m) => concat("network error: ", m.as_str()),
            GrinddError::Daemon(m) => concat("daemon error: ", m.as_str()),
            GrinddError::Build(m) => concat("build error: ", m.as_str()),
        }
    }
}

} // verus!
