//! The library's error type and its messages.

use crate::text::concat;
use vstd::prelude::*;

verus! {

/// Main error type for the bootstrapper.
///
/// The underlying I/O and JSON errors are carried by their message text.
#[derive(Debug, PartialEq, Eq)]
pub enum BootstrapError {
    Config(String),
    Io { path: String, source: String },
    CommandFailed { command: String, message: String },
    CommandNotFound { command: String, hint: String },
    Json(String),
    Wsl(String),
    Component { component: String, message: String },
    Path(String),
}

/// An error as character sequences.
pub enum ErrorView {
    Config(Seq<char>),
    Io { path: Seq<char>, source: Seq<char> },
    CommandFailed { command: Seq<char>, message: Seq<char> },
    CommandNotFound { command: Seq<char>, hint: Seq<char> },
    Json(Seq<char>),
    Wsl(Seq<char>),
    Component { component: Seq<char>, message: Seq<char> },
    Path(Seq<char>),
}

impl View for BootstrapError {
    type V = ErrorView;

    open spec fn view(&self) -> ErrorView {
        match self {
            BootstrapError::Config(m) => ErrorView::Config(m@),
            BootstrapError::Io { path, source } => ErrorView::Io { path: path@, source: source@ },
            BootstrapError::CommandFailed { command, message } => ErrorView::CommandFailed {
                command: command@,
                message: message@,
            },
            BootstrapError::CommandNotFound { command, hint } => ErrorView::CommandNotFound {
                command: command@,
                hint: hint@,
            },
            BootstrapError::Json(m) => ErrorView::Json(m@),
            BootstrapError::Wsl(m) => ErrorView::Wsl(m@),
            BootstrapError::Component { component, message } => ErrorView::Component {
                component: component@,
                message: message@,
            },
            BootstrapError::Path(m) => ErrorView::Path(m@),
        }
    }
}

/// The text an error displays.
pub open spec fn error_text(e: ErrorView) -> Seq<char> {
    match e {
        ErrorView::Config(m) => "Configuration error: "@ + m,
        ErrorView::Io { path, source } => "IO error at path '"@ + path + "': "@ + source,
        ErrorView::CommandFailed { command, message } => "Command '"@ + command + "' failed: "@
            + message,
        ErrorView::CommandNotFound { command, hint } => "Command '"@ + command + "' not found. "@
            + hint,
        ErrorView::Json(m) => "JSON parsing error: "@ + m,
        ErrorView::Wsl(m) => "WSL error: "@ + m,
        ErrorView::Component { component, message } => "Component '"@ + component
            + "' error: "@ + message,
        ErrorView::Path(m) => "Path error: "@ + m,
    }
}

impl Clone for BootstrapError {
    fn clone(&self) -> (r: Self)
        ensures
            r == *self,
    {
        match self {
            BootstrapError::Config(m) => BootstrapError::Config(m.clone()),
            BootstrapError::Io { path, source } => BootstrapError::Io {
                path: path.clone(),
                source: source.clone(),
            },
            BootstrapError::CommandFailed { command, message } => BootstrapError::CommandFailed {
                command: command.clone(),
                message: message.clone(),
            },
            BootstrapError::CommandNotFound { command, hint } => BootstrapError::CommandNotFound {
                command: command.clone(),
                hint: hint.clone(),
            },
            BootstrapError::Json(m) => BootstrapError::Json(m.clone()),
            BootstrapError::Wsl(m) => BootstrapError::Wsl(m.clone()),
            BootstrapError::Component { component, message } => BootstrapError::Component {
                component: component.clone(),
                message: message.clone(),
            },
            BootstrapError::Path(m) => BootstrapError::Path(m.clone()),
        }
    }
}

impl BootstrapError {
    /// Create an IO error with path context.
    pub fn io(path: &str, source: &str) -> (e: Self)
        ensures
            e@ == (ErrorView::Io { path: path@, source: source@ }),
    {
        BootstrapError::Io { path: String::from_str(path), source: String::from_str(source) }
    }

    /// Create a command failed error.
    pub fn command_failed(command: &str, message: &str) -> (e: Self)
        ensures
            e@ == (ErrorView::CommandFailed { command: command@, message: message@ }),
    {
        BootstrapError::CommandFailed {
            command: String::from_str(command),
            message: String::from_str(message),
        }
    }

    /// Create a command not found error.
    pub fn command_not_found(command: &str, hint: &str) -> (e: Self)
        ensures
            e@ == (ErrorView::CommandNotFound { command: command@, hint: hint@ }),
    {
        BootstrapError::CommandNotFound {
            command: String::from_str(command),
            hint: String::from_str(hint),
        }
    }

    /// Create a component error.
    pub fn component(component: &str, message: &str) -> (e: Self)
        ensures
            e@ == (ErrorView::Component { component: component@, message: message@ }),
    {
        BootstrapError::Component {
            component: String::from_str(component),
            message: String::from_str(message),
        }
    }

    /// The text this error displays.
    pub fn message(&self) -> (r: String)
        ensures
            r@ == error_text(self@),
    {
        match self {
            BootstrapError::Config(m) => concat("Configuration error: ", m.as_str()),
            BootstrapError::Io { path, source } => {
                let mut r = concat("IO error at path '", path.as_str());
                r.append("': ");
                r.append(source.as_str());
                r
            },
            BootstrapError::CommandFailed { command, message } => {
                let mut r = concat("Command '", command.as_str());
                r.append("' failed: ");
                r.append(message.as_str());
                r
            },
            BootstrapError::CommandNotFound { command, hint } => {
                let mut r = concat("Command '", command.as_str());
                r.append("' not found. ");
                r.append(hint.as_str());
                r
            },
            BootstrapError::Json(m) => concat("JSON parsing error: ", m.as_str()),
            BootstrapError::Wsl(m) => concat("WSL error: ", m.as_str()),
            BootstrapError::Component { component, message } => {
                let mut r = concat("Component '", component.as_str());
                r.append("' error: ");
                r.append(message.as_str());
                r
            },
            BootstrapError::Path(m) => concat("Path error: ", m.as_str()),
        }
    }
}

} // verus!
