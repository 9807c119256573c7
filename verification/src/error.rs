//! Error taxonomy: configuration errors are caller-fixable, runtime errors
//! are fatal at startup, process errors are fatal to one operation but
//! leave the session standing.

use vstd::prelude::*;

verus! {

/// Core error type for the bridge and its provisioning pipeline.
#[derive(Debug, Clone)]
pub enum McpCoreError {
    AuthenticationError { message: String },
    ConfigurationError { message: String },
    ProcessError { message: String },
    RuntimeError { message: String },
    HttpServerError { message: String },
    SerializationError { message: String },
    IoError { message: String },
}

/// The kind of an error, with the payload stripped.
#[derive(Debug, Clone, Copy, PartialEq, Eq, Structural)]
pub enum ErrorKind {
    Authentication,
    Configuration,
    Process,
    Runtime,
    HttpServer,
    Serialization,
    Io,
}

impl McpCoreError {
    pub open spec fn spec_kind(&self) -> ErrorKind {
        match self {
            McpCoreError::AuthenticationError { .. } => ErrorKind::Authentication,
            McpCoreError::ConfigurationError { .. } => ErrorKind::Configuration,
            McpCoreError::ProcessError { .. } => ErrorKind::Process,
            McpCoreError::RuntimeError { .. } => ErrorKind::Runtime,
            McpCoreError::HttpServerError { .. } => ErrorKind::HttpServer,
            McpCoreError::SerializationError { .. } => ErrorKind::Serialization,
            McpCoreError::IoError { .. } => ErrorKind::Io,
        }
    }

    pub open spec fn spec_message(&self) -> Seq<char> {
        match self {
            McpCoreError::AuthenticationError { message } => message@,
            McpCoreError::ConfigurationError { message } => message@,
            McpCoreError::ProcessError { message } => message@,
            McpCoreError::RuntimeError { message } => message@,
            McpCoreError::HttpServerError { message } => message@,
            McpCoreError::SerializationError { message } => message@,
            McpCoreError::IoError { message } => message@,
        }
    }

    pub fn kind(&self) -> (k: ErrorKind)
        ensures
            k == self.spec_kind(),
    {
        match self {
            McpCoreError::AuthenticationError { .. } => ErrorKind::Authentication,
            McpCoreError::ConfigurationError { .. } => ErrorKind::Configuration,
            McpCoreError::ProcessError { .. } => ErrorKind::Process,
            McpCoreError::RuntimeError { .. } => ErrorKind::Runtime,
            McpCoreError::HttpServerError { .. } => ErrorKind::HttpServer,
            McpCoreError::SerializationError { .. } => ErrorKind::Serialization,
            McpCoreError::IoError { .. } => ErrorKind::Io,
        }
    }

    pub fn message(&self) -> (m: &String)
        ensures
            m@ == self.spec_message(),
    {
        match self {
            McpCoreError::AuthenticationError { message } => message,
            McpCoreError::ConfigurationError { message } => message,
            McpCoreError::ProcessError { message } => message,
            McpCoreError::RuntimeError { message } => message,
            McpCoreError::HttpServerError { message } => message,
            McpCoreError::SerializationError { message } => message,
            McpCoreError::IoError { message } => message,
        }
    }

    /// The error rendered for a log line or an HTTP body: a fixed label
    /// for the kind, then the message.
    pub open spec fn spec_describe(&self) -> Seq<char> {
        kind_label(self.spec_kind()) + self.spec_message()
    }

    pub fn describe(&self) -> (d: String)
        ensures
            d@ == self.spec_describe(),
    {
        let mut d = kind_label_exec(self.kind());
        d.append(self.message().as_str());
        d
    }
}

pub open spec fn kind_label(k: ErrorKind) -> Seq<char> {
    match k {
        ErrorKind::Authentication => "Authentication failed: "@,
        ErrorKind::Configuration => "Configuration error: "@,
        ErrorKind::Process => "Process communication error: "@,
        ErrorKind::Runtime => "Runtime error: "@,
        ErrorKind::HttpServer => "HTTP server error: "@,
        ErrorKind::Serialization => "Serialization error: "@,
        ErrorKind::Io => "IO error: "@,
    }
}

fn kind_label_exec(k: ErrorKind) -> (l: String)
    ensures
        l@ == kind_label(k),
{
    match k {
        ErrorKind::Authentication => String::from_str("Authentication failed: "),
        ErrorKind::Configuration => String::from_str("Configuration error: "),
        ErrorKind::Process => String::from_str("Process communication error: "),
        ErrorKind::Runtime => String::from_str("Runtime error: "),
        ErrorKind::HttpServer => String::from_str("HTTP server error: "),
        ErrorKind::Serialization => String::from_str("Serialization error: "),
        ErrorKind::Io => String::from_str("IO error: "),
    }
}

} // verus!
