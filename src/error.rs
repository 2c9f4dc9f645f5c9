//! The worker's flat error taxonomy, its messages and its HTTP mapping.
use vstd::prelude::*;
use vstd::string::StringExecFns;

use crate::text::{byte_list, decimal, push_byte_list, push_decimal, push_signed_decimal, signed_decimal};

verus! {

/// How a subprocess ended, as the subprocess layer reports it.
#[derive(Clone, Copy, Debug, PartialEq, Eq, Structural)]
pub enum ExitCode {
    Exited(u32),
    Signaled(u8),
    Other(i32),
    Undetermined,
}

impl ExitCode {
    pub open spec fn spec_success(self) -> bool {
        self == ExitCode::Exited(0)
    }

    pub fn success(&self) -> (r: bool)
        ensures
            r == self.spec_success(),
    {
        match self {
            ExitCode::Exited(0) => true,
            _ => false,
        }
    }

    pub open spec fn text(self) -> Seq<char> {
        match self {
            ExitCode::Exited(c) => "Exited("@ + decimal(c as nat) + ")"@,
            ExitCode::Signaled(s) => "Signaled("@ + decimal(s as nat) + ")"@,
            ExitCode::Other(o) => "Other("@ + signed_decimal(o as int) + ")"@,
            ExitCode::Undetermined => "Undetermined"@,
        }
    }

    pub fn push_text(&self, s: &mut String)
        ensures
            final(s)@ == old(s)@ + self.text(),
    {
        let ghost start = s@;
        match self {
            ExitCode::Exited(c) => {
                s.append("Exited(");
                push_decimal(s, *c as u64);
                s.append(")");
            },
            ExitCode::Signaled(g) => {
                s.append("Signaled(");
                push_decimal(s, *g as u64);
                s.append(")");
            },
            ExitCode::Other(o) => {
                s.append("Other(");
                push_signed_decimal(s, *o as i64);
                s.append(")");
            },
            ExitCode::Undetermined => {
                s.append("Undetermined");
            },
        }
        assert(s@ =~= start + self.text());
    }
}

#[derive(Clone, Debug)]
pub enum WorkerErrorKind {
    ContainerCli(ExitCode, String, String),
    Http(String),
    Io(String),
    IntegerConversion,
    JsonEncodeDecode(String),
    InvalidSerialization(String, Vec<u8>),
    InvalidUtf8,
    Posix(String),
    OperationTimedOut(String),
    PathConversion(String),
    PathNotFound(String),
    PipeDisconnected,
    Regex(String),
    SubprocessStart(String),
    SubprocessTerminated(ExitCode),
    AsyncJoin(String),
    UnsupportedPlatform(String),
    WrongMethod,
}

#[derive(Clone, Debug)]
pub struct WorkerError {
    pub kind: WorkerErrorKind,
}

/// The human-readable description of an error.
pub open spec fn message_of(k: WorkerErrorKind) -> Seq<char> {
    match k {
        WorkerErrorKind::ContainerCli(exit, out, err) => "WorkerError, caused by internal container error: exit_status = "@
            + exit.text() + ", output = ("@ + out@ + ", "@ + err@ + ")"@,
        WorkerErrorKind::Http(e) => "WorkerError, caused by internal http error: "@ + e@,
        WorkerErrorKind::Io(e) => "WorkerError, caused by internal I/O error: "@ + e@,
        WorkerErrorKind::IntegerConversion => "WorkerError, caused by internal integer conversion error"@,
        WorkerErrorKind::JsonEncodeDecode(e) => "WorkerError, caused by internal json error: "@ + e@,
        WorkerErrorKind::InvalidSerialization(problem, bytes) => "WorkerError, "@ + problem@
            + " with invalid series of bytes: "@ + byte_list(bytes@),
        WorkerErrorKind::InvalidUtf8 => "WorkerError, caused by internal utf8 decode error"@,
        WorkerErrorKind::Posix(e) => "WorkerError, caused by internal unix error: "@ + e@,
        WorkerErrorKind::OperationTimedOut(op) => "WorkerError, "@ + op@ + " operation timed out"@,
        WorkerErrorKind::PathConversion(p) => "WorkerError, caused by problematic path ("@ + p@ + ")"@,
        WorkerErrorKind::PathNotFound(p) => "WorkerError, path not found: "@ + p@,
        WorkerErrorKind::PipeDisconnected => "WorkerError, internal pipe disconnected"@,
        WorkerErrorKind::Regex(e) => "WorkerError, invalid regex: "@ + e@,
        WorkerErrorKind::SubprocessStart(e) => "WorkerError, caused by internal subprocess error: "@ + e@,
        WorkerErrorKind::SubprocessTerminated(exit) => "WorkerError, caused by subprocess terminating, with code "@
            + exit.text(),
        WorkerErrorKind::AsyncJoin(e) => "WorkerError, caused by internal task join error: "@ + e@,
        WorkerErrorKind::UnsupportedPlatform(p) => "WorkerError, unsupported platform: "@ + p@,
        WorkerErrorKind::WrongMethod => "WorkerError, invalid http verb"@,
    }
}

/// The HTTP status an error is answered with.
pub open spec fn status_of(k: WorkerErrorKind) -> u16 {
    match k {
        WorkerErrorKind::PathNotFound(_) => 404,
        WorkerErrorKind::WrongMethod => 405,
        _ => 543,
    }
}

/// The HTTP body an error is answered with.
pub open spec fn body_of(k: WorkerErrorKind) -> Seq<char> {
    match k {
        WorkerErrorKind::PathNotFound(_) => "v9: worker 404"@,
        WorkerErrorKind::WrongMethod => ""@,
        _ => message_of(k),
    }
}

impl WorkerError {
    pub fn new(kind: WorkerErrorKind) -> (r: Self)
        ensures
            r.kind == kind,
    {
        Self { kind }
    }

    /// The error's description.
    pub fn message(&self) -> (r: String)
        ensures
            r@ == message_of(self.kind),
    {
        let mut s = String::new();
        match &self.kind {
            WorkerErrorKind::ContainerCli(exit, out, err) => {
                s.append("WorkerError, caused by internal container error: exit_status = ");
                exit.push_text(&mut s);
                s.append(", output = (");
                s.append(out.as_str());
                s.append(", ");
                s.append(err.as_str());
                s.append(")");
            },
            WorkerErrorKind::Http(e) => {
                s.append("WorkerError, caused by internal http error: ");
                s.append(e.as_str());
            },
            WorkerErrorKind::Io(e) => {
                s.append("WorkerError, caused by internal I/O error: ");
                s.append(e.as_str());
            },
            WorkerErrorKind::IntegerConversion => {
                s.append("WorkerError, caused by internal integer conversion error");
            },
            WorkerErrorKind::JsonEncodeDecode(e) => {
                s.append("WorkerError, caused by internal json error: ");
                s.append(e.as_str());
            },
            WorkerErrorKind::InvalidSerialization(problem, bytes) => {
                s.append("WorkerError, ");
                s.append(problem.as_str());
                s.append(" with invalid series of bytes: ");
                push_byte_list(&mut s, bytes);
            },
            WorkerErrorKind::InvalidUtf8 => {
                s.append("WorkerError, caused by internal utf8 decode error");
            },
            WorkerErrorKind::Posix(e) => {
                s.append("WorkerError, caused by internal unix error: ");
                s.append(e.as_str());
            },
            WorkerErrorKind::OperationTimedOut(op) => {
                s.append("WorkerError, ");
                s.append(op.as_str());
                s.append(" operation timed out");
            },
            WorkerErrorKind::PathConversion(p) => {
                s.append("WorkerError, caused by problematic path (");
                s.append(p.as_str());
                s.append(")");
            },
            WorkerErrorKind::PathNotFound(p) => {
                s.append("WorkerError, path not found: ");
                s.append(p.as_str());
            },
            WorkerErrorKind::PipeDisconnected => {
                s.append("WorkerError, internal pipe disconnected");
            },
            WorkerErrorKind::Regex(e) => {
                s.append("WorkerError, invalid regex: ");
                s.append(e.as_str());
            },
            WorkerErrorKind::SubprocessStart(e) => {
                s.append("WorkerError, caused by internal subprocess error: ");
                s.append(e.as_str());
            },
            WorkerErrorKind::SubprocessTerminated(exit) => {
                s.append("WorkerError, caused by subprocess terminating, with code ");
                exit.push_text(&mut s);
            },
            WorkerErrorKind::AsyncJoin(e) => {
                s.append("WorkerError, caused by internal task join error: ");
                s.append(e.as_str());
            },
            WorkerErrorKind::UnsupportedPlatform(p) => {
                s.append("WorkerError, unsupported platform: ");
                s.append(p.as_str());
            },
            WorkerErrorKind::WrongMethod => {
                s.append("WorkerError, invalid http verb");
            },
        }
        assert(s@ =~= message_of(self.kind));
        s
    }

    /// The HTTP status this error is answered with: 404 for an unknown path,
    /// 405 for a wrong verb, 543 for everything else.
    pub fn http_status(&self) -> (r: u16)
        ensures
            r == status_of(self.kind),
    {
        match &self.kind {
            WorkerErrorKind::PathNotFound(_) => 404,
            WorkerErrorKind::WrongMethod => 405,
            _ => 543,
        }
    }

    /// The HTTP body this error is answered with.
    pub fn http_body(&self) -> (r: String)
        ensures
            r@ == body_of(self.kind),
    {
        match &self.kind {
            WorkerErrorKind::PathNotFound(_) => String::from_str("v9: worker 404"),
            WorkerErrorKind::WrongMethod => String::from_str(""),
            _ => self.message(),
        }
    }
}

} // verus!
