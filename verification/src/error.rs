//! What can go wrong in a run, and how it is told.

use vstd::prelude::*;

verus! {

/// The four ways in which a run fails.
#[derive(Clone, Copy, Debug, PartialEq, Eq, Structural)]
pub enum ErrorKind {
    /// The secrets command could not be started.
    Execution,
    /// The secrets command ran and reported failure.
    Remote,
    /// The secrets command reported success, but its output was not understood.
    Parse,
    /// A local file could not be read or written.
    Io,
}

/// The texts of a list of strings.
pub open spec fn texts(lines: Seq<String>) -> Seq<Seq<char>> {
    Seq::new(lines.len(), |i: int| lines[i]@)
}

/// A failed call of the secrets command.
#[derive(Debug, PartialEq, Eq)]
pub enum ClientError {
    /// The command could not be started; `cause` is what the system said.
    Execution { cause: String },
    /// The command exited with failure; `message` tells it to the user.
    Remote { message: String },
    /// The command's output is not JSON; `cause` is what the parser said.
    Malformed { cause: String },
    /// The command's output is JSON without a string named `value`.
    MissingValue,
}

/// What a [`ClientError`] stands for.
pub enum ClientErrorView {
    Execution { cause: Seq<char> },
    Remote { message: Seq<char> },
    Malformed { cause: Seq<char> },
    MissingValue,
}

impl ClientErrorView {
    pub open spec fn kind(self) -> ErrorKind {
        match self {
            ClientErrorView::Execution { .. } => ErrorKind::Execution,
            ClientErrorView::Remote { .. } => ErrorKind::Remote,
            ClientErrorView::Malformed { .. } => ErrorKind::Parse,
            ClientErrorView::MissingValue => ErrorKind::Parse,
        }
    }

    /// The sentence that tells the failure.
    pub open spec fn message(self) -> Seq<char> {
        match self {
            ClientErrorView::Execution { .. } => "Failed to run bws CLI. Is it installed?"@,
            ClientErrorView::Remote { message } => message,
            ClientErrorView::Malformed { .. } => "Failed to parse bws output as JSON"@,
            ClientErrorView::MissingValue => "Secret value not found in bws output"@,
        }
    }

    /// The message, followed by the cause where one is known.
    pub open spec fn chain(self) -> Seq<Seq<char>> {
        match self {
            ClientErrorView::Execution { cause } => seq![self.message(), cause],
            ClientErrorView::Remote { .. } => seq![self.message()],
            ClientErrorView::Malformed { cause } => seq![self.message(), cause],
            ClientErrorView::MissingValue => seq![self.message()],
        }
    }
}

impl View for ClientError {
    type V = ClientErrorView;

    open spec fn view(&self) -> ClientErrorView {
        match self {
            ClientError::Execution { cause } => ClientErrorView::Execution { cause: cause@ },
            ClientError::Remote { message } => ClientErrorView::Remote { message: message@ },
            ClientError::Malformed { cause } => ClientErrorView::Malformed { cause: cause@ },
            ClientError::MissingValue => ClientErrorView::MissingValue,
        }
    }
}

/// What the result of a call of the secrets command stands for.
pub open spec fn result_view<T: View>(result: Result<T, ClientError>) -> Result<T::V, ClientErrorView> {
    match result {
        Ok(value) => Ok(value@),
        Err(error) => Err(error@),
    }
}

impl ClientError {
    pub fn kind(&self) -> (kind: ErrorKind)
        ensures
            kind == self@.kind(),
    {
        match self {
            ClientError::Execution { .. } => ErrorKind::Execution,
            ClientError::Remote { .. } => ErrorKind::Remote,
            ClientError::Malformed { .. } => ErrorKind::Parse,
            ClientError::MissingValue => ErrorKind::Parse,
        }
    }

    /// The sentence that tells the failure.
    pub fn message(&self) -> (text: String)
        ensures
            text@ == self@.message(),
    {
        match self {
            ClientError::Execution { .. } => "Failed to run bws CLI. Is it installed?".to_owned(),
            ClientError::Remote { message } => message.clone(),
            ClientError::Malformed { .. } => "Failed to parse bws output as JSON".to_owned(),
            ClientError::MissingValue => "Secret value not found in bws output".to_owned(),
        }
    }

    /// The message, followed by the cause where one is known.
    pub fn chain(&self) -> (lines: Vec<String>)
        ensures
            texts(lines@) == self@.chain(),
    {
        let mut lines: Vec<String> = Vec::new();
        lines.push(self.message());
        match self {
            ClientError::Execution { cause } => {
                lines.push(cause.clone());
            },
            ClientError::Malformed { cause } => {
                lines.push(cause.clone());
            },
            _ => {},
        }
        assert(texts(lines@) =~= self@.chain());
        lines
    }
}

/// A failed run: the step that failed, the local path of the mapping that
/// was being worked on, and why.
#[derive(Debug, PartialEq, Eq)]
pub enum RunError {
    /// The secret of the mapping could not be fetched.
    Fetch { path: String, cause: ClientError },
    /// The file of the mapping could not be written.
    Write { path: String, reason: String },
    /// The file of the mapping could not be read.
    Read { path: String, reason: String },
    /// The secret of the mapping could not be updated.
    Push { path: String, cause: ClientError },
}

/// What a [`RunError`] stands for.
pub enum RunErrorView {
    Fetch { path: Seq<char>, cause: ClientErrorView },
    Write { path: Seq<char>, reason: Seq<char> },
    Read { path: Seq<char>, reason: Seq<char> },
    Push { path: Seq<char>, cause: ClientErrorView },
}

impl RunErrorView {
    /// The local path of the mapping at which the run stopped.
    pub open spec fn path(self) -> Seq<char> {
        match self {
            RunErrorView::Fetch { path, .. } => path,
            RunErrorView::Write { path, .. } => path,
            RunErrorView::Read { path, .. } => path,
            RunErrorView::Push { path, .. } => path,
        }
    }

    pub open spec fn kind(self) -> ErrorKind {
        match self {
            RunErrorView::Fetch { cause, .. } => cause.kind(),
            RunErrorView::Write { .. } => ErrorKind::Io,
            RunErrorView::Read { .. } => ErrorKind::Io,
            RunErrorView::Push { cause, .. } => cause.kind(),
        }
    }

    /// The sentence that names the failed step and the path.
    pub open spec fn message(self) -> Seq<char> {
        match self {
            RunErrorView::Fetch { path, .. } => "Failed to fetch secret for "@ + path,
            RunErrorView::Write { path, .. } => "Failed to write "@ + path,
            RunErrorView::Read { path, .. } => "Failed to read "@ + path,
            RunErrorView::Push { path, .. } => "Failed to push secret for "@ + path,
        }
    }

    /// The message, followed by what led to it, nearest cause first.
    pub open spec fn chain(self) -> Seq<Seq<char>> {
        match self {
            RunErrorView::Fetch { cause, .. } => seq![self.message()] + cause.chain(),
            RunErrorView::Write { reason, .. } => seq![self.message(), reason],
            RunErrorView::Read { reason, .. } => seq![self.message(), reason],
            RunErrorView::Push { cause, .. } => seq![self.message()] + cause.chain(),
        }
    }
}

impl View for RunError {
    type V = RunErrorView;

    open spec fn view(&self) -> RunErrorView {
        match self {
            RunError::Fetch { path, cause } => RunErrorView::Fetch { path: path@, cause: cause@ },
            RunError::Write { path, reason } => RunErrorView::Write { path: path@, reason: reason@ },
            RunError::Read { path, reason } => RunErrorView::Read { path: path@, reason: reason@ },
            RunError::Push { path, cause } => RunErrorView::Push { path: path@, cause: cause@ },
        }
    }
}

impl RunError {
    /// The local path of the mapping at which the run stopped.
    pub fn path(&self) -> (path: &str)
        ensures
            path@ == self@.path(),
    {
        match self {
            RunError::Fetch { path, .. } => path.as_str(),
            RunError::Write { path, .. } => path.as_str(),
            RunError::Read { path, .. } => path.as_str(),
            RunError::Push { path, .. } => path.as_str(),
        }
    }

    pub fn kind(&self) -> (kind: ErrorKind)
        ensures
            kind == self@.kind(),
    {
        match self {
            RunError::Fetch { cause, .. } => cause.kind(),
            RunError::Write { .. } => ErrorKind::Io,
            RunError::Read { .. } => ErrorKind::Io,
            RunError::Push { cause, .. } => cause.kind(),
        }
    }

    /// The sentence that names the failed step and the path.
    pub fn message(&self) -> (text: String)
        ensures
            text@ == self@.message(),
    {
        let mut text = match self {
            RunError::Fetch { .. } => "Failed to fetch secret for ".to_owned(),
            RunError::Write { .. } => "Failed to write ".to_owned(),
            RunError::Read { .. } => "Failed to read ".to_owned(),
            RunError::Push { .. } => "Failed to push secret for ".to_owned(),
        };
        text.append(self.path());
        text
    }

    /// The message, followed by what led to it, nearest cause first.
    pub fn chain(&self) -> (lines: Vec<String>)
        ensures
            texts(lines@) == self@.chain(),
    {
        let mut lines: Vec<String> = Vec::new();
        lines.push(self.message());
        match self {
            RunError::Fetch { cause, .. } => {
                let mut rest = cause.chain();
                lines.append(&mut rest);
            },
            RunError::Push { cause, .. } => {
                let mut rest = cause.chain();
                lines.append(&mut rest);
            },
            RunError::Write { reason, .. } => {
                lines.push(reason.clone());
            },
            RunError::Read { reason, .. } => {
                lines.push(reason.clone());
            },
        }
        assert(texts(lines@) =~= self@.chain());
        lines
    }
}

} // verus!
