//! One call of the secrets command: how it is started, and what its answer
//! means.

use vstd::prelude::*;
use crate::error::{result_view, texts, ClientError, ClientErrorView};
use crate::json::{json_string_member, string_member};
use crate::text::{contains, contains_text, lemma_contains_middle, lemma_contains_within, occurs_at};

verus! {

/// A command to start: the program, its arguments in order, and the one
/// variable that its environment gets besides what it inherits.
pub struct Invocation {
    pub program: String,
    pub arguments: Vec<String>,
    pub variable: String,
    pub token: String,
}

/// What an [`Invocation`] stands for.
pub struct InvocationView {
    pub program: Seq<char>,
    pub arguments: Seq<Seq<char>>,
    pub variable: Seq<char>,
    pub token: Seq<char>,
}

impl View for Invocation {
    type V = InvocationView;

    open spec fn view(&self) -> InvocationView {
        InvocationView {
            program: self.program@,
            arguments: texts(self.arguments@),
            variable: self.variable@,
            token: self.token@,
        }
    }
}

/// The command that asks for the secret `id`.
pub open spec fn fetch_command(id: Seq<char>, token: Seq<char>) -> InvocationView {
    InvocationView {
        program: "bws"@,
        arguments: seq!["secret"@, "get"@, id],
        variable: "BWS_ACCESS_TOKEN"@,
        token,
    }
}

/// The command that sets the secret `id` to `value`.
pub open spec fn update_command(id: Seq<char>, value: Seq<char>, token: Seq<char>) -> InvocationView {
    InvocationView {
        program: "bws"@,
        arguments: seq!["secret"@, "edit"@, "--value"@, value, id],
        variable: "BWS_ACCESS_TOKEN"@,
        token,
    }
}

/// Builds the command that asks for the secret `id`. The token travels in
/// the command's environment, never among its arguments.
pub fn fetch_invocation(id: &str, token: &str) -> (invocation: Invocation)
    ensures
        invocation@ == fetch_command(id@, token@),
{
    let mut arguments: Vec<String> = Vec::new();
    arguments.push("secret".to_owned());
    arguments.push("get".to_owned());
    arguments.push(id.to_owned());
    assert(texts(arguments@) =~= seq!["secret"@, "get"@, id@]);
    Invocation {
        program: "bws".to_owned(),
        arguments,
        variable: "BWS_ACCESS_TOKEN".to_owned(),
        token: token.to_owned(),
    }
}

/// Builds the command that sets the secret `id` to `value`, which is handed
/// over as it is.
pub fn update_invocation(id: &str, value: &str, token: &str) -> (invocation: Invocation)
    ensures
        invocation@ == update_command(id@, value@, token@),
{
    let mut arguments: Vec<String> = Vec::new();
    arguments.push("secret".to_owned());
    arguments.push("edit".to_owned());
    arguments.push("--value".to_owned());
    arguments.push(value.to_owned());
    arguments.push(id.to_owned());
    assert(texts(arguments@) =~= seq!["secret"@, "edit"@, "--value"@, value@, id@]);
    Invocation {
        program: "bws".to_owned(),
        arguments,
        variable: "BWS_ACCESS_TOKEN".to_owned(),
        token: token.to_owned(),
    }
}

/// How a started command ended, or that it never started.
pub enum CommandOutcome {
    /// The command could not be started; `cause` is what the system said.
    NotStarted { cause: String },
    /// The command ran to its end.
    Exited { success: bool, stdout: Vec<u8>, stderr: String },
}

/// What a [`CommandOutcome`] stands for.
pub enum CommandOutcomeView {
    NotStarted { cause: Seq<char> },
    Exited { success: bool, stdout: Seq<u8>, stderr: Seq<char> },
}

impl View for CommandOutcome {
    type V = CommandOutcomeView;

    open spec fn view(&self) -> CommandOutcomeView {
        match self {
            CommandOutcome::NotStarted { cause } => CommandOutcomeView::NotStarted { cause: cause@ },
            CommandOutcome::Exited { success, stdout, stderr } => CommandOutcomeView::Exited {
                success: *success,
                stdout: stdout@,
                stderr: stderr@,
            },
        }
    }
}

/// The diagnostic says that the secret was not found. The remote side says
/// the same of a secret that the token may not write.
pub open spec fn indicates_not_found(diagnostic: Seq<char>) -> bool {
    contains(diagnostic, "404"@) || contains(diagnostic, "Resource not found"@)
}

/// The message for a secret that was not found or may not be written.
pub open spec fn not_found_message(id: Seq<char>) -> Seq<char> {
    "Secret "@ + id
        + " not found or access denied. Check that your service account token has write permissions."@
}

/// The message that hands on what the command said.
pub open spec fn tool_failure_message(diagnostic: Seq<char>) -> Seq<char> {
    "bws failed: "@ + diagnostic
}

/// The message for a failed update of the secret `id`.
pub open spec fn classified_message(diagnostic: Seq<char>, id: Seq<char>) -> Seq<char> {
    if indicates_not_found(diagnostic) {
        not_found_message(id)
    } else {
        tool_failure_message(diagnostic)
    }
}

/// The message for a secret that was not found names the secret, says that
/// it was not found or that access was denied, and points at the token's
/// write permissions.
pub proof fn lemma_not_found_message_tells(id: Seq<char>)
    ensures
        contains(not_found_message(id), id),
        contains(not_found_message(id), "not found or access denied"@),
        contains(not_found_message(id), "write permissions"@),
{
    let head = "Secret "@;
    let tail =
        " not found or access denied. Check that your service account token has write permissions."@;
    reveal_strlit("Secret ");
    reveal_strlit(
        " not found or access denied. Check that your service account token has write permissions.",
    );
    reveal_strlit("not found or access denied");
    reveal_strlit("write permissions");
    lemma_contains_middle(head, id, tail);
    assert(tail.subrange(1, 27) =~= "not found or access denied"@);
    assert(occurs_at(tail, "not found or access denied"@, 1));
    assert(tail.subrange(71, 88) =~= "write permissions"@);
    assert(occurs_at(tail, "write permissions"@, 71));
    lemma_contains_within(head + id, tail, Seq::empty(), "not found or access denied"@);
    lemma_contains_within(head + id, tail, Seq::empty(), "write permissions"@);
    assert(head + id + tail + Seq::<char>::empty() =~= not_found_message(id));
}

/// The message that hands on what the command said begins by naming the
/// command and goes on with the diagnostic, letter for letter.
pub proof fn lemma_tool_failure_message_tells(diagnostic: Seq<char>)
    ensures
        tool_failure_message(diagnostic).len() == 12 + diagnostic.len(),
        tool_failure_message(diagnostic).take(12) == "bws failed: "@,
        tool_failure_message(diagnostic).skip(12) == diagnostic,
        contains(tool_failure_message(diagnostic), "bws failed:"@),
        contains(tool_failure_message(diagnostic), diagnostic),
{
    let head = "bws failed: "@;
    let whole = tool_failure_message(diagnostic);
    reveal_strlit("bws failed: ");
    reveal_strlit("bws failed:");
    assert(whole.take(12) =~= head);
    assert(whole.skip(12) =~= diagnostic);
    assert(whole.subrange(12, 12 + diagnostic.len() as int) =~= diagnostic);
    assert(occurs_at(whole, diagnostic, 12));
    assert(whole.subrange(0, 11) =~= "bws failed:"@);
    assert(occurs_at(whole, "bws failed:"@, 0));
}

/// Turns what the command said about a failed update of the secret
/// `secret_id` into the error for the user. A diagnostic that holds `404` or
/// `Resource not found` means that the secret does not exist or that the
/// token may not write it; the message says both, since the remote side
/// does not tell them apart. Any other diagnostic is handed on as it is.
pub fn check_bws_error(stderr: &str, secret_id: &str) -> (error: ClientError)
    ensures
        error@ == (ClientErrorView::Remote { message: classified_message(stderr@, secret_id@) }),
        indicates_not_found(stderr@) ==> {
            &&& contains(error@.message(), secret_id@)
            &&& contains(error@.message(), "not found or access denied"@)
            &&& contains(error@.message(), "write permissions"@)
        },
        !indicates_not_found(stderr@) ==> {
            &&& error@.message() == "bws failed: "@ + stderr@
            &&& contains(error@.message(), stderr@)
        },
{
    proof {
        lemma_not_found_message_tells(secret_id@);
        lemma_tool_failure_message_tells(stderr@);
    }
    if contains_text(stderr, "404") || contains_text(stderr, "Resource not found") {
        let mut message = "Secret ".to_owned();
        message.append(secret_id);
        message.append(
            " not found or access denied. Check that your service account token has write permissions.",
        );
        ClientError::Remote { message }
    } else {
        let mut message = "bws failed: ".to_owned();
        message.append(stderr);
        ClientError::Remote { message }
    }
}

/// What a fetch makes of the command's end. A command that did not start
/// is an execution error; one that reported failure is a remote error with
/// its diagnostic handed on as it is; one that reported success yields the
/// string that its output holds under `value`, and a parse error where the
/// output is not JSON or holds no such string.
pub open spec fn fetch_yields(
    outcome: CommandOutcomeView,
    result: Result<Seq<char>, ClientErrorView>,
) -> bool {
    match outcome {
        CommandOutcomeView::NotStarted { cause } => result == Err::<Seq<char>, ClientErrorView>(
            ClientErrorView::Execution { cause },
        ),
        CommandOutcomeView::Exited { success, stdout, stderr } => {
            if !success {
                result == Err::<Seq<char>, ClientErrorView>(
                    ClientErrorView::Remote { message: tool_failure_message(stderr) },
                )
            } else {
                match json_string_member(stdout, "value"@) {
                    Some(Some(value)) => result == Ok::<Seq<char>, ClientErrorView>(value),
                    Some(None) => result == Err::<Seq<char>, ClientErrorView>(
                        ClientErrorView::MissingValue,
                    ),
                    None => result matches Err(ClientErrorView::Malformed { .. }),
                }
            }
        },
    }
}

/// What an update of the secret `id` makes of the command's end. A command
/// that did not start is an execution error; one that reported failure is a
/// remote error whose message depends on the diagnostic.
pub open spec fn update_yields(outcome: CommandOutcomeView, id: Seq<char>) -> Result<
    (),
    ClientErrorView,
> {
    match outcome {
        CommandOutcomeView::NotStarted { cause } => Err(ClientErrorView::Execution { cause }),
        CommandOutcomeView::Exited { success, stdout, stderr } => {
            if success {
                Ok(())
            } else {
                Err(ClientErrorView::Remote { message: classified_message(stderr, id) })
            }
        },
    }
}

/// The secret's value, given what the command's output holds under `value`:
/// the string there, or the reason why there is none.
pub fn secret_value(member: Result<Option<String>, String>) -> (result: Result<String, ClientError>)
    ensures
        match member {
            Ok(Some(value)) => result_view(result) == Ok::<Seq<char>, ClientErrorView>(value@),
            Ok(None) => result_view(result) == Err::<Seq<char>, ClientErrorView>(
                ClientErrorView::MissingValue,
            ),
            Err(cause) => result_view(result) == Err::<Seq<char>, ClientErrorView>(
                ClientErrorView::Malformed { cause: cause@ },
            ),
        },
{
    match member {
        Ok(Some(value)) => Ok(value),
        Ok(None) => Err(ClientError::MissingValue),
        Err(cause) => Err(ClientError::Malformed { cause }),
    }
}

/// Reads the end of a fetch: the secret's value, or the error.
pub fn fetch_result(outcome: CommandOutcome) -> (result: Result<String, ClientError>)
    ensures
        fetch_yields(outcome@, result_view(result)),
{
    match outcome {
        CommandOutcome::NotStarted { cause } => Err(ClientError::Execution { cause }),
        CommandOutcome::Exited { success, stdout, stderr } => {
            if !success {
                let mut message = "bws failed: ".to_owned();
                message.append(stderr.as_str());
                Err(ClientError::Remote { message })
            } else {
                secret_value(string_member(stdout.as_slice(), "value"))
            }
        },
    }
}

/// Reads the end of an update of the secret `id`: done, or the error.
pub fn update_result(outcome: CommandOutcome, id: &str) -> (result: Result<(), ClientError>)
    ensures
        result_view(result) == update_yields(outcome@, id@),
{
    match outcome {
        CommandOutcome::NotStarted { cause } => Err(ClientError::Execution { cause }),
        CommandOutcome::Exited { success, stdout, stderr } => {
            if success {
                Ok(())
            } else {
                Err(check_bws_error(stderr.as_str(), id))
            }
        },
    }
}

} // verus!
