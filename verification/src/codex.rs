use vstd::prelude::*;
use vstd::utf8::{decode_utf8, valid_utf8};

use crate::authorization::{ResolvedAuthorizationView, ResolvedProviderAuthorization};
use crate::child::ChildOutput;
use crate::error::Error;
use crate::message::{
    messages_view, CallRequestView, ProviderCallReply, ProviderCallRequest, ProviderMessage,
    ProviderMessageRole,
};
use crate::names::{reasoning_effort_text, ProviderCallTimeout, ReasoningEffort};
use crate::text::{decode_utf8_bytes, is_blank, is_blank_text};

verus! {

/// The line that introduces a message of the given role in a Codex prompt.
pub open spec fn role_header(role: ProviderMessageRole) -> Seq<char> {
    match role {
        ProviderMessageRole::System => "[system]\n"@,
        ProviderMessageRole::User => "[user]\n"@,
        ProviderMessageRole::Assistant => "[assistant]\n"@,
    }
}

/// One message as it stands in a Codex prompt: its role header, then its text.
pub open spec fn rendered_message(message: (ProviderMessageRole, Seq<char>)) -> Seq<char> {
    role_header(message.0) + message.1
}

/// What separates two messages in a Codex prompt.
pub open spec fn message_separator() -> Seq<char> {
    "\n\n"@
}

/// The single prompt that a conversation becomes for Codex: every message
/// rendered, in order, joined by a blank line.
pub open spec fn codex_prompt(messages: Seq<(ProviderMessageRole, Seq<char>)>) -> Seq<char>
    decreases messages.len(),
{
    if messages.len() == 0 {
        Seq::empty()
    } else if messages.len() == 1 {
        rendered_message(messages[0])
    } else {
        codex_prompt(messages.drop_last()) + message_separator() + rendered_message(messages.last())
    }
}

/// The abstract form of a list of command-line arguments.
pub open spec fn arguments_view(arguments: Seq<String>) -> Seq<Seq<char>> {
    arguments.map_values(|argument: String| argument@)
}

/// The Codex configuration setting that asks for a reasoning effort.
pub open spec fn reasoning_effort_setting(effort: ReasoningEffort) -> Seq<char> {
    "model_reasoning_effort=\""@ + reasoning_effort_text(effort) + "\""@
}

/// The arguments of a Codex run for a request: an ephemeral, read-only
/// `exec` of the requested model, the reasoning effort when one is asked for,
/// and the prompt last.
pub open spec fn codex_exec_arguments(request: CallRequestView) -> Seq<Seq<char>> {
    seq![
        "exec"@,
        "--ephemeral"@,
        "--skip-git-repo-check"@,
        "--ignore-rules"@,
        "--sandbox"@,
        "read-only"@,
        "--model"@,
        request.model_name,
    ] + match request.reasoning_effort {
        Some(effort) => seq!["--config"@, reasoning_effort_setting(effort)],
        None => Seq::empty(),
    } + seq![codex_prompt(request.messages)]
}

/// The arguments that ask Codex whether its login session is in place.
pub open spec fn login_status_arguments() -> Seq<Seq<char>> {
    seq!["login"@, "status"@]
}

/// The only provider the Codex client serves.
pub open spec fn codex_provider() -> Seq<char> {
    "openai-codex"@
}

/// Why a request for another provider is refused.
pub open spec fn codex_provider_required() -> Seq<char> {
    "OpenAI Codex client requires provider openai-codex"@
}

/// The one ambient session reference the Codex client consumes.
pub open spec fn codex_session_reference() -> Seq<char> {
    "codex-login"@
}

/// Whether an authorization is one the Codex client consumes: only the
/// approved external session reference is.
pub open spec fn codex_authorization_check(authorization: ResolvedAuthorizationView) -> Result<(), Error> {
    match authorization {
        ResolvedAuthorizationView::ExternalSession(reference) => if reference == codex_session_reference() {
            Ok(())
        } else {
            Err(Error::ProviderAuthorizationReferenceUnsupported)
        },
        _ => Err(Error::ProviderAuthorizationUnsupported),
    }
}

/// What a finished Codex run answers: its stdout, kept verbatim, when it
/// exited successfully with UTF-8 output that is not blank; a typed failure
/// otherwise.
pub open spec fn codex_output_text(output: ChildOutput) -> Result<Seq<char>, Error> {
    if !output.success {
        Err(Error::ProviderCommandExited)
    } else if !valid_utf8(output.stdout@) {
        Err(Error::ProviderCommandNonUtf8Output)
    } else if is_blank(decode_utf8(output.stdout@)) {
        Err(Error::ProviderCommandEmptyOutput)
    } else {
        Ok(decode_utf8(output.stdout@))
    }
}

/// One run of the Codex command through the session launcher, bounded by a
/// deadline.
pub struct OpenAiCodexInvocation {
    pub session_launcher: String,
    pub command: String,
    pub arguments: Vec<String>,
    pub timeout: ProviderCallTimeout,
}

/// The abstract form of a Codex run.
pub struct InvocationView {
    pub session_launcher: Seq<char>,
    pub command: Seq<char>,
    pub arguments: Seq<Seq<char>>,
    pub timeout: nat,
}

impl View for OpenAiCodexInvocation {
    type V = InvocationView;

    open spec fn view(&self) -> InvocationView {
        InvocationView {
            session_launcher: self.session_launcher@,
            command: self.command@,
            arguments: arguments_view(self.arguments@),
            timeout: self.timeout@,
        }
    }
}

/// Whether two texts are the same.
fn same_text(left: &str, right: &str) -> (same: bool)
    ensures
        same == (left@ == right@),
{
    let left = String::from_str(left);
    let right = String::from_str(right);
    left == right
}

impl OpenAiCodexInvocation {
    /// The run of the given arguments.
    pub fn new(session_launcher: &str, command: &str, arguments: Vec<String>, timeout: ProviderCallTimeout) -> (invocation: Self)
        ensures
            invocation@ == (InvocationView {
                session_launcher: session_launcher@,
                command: command@,
                arguments: arguments_view(arguments@),
                timeout: timeout@,
            }),
    {
        OpenAiCodexInvocation {
            session_launcher: session_launcher.to_owned(),
            command: command.to_owned(),
            arguments,
            timeout,
        }
    }

    /// The run that asks whether the Codex login session is in place.
    pub fn login_status(session_launcher: &str, command: &str, timeout: ProviderCallTimeout) -> (invocation: Self)
        ensures
            invocation@ == (InvocationView {
                session_launcher: session_launcher@,
                command: command@,
                arguments: login_status_arguments(),
                timeout: timeout@,
            }),
    {
        let mut arguments: Vec<String> = Vec::new();
        arguments.push(String::from_str("login"));
        arguments.push(String::from_str("status"));
        assert(arguments_view(arguments@) =~= login_status_arguments());
        Self::new(session_launcher, command, arguments, timeout)
    }

    /// The run that puts a request to Codex; only requests for the
    /// `openai-codex` provider are accepted.
    pub fn from_request(
        session_launcher: &str,
        command: &str,
        timeout: ProviderCallTimeout,
        request: &ProviderCallRequest,
    ) -> (result: Result<Self, Error>)
        ensures
            request@.provider_name != codex_provider() ==> (result matches Err(Error::ProviderCall(detail))
                && detail@ == codex_provider_required()),
            request@.provider_name == codex_provider() ==> (result matches Ok(invocation) && invocation@
                == (InvocationView {
                session_launcher: session_launcher@,
                command: command@,
                arguments: codex_exec_arguments(request@),
                timeout: timeout@,
            })),
    {
        if !same_text(request.provider_name().as_str(), "openai-codex") {
            return Err(Error::ProviderCall(String::from_str("OpenAI Codex client requires provider openai-codex")));
        }
        let mut arguments: Vec<String> = Vec::new();
        arguments.push(String::from_str("exec"));
        arguments.push(String::from_str("--ephemeral"));
        arguments.push(String::from_str("--skip-git-repo-check"));
        arguments.push(String::from_str("--ignore-rules"));
        arguments.push(String::from_str("--sandbox"));
        arguments.push(String::from_str("read-only"));
        arguments.push(String::from_str("--model"));
        arguments.push(String::from_str(request.model_name().as_str()));
        if let Some(reasoning_effort) = request.reasoning_effort() {
            arguments.push(String::from_str("--config"));
            let mut setting = String::from_str("model_reasoning_effort=\"");
            setting.append(reasoning_effort.as_str());
            setting.append("\"");
            arguments.push(setting);
        }
        let prompt = Self::prompt_from_messages(request.messages());
        arguments.push(prompt);
        assert(arguments_view(arguments@) =~= codex_exec_arguments(request@));
        Ok(Self::new(session_launcher, command, arguments, timeout))
    }

    /// The conversation as one Codex prompt.
    pub fn prompt_from_messages(messages: &[ProviderMessage]) -> (prompt: String)
        ensures
            prompt@ == codex_prompt(messages_view(messages@)),
    {
        let ghost all = messages_view(messages@);
        let mut prompt = String::new();
        let mut index: usize = 0;
        assert(all.take(0) =~= Seq::<(ProviderMessageRole, Seq<char>)>::empty());
        while index < messages.len()
            invariant
                all == messages_view(messages@),
                index <= messages@.len(),
                prompt@ == codex_prompt(all.take(index as int)),
            decreases messages@.len() - index,
        {
            let ghost before = prompt@;
            if index > 0 {
                prompt.append("\n\n");
            }
            let message = &messages[index];
            match message.role() {
                ProviderMessageRole::System => prompt.append("[system]\n"),
                ProviderMessageRole::User => prompt.append("[user]\n"),
                ProviderMessageRole::Assistant => prompt.append("[assistant]\n"),
            }
            prompt.append(message.text());
            proof {
                let next = all.take(index + 1);
                assert(next.drop_last() =~= all.take(index as int));
                assert(next.last() == messages@[index as int]@);
                if index == 0 {
                    assert(before =~= Seq::<char>::empty());
                    assert(prompt@ =~= rendered_message(next.last()));
                } else {
                    assert(prompt@ =~= before + message_separator() + rendered_message(next.last()));
                }
            }
            index = index + 1;
        }
        assert(all.take(index as int) =~= all);
        prompt
    }

    /// What the finished run answers. An unsuccessful exit never yields a
    /// reply, whatever the run wrote.
    pub fn reply_from_output(outcome: Result<ChildOutput, Error>) -> (result: Result<ProviderCallReply, Error>)
        ensures
            outcome matches Ok(output) && !output.success ==> result == Err::<ProviderCallReply, Error>(
                Error::ProviderCommandExited,
            ),
            result is Ok ==> (outcome matches Ok(output) && output.success),
            match outcome {
                Err(error) => result == Err::<ProviderCallReply, Error>(error),
                Ok(output) => match codex_output_text(output) {
                    Ok(text) => result matches Ok(reply) && reply@ == (text, Seq::<Seq<char>>::empty()),
                    Err(error) => result == Err::<ProviderCallReply, Error>(error),
                },
            },
    {
        let output = match outcome {
            Err(error) => return Err(error),
            Ok(output) => output,
        };
        if !output.success {
            return Err(Error::ProviderCommandExited);
        }
        let text = match decode_utf8_bytes(output.stdout) {
            None => return Err(Error::ProviderCommandNonUtf8Output),
            Some(text) => text,
        };
        if is_blank_text(text.as_str()) {
            return Err(Error::ProviderCommandEmptyOutput);
        }
        let reply = ProviderCallReply::new(text.as_str(), Vec::new());
        assert(reply@.1 =~= Seq::<Seq<char>>::empty());
        Ok(reply)
    }
}

/// A provider client that puts each request to the OpenAI Codex command, run
/// through a session launcher that gives it a process group of its own, using
/// the ambient `codex-login` session and never a secret.
#[derive(Debug, PartialEq, Eq)]
pub struct OpenAiCodexProviderClient {
    session_launcher: String,
    command: String,
    timeout: ProviderCallTimeout,
}

/// The abstract form of a Codex client: its launcher, its command, and the
/// deadline of each run in milliseconds.
pub struct CodexClientView {
    pub session_launcher: Seq<char>,
    pub command: Seq<char>,
    pub timeout: nat,
}

impl View for OpenAiCodexProviderClient {
    type V = CodexClientView;

    closed spec fn view(&self) -> CodexClientView {
        CodexClientView {
            session_launcher: self.session_launcher@,
            command: self.command@,
            timeout: self.timeout@,
        }
    }
}

impl Clone for OpenAiCodexProviderClient {
    fn clone(&self) -> (copy: Self)
        ensures
            copy@ == self@,
    {
        OpenAiCodexProviderClient {
            session_launcher: self.session_launcher.clone(),
            command: self.command.clone(),
            timeout: self.timeout,
        }
    }
}

/// The run of `arguments` by a Codex client.
pub open spec fn client_invocation(client: CodexClientView, arguments: Seq<Seq<char>>) -> InvocationView {
    InvocationView {
        session_launcher: client.session_launcher,
        command: client.command,
        arguments,
        timeout: client.timeout,
    }
}

/// Whether a command path is absolute, as a Unix path is when it starts at
/// the root.
pub open spec fn is_absolute_path(path: Seq<char>) -> bool {
    path.len() > 0 && path[0] == '/'
}

/// How a Codex call opens: an absolute command with no file behind it fails
/// before anything else (a relative one is left to the launcher's search);
/// then the authorization must be the approved session, whose login status is
/// checked next.
pub open spec fn codex_call_opening(client: CodexClientView, request: CallRequestView, command_is_file: bool) -> Result<InvocationView, Error> {
    if is_absolute_path(client.command) && !command_is_file {
        Err(Error::ProviderCommandUnavailable)
    } else {
        match codex_authorization_check(request.authorization) {
            Ok(_) => Ok(client_invocation(client, login_status_arguments())),
            Err(error) => Err(error),
        }
    }
}

impl OpenAiCodexProviderClient {
    pub fn new(session_launcher: &str, command: &str, timeout: ProviderCallTimeout) -> (client: Self)
        ensures
            client@ == (CodexClientView {
                session_launcher: session_launcher@,
                command: command@,
                timeout: timeout@,
            }),
    {
        OpenAiCodexProviderClient {
            session_launcher: session_launcher.to_owned(),
            command: command.to_owned(),
            timeout,
        }
    }

    /// The login status run that confirms the approved session, or why the
    /// authorization is not one this client consumes.
    fn verify_authorization(&self, authorization: &ResolvedProviderAuthorization) -> (result: Result<OpenAiCodexInvocation, Error>)
        ensures
            match codex_authorization_check(authorization@) {
                Ok(_) => result matches Ok(invocation) && invocation@ == client_invocation(self@, login_status_arguments()),
                Err(error) => result == Err::<OpenAiCodexInvocation, Error>(error),
            },
    {
        proof { reveal_strlit("codex-login"); }
        let reference = match authorization {
            ResolvedProviderAuthorization::ExternalSession(reference) => reference,
            _ => return Err(Error::ProviderAuthorizationUnsupported),
        };
        if !same_text(reference.as_str(), "codex-login") {
            return Err(Error::ProviderAuthorizationReferenceUnsupported);
        }
        Ok(OpenAiCodexInvocation::login_status(self.session_launcher.as_str(), self.command.as_str(), self.timeout))
    }

    /// The first step of a call. `command_is_file` tells whether a file
    /// stands at the command's path.
    pub fn begin_call(&self, request: &ProviderCallRequest, command_is_file: bool) -> (result: Result<OpenAiCodexInvocation, Error>)
        ensures
            match codex_call_opening(self@, request@, command_is_file) {
                Ok(run) => result matches Ok(invocation) && invocation@ == run,
                Err(error) => result == Err::<OpenAiCodexInvocation, Error>(error),
            },
    {
        let command = self.command.as_str();
        let absolute = command.unicode_len() > 0 && command.get_char(0) == '/';
        if absolute && !command_is_file {
            return Err(Error::ProviderCommandUnavailable);
        }
        self.verify_authorization(request.authorization())
    }

    /// The step of a call after the login status run, given how that run
    /// ended: a failed run fails the call, an unsuccessful status means the
    /// session does not authorize, and otherwise the request itself is run.
    pub fn invocation_after_login(&self, request: &ProviderCallRequest, login: Result<ChildOutput, Error>) -> (result: Result<OpenAiCodexInvocation, Error>)
        ensures
            match login {
                Err(error) => result == Err::<OpenAiCodexInvocation, Error>(error),
                Ok(output) => if !output.success {
                    result == Err::<OpenAiCodexInvocation, Error>(Error::ProviderAuthorizationUnsupported)
                } else if request@.provider_name != codex_provider() {
                    result matches Err(Error::ProviderCall(detail)) && detail@ == codex_provider_required()
                } else {
                    result matches Ok(invocation) && invocation@ == client_invocation(
                        self@,
                        codex_exec_arguments(request@),
                    )
                },
            },
    {
        let output = match login {
            Err(error) => return Err(error),
            Ok(output) => output,
        };
        if !output.success {
            return Err(Error::ProviderAuthorizationUnsupported);
        }
        OpenAiCodexInvocation::from_request(self.session_launcher.as_str(), self.command.as_str(), self.timeout, request)
    }
}

/// Where one Codex provider call stands.
#[derive(Clone, Copy, Debug, PartialEq, Eq, Structural)]
pub enum CodexCallPhase {
    /// Nothing has been done yet; the command's path is to be checked.
    Opening,
    /// The login status run has been asked for.
    CheckingLogin,
    /// The request's own run has been asked for.
    Invoking,
    /// The call is over.
    Finished,
}

/// What the caller observed after carrying out a directive of a Codex call.
pub enum CodexCallEvent {
    /// Whether a file stands at the command's path.
    CommandChecked { command_is_file: bool },
    /// How the child run that was asked for ended.
    ChildFinished(Result<ChildOutput, Error>),
}

/// What the caller of a Codex call is to do next.
pub enum CodexCallDirective {
    /// Check whether a file stands at the command's path.
    CheckCommand,
    /// Run this child process under supervision.
    RunChild(OpenAiCodexInvocation),
    /// The call ends with this outcome.
    Finish(Result<ProviderCallReply, Error>),
}

/// The events a Codex call can take in a phase: the path check while
/// opening, a child's outcome while a child runs, and nothing once finished.
pub open spec fn codex_call_expects(phase: CodexCallPhase, event: CodexCallEvent) -> bool {
    match phase {
        CodexCallPhase::Opening => event is CommandChecked,
        CodexCallPhase::CheckingLogin => event is ChildFinished,
        CodexCallPhase::Invoking => event is ChildFinished,
        CodexCallPhase::Finished => false,
    }
}

/// The phase a Codex call moves to: the login status run once the command
/// and the authorization pass, the request's run once the login status
/// succeeds for the `openai-codex` provider, and the end otherwise.
pub open spec fn codex_call_next_phase(
    client: CodexClientView,
    request: CallRequestView,
    phase: CodexCallPhase,
    event: CodexCallEvent,
) -> CodexCallPhase {
    match (phase, event) {
        (CodexCallPhase::Opening, CodexCallEvent::CommandChecked { command_is_file }) => if codex_call_opening(
            client,
            request,
            command_is_file,
        ) is Ok {
            CodexCallPhase::CheckingLogin
        } else {
            CodexCallPhase::Finished
        },
        (CodexCallPhase::CheckingLogin, CodexCallEvent::ChildFinished(Ok(login))) => if login.success
            && request.provider_name == codex_provider() {
            CodexCallPhase::Invoking
        } else {
            CodexCallPhase::Finished
        },
        _ => CodexCallPhase::Finished,
    }
}

/// The order of the phases of a Codex call.
pub open spec fn codex_call_phase_rank(phase: CodexCallPhase) -> nat {
    match phase {
        CodexCallPhase::Opening => 0,
        CodexCallPhase::CheckingLogin => 1,
        CodexCallPhase::Invoking => 2,
        CodexCallPhase::Finished => 3,
    }
}

impl CodexCallPhase {
    /// Where a Codex call starts: checking the command's path.
    pub fn start() -> (start: (CodexCallPhase, CodexCallDirective))
        ensures
            start.0 == CodexCallPhase::Opening,
            start.1 is CheckCommand,
    {
        (CodexCallPhase::Opening, CodexCallDirective::CheckCommand)
    }
}

impl OpenAiCodexProviderClient {
    /// One step of a Codex call: from the phase and what was observed, the
    /// next phase and what to do.
    pub fn advance(&self, phase: CodexCallPhase, request: &ProviderCallRequest, event: CodexCallEvent) -> (next: (
        CodexCallPhase,
        CodexCallDirective,
    ))
        requires
            codex_call_expects(phase, event),
        ensures
            next.0 == codex_call_next_phase(self@, request@, phase, event),
            next.1 is RunChild <==> (next.0 is CheckingLogin || next.0 is Invoking),
            next.1 is Finish <==> next.0 is Finished,
            event matches CodexCallEvent::CommandChecked { command_is_file } ==> match codex_call_opening(
                self@,
                request@,
                command_is_file,
            ) {
                Ok(run) => next.1 matches CodexCallDirective::RunChild(invocation) && invocation@ == run,
                Err(error) => next.1 == CodexCallDirective::Finish(Err(error)),
            },
            phase is CheckingLogin ==> match event {
                CodexCallEvent::ChildFinished(Err(error)) => next.1 == CodexCallDirective::Finish(Err(error)),
                CodexCallEvent::ChildFinished(Ok(login)) => if !login.success {
                    next.1 == CodexCallDirective::Finish(Err(Error::ProviderAuthorizationUnsupported))
                } else if request@.provider_name != codex_provider() {
                    next.1 matches CodexCallDirective::Finish(Err(Error::ProviderCall(detail))) && detail@
                        == codex_provider_required()
                } else {
                    next.1 matches CodexCallDirective::RunChild(invocation) && invocation@ == client_invocation(
                        self@,
                        codex_exec_arguments(request@),
                    )
                },
                _ => true,
            },
            phase is Invoking ==> match event {
                CodexCallEvent::ChildFinished(Err(error)) => next.1 == CodexCallDirective::Finish(Err(error)),
                CodexCallEvent::ChildFinished(Ok(output)) => match codex_output_text(output) {
                    Ok(text) => next.1 matches CodexCallDirective::Finish(Ok(reply)) && reply@ == (
                        text,
                        Seq::<Seq<char>>::empty(),
                    ),
                    Err(error) => next.1 == CodexCallDirective::Finish(Err(error)),
                },
                _ => true,
            },
    {
        match event {
            CodexCallEvent::CommandChecked { command_is_file } => match self.begin_call(request, command_is_file) {
                Ok(login) => (CodexCallPhase::CheckingLogin, CodexCallDirective::RunChild(login)),
                Err(error) => (CodexCallPhase::Finished, CodexCallDirective::Finish(Err(error))),
            },
            CodexCallEvent::ChildFinished(outcome) => {
                if phase == CodexCallPhase::CheckingLogin {
                    match self.invocation_after_login(request, outcome) {
                        Ok(invocation) => (CodexCallPhase::Invoking, CodexCallDirective::RunChild(invocation)),
                        Err(error) => (CodexCallPhase::Finished, CodexCallDirective::Finish(Err(error))),
                    }
                } else {
                    (CodexCallPhase::Finished, CodexCallDirective::Finish(OpenAiCodexInvocation::reply_from_output(outcome)))
                }
            },
        }
    }
}

/// A Codex call only moves forward: each step leaves its phase for a later
/// one, so the login status run and the request's run are each asked for at
/// most once, in that order, and nothing is retried once the call is over.
pub proof fn lemma_codex_call_moves_forward(
    client: CodexClientView,
    request: CallRequestView,
    phase: CodexCallPhase,
    event: CodexCallEvent,
)
    requires
        codex_call_expects(phase, event),
    ensures
        codex_call_phase_rank(codex_call_next_phase(client, request, phase, event)) > codex_call_phase_rank(
            phase,
        ),
        !codex_call_expects(CodexCallPhase::Finished, event),
{
}

/// The login status run is asked for only on leaving the opening, when the
/// command and the approved session pass; the request's run only right after
/// a login status run that succeeded, and only for the `openai-codex`
/// provider.
pub proof fn lemma_codex_runs_follow_their_conditions(
    client: CodexClientView,
    request: CallRequestView,
    phase: CodexCallPhase,
    event: CodexCallEvent,
)
    ensures
        codex_call_next_phase(client, request, phase, event) == CodexCallPhase::CheckingLogin ==> (
        event matches CodexCallEvent::CommandChecked { command_is_file } && phase == CodexCallPhase::Opening
            && codex_call_opening(client, request, command_is_file) is Ok && codex_authorization_check(
            request.authorization,
        ) is Ok),
        codex_call_next_phase(client, request, phase, event) == CodexCallPhase::Invoking ==> (
        event matches CodexCallEvent::ChildFinished(Ok(login)) && phase == CodexCallPhase::CheckingLogin
            && login.success && request.provider_name == codex_provider()),
{
}

/// An absolute command with no file behind it fails the call before the
/// authorization is even looked at.
pub proof fn lemma_missing_command_fails_first(client: CodexClientView, request: CallRequestView)
    requires
        is_absolute_path(client.command),
    ensures
        codex_call_opening(client, request, false) == Err::<InvocationView, Error>(
            Error::ProviderCommandUnavailable,
        ),
{
}

/// The Codex client consumes no authorization but the approved session:
/// without a secret or with a bearer secret it is unsupported, and any other
/// session reference is refused as such.
pub proof fn lemma_only_the_approved_session_authorizes(authorization: ResolvedAuthorizationView)
    ensures
        codex_authorization_check(authorization) is Ok <==> authorization
            == ResolvedAuthorizationView::ExternalSession(codex_session_reference()),
        authorization is NoSecret || authorization is BearerSecret ==> codex_authorization_check(
            authorization,
        ) == Err::<(), Error>(Error::ProviderAuthorizationUnsupported),
        authorization matches ResolvedAuthorizationView::ExternalSession(reference) ==> (reference
            != codex_session_reference() ==> codex_authorization_check(authorization) == Err::<
            (),
            Error,
        >(Error::ProviderAuthorizationReferenceUnsupported)),
{
}

/// A Codex run carries the requested model right after `--model`, the
/// requested reasoning effort as a `--config` setting right after it, and the
/// prompt as its last argument.
pub proof fn lemma_invocation_carries_request_policy(request: CallRequestView)
    ensures
        ({
            let arguments = codex_exec_arguments(request);
            &&& arguments[6] == "--model"@
            &&& arguments[7] == request.model_name
            &&& arguments.last() == codex_prompt(request.messages)
            &&& request.reasoning_effort matches Some(effort) ==> arguments[8] == "--config"@
                && arguments[9] == reasoning_effort_setting(effort) && arguments.len() == 11
            &&& request.reasoning_effort is None ==> arguments.len() == 9
        }),
{
}

/// Output that exits successfully, decodes as UTF-8 and is not blank reaches
/// the adapter exactly as the command wrote it, even when it is not in the
/// shape the adapter expects; every other run fails with its own error.
pub proof fn lemma_output_is_preserved_or_typed(output: ChildOutput)
    ensures
        codex_output_text(output) matches Ok(text) ==> valid_utf8(output.stdout@) && text == decode_utf8(
            output.stdout@,
        ),
        codex_output_text(output) is Err ==> codex_output_text(output) == Err::<Seq<char>, Error>(
            Error::ProviderCommandExited,
        ) || codex_output_text(output) == Err::<Seq<char>, Error>(Error::ProviderCommandNonUtf8Output)
            || codex_output_text(output) == Err::<Seq<char>, Error>(Error::ProviderCommandEmptyOutput),
{
}

/// An unsuccessful exit fails the call as such, whatever the run wrote to
/// stdout; only a successful exit can give a reply.
pub proof fn lemma_unsuccessful_exit_never_replies(output: ChildOutput)
    ensures
        !output.success ==> codex_output_text(output) == Err::<Seq<char>, Error>(Error::ProviderCommandExited),
        codex_output_text(output) is Ok ==> output.success,
{
}

/// The `--config` setting spells the requested effort itself: `low`,
/// `medium` or `high`, exactly as asked.
pub proof fn lemma_config_carries_the_requested_effort(request: CallRequestView)
    ensures
        request.reasoning_effort == Some(ReasoningEffort::Low) ==> codex_exec_arguments(request)[9]
            == "model_reasoning_effort=\"low\""@,
        request.reasoning_effort == Some(ReasoningEffort::Medium) ==> codex_exec_arguments(request)[9]
            == "model_reasoning_effort=\"medium\""@,
        request.reasoning_effort == Some(ReasoningEffort::High) ==> codex_exec_arguments(request)[9]
            == "model_reasoning_effort=\"high\""@,
{
    reveal_strlit("model_reasoning_effort=\"");
    reveal_strlit("\"");
    reveal_strlit("low");
    reveal_strlit("medium");
    reveal_strlit("high");
    reveal_strlit("model_reasoning_effort=\"low\"");
    reveal_strlit("model_reasoning_effort=\"medium\"");
    reveal_strlit("model_reasoning_effort=\"high\"");
    let arguments = codex_exec_arguments(request);
    match request.reasoning_effort {
        Some(ReasoningEffort::Low) => {
            assert(arguments[9] =~= "model_reasoning_effort=\"low\""@);
        },
        Some(ReasoningEffort::Medium) => {
            assert(arguments[9] =~= "model_reasoning_effort=\"medium\""@);
        },
        Some(ReasoningEffort::High) => {
            assert(arguments[9] =~= "model_reasoning_effort=\"high\""@);
        },
        None => {},
    }
}

/// A single message becomes its own role line followed by its text.
pub proof fn lemma_prompt_of_one_message(message: (ProviderMessageRole, Seq<char>))
    ensures
        codex_prompt(seq![message]) == match message.0 {
            ProviderMessageRole::System => "[system]\n"@,
            ProviderMessageRole::User => "[user]\n"@,
            ProviderMessageRole::Assistant => "[assistant]\n"@,
        } + message.1,
{
}

/// Splitting a conversation anywhere splits its prompt there: the prompt of
/// the whole is the prompt of the front, a blank line, and the prompt of the
/// rest. So every message is rendered on its own, whatever its neighbours.
pub proof fn lemma_prompt_splits_at_every_message(messages: Seq<(ProviderMessageRole, Seq<char>)>, split: int)
    requires
        0 < split < messages.len(),
    ensures
        codex_prompt(messages) == codex_prompt(messages.take(split)) + "\n\n"@ + codex_prompt(
            messages.skip(split),
        ),
    decreases messages.len(),
{
    let front = messages.drop_last();
    let rest = messages.skip(split);
    if split == messages.len() - 1 {
        assert(messages.take(split) =~= front);
        assert(rest =~= seq![messages.last()]);
        assert(codex_prompt(rest) == rendered_message(rest[0]));
    } else {
        lemma_prompt_splits_at_every_message(front, split);
        assert(front.take(split) =~= messages.take(split));
        assert(rest.drop_last() =~= front.skip(split));
        assert(rest.last() == messages.last());
        assert(codex_prompt(rest) == codex_prompt(rest.drop_last()) + message_separator() + rendered_message(
            rest.last(),
        ));
        assert(codex_prompt(messages) =~= codex_prompt(messages.take(split)) + "\n\n"@ + codex_prompt(rest));
    }
}

} // verus!
