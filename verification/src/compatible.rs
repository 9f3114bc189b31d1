use vstd::prelude::*;

use crate::error::Error;
use crate::message::{
    messages_view, ProviderCallReply, ProviderCallRequest, ProviderMessage, ProviderMessageRole,
};
use crate::names::EndpointUrl;

verus! {

/// A URL with every trailing `/` removed.
pub open spec fn without_trailing_slashes(url: Seq<char>) -> Seq<char>
    decreases url.len(),
{
    if url.len() > 0 && url.last() == '/' {
        without_trailing_slashes(url.drop_last())
    } else {
        url
    }
}

/// Removing the trailing slashes of a URL keeps its longest prefix that does
/// not end in a slash, and everything removed is a slash.
pub proof fn lemma_trailing_slashes_removed(url: Seq<char>)
    ensures
        ({
            let kept = without_trailing_slashes(url);
            &&& kept.len() <= url.len()
            &&& kept == url.take(kept.len() as int)
            &&& !(kept.len() > 0 && kept.last() == '/')
            &&& forall|i: int| kept.len() <= i < url.len() ==> url[i] == '/'
        }),
    decreases url.len(),
{
    if url.len() > 0 && url.last() == '/' {
        let shorter = url.drop_last();
        lemma_trailing_slashes_removed(shorter);
        let kept = without_trailing_slashes(url);
        assert(kept == without_trailing_slashes(shorter));
        assert(shorter.take(kept.len() as int) =~= url.take(kept.len() as int));
        assert forall|i: int| kept.len() <= i < url.len() implies url[i] == '/' by {
            if i < shorter.len() {
                assert(shorter[i] == url[i]);
            }
        }
    } else {
        assert(url.take(url.len() as int) =~= url);
    }
}

/// The chat completions endpoint under a base URL.
pub open spec fn chat_completions_url(base: Seq<char>) -> Seq<char> {
    without_trailing_slashes(base) + "/chat/completions"@
}

/// The chat completions endpoint under `endpoint`, however many slashes it
/// ends with.
pub fn chat_completions_endpoint(endpoint: &EndpointUrl) -> (url: String)
    ensures
        url@ == chat_completions_url(endpoint@),
{
    let base = endpoint.as_str();
    let mut end = base.unicode_len();
    assert(base@.take(base@.len() as int) =~= base@);
    while end > 0 && base.get_char(end - 1) == '/'
        invariant
            end <= base@.len(),
            without_trailing_slashes(base@.take(end as int)) == without_trailing_slashes(base@),
        decreases end,
    {
        assert(base@.take(end as int).drop_last() =~= base@.take(end - 1));
        end = end - 1;
    }
    let kept = base.substring_char(0, end);
    assert(kept@ =~= base@.take(end as int));
    let mut url = String::from_str(kept);
    url.append("/chat/completions");
    url
}

/// How an OpenAI-compatible endpoint spells a message role.
pub open spec fn wire_role_name(role: ProviderMessageRole) -> Seq<char> {
    match role {
        ProviderMessageRole::System => "system"@,
        ProviderMessageRole::User => "user"@,
        ProviderMessageRole::Assistant => "assistant"@,
    }
}

/// Both providers name the roles alike: the line that opens a message in a
/// Codex prompt is the role's wire name in brackets.
pub proof fn lemma_role_names_agree(role: ProviderMessageRole)
    ensures
        crate::codex::role_header(role) == "["@ + wire_role_name(role) + "]\n"@,
{
    reveal_strlit("[");
    reveal_strlit("]\n");
    reveal_strlit("system");
    reveal_strlit("user");
    reveal_strlit("assistant");
    reveal_strlit("[system]\n");
    reveal_strlit("[user]\n");
    reveal_strlit("[assistant]\n");
    assert(crate::codex::role_header(role) =~= "["@ + wire_role_name(role) + "]\n"@);
}

impl ProviderMessageRole {
    /// The role's name on an OpenAI-compatible wire.
    pub fn wire_name(self) -> (name: &'static str)
        ensures
            name@ == wire_role_name(self),
    {
        match self {
            ProviderMessageRole::System => "system",
            ProviderMessageRole::User => "user",
            ProviderMessageRole::Assistant => "assistant",
        }
    }
}

/// One message as an OpenAI-compatible endpoint receives it.
pub struct OpenAiCompatibleMessage {
    pub role: String,
    pub content: String,
}

/// The body of an OpenAI-compatible chat completions request.
pub struct OpenAiCompatibleRequest {
    pub model: String,
    pub messages: Vec<OpenAiCompatibleMessage>,
}

/// The abstract form of wire messages: each role and content.
pub open spec fn wire_messages_view(messages: Seq<OpenAiCompatibleMessage>) -> Seq<(Seq<char>, Seq<char>)> {
    messages.map_values(|message: OpenAiCompatibleMessage| (message.role@, message.content@))
}

/// The wire form of a conversation: each message's role spelled for the wire,
/// its text unchanged, in order.
pub open spec fn wire_messages(messages: Seq<(ProviderMessageRole, Seq<char>)>) -> Seq<(Seq<char>, Seq<char>)> {
    messages.map_values(|message: (ProviderMessageRole, Seq<char>)| (wire_role_name(message.0), message.1))
}

impl OpenAiCompatibleMessage {
    /// The wire form of one message.
    pub fn from_message(message: &ProviderMessage) -> (wire: Self)
        ensures
            wire.role@ == wire_role_name(message@.0),
            wire.content@ == message@.1,
    {
        OpenAiCompatibleMessage {
            role: String::from_str(message.role().wire_name()),
            content: String::from_str(message.text()),
        }
    }
}

impl OpenAiCompatibleRequest {
    /// The request body for a provider call: its model and its conversation.
    pub fn from_call(request: &ProviderCallRequest) -> (body: Self)
        ensures
            body.model@ == request@.model_name,
            wire_messages_view(body.messages@) == wire_messages(request@.messages),
    {
        let messages = request.messages();
        let ghost all = messages_view(messages@);
        let mut wire: Vec<OpenAiCompatibleMessage> = Vec::new();
        let mut index: usize = 0;
        while index < messages.len()
            invariant
                all == messages_view(messages@),
                all == request@.messages,
                index <= messages@.len(),
                wire_messages_view(wire@) =~= wire_messages(all.take(index as int)),
            decreases messages@.len() - index,
        {
            let ghost before = wire@;
            let message = OpenAiCompatibleMessage::from_message(&messages[index]);
            let ghost entry = (message.role@, message.content@);
            wire.push(message);
            assert(all.take(index + 1) =~= all.take(index as int).push(all[index as int]));
            assert(wire_messages_view(wire@) =~= wire_messages_view(before).push(entry));
            assert(wire_messages(all.take(index + 1)) =~= wire_messages(all.take(index as int)).push(
                (wire_role_name(all[index as int].0), all[index as int].1),
            ));
            index = index + 1;
        }
        assert(all.take(index as int) =~= all);
        OpenAiCompatibleRequest { model: String::from_str(request.model_name().as_str()), messages: wire }
    }
}

/// The message of one choice in a chat completions response.
pub struct OpenAiCompatibleChoiceMessage {
    pub content: String,
}

/// One choice in a chat completions response.
pub struct OpenAiCompatibleChoice {
    pub message: OpenAiCompatibleChoiceMessage,
}

/// A chat completions response, as far as the judge reads it.
pub struct OpenAiCompatibleResponse {
    pub choices: Vec<OpenAiCompatibleChoice>,
}

/// Why a response without choices is refused.
pub open spec fn missing_choice_detail() -> Seq<char> {
    "missing first choice"@
}

impl OpenAiCompatibleResponse {
    /// The reply carried by the first choice, verbatim; a response with no
    /// choice is malformed.
    pub fn into_reply(self) -> (result: Result<ProviderCallReply, Error>)
        ensures
            self.choices@.len() == 0 ==> (result matches Err(Error::ProviderResponse(detail)) && detail@
                == missing_choice_detail()),
            self.choices@.len() > 0 ==> (result matches Ok(reply) && reply@ == (
                self.choices@[0].message.content@,
                Seq::<Seq<char>>::empty(),
            )),
    {
        if self.choices.len() == 0 {
            return Err(Error::ProviderResponse(String::from_str("missing first choice")));
        }
        let reply = ProviderCallReply::new(self.choices[0].message.content.as_str(), Vec::new());
        assert(reply@.1 =~= Seq::<Seq<char>>::empty());
        Ok(reply)
    }
}

/// The failure for an endpoint that answered with an unsuccessful HTTP
/// status, given the status as text (such as `404 Not Found`).
pub fn http_status_error(status: &str) -> (error: Error)
    ensures
        error matches Error::ProviderCall(detail) && detail@ == "provider returned HTTP "@ + status@,
{
    let mut detail = String::from_str("provider returned HTTP ");
    detail.append(status);
    Error::ProviderCall(detail)
}

} // verus!
