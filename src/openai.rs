//! The chat-completion request that asks for a manifesto summary, and the
//! reading of its response.
use vstd::prelude::*;

verus! {

/// The model that writes the summaries.
pub const GPT_35_MODEL_NAME: &'static str = "gpt-3.5-turbo";

/// The instruction that sets up the assistant.
pub const SYSTEM_PROMPT: &'static str =
    "You are an experienced political journalist that writes four-paragraph summaries of the manifestos of political parties";

/// The request that precedes the manifesto itself.
pub const USER_PROMPT: &'static str = "Please summarise the following manifesto:";

/// One message of a chat-completion request.
pub struct OpenAiRequestMessage {
    pub role: String,
    pub content: String,
}

/// The body of a chat-completion request.
pub struct OpenAiRequestBody {
    pub model: String,
    pub messages: Vec<OpenAiRequestMessage>,
}

/// The text of one message of a response.
pub struct OpenAiResponseMessageContent {
    pub content: String,
}

/// One choice of a response.
pub struct OpenAiResponseMessage {
    pub message: OpenAiResponseMessageContent,
}

/// A chat-completion response.
pub struct OpenAiResponse {
    pub choices: Vec<OpenAiResponseMessage>,
}

/// The request asking for a summary of `manifesto`: the system prompt, the
/// user prompt, then the manifesto as a second user message.
pub fn summary_request(manifesto: &str) -> (r: OpenAiRequestBody)
    ensures
        r.model@ == GPT_35_MODEL_NAME@,
        r.messages@.len() == 3,
        r.messages@[0].role@ == "system"@,
        r.messages@[0].content@ == SYSTEM_PROMPT@,
        r.messages@[1].role@ == "user"@,
        r.messages@[1].content@ == USER_PROMPT@,
        r.messages@[2].role@ == "user"@,
        r.messages@[2].content@ == manifesto@,
{
    let mut messages: Vec<OpenAiRequestMessage> = Vec::new();
    messages.push(
        OpenAiRequestMessage { role: "system".to_owned(), content: SYSTEM_PROMPT.to_owned() },
    );
    messages.push(OpenAiRequestMessage { role: "user".to_owned(), content: USER_PROMPT.to_owned() });
    messages.push(OpenAiRequestMessage { role: "user".to_owned(), content: manifesto.to_owned() });
    OpenAiRequestBody { model: GPT_35_MODEL_NAME.to_owned(), messages }
}

impl OpenAiResponse {
    /// The text of the first choice, or `None` when there is no choice.
    pub fn summary(&self) -> (r: Option<String>)
        ensures
            self.choices@.len() == 0 <==> r is None,
            r matches Some(s) ==> s@ == self.choices@[0].message.content@,
    {
        if self.choices.len() == 0 {
            None
        } else {
            Some(self.choices[0].message.content.clone())
        }
    }
}

} // verus!
