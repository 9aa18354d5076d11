use vstd::prelude::*;
use crate::config::is_keyless_provider;
use crate::error::GitAiError;
use crate::redact::{redact_secrets, redacted};
use crate::text::{
    decimal, push_decimal, push_str, same_text, split_seq, split_text, trim, trim_seq, views,
};
use crate::types::AIConfig;

verus! {

/// One message of a chat exchange.
#[derive(Debug, Clone)]
pub struct ChatMessage {
    pub role: String,
    pub content: String,
}

/// The part of a chat-completion reply that the client reads.
#[derive(Debug, Clone)]
pub struct ChatCompletionResponse {
    pub choices: Vec<Choice>,
}

#[derive(Debug, Clone)]
pub struct Choice {
    pub message: ChatMessage,
    pub finish_reason: Option<String>,
}

/// One choice of a streamed reply.
#[derive(Debug, Clone)]
pub struct StreamChoice {
    pub delta: Delta,
    pub finish_reason: Option<String>,
}

#[derive(Debug, Clone)]
pub struct StreamResponse {
    pub choices: Vec<StreamChoice>,
}

#[derive(Debug, Clone)]
pub struct Delta {
    pub content: Option<String>,
}

/// What one chat-completion call is to send.
#[derive(Debug, Clone)]
pub struct ChatRequestPlan {
    /// Where the request goes: the base URL with the chat-completions path.
    pub url: String,
    /// The value of the `Authorization` header.
    pub authorization: String,
    pub model: String,
    pub messages: Vec<ChatMessage>,
    /// The sampling temperature, in hundredths.
    pub temperature_percent: u32,
    pub max_tokens: u32,
}

/// How a chat-completion call came back.
#[derive(Debug, Clone)]
pub enum ChatReply {
    /// The request could not be sent or answered; the transport's own description.
    Transport(String),
    /// The service answered with a status other than success.
    Status { status: String, body: String },
    /// The body was not a well-formed reply; the parser's description. This is a
    /// serialization failure, a kind apart from transport failures and empty replies.
    Malformed(String),
    /// A well-formed reply.
    Parsed(ChatCompletionResponse),
}

/// Talks to a chat-completion service with a validated configuration.
pub struct AIClient {
    config: AIConfig,
}

/// The delimiter that packs several messages into one reply.
pub open spec fn delimiter() -> Seq<char> {
    "---"@
}

/// The non-empty pieces of a reply, trimmed, in order.
pub open spec fn kept_messages(pieces: Seq<Seq<char>>) -> Seq<Seq<char>>
    decreases pieces.len(),
{
    if pieces.len() == 0 {
        Seq::empty()
    } else {
        let t = trim_seq(pieces[0]);
        let rest = kept_messages(pieces.drop_first());
        if t.len() > 0 {
            seq![t] + rest
        } else {
            rest
        }
    }
}

/// The messages packed into one reply text.
pub open spec fn split_reply(content: Seq<char>) -> Seq<Seq<char>> {
    kept_messages(split_seq(content, delimiter()))
}

/// The user prompt that asks for `count` messages in one reply.
pub open spec fn multi_prompt(user: Seq<char>, count: nat) -> Seq<char> {
    user + "\n\nGenerate "@ + decimal(count) + " different commit messages separated by '---'."@
}

pub open spec fn chat_url(base: Seq<char>) -> Seq<char> {
    base + "/chat/completions"@
}

pub open spec fn plan_matches(
    p: ChatRequestPlan,
    c: AIConfig,
    system: Seq<char>,
    user: Seq<char>,
    temperature_percent: u32,
    max_tokens: u32,
) -> bool {
    &&& p.url@ == chat_url(c.base_url@)
    &&& p.authorization@ == "Bearer "@ + c.api_key@
    &&& p.model@ == c.model@
    &&& p.messages@.len() == 2
    &&& p.messages@[0].role@ == "system"@ && p.messages@[0].content@ == system
    &&& p.messages@[1].role@ == "user"@ && p.messages@[1].content@ == user
    &&& p.temperature_percent == temperature_percent
    &&& p.max_tokens == max_tokens
}

fn concat(a: &str, b: &str) -> (r: String)
    ensures
        r@ == a@ + b@,
{
    let mut r = String::new();
    push_str(&mut r, a);
    push_str(&mut r, b);
    assert(r@ =~= a@ + b@);
    r
}

impl AIClient {
    /// A client for `config`, which must name a provider and, unless the provider runs
    /// locally, a credential.
    pub fn new(config: AIConfig) -> (r: Result<AIClient, GitAiError>)
        ensures
            config.provider@.len() == 0 ==> (r matches Err(GitAiError::Config(d)) && d@
                == "Provider not configured"@),
            config.provider@.len() > 0 && config.api_key@.len() == 0 && !is_keyless_provider(
                config.provider@,
            ) ==> (r matches Err(GitAiError::Config(d)) && d@ == "API key not configured"@),
            config.provider@.len() > 0 && (config.api_key@.len() > 0 || is_keyless_provider(
                config.provider@,
            )) ==> (r matches Ok(c) && c.config() == config),
    {
        if config.provider.as_str().is_empty() {
            return Err(GitAiError::Config("Provider not configured".to_owned()));
        }
        if config.api_key.as_str().is_empty() && !same_text(config.provider.as_str(), "ollama")
            && !same_text(config.provider.as_str(), "lm-studio") {
            return Err(GitAiError::Config("API key not configured".to_owned()));
        }
        Ok(AIClient { config })
    }

    pub closed spec fn config(&self) -> AIConfig {
        self.config
    }

    /// The configuration this client was made with.
    pub fn get_config(&self) -> (r: &AIConfig)
        ensures
            *r == self.config(),
    {
        &self.config
    }

    fn plan(&self, system: &str, user: String, temperature_percent: u32, max_tokens: u32) -> (r:
        ChatRequestPlan)
        ensures
            plan_matches(r, self.config(), system@, user@, temperature_percent, max_tokens),
    {
        let mut messages: Vec<ChatMessage> = Vec::new();
        messages.push(ChatMessage { role: "system".to_owned(), content: system.to_owned() });
        messages.push(ChatMessage { role: "user".to_owned(), content: user });
        ChatRequestPlan {
            url: concat(self.config.base_url.as_str(), "/chat/completions"),
            authorization: concat("Bearer ", self.config.api_key.as_str()),
            model: self.config.model.clone(),
            messages,
            temperature_percent,
            max_tokens,
        }
    }

    /// The request for one message: temperature 0.7, at most 500 tokens.
    pub fn commit_message_request(&self, system_prompt: &str, user_prompt: &str) -> (r:
        ChatRequestPlan)
        ensures
            plan_matches(r, self.config(), system_prompt@, user_prompt@, 70, 500),
    {
        self.plan(system_prompt, user_prompt.to_owned(), 70, 500)
    }

    /// The request for `count` messages packed into one reply: temperature 0.8, at most
    /// 1000 tokens, and the user prompt asks for the variants and their delimiter.
    pub fn multiple_messages_request(&self, system_prompt: &str, user_prompt: &str, count: usize) -> (r:
        ChatRequestPlan)
        ensures
            plan_matches(r, self.config(), system_prompt@, multi_prompt(user_prompt@, count as nat), 80, 1000),
    {
        let mut user = String::new();
        push_str(&mut user, user_prompt);
        push_str(&mut user, "\n\nGenerate ");
        push_decimal(&mut user, count as u64);
        push_str(&mut user, " different commit messages separated by '---'.");
        assert(user@ =~= multi_prompt(user_prompt@, count as nat));
        self.plan(system_prompt, user, 80, 1000)
    }

    /// Scrubs provider keys, bearer credentials and long tokens from error text.
    pub fn redact_secrets(input: &str) -> (r: String)
        ensures
            r@ == redacted(input@),
    {
        redact_secrets(input)
    }

    /// The error for a request that failed in transport; its text is redacted.
    pub fn transport_error(detail: &str) -> (r: GitAiError)
        ensures
            r matches GitAiError::Http(m) && m@ == redacted("HTTP request failed: "@ + detail@),
    {
        let text = concat("HTTP request failed: ", detail);
        GitAiError::Http(Self::redact_secrets(text.as_str()))
    }

    /// The error for a reply with a status other than success; its text is redacted.
    pub fn status_error(status: &str, body: &str) -> (r: GitAiError)
        ensures
            r matches GitAiError::Ai(m) && m@ == redacted(
                "API error ("@ + status@ + "): "@ + body@,
            ),
    {
        let mut text = String::new();
        push_str(&mut text, "API error (");
        push_str(&mut text, status);
        push_str(&mut text, "): ");
        push_str(&mut text, body);
        assert(text@ =~= "API error ("@ + status@ + "): "@ + body@);
        GitAiError::Ai(Self::redact_secrets(text.as_str()))
    }

    /// The text of the first choice of a reply, or the error the reply stands for: a
    /// transport failure, a failed status, a malformed body, or no choice at all.
    pub fn generate_commit_message(&self, reply: ChatReply) -> (r: Result<String, GitAiError>)
        ensures
            reply matches ChatReply::Transport(d) ==> (r matches Err(GitAiError::Http(m)) && m@
                == redacted("HTTP request failed: "@ + d@)),
            reply matches ChatReply::Status { status, body } ==> (r matches Err(GitAiError::Ai(m))
                && m@ == redacted("API error ("@ + status@ + "): "@ + body@)),
            reply matches ChatReply::Malformed(d) ==> (r matches Err(GitAiError::Json(m)) && m@
                == "Failed to parse response: "@ + d@),
            reply matches ChatReply::Parsed(resp) ==> (if resp.choices@.len() == 0 {
                r matches Err(GitAiError::Ai(m)) && m@ == "No choices in response"@
            } else {
                r matches Ok(t) && t@ == resp.choices@[0].message.content@
            }),
    {
        match reply {
            ChatReply::Transport(d) => Err(Self::transport_error(d.as_str())),
            ChatReply::Status { status, body } => Err(Self::status_error(status.as_str(), body.as_str())),
            ChatReply::Malformed(d) => Err(GitAiError::Json(concat("Failed to parse response: ", d.as_str()))),
            ChatReply::Parsed(resp) => {
                if resp.choices.len() == 0 {
                    Err(GitAiError::Ai("No choices in response".to_owned()))
                } else {
                    Ok(resp.choices[0].message.content.clone())
                }
            },
        }
    }

    /// The messages of a reply that packs several: as for one message, then the text is
    /// cut at the delimiter, each piece trimmed and empty ones dropped.
    pub fn generate_multiple_messages(&self, reply: ChatReply) -> (r: Result<Vec<String>, GitAiError>)
        ensures
            reply matches ChatReply::Transport(d) ==> (r matches Err(GitAiError::Http(m)) && m@
                == redacted("HTTP request failed: "@ + d@)),
            reply matches ChatReply::Status { status, body } ==> (r matches Err(GitAiError::Ai(m))
                && m@ == redacted("API error ("@ + status@ + "): "@ + body@)),
            reply matches ChatReply::Malformed(d) ==> (r matches Err(GitAiError::Json(m)) && m@
                == "Failed to parse response: "@ + d@),
            reply matches ChatReply::Parsed(resp) ==> (if resp.choices@.len() == 0 {
                r matches Err(GitAiError::Ai(m)) && m@ == "No choices in response"@
            } else {
                r matches Ok(v) && views(v@) == split_reply(resp.choices@[0].message.content@)
            }),
    {
        let text = self.generate_commit_message(reply)?;
        Ok(split_messages(text.as_str()))
    }
}

/// The messages packed into one reply: cut at the delimiter, trimmed, empty ones dropped.
pub fn split_messages(content: &str) -> (r: Vec<String>)
    ensures
        views(r@) == split_reply(content@),
{
    proof {
        reveal_strlit("---");
    }
    let pieces = split_text(content, "---");
    let ghost ps = views(pieces@);
    let mut out: Vec<String> = Vec::new();
    let mut i: usize = 0;
    assert(ps.subrange(0, ps.len() as int) =~= ps);
    assert(views(out@) =~= Seq::<Seq<char>>::empty());
    assert(views(out@) + kept_messages(ps) =~= kept_messages(ps));
    while i < pieces.len()
        invariant
            ps == views(pieces@),
            ps == split_seq(content@, delimiter()),
            i <= pieces@.len(),
            views(out@) + kept_messages(ps.subrange(i as int, ps.len() as int)) == kept_messages(ps),
        decreases pieces@.len() - i,
    {
        let ghost before = views(out@);
        let ghost tail = ps.subrange(i as int, ps.len() as int);
        assert(tail.drop_first() =~= ps.subrange(i + 1, ps.len() as int));
        assert(tail[0] == pieces@[i as int]@);
        let t = trim(pieces[i].as_str());
        if !t.as_str().is_empty() {
            out.push(t);
            assert(views(out@) =~= before.push(trim_seq(tail[0])));
            assert(views(out@) + kept_messages(ps.subrange(i + 1, ps.len() as int)) =~= before
                + kept_messages(tail));
        }
        i += 1;
    }
    assert(views(out@) =~= views(out@) + kept_messages(ps.subrange(i as int, ps.len() as int)));
    out
}

} // verus!
