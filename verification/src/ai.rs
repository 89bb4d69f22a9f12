//! The requests of the assistant: conversation messages and the prompts sent for them.
use vstd::prelude::*;

use crate::text::{chars_of, dec, push_str, push_u64, push_vec, string_of, trim, trim_end_char, trim_end_char_v, trim_v};

verus! {

/// A single message in the AI chat conversation.
#[derive(Debug, Clone)]
pub struct ChatMessage {
    pub is_user: bool,
    pub content: String,
}

impl ChatMessage {
    /// A message written by the user.
    pub fn user(content: &str) -> (r: Self)
        ensures
            r.is_user,
            r.content@ == content@,
    {
        ChatMessage { is_user: true, content: String::from_str(content) }
    }

    /// A message written by the assistant.
    pub fn ai(content: &str) -> (r: Self)
        ensures
            !r.is_user,
            r.content@ == content@,
    {
        ChatMessage { is_user: false, content: String::from_str(content) }
    }
}

/// The chat-completions endpoint under the base URL `api_url`.
pub open spec fn spec_chat_endpoint(api_url: Seq<char>) -> Seq<char> {
    trim_end_char(api_url, '/') + "/v1/chat/completions"@
}

/// The chat-completions endpoint under `api_url`, whatever trailing slashes it has.
pub fn chat_endpoint(api_url: &str) -> (r: String)
    ensures
        r@ == spec_chat_endpoint(api_url@),
{
    let mut r = string_of(&trim_end_char_v(&chars_of(api_url), '/'));
    push_str(&mut r, "/v1/chat/completions");
    r
}

/// The system prompt of a conversation about the generated Terraform `tf`.
pub open spec fn spec_system_prompt(tf: Seq<char>) -> Seq<char> {
    "You are an expert UpCloud Terraform advisor helping a team migrate from AWS to UpCloud.\nYou have full access to the generated UpCloud Terraform below.\nBe concise. Identify real issues. If there are TODOs, suggest appropriate values.\n\n--- GENERATED TERRAFORM ---\n"@ + tf
}

/// The API role of a message.
pub open spec fn role_of(m: ChatMessage) -> Seq<char> {
    if m.is_user { "user"@ } else { "assistant"@ }
}

/// The messages sent for a conversation: the system prompt, then each message with
/// its role, in order.
pub open spec fn spec_chat_messages(ms: Seq<ChatMessage>, tf: Seq<char>) -> Seq<(Seq<char>, Seq<char>)> {
    seq![("system"@, spec_system_prompt(tf))] + ms.map_values(|m: ChatMessage| (role_of(m), m.content@))
}

pub open spec fn role_pairs_view(v: Seq<(String, String)>) -> Seq<(Seq<char>, Seq<char>)> {
    v.map_values(|p: (String, String)| (p.0@, p.1@))
}

/// The `(role, content)` messages of a chat about the generated Terraform `tf_context`.
pub fn chat_messages(messages: &[ChatMessage], tf_context: &str) -> (r: Vec<(String, String)>)
    ensures
        role_pairs_view(r@) == spec_chat_messages(messages@, tf_context@),
{
    let mut system = String::from_str("You are an expert UpCloud Terraform advisor helping a team migrate from AWS to UpCloud.\nYou have full access to the generated UpCloud Terraform below.\nBe concise. Identify real issues. If there are TODOs, suggest appropriate values.\n\n--- GENERATED TERRAFORM ---\n");
    push_str(&mut system, tf_context);
    let mut r: Vec<(String, String)> = Vec::new();
    r.push((String::from_str("system"), system));
    let ghost head = seq![("system"@, spec_system_prompt(tf_context@))];
    assert(role_pairs_view(r@) =~= head);
    let mut i: usize = 0;
    while i < messages.len()
        invariant
            i <= messages@.len(),
            head == seq![("system"@, spec_system_prompt(tf_context@))],
            role_pairs_view(r@) == head + messages@.take(i as int).map_values(|m: ChatMessage| (role_of(m), m.content@)),
        decreases messages@.len() - i,
    {
        let m = &messages[i];
        let role = if m.is_user { String::from_str("user") } else { String::from_str("assistant") };
        let ghost prev = role_pairs_view(r@);
        r.push((role, string_of(&chars_of(m.content.as_str()))));
        assert(messages@.take(i + 1).map_values(|m: ChatMessage| (role_of(m), m.content@))
            =~= messages@.take(i as int).map_values(|m: ChatMessage| (role_of(m), m.content@)).push((role_of(messages@[i as int]), messages@[i as int].content@)));
        assert(role_pairs_view(r@) =~= prev.push((role_of(messages@[i as int]), messages@[i as int].content@)));
        i += 1;
    }
    assert(messages@.take(messages@.len() as int) =~= messages@);
    r
}

/// The first `n` context lines joined by newlines.
pub open spec fn joined(ls: Seq<String>, n: int) -> Seq<char>
    decreases n,
{
    if n <= 0 { seq![] } else if n == 1 { ls[0]@ } else { joined(ls, n - 1) + "\n"@ + ls[n - 1]@ }
}

/// The prompt asking for a value to replace a TODO placeholder found in `file` at line
/// `line_no`, with the surrounding `context` lines.
pub open spec fn spec_todo_prompt(file: Seq<char>, line_no: nat, line_content: Seq<char>, placeholder: Seq<char>, context: Seq<String>) -> Seq<char> {
    "You are helping migrate AWS Terraform to UpCloud Terraform.\nFile: "@ + file
        + "\nLine "@ + dec(line_no) + ": "@ + trim(line_content)
        + "\nPlaceholder: "@ + placeholder
        + "\n\nContext:\n"@ + joined(context, context.len() as int)
        + "\n\nSuggest a concrete value to replace "@ + placeholder
        + ".\nRules:\n- Respond with ONLY the replacement value, no explanation\n- For base64 cert/key TODOs: respond with `# replace with base64-encoded PEM`\n- For IP addresses: suggest an appropriate private IP like 10.0.0.1\n- For gateway IPs: suggest 10.0.0.1\n- For CIDR blocks: suggest 0.0.0.0/0 for default routes\n- For access restrictions: suggest 0.0.0.0/0"@
}

/// The prompt asking for a replacement of a TODO placeholder.
pub fn todo_prompt(file: &str, line_no: u64, line_content: &str, placeholder: &str, context: &[String]) -> (r: String)
    ensures
        r@ == spec_todo_prompt(file@, line_no as nat, line_content@, placeholder@, context@),
{
    let mut s = String::from_str("You are helping migrate AWS Terraform to UpCloud Terraform.\nFile: ");
    push_str(&mut s, file);
    push_str(&mut s, "\nLine ");
    push_u64(&mut s, line_no);
    push_str(&mut s, ": ");
    push_vec(&mut s, &trim_v(&chars_of(line_content)));
    push_str(&mut s, "\nPlaceholder: ");
    push_str(&mut s, placeholder);
    push_str(&mut s, "\n\nContext:\n");
    let ghost before = s@;
    let mut i: usize = 0;
    while i < context.len()
        invariant
            i <= context@.len(),
            s@ == before + joined(context@, i as int),
        decreases context@.len() - i,
    {
        if i > 0 {
            push_str(&mut s, "\n");
        }
        push_str(&mut s, context[i].as_str());
        i += 1;
    }
    push_str(&mut s, "\n\nSuggest a concrete value to replace ");
    push_str(&mut s, placeholder);
    push_str(&mut s, ".\nRules:\n- Respond with ONLY the replacement value, no explanation\n- For base64 cert/key TODOs: respond with `# replace with base64-encoded PEM`\n- For IP addresses: suggest an appropriate private IP like 10.0.0.1\n- For gateway IPs: suggest 10.0.0.1\n- For CIDR blocks: suggest 0.0.0.0/0 for default routes\n- For access restrictions: suggest 0.0.0.0/0");
    s
}

} // verus!
