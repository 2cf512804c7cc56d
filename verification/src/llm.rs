use vstd::prelude::*;

verus! {

/// One chat-style line exchanged with the oracle: who speaks and what
/// is said.
#[derive(Clone, Debug)]
pub struct Message {
    pub role: String,
    pub content: String,
}

/// The innermost payload of an oracle reply.
#[derive(Debug)]
pub struct APIMessage {
    pub content: String,
}

/// One candidate answer inside an oracle reply.
#[derive(Debug)]
pub struct APIChoice {
    pub message: APIMessage,
}

/// A structured oracle reply: an ordered list of candidate answers.
#[derive(Debug)]
pub struct APIResponse {
    pub choices: Vec<APIChoice>,
}

/// The text the pipeline takes from an oracle reply: the content of the
/// first candidate answer. A reply without any answer carries nothing
/// usable, so callers must not hand one in.
pub fn first_choice_content(resp: &APIResponse) -> (r: String)
    requires
        resp.choices@.len() > 0,
    ensures
        r@ == resp.choices@[0].message.content@,
{
    resp.choices[0].message.content.clone()
}

} // verus!
