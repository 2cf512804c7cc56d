use crate::error::AgentError;
use crate::llm::Message;
use vstd::prelude::*;
use vstd::string::StringExecFns;

verus! {

/// The exact text of the system message that frames a prompt-template
/// output together with the user-facing input.
pub open spec fn framed_prompt(ai_func_output: Seq<char>, func_input: Seq<char>) -> Seq<char> {
    "FUNCTION "@ + ai_func_output
        + " \n    INSTRUCTION: You are a function printer. You ONLY print the results of functions.\n    Nothing else. No commentary. Here is the input to the function "@
        + func_input + ".\n    Print out what the function will return."@
}

/// Builds the system message that steers the oracle: the output of a
/// prompt template and the input it was applied to, wrapped in the
/// fixed function-printer instruction.
pub fn extend_ai_functions(ai_func_output: &str, func_input: &str) -> (r: Message)
    ensures
        r.role@ == "system"@,
        r.content@ == framed_prompt(ai_func_output@, func_input@),
{
    let mut content = String::from_str("FUNCTION ");
    content.append(ai_func_output);
    content.append(
        " \n    INSTRUCTION: You are a function printer. You ONLY print the results of functions.\n    Nothing else. No commentary. Here is the input to the function ",
    );
    content.append(func_input);
    content.append(".\n    Print out what the function will return.");
    proof {
        assert(content@ =~= framed_prompt(ai_func_output@, func_input@));
    }
    Message { role: String::from_str("system"), content }
}

/// The transport policy for an oracle call: the first successful
/// attempt wins, a failed first attempt may be rescued by exactly one
/// retry, and two failed attempts are fatal.
pub fn resolve_oracle_attempts(first: Option<String>, retry: Option<String>) -> (r: Result<
    String,
    AgentError,
>)
    ensures
        first matches Some(t) ==> r == Ok::<String, AgentError>(t),
        first is None ==> (retry matches Some(t) ==> r == Ok::<String, AgentError>(t)),
        first is None && retry is None ==> r == Err::<String, AgentError>(
            AgentError::OracleTransport,
        ),
{
    match first {
        Some(t) => Ok(t),
        None => match retry {
            Some(t) => Ok(t),
            None => Err(AgentError::OracleTransport),
        },
    }
}

/// The decode policy for a structured oracle answer: a value that
/// decoded is accepted as it is; a malformed answer is fatal and never
/// retried.
pub fn require_decoded<T>(decoded: Option<T>) -> (r: Result<T, AgentError>)
    ensures
        decoded matches Some(v) ==> r == Ok::<T, AgentError>(v),
        decoded is None ==> r == Err::<T, AgentError>(AgentError::OracleDecode),
{
    match decoded {
        Some(v) => Ok(v),
        None => Err(AgentError::OracleDecode),
    }
}

} // verus!
