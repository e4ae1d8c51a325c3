use crate::models::general::llm::{Message, MessageView};
use vstd::prelude::*;
use vstd::string::*;

verus! {

/// How often a request for plain text is sent again after it failed.
pub const TEXT_RETRIES: u8 = 1;

/// The instruction that makes the completion service answer as the given
/// function would: with the function's output for the input and nothing else.
pub open spec fn function_printer_text(function: Seq<char>, input: Seq<char>) -> Seq<char> {
    "FUNCTION: "@ + function + "\n\n        INPUT: "@ + input
        + "\n\n    INSTRUCTION: You are a function printer. You ONLY print the results of the function with the given input.\n    Nothing else. No commentary.\n    Print out what the function will return."@
}

/// The system message that asks for the output of the function whose text is
/// `function`, on the input `func_input`.
pub fn function_printer_message(function: &str, func_input: &str) -> (msg: Message)
    ensures
        msg@ == (MessageView {
            role: "system"@,
            content: function_printer_text(function@, func_input@),
        }),
{
    let mut content = String::from_str("FUNCTION: ");
    content.append(function);
    content.append("\n\n        INPUT: ");
    content.append(func_input);
    content.append(
        "\n\n    INSTRUCTION: You are a function printer. You ONLY print the results of the function with the given input.\n    Nothing else. No commentary.\n    Print out what the function will return.",
    );
    Message { role: String::from_str("system"), content }
}

/// Extends what `ai_func` returns for `func_input` into the system message
/// that asks for the function's output and nothing else.
pub fn extend_ai_function<F: Fn(&str) -> &'static str>(ai_func: F, func_input: &str) -> (msg:
    Message)
    requires
        call_requires(ai_func, (func_input,)),
    ensures
        msg@.role == "system"@,
        exists|function: &'static str|
            call_ensures(ai_func, (func_input,), function) && msg@.content
                == function_printer_text(function@, func_input@),
{
    let function = ai_func(func_input);
    function_printer_message(function, func_input)
}

/// A request to the completion service, with the number of times it may be
/// sent again after a failure.
#[derive(Debug)]
pub struct TaskRequest {
    message: Message,
    retries_left: u8,
}

/// A [`TaskRequest`] as plain values.
pub struct TaskRequestView {
    pub message: MessageView,
    pub retries_left: nat,
}

impl View for TaskRequest {
    type V = TaskRequestView;

    closed spec fn view(&self) -> TaskRequestView {
        TaskRequestView { message: self.message@, retries_left: self.retries_left as nat }
    }
}

/// What to do with the outcome of one attempt.
#[derive(Debug, PartialEq)]
pub enum TaskVerdict {
    /// The service answered with this text.
    Answer(String),
    /// The attempt failed; send the same message once more.
    Retry,
    /// The attempt failed and no retry is left.
    GiveUp,
}

impl TaskRequest {
    /// The message to send, the same at every attempt.
    pub fn message(&self) -> (message: &Message)
        ensures
            message@ == self@.message,
    {
        &self.message
    }

    /// Takes the outcome of one attempt: the text of the answer, or `None`
    /// where the attempt failed. A failure is answered with a retry as long
    /// as one is left.
    pub fn on_response(&mut self, response: Option<String>) -> (verdict: TaskVerdict)
        ensures
            final(self)@.message == old(self)@.message,
            match response {
                Some(text) => verdict == TaskVerdict::Answer(text) && final(self)@ == old(self)@,
                None => if old(self)@.retries_left > 0 {
                    verdict == TaskVerdict::Retry && final(self)@.retries_left == old(
                        self,
                    )@.retries_left - 1
                } else {
                    verdict == TaskVerdict::GiveUp && final(self)@ == old(self)@
                },
            },
    {
        match response {
            Some(text) => TaskVerdict::Answer(text),
            None => {
                if self.retries_left > 0 {
                    self.retries_left = self.retries_left - 1;
                    TaskVerdict::Retry
                } else {
                    TaskVerdict::GiveUp
                }
            },
        }
    }
}

/// Prepares a request for plain text: the extended message for `msg_context`,
/// to be sent again once if the first attempt fails.
pub fn ai_task_request<F: Fn(&str) -> &'static str>(msg_context: &str, function_pass: F) -> (request:
    TaskRequest)
    requires
        call_requires(function_pass, (msg_context,)),
    ensures
        request@.retries_left == TEXT_RETRIES,
        request@.message.role == "system"@,
        exists|function: &'static str|
            call_ensures(function_pass, (msg_context,), function)
                && request@.message.content == function_printer_text(function@, msg_context@),
{
    let message = extend_ai_function(function_pass, msg_context);
    TaskRequest { message, retries_left: TEXT_RETRIES }
}

/// Prepares a request for a structured result: the extended message for
/// `msg_context`, sent once. A failure of the attempt, like a result that
/// cannot be decoded, is final.
pub fn ai_task_request_decoded<F: Fn(&str) -> &'static str>(
    msg_context: &str,
    function_pass: F,
) -> (request: TaskRequest)
    requires
        call_requires(function_pass, (msg_context,)),
    ensures
        request@.retries_left == 0,
        request@.message.role == "system"@,
        exists|function: &'static str|
            call_ensures(function_pass, (msg_context,), function)
                && request@.message.content == function_printer_text(function@, msg_context@),
{
    let message = extend_ai_function(function_pass, msg_context);
    TaskRequest { message, retries_left: 0 }
}

/// `serde_json::Error`: why a text could not be decoded.
#[verifier::external_type_specification]
#[verifier::external_body]
pub struct ExJsonError(serde_json::Error);

/// What `serde_json::from_str` makes of a text that is read as a list of
/// strings: the list, or `None` where it reports an error.
pub uninterp spec fn decoded_text_list(text: Seq<char>) -> Option<Seq<Seq<char>>>;

/// Calls `serde_json::from_str` to read a text as a JSON list of strings.
/// Claims only that the outcome, the list or the fact of an error, depends
/// on nothing but the text.
#[verifier::external_body]
fn list_from_json(text: &str) -> (outcome: Result<Vec<String>, serde_json::Error>)
    ensures
        match outcome {
            Ok(list) => decoded_text_list(text@) == Some(list.deep_view()),
            Err(_) => decoded_text_list(text@) is None,
        },
{
    serde_json::from_str(text)
}

/// Decodes a structured result that is a list of strings. `None` where the
/// text is not such a list.
pub fn decode_text_list(text: &str) -> (decoded: Option<Vec<String>>)
    ensures
        decoded.deep_view() == decoded_text_list(text@),
{
    match list_from_json(text) {
        Ok(list) => Some(list),
        Err(_) => None,
    }
}

} // verus!
