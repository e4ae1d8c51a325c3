use auto_gippity::apis::call_request::{authorization_value, first_completion};
use auto_gippity::helpers::command_line::{
    agent_label, is_space, parse_confirmation, read_confirmation, trim, MessageColor,
    PrintCommand, AGENT_COLOR,
};
use auto_gippity::helpers::general::{
    ai_task_request, ai_task_request_decoded, decode_text_list, extend_ai_function,
    function_printer_message, TaskVerdict, TEXT_RETRIES,
};
use auto_gippity::models::agents::agent_protocol::AiFunction;
use auto_gippity::models::general::llm::Message;

fn convert_user_input_to_goal(_user_request: &str) -> &'static str {
    "fn convert_user_input_to_goal(_user_request: &str) { println!(OUTPUT) }"
}

const PRINTER: &str = "FUNCTION: fn convert_user_input_to_goal(_user_request: &str) { println!(OUTPUT) }\n\n        INPUT: dummy variable\n\n    INSTRUCTION: You are a function printer. You ONLY print the results of the function with the given input.\n    Nothing else. No commentary.\n    Print out what the function will return.";

#[test]
fn test_extending_ai_function() {
    let extended_msg = extend_ai_function(convert_user_input_to_goal, "dummy variable");
    assert_eq!(extended_msg.role, "system".to_string());
}

#[test]
fn test_get_use_response() {
    assert_eq!(trim("  build me a shop \n"), "build me a shop".to_string());
}

#[test]
fn test_print_agent_message() {
    assert_eq!(agent_label("Managing Agent"), "Agent: Managing Agent: ");
    assert_eq!(PrintCommand::AICall.statement_color(), MessageColor::Cyan);
}

fn print_project_scope(_project_description: &str) -> &'static str {
    "fn print_project_scope(_project_description: &str) { println!(OUTPUT) }"
}

#[test]
fn test_ai_task_request() {
    let mut arch_request = ai_task_request(
        "build a website that makes Bitcoin price API requests",
        print_project_scope,
    );
    assert_eq!(
        arch_request.message().content,
        "FUNCTION: fn print_project_scope(_project_description: &str) { println!(OUTPUT) }\n\n        INPUT: build a website that makes Bitcoin price API requests\n\n    INSTRUCTION: You are a function printer. You ONLY print the results of the function with the given input.\n    Nothing else. No commentary.\n    Print out what the function will return."
    );
    let arch_response = arch_request.on_response(Some("{}".to_string()));
    assert_eq!(arch_response, TaskVerdict::Answer("{}".to_string()));
}

#[test]
fn message_copy_says_the_same() {
    let message = Message { role: "user".to_string(), content: "Hi there".to_string() };
    let copy = message.clone();
    assert_eq!(copy, message);
    assert_eq!(copy.role, "user");
    assert_eq!(copy.content, "Hi there");
}

#[test]
fn extended_message_holds_the_function_and_the_input() {
    let extended_msg = extend_ai_function(convert_user_input_to_goal, "dummy variable");
    assert_eq!(extended_msg, Message { role: "system".to_string(), content: PRINTER.to_string() });
}

#[test]
fn function_printer_message_is_laid_out_exactly() {
    let message = function_printer_message("F", "I");
    assert_eq!(message.role, "system");
    assert_eq!(
        message.content,
        "FUNCTION: F\n\n        INPUT: I\n\n    INSTRUCTION: You are a function printer. You ONLY print the results of the function with the given input.\n    Nothing else. No commentary.\n    Print out what the function will return."
    );
}

#[test]
fn request_for_text_is_sent_again_once() {
    let mut request = ai_task_request("dummy variable", convert_user_input_to_goal);
    assert_eq!(request.message().content, PRINTER);
    assert_eq!(request.message().role, "system");
    assert_eq!(TEXT_RETRIES, 1);
    assert_eq!(request.on_response(None), TaskVerdict::Retry);
    assert_eq!(request.message().content, PRINTER);
    assert_eq!(request.on_response(None), TaskVerdict::GiveUp);
    assert_eq!(request.on_response(None), TaskVerdict::GiveUp);
}

#[test]
fn request_for_text_takes_the_answer_of_either_attempt() {
    let mut request = ai_task_request("dummy variable", convert_user_input_to_goal);
    assert_eq!(
        request.on_response(Some("a goal".to_string())),
        TaskVerdict::Answer("a goal".to_string())
    );
    let mut request = ai_task_request("dummy variable", convert_user_input_to_goal);
    assert_eq!(request.on_response(None), TaskVerdict::Retry);
    assert_eq!(
        request.on_response(Some("a goal".to_string())),
        TaskVerdict::Answer("a goal".to_string())
    );
}

#[test]
fn request_for_a_structured_result_is_not_sent_again() {
    let mut request = ai_task_request_decoded("dummy variable", convert_user_input_to_goal);
    assert_eq!(request.message().content, PRINTER);
    assert_eq!(request.on_response(None), TaskVerdict::GiveUp);
    let mut request = ai_task_request_decoded("dummy variable", convert_user_input_to_goal);
    assert_eq!(
        request.on_response(Some("{}".to_string())),
        TaskVerdict::Answer("{}".to_string())
    );
}

#[test]
fn list_of_strings_is_decoded_from_its_text() {
    assert_eq!(decode_text_list("[]"), Some(vec![]));
    assert_eq!(
        decode_text_list("[\"url1\", \"url2\", \"url3\"]"),
        Some(vec!["url1".to_string(), "url2".to_string(), "url3".to_string()])
    );
    assert_eq!(decode_text_list("  [ \"a\\nb\" ]\n"), Some(vec!["a\nb".to_string()]));
}

#[test]
fn text_that_is_no_list_of_strings_is_not_decoded() {
    for text in ["", "[", "url1", "[url1]", "{}", "[1]", "[\"a\",]", "null", "[[\"a\"]]"] {
        assert_eq!(decode_text_list(text), None, "{:?}", text);
    }
}

#[test]
fn response_is_trimmed() {
    assert_eq!(trim("shop"), "shop");
    assert_eq!(trim("\t a  b \r\n"), "a  b");
    assert_eq!(trim("   "), "");
    assert_eq!(trim(""), "");
    assert_eq!(trim("\u{3000}a\u{a0}b\u{2003}"), "a\u{a0}b");
}

#[test]
fn trimming_removes_what_the_standard_library_removes() {
    let samples = [
        "",
        " ",
        "a",
        " a",
        "a ",
        "\n\t a \r\n",
        "\u{b}\u{c}x\u{85}",
        "\u{1680}x\u{2000}\u{200a}",
        "\u{2028}\u{2029}x\u{202f}\u{205f}\u{3000}",
        "\u{200b}x\u{200b}",
        "\u{180e}x\u{feff}",
        " é \u{1f600} ",
        "\u{8}x\u{e}",
        "\u{1f}\u{21}",
    ];
    for sample in samples {
        assert_eq!(trim(sample), sample.trim(), "{:?}", sample);
    }
}

#[test]
fn white_space_is_what_the_standard_library_calls_white_space() {
    for code in 0u32..0x3100 {
        if let Some(c) = char::from_u32(code) {
            assert_eq!(is_space(c), c.is_whitespace(), "{:x}", code);
        }
    }
    for c in ['\u{feff}', '\u{e000}', '\u{1f600}', '\u{10ffff}'] {
        assert_eq!(is_space(c), c.is_whitespace());
    }
}

#[test]
fn confirmation_is_one_for_yes_and_two_for_no() {
    assert_eq!(parse_confirmation("1"), Some(true));
    assert_eq!(parse_confirmation(" 1 \n"), Some(true));
    assert_eq!(parse_confirmation("2\n"), Some(false));
    assert_eq!(parse_confirmation("\t2"), Some(false));
    assert_eq!(parse_confirmation("\u{a0}1\u{3000}"), Some(true));
}

#[test]
fn anything_else_is_no_answer_to_the_confirmation() {
    for line in ["", "\n", "3", "12", "yes", "1 2", "one", "y"] {
        assert_eq!(parse_confirmation(line), None, "{:?}", line);
    }
}

#[test]
fn normalized_answer_is_read_exactly() {
    assert_eq!(read_confirmation("1"), Some(true));
    assert_eq!(read_confirmation("2"), Some(false));
    assert_eq!(read_confirmation(" 1"), None);
    assert_eq!(read_confirmation(""), None);
}

#[test]
fn each_kind_of_message_has_its_colour() {
    assert_eq!(PrintCommand::AICall.statement_color(), MessageColor::Cyan);
    assert_eq!(PrintCommand::UnitTest.statement_color(), MessageColor::Magenta);
    assert_eq!(PrintCommand::Issue.statement_color(), MessageColor::Red);
    assert_eq!(AGENT_COLOR, MessageColor::Green);
}

#[test]
fn agent_label_names_the_agent() {
    assert_eq!(agent_label("Managing Agent"), "Agent: Managing Agent: ");
    assert_eq!(agent_label(""), "Agent: : ");
}

#[test]
fn authorization_value_is_a_bearer_token() {
    assert_eq!(authorization_value("sk-123"), "Bearer sk-123");
    assert_eq!(authorization_value(""), "Bearer ");
}

#[test]
fn first_completion_is_the_first_choice() {
    assert_eq!(first_completion(vec![]), None);
    assert_eq!(first_completion(vec!["a".to_string()]), Some("a".to_string()));
    assert_eq!(
        first_completion(vec!["a".to_string(), "b".to_string(), "c".to_string()]),
        Some("a".to_string())
    );
}

#[test]
fn prompt_functions_are_announced_by_name() {
    assert_eq!(AiFunction::ConvertUserInputToGoal.name(), "convert_user_input_to_goal");
    assert_eq!(AiFunction::PrintProjectScope.name(), "print_project_scope");
    assert_eq!(AiFunction::PrintSiteUrls.name(), "print_site_urls");
    assert_eq!(AiFunction::PrintBackendWebserverCode.name(), "print_backend_webserver_code");
    assert_eq!(AiFunction::PrintImprovedWebserverCode.name(), "print_improved_webserver_code");
    assert_eq!(AiFunction::PrintFixedCode.name(), "print_fixed_code");
    assert_eq!(AiFunction::PrintRestApiEndpoints.name(), "print_rest_api_endpoints");
}
