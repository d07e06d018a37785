use toolchat::capability::get_time_of_day;
use toolchat::capability::scrape_reply;
use toolchat::capability::unknown_tool_reply;
use toolchat::conversation::ChatMessage;
use toolchat::conversation::Conversation;
use toolchat::decimal::i32_to_string;
use toolchat::decimal::u64_to_string;
use toolchat::dispatch::extract_reply;
use toolchat::dispatch::resolve_call;
use toolchat::dispatch::session_after_dispatch;
use toolchat::dispatch::tool_intents;
use toolchat::dispatch::ChatError;
use toolchat::dispatch::ToolAction;
use toolchat::protocol::FinishReason;
use toolchat::protocol::ModelChoice;
use toolchat::protocol::ModelResponse;
use toolchat::protocol::ToolCallIntent;
use toolchat::session::gate_message;
use toolchat::session::GateDecision;
use toolchat::session::SessionState;
use toolchat::tools::tool_registry;
use toolchat::weather::get_weather;

fn choice(
    finish_reason: Option<FinishReason>,
    content: Option<&str>,
    tool_calls: Option<Vec<ToolCallIntent>>,
) -> ModelChoice {
    ModelChoice { finish_reason, content: content.map(|s| s.to_string()), tool_calls }
}

fn intent(name: &str, arguments: &str) -> ToolCallIntent {
    ToolCallIntent { name: name.to_string(), arguments: arguments.to_string() }
}

#[test]
fn gate_idle_untriggered_discards() {
    let (decision, flag) = gate_message("what's the weather", "tool_calls", SessionState::Idle);
    assert!(matches!(decision, GateDecision::Discard));
    assert_eq!(flag, SessionState::Idle);
}

#[test]
fn gate_trigger_activates_and_strips() {
    let (decision, flag) =
        gate_message("tool_calls what's the weather", "tool_calls", SessionState::Idle);
    assert_eq!(flag, SessionState::Active);
    match decision {
        GateDecision::Process { utterance } => assert_eq!(utterance, " what's the weather"),
        GateDecision::Discard => panic!("triggered message was discarded"),
    }
}

#[test]
fn gate_trigger_activates_whatever_the_prior_state() {
    let (decision, flag) = gate_message("tool_calls hello", "tool_calls", SessionState::Active);
    assert_eq!(flag, SessionState::Active);
    match decision {
        GateDecision::Process { utterance } => assert_eq!(utterance, " hello"),
        GateDecision::Discard => panic!("triggered message was discarded"),
    }
}

#[test]
fn gate_active_passes_message_whole() {
    let (decision, flag) = gate_message("and tomorrow?", "tool_calls", SessionState::Active);
    assert_eq!(flag, SessionState::Active);
    match decision {
        GateDecision::Process { utterance } => assert_eq!(utterance, "and tomorrow?"),
        GateDecision::Discard => panic!("active session discarded a follow-up"),
    }
}

#[test]
fn conversation_starts_with_system_prompt() {
    let conv = Conversation::new("Perform function requests for the user".to_string());
    assert_eq!(conv.len(), 1);
    match &conv.messages()[0] {
        ChatMessage::System { content } => {
            assert_eq!(content, "Perform function requests for the user")
        }
        other => panic!("first turn is not the system prompt: {:?}", other),
    }
}

#[test]
fn conversation_appends_user_and_function_turns() {
    let mut conv = Conversation::new("sys".to_string());
    conv.push_user("hi".to_string());
    conv.push_function("getWeather".to_string(), "sunny".to_string());
    let turns = conv.messages();
    assert_eq!(turns.len(), 3);
    assert!(matches!(&turns[1], ChatMessage::User { content } if content == "hi"));
    assert!(matches!(
        &turns[2],
        ChatMessage::Function { name, content } if name == "getWeather" && content == "sunny"
    ));
}

#[test]
fn resolve_weather_call_extracts_city() {
    let planned = resolve_call(&intent("getWeather", r#"{"city":"Rome"}"#)).unwrap();
    assert_eq!(planned.name, "getWeather");
    assert!(matches!(planned.action, ToolAction::Weather { city } if city == "Rome"));
}

#[test]
fn resolve_scraper_call_extracts_url() {
    let planned =
        resolve_call(&intent("scraper", r#"{"url":"https://example.com"}"#)).unwrap();
    assert_eq!(planned.name, "scraper");
    assert!(matches!(planned.action, ToolAction::Scrape { url } if url == "https://example.com"));
}

#[test]
fn resolve_time_call_takes_no_arguments() {
    let planned = resolve_call(&intent("getTimeOfDay", "{}")).unwrap();
    assert!(matches!(planned.action, ToolAction::TimeOfDay));
}

#[test]
fn resolve_unrecognized_name_is_noop() {
    let planned = resolve_call(&intent("sendMail", r#"{"to":"a@b"}"#)).unwrap();
    assert_eq!(planned.name, "sendMail");
    assert!(matches!(planned.action, ToolAction::Unknown));
}

#[test]
fn resolve_rejects_malformed_argument_payload() {
    let r = resolve_call(&intent("getWeather", "not json"));
    assert_eq!(r.unwrap_err(), ChatError::BadToolArguments);
}

#[test]
fn resolve_rejects_missing_required_key() {
    let r = resolve_call(&intent("scraper", r#"{"city":"Rome"}"#));
    assert_eq!(r.unwrap_err(), ChatError::BadToolArguments);
}

#[test]
fn dispatch_clears_session_for_recognized_tools() {
    let weather = ToolAction::Weather { city: "Rome".to_string() };
    let scrape = ToolAction::Scrape { url: "https://example.com".to_string() };
    assert_eq!(session_after_dispatch(&weather, SessionState::Active), SessionState::Idle);
    assert_eq!(session_after_dispatch(&weather, SessionState::Idle), SessionState::Idle);
    assert_eq!(session_after_dispatch(&scrape, SessionState::Active), SessionState::Idle);
    assert_eq!(
        session_after_dispatch(&ToolAction::TimeOfDay, SessionState::Active),
        SessionState::Idle
    );
}

#[test]
fn dispatch_noop_keeps_session() {
    assert_eq!(
        session_after_dispatch(&ToolAction::Unknown, SessionState::Active),
        SessionState::Active
    );
    assert_eq!(
        session_after_dispatch(&ToolAction::Unknown, SessionState::Idle),
        SessionState::Idle
    );
}

#[test]
fn no_tool_dispatch_without_tool_finish() {
    let resp = ModelResponse {
        choices: vec![choice(Some(FinishReason::Stop), Some("plain answer"), None)],
    };
    assert!(tool_intents(&resp).unwrap().is_none());
}

#[test]
fn tool_finish_yields_the_intents() {
    let resp = ModelResponse {
        choices: vec![choice(
            Some(FinishReason::ToolCalls),
            None,
            Some(vec![intent("getWeather", r#"{"city":"Rome"}"#)]),
        )],
    };
    let calls = tool_intents(&resp).unwrap().unwrap();
    assert_eq!(calls.len(), 1);
    assert_eq!(calls[0].name, "getWeather");
}

#[test]
fn response_without_choices_is_malformed() {
    let resp = ModelResponse { choices: vec![] };
    assert_eq!(tool_intents(&resp).unwrap_err(), ChatError::MalformedResponse);
    assert_eq!(extract_reply(&resp).unwrap_err(), ChatError::MalformedResponse);
}

#[test]
fn tool_finish_without_list_is_malformed() {
    let resp = ModelResponse { choices: vec![choice(Some(FinishReason::ToolCalls), None, None)] };
    assert_eq!(tool_intents(&resp).unwrap_err(), ChatError::MalformedResponse);
}

#[test]
fn reply_is_extracted_verbatim() {
    let resp = ModelResponse {
        choices: vec![choice(Some(FinishReason::Stop), Some("The sky is clear."), None)],
    };
    assert_eq!(extract_reply(&resp).unwrap(), Some("The sky is clear.".to_string()));
}

#[test]
fn absent_reply_is_the_terminal_outcome() {
    let resp = ModelResponse { choices: vec![choice(Some(FinishReason::Stop), None, None)] };
    assert_eq!(extract_reply(&resp).unwrap(), None);
}

#[test]
fn weather_report_formats_and_truncates() {
    let body = br#"{"weather":[{"main":"Clear"}],"main":{"temp_min":10.7,"temp_max":20.9},"wind":{"speed":5.4}}"#
        .to_vec();
    let report = get_weather("Paris", Some(&body));
    assert!(report.contains("Today in Paris"));
    assert!(report.contains("Clear"));
    assert!(report.contains("10 °C"));
    assert!(report.contains("20 °C"));
    assert!(report.contains("5 km/h"));
    assert_eq!(
        report,
        "\nToday in Paris\nClear\nLow temperature: 10 °C,\nHigh temperature: 20 °C,\nWind Speed: 5 km/h"
    );
}

#[test]
fn weather_report_defaults_to_unknown_condition() {
    let body =
        br#"{"weather":[],"main":{"temp_min":-3.9,"temp_max":4.2},"wind":{"speed":0.4}}"#.to_vec();
    let report = get_weather("Oslo", Some(&body));
    assert_eq!(
        report,
        "\nToday in Oslo\nUnknown\nLow temperature: -3 °C,\nHigh temperature: 4 °C,\nWind Speed: 0 km/h"
    );
}

#[test]
fn weather_fallback_on_failed_request() {
    assert_eq!(get_weather("Paris", None), "No city or incorrect spelling");
}

#[test]
fn weather_fallback_on_malformed_payload() {
    let body = b"<html>not json</html>".to_vec();
    assert_eq!(get_weather("Paris", Some(&body)), "No city or incorrect spelling");
    let missing = br#"{"weather":[{"main":"Clear"}]}"#.to_vec();
    assert_eq!(get_weather("Paris", Some(&missing)), "No city or incorrect spelling");
}

#[test]
fn scrape_failure_yields_fixed_fallback() {
    assert_eq!(scrape_reply(None), "failed to get webpage");
}

#[test]
fn scrape_success_passes_text_verbatim() {
    assert_eq!(scrape_reply(Some("page text".to_string())), "page text");
}

#[test]
fn time_of_day_reads_the_clock() {
    let now = get_time_of_day();
    assert!(now.contains('T'));
    assert!(now.len() >= 19);
}

#[test]
fn unknown_tool_reply_is_empty() {
    assert_eq!(unknown_tool_reply(), "");
}

#[test]
fn registry_advertises_the_three_tools() {
    let tools = tool_registry();
    assert_eq!(tools.len(), 3);
    assert_eq!(tools[0].name, "getWeather");
    assert_eq!(tools[0].parameter.as_ref().unwrap().name, "city");
    assert_eq!(tools[1].name, "scraper");
    assert_eq!(tools[1].parameter.as_ref().unwrap().name, "url");
    assert_eq!(tools[2].name, "getTimeOfDay");
    assert!(tools[2].parameter.is_none());
}

#[test]
fn decimal_rendering_is_exact() {
    assert_eq!(u64_to_string(0), "0");
    assert_eq!(u64_to_string(1234), "1234");
    assert_eq!(i32_to_string(-5), "-5");
    assert_eq!(i32_to_string(i32::MIN), "-2147483648");
}
