use toolchat::conversation::ChatMessage;
use toolchat::conversation::Conversation;
use toolchat::dispatch::resolve_call;
use toolchat::dispatch::session_after_dispatch;
use toolchat::dispatch::tool_intents;
use toolchat::dispatch::ToolAction;
use toolchat::dispatch::extract_reply;
use toolchat::protocol::FinishReason;
use toolchat::protocol::ModelChoice;
use toolchat::protocol::ModelResponse;
use toolchat::protocol::ToolCallIntent;
use toolchat::session::gate_message;
use toolchat::session::GateDecision;
use toolchat::session::SessionState;
use toolchat::weather::get_weather;

/// One full handling cycle: trigger word activates the session, the model
/// asks for the weather tool, its result is recorded as a `Function` turn
/// while the session flag is cleared, and the second model round's text is
/// the only outbound message.
#[test]
fn trigger_to_weather_tool_to_final_reply() {
    let mut flag = SessionState::Idle;
    let mut outbound: Vec<String> = Vec::new();

    let (decision, after_gate) =
        gate_message("tool_calls what's the weather in Rome", "tool_calls", flag);
    flag = after_gate;
    assert_eq!(flag, SessionState::Active);
    let utterance = match decision {
        GateDecision::Process { utterance } => utterance,
        GateDecision::Discard => panic!("triggered message was discarded"),
    };
    assert_eq!(utterance, " what's the weather in Rome");

    let mut conv = Conversation::new("Perform function requests for the user".to_string());
    conv.push_user(utterance);

    // First model round: the model asks for one getWeather call.
    let first = ModelResponse {
        choices: vec![ModelChoice {
            finish_reason: Some(FinishReason::ToolCalls),
            content: None,
            tool_calls: Some(vec![ToolCallIntent {
                name: "getWeather".to_string(),
                arguments: r#"{"city":"Rome"}"#.to_string(),
            }]),
        }],
    };
    let calls = tool_intents(&first).unwrap().expect("the model asked for tools");
    for call in calls {
        let planned = resolve_call(call).unwrap();
        let content = match &planned.action {
            ToolAction::Weather { city } => {
                assert_eq!(city, "Rome");
                // The provider was unreachable: the fixed fallback is fed back.
                get_weather(city, None)
            }
            other => panic!("unexpected capability: {:?}", other),
        };
        flag = session_after_dispatch(&planned.action, flag);
        conv.push_function(planned.name, content);
    }
    assert_eq!(flag, SessionState::Idle);
    let turns = conv.messages();
    assert_eq!(turns.len(), 3);
    assert!(matches!(
        &turns[2],
        ChatMessage::Function { name, content }
            if name == "getWeather" && content == "No city or incorrect spelling"
    ));

    // Second model round: plain text, no tools offered.
    let second = ModelResponse {
        choices: vec![ModelChoice {
            finish_reason: Some(FinishReason::Stop),
            content: Some("I could not find the weather for Rome.".to_string()),
            tool_calls: None,
        }],
    };
    match extract_reply(&second).unwrap() {
        Some(text) => outbound.push(text),
        None => flag = SessionState::Idle,
    }
    assert_eq!(outbound, vec!["I could not find the weather for Rome.".to_string()]);
}
