use rig_play::json::Json;
use rig_play::registry::{DispatchError, Registry};
use rig_play::session::{
    apply_turn, classify_input, handle_line, Command, Message, ModelReply, ProviderError, Role,
    TurnError, TurnState, TurnStep, MAX_TOOL_CALLS,
};
use rig_play::spinner::{next_frame, SPINNER_FRAMES};
use rig_play::Config;

fn message(role: Role, content: &str) -> Message {
    Message { role, content: String::from(content) }
}

#[test]
fn classify_reads_the_two_commands() {
    assert_eq!(classify_input("exit"), Command::Exit);
    assert_eq!(classify_input("clear"), Command::Clear);
    assert_eq!(classify_input("2 + 2"), Command::Chat);
    assert_eq!(classify_input(""), Command::Chat);
    assert_eq!(classify_input("exit now"), Command::Chat);
}

#[test]
fn clear_resets_history_without_a_provider_call() {
    let mut history = vec![
        message(Role::User, "hi"),
        message(Role::Assistant, "hello"),
        message(Role::User, "how are you"),
    ];
    let c = handle_line(&mut history, "clear");
    assert_eq!(c, Command::Clear);
    assert!(history.is_empty());

    // Any other line leaves the history alone.
    let mut history = vec![message(Role::User, "hi")];
    let c = handle_line(&mut history, "what is 2 + 2");
    assert_eq!(c, Command::Chat);
    assert_eq!(history.len(), 1);
    let c = handle_line(&mut history, "exit");
    assert_eq!(c, Command::Exit);
    assert_eq!(history.len(), 1);
}

#[test]
fn chat_turn_with_a_tool_call_appends_two_messages() {
    // Empty session; the user asks "2 + 2"; the model decides to call
    // the adder with x = 2, y = 2.
    let reg = Registry::with_default_tools();
    let mut history: Vec<Message> = vec![];
    let mut turn = TurnState::start();

    let args = Json::Object(vec![
        (String::from("x"), Json::Int(2)),
        (String::from("y"), Json::Int(2)),
    ]);
    let step = turn_on(&reg, &mut turn, ModelReply::ToolCall { name: String::from("add"), args });
    match step {
        TurnStep::FeedToolResult(Json::Int(v)) => assert_eq!(v, 5),
        other => panic!("expected the tool result, got {:?}", other),
    }

    // The model turns the tool result into final text.
    let step = turn_on(&reg, &mut turn, ModelReply::Final(String::from("2 + 2 = 5")));
    let text = match step {
        TurnStep::Respond(t) => t,
        other => panic!("expected final text, got {:?}", other),
    };

    apply_turn(&mut history, "2 + 2", &Ok(text));
    assert_eq!(history.len(), 2);
    assert_eq!(history[0].role, Role::User);
    assert_eq!(history[0].content, "2 + 2");
    assert_eq!(history[1].role, Role::Assistant);
    assert_eq!(history[1].content, "2 + 2 = 5");
}

fn turn_on(reg: &Registry, turn: &mut TurnState, reply: ModelReply) -> TurnStep {
    rig_play::session::turn_on_reply(reg, turn, Ok(reply))
}

#[test]
fn provider_failure_leaves_history_unchanged() {
    let mut history = vec![message(Role::User, "hi"), message(Role::Assistant, "hello")];
    let failure: Result<String, ProviderError> =
        Err(ProviderError { message: String::from("connection reset") });
    apply_turn(&mut history, "and now?", &failure);
    assert_eq!(history.len(), 2);
    assert_eq!(history[0].content, "hi");
    assert_eq!(history[1].content, "hello");

    // The turn itself reports the provider failure.
    let reg = Registry::with_default_tools();
    let mut turn = TurnState::start();
    let step = rig_play::session::turn_on_reply(
        &reg,
        &mut turn,
        Err(ProviderError { message: String::from("connection reset") }),
    );
    match step {
        TurnStep::Fail(TurnError::Provider(e)) => assert_eq!(e.message, "connection reset"),
        other => panic!("expected a provider failure, got {:?}", other),
    }
}

#[test]
fn successful_plain_turn_appends_user_then_assistant() {
    let mut history: Vec<Message> = vec![];
    apply_turn(&mut history, "hello", &Ok(String::from("hi there")));
    assert_eq!(history.len(), 2);
    assert_eq!(history[0].role, Role::User);
    assert_eq!(history[0].content, "hello");
    assert_eq!(history[1].role, Role::Assistant);
    assert_eq!(history[1].content, "hi there");
}

#[test]
fn tool_chain_is_bounded() {
    let reg = Registry::with_default_tools();
    let mut turn = TurnState { calls_made: MAX_TOOL_CALLS };
    let args = Json::Object(vec![
        (String::from("x"), Json::Int(1)),
        (String::from("y"), Json::Int(1)),
    ]);
    let step = turn_on(&reg, &mut turn, ModelReply::ToolCall { name: String::from("add"), args });
    assert!(matches!(step, TurnStep::Fail(TurnError::ToolChainExceeded)));
    assert_eq!(turn.calls_made, MAX_TOOL_CALLS);
}

#[test]
fn turn_reports_a_failed_dispatch() {
    let reg = Registry::with_default_tools();
    let mut turn = TurnState::start();
    let step = turn_on(
        &reg,
        &mut turn,
        ModelReply::ToolCall { name: String::from("no_such_tool"), args: Json::Object(vec![]) },
    );
    match step {
        TurnStep::Fail(TurnError::Dispatch(DispatchError::ToolNotFound(n))) => {
            assert_eq!(n, "no_such_tool")
        },
        other => panic!("expected a dispatch failure, got {:?}", other),
    }
    assert_eq!(turn.calls_made, 1);
}

#[test]
fn spinner_frames_cycle() {
    assert_eq!(next_frame(0), 1);
    assert_eq!(next_frame(SPINNER_FRAMES - 1), 0);
}

#[test]
fn config_keeps_its_fields() {
    let c = Config::new(
        String::from("test-key"),
        String::from("https://api.example.com/v1"),
        String::from("some-model"),
    );
    assert_eq!(c.api_key, "test-key");
    assert_eq!(c.api_base, "https://api.example.com/v1");
    assert_eq!(c.model, "some-model");
}
