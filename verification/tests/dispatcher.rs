use kimi_bot::chat::ChatResponse;
use kimi_bot::command::Command;
use kimi_bot::config::ClientHandle;
use kimi_bot::dispatch::{dispatch, help_text, show_config_reply, Action};
use kimi_bot::{Config, State};

fn state_with(key: &str, url: &str, model: &str) -> State {
    let config = Config::new(key.to_string(), url.to_string(), model.to_string());
    let client = ClientHandle::with_config(config.to_openai_config());
    State::new(client).with_config(config)
}

fn reply_of(action: Action) -> String {
    match action {
        Action::Reply(s) => s,
        Action::Downstream(_) => panic!("expected a reply, got a downstream call"),
    }
}

#[test]
fn counter_counts_every_command_kind() {
    let mut state = state_with("k", "A", "m1");
    assert_eq!(state.messages_total, 0);
    dispatch(&mut state, Command::Help);
    dispatch(&mut state, Command::ShowConfig);
    dispatch(&mut state, Command::Chat("hi".to_string()));
    dispatch(&mut state, Command::UpdateEndpoint("B".to_string()));
    dispatch(&mut state, Command::UpdateModel("m2".to_string()));
    assert_eq!(state.messages_total, 5);
}

#[test]
fn show_config_reports_updated_endpoint() {
    let mut state = state_with("k", "https://old.example", "m1");
    dispatch(
        &mut state,
        Command::UpdateEndpoint("https://new.example".to_string()),
    );
    let reply = reply_of(dispatch(&mut state, Command::ShowConfig));
    assert_eq!(reply, "config: url(https://new.example), model(m1)");
}

#[test]
fn chat_after_update_model_uses_new_model() {
    let mut state = state_with("k", "A", "m1");
    let confirm = reply_of(dispatch(&mut state, Command::UpdateModel("m2".to_string())));
    assert_eq!(confirm, "Update model successful.");
    match dispatch(&mut state, Command::Chat("hi".to_string())) {
        Action::Downstream(call) => {
            assert_eq!(call.request.model, "m2");
            assert_eq!(call.request.text, "hi");
        }
        Action::Reply(_) => panic!("chat must hand back a downstream call"),
    }
}

#[test]
fn scenario_update_model_then_chat_then_update_endpoint() {
    let mut state = state_with("k", "A", "m1");
    dispatch(&mut state, Command::UpdateModel("m2".to_string()));
    match dispatch(&mut state, Command::Chat("hi".to_string())) {
        Action::Downstream(call) => assert_eq!(call.request.model, "m2"),
        Action::Reply(_) => panic!("chat must hand back a downstream call"),
    }
    let confirm = reply_of(dispatch(&mut state, Command::UpdateEndpoint("B".to_string())));
    assert_eq!(confirm, "Update endpoint successful.");
    let reply = reply_of(dispatch(&mut state, Command::ShowConfig));
    assert_eq!(reply, "config: url(B), model(m2)");
}

#[test]
fn chat_snapshot_is_consistent_with_config() {
    let mut state = state_with("secret", "https://api.example", "m1");
    match dispatch(&mut state, Command::Chat("hello".to_string())) {
        Action::Downstream(call) => {
            assert_eq!(call.client.api_key().as_str(), "secret");
            assert_eq!(call.client.api_base(), call.config.openai_url());
            assert_eq!(call.client.org_id().as_str(), "the-continental");
            assert_eq!(call.request.model, *call.config.openai_model());
        }
        Action::Reply(_) => panic!("chat must hand back a downstream call"),
    }
}

#[test]
fn update_endpoint_rebuilds_handle_from_new_config() {
    let mut state = state_with("k", "A", "m1");
    dispatch(&mut state, Command::UpdateEndpoint("B".to_string()));
    match dispatch(&mut state, Command::Chat("q".to_string())) {
        Action::Downstream(call) => {
            assert_eq!(call.client.api_base().as_str(), "B");
            assert_eq!(call.config.openai_url().as_str(), "B");
        }
        Action::Reply(_) => panic!("chat must hand back a downstream call"),
    }
}

#[test]
fn help_enumerates_all_commands() {
    let text = help_text();
    assert_eq!(reply_of({
        let mut state = state_with("k", "A", "m");
        dispatch(&mut state, Command::Help)
    }), text);
    assert!(text.starts_with("These commands are supported:"));
    for name in [
        "/help",
        "/current-config",
        "/kimi",
        "/update-endpoint",
        "/update-model",
    ] {
        assert!(text.contains(name), "help text misses {name}");
    }
}

#[test]
fn show_config_reply_is_exact() {
    let config = Config::new("k".to_string(), "u".to_string(), "m".to_string());
    assert_eq!(show_config_reply(&config), "config: url(u), model(m)");
}

#[test]
fn show_config_on_empty_config_reports_empty_fields() {
    let config = Config::default();
    assert_eq!(show_config_reply(&config), "config: url(), model()");
}

#[test]
fn chat_with_empty_text_still_carries_the_model() {
    let mut state = state_with("k", "A", "m1");
    match dispatch(&mut state, Command::Chat(String::new())) {
        Action::Downstream(call) => {
            assert_eq!(call.request.model, "m1");
            assert_eq!(call.request.text, "");
        }
        Action::Reply(_) => panic!("chat must hand back a downstream call"),
    }
}

#[test]
fn empty_response_is_reported_as_error_not_panic() {
    let response = ChatResponse { choices: vec![] };
    let reply = kimi_bot::chat::chat_outcome_reply(Ok(response));
    assert_eq!(reply, "Error occurred: The remote chat AI response failed");
}
