use kimi_bot::command::Command;
use kimi_bot::config::ClientHandle;
use kimi_bot::dispatch::Action;
use kimi_bot::shared::SharedState;
use kimi_bot::{Config, State};

fn shared_with(key: &str, url: &str, model: &str) -> SharedState {
    let config = Config::new(key.to_string(), url.to_string(), model.to_string());
    let client = ClientHandle::with_config(config.to_openai_config());
    State::new_shared(State::new(client).with_config(config))
}

#[test]
fn shared_snapshot_pairs_handle_with_its_config() {
    let shared = shared_with("k", "https://api.example", "m1");
    let (config, client) = shared.read_snapshot();
    assert_eq!(client.api_base(), config.openai_url());
    assert_eq!(client.api_key().as_str(), "k");
    assert_eq!(client.org_id().as_str(), "the-continental");
}

#[test]
fn shared_replace_endpoint_swaps_config_and_handle_together() {
    let shared = shared_with("k", "A", "m1");
    shared.replace_endpoint("B".to_string());
    let (config, client) = shared.read_snapshot();
    assert_eq!(config.openai_url().as_str(), "B");
    assert_eq!(client.api_base().as_str(), "B");
}

#[test]
fn shared_dispatch_runs_the_same_commands() {
    let shared = shared_with("k", "A", "m1");
    match shared.dispatch(Command::UpdateModel("m2".to_string())) {
        Action::Reply(s) => assert_eq!(s, "Update model successful."),
        Action::Downstream(_) => panic!("an update must reply directly"),
    }
    match shared.dispatch(Command::Chat("hi".to_string())) {
        Action::Downstream(call) => {
            assert_eq!(call.request.model, "m2");
            assert_eq!(call.request.text, "hi");
            assert_eq!(call.client.api_base(), call.config.openai_url());
        }
        Action::Reply(_) => panic!("chat must hand back a downstream call"),
    }
    match shared.dispatch(Command::ShowConfig) {
        Action::Reply(s) => assert_eq!(s, "config: url(A), model(m2)"),
        Action::Downstream(_) => panic!("show-config must reply directly"),
    }
}
