use std::cell::RefCell;

use crane_studynest::device::DeviceType;
use crane_studynest::engine::{list_available_models, ChatConfig, ChatEngine, ChatModelType, DataType};
use crane_studynest::error::StudyNestError;
use crane_studynest::history::{ChatMessage, Role};
use crane_studynest::streaming::{StreamEvent, TokenRelay};

fn small_config() -> ChatConfig {
    ChatConfig { max_history_turns: 2, ..ChatConfig::default() }
}

#[test]
fn default_config_values() {
    let c = ChatConfig::default();
    assert_eq!(c.model_path, "checkpoints/Qwen2.5-0.5B-Instruct");
    assert_eq!(c.model_type, ChatModelType::Qwen25);
    assert_eq!(c.device, DeviceType::Auto);
    assert_eq!(c.dtype, DataType::F16);
    assert_eq!(c.max_new_tokens, 256);
    assert_eq!(c.repeat_last_n, 64);
    assert!(c.do_sample);
    assert_eq!(c.max_history_turns, 10);
    assert_eq!(ChatModelType::default(), ChatModelType::Qwen25);
}

#[test]
fn config_builders_change_one_field() {
    let c = ChatConfig::default().with_model_path("m/x").with_device(DeviceType::Cpu).with_max_tokens(12);
    assert_eq!(c.model_path, "m/x");
    assert_eq!(c.device, DeviceType::Cpu);
    assert_eq!(c.max_new_tokens, 12);
    assert_eq!(c.repeat_last_n, 64);
}

#[test]
fn chat_records_both_turns_and_hands_over_the_conversation() {
    let mut e = ChatEngine::new(7u32, small_config());
    e.set_system_prompt("sys");
    let seen = RefCell::new(Vec::new());
    let r = e.chat("hello", |m: &u32, _: &ChatConfig, h: &Vec<ChatMessage>| {
        assert_eq!(*m, 7);
        *seen.borrow_mut() = h.iter().map(|x| x.content.clone()).collect();
        Ok(String::from("world"))
    });
    assert_eq!(r.unwrap(), "world");
    assert_eq!(*seen.borrow(), vec!["sys", "hello"]);
    let h = e.get_history();
    assert_eq!(h.len(), 3);
    assert_eq!(h[1].role, Role::User);
    assert_eq!(h[2].role, Role::Assistant);
    assert_eq!(h[2].content, "world");
}

#[test]
fn failed_generation_keeps_the_user_message() {
    let mut e = ChatEngine::new((), small_config());
    let r = e.chat("q", |_: &(), _: &ChatConfig, _: &Vec<ChatMessage>| Err(StudyNestError::ModelError(String::from("boom"))));
    assert!(matches!(r, Err(StudyNestError::ModelError(_))));
    let h = e.get_history();
    assert_eq!(h.len(), 1);
    assert_eq!(h[0].role, Role::User);
    assert_eq!(h[0].content, "q");
}

#[test]
fn clear_history_then_snapshot_is_empty() {
    let mut e = ChatEngine::new((), small_config());
    e.set_system_prompt("s");
    let _ = e.chat("a", |_: &(), _: &ChatConfig, _: &Vec<ChatMessage>| Ok(String::from("b")));
    e.clear_history();
    assert!(e.get_history().is_empty());
}

#[test]
fn engine_history_is_turn_bounded() {
    let mut e = ChatEngine::new((), small_config());
    for i in 0..4 {
        let _ = e.chat(&format!("q{}", i), |_: &(), _: &ChatConfig, _: &Vec<ChatMessage>| Ok(String::from("r")));
    }
    let h: Vec<String> = e.get_history().iter().map(|m| m.content.clone()).collect();
    assert_eq!(h, vec!["q2", "r", "q3", "r"]);
}

#[test]
fn generation_settings_carry_config_and_token_ids() {
    let c = ChatConfig::default().with_max_tokens(99);
    let g = c.generation_settings(Some(1), None);
    assert_eq!(g.max_new_tokens, 99);
    assert_eq!(g.repeat_last_n, 64);
    assert!(g.do_sample);
    assert_eq!(g.pad_token_id, Some(1));
    assert_eq!(g.eos_token_id, None);
}

#[test]
fn chat_model_list() {
    let names: Vec<&str> = list_available_models().iter().map(|p| p.0).collect();
    assert_eq!(names.len(), 7);
    assert_eq!(names[0], "Qwen2.5-0.5B-Instruct");
    assert_eq!(names[6], "Qwen3-4B");
}

#[test]
fn chat_models_have_descriptions() {
    let models = list_available_models();
    assert!(models.iter().all(|p| !p.1.is_empty()));
    assert_eq!(models[0].1, "Small, fast model for basic chat");
    assert_eq!(models[6].1, "Latest Qwen3 larger model");
}

#[test]
fn data_type_labels() {
    assert_eq!(DataType::F16.label(), "F16");
    assert_eq!(DataType::BF16.label(), "BF16");
}

#[test]
fn relay_delivers_tokens_in_order_and_joins_them() {
    let seen = RefCell::new(Vec::new());
    let mut relay = TokenRelay::new();
    let events = vec![
        StreamEvent::Token(String::from("Hel")),
        StreamEvent::Token(String::from("lo")),
        StreamEvent::Token(String::from("!")),
        StreamEvent::End,
    ];
    let mut more = true;
    for ev in events {
        assert!(more);
        more = relay.on_event(ev, |t: &str| seen.borrow_mut().push(t.to_string()));
    }
    assert!(!more);
    let reply = relay.finish();
    assert_eq!(*seen.borrow(), vec!["Hel", "lo", "!"]);
    assert_eq!(seen.borrow().concat(), reply);
    assert_eq!(reply, "Hello!");
}

#[test]
fn relay_with_no_tokens_gives_empty_reply() {
    let calls = RefCell::new(0);
    let mut relay = TokenRelay::new();
    let more = relay.on_event(StreamEvent::End, |_: &str| *calls.borrow_mut() += 1);
    assert!(!more);
    assert_eq!(*calls.borrow(), 0);
    assert_eq!(relay.finish(), "");
}
