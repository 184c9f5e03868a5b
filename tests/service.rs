use std::cell::Cell;

use crane_studynest::device::{device_from_lower, get_device, parse_device, DeviceType};
use crane_studynest::engine::ChatConfig;
use crane_studynest::error::StudyNestError;
use crane_studynest::history::{ChatMessage, Role};
use crane_studynest::service::{
    model_path_param, parse_role, role_from_lower, route_method, ChatRequest, ChatService, MessageRequest, Method,
    ServiceConfig, INITIALIZED,
};

fn msg(role: &str, content: &str) -> MessageRequest {
    MessageRequest { role: role.to_string(), content: content.to_string() }
}

fn request(messages: Vec<MessageRequest>) -> ChatRequest {
    ChatRequest { model: String::from("X"), messages, max_tokens: None }
}

fn loaded_service() -> ChatService<String> {
    let mut s: ChatService<String> = ChatService::new(ServiceConfig::default());
    s.initialize_model("checkpoints/X", |c| Ok(c.model_path.clone())).unwrap();
    s
}

#[test]
fn service_config_defaults() {
    let c = ServiceConfig::default();
    assert_eq!(c.model_path, "checkpoints/Qwen2.5-0.5B-Instruct");
    assert_eq!(c.device, "auto");
    assert_eq!(c.max_tokens, 2048);
}

#[test]
fn routes_known_methods() {
    assert_eq!(route_method(Some("initialize")).unwrap(), Method::Initialize);
    assert_eq!(route_method(Some("chat")).unwrap(), Method::Chat);
    assert_eq!(route_method(Some("list_models")).unwrap(), Method::ListModels);
}

#[test]
fn rejects_unknown_and_missing_methods() {
    assert_eq!(route_method(Some("shutdown")).unwrap_err(), "Unknown method: shutdown");
    assert_eq!(route_method(None).unwrap_err(), "Missing method");
    assert_eq!(model_path_param(None).unwrap_err(), "Missing model_path parameter");
    assert_eq!(model_path_param(Some("p")).unwrap(), "p");
}

#[test]
fn chat_before_initialize_is_refused_without_generation() {
    let mut s: ChatService<String> = ChatService::new(ServiceConfig::default());
    let called = Cell::new(false);
    let r = s.chat(&request(vec![msg("user", "hi")]), |_: &String, _: &ChatConfig, _: &Vec<ChatMessage>| {
        called.set(true);
        Ok(String::from("x"))
    });
    let e = r.unwrap_err();
    assert!(e.message().contains("Model not initialized"));
    assert_eq!(e.message(), "Configuration error: Model not initialized");
    assert!(!called.get());
    assert!(!s.is_initialized());
}

#[test]
fn chat_without_messages_is_refused() {
    let mut s = loaded_service();
    let called = Cell::new(false);
    let r = s.chat(&request(vec![]), |_: &String, _: &ChatConfig, _: &Vec<ChatMessage>| {
        called.set(true);
        Ok(String::from("x"))
    });
    assert!(r.unwrap_err().message().contains("No messages provided"));
    assert!(!called.get());
}

#[test]
fn failed_initialize_keeps_the_previous_model() {
    let mut s = loaded_service();
    let r = s.initialize_model("checkpoints/missing", |_| Err(StudyNestError::ModelError(String::from("no such file"))));
    assert!(matches!(r, Err(StudyNestError::ModelError(_))));
    assert!(s.is_initialized());
    let r = s.chat(&request(vec![msg("user", "hi")]), |m: &String, _: &ChatConfig, _: &Vec<ChatMessage>| Ok(m.clone()));
    assert_eq!(r.unwrap().message.content, "checkpoints/X");
}

#[test]
fn failed_first_initialize_stays_uninitialized() {
    let mut s: ChatService<String> = ChatService::new(ServiceConfig::default());
    let r = s.initialize_model("nowhere", |_| Err(StudyNestError::ModelError(String::from("missing"))));
    assert!(r.is_err());
    assert!(!s.is_initialized());
}

#[test]
fn initialize_then_chat_answers_as_assistant() {
    let mut s: ChatService<String> = ChatService::new(ServiceConfig::default());
    assert_eq!(route_method(Some("initialize")).unwrap(), Method::Initialize);
    let path = model_path_param(Some("checkpoints/X")).unwrap();
    s.initialize_model(&path, |c| {
        assert_eq!(c.model_path, "checkpoints/X");
        assert_eq!(c.max_new_tokens, 2048);
        assert_eq!(c.device, DeviceType::Auto);
        Ok(String::from("model"))
    })
    .unwrap();
    assert_eq!(INITIALIZED, "Model initialized successfully");
    let r = s
        .chat(&request(vec![msg("user", "hi")]), |_: &String, _: &ChatConfig, h: &Vec<ChatMessage>| {
            assert_eq!(h.len(), 1);
            assert_eq!(h[0].content, "hi");
            Ok(String::from("hello there"))
        })
        .unwrap();
    assert!(r.done);
    assert_eq!(r.message.role, "assistant");
    assert_eq!(r.message.content, "hello there");
}

#[test]
fn chat_replays_earlier_messages() {
    let mut s = loaded_service();
    let msgs = vec![msg("System", "be kind"), msg("user", "a"), msg("ASSISTANT", "b"), msg("user", "c")];
    let r = s.chat(&request(msgs), |_: &String, _: &ChatConfig, h: &Vec<ChatMessage>| {
        let roles: Vec<Role> = h.iter().map(|m| m.role).collect();
        assert_eq!(roles, vec![Role::System, Role::User, Role::Assistant, Role::User]);
        assert_eq!(h[3].content, "c");
        Ok(String::from("d"))
    });
    assert_eq!(r.unwrap().message.content, "d");
}

#[test]
fn available_models_are_listed() {
    let s: ChatService<()> = ChatService::new(ServiceConfig::default());
    let m = s.get_available_models();
    assert_eq!(m.len(), 5);
    assert_eq!(m[0], "Qwen2.5-0.5B-Instruct");
    assert_eq!(m[4], "Qwen3-1.7B");
}

#[test]
fn engine_config_follows_service_settings() {
    let cfg = ServiceConfig { device: String::from("CPU"), max_tokens: 5, ..ServiceConfig::default() };
    let s: ChatService<()> = ChatService::new(cfg);
    let c = s.engine_config("p");
    assert_eq!(c.model_path, "p");
    assert_eq!(c.device, DeviceType::Cpu);
    assert_eq!(c.max_new_tokens, 5);
}

#[test]
fn device_names_parse_in_any_case() {
    assert_eq!(parse_device("CPU"), DeviceType::Cpu);
    assert_eq!(parse_device("Metal"), DeviceType::Metal);
    assert_eq!(parse_device("auto"), DeviceType::Auto);
    assert_eq!(parse_device("CUDA:3"), DeviceType::Cuda(3));
    assert_eq!(parse_device("cuda:+12"), DeviceType::Cuda(12));
    assert_eq!(parse_device("cuda:x"), DeviceType::Cuda(0));
    assert_eq!(parse_device("cuda:"), DeviceType::Cuda(0));
    assert_eq!(parse_device("tpu"), DeviceType::Auto);
    assert_eq!(device_from_lower("CPU"), DeviceType::Auto);
    assert_eq!(device_from_lower("cuda:99999999999999999999999"), DeviceType::Cuda(0));
}

#[test]
fn role_names_parse_in_any_case() {
    assert_eq!(parse_role("SYSTEM"), Role::System);
    assert_eq!(parse_role("Assistant"), Role::Assistant);
    assert_eq!(parse_role("user"), Role::User);
    assert_eq!(parse_role("tool"), Role::User);
    assert_eq!(role_from_lower("System"), Role::User);
}

#[test]
fn device_resolution() {
    assert!(get_device(DeviceType::Cpu).unwrap().is_cpu());
    assert!(get_device(DeviceType::Auto).unwrap().is_cpu());
    match get_device(DeviceType::Cuda(0)) {
        Err(StudyNestError::FeatureNotEnabled(m)) => {
            assert_eq!(m, "CUDA feature not enabled. Compile with --features cuda")
        }
        _ => panic!("expected FeatureNotEnabled"),
    }
    match get_device(DeviceType::Metal) {
        Err(StudyNestError::DeviceError(m)) => assert_eq!(m, "Metal is only available on macOS"),
        _ => panic!("expected DeviceError"),
    }
}

#[test]
fn device_labels() {
    assert_eq!(DeviceType::Cpu.label(), "CPU");
    assert_eq!(DeviceType::Cuda(12).label(), "CUDA:12");
    assert_eq!(DeviceType::Metal.label(), "Metal");
    assert_eq!(DeviceType::default().label(), "Auto");
}

#[test]
fn error_messages_name_their_kind() {
    assert_eq!(StudyNestError::ModelError(String::from("x")).message(), "Model error: x");
    assert_eq!(StudyNestError::TokenizationError(String::from("t")).message(), "Tokenization error: t");
    assert_eq!(StudyNestError::DeviceError(String::from("d")).message(), "Device error: d");
    assert_eq!(StudyNestError::FeatureNotEnabled(String::from("f")).message(), "Feature not enabled: f");
    assert_eq!(StudyNestError::JsonError(String::from("j")).message(), "JSON error: j");
    assert_eq!(StudyNestError::IoError(String::from("i")).message(), "IO error: i");
    assert_eq!(StudyNestError::AudioError(String::from("a")).message(), "Audio error: a");
    assert_eq!(StudyNestError::OcrError(String::from("o")).message(), "OCR error: o");
}
