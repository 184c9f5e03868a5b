//! The inference service: request routing and the single engine slot.

use vstd::prelude::*;
use crate::device::parse_device;
use crate::engine::{ChatConfig, ChatEngine};
use crate::error::{is_config_error, StudyNestError};
use crate::history::{append_all, keep_last, message_capacity, ChatMessage, MessageView, Role};
use crate::text::{lower_of, lowercase, same_text};

verus! {

/// Settings the service loads models with.
#[derive(Debug, Clone)]
pub struct ServiceConfig {
    pub model_path: String,
    pub device: String,
    pub max_tokens: usize,
}

impl Default for ServiceConfig {
    fn default() -> (r: ServiceConfig)
        ensures
            r.model_path@ == "checkpoints/Qwen2.5-0.5B-Instruct"@,
            r.device@ == "auto"@,
            r.max_tokens == 2048,
    {
        ServiceConfig {
            model_path: String::from_str("checkpoints/Qwen2.5-0.5B-Instruct"),
            device: String::from_str("auto"),
            max_tokens: 2048,
        }
    }
}

/// One message of a chat request, as the caller wrote it.
#[derive(Debug, Clone)]
pub struct MessageRequest {
    pub role: String,
    pub content: String,
}

/// Parameters of a `chat` call. The sampling temperature a caller may send is
/// not used by the service and is not kept.
#[derive(Debug, Clone)]
pub struct ChatRequest {
    pub model: String,
    pub messages: Vec<MessageRequest>,
    pub max_tokens: Option<usize>,
}

/// The assistant message of a chat reply.
#[derive(Debug, Clone)]
pub struct MessageResponse {
    pub role: String,
    pub content: String,
}

/// The result of a `chat` call.
#[derive(Debug, Clone)]
pub struct ChatResponse {
    pub message: MessageResponse,
    pub done: bool,
}

/// The payload of a failed call.
#[derive(Debug, Clone)]
pub struct ErrorResponse {
    pub error: String,
}

/// The methods a request can name.
#[derive(Debug, Clone, Copy, PartialEq, Eq, Structural)]
pub enum Method {
    Initialize,
    Chat,
    ListModels,
}

/// The text a successful `initialize` answers with.
pub const INITIALIZED: &'static str = "Model initialized successfully";

/// The method a request names, or the error text for a request without a usable one.
pub open spec fn route_of(method: Option<Seq<char>>) -> Result<Method, Seq<char>> {
    match method {
        None => Err("Missing method"@),
        Some(m) => if m == "initialize"@ {
            Ok(Method::Initialize)
        } else if m == "chat"@ {
            Ok(Method::Chat)
        } else if m == "list_models"@ {
            Ok(Method::ListModels)
        } else {
            Err("Unknown method: "@ + m)
        },
    }
}

/// Routes a request by its method name; `None` stands for a request whose
/// method is missing or not a string.
pub fn route_method(method: Option<&str>) -> (r: Result<Method, String>)
    ensures
        match (r, route_of(
            match method {
                Some(m) => Some(m@),
                None => None,
            },
        )) {
            (Ok(a), Ok(b)) => a == b,
            (Err(a), Err(b)) => a@ == b,
            _ => false,
        },
{
    match method {
        None => Err(String::from_str("Missing method")),
        Some(m) => {
            if same_text(m, "initialize") {
                Ok(Method::Initialize)
            } else if same_text(m, "chat") {
                Ok(Method::Chat)
            } else if same_text(m, "list_models") {
                Ok(Method::ListModels)
            } else {
                Err(String::from_str("Unknown method: ").concat(m))
            }
        },
    }
}

/// The model path of an `initialize` request, or the error text when it has none.
pub fn model_path_param(model_path: Option<&str>) -> (r: Result<String, String>)
    ensures
        match model_path {
            Some(p) => r matches Ok(s) && s@ == p@,
            None => r matches Err(e) && e@ == "Missing model_path parameter"@,
        },
{
    match model_path {
        Some(p) => Ok(String::from_str(p)),
        None => Err(String::from_str("Missing model_path parameter")),
    }
}

/// The role that an already lower-cased role name stands for; unknown names are users.
pub open spec fn role_of(t: Seq<char>) -> Role {
    if t == "system"@ {
        Role::System
    } else if t == "assistant"@ {
        Role::Assistant
    } else {
        Role::User
    }
}

/// The role named by an already lower-cased role name.
pub fn role_from_lower(t: &str) -> (r: Role)
    ensures
        r == role_of(t@),
{
    if same_text(t, "system") {
        Role::System
    } else if same_text(t, "assistant") {
        Role::Assistant
    } else {
        Role::User
    }
}

/// The role named by `name`, in any letter case.
pub fn parse_role(name: &str) -> (r: Role)
    ensures
        r == role_of(lower_of(name@)),
{
    let lower = lowercase(name);
    role_from_lower(lower.as_str())
}

/// A requested message as a conversation message.
pub open spec fn request_message(m: MessageRequest) -> MessageView {
    (role_of(lower_of(m.role@)), m.content@)
}

/// Requested messages as conversation messages.
pub open spec fn request_messages(ms: Seq<MessageRequest>) -> Seq<MessageView> {
    ms.map_values(|m: MessageRequest| request_message(m))
}

/// The conversation a `chat` call asks for: the earlier requested messages as the
/// history keeps them, then the last message as the new user turn.
pub open spec fn asked_conversation(ms: Seq<MessageRequest>, max_turns: nat) -> Seq<MessageView> {
    keep_last(
        append_all(Seq::empty(), request_messages(ms.drop_last()), max_turns).push(
            (Role::User, ms.last().content@),
        ),
        message_capacity(max_turns),
    )
}

/// The model names the service offers.
pub open spec fn offered_models() -> Seq<Seq<char>> {
    seq![
        "Qwen2.5-0.5B-Instruct"@,
        "Qwen2.5-1.5B-Instruct"@,
        "Qwen2.5-3B-Instruct"@,
        "Qwen3-0.6B"@,
        "Qwen3-1.7B"@,
    ]
}

/// The service state: at most one loaded chat engine, and the settings that
/// engines are loaded with.
pub struct ChatService<M> {
    engine: Option<ChatEngine<M>>,
    config: ServiceConfig,
}

impl<M> ChatService<M> {
    /// The loaded engine, if any.
    pub closed spec fn slot(&self) -> Option<ChatEngine<M>> {
        self.engine
    }

    pub closed spec fn service_config(&self) -> ServiceConfig {
        self.config
    }

    /// A service with no model loaded.
    pub fn new(config: ServiceConfig) -> (r: ChatService<M>)
        ensures
            r.slot() is None,
            r.service_config() == config,
    {
        ChatService { engine: None, config }
    }

    pub fn is_initialized(&self) -> (r: bool)
        ensures
            r == self.slot() is Some,
    {
        self.engine.is_some()
    }

    /// The engine configuration for loading the model at `model_path`.
    pub fn engine_config(&self, model_path: &str) -> (r: ChatConfig)
        ensures
            r.model_path@ == model_path@,
            r.device == crate::device::device_of(lower_of(self.service_config().device@)),
            r.max_new_tokens == self.service_config().max_tokens,
            r.model_type == crate::engine::ChatModelType::Qwen25,
            r.dtype == crate::engine::DataType::F16,
            r.repeat_last_n == 64,
            r.do_sample,
            r.report_speed,
            r.max_history_turns == 10,
    {
        let device = parse_device(self.config.device.as_str());
        ChatConfig::default().with_model_path(model_path).with_device(device).with_max_tokens(
            self.config.max_tokens,
        )
    }

    /// Loads the model at `model_path` with `load` and makes it the engine,
    /// replacing any engine loaded before. When loading fails, its error is
    /// returned and the engine slot is left as it was.
    pub fn initialize_model<L>(&mut self, model_path: &str, load: L) -> (r: Result<(), StudyNestError>) where
        L: FnOnce(&ChatConfig) -> Result<M, StudyNestError>,

        requires
            forall|c: &ChatConfig| load.requires((c,)),
        ensures
            final(self).service_config() == old(self).service_config(),
            exists|c: ChatConfig, loaded: Result<M, StudyNestError>|
                {
                    &&& c.model_path@ == model_path@
                    &&& c.device == crate::device::device_of(lower_of(old(self).service_config().device@))
                    &&& c.max_new_tokens == old(self).service_config().max_tokens
                    &&& c.max_history_turns == 10
                    &&& c.model_type == crate::engine::ChatModelType::Qwen25
                    &&& c.dtype == crate::engine::DataType::F16
                    &&& c.repeat_last_n == 64
                    &&& c.do_sample
                    &&& c.report_speed
                    &&& load.ensures((&c,), loaded)
                    &&& match loaded {
                        Ok(m) => {
                            &&& r is Ok
                            &&& final(self).slot() matches Some(e)
                            &&& e.loaded_model() == m
                            &&& e.settings() == c
                            &&& e.conversation() == Seq::<MessageView>::empty()
                            &&& e.turn_limit() == 10
                        },
                        Err(err) => r == Err::<(), StudyNestError>(err) && final(self).slot() == old(self).slot(),
                    }
                },
    {
        let config = self.engine_config(model_path);
        let loaded = load(&config);
        match loaded {
            Ok(model) => {
                self.engine = Some(ChatEngine::new(model, config));
                Ok(())
            },
            Err(e) => Err(e),
        }
    }

    /// Answers a chat request: the conversation is rebuilt from the requested
    /// messages, the last of which is the new user turn, and `generate` produces
    /// the reply from the model, the engine configuration and that conversation.
    pub fn chat<G>(&mut self, request: &ChatRequest, generate: G) -> (r: Result<ChatResponse, StudyNestError>) where
        G: FnOnce(&M, &ChatConfig, &Vec<ChatMessage>) -> Result<String, StudyNestError>,

        requires
            forall|m: &M, c: &ChatConfig, h: &Vec<ChatMessage>| generate.requires((m, c, h)),
        ensures
            final(self).service_config() == old(self).service_config(),
            old(self).slot() is None ==> {
                &&& r matches Err(e) && is_config_error(e, "Model not initialized"@)
                &&& final(self).slot() == old(self).slot()
            },
            old(self).slot() matches Some(before) ==> {
                &&& final(self).slot() matches Some(after)
                &&& after.loaded_model() == before.loaded_model()
                &&& after.settings() == before.settings()
                &&& after.turn_limit() == before.turn_limit()
                &&& if request.messages@.len() == 0 {
                    &&& r matches Err(e) && is_config_error(e, "No messages provided"@)
                    &&& after.conversation() == Seq::<MessageView>::empty()
                } else {
                    let asked = asked_conversation(request.messages@, before.turn_limit());
                    match r {
                        Ok(resp) => {
                            &&& resp.done
                            &&& resp.message.role@ == "assistant"@
                            &&& exists|h: Vec<ChatMessage>|
                                h@.map_values(|m: ChatMessage| m@) == asked && generate.ensures(
                                    (&before.loaded_model(), &before.settings(), &h),
                                    Ok::<String, StudyNestError>(resp.message.content),
                                )
                            &&& after.conversation() == keep_last(
                                asked.push((Role::Assistant, resp.message.content@)),
                                message_capacity(before.turn_limit()),
                            )
                        },
                        Err(e) => {
                            &&& exists|h: Vec<ChatMessage>|
                                h@.map_values(|m: ChatMessage| m@) == asked && generate.ensures(
                                    (&before.loaded_model(), &before.settings(), &h),
                                    Err::<String, StudyNestError>(e),
                                )
                            &&& after.conversation() == asked
                        },
                    }
                }
            },
    {
        let taken = self.engine.take();
        let mut engine = match taken {
            None => {
                return Err(StudyNestError::config("Model not initialized"));
            },
            Some(e) => e,
        };
        let ghost before = engine;
        engine.clear_history();
        let n = request.messages.len();
        let earlier: usize = if n == 0 {
            0
        } else {
            n - 1
        };
        let ghost ms = request.messages@;
        let mut i: usize = 0;
        while i < earlier
            invariant
                earlier <= n,
                n == ms.len(),
                ms == request.messages@,
                n > 0 ==> earlier == n - 1,
                n == 0 ==> earlier == 0,
                0 <= i <= earlier,
                engine.conversation() == append_all(
                    Seq::empty(),
                    request_messages(ms.subrange(0, i as int)),
                    before.turn_limit(),
                ),
                engine.loaded_model() == before.loaded_model(),
                engine.settings() == before.settings(),
                engine.turn_limit() == before.turn_limit(),
            decreases earlier - i,
        {
            let m = &request.messages[i];
            let message = ChatMessage { role: parse_role(m.role.as_str()), content: m.content.clone() };
            engine.add_message(message);
            proof {
                let prev = request_messages(ms.subrange(0, i as int));
                let next = request_messages(ms.subrange(0, i + 1));
                assert(next.drop_last() =~= prev);
                assert(next.last() == request_message(ms[i as int]));
            }
            i = i + 1;
        }
        if n == 0 {
            assert(engine.conversation() =~= Seq::<MessageView>::empty());
            self.engine = Some(engine);
            return Err(StudyNestError::config("No messages provided"));
        }
        proof {
            assert(ms.subrange(0, earlier as int) =~= ms.drop_last());
        }
        let outcome = engine.chat(request.messages[earlier].content.as_str(), generate);
        self.engine = Some(engine);
        match outcome {
            Ok(reply) => Ok(
                ChatResponse {
                    message: MessageResponse { role: String::from_str("assistant"), content: reply },
                    done: true,
                },
            ),
            Err(e) => Err(e),
        }
    }

    /// The model names the service offers; this never fails and needs no model.
    pub fn get_available_models(&self) -> (r: Vec<String>)
        ensures
            r@.map_values(|s: String| s@) == offered_models(),
    {
        let mut r: Vec<String> = Vec::new();
        r.push(String::from_str("Qwen2.5-0.5B-Instruct"));
        r.push(String::from_str("Qwen2.5-1.5B-Instruct"));
        r.push(String::from_str("Qwen2.5-3B-Instruct"));
        r.push(String::from_str("Qwen3-0.6B"));
        r.push(String::from_str("Qwen3-1.7B"));
        assert(r@.map_values(|s: String| s@) =~= offered_models());
        r
    }
}

} // verus!
