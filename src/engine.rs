//! The chat engine: one loaded model, its configuration and its conversation.

use vstd::prelude::*;
use crate::device::DeviceType;
use crate::error::StudyNestError;
use crate::history::{keep_last, message_capacity, with_system_prompt, ChatHistory, ChatMessage, MessageView, Role};

verus! {

/// Families of chat models the engine can load.
#[derive(Debug, Clone, Copy, PartialEq, Eq, Structural)]
pub enum ChatModelType {
    Qwen25,
    Qwen3,
}

impl Default for ChatModelType {
    fn default() -> (r: ChatModelType)
        ensures
            r == ChatModelType::Qwen25,
    {
        ChatModelType::Qwen25
    }
}

/// Numeric precision of model weights.
#[derive(Debug, Clone, Copy, PartialEq, Eq, Structural)]
pub enum DataType {
    F16,
    F32,
    BF16,
}

impl DataType {
    /// The display name: `F16`, `F32` or `BF16`.
    pub fn label(&self) -> (r: String)
        ensures
            r@ == match *self {
                DataType::F16 => "F16"@,
                DataType::F32 => "F32"@,
                DataType::BF16 => "BF16"@,
            },
    {
        match self {
            DataType::F16 => String::from_str("F16"),
            DataType::F32 => String::from_str("F32"),
            DataType::BF16 => String::from_str("BF16"),
        }
    }
}

/// The vocabulary entry used as the padding token.
pub const PAD_TOKEN: &'static str = "<|end_of_text|>";

/// The vocabulary entry that ends an assistant turn.
pub const EOS_TOKEN: &'static str = "<|im_end|>";

/// Chat engine configuration. The sampling parameters (temperature, top-p and
/// repetition penalty) are real numbers and travel beside it.
#[derive(Debug, Clone)]
pub struct ChatConfig {
    pub model_path: String,
    pub model_type: ChatModelType,
    pub device: DeviceType,
    pub dtype: DataType,
    pub max_new_tokens: usize,
    pub repeat_last_n: usize,
    pub do_sample: bool,
    pub report_speed: bool,
    pub max_history_turns: usize,
}

/// `a` and `b` agree on every field except possibly the model path, the device
/// and the token limit.
pub open spec fn same_settings(a: ChatConfig, b: ChatConfig) -> bool {
    &&& a.model_type == b.model_type
    &&& a.dtype == b.dtype
    &&& a.repeat_last_n == b.repeat_last_n
    &&& a.do_sample == b.do_sample
    &&& a.report_speed == b.report_speed
    &&& a.max_history_turns == b.max_history_turns
}

impl Default for ChatConfig {
    fn default() -> (r: ChatConfig)
        ensures
            r.model_path@ == "checkpoints/Qwen2.5-0.5B-Instruct"@,
            r.model_type == ChatModelType::Qwen25,
            r.device == DeviceType::Auto,
            r.dtype == DataType::F16,
            r.max_new_tokens == 256,
            r.repeat_last_n == 64,
            r.do_sample,
            r.report_speed,
            r.max_history_turns == 10,
    {
        ChatConfig {
            model_path: String::from_str("checkpoints/Qwen2.5-0.5B-Instruct"),
            model_type: ChatModelType::Qwen25,
            device: DeviceType::Auto,
            dtype: DataType::F16,
            max_new_tokens: 256,
            repeat_last_n: 64,
            do_sample: true,
            report_speed: true,
            max_history_turns: 10,
        }
    }
}

impl ChatConfig {
    pub fn with_model_path(self, path: &str) -> (r: ChatConfig)
        ensures
            r.model_path@ == path@,
            r.device == self.device,
            r.max_new_tokens == self.max_new_tokens,
            same_settings(r, self),
    {
        ChatConfig { model_path: String::from_str(path), ..self }
    }

    pub fn with_device(self, device: DeviceType) -> (r: ChatConfig)
        ensures
            r.model_path@ == self.model_path@,
            r.device == device,
            r.max_new_tokens == self.max_new_tokens,
            same_settings(r, self),
    {
        ChatConfig { device, ..self }
    }

    pub fn with_max_tokens(self, max_tokens: usize) -> (r: ChatConfig)
        ensures
            r.model_path@ == self.model_path@,
            r.device == self.device,
            r.max_new_tokens == max_tokens,
            same_settings(r, self),
    {
        ChatConfig { max_new_tokens: max_tokens, ..self }
    }

    /// The generation settings for the next request, with the padding and
    /// end-of-sequence token ids that the loaded tokenizer resolved.
    pub fn generation_settings(&self, pad_token_id: Option<u32>, eos_token_id: Option<u32>) -> (r:
        GenerationSettings)
        ensures
            r == (GenerationSettings {
                max_new_tokens: self.max_new_tokens,
                repeat_last_n: self.repeat_last_n,
                do_sample: self.do_sample,
                pad_token_id,
                eos_token_id,
                report_speed: self.report_speed,
            }),
    {
        GenerationSettings {
            max_new_tokens: self.max_new_tokens,
            repeat_last_n: self.repeat_last_n,
            do_sample: self.do_sample,
            pad_token_id,
            eos_token_id,
            report_speed: self.report_speed,
        }
    }
}

/// The integer and flag part of a generation request.
#[derive(Debug, Clone, Copy, PartialEq, Eq, Structural)]
pub struct GenerationSettings {
    pub max_new_tokens: usize,
    pub repeat_last_n: usize,
    pub do_sample: bool,
    pub pad_token_id: Option<u32>,
    pub eos_token_id: Option<u32>,
    pub report_speed: bool,
}

/// A chat engine: a loaded model of type `M`, its configuration, and the
/// conversation so far.
pub struct ChatEngine<M> {
    model: M,
    config: ChatConfig,
    history: ChatHistory,
}

impl<M> ChatEngine<M> {
    /// The conversation so far.
    pub closed spec fn conversation(&self) -> Seq<MessageView> {
        self.history@
    }

    /// The number of turns the conversation keeps.
    pub closed spec fn turn_limit(&self) -> nat {
        self.history.max_turns as nat
    }

    pub closed spec fn loaded_model(&self) -> M {
        self.model
    }

    pub closed spec fn settings(&self) -> ChatConfig {
        self.config
    }

    /// An engine around a loaded model, with an empty conversation.
    pub fn new(model: M, config: ChatConfig) -> (r: ChatEngine<M>)
        ensures
            r.conversation() == Seq::<MessageView>::empty(),
            r.turn_limit() == config.max_history_turns,
            r.loaded_model() == model,
            r.settings() == config,
    {
        let history = ChatHistory::new(config.max_history_turns);
        ChatEngine { model, config, history }
    }

    pub fn model(&self) -> (r: &M)
        ensures
            *r == self.loaded_model(),
    {
        &self.model
    }

    pub fn config(&self) -> (r: &ChatConfig)
        ensures
            *r == self.settings(),
    {
        &self.config
    }

    /// One turn: records `message` as a user message, hands the model, the
    /// configuration and the conversation to `generate`, and records its reply as an assistant message.
    /// When `generate` fails, its error is returned and the user message stays.
    pub fn chat<G>(&mut self, message: &str, generate: G) -> (r: Result<String, StudyNestError>) where
        G: FnOnce(&M, &ChatConfig, &Vec<ChatMessage>) -> Result<String, StudyNestError>,

        requires
            forall|m: &M, c: &ChatConfig, h: &Vec<ChatMessage>| generate.requires((m, c, h)),
        ensures
            ({
                let asked = keep_last(
                    old(self).conversation().push((Role::User, message@)),
                    message_capacity(old(self).turn_limit()),
                );
                &&& exists|h: Vec<ChatMessage>|
                    h@.map_values(|m: ChatMessage| m@) == asked && generate.ensures(
                        (&old(self).loaded_model(), &old(self).settings(), &h),
                        r,
                    )
                &&& match r {
                    Ok(reply) => final(self).conversation() == keep_last(
                        asked.push((Role::Assistant, reply@)),
                        message_capacity(old(self).turn_limit()),
                    ),
                    Err(_) => final(self).conversation() == asked,
                }
            }),
            final(self).turn_limit() == old(self).turn_limit(),
            final(self).loaded_model() == old(self).loaded_model(),
            final(self).settings() == old(self).settings(),
    {
        self.history.add_message(ChatMessage::user(message));
        let result = generate(&self.model, &self.config, &self.history.messages);
        match result {
            Ok(reply) => {
                self.history.add_message(ChatMessage::assistant(reply.as_str()));
                Ok(reply)
            },
            Err(e) => Err(e),
        }
    }

    /// Removes every message of the conversation, the system message included.
    pub fn clear_history(&mut self)
        ensures
            final(self).conversation() == Seq::<MessageView>::empty(),
            final(self).turn_limit() == old(self).turn_limit(),
            final(self).loaded_model() == old(self).loaded_model(),
            final(self).settings() == old(self).settings(),
    {
        self.history.clear();
    }

    /// The conversation in order.
    pub fn get_history(&self) -> (r: &Vec<ChatMessage>)
        ensures
            r@.map_values(|m: ChatMessage| m@) == self.conversation(),
    {
        self.history.snapshot()
    }

    /// Replaces any system message by a system message `prompt` at the front.
    pub fn set_system_prompt(&mut self, prompt: &str)
        ensures
            final(self).conversation() == with_system_prompt(old(self).conversation(), prompt@),
            final(self).turn_limit() == old(self).turn_limit(),
            final(self).loaded_model() == old(self).loaded_model(),
            final(self).settings() == old(self).settings(),
    {
        self.history.set_system_prompt(prompt);
    }

    /// Appends a message to the conversation without generating a reply.
    pub fn add_message(&mut self, message: ChatMessage)
        ensures
            final(self).conversation() == keep_last(
                old(self).conversation().push(message@),
                message_capacity(old(self).turn_limit()),
            ),
            final(self).turn_limit() == old(self).turn_limit(),
            final(self).loaded_model() == old(self).loaded_model(),
            final(self).settings() == old(self).settings(),
    {
        self.history.add_message(message);
    }
}

/// The chat models that can be loaded, by name, with a short description of each.
pub open spec fn chat_model_names() -> Seq<Seq<char>> {
    seq![
        "Qwen2.5-0.5B-Instruct"@,
        "Qwen2.5-1.5B-Instruct"@,
        "Qwen2.5-3B-Instruct"@,
        "Qwen2.5-7B-Instruct"@,
        "Qwen3-0.6B"@,
        "Qwen3-1.7B"@,
        "Qwen3-4B"@,
    ]
}

/// The short description of each chat model, in the order of `chat_model_names`.
pub open spec fn chat_model_descriptions() -> Seq<Seq<char>> {
    seq![
        "Small, fast model for basic chat"@,
        "Medium model with better quality"@,
        "Larger model for complex tasks"@,
        "High quality, requires more memory"@,
        "Latest Qwen3 small model"@,
        "Latest Qwen3 medium model"@,
        "Latest Qwen3 larger model"@,
    ]
}

/// The chat models that can be loaded: their names, each with a short description.
pub fn list_available_models() -> (r: Vec<(&'static str, &'static str)>)
    ensures
        r@.map_values(|p: (&'static str, &'static str)| p.0@) == chat_model_names(),
        r@.map_values(|p: (&'static str, &'static str)| p.1@) == chat_model_descriptions(),
        forall|i: int| 0 <= i < r@.len() ==> #[trigger] r@[i].1@.len() > 0,
{
    let r = vec![
        ("Qwen2.5-0.5B-Instruct", "Small, fast model for basic chat"),
        ("Qwen2.5-1.5B-Instruct", "Medium model with better quality"),
        ("Qwen2.5-3B-Instruct", "Larger model for complex tasks"),
        ("Qwen2.5-7B-Instruct", "High quality, requires more memory"),
        ("Qwen3-0.6B", "Latest Qwen3 small model"),
        ("Qwen3-1.7B", "Latest Qwen3 medium model"),
        ("Qwen3-4B", "Latest Qwen3 larger model"),
    ];
    assert(r@.map_values(|p: (&'static str, &'static str)| p.0@) =~= chat_model_names());
    assert(r@.map_values(|p: (&'static str, &'static str)| p.1@) =~= chat_model_descriptions());
    proof {
        reveal_strlit("Small, fast model for basic chat");
        reveal_strlit("Medium model with better quality");
        reveal_strlit("Larger model for complex tasks");
        reveal_strlit("High quality, requires more memory");
        reveal_strlit("Latest Qwen3 small model");
        reveal_strlit("Latest Qwen3 medium model");
        reveal_strlit("Latest Qwen3 larger model");
        assert forall|i: int| 0 <= i < r@.len() implies #[trigger] r@[i].1@.len() > 0 by {
            assert(r@[i].1@ == chat_model_descriptions()[i]);
            assert(chat_model_descriptions()[i].len() > 0);
        }
    }
    r
}

} // verus!
