//! The settings of a bridge, fixed once at startup.

use crate::text::same_text;
use vstd::prelude::*;

verus! {

/// The broker that is used when none is named.
pub open spec fn default_broker_host() -> Seq<char> {
    "broker.hivemq.com"@
}

/// The client identifier that is used when none is named.
pub open spec fn default_client_id() -> Seq<char> {
    "rust_chatgpt_client"@
}

/// The topic on which the remote party speaks.
pub open spec fn default_inbound_topic() -> Seq<char> {
    "/esp_gpt_out"@
}

/// The topic on which replies are published.
pub open spec fn default_outbound_topic() -> Seq<char> {
    "/client_gpt"@
}

/// The model that is asked when none is named.
pub open spec fn default_model() -> Seq<char> {
    "x-ai/grok-4.1-fast"@
}

/// The completion endpoint that is used when none is named.
pub open spec fn default_api_base_url() -> Seq<char> {
    "https://openrouter.ai/api/v1"@
}

/// The endpoint that a completion client talks to without being told.
pub open spec fn standard_api_base_url() -> Seq<char> {
    "https://api.openai.com/v1"@
}

/// The broker port that is used when none is named.
pub const DEFAULT_BROKER_PORT: u16 = 1883;

/// The number of turns that are kept when no other bound is named.
pub const DEFAULT_MAX_HISTORY: usize = 10;

/// The length in bytes to which messages are cut when no other is named.
pub const DEFAULT_MAX_MESSAGE_LENGTH: usize = 500;

/// Why no configuration could be made.
#[derive(Clone, Copy, Debug, PartialEq, Eq, Structural)]
pub enum ConfigError {
    /// No credential for the completion service was supplied.
    MissingCredential,
}

/// The settings of a bridge. They do not change after construction.
#[derive(Debug, PartialEq, Eq)]
pub struct BridgeConfig {
    broker_host: String,
    broker_port: u16,
    client_id: String,
    inbound_topic: String,
    outbound_topic: String,
    model: String,
    api_key: String,
    api_base_url: String,
    max_history: usize,
    max_message_length: usize,
}

/// The mathematical content of a [`BridgeConfig`].
pub ghost struct ConfigView {
    pub broker_host: Seq<char>,
    pub broker_port: u16,
    pub client_id: Seq<char>,
    pub inbound_topic: Seq<char>,
    pub outbound_topic: Seq<char>,
    pub model: Seq<char>,
    pub api_key: Seq<char>,
    pub api_base_url: Seq<char>,
    pub max_history: nat,
    pub max_message_length: nat,
}

impl View for BridgeConfig {
    type V = ConfigView;

    closed spec fn view(&self) -> ConfigView {
        ConfigView {
            broker_host: self.broker_host@,
            broker_port: self.broker_port,
            client_id: self.client_id@,
            inbound_topic: self.inbound_topic@,
            outbound_topic: self.outbound_topic@,
            model: self.model@,
            api_key: self.api_key@,
            api_base_url: self.api_base_url@,
            max_history: self.max_history as nat,
            max_message_length: self.max_message_length as nat,
        }
    }
}

/// The value of a setting that may be given under a primary and under a
/// fallback name: the primary where it is given, else the fallback.
pub open spec fn preferred(primary: Option<Seq<char>>, fallback: Option<Seq<char>>) -> Option<
    Seq<char>,
> {
    match primary {
        Some(value) => Some(value),
        None => fallback,
    }
}

/// The contents of an optional setting.
pub open spec fn setting_view(setting: Option<String>) -> Option<Seq<char>> {
    match setting {
        Some(value) => Some(value@),
        None => None,
    }
}

/// The configuration with the default broker, topics and limits, and with
/// the given credential, endpoint and model.
pub open spec fn default_config(
    api_key: Seq<char>,
    api_base_url: Seq<char>,
    model: Seq<char>,
) -> ConfigView {
    ConfigView {
        broker_host: default_broker_host(),
        broker_port: DEFAULT_BROKER_PORT,
        client_id: default_client_id(),
        inbound_topic: default_inbound_topic(),
        outbound_topic: default_outbound_topic(),
        model,
        api_key,
        api_base_url,
        max_history: DEFAULT_MAX_HISTORY as nat,
        max_message_length: DEFAULT_MAX_MESSAGE_LENGTH as nat,
    }
}

/// What the settings found in the environment amount to: no configuration
/// without a credential, else the defaults with whatever was given.
pub open spec fn resolved_config(
    api_key: Option<Seq<char>>,
    api_key_fallback: Option<Seq<char>>,
    api_base_url: Option<Seq<char>>,
    api_base_url_fallback: Option<Seq<char>>,
    model: Option<Seq<char>>,
    model_fallback: Option<Seq<char>>,
) -> Result<ConfigView, ConfigError> {
    match preferred(api_key, api_key_fallback) {
        None => Err(ConfigError::MissingCredential),
        Some(key) => Ok(
            default_config(
                key,
                match preferred(api_base_url, api_base_url_fallback) {
                    Some(url) => url,
                    None => default_api_base_url(),
                },
                match preferred(model, model_fallback) {
                    Some(name) => name,
                    None => default_model(),
                },
            ),
        ),
    }
}

/// The contents of a configuration or of the reason why there is none.
pub open spec fn config_result_view(result: Result<BridgeConfig, ConfigError>) -> Result<
    ConfigView,
    ConfigError,
> {
    match result {
        Ok(config) => Ok(config@),
        Err(error) => Err(error),
    }
}

/// Picks between a setting's primary and fallback value: the primary takes
/// precedence.
pub fn prefer(primary: Option<String>, fallback: Option<String>) -> (chosen: Option<String>)
    ensures
        setting_view(chosen) == preferred(setting_view(primary), setting_view(fallback)),
{
    match primary {
        Some(value) => Some(value),
        None => fallback,
    }
}

impl Clone for BridgeConfig {
    /// A copy with the same settings.
    fn clone(&self) -> (copy: Self)
        ensures
            copy@ == self@,
    {
        BridgeConfig {
            broker_host: self.broker_host.clone(),
            broker_port: self.broker_port,
            client_id: self.client_id.clone(),
            inbound_topic: self.inbound_topic.clone(),
            outbound_topic: self.outbound_topic.clone(),
            model: self.model.clone(),
            api_key: self.api_key.clone(),
            api_base_url: self.api_base_url.clone(),
            max_history: self.max_history,
            max_message_length: self.max_message_length,
        }
    }
}

impl BridgeConfig {
    /// A configuration with every setting given.
    pub fn new(
        broker_host: String,
        broker_port: u16,
        client_id: String,
        inbound_topic: String,
        outbound_topic: String,
        model: String,
        api_key: String,
        api_base_url: String,
        max_history: usize,
        max_message_length: usize,
    ) -> (config: Self)
        ensures
            config@ == (ConfigView {
                broker_host: broker_host@,
                broker_port,
                client_id: client_id@,
                inbound_topic: inbound_topic@,
                outbound_topic: outbound_topic@,
                model: model@,
                api_key: api_key@,
                api_base_url: api_base_url@,
                max_history: max_history as nat,
                max_message_length: max_message_length as nat,
            }),
    {
        BridgeConfig {
            broker_host,
            broker_port,
            client_id,
            inbound_topic,
            outbound_topic,
            model,
            api_key,
            api_base_url,
            max_history,
            max_message_length,
        }
    }

    /// The configuration with the default broker, topics and limits.
    pub fn with_defaults(api_key: String, api_base_url: String, model: String) -> (config: Self)
        ensures
            config@ == default_config(api_key@, api_base_url@, model@),
    {
        BridgeConfig {
            broker_host: "broker.hivemq.com".to_owned(),
            broker_port: DEFAULT_BROKER_PORT,
            client_id: "rust_chatgpt_client".to_owned(),
            inbound_topic: "/esp_gpt_out".to_owned(),
            outbound_topic: "/client_gpt".to_owned(),
            model,
            api_key,
            api_base_url,
            max_history: DEFAULT_MAX_HISTORY,
            max_message_length: DEFAULT_MAX_MESSAGE_LENGTH,
        }
    }

    /// The configuration that the environment asks for. Each of the three
    /// settings may be given under a primary and a fallback name, of which
    /// the primary takes precedence. Endpoint and model have defaults; a
    /// missing credential is an error.
    pub fn from_environment(
        api_key: Option<String>,
        api_key_fallback: Option<String>,
        api_base_url: Option<String>,
        api_base_url_fallback: Option<String>,
        model: Option<String>,
        model_fallback: Option<String>,
    ) -> (result: Result<Self, ConfigError>)
        ensures
            config_result_view(result) == resolved_config(
                setting_view(api_key),
                setting_view(api_key_fallback),
                setting_view(api_base_url),
                setting_view(api_base_url_fallback),
                setting_view(model),
                setting_view(model_fallback),
            ),
    {
        let key = match prefer(api_key, api_key_fallback) {
            Some(key) => key,
            None => {
                return Err(ConfigError::MissingCredential);
            },
        };
        let url = match prefer(api_base_url, api_base_url_fallback) {
            Some(url) => url,
            None => "https://openrouter.ai/api/v1".to_owned(),
        };
        let name = match prefer(model, model_fallback) {
            Some(name) => name,
            None => "x-ai/grok-4.1-fast".to_owned(),
        };
        Ok(BridgeConfig::with_defaults(key, url, name))
    }

    /// The endpoint to hand to the completion client, or `None` where the
    /// configured endpoint is the one the client uses anyway.
    pub fn custom_endpoint(&self) -> (endpoint: Option<&str>)
        ensures
            match endpoint {
                Some(url) => url@ == self@.api_base_url && url@ != standard_api_base_url(),
                None => self@.api_base_url == standard_api_base_url(),
            },
    {
        if same_text(self.api_base_url.as_str(), "https://api.openai.com/v1") {
            None
        } else {
            Some(self.api_base_url.as_str())
        }
    }

    /// The broker's host name or address.
    pub fn broker_host(&self) -> (value: &str)
        ensures
            value@ == self@.broker_host,
    {
        self.broker_host.as_str()
    }

    /// The broker's port.
    pub fn broker_port(&self) -> (value: u16)
        ensures
            value == self@.broker_port,
    {
        self.broker_port
    }

    /// The identifier under which the bridge connects.
    pub fn client_id(&self) -> (value: &str)
        ensures
            value@ == self@.client_id,
    {
        self.client_id.as_str()
    }

    /// The topic on which the remote party speaks.
    pub fn inbound_topic(&self) -> (value: &str)
        ensures
            value@ == self@.inbound_topic,
    {
        self.inbound_topic.as_str()
    }

    /// The topic on which replies are published.
    pub fn outbound_topic(&self) -> (value: &str)
        ensures
            value@ == self@.outbound_topic,
    {
        self.outbound_topic.as_str()
    }

    /// The identifier of the model that is asked.
    pub fn model(&self) -> (value: &str)
        ensures
            value@ == self@.model,
    {
        self.model.as_str()
    }

    /// The credential for the completion service.
    pub fn api_key(&self) -> (value: &str)
        ensures
            value@ == self@.api_key,
    {
        self.api_key.as_str()
    }

    /// The endpoint of the completion service.
    pub fn api_base_url(&self) -> (value: &str)
        ensures
            value@ == self@.api_base_url,
    {
        self.api_base_url.as_str()
    }

    /// The number of turns that the transcript keeps.
    pub fn max_history(&self) -> (value: usize)
        ensures
            value == self@.max_history,
    {
        self.max_history
    }

    /// The length in bytes to which every message is cut.
    pub fn max_message_length(&self) -> (value: usize)
        ensures
            value == self@.max_message_length,
    {
        self.max_message_length
    }
}

} // verus!
