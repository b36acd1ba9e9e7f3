//! The configuration of the bot.
use vstd::prelude::*;

verus! {

/// Internet Computer settings.
#[derive(Debug)]
pub struct Icp {
    pub token_ledgers: Vec<String>,
}

/// Model provider settings (kept encrypted in the COSE canister).
#[derive(Debug)]
pub struct Llm {
    pub deepseek_api_key: String,
    pub deepseek_endpoint: String,
    pub deepseek_model: String,
    pub cohere_api_key: String,
    pub cohere_embedding_model: String,
    pub openai_api_key: String,
    pub openai_endpoint: String,
    pub openai_embedding_model: String,
    pub openai_completion_model: String,
}

/// X (Twitter) account settings (kept encrypted in the COSE canister).
#[derive(Debug)]
pub struct X {
    pub username: String,
    pub password: String,
    pub email: Option<String>,
    pub two_factor_auth: Option<String>,
    pub cookie_string: Option<String>,
}

/// Google search settings (kept encrypted in the COSE canister).
#[derive(Debug)]
pub struct Google {
    pub api_key: String,
    pub search_engine_id: String,
}

/// The bot's configuration.
#[derive(Debug)]
pub struct Conf {
    pub llm: Llm,
    pub icp: Icp,
    pub x: X,
    pub google: Google,
}

/// What the bot tells about itself, with principals as text.
#[derive(Debug)]
pub struct AppInformationJSON {
    /// The TEE service id.
    pub id: String,
    /// The engine name.
    pub name: String,
    pub start_time_ms: u64,
    pub default_agent: String,
    pub object_store_canister: Option<String>,
    pub caller: String,
}

/// The models the bot runs on.
#[derive(Debug)]
pub enum ModelChoice {
    /// DeepSeek completes (at its own endpoint unless one is given), Cohere
    /// embeds.
    DeepSeekCohere {
        deepseek_api_key: String,
        deepseek_endpoint: Option<String>,
        deepseek_model: String,
        cohere_api_key: String,
        cohere_embedding_model: String,
    },
    /// OpenAI completes and embeds (at its own endpoint unless one is given).
    OpenAi {
        api_key: String,
        endpoint: Option<String>,
        completion_model: String,
        embedding_model: String,
    },
}

/// A setting that is empty means "not set".
pub open spec fn set_or_none(s: Seq<char>) -> Option<Seq<char>> {
    if s.len() == 0 {
        None
    } else {
        Some(s)
    }
}

/// The model DeepSeek completes with when none is set.
pub open spec fn default_deepseek_model() -> Seq<char> {
    "deepseek-chat"@
}

fn optional(s: &String) -> (r: Option<String>)
    ensures
        match r {
            Some(t) => set_or_none(s@) == Some(t@),
            None => set_or_none(s@) is None,
        },
{
    if s.as_str().is_empty() {
        None
    } else {
        Some(s.clone())
    }
}

impl Llm {
    /// The models to run on: OpenAI when its API key is set, else DeepSeek
    /// with Cohere; empty endpoints mean the providers' own, and an empty
    /// DeepSeek model means "deepseek-chat".
    pub fn model_choice(&self) -> (r: ModelChoice)
        ensures
            self.openai_api_key@.len() == 0 <==> r is DeepSeekCohere,
            r matches ModelChoice::DeepSeekCohere {
                deepseek_api_key,
                deepseek_endpoint,
                deepseek_model,
                cohere_api_key,
                cohere_embedding_model,
            } ==> {
                &&& deepseek_api_key == self.deepseek_api_key
                &&& (match deepseek_endpoint {
                    Some(e) => set_or_none(self.deepseek_endpoint@) == Some(e@),
                    None => set_or_none(self.deepseek_endpoint@) is None,
                })
                &&& deepseek_model@ == (if self.deepseek_model@.len() == 0 {
                    default_deepseek_model()
                } else {
                    self.deepseek_model@
                })
                &&& cohere_api_key == self.cohere_api_key
                &&& cohere_embedding_model == self.cohere_embedding_model
            },
            r matches ModelChoice::OpenAi { api_key, endpoint, completion_model, embedding_model } ==> {
                &&& api_key == self.openai_api_key
                &&& (match endpoint {
                    Some(e) => set_or_none(self.openai_endpoint@) == Some(e@),
                    None => set_or_none(self.openai_endpoint@) is None,
                })
                &&& completion_model == self.openai_completion_model
                &&& embedding_model == self.openai_embedding_model
            },
    {
        if self.openai_api_key.as_str().is_empty() {
            let deepseek_model = if self.deepseek_model.as_str().is_empty() {
                String::from_str("deepseek-chat")
            } else {
                self.deepseek_model.clone()
            };
            proof {
                reveal_strlit("deepseek-chat");
            }
            ModelChoice::DeepSeekCohere {
                deepseek_api_key: self.deepseek_api_key.clone(),
                deepseek_endpoint: optional(&self.deepseek_endpoint),
                deepseek_model,
                cohere_api_key: self.cohere_api_key.clone(),
                cohere_embedding_model: self.cohere_embedding_model.clone(),
            }
        } else {
            ModelChoice::OpenAi {
                api_key: self.openai_api_key.clone(),
                endpoint: optional(&self.openai_endpoint),
                completion_model: self.openai_completion_model.clone(),
                embedding_model: self.openai_embedding_model.clone(),
            }
        }
    }
}

} // verus!
