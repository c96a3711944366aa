use vstd::prelude::*;

verus! {

/// The bot-wide secrets: the Discord token and the OpenAI key.
pub struct GlobalConfig {
    pub discord_token: String,
    pub openai_key: String,
}

} // verus!
