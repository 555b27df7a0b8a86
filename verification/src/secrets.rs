//! Configuration of the bot and of the backend it talks to.

use vstd::prelude::*;

verus! {

/// Everything the process is configured with.
pub struct Secrets {
    pub telegram_config: TelegramConfig,
    pub api_config: ApiConfig,
    pub ean_frontend: String,
    pub cdn_root: String,
}

/// Access to the chat transport, and who may administer the bot.
pub struct TelegramConfig {
    pub bot_token: String,
    pub maintainer_ids: Vec<u64>,
}

/// Where the backend lives and which revision of it is spoken.
pub struct ApiConfig {
    pub api_root: String,
    pub brand_name: String,
    pub anonymous_csrf: String,
    pub legal_ids: Vec<String>,
    pub module_version: String,
    pub sms_api_version: String,
    pub next_step_version: String,
    pub create_account_version: String,
    pub login_api_version: String,
    pub promo_sync_api_version: String,
}

/// The profile fields that every registration carries alike.
pub struct RegistrationDefaults {
    pub locale: String,
    pub store_id: String,
}

impl TelegramConfig {
    /// Whether `id` is one of the maintainers.
    pub fn is_admin(&self, id: u64) -> (admin: bool)
        ensures
            admin == self.maintainer_ids@.contains(id),
    {
        let mut i: usize = 0;
        while i < self.maintainer_ids.len()
            invariant
                i <= self.maintainer_ids.len(),
                forall|k: int| 0 <= k < i ==> self.maintainer_ids@[k] != id,
            decreases self.maintainer_ids.len() - i,
        {
            if self.maintainer_ids[i] == id {
                return true;
            }
            i = i + 1;
        }
        false
    }

    /// Whether a command may be taken from `sender`: only from a known
    /// sender who is a maintainer.
    pub fn accepts(&self, sender: Option<u64>) -> (ok: bool)
        ensures
            ok == (sender matches Some(id) && self.maintainer_ids@.contains(id)),
    {
        match sender {
            Some(id) => self.is_admin(id),
            None => false,
        }
    }
}

} // verus!
