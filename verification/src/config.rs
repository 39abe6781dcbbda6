//! Process-wide settings.  The surrounding application reads the raw
//! values from its environment and hands them in; the constructors here
//! assemble the derived connection strings, exactly.

use vstd::prelude::*;

verus! {

/// General application settings.
#[derive(Debug)]
pub struct Config {
    pub api_v1_prefix: String,
    pub app_domain: String,
    pub web3_provider: String,
    pub openai_api_key: String,
}

impl Config {
    pub fn new_config(openai_api_key: String) -> (r: Config)
        ensures
            r.api_v1_prefix@ == "/api/v1"@,
            r.app_domain@ == "api.agent.zpoken.dev"@,
            r.web3_provider@ == "https://1rpc.io/sepolia"@,
            r.openai_api_key@ == openai_api_key@,
    {
        Config {
            api_v1_prefix: "/api/v1".to_owned(),
            app_domain: "api.agent.zpoken.dev".to_owned(),
            web3_provider: "https://1rpc.io/sepolia".to_owned(),
            openai_api_key,
        }
    }
}

/// Connection settings for the session store.
#[derive(Debug)]
pub struct RedisSettings {
    pub redis_host: String,
    pub redis_port: String,
    pub redis_user: String,
    pub redis_password: String,
    pub redis_url: String,
}

impl RedisSettings {
    pub fn new_redis(host: String, port: String, user: String, password: String) -> (r:
        RedisSettings)
        ensures
            r.redis_host@ == host@,
            r.redis_port@ == port@,
            r.redis_user@ == user@,
            r.redis_password@ == password@,
            r.redis_url@ == "redis://"@ + user@ + ":"@ + password@ + "@"@ + host@ + ":"@ + port@,
    {
        let redis_url: String = "redis://".to_owned().concat(user.as_str()).concat(":").concat(
            password.as_str(),
        ).concat("@").concat(host.as_str()).concat(":").concat(port.as_str());
        RedisSettings {
            redis_host: host,
            redis_port: port,
            redis_user: user,
            redis_password: password,
            redis_url,
        }
    }
}

/// Settings for the notification channel.
#[derive(Debug)]
pub struct TelegramSettings {
    pub tg_token: String,
    pub tg_chat_id: String,
}

impl TelegramSettings {
    pub fn new_telegram(tg_token: String, tg_chat_id: String) -> (r: TelegramSettings)
        ensures
            r.tg_token@ == tg_token@,
            r.tg_chat_id@ == tg_chat_id@,
    {
        TelegramSettings { tg_token, tg_chat_id }
    }
}

/// Connection settings for the relational store.
#[derive(Debug)]
pub struct DBSettings {
    pub db_name: String,
    pub db_user: String,
    pub db_host: String,
    pub db_port: String,
    pub db_pw: String,
    pub sqlalchemy_database_url: String,
    pub db_echo: bool,
}

impl DBSettings {
    pub fn new_db(name: String, user: String, host: String, port: String, pw: String) -> (r:
        DBSettings)
        ensures
            r.db_name@ == name@,
            r.db_user@ == user@,
            r.db_host@ == host@,
            r.db_port@ == port@,
            r.db_pw@ == pw@,
            r.sqlalchemy_database_url@ == "postgresql+asyncpg://"@ + user@ + ":"@ + pw@ + "@"@
                + host@ + ":"@ + port@ + "/"@ + name@,
            r.db_echo == false,
    {
        let sqlalchemy_database_url: String = "postgresql+asyncpg://".to_owned().concat(
            user.as_str(),
        ).concat(":").concat(pw.as_str()).concat("@").concat(host.as_str()).concat(":").concat(
            port.as_str(),
        ).concat("/").concat(name.as_str());
        DBSettings {
            db_name: name,
            db_user: user,
            db_host: host,
            db_port: port,
            db_pw: pw,
            sqlalchemy_database_url,
            db_echo: false,
        }
    }
}

/// Settings for the smart-contract driver.
#[derive(Debug)]
pub struct SMCSettings {
    pub web3_provider: String,
    pub prize_pool_contract_address: String,
    pub bonding_contract_address: String,
    pub owner_private_key: String,
    pub prize_pool_admin_private_key: String,
}

impl SMCSettings {
    pub fn new_smc(
        prize_pool_contract_address: String,
        bonding_contract_address: String,
        owner_private_key: String,
        prize_pool_admin_private_key: String,
    ) -> (r: SMCSettings)
        ensures
            r.web3_provider@ == "https://1rpc.io/sepolia"@,
            r.prize_pool_contract_address@ == prize_pool_contract_address@,
            r.bonding_contract_address@ == bonding_contract_address@,
            r.owner_private_key@ == owner_private_key@,
            r.prize_pool_admin_private_key@ == prize_pool_admin_private_key@,
    {
        SMCSettings {
            web3_provider: "https://1rpc.io/sepolia".to_owned(),
            prize_pool_contract_address,
            bonding_contract_address,
            owner_private_key,
            prize_pool_admin_private_key,
        }
    }
}

/// Connection settings for the chain RPC.
#[derive(Debug)]
pub struct SolanaSettings {
    pub rpc_url: String,
    pub solana_config_path: String,
    pub agent_keypair: String,
}

impl SolanaSettings {
    pub fn new_solana(rpc_url: String, solana_config_path: String, agent_keypair: String) -> (r:
        SolanaSettings)
        ensures
            r.rpc_url@ == rpc_url@,
            r.solana_config_path@ == solana_config_path@,
            r.agent_keypair@ == agent_keypair@,
    {
        SolanaSettings { rpc_url, solana_config_path, agent_keypair }
    }
}

/// Credentials for the social-media driver.
#[derive(Debug)]
pub struct TwitterSettings {
    pub api_key: String,
    pub api_secret: String,
    pub access_token: String,
    pub access_secret: String,
    pub bearer_token: String,
}

impl TwitterSettings {
    pub fn new_twitter(
        api_key: String,
        api_secret: String,
        access_token: String,
        access_secret: String,
        bearer_token: String,
    ) -> (r: TwitterSettings)
        ensures
            r.api_key@ == api_key@,
            r.api_secret@ == api_secret@,
            r.access_token@ == access_token@,
            r.access_secret@ == access_secret@,
            r.bearer_token@ == bearer_token@,
    {
        TwitterSettings { api_key, api_secret, access_token, access_secret, bearer_token }
    }
}

} // verus!
