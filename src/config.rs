use vstd::prelude::*;

verus! {

/// The four settings the updater needs, read once at startup.
pub struct Config {
    /// Bearer token for the provider's API.
    pub api_key: String,
    /// Identifier of the zone that holds the record.
    pub zone_id: String,
    /// Identifier of the record to overwrite.
    pub record_id: String,
    /// Host name written into the record.
    pub domain_name: String,
}

/// Names one of the required settings.
#[derive(PartialEq, Eq, Structural, Clone, Copy, Debug)]
pub enum ConfigKey {
    ApiKey,
    ZoneId,
    RecordId,
    DomainName,
}

/// Why no [`Config`] could be formed.
#[derive(PartialEq, Eq, Structural, Clone, Copy, Debug)]
pub enum ConfigError {
    /// The named setting is absent.
    Missing(ConfigKey),
}

/// The environment variable that holds `key`.
pub open spec fn var_name_of(key: ConfigKey) -> Seq<char> {
    match key {
        ConfigKey::ApiKey => "CLOUDFLARE_API_KEY"@,
        ConfigKey::ZoneId => "CLOUDFLARE_ZONE_ID"@,
        ConfigKey::RecordId => "CLOUDFLARE_RECORD_ID"@,
        ConfigKey::DomainName => "DOMAIN_NAME"@,
    }
}

/// The first absent setting, in the order api key, zone, record, domain.
pub open spec fn first_missing(
    api_key: Option<String>,
    zone_id: Option<String>,
    record_id: Option<String>,
    domain_name: Option<String>,
) -> Option<ConfigKey> {
    if api_key is None {
        Some(ConfigKey::ApiKey)
    } else if zone_id is None {
        Some(ConfigKey::ZoneId)
    } else if record_id is None {
        Some(ConfigKey::RecordId)
    } else if domain_name is None {
        Some(ConfigKey::DomainName)
    } else {
        None
    }
}

impl ConfigKey {
    /// The environment variable that holds this setting.
    pub fn var_name(&self) -> (r: &'static str)
        ensures
            r@ == var_name_of(*self),
    {
        match self {
            ConfigKey::ApiKey => "CLOUDFLARE_API_KEY",
            ConfigKey::ZoneId => "CLOUDFLARE_ZONE_ID",
            ConfigKey::RecordId => "CLOUDFLARE_RECORD_ID",
            ConfigKey::DomainName => "DOMAIN_NAME",
        }
    }
}

impl Config {
    /// Forms the configuration from the four looked-up settings. It is formed
    /// exactly when all four are present; otherwise the first absent one is
    /// named.
    pub fn from_values(
        api_key: Option<String>,
        zone_id: Option<String>,
        record_id: Option<String>,
        domain_name: Option<String>,
    ) -> (r: Result<Config, ConfigError>)
        ensures
            r is Ok <==> (api_key is Some && zone_id is Some && record_id is Some && domain_name is Some),
            r is Ok ==> ({
                let c = r->Ok_0;
                &&& c.api_key == api_key->Some_0
                &&& c.zone_id == zone_id->Some_0
                &&& c.record_id == record_id->Some_0
                &&& c.domain_name == domain_name->Some_0
            }),
            r is Err ==> first_missing(api_key, zone_id, record_id, domain_name) == Some(r->Err_0->Missing_0),
    {
        match (api_key, zone_id, record_id, domain_name) {
            (None, _, _, _) => Err(ConfigError::Missing(ConfigKey::ApiKey)),
            (_, None, _, _) => Err(ConfigError::Missing(ConfigKey::ZoneId)),
            (_, _, None, _) => Err(ConfigError::Missing(ConfigKey::RecordId)),
            (_, _, _, None) => Err(ConfigError::Missing(ConfigKey::DomainName)),
            (Some(api_key), Some(zone_id), Some(record_id), Some(domain_name)) => Ok(
                Config { api_key, zone_id, record_id, domain_name },
            ),
        }
    }
}

} // verus!
