use vstd::prelude::*;

verus! {

/// The identity a request is limited by.
pub enum RateLimiterInputKey {
    Ip(String),
    UserId(String),
    ApiKey(String),
    UUID(String),
}

/// A request's service and identity, from which its storage key is built.
pub struct RateLimiterInputData {
    pub service_name: String,
    pub key: RateLimiterInputKey,
}

/// The tag and the payload of a key: `ip:`, `userId:`, `apiKey:` or `uuid:`, then the value.
pub open spec fn key_part(key: RateLimiterInputKey) -> Seq<char> {
    match key {
        RateLimiterInputKey::Ip(ip) => "ip:"@ + ip@,
        RateLimiterInputKey::UserId(id) => "userId:"@ + id@,
        RateLimiterInputKey::ApiKey(api_key) => "apiKey:"@ + api_key@,
        RateLimiterInputKey::UUID(uuid) => "uuid:"@ + uuid@,
    }
}

/// `ratelimit:<service>:<tag>:<payload>`.
pub open spec fn storage_key(data: RateLimiterInputData) -> Seq<char> {
    "ratelimit:"@ + data.service_name@ + ":"@ + key_part(data.key)
}

impl RateLimiterInputKey {
    /// The tag of the variant followed by its payload, unaltered.
    pub fn storage_key_part(&self) -> (part: String)
        ensures
            part@ == key_part(*self),
    {
        match self {
            RateLimiterInputKey::Ip(ip) => String::from_str("ip:").concat(ip.as_str()),
            RateLimiterInputKey::UserId(id) => String::from_str("userId:").concat(id.as_str()),
            RateLimiterInputKey::ApiKey(api_key) => String::from_str("apiKey:").concat(
                api_key.as_str(),
            ),
            RateLimiterInputKey::UUID(uuid) => String::from_str("uuid:").concat(uuid.as_str()),
        }
    }
}

impl RateLimiterInputData {
    /// The key under which this consumer's bucket is stored. It is a function of the
    /// service name and the identity alone, and nothing in them is escaped or altered.
    pub fn convert_to_storage_key(&self) -> (key: String)
        ensures
            key@ == storage_key(*self),
    {
        let key_part = self.key.storage_key_part();
        String::from_str("ratelimit:").concat(self.service_name.as_str()).concat(":").concat(
            key_part.as_str(),
        )
    }
}

} // verus!
