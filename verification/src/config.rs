use vstd::prelude::*;
use vstd::string::StringExecFns;

verus! {

/// Transport parameters of the export pipeline: where records are sent, the
/// bearer credential for the authorization header, and the identifier placed
/// in the user-agent header. Built once at startup, immutable afterwards.
pub struct ExporterConfig {
    pub endpoint: String,
    pub auth_token: String,
    pub client_id: String,
}

/// The value of the authorization header for a bearer token.
pub open spec fn bearer_value_spec(token: Seq<char>) -> Seq<char> {
    "Bearer "@ + token
}

impl ExporterConfig {
    pub fn new(endpoint: String, auth_token: String, client_id: String) -> (c: ExporterConfig)
        ensures
            c.endpoint@ == endpoint@,
            c.auth_token@ == auth_token@,
            c.client_id@ == client_id@,
    {
        ExporterConfig { endpoint, auth_token, client_id }
    }

    /// The `Authorization` header value: `Bearer ` followed by the token.
    pub fn authorization_value(&self) -> (r: String)
        ensures
            r@ == bearer_value_spec(self.auth_token@),
    {
        let prefix: String = "Bearer ".to_owned();
        prefix.concat(self.auth_token.as_str())
    }

    /// The transport headers, in order: the authorization header, then the
    /// client identifier.
    pub fn header_pairs(&self) -> (r: Vec<(String, String)>)
        ensures
            r@.len() == 2,
            r@[0].0@ == "Authorization"@,
            r@[0].1@ == bearer_value_spec(self.auth_token@),
            r@[1].0@ == "User-Agent"@,
            r@[1].1@ == self.client_id@,
    {
        let mut pairs: Vec<(String, String)> = Vec::new();
        pairs.push(("Authorization".to_owned(), self.authorization_value()));
        pairs.push(("User-Agent".to_owned(), self.client_id.clone()));
        pairs
    }
}

} // verus!
