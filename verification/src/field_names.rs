//! The keys under which request attributes appear in emitted records.

use vstd::prelude::*;

verus! {

/// For each request attribute, the key it is emitted under.
pub struct FieldNames {
    pub http_version: &'static str,
    pub http_host: &'static str,
    pub referer: &'static str,
    pub remote_address: &'static str,
    pub user_agent: &'static str,
    pub request_method: &'static str,
    pub correlation_id: &'static str,
    pub uri: &'static str,
    pub query_string: &'static str,
}

impl FieldNames {
    /// The keys in emission order.
    pub open spec fn keys(self) -> Seq<Seq<char>> {
        seq![
            self.http_version@,
            self.http_host@,
            self.referer@,
            self.remote_address@,
            self.user_agent@,
            self.request_method@,
            self.correlation_id@,
            self.uri@,
            self.query_string@,
        ]
    }

    /// The built-in keys.
    pub open spec fn defaults() -> FieldNames {
        FieldNames {
            http_version: "http_version",
            http_host: "http_host",
            referer: "referer",
            remote_address: "remote_address",
            user_agent: "agent",
            request_method: "request_method",
            correlation_id: "correlation-id",
            uri: "uri",
            query_string: "query_string",
        }
    }
}

impl Default for FieldNames {
    fn default() -> (names: Self)
        ensures
            names == FieldNames::defaults(),
    {
        FieldNames {
            http_version: "http_version",
            http_host: "http_host",
            referer: "referer",
            remote_address: "remote_address",
            user_agent: "agent",
            request_method: "request_method",
            correlation_id: "correlation-id",
            uri: "uri",
            query_string: "query_string",
        }
    }
}

} // verus!
