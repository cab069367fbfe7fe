use vstd::prelude::*;
use vstd::string::*;
use crate::record::{DnsRecord, DnsRecordView};

verus! {

/// The provider's zones endpoint, to which the zone and record identifiers are appended.
pub const ZONES_ENDPOINT: &'static str = "https://api.cloudflare.com/client/v4/zones/";

/// An authenticated request that overwrites one existing record.
/// It is sent with the PUT method and its body is the JSON form of `body`.
pub struct UpdateRequest {
    pub url: String,
    /// Value of the `Authorization` header.
    pub authorization: String,
    /// Value of the `Content-Type` header.
    pub content_type: String,
    pub body: DnsRecord,
}

/// Mathematical model of an [`UpdateRequest`].
pub struct UpdateRequestView {
    pub url: Seq<char>,
    pub authorization: Seq<char>,
    pub content_type: Seq<char>,
    pub body: DnsRecordView,
}

impl View for UpdateRequest {
    type V = UpdateRequestView;

    open spec fn view(&self) -> UpdateRequestView {
        UpdateRequestView {
            url: self.url@,
            authorization: self.authorization@,
            content_type: self.content_type@,
            body: self.body@,
        }
    }
}

/// The endpoint of record `record_id` in zone `zone_id`.
pub open spec fn record_url(zone_id: Seq<char>, record_id: Seq<char>) -> Seq<char> {
    ZONES_ENDPOINT@ + zone_id + "/dns_records/"@ + record_id
}

/// The bearer-token authorization for `credential`.
pub open spec fn bearer(credential: Seq<char>) -> Seq<char> {
    "Bearer "@ + credential
}

/// The request that writes `record` over record `record_id` of zone `zone_id`.
pub open spec fn update_request(
    zone_id: Seq<char>,
    record_id: Seq<char>,
    record: DnsRecordView,
    credential: Seq<char>,
) -> UpdateRequestView {
    UpdateRequestView {
        url: record_url(zone_id, record_id),
        authorization: bearer(credential),
        content_type: "application/json"@,
        body: record,
    }
}

/// The endpoint of record `record_id` in zone `zone_id`.
pub fn update_url(zone_id: &str, record_id: &str) -> (r: String)
    ensures
        r@ == record_url(zone_id@, record_id@),
{
    String::from_str(ZONES_ENDPOINT).concat(zone_id).concat("/dns_records/").concat(record_id)
}

/// The `Authorization` header value for `credential`.
pub fn bearer_header(credential: &str) -> (r: String)
    ensures
        r@ == bearer(credential@),
{
    String::from_str("Bearer ").concat(credential)
}

/// Builds the request that overwrites record `record_id` of zone `zone_id`
/// with `record`, authorized by `credential`.
pub fn build_update_request(zone_id: &str, record_id: &str, record: DnsRecord, credential: &str) -> (r: UpdateRequest)
    ensures
        r@ == update_request(zone_id@, record_id@, record@, credential@),
{
    UpdateRequest {
        url: update_url(zone_id, record_id),
        authorization: bearer_header(credential),
        content_type: String::from_str("application/json"),
        body: record,
    }
}

impl UpdateRequest {
    /// A field-by-field copy.
    pub fn duplicate(&self) -> (r: UpdateRequest)
        ensures
            r@ == self@,
    {
        UpdateRequest {
            url: self.url.clone(),
            authorization: self.authorization.clone(),
            content_type: self.content_type.clone(),
            body: self.body.duplicate(),
        }
    }
}

} // verus!
