use vstd::prelude::*;
use vstd::string::*;

verus! {

/// Time to live, in seconds, requested for the managed record.
pub const RECORD_TTL: u32 = 300;

/// The desired state of the one address record that is kept up to date.
pub struct DnsRecord {
    /// Record kind; always the IPv4 address kind.
    pub record_type: String,
    /// Fully qualified host name of the record.
    pub name: String,
    /// The address the record points at.
    pub content: String,
    /// Time to live in seconds.
    pub ttl: u32,
    /// Whether the provider's edge proxy fronts the host.
    pub proxied: bool,
}

/// Mathematical model of a [`DnsRecord`].
pub struct DnsRecordView {
    pub record_type: Seq<char>,
    pub name: Seq<char>,
    pub content: Seq<char>,
    pub ttl: u32,
    pub proxied: bool,
}

impl View for DnsRecord {
    type V = DnsRecordView;

    open spec fn view(&self) -> DnsRecordView {
        DnsRecordView {
            record_type: self.record_type@,
            name: self.name@,
            content: self.content@,
            ttl: self.ttl,
            proxied: self.proxied,
        }
    }
}

/// The record kind of an IPv4 address record.
pub open spec fn address_kind() -> Seq<char> {
    seq!['A']
}

/// The record that points `domain` at `ip`.
pub open spec fn desired_record(ip: Seq<char>, domain: Seq<char>) -> DnsRecordView {
    DnsRecordView {
        record_type: address_kind(),
        name: domain,
        content: ip,
        ttl: RECORD_TTL,
        proxied: true,
    }
}

/// Builds the record that points `domain` at the address `ip`: an address
/// record with the fixed time to live, behind the provider's proxy.
pub fn build_record(ip: &str, domain: &str) -> (r: DnsRecord)
    ensures
        r@ == desired_record(ip@, domain@),
{
    let record_type = String::from_str("A");
    proof {
        reveal_strlit("A");
    }
    assert(record_type@ =~= address_kind());
    DnsRecord {
        record_type,
        name: String::from_str(domain),
        content: String::from_str(ip),
        ttl: RECORD_TTL,
        proxied: true,
    }
}

impl DnsRecord {
    /// A field-by-field copy.
    pub fn duplicate(&self) -> (r: DnsRecord)
        ensures
            r@ == self@,
    {
        DnsRecord {
            record_type: self.record_type.clone(),
            name: self.name.clone(),
            content: self.content.clone(),
            ttl: self.ttl,
            proxied: self.proxied,
        }
    }
}

} // verus!
