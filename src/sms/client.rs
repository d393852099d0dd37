//! The SMS client: which address each operation calls.
use vstd::prelude::*;
use vstd::string::StringExecFns;
use crate::common::creds::Credentials;
use crate::general::failover::{queries_servers, submits_to, CandidateWalk};
use crate::general::uri::{addresses, uris_with_path, Region, RegionUri};
use crate::sms::models::{filter_query, SmsFilter};

verus! {

/// The SMS servers: a primary address and two candidates, in Europe.
pub open spec fn sms_region_uri(r: RegionUri) -> bool {
    &&& r.region is Europe
    &&& r.ha_addr@ == "https://sms4a.eu.retarus.com"@
    &&& addresses(r.servers@) == seq!["https://sms4a.de1.retarus.com"@, "https://sms4a.de2.retarus.com"@]
}

/// An SMS client: its credentials and the servers it calls. Each operation
/// is a [`CandidateWalk`] that the caller drives.
pub struct SmsClient {
    pub credentials: Credentials,
    pub region_uri: RegionUri,
}

impl SmsClient {
    /// A builder set to Europe, with empty credentials.
    pub fn builder() -> (r: SmsClientBuilder)
        ensures
            r.region is Europe,
            r.region_uris@.len() == 1,
            sms_region_uri(r.region_uris@[0]),
            r.credentails.username@.len() == 0,
            r.credentails.password@.len() == 0,
    {
        let uri = RegionUri::new(
            Region::Europe,
            "https://sms4a.eu.retarus.com",
            vec!["https://sms4a.de1.retarus.com", "https://sms4a.de2.retarus.com"],
        );
        assert(addresses(uri.servers@) =~= seq![
            "https://sms4a.de1.retarus.com"@,
            "https://sms4a.de2.retarus.com"@,
        ]);
        let creds = Credentials::new("", "");
        proof {
            reveal_strlit("");
        }
        SmsClientBuilder { region: Region::Europe, region_uris: vec![uri], credentails: creds }
    }

    /// Sending an SMS job: one POST to `{primary}/rest/v1/jobs`.
    pub fn send_sms_walk(&self) -> (w: CandidateWalk)
        ensures
            submits_to(w, self.region_uri.ha_addr@ + "/rest/v1/jobs"@),
    {
        let mut uri = self.region_uri.ha_addr.clone();
        uri.append("/rest/v1/jobs");
        CandidateWalk::submit(uri)
    }

    /// Getting one SMS job: `{candidate}/rest/v1/jobs/{job_id}`, over the
    /// candidate servers.
    pub fn get_sms_job_walk(&self, job_id: &str) -> (w: CandidateWalk)
        ensures
            queries_servers(w, self.region_uri.servers@, "/rest/v1/jobs/"@ + job_id@),
    {
        let mut path = String::from_str("/rest/v1/jobs/");
        path.append(job_id);
        CandidateWalk::query(uris_with_path(&self.region_uri.servers, path.as_str()))
    }

    /// Listing SMS jobs: `{candidate}/rest/v1/jobs?{query}`, over the
    /// candidate servers.
    pub fn list_jobs_walk(&self, filter: &SmsFilter) -> (w: CandidateWalk)
        ensures
            queries_servers(w, self.region_uri.servers@, "/rest/v1/jobs"@ + filter_query(*filter)),
    {
        let mut path = String::from_str("/rest/v1/jobs");
        path.append(filter.create_filter_string().as_str());
        CandidateWalk::query(uris_with_path(&self.region_uri.servers, path.as_str()))
    }
}

/// Collects the settings of an [`SmsClient`].
pub struct SmsClientBuilder {
    pub region: Region,
    pub region_uris: Vec<RegionUri>,
    pub credentails: Credentials,
}

impl SmsClientBuilder {
    pub fn set_credentials(self, credentails: Credentials) -> (r: SmsClientBuilder)
        ensures
            r.credentails == credentails,
            r.region == self.region,
            r.region_uris == self.region_uris,
    {
        SmsClientBuilder { credentails, ..self }
    }

    pub fn set_region(self, region: Region) -> (r: SmsClientBuilder)
        ensures
            r.region == region,
            r.credentails == self.credentails,
            r.region_uris == self.region_uris,
    {
        SmsClientBuilder { region, ..self }
    }

    /// The client. The service runs in Europe only and needs a password:
    /// a builder without either cannot build one.
    pub fn build(self) -> (r: SmsClient)
        requires
            self.credentails.password@.len() > 0,
            self.region is Europe,
            self.region_uris@.len() > 0,
        ensures
            r.credentials == self.credentails,
            r.region_uri == self.region_uris@[0],
    {
        let mut uris = self.region_uris;
        let first = uris.remove(0);
        SmsClient { credentials: self.credentails, region_uri: first }
    }
}

} // verus!
