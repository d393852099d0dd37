//! The fax client: which address each operation calls, for which customer.
use vstd::prelude::*;
use vstd::string::StringExecFns;
use crate::common::creds::Credentials;
use crate::general::failover::{queries_servers, submits_to, CandidateWalk};
use crate::general::report::ReportsAction;
use crate::general::uri::{
    addresses, determine_region_uri, region_primary, region_servers, uris_with_path, Region,
    RegionUri,
};

verus! {

/// The customer number used for a call: the one given, else the client's own.
pub open spec fn chosen_customer_number(own: Seq<char>, given: Option<String>) -> Seq<char> {
    match given {
        Some(c) => c@,
        None => own,
    }
}

/// `/rest/v1/{customer_number}/fax`: where jobs are submitted.
pub open spec fn fax_send_path(customer_number: Seq<char>) -> Seq<char> {
    "/rest/v1/"@ + customer_number + "/fax"@
}

/// `/rest/v1/{customer_number}/fax/reports/{job_id}`: the report of one job.
pub open spec fn fax_report_path(customer_number: Seq<char>, job_id: Seq<char>) -> Seq<char> {
    "/rest/v1/"@ + customer_number + "/fax/reports/"@ + job_id
}

/// `/rest/v1/{customer_number}/fax/reports`: the reports in bulk.
pub open spec fn fax_reports_path(customer_number: Seq<char>) -> Seq<char> {
    "/rest/v1/"@ + customer_number + "/fax/reports"@
}

/// A fax client: its credentials, the servers of its region and its
/// customer number. Each operation is a [`CandidateWalk`] that the caller
/// drives with the HTTP calls it asks for.
pub struct ClientSDK {
    pub credentials: Credentials,
    pub region_uri: RegionUri,
    pub customer_number: String,
}

impl ClientSDK {
    /// A builder set to Europe, placeholder credentials and an empty customer number.
    pub fn builder() -> (r: ClientSDKBuilder)
        ensures
            r.region is Europe,
            r.credentials.username@ == "exmapleUsername"@,
            r.credentials.password@ == "yourPassword"@,
            r.customer_number@.len() == 0,
    {
        ClientSDKBuilder::default()
    }

    /// The customer number of a call: `customer_number` when given, which
    /// overrides the client's own.
    pub fn customer_number_for(&self, customer_number: Option<String>) -> (r: String)
        ensures
            r@ == chosen_customer_number(self.customer_number@, customer_number),
    {
        match customer_number {
            Some(c) => c,
            None => self.customer_number.clone(),
        }
    }

    /// Sending a job: one POST to the primary address, never repeated elsewhere.
    pub fn send_job_walk(&self, customer_number: Option<String>) -> (w: CandidateWalk)
        ensures
            submits_to(
                w,
                self.region_uri.ha_addr@ + fax_send_path(
                    chosen_customer_number(self.customer_number@, customer_number),
                ),
            ),
    {
        let cn = self.customer_number_for(customer_number);
        let mut uri = self.region_uri.ha_addr.clone();
        uri.append("/rest/v1/");
        uri.append(cn.as_str());
        uri.append("/fax");
        assert(uri@ =~= self.region_uri.ha_addr@ + fax_send_path(cn@));
        CandidateWalk::submit(uri)
    }

    /// Getting or deleting the report of one job: a walk over the candidate
    /// servers.
    pub fn report_walk(&self, job_id: &str, customer_number: Option<String>) -> (w: CandidateWalk)
        ensures
            queries_servers(
                w,
                self.region_uri.servers@,
                fax_report_path(chosen_customer_number(self.customer_number@, customer_number), job_id@),
            ),
    {
        let cn = self.customer_number_for(customer_number);
        let mut path = String::from_str("/rest/v1/");
        path.append(cn.as_str());
        path.append("/fax/reports/");
        path.append(job_id);
        CandidateWalk::query(uris_with_path(&self.region_uri.servers, path.as_str()))
    }

    /// Getting, deleting or pruning reports in bulk: a walk over the
    /// candidate servers.
    pub fn reports_walk(&self, customer_number: Option<String>) -> (w: CandidateWalk)
        ensures
            queries_servers(
                w,
                self.region_uri.servers@,
                fax_reports_path(chosen_customer_number(self.customer_number@, customer_number)),
            ),
    {
        let cn = self.customer_number_for(customer_number);
        let mut path = String::from_str("/rest/v1/");
        path.append(cn.as_str());
        path.append("/fax/reports");
        CandidateWalk::query(uris_with_path(&self.region_uri.servers, path.as_str()))
    }

    /// The body that asks for the reports of the given jobs.
    pub fn bulk_get_request(job_ids: Vec<String>) -> (r: ReportsAction)
        ensures
            r.action@ == "GET"@,
            r.job_ids == job_ids,
    {
        ReportsAction { action: String::from_str("GET"), job_ids }
    }

    /// The body that deletes the reports of the given jobs.
    pub fn bulk_delete_request(job_ids: Vec<String>) -> (r: ReportsAction)
        ensures
            r.action@ == "DELETE"@,
            r.job_ids == job_ids,
    {
        ReportsAction { action: String::from_str("DELETE"), job_ids }
    }
}

/// Collects the settings of a [`ClientSDK`].
#[derive(Debug, Clone)]
pub struct ClientSDKBuilder {
    pub region: Region,
    pub credentials: Credentials,
    pub customer_number: String,
}

impl ClientSDKBuilder {
    /// Europe, placeholder credentials and an empty customer number.
    pub fn default() -> (r: ClientSDKBuilder)
        ensures
            r.region is Europe,
            r.credentials.username@ == "exmapleUsername"@,
            r.credentials.password@ == "yourPassword"@,
            r.customer_number@.len() == 0,
    {
        ClientSDKBuilder {
            region: Region::Europe,
            credentials: Credentials::default(),
            customer_number: String::new(),
        }
    }

    pub fn set_credentiale(self, credentials: Credentials) -> (r: ClientSDKBuilder)
        ensures
            r.credentials == credentials,
            r.region == self.region,
            r.customer_number == self.customer_number,
    {
        ClientSDKBuilder { credentials, ..self }
    }

    pub fn set_region(self, region: Region) -> (r: ClientSDKBuilder)
        ensures
            r.region == region,
            r.credentials == self.credentials,
            r.customer_number == self.customer_number,
    {
        ClientSDKBuilder { region, ..self }
    }

    pub fn set_customer_number(self, customer_number: String) -> (r: ClientSDKBuilder)
        ensures
            r.customer_number == customer_number,
            r.region == self.region,
            r.credentials == self.credentials,
    {
        ClientSDKBuilder { customer_number, ..self }
    }

    /// The client for the chosen region, credentials and customer number.
    pub fn build(self) -> (r: ClientSDK)
        ensures
            r.credentials == self.credentials,
            r.customer_number == self.customer_number,
            r.region_uri.ha_addr@ == region_primary(self.region),
            addresses(r.region_uri.servers@) == region_servers(self.region),
            r.region_uri.servers@.len() == region_servers(self.region).len(),
            forall|i: int|
                0 <= i < r.region_uri.servers@.len() ==> #[trigger] r.region_uri.servers@[i]@
                    == region_servers(self.region)[i],
    {
        ClientSDK {
            credentials: self.credentials,
            region_uri: determine_region_uri(self.region),
            customer_number: self.customer_number,
        }
    }
}

} // verus!
