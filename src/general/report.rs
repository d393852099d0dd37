//! The fax report records that the servers send back.
use vstd::prelude::*;

verus! {

/// A list of reports in the SOAP layout.
#[derive(Debug, Clone)]
pub struct ReportResponse {
    pub reports: Vec<SoapReport>,
}

/// One report in the SOAP layout.
#[derive(Debug, Clone)]
pub struct SoapReport {
    pub job_id: String,
    pub fax_recipient: Vec<RecipientStatus>,
    pub document: crate::fax::document::Document,
    pub options: FaxOptions,
    pub pages: u16,
}

/// The delivery report of one fax job.
#[derive(Debug, Clone)]
pub struct Report {
    pub job_id: String,
    pub recipient_status: Vec<Option<RecipientStatus>>,
    pub pages: u16,
    pub reference: Reference,
}

#[derive(Debug, Clone)]
pub struct Reference {
    pub customer_defined_id: String,
    pub billing_code: Option<String>,
    pub billing_info: Option<String>,
}

/// How the fax fared for one recipient.
#[derive(Debug, Clone)]
pub struct RecipientStatus {
    pub number: String,
    pub alternative_number: Option<String>,
    pub properties: Option<String>,
    pub status: String,
    pub reason: String,
    pub send_ts: Option<String>,
    pub duration_in_secs: u16,
    pub sent_to_number: Option<String>,
    pub remote_csid: Option<String>,
}

/// The body of a bulk request: an action (`GET` or `DELETE`) on a list of jobs.
#[derive(Debug, Clone)]
pub struct ReportsAction {
    pub action: String,
    pub job_ids: Vec<String>,
}

#[derive(Debug, Clone)]
pub struct FaxOptions {
    pub resolution: String,
    pub csid: String,
    pub header: String,
    pub is_blacklist_enabled: bool,
    pub is_express: bool,
    pub overlay: Overlay,
    pub coverpage_template_name: String,
    pub schedule_ts: String,
    pub job_expirey_minutes: String,
    pub job_reference: String,
}

#[derive(Debug, Clone)]
pub struct Overlay {
    pub name: String,
    pub mode: String,
}

} // verus!
