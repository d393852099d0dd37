//! The Webexpress client: where lists are uploaded, with whose login.
use vstd::prelude::*;
use vstd::string::StringExecFns;
use crate::common::creds::Credentials;
use crate::general::uri::{addresses, Region, RegionUri};
use crate::webexpress::job::WebexpressJob;

verus! {

/// The Webexpress portal: a primary address and no candidates of its own.
pub open spec fn webexpress_region_uri(r: RegionUri) -> bool {
    &&& r.region is Europe
    &&& r.ha_addr@ == "https://webexpress.retarus.com"@
    &&& addresses(r.servers@) == seq![Seq::<char>::empty()]
}

/// A Webexpress client: the portal's address and the login used for uploads.
pub struct WebexpressClient {
    pub region_uri: RegionUri,
    pub credentials: Credentials,
}

impl WebexpressClient {
    /// A builder set to Europe, with empty credentials.
    pub fn builder() -> (r: WebExpressBuilder)
        ensures
            r.region is Europe,
            r.region_uris@.len() == 1,
            webexpress_region_uri(r.region_uris@[0]),
            r.credentails.username@.len() == 0,
            r.credentails.password@.len() == 0,
    {
        let uri = RegionUri::new(Region::Europe, "https://webexpress.retarus.com", vec![""]);
        proof {
            reveal_strlit("");
        }
        assert(uri.servers@[0]@ =~= Seq::<char>::empty());
        assert(addresses(uri.servers@) =~= seq![Seq::<char>::empty()]);
        WebExpressBuilder { region: Region::Europe, region_uris: vec![uri], credentails: Credentials::new("", "") }
    }

    /// `{primary}/PicoPortal/autoLogin/listImport`: where lists are uploaded.
    pub fn upload_uri(&self) -> (r: String)
        ensures
            r@ == self.region_uri.ha_addr@ + "/PicoPortal/autoLogin/listImport"@,
    {
        let mut uri = self.region_uri.ha_addr.clone();
        uri.append("/PicoPortal/autoLogin/listImport");
        uri
    }

    /// The job as it is uploaded: with the client's login when the client
    /// has a username, else as given.
    pub fn prepare_job(&self, job: WebexpressJob) -> (r: WebexpressJob)
        ensures
            self.credentials.username@.len() > 0 ==> r == (WebexpressJob {
                j_username: Some(self.credentials.username),
                j_password: Some(self.credentials.password),
                ..job
            }),
            self.credentials.username@.len() == 0 ==> r == job,
    {
        let mut job = job;
        if self.credentials.username.as_str().is_empty() {
            job
        } else {
            job.j_username = Some(self.credentials.username.clone());
            job.j_password = Some(self.credentials.password.clone());
            job
        }
    }
}

/// Collects the settings of a [`WebexpressClient`].
pub struct WebExpressBuilder {
    pub region: Region,
    pub region_uris: Vec<RegionUri>,
    pub credentails: Credentials,
}

impl WebExpressBuilder {
    pub fn set_credentiale(self, credentails: Credentials) -> (r: WebExpressBuilder)
        ensures
            r.credentails == credentails,
            r.region == self.region,
            r.region_uris == self.region_uris,
    {
        WebExpressBuilder { credentails, ..self }
    }

    pub fn set_region(self, region: Region) -> (r: WebExpressBuilder)
        ensures
            r.region == region,
            r.credentails == self.credentails,
            r.region_uris == self.region_uris,
    {
        WebExpressBuilder { region, ..self }
    }

    /// The client. The portal runs in Europe only and needs a password: a
    /// builder without either cannot build one.
    pub fn build(self) -> (r: WebexpressClient)
        requires
            self.credentails.password@.len() > 0,
            self.region is Europe,
            self.region_uris@.len() > 0,
        ensures
            r.credentials == self.credentails,
            r.region_uri == self.region_uris@[0],
    {
        let mut uris = self.region_uris;
        let first = uris.remove(0);
        WebexpressClient { region_uri: first, credentials: self.credentails }
    }
}

} // verus!
