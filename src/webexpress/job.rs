//! A distribution list upload and the form fields it is sent as.
use vstd::prelude::*;
use vstd::string::StringExecFns;

verus! {

/// A distribution list to import: its name, comment, type, the path of the
/// file that holds it, its character set and default country code.
#[derive(Debug, Clone)]
pub struct WebexpressJob {
    pub j_username: Option<String>,
    pub j_password: Option<String>,
    pub dlu_listname: String,
    pub dlu_listcomment: String,
    pub dlu_type: String,
    pub dlu_file: String,
    pub dlu_charset: String,
    pub dlu_visibility: Option<String>,
    pub dlu_defaultcountrycode: String,
    pub dlu_firstrowcolumnnames: String,
}

/// The text fields of the upload form, in the order they are sent; the file
/// itself is sent as the part `dlu_file`.
pub open spec fn form_text_fields(job: WebexpressJob) -> Seq<(Seq<char>, Seq<char>)> {
    seq![
        ("j_username"@, job.j_username.unwrap()@),
        ("j_password"@, job.j_password.unwrap()@),
        ("dlu_listcomment"@, job.dlu_listcomment@),
        ("dlu_listname"@, job.dlu_listname@),
        ("dlu_type"@, job.dlu_type@),
        ("dlu_charset"@, job.dlu_charset@),
        ("dlu_visibility"@, "company"@),
        ("dlu_defaultcountrycode"@, job.dlu_defaultcountrycode@),
        ("dlu_firstrowcolumnnames"@, job.dlu_firstrowcolumnnames@),
    ]
}

/// The text of each name and value.
pub open spec fn field_texts(v: Seq<(String, String)>) -> Seq<(Seq<char>, Seq<char>)> {
    v.map_values(|f: (String, String)| (f.0@, f.1@))
}

fn field(name: &str, value: &String) -> (r: (String, String))
    ensures
        r.0@ == name@,
        r.1@ == value@,
{
    (String::from_str(name), value.clone())
}

impl WebexpressJob {
    pub fn builder() -> (r: WebexpressJobBuilder)
        ensures
            empty_settings(r),
    {
        WebexpressJobBuilder::default()
    }

    /// A job with everything the server needs; the first row of the file
    /// names the columns.
    pub fn minimal(
        listname: String,
        listcomment: String,
        list_type: String,
        file_path: String,
        charset: String,
        default_country_code: String,
    ) -> (r: WebexpressJob)
        ensures
            r.j_username is None,
            r.j_password is None,
            r.dlu_listname == listname,
            r.dlu_listcomment == listcomment,
            r.dlu_type == list_type,
            r.dlu_file == file_path,
            r.dlu_charset == charset,
            r.dlu_visibility is None,
            r.dlu_defaultcountrycode == default_country_code,
            r.dlu_firstrowcolumnnames@ == "on"@,
    {
        WebexpressJob {
            j_username: None,
            j_password: None,
            dlu_listname: listname,
            dlu_listcomment: listcomment,
            dlu_type: list_type,
            dlu_file: file_path,
            dlu_charset: charset,
            dlu_visibility: None,
            dlu_defaultcountrycode: default_country_code,
            dlu_firstrowcolumnnames: String::from_str("on"),
        }
    }

    /// The text fields of the upload form. The login fields must be set;
    /// the list is always visible to the whole company.
    pub fn form_fields(&self) -> (r: Vec<(String, String)>)
        requires
            self.j_username is Some,
            self.j_password is Some,
        ensures
            field_texts(r@) == form_text_fields(*self),
    {
        let (user, password) = match (&self.j_username, &self.j_password) {
            (Some(u), Some(p)) => (u, p),
            _ => {
                assert(false);
                return Vec::new();
            },
        };
        let company = String::from_str("company");
        let r = vec![
            field("j_username", user),
            field("j_password", password),
            field("dlu_listcomment", &self.dlu_listcomment),
            field("dlu_listname", &self.dlu_listname),
            field("dlu_type", &self.dlu_type),
            field("dlu_charset", &self.dlu_charset),
            field("dlu_visibility", &company),
            field("dlu_defaultcountrycode", &self.dlu_defaultcountrycode),
            field("dlu_firstrowcolumnnames", &self.dlu_firstrowcolumnnames),
        ];
        assert(field_texts(r@) =~= form_text_fields(*self));
        r
    }
}

/// Every setting unset or empty.
pub open spec fn empty_settings(b: WebexpressJobBuilder) -> bool {
    &&& b.j_username is None
    &&& b.j_password is None
    &&& b.dlu_visibility is None
    &&& b.dlu_listname@.len() == 0
    &&& b.dlu_listcomment@.len() == 0
    &&& b.dlu_type@.len() == 0
    &&& b.dlu_file@.len() == 0
    &&& b.dlu_charset@.len() == 0
    &&& b.dlu_defaultcountrycode@.len() == 0
    &&& b.dlu_firstrowcolumnnames@.len() == 0
}

/// The settings of a [`WebexpressJob`], all empty to start with.
#[derive(Debug, Clone)]
pub struct WebexpressJobBuilder {
    pub j_username: Option<String>,
    pub j_password: Option<String>,
    pub dlu_listname: String,
    pub dlu_listcomment: String,
    pub dlu_type: String,
    pub dlu_file: String,
    pub dlu_charset: String,
    pub dlu_visibility: Option<String>,
    pub dlu_defaultcountrycode: String,
    pub dlu_firstrowcolumnnames: String,
}

impl WebexpressJobBuilder {
    pub fn default() -> (r: WebexpressJobBuilder)
        ensures
            empty_settings(r),
    {
        WebexpressJobBuilder {
            j_username: None,
            j_password: None,
            dlu_listname: String::new(),
            dlu_listcomment: String::new(),
            dlu_type: String::new(),
            dlu_file: String::new(),
            dlu_charset: String::new(),
            dlu_visibility: None,
            dlu_defaultcountrycode: String::new(),
            dlu_firstrowcolumnnames: String::new(),
        }
    }
}

} // verus!
