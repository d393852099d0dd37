//! Username and password, and the Basic-auth token made from them.
use vstd::prelude::*;
use vstd::utf8::{decode_utf8, encode_utf8, encode_utf8_decode_utf8};
use vstd::string::StringExecFns;
use crate::common::encoding::{base64_standard, base64_text, lemma_base64_injective};

verus! {

/// The token sent in the `Authorization` header: the base64 text of the
/// UTF-8 bytes of `username:password`.
pub open spec fn credential_token(username: Seq<char>, password: Seq<char>) -> Seq<char> {
    base64_text(encode_utf8(username + seq![':'] + password))
}

/// The value of the `Authorization` header for a credential token.
pub open spec fn basic_authorization(username: Seq<char>, password: Seq<char>) -> Seq<char> {
    "Basic "@ + credential_token(username, password)
}

/// Two credential pairs whose usernames hold no `:` have the same token
/// exactly when they are the same pair; and, being a spec function of the
/// pair, the token is the same on every call.
pub proof fn lemma_token_identifies_credentials(
    u1: Seq<char>,
    p1: Seq<char>,
    u2: Seq<char>,
    p2: Seq<char>,
)
    requires
        !u1.contains(':'),
        !u2.contains(':'),
    ensures
        credential_token(u1, p1) == credential_token(u2, p2) <==> (u1 == u2 && p1 == p2),
{
    let x1 = u1 + seq![':'] + p1;
    let x2 = u2 + seq![':'] + p2;
    if credential_token(u1, p1) == credential_token(u2, p2) {
        lemma_base64_injective(encode_utf8(x1), encode_utf8(x2));
        encode_utf8_decode_utf8(x1);
        encode_utf8_decode_utf8(x2);
        assert(x1 == x2);
        if u1.len() < u2.len() {
            assert(x1[u1.len() as int] == ':');
            assert(x2[u1.len() as int] == u2[u1.len() as int]);
            assert(u2.contains(u2[u1.len() as int]));
        } else if u2.len() < u1.len() {
            assert(x2[u2.len() as int] == ':');
            assert(x1[u2.len() as int] == u1[u2.len() as int]);
            assert(u1.contains(u1[u2.len() as int]));
        }
        assert(u1 =~= x1.take(u1.len() as int));
        assert(u2 =~= x2.take(u2.len() as int));
        assert(p1 =~= x1.skip(u1.len() as int + 1));
        assert(p2 =~= x2.skip(u2.len() as int + 1));
    }
}

/// The username and password that authorize the requests sent to the server.
#[derive(Debug, Clone)]
pub struct Credentials {
    pub username: String,
    pub password: String,
}

impl Credentials {
    pub fn new(username: &str, password: &str) -> (r: Credentials)
        ensures
            r.username@ == username@,
            r.password@ == password@,
    {
        Credentials { username: String::from_str(username), password: String::from_str(password) }
    }

    /// Placeholder credentials, to be replaced before any request is sent.
    pub fn default() -> (r: Credentials)
        ensures
            r.username@ == "exmapleUsername"@,
            r.password@ == "yourPassword"@,
    {
        Credentials::new("exmapleUsername", "yourPassword")
    }

    /// The Basic-auth token: `username:password`, base64-encoded.
    pub fn encode(self) -> (r: String)
        ensures
            r@ == credential_token(self.username@, self.password@),
    {
        let mut joined = self.username;
        joined.append(":");
        joined.append(self.password.as_str());
        proof {
            reveal_strlit(":");
        }
        assert(joined@ =~= self.username@ + seq![':'] + self.password@);
        base64_standard(joined.as_str().as_bytes())
    }

    /// The full value of the `Authorization` header: `Basic <token>`.
    pub fn authorization(&self) -> (r: String)
        ensures
            r@ == basic_authorization(self.username@, self.password@),
    {
        let copy = Credentials::new(self.username.as_str(), self.password.as_str());
        let token = copy.encode();
        let mut header = String::from_str("Basic ");
        header.append(token.as_str());
        header
    }
}

impl PartialEq for Credentials {
    fn eq(&self, other: &Credentials) -> (r: bool)
        ensures
            r == (self.username@ == other.username@ && self.password@ == other.password@),
    {
        self.username == other.username && self.password == other.password
    }
}

impl vstd::std_specs::cmp::PartialEqSpecImpl for Credentials {
    open spec fn obeys_eq_spec() -> bool {
        true
    }

    open spec fn eq_spec(&self, other: &Credentials) -> bool {
        self.username@ == other.username@ && self.password@ == other.password@
    }
}

} // verus!
