//! A document attached to a fax.
use vstd::prelude::*;
use vstd::string::StringExecFns;
use crate::common::encoding::{base64_bytes, base64_standard, base64_text, lemma_base64_round_trip};

verus! {

/// An attachment of a fax (pdf, txt and so on): its name, its content as
/// base64 text, and its character set.
#[derive(Debug, Clone)]
pub struct Document {
    pub name: String,
    pub data: String,
    pub charset: String,
}

/// `doc` is the document made of `name`, the bytes `data` and the character
/// set `charset`, which is `utf-8` when none is given.
pub open spec fn built_from(doc: Document, name: String, data: Seq<u8>, charset: Option<String>) -> bool {
    &&& doc.name == name
    &&& doc.data@ == base64_text(data)
    &&& match charset {
        Some(c) => doc.charset == c,
        None => doc.charset@ == "utf-8"@,
    }
}

impl Document {
    /// Makes a document from raw bytes; the character set defaults to `utf-8`.
    pub fn new(name: String, data: Vec<u8>, charset: Option<String>) -> (r: Document)
        ensures
            built_from(r, name, data@, charset),
    {
        let processed_data = base64_standard(data.as_slice());
        let chars = match charset {
            Some(c) => c,
            None => String::from_str("utf-8"),
        };
        Document { name, data: processed_data, charset: chars }
    }
}

/// A document made from bytes `b` carries them intact: decoding its content
/// gives back `b`, and without a character set it says `utf-8`.
pub proof fn lemma_document_round_trip(doc: Document, name: String, b: Seq<u8>)
    requires
        built_from(doc, name, b, None),
    ensures
        base64_bytes(doc.data@) == b,
        doc.charset@ == "utf-8"@,
{
    lemma_base64_round_trip(b);
}

} // verus!
