//! A fax job: the numbers to send to and the documents to send.
use vstd::prelude::*;
use crate::fax::document::Document;

verus! {

/// A fax job, as transmitted to the server to send a fax.
#[derive(Debug, Clone)]
pub struct Job {
    /// Every number that should receive the fax.
    pub recipients: Vec<Number>,
    /// The documents sent to those numbers.
    pub documents: Vec<Document>,
}

/// A recipient's fax number.
#[derive(Debug, Clone)]
pub struct Number {
    pub number: String,
}

/// The numbers held by a list of recipients.
pub open spec fn numbers_of(v: Seq<Number>) -> Seq<Seq<char>> {
    v.map_values(|n: Number| n.number@)
}

/// The text of a list of strings.
pub open spec fn texts_of(v: Seq<String>) -> Seq<Seq<char>> {
    v.map_values(|s: String| s@)
}

impl Job {
    fn new(numbers: Vec<Number>, documents: Vec<Document>) -> (r: Job)
        ensures
            r.recipients@ == numbers@,
            r.documents@ == documents@,
    {
        Job { recipients: numbers, documents }
    }

    pub fn builder() -> (r: JobBuilder)
        ensures
            r.recipients@.len() == 0,
            r.documents@.len() == 0,
    {
        JobBuilder::default()
    }
}

/// Builds a [`Job`] step by step.
pub struct JobBuilder {
    pub recipients: Vec<Number>,
    pub documents: Vec<Document>,
}

impl JobBuilder {
    /// A builder with no recipients and no documents.
    pub fn default() -> (r: JobBuilder)
        ensures
            r.recipients@.len() == 0,
            r.documents@.len() == 0,
    {
        JobBuilder { recipients: Vec::new(), documents: Vec::new() }
    }

    /// Adds each of the numbers, in order, after those already there.
    pub fn add_recipients(self, recipients: Vec<String>) -> (r: JobBuilder)
        ensures
            numbers_of(r.recipients@) == numbers_of(self.recipients@) + texts_of(recipients@),
            r.documents@ == self.documents@,
    {
        let mut b = self;
        let ghost start = numbers_of(b.recipients@);
        let mut i: usize = 0;
        while i < recipients.len()
            invariant
                i <= recipients@.len(),
                numbers_of(b.recipients@) == start + texts_of(recipients@.take(i as int)),
                b.documents@ == self.documents@,
            decreases recipients@.len() - i,
        {
            let ghost prev = numbers_of(b.recipients@);
            let n = Number { number: recipients[i].clone() };
            b.recipients.push(n);
            assert(numbers_of(b.recipients@) =~= prev.push(recipients@[i as int]@));
            i = i + 1;
            assert(texts_of(recipients@.take(i as int)) =~= texts_of(recipients@.take(i - 1))
                + seq![recipients@[i - 1]@]);
            assert(numbers_of(b.recipients@) =~= start + texts_of(recipients@.take(i as int)));
        }
        assert(recipients@.take(i as int) =~= recipients@);
        b
    }

    /// Adds one number after those already there.
    pub fn add_recipient(self, recipient: String) -> (r: JobBuilder)
        ensures
            numbers_of(r.recipients@) == numbers_of(self.recipients@).push(recipient@),
            r.documents@ == self.documents@,
    {
        let mut b = self;
        b.recipients.push(Number { number: recipient });
        assert(numbers_of(b.recipients@) =~= numbers_of(self.recipients@).push(recipient@));
        b
    }

    /// Adds one document after those already there.
    pub fn add_document(self, doc: Document) -> (r: JobBuilder)
        ensures
            r.documents@ == self.documents@.push(doc),
            r.recipients@ == self.recipients@,
    {
        let mut b = self;
        b.documents.push(doc);
        b
    }

    /// Replaces the documents by the given list.
    pub fn add_documents(self, docs: Vec<Document>) -> (r: JobBuilder)
        ensures
            r.documents@ == docs@,
            r.recipients@ == self.recipients@,
    {
        let mut b = self;
        b.documents = docs;
        b
    }

    /// The job made of the numbers and documents given so far.
    pub fn build(self) -> (r: Job)
        ensures
            r.recipients@ == self.recipients@,
            r.documents@ == self.documents@,
    {
        Job::new(self.recipients, self.documents)
    }
}

} // verus!
