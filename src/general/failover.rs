//! The walk over candidate servers: which server is called next, and when
//! the walk stops with a result.
//!
//! A submission is sent once, to the primary address, and any reply ends
//! it. A query walks the candidate servers in the order given: a 200 or 201
//! ends it with the body, a 404 moves on to the next candidate, any other
//! status or a transport failure ends it at once, and running out of
//! candidates ends it with [`ClientError::NoReportFound`].
use vstd::prelude::*;

verus! {

/// What one HTTP call gave back.
#[derive(Debug, Clone)]
pub enum Reply {
    /// The server answered with this status code and body.
    Answered { status: u16, body: String },
    /// The request could not be sent, or its answer could not be read.
    Unreachable { reason: String },
}

/// Why an operation failed.
#[derive(Debug, Clone)]
pub enum ClientError {
    /// The connection or the request failed before a status was read.
    Transport(String),
    /// The server answered with a status other than 200, 201 or 404; the
    /// body is its error text.
    Server { status: u16, body: String },
    /// Every candidate server answered 404.
    NoReportFound,
    /// The body of a successful answer did not have the expected shape.
    Decode(String),
}

/// The two ways of calling the servers of a region.
#[derive(Debug, Clone, Copy, PartialEq, Eq, Structural)]
pub enum Policy {
    /// Sent once to one address; never repeated elsewhere.
    Submit,
    /// Walked over the candidate servers while they answer 404.
    Query,
}

/// What the caller does next.
#[derive(Debug)]
pub enum Step {
    /// Call this URI and hand its reply to [`CandidateWalk::advance`].
    Call(String),
    /// The walk is over: the body of the successful answer, or the failure.
    Finished(Result<String, ClientError>),
}

/// What a reply means for the walk.
pub enum Verdict {
    Accept(String),
    MoveOn,
    Fail(ClientError),
}

/// 200 and 201 are success.
pub open spec fn is_success(status: u16) -> bool {
    status == 200 || status == 201
}

/// How a reply is read under a policy: success gives the body; a 404 under
/// a query moves on; anything else is a terminal failure.
pub open spec fn verdict_of(policy: Policy, reply: Reply) -> Verdict {
    match reply {
        Reply::Answered { status, body } => if is_success(status) {
            Verdict::Accept(body)
        } else if status == 404 && policy == Policy::Query {
            Verdict::MoveOn
        } else {
            Verdict::Fail(ClientError::Server { status, body })
        },
        Reply::Unreachable { reason } => Verdict::Fail(ClientError::Transport(reason)),
    }
}

/// The step that a reply leads to, and the walk after it.
pub open spec fn advanced(before: CandidateWalk, reply: Reply, after: CandidateWalk, step: Step) -> bool {
    &&& after.policy_spec() == before.policy_spec()
    &&& after.uris_spec() == before.uris_spec()
    &&& match verdict_of(before.policy_spec(), reply) {
        Verdict::Accept(body) => {
            &&& step == Step::Finished(Ok(body))
            &&& after.finished_spec()
            &&& after.calls_spec() == before.calls_spec()
        },
        Verdict::Fail(e) => {
            &&& step == Step::Finished(Err(e))
            &&& after.finished_spec()
            &&& after.calls_spec() == before.calls_spec()
        },
        Verdict::MoveOn => if before.calls_spec() < before.uris_spec().len() {
            &&& step == Step::Call(before.uris_spec()[before.calls_spec() as int])
            &&& after.calls_spec() == before.calls_spec() + 1
            &&& !after.finished_spec()
        } else {
            &&& step == Step::Finished(Err(ClientError::NoReportFound))
            &&& after.calls_spec() == before.calls_spec()
            &&& after.finished_spec()
        },
    }
}

/// The first step of a walk, and the walk after it.
pub open spec fn begun(before: CandidateWalk, after: CandidateWalk, step: Step) -> bool {
    &&& after.policy_spec() == before.policy_spec()
    &&& after.uris_spec() == before.uris_spec()
    &&& before.uris_spec().len() > 0 ==> {
        &&& step == Step::Call(before.uris_spec()[0])
        &&& after.calls_spec() == 1
        &&& !after.finished_spec()
    }
    &&& before.uris_spec().len() == 0 ==> {
        &&& step == Step::Finished(Err(ClientError::NoReportFound))
        &&& after.finished_spec()
    }
}

/// A walk over a list of URIs, one per candidate server.
pub struct CandidateWalk {
    policy: Policy,
    uris: Vec<String>,
    calls: usize,
    finished: bool,
}

impl CandidateWalk {
    pub closed spec fn policy_spec(&self) -> Policy {
        self.policy
    }

    /// The URIs, in the order they are called.
    pub closed spec fn uris_spec(&self) -> Seq<String> {
        self.uris@
    }

    /// How many calls the walk has asked for so far.
    pub closed spec fn calls_spec(&self) -> nat {
        self.calls as nat
    }

    /// Whether the walk has handed out its result.
    pub closed spec fn finished_spec(&self) -> bool {
        self.finished
    }

    pub closed spec fn wf(&self) -> bool {
        &&& self.calls <= self.uris@.len()
        &&& self.policy == Policy::Submit ==> self.uris@.len() == 1
    }

    /// A walk over the candidate URIs, in the order given.
    pub fn query(uris: Vec<String>) -> (r: CandidateWalk)
        ensures
            r.wf(),
            r.policy_spec() == Policy::Query,
            r.uris_spec() == uris@,
            r.calls_spec() == 0,
            !r.finished_spec(),
    {
        CandidateWalk { policy: Policy::Query, uris, calls: 0, finished: false }
    }

    /// A single call to one URI, whatever its reply.
    pub fn submit(uri: String) -> (r: CandidateWalk)
        ensures
            r.wf(),
            r.policy_spec() == Policy::Submit,
            r.uris_spec() == seq![uri],
            r.calls_spec() == 0,
            !r.finished_spec(),
    {
        CandidateWalk { policy: Policy::Submit, uris: vec![uri], calls: 0, finished: false }
    }

    pub fn policy(&self) -> (r: Policy)
        ensures
            r == self.policy_spec(),
    {
        self.policy
    }

    /// How many calls the walk has asked for so far.
    pub fn calls(&self) -> (r: usize)
        ensures
            r == self.calls_spec(),
    {
        self.calls
    }

    pub fn is_finished(&self) -> (r: bool)
        ensures
            r == self.finished_spec(),
    {
        self.finished
    }

    /// Asks for the call to the next candidate, or, with none left, ends the
    /// walk with [`ClientError::NoReportFound`].
    fn next_call(&mut self) -> (step: Step)
        requires
            old(self).wf(),
            !old(self).finished_spec(),
        ensures
            final(self).wf(),
            final(self).policy_spec() == old(self).policy_spec(),
            final(self).uris_spec() == old(self).uris_spec(),
            old(self).calls_spec() < old(self).uris_spec().len() ==> {
                &&& step == Step::Call(old(self).uris_spec()[old(self).calls_spec() as int])
                &&& final(self).calls_spec() == old(self).calls_spec() + 1
                &&& !final(self).finished_spec()
            },
            old(self).calls_spec() >= old(self).uris_spec().len() ==> {
                &&& step == Step::Finished(Err(ClientError::NoReportFound))
                &&& final(self).calls_spec() == old(self).calls_spec()
                &&& final(self).finished_spec()
            },
    {
        if self.calls < self.uris.len() {
            let uri = self.uris[self.calls].clone();
            self.calls = self.calls + 1;
            Step::Call(uri)
        } else {
            self.finished = true;
            Step::Finished(Err(ClientError::NoReportFound))
        }
    }

    /// The first step: the call to the first candidate, or
    /// [`ClientError::NoReportFound`] when there is none.
    pub fn begin(&mut self) -> (step: Step)
        requires
            old(self).wf(),
            old(self).calls_spec() == 0,
            !old(self).finished_spec(),
        ensures
            final(self).wf(),
            final(self).policy_spec() == old(self).policy_spec(),
            final(self).uris_spec() == old(self).uris_spec(),
            begun(*old(self), *final(self), step),
    {
        self.next_call()
    }

    /// Takes the reply to the call just made and says what comes next.
    pub fn advance(&mut self, reply: Reply) -> (step: Step)
        requires
            old(self).wf(),
            old(self).calls_spec() > 0,
            !old(self).finished_spec(),
        ensures
            final(self).wf(),
            final(self).policy_spec() == old(self).policy_spec(),
            final(self).uris_spec() == old(self).uris_spec(),
            advanced(*old(self), reply, *final(self), step),
    {
        match reply {
            Reply::Answered { status, body } => {
                if status == 200 || status == 201 {
                    self.finished = true;
                    Step::Finished(Ok(body))
                } else if status == 404 && self.policy == Policy::Query {
                    self.next_call()
                } else {
                    self.finished = true;
                    Step::Finished(Err(ClientError::Server { status, body }))
                }
            },
            Reply::Unreachable { reason } => {
                self.finished = true;
                Step::Finished(Err(ClientError::Transport(reason)))
            },
        }
    }
}

/// `w` is a fresh submission to the address `addr`.
pub open spec fn submits_to(w: CandidateWalk, addr: Seq<char>) -> bool {
    &&& w.wf()
    &&& w.policy_spec() == Policy::Submit
    &&& w.calls_spec() == 0
    &&& !w.finished_spec()
    &&& w.uris_spec().len() == 1
    &&& w.uris_spec()[0]@ == addr
}

/// `w` is a fresh query over `servers`, in their order, each address
/// followed by `path`.
pub open spec fn queries_servers(w: CandidateWalk, servers: Seq<String>, path: Seq<char>) -> bool {
    &&& w.wf()
    &&& w.policy_spec() == Policy::Query
    &&& w.calls_spec() == 0
    &&& !w.finished_spec()
    &&& w.uris_spec().len() == servers.len()
    &&& forall|i: int| 0 <= i < servers.len() ==> #[trigger] w.uris_spec()[i]@ == servers[i]@ + path
}

/// A submission is called exactly once, against the address it was made
/// with: its first step calls that address, and after the reply to that
/// call, whatever the reply is, the walk is over with one call made.
pub proof fn lemma_submit_calls_once(
    uri: String,
    start: CandidateWalk,
    first_step: Step,
    waiting: CandidateWalk,
    reply: Reply,
    last_step: Step,
    done: CandidateWalk,
)
    requires
        start.wf(),
        start.policy_spec() == Policy::Submit,
        start.uris_spec() == seq![uri],
        start.calls_spec() == 0,
        !start.finished_spec(),
        begun(start, waiting, first_step),
        advanced(waiting, reply, done, last_step),
    ensures
        first_step == Step::Call(uri),
        last_step is Finished,
        done.finished_spec(),
        done.calls_spec() == 1,
{
}

} // verus!
