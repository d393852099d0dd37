//! SMS jobs, their options and reports, and the filter of a job listing.
use vstd::prelude::*;
use vstd::string::StringExecFns;
use crate::common::decimal::{bool_text, decimal, push_bool, push_decimal, push_signed_decimal, signed_decimal};

verus! {

/// The most messages that one SMS job holds.
pub const MAX_MESSAGES: usize = 3;

/// How an SMS job is processed, overriding the defaults of the account.
#[derive(Debug, Clone)]
pub struct Options {
    /// The source number.
    pub src: Option<String>,
    /// `STANDARD` (the default) or `UTF-16`.
    pub encoding: Option<String>,
    /// At most 70 characters.
    pub billcode: Option<String>,
    /// Whether a delivery notification is requested.
    pub status_requested: Option<bool>,
    /// Whether the message is sent as a flash SMS.
    pub flash: Option<bool>,
    /// At most 64 characters are recommended.
    pub customer_ref: Option<String>,
    /// Validity in minutes: 0 for the provider's default, else 5 to 2880.
    pub validity_min: Option<i32>,
    /// The most parts of a multi-part message, 1 to 20.
    pub max_parts: Option<i32>,
    /// `REFUSE`, `REPLACE`, `TO_UTF16` or `TRANSLITERATE`.
    pub invalid_characters: Option<String>,
    /// `EXPRESS` or `NORMAL`.
    pub qos: Option<String>,
    /// When processing starts (ISO 8601).
    pub job_period: Option<String>,
    pub duplicate_detection: Option<bool>,
    /// Periods in which no SMS is delivered (ISO 8601).
    pub blackout_periods: Option<Vec<String>>,
}

/// The answer to a submitted SMS job: its job id.
#[derive(Debug, Clone)]
pub struct JobResponse {
    pub job_id: String,
}

#[derive(Debug, Clone)]
pub struct Recipient {
    pub dst: String,
    pub customer_ref: Option<String>,
    pub blackout_periods: Option<String>,
}

/// A text and the numbers it is sent to.
#[derive(Debug, Clone)]
pub struct Message {
    pub text: String,
    pub recipients: Vec<Recipient>,
}

/// `m` sends `text` to each number of `dst`, in order, with no further
/// settings per recipient.
pub open spec fn message_for(m: Message, text: String, dst: Seq<String>) -> bool {
    &&& m.text == text
    &&& m.recipients@.len() == dst.len()
    &&& forall|i: int|
        0 <= i < dst.len() ==> {
            &&& (#[trigger] m.recipients@[i]).dst@ == dst[i]@
            &&& m.recipients@[i].customer_ref is None
            &&& m.recipients@[i].blackout_periods is None
        }
}

/// An SMS job: up to three messages and optional settings.
#[derive(Debug, Clone)]
pub struct SmsJob {
    options: Option<Options>,
    messages: Vec<Message>,
}

impl SmsJob {
    pub closed spec fn options_spec(&self) -> Option<Options> {
        self.options
    }

    pub closed spec fn messages_spec(&self) -> Seq<Message> {
        self.messages@
    }

    /// A job never holds more than three messages.
    pub closed spec fn wf(&self) -> bool {
        self.messages@.len() <= MAX_MESSAGES
    }

    /// A builder with no messages and no options.
    pub fn builder() -> (r: SmsJobBuilder)
        ensures
            r.wf(),
            r.messages_spec().len() == 0,
            r.options_spec() is None,
    {
        SmsJobBuilder { options: None, messages: Vec::new() }
    }

    pub fn options(&self) -> (r: &Option<Options>)
        ensures
            *r == self.options_spec(),
    {
        &self.options
    }

    pub fn messages(&self) -> (r: &Vec<Message>)
        ensures
            r@ == self.messages_spec(),
    {
        &self.messages
    }
}

/// Why a message could not be added to an SMS job.
#[derive(Debug, Clone, Copy, PartialEq, Eq, Structural)]
pub enum SmsJobError {
    /// The job already holds three messages.
    TooManyMessages,
}

/// Builds an [`SmsJob`]; the cap of three messages is held while building.
pub struct SmsJobBuilder {
    options: Option<Options>,
    messages: Vec<Message>,
}

impl SmsJobBuilder {
    pub closed spec fn options_spec(&self) -> Option<Options> {
        self.options
    }

    pub closed spec fn messages_spec(&self) -> Seq<Message> {
        self.messages@
    }

    pub closed spec fn wf(&self) -> bool {
        self.messages@.len() <= MAX_MESSAGES
    }

    /// How many messages the job holds so far.
    pub fn message_count(&self) -> (r: usize)
        ensures
            r == self.messages_spec().len(),
    {
        self.messages.len()
    }

    /// Adds a message that sends `message` to each number of `dst`. A job
    /// that already holds three messages takes no more.
    pub fn add_message(self, message: String, dst: Vec<String>) -> (r: SmsJobBuilder)
        requires
            self.wf(),
            self.messages_spec().len() < MAX_MESSAGES,
        ensures
            r.wf(),
            r.options_spec() == self.options_spec(),
            r.messages_spec().len() == self.messages_spec().len() + 1,
            r.messages_spec().take(self.messages_spec().len() as int) == self.messages_spec(),
            message_for(r.messages_spec().last(), message, dst@),
    {
        let mut b = self;
        let mut respt: Vec<Recipient> = Vec::new();
        let mut i: usize = 0;
        while i < dst.len()
            invariant
                i <= dst@.len(),
                respt@.len() == i,
                forall|j: int|
                    0 <= j < i ==> {
                        &&& (#[trigger] respt@[j]).dst@ == dst@[j]@
                        &&& respt@[j].customer_ref is None
                        &&& respt@[j].blackout_periods is None
                    },
            decreases dst@.len() - i,
        {
            respt.push(Recipient { dst: dst[i].clone(), customer_ref: None, blackout_periods: None });
            i = i + 1;
        }
        let msg = Message { text: message, recipients: respt };
        b.messages.push(msg);
        assert(b.messages@.take(self.messages@.len() as int) =~= self.messages@);
        b
    }

    /// Adds a message as [`SmsJobBuilder::add_message`] does, or fails with
    /// [`SmsJobError::TooManyMessages`] when the job already holds three.
    pub fn try_add_message(self, message: String, dst: Vec<String>) -> (r: Result<SmsJobBuilder, SmsJobError>)
        requires
            self.wf(),
        ensures
            tried_message(self, message, dst@, r),
    {
        if self.messages.len() >= MAX_MESSAGES {
            Err(SmsJobError::TooManyMessages)
        } else {
            Ok(self.add_message(message, dst))
        }
    }

    /// Adds the messages after those already there; together they may not
    /// exceed three.
    pub fn add_messages(self, messages: Vec<Message>) -> (r: SmsJobBuilder)
        requires
            self.wf(),
            self.messages_spec().len() + messages@.len() <= MAX_MESSAGES,
        ensures
            r.wf(),
            r.options_spec() == self.options_spec(),
            r.messages_spec() == self.messages_spec() + messages@,
    {
        let mut b = self;
        let mut more = messages;
        b.messages.append(&mut more);
        b
    }

    /// Sets how the job is processed, overriding the account's defaults.
    pub fn configure_sms(self, options: Options) -> (r: SmsJobBuilder)
        requires
            self.wf(),
        ensures
            r.wf(),
            r.options_spec() == Some(options),
            r.messages_spec() == self.messages_spec(),
    {
        SmsJobBuilder { options: Some(options), messages: self.messages }
    }

    pub fn build(self) -> (r: SmsJob)
        requires
            self.wf(),
        ensures
            r.wf(),
            r.options_spec() == self.options_spec(),
            r.messages_spec() == self.messages_spec(),
    {
        SmsJob { options: self.options, messages: self.messages }
    }
}

/// What adding a message to `before` gives: a builder that holds one more
/// message, or, when `before` already holds three, the error.
pub open spec fn tried_message(
    before: SmsJobBuilder,
    message: String,
    dst: Seq<String>,
    r: Result<SmsJobBuilder, SmsJobError>,
) -> bool {
    &&& (before.messages_spec().len() >= MAX_MESSAGES <==> r is Err)
    &&& r is Err ==> r == Err::<SmsJobBuilder, SmsJobError>(SmsJobError::TooManyMessages)
    &&& r matches Ok(b) ==> {
        &&& b.wf()
        &&& b.options_spec() == before.options_spec()
        &&& b.messages_spec().len() == before.messages_spec().len() + 1
        &&& b.messages_spec().take(before.messages_spec().len() as int) == before.messages_spec()
        &&& message_for(b.messages_spec().last(), message, dst)
    }
}

/// Adding a fourth message to a job that holds three fails while the job
/// is being built, with [`SmsJobError::TooManyMessages`]; and a built job
/// never holds more than three messages.
pub proof fn lemma_fourth_message_refused(
    before: SmsJobBuilder,
    message: String,
    dst: Seq<String>,
    r: Result<SmsJobBuilder, SmsJobError>,
    job: SmsJob,
)
    requires
        before.wf(),
        before.messages_spec().len() == MAX_MESSAGES,
        tried_message(before, message, dst, r),
        job.messages_spec() == before.messages_spec(),
    ensures
        r == Err::<SmsJobBuilder, SmsJobError>(SmsJobError::TooManyMessages),
        job.wf(),
{
}

/// The report of one SMS job.
#[derive(Debug, Clone)]
pub struct JobReport {
    pub job_id: String,
    pub src: Option<String>,
    pub encoding: Option<String>,
    pub billcode: Option<String>,
    pub status_requested: Option<bool>,
    pub flash: Option<bool>,
    pub validity_min: Option<i32>,
    pub customer_ref: Option<String>,
    pub qos: Option<String>,
    pub receipt_ts: Option<String>,
    pub finished_ts: Option<String>,
    pub recipient_ids: Option<Vec<String>>,
}

/// The text that chrono's `Display` writes for the UTC instant `secs`
/// seconds and `nanos` nanoseconds after the Unix epoch, or `None` when
/// chrono cannot represent that instant.
pub uninterp spec fn utc_text(secs: i64, nanos: u32) -> Option<Seq<char>>;

/// Relies on chrono's `DateTime::<Utc>::from_timestamp`, which is `None` for
/// an instant out of its range or an invalid nanosecond count, and on the
/// `Display` of `DateTime<Utc>`, which writes date, time and ` UTC`.
#[verifier::external_body]
fn render_utc(secs: i64, nanos: u32) -> (r: Option<String>)
    ensures
        match r {
            Some(t) => utc_text(secs, nanos) == Some(t@),
            None => utc_text(secs, nanos) is None,
        },
{
    match chrono::DateTime::<chrono::Utc>::from_timestamp(secs, nanos) {
        Some(d) => Some(d.to_string()),
        None => None,
    }
}

/// An instant in UTC, with the text that names it in a query.
#[derive(Debug, Clone)]
pub struct UtcTimestamp {
    secs: i64,
    nanos: u32,
    text: String,
}

impl UtcTimestamp {
    pub closed spec fn secs_spec(&self) -> i64 {
        self.secs
    }

    pub closed spec fn nanos_spec(&self) -> u32 {
        self.nanos
    }

    pub closed spec fn text_spec(&self) -> Seq<char> {
        self.text@
    }

    pub closed spec fn wf(&self) -> bool {
        utc_text(self.secs, self.nanos) == Some(self.text@)
    }

    /// The instant `secs` seconds and `nanos` nanoseconds after the Unix
    /// epoch, or `None` when it cannot be represented.
    pub fn from_unix(secs: i64, nanos: u32) -> (r: Option<UtcTimestamp>)
        ensures
            r is None <==> utc_text(secs, nanos) is None,
            r matches Some(t) ==> {
                &&& t.wf()
                &&& t.secs_spec() == secs
                &&& t.nanos_spec() == nanos
                &&& Some(t.text_spec()) == utc_text(secs, nanos)
            },
    {
        match render_utc(secs, nanos) {
            Some(text) => Some(UtcTimestamp { secs, nanos, text }),
            None => None,
        }
    }

    /// Seconds since the Unix epoch.
    pub fn timestamp(&self) -> (r: i64)
        ensures
            r == self.secs_spec(),
    {
        self.secs
    }

    /// The text of the instant, as it stands in a query.
    pub fn text(&self) -> (r: &String)
        ensures
            r@ == self.text_spec(),
    {
        &self.text
    }
}

/// Which SMS jobs a listing returns.
pub struct SmsFilter {
    pub job_ids_only: Option<bool>,
    pub from_ts: Option<UtcTimestamp>,
    pub to_ts: Option<UtcTimestamp>,
    pub open: Option<bool>,
    pub offset: Option<usize>,
    pub limit: Option<i64>,
}

/// `name=value&` for a parameter that is set, nothing for one that is not.
pub open spec fn query_param(name: Seq<char>, value: Option<Seq<char>>) -> Seq<char> {
    match value {
        Some(v) => name + "="@ + v + "&"@,
        None => Seq::empty(),
    }
}

pub open spec fn bool_value(o: Option<bool>) -> Option<Seq<char>> {
    match o {
        Some(b) => Some(bool_text(b)),
        None => None,
    }
}

pub open spec fn time_value(o: Option<UtcTimestamp>) -> Option<Seq<char>> {
    match o {
        Some(t) => Some(t.text_spec()),
        None => None,
    }
}

pub open spec fn count_value(o: Option<usize>) -> Option<Seq<char>> {
    match o {
        Some(n) => Some(decimal(n as nat)),
        None => None,
    }
}

pub open spec fn limit_value(o: Option<i64>) -> Option<Seq<char>> {
    match o {
        Some(n) => Some(signed_decimal(n as int)),
        None => None,
    }
}

/// The query string of a filter: `?` followed by `name=value&` for each
/// parameter that is set, in the order `jobIdsOnly`, `fromTs`, `toTs`,
/// `open`, `offset`, `limit`.
pub open spec fn filter_query(f: SmsFilter) -> Seq<char> {
    "?"@
        + query_param("jobIdsOnly"@, bool_value(f.job_ids_only))
        + query_param("fromTs"@, time_value(f.from_ts))
        + query_param("toTs"@, time_value(f.to_ts))
        + query_param("open"@, bool_value(f.open))
        + query_param("offset"@, count_value(f.offset))
        + query_param("limit"@, limit_value(f.limit))
}

/// Appends `name=`.
fn push_name(query: &mut String, name: &str)
    ensures
        final(query)@ == old(query)@ + name@ + "="@,
{
    query.append(name);
    query.append("=");
}

fn push_bool_param(query: &mut String, name: &str, value: Option<bool>)
    ensures
        final(query)@ == old(query)@ + query_param(name@, bool_value(value)),
{
    if let Some(b) = value {
        push_name(query, name);
        push_bool(query, b);
        query.append("&");
    }
    assert(final(query)@ =~= old(query)@ + query_param(name@, bool_value(value)));
}

fn push_time_param(query: &mut String, name: &str, value: &Option<UtcTimestamp>)
    ensures
        final(query)@ == old(query)@ + query_param(name@, time_value(*value)),
{
    if let Some(t) = value {
        push_name(query, name);
        query.append(t.text().as_str());
        query.append("&");
    }
    assert(final(query)@ =~= old(query)@ + query_param(name@, time_value(*value)));
}

fn push_count_param(query: &mut String, name: &str, value: Option<usize>)
    ensures
        final(query)@ == old(query)@ + query_param(name@, count_value(value)),
{
    if let Some(n) = value {
        push_name(query, name);
        push_decimal(query, n as u64);
        query.append("&");
    }
    assert(final(query)@ =~= old(query)@ + query_param(name@, count_value(value)));
}

fn push_limit_param(query: &mut String, name: &str, value: Option<i64>)
    ensures
        final(query)@ == old(query)@ + query_param(name@, limit_value(value)),
{
    if let Some(n) = value {
        push_name(query, name);
        push_signed_decimal(query, n);
        query.append("&");
    }
    assert(final(query)@ =~= old(query)@ + query_param(name@, limit_value(value)));
}

impl SmsFilter {
    pub fn builder() -> (r: SmsFilterBuilder)
        ensures
            r.filter.job_ids_only is None,
            r.filter.from_ts is None,
            r.filter.to_ts is None,
            r.filter.open is None,
            r.filter.offset is None,
            r.filter.limit is None,
    {
        SmsFilterBuilder::default()
    }

    /// The query string of the filter, starting with `?`.
    pub fn create_filter_string(&self) -> (r: String)
        ensures
            r@ == filter_query(*self),
    {
        let mut query = String::from_str("?");
        push_bool_param(&mut query, "jobIdsOnly", self.job_ids_only);
        push_time_param(&mut query, "fromTs", &self.from_ts);
        push_time_param(&mut query, "toTs", &self.to_ts);
        push_bool_param(&mut query, "open", self.open);
        push_count_param(&mut query, "offset", self.offset);
        push_limit_param(&mut query, "limit", self.limit);
        query
    }
}

/// Builds an [`SmsFilter`]; every parameter starts unset.
pub struct SmsFilterBuilder {
    pub filter: SmsFilter,
}

impl SmsFilterBuilder {
    pub fn default() -> (r: SmsFilterBuilder)
        ensures
            r.filter.job_ids_only is None,
            r.filter.from_ts is None,
            r.filter.to_ts is None,
            r.filter.open is None,
            r.filter.offset is None,
            r.filter.limit is None,
    {
        SmsFilterBuilder {
            filter: SmsFilter {
                job_ids_only: None,
                from_ts: None,
                to_ts: None,
                open: None,
                offset: None,
                limit: None,
            },
        }
    }

    pub fn set_limit(self, limit: i64) -> (r: Self)
        ensures
            r.filter == (SmsFilter { limit: Some(limit), ..self.filter }),
    {
        SmsFilterBuilder { filter: SmsFilter { limit: Some(limit), ..self.filter } }
    }

    pub fn set_from_ts(self, ts: UtcTimestamp) -> (r: Self)
        ensures
            r.filter == (SmsFilter { from_ts: Some(ts), ..self.filter }),
    {
        SmsFilterBuilder { filter: SmsFilter { from_ts: Some(ts), ..self.filter } }
    }

    pub fn set_to_ts(self, ts: UtcTimestamp) -> (r: Self)
        ensures
            r.filter == (SmsFilter { to_ts: Some(ts), ..self.filter }),
    {
        SmsFilterBuilder { filter: SmsFilter { to_ts: Some(ts), ..self.filter } }
    }

    pub fn set_offset(self, offset: usize) -> (r: Self)
        ensures
            r.filter == (SmsFilter { offset: Some(offset), ..self.filter }),
    {
        SmsFilterBuilder { filter: SmsFilter { offset: Some(offset), ..self.filter } }
    }

    pub fn only_job_ids(self, only_ids: bool) -> (r: Self)
        ensures
            r.filter == (SmsFilter { job_ids_only: Some(only_ids), ..self.filter }),
    {
        SmsFilterBuilder { filter: SmsFilter { job_ids_only: Some(only_ids), ..self.filter } }
    }

    pub fn build(self) -> (r: SmsFilter)
        ensures
            r == self.filter,
    {
        self.filter
    }
}

} // verus!
