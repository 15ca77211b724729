//! The Salesforce REST API (v59.0, SOQL) backend: the requests it sends and
//! how its replies become unified records.
use vstd::prelude::*;
use chrono::Datelike;
use vstd::utf8::encode_utf8;
use vstd::string::StringSliceAdditionalSpecFns;
use crate::http::{Auth, AuthV, HttpError, Method, Reply, Request, RequestV, Step, StepV, after, fail, finish, rv};
use crate::json::{
    Json, JsonV, array_of, entries_view, field, items_view, jarray, jfield, jnum, jstr, jtext, ju64, u64_of,
    map_array, map_items, no_entries, nonempty, nonempty_text, number_text, object, opt_json_view,
    opt_text_entry, ov, osv, push_entry, push_opt_text, str_of, str_or_empty, text_opt,
    text_or_empty,
};
use crate::text::{
    contains, contains_spec, contains_transitive, copy_opt, dec, soql_escape, soql_escape_of, join2, join3, join3_dec,
    join_dec, join5, lowercase, opt_str_view, opt_string_view, owned, owned_opt, push_char, push_dec,
    to_lower, trim_end_slashes, trim_slashes,
};
use crate::types::{
    Activity, ActivityV, Amount, AmountV, Company, CompanyV, Contact, ContactV, Deal, DealV, Note,
    NoteV, Pipeline, PipelineStage, PipelineStageV, PipelineV, amount_json, amount_view,
};
use crate::urlencoding::{encode, encode_bytes};

verus! {

/// The Salesforce backend: the instance URL (without trailing `/`) and the OAuth token.
#[derive(Debug, PartialEq)]
pub struct SalesforceBackend {
    pub instance_url: String,
    pub token: String,
}

/// `sf_str(v, k)`: `v[k]` as non-empty text.
pub open spec fn sf_v(v: JsonV, k: Seq<char>) -> Option<Seq<char>> {
    nonempty(jfield(v, k))
}

/// A contact record; listed contacts also carry their account's name.
pub open spec fn contact_v(c: JsonV, listed: bool) -> ContactV {
    ContactV {
        id: str_or_empty(jfield(c, "Id"@)),
        first_name: sf_v(c, "FirstName"@),
        last_name: sf_v(c, "LastName"@),
        email: sf_v(c, "Email"@),
        phone: sf_v(c, "Phone"@),
        company_id: sf_v(c, "AccountId"@),
        company_name: if listed {
            jstr(jfield(jfield(c, "Account"@), "Name"@))
        } else {
            None
        },
        title: sf_v(c, "Title"@),
        backend: "salesforce"@,
    }
}

pub open spec fn contacts_v(j: JsonV) -> Seq<ContactV> {
    map_array(jfield(j, "records"@), true, |l: bool, c: JsonV| contact_v(c, l))
}

pub open spec fn company_v(c: JsonV) -> CompanyV {
    CompanyV {
        id: str_or_empty(jfield(c, "Id"@)),
        name: str_or_empty(jfield(c, "Name"@)),
        domain: sf_v(c, "Website"@),
        industry: sf_v(c, "Industry"@),
        phone: sf_v(c, "Phone"@),
        city: sf_v(c, "BillingCity"@),
        country: sf_v(c, "BillingCountry"@),
        backend: "salesforce"@,
    }
}

pub open spec fn companies_v(j: JsonV) -> Seq<CompanyV> {
    map_array(jfield(j, "records"@), (), |u: (), c: JsonV| company_v(c))
}

pub open spec fn deal_v(d: JsonV) -> DealV {
    DealV {
        id: str_or_empty(jfield(d, "Id"@)),
        name: str_or_empty(jfield(d, "Name"@)),
        stage: sf_v(d, "StageName"@),
        pipeline: None,
        amount: jnum(jfield(d, "Amount"@)),
        currency: None,
        contact_id: sf_v(d, "ContactId"@),
        company_id: sf_v(d, "AccountId"@),
        close_date: sf_v(d, "CloseDate"@),
        probability: jnum(jfield(d, "Probability"@)),
        status: None,
        backend: "salesforce"@,
    }
}

pub open spec fn deals_v(j: JsonV) -> Seq<DealV> {
    map_array(jfield(j, "records"@), (), |u: (), d: JsonV| deal_v(d))
}

pub open spec fn tasks_v(j: JsonV) -> Seq<ActivityV> {
    map_array(jfield(j, "records"@), (), |u: (), t: JsonV| task_v(t))
}

/// A task as an activity; its contact and deal are the task's own `WhoId`
/// and `WhatId`.
pub open spec fn task_v(t: JsonV) -> ActivityV {
    ActivityV {
        id: str_or_empty(jfield(t, "Id"@)),
        activity_type: match jstr(jfield(t, "TaskSubtype"@)) {
            Some(s) => s,
            None => "task"@,
        },
        subject: sf_v(t, "Subject"@),
        body: sf_v(t, "Description"@),
        contact_id: sf_v(t, "WhoId"@),
        deal_id: sf_v(t, "WhatId"@),
        done: jstr(jfield(t, "Status"@)) == Some("Completed"@),
        due_date: sf_v(t, "ActivityDate"@),
        backend: "salesforce"@,
    }
}

pub open spec fn stage_v(s: JsonV, i: int) -> PipelineStageV {
    PipelineStageV {
        id: str_or_empty(jfield(s, "ApiName"@)),
        name: str_or_empty(jfield(s, "MasterLabel"@)),
        order: i as u32,
        deal_count: None,
        total_value: None,
    }
}

/// The single pipeline: the opportunity stages in sort order, numbered by position.
pub open spec fn pipeline_v(j: JsonV) -> PipelineV {
    PipelineV {
        id: "default"@,
        name: "Sales Pipeline"@,
        stages: match jarray(jfield(j, "records"@)) {
            Some(s) => Seq::new(s.len(), |i: int| stage_v(s[i], i)),
            None => Seq::empty(),
        },
        backend: "salesforce"@,
    }
}

/// The notes of a note listing, each carrying the contact and deal the
/// listing was asked for.
pub open spec fn notes_v(j: JsonV, contact: Option<Seq<char>>, deal: Option<Seq<char>>) -> Seq<NoteV> {
    map_array(jfield(j, "records"@), (contact, deal), |cd: (Option<Seq<char>>, Option<Seq<char>>), n: JsonV| note_v(n, cd.0, cd.1))
}

/// The records of a SOQL answer (none when `records` is not a list).
pub open spec fn records_of(j: JsonV) -> Seq<JsonV> {
    match jarray(jfield(j, "records"@)) {
        Some(r) => r,
        None => Seq::empty(),
    }
}

/// The first per-stage group of opportunities whose `StageName` is `name`.
pub open spec fn group_of(gs: Seq<JsonV>, name: Seq<char>) -> Option<JsonV>
    decreases gs.len(),
{
    if gs.len() == 0 {
        None
    } else if jstr(jfield(gs[0], "StageName"@)) == Some(name) {
        Some(gs[0])
    } else {
        group_of(gs.drop_first(), name)
    }
}

/// A stage with its deal count (`COUNT(Id)`, as `expr0`) and total value
/// (`SUM(Amount)`, as `expr1`) from its group; a stage without a group holds
/// no deals.
pub open spec fn counted_stage(s: JsonV, i: int, groups: Seq<JsonV>) -> PipelineStageV {
    let base = stage_v(s, i);
    match group_of(groups, base.id) {
        Some(g) => PipelineStageV {
            deal_count: match ju64(jfield(g, "expr0"@)) {
                Some(n) => if n <= u32::MAX {
                    Some(n as u32)
                } else {
                    None
                },
                None => None,
            },
            total_value: jnum(jfield(g, "expr1"@)),
            ..base
        },
        None => PipelineStageV { deal_count: Some(0), total_value: None, ..base },
    }
}

/// The single pipeline with each stage's deal count and total value, from the
/// stage listing and the per-stage groups of opportunities.
pub open spec fn summary_v(stages: JsonV, groups: JsonV) -> PipelineV {
    let gs = match jarray(jfield(groups, "records"@)) {
        Some(g) => g,
        None => Seq::empty(),
    };
    PipelineV {
        stages: match jarray(jfield(stages, "records"@)) {
            Some(s) => Seq::new(s.len(), |i: int| counted_stage(s[i], i, gs)),
            None => Seq::empty(),
        },
        ..pipeline_v(stages)
    }
}

pub open spec fn note_v(n: JsonV, contact: Option<Seq<char>>, deal: Option<Seq<char>>) -> NoteV {
    NoteV {
        id: str_or_empty(jfield(n, "Id"@)),
        content: str_or_empty(jfield(n, "Body"@)),
        contact_id: contact,
        company_id: None,
        deal_id: deal,
        created_at: sf_v(n, "CreatedDate"@),
        backend: "salesforce"@,
    }
}

/// The id a write reports.
pub open spec fn created_id(j: JsonV) -> Seq<char> {
    str_or_empty(jfield(j, "id"@))
}

pub open spec fn or_empty(s: Option<Seq<char>>) -> Seq<char> {
    match s {
        Some(t) => t,
        None => Seq::empty(),
    }
}

/// Whether a lower-cased needle occurs in a lower-cased name or e-mail.
pub open spec fn lowered_match(name: Seq<char>, email: Seq<char>, needle: Seq<char>) -> bool {
    contains_spec(name, needle) || contains_spec(email, needle)
}

/// Whether a contact matches a search: the lower-cased query occurs in the
/// lower-cased "first last" name or e-mail.
pub open spec fn matches_query(c: ContactV, query: Seq<char>) -> bool {
    lowered_match(
        lowercase(or_empty(c.first_name) + " "@ + or_empty(c.last_name)),
        lowercase(or_empty(c.email)),
        lowercase(query),
    )
}

/// The contacts that match the query, in order.
pub open spec fn matching(cs: Seq<ContactV>, query: Seq<char>) -> Seq<ContactV>
    decreases cs.len(),
{
    if cs.len() == 0 {
        Seq::empty()
    } else {
        matching(cs.drop_last(), query) + if matches_query(cs.last(), query) {
            seq![cs.last()]
        } else {
            Seq::empty()
        }
    }
}

/// Whether a lower-cased needle occurs in a lower-cased name or e-mail: the
/// test a contact search makes once the texts are lower-cased.
pub fn matches_lowered(name: &str, email: &str, needle: &str) -> (r: bool)
    ensures
        r == lowered_match(name@, email@, needle@),
{
    contains(name, needle) || contains(email, needle)
}

/// At most the first `n` items.
pub open spec fn first_n<A>(s: Seq<A>, n: int) -> Seq<A> {
    if s.len() <= n {
        s
    } else {
        s.take(n)
    }
}

/// The `Name`/`Website`/... text entries of a record.
pub open spec fn opt_amount_entry(a: Option<AmountV>) -> Seq<(Seq<char>, JsonV)> {
    match a {
        Some(x) => seq![("Amount"@, amount_json(x))],
        None => seq![],
    }
}

// ---- dates ----
/// `n` with zero padding to two digits.
pub open spec fn pad2(n: nat) -> Seq<char> {
    if n < 10 {
        seq!['0'] + dec(n)
    } else {
        dec(n)
    }
}

/// `n` with zero padding to four digits.
pub open spec fn pad4(n: nat) -> Seq<char> {
    if n < 10 {
        seq!['0', '0', '0'] + dec(n)
    } else if n < 100 {
        seq!['0', '0'] + dec(n)
    } else if n < 1000 {
        seq!['0'] + dec(n)
    } else {
        dec(n)
    }
}

/// A date as `%Y-%m-%d` writes it: years 0 to 9999 in four digits, other
/// years with their sign; month and day in two digits.
pub open spec fn ymd_text(y: int, m: nat, d: nat) -> Seq<char> {
    let year = if 0 <= y <= 9999 {
        pad4(y as nat)
    } else if y > 9999 {
        seq!['+'] + pad4(y as nat)
    } else {
        seq!['-'] + pad4((-y) as nat)
    };
    year + seq!['-'] + pad2(m) + seq!['-'] + pad2(d)
}

/// Seconds since the Unix epoch by the system clock
/// (`SystemTime::now().duration_since(UNIX_EPOCH)`); none when the clock reads
/// before the epoch. Nothing is promised of the value: it is the clock's.
#[verifier::external_body]
fn unix_seconds() -> (r: Option<u64>) {
    match std::time::SystemTime::now().duration_since(std::time::UNIX_EPOCH) {
        Ok(d) => Some(d.as_secs()),
        Err(_) => None,
    }
}

/// The UTC calendar date (year, month, day) of a Unix timestamp, as
/// `chrono::DateTime::from_timestamp` computes it; none out of its range.
pub uninterp spec fn utc_date(secs: i64) -> Option<(i32, u32, u32)>;

/// `chrono::DateTime::from_timestamp(secs, 0)` as year, month and day. The
/// result is `utc_date(secs)`; chrono returns none out of range (it does not
/// panic), and its months lie in 1..=12 and days in 1..=31.
#[verifier::external_body]
fn date_of_timestamp(secs: i64) -> (r: Option<(i32, u32, u32)>)
    ensures
        r == utc_date(secs),
        r matches Some(d) ==> 1 <= d.1 <= 12 && 1 <= d.2 <= 31,
{
    match chrono::DateTime::from_timestamp(secs, 0) {
        Some(t) => Some((t.year(), t.month(), t.day())),
        None => None,
    }
}

fn push_pad2(s: &mut String, n: u32)
    requires
        n < 100,
    ensures
        final(s)@ == old(s)@ + pad2(n as nat),
{
    if n < 10 {
        push_char(s, '0');
    }
    push_dec(s, n as u64);
    proof {
        assert(final(s)@ =~= old(s)@ + pad2(n as nat));
    }
}

fn push_pad4(s: &mut String, n: u64)
    ensures
        final(s)@ == old(s)@ + pad4(n as nat),
{
    if n < 10 {
        push_char(s, '0');
        push_char(s, '0');
        push_char(s, '0');
    } else if n < 100 {
        push_char(s, '0');
        push_char(s, '0');
    } else if n < 1000 {
        push_char(s, '0');
    }
    push_dec(s, n);
    proof {
        assert(final(s)@ =~= old(s)@ + pad4(n as nat));
    }
}

/// Writes a date as `%Y-%m-%d`.
pub fn ymd(year: i32, month: u32, day: u32) -> (r: String)
    requires
        month < 100,
        day < 100,
    ensures
        r@ == ymd_text(year as int, month as nat, day as nat),
{
    let mut s = String::new();
    if 0 <= year && year <= 9999 {
        push_pad4(&mut s, year as u64);
    } else if year > 9999 {
        push_char(&mut s, '+');
        push_pad4(&mut s, year as u64);
    } else {
        push_char(&mut s, '-');
        let m: i64 = 0i64 - (year as i64);
        push_pad4(&mut s, m as u64);
    }
    push_char(&mut s, '-');
    push_pad2(&mut s, month);
    push_char(&mut s, '-');
    push_pad2(&mut s, day);
    proof {
        assert(s@ =~= ymd_text(year as int, month as nat, day as nat));
    }
    s
}

/// The failure reported when the clock gives no date.
pub open spec fn clock_error() -> Seq<char> {
    "the system clock gives no current date"@
}

/// The UTC date of a Unix timestamp, written as `%Y-%m-%d`; none when the
/// timestamp is out of chrono's range.
pub fn date_text_of(secs: i64) -> (r: Option<String>)
    ensures
        match utc_date(secs) {
            Some(d) => {
                &&& 1 <= d.1 <= 12 && 1 <= d.2 <= 31
                &&& r matches Some(t) && t@ == ymd_text(d.0 as int, d.1 as nat, d.2 as nat)
            },
            None => r is None,
        },
{
    match date_of_timestamp(secs) {
        Some((y, m, d)) => Some(ymd(y, m, d)),
        None => None,
    }
}

/// Today's date in UTC, written as `%Y-%m-%d`; none when the system clock
/// reads before the Unix epoch or beyond chrono's range.
pub fn today_text() -> (r: Option<String>)
    ensures
        r matches Some(t) ==> exists|y: int, m: nat, d: nat|
            1 <= m <= 12 && 1 <= d <= 31 && t@ == ymd_text(y, m, d),
{
    let secs = match unix_seconds() {
        Some(s) => s,
        None => {
            return None;
        },
    };
    if secs > 9223372036854775807u64 {
        return None;
    }
    let r = date_text_of(secs as i64);
    proof {
        if r is Some {
            let d = utc_date(secs as i64)->Some_0;
            assert(1 <= d.1 <= 12 && 1 <= d.2 <= 31 && r->Some_0@ == ymd_text(
                d.0 as int,
                d.1 as nat,
                d.2 as nat,
            ));
        }
    }
    r
}

fn push_opt_amount(es: &mut Vec<(String, Json)>, a: Option<&Amount>)
    ensures
        entries_view(final(es)@) == entries_view(old(es)@) + opt_amount_entry(amount_view(a)),
{
    match a {
        Some(x) => {
            push_entry(es, "Amount", x.to_json());
        },
        None => {},
    }
    proof {
        assert(entries_view(final(es)@) =~= entries_view(old(es)@) + opt_amount_entry(
            amount_view(a),
        ));
    }
}

fn sf(v: &Json, k: &str) -> (r: Option<String>)
    ensures
        opt_string_view(r) == sf_v(v@, k@),
{
    nonempty_text(field(Some(v), k))
}

fn created_id_of(j: &Json) -> (r: String)
    ensures
        r@ == created_id(j@),
{
    text_or_empty(field(Some(j), "id"))
}

fn opt_text_or_empty(s: &Option<String>) -> (r: String)
    ensures
        r@ == or_empty(opt_string_view(*s)),
{
    match s {
        Some(t) => t.clone(),
        None => String::new(),
    }
}

impl SalesforceBackend {
    /// A backend for an instance; trailing `/` are removed from its URL.
    pub fn new(instance_url: String, token: String) -> (r: Self)
        ensures
            r.instance_url@ == trim_slashes(instance_url@),
            r.token@ == token@,
    {
        SalesforceBackend { instance_url: trim_end_slashes(instance_url.as_str()), token }
    }

    /// The backend's name, which tags every record it returns.
    pub fn name(&self) -> (r: &str)
        ensures
            r@ == "salesforce"@,
    {
        "salesforce"
    }

    /// A request to `{instance}/services/data/v59.0/{path}` with the bearer token.
    pub open spec fn req(self, method: Method, path: Seq<char>, body: Option<JsonV>, reads: bool) -> RequestV {
        RequestV {
            method,
            url: self.instance_url@ + "/services/data/v59.0/"@ + path,
            auth: AuthV::Bearer(self.token@),
            body,
            reads_body: reads,
        }
    }

    /// A SOQL query, percent-encoded into the URL.
    pub open spec fn query_req(self, soql: Seq<char>) -> RequestV {
        self.req(Method::Get, "query?q="@ + encode_bytes(encode_utf8(soql)), None, true)
    }

    fn request(&self, method: Method, path: String, body: Option<Json>, reads: bool) -> (r: Request)
        ensures
            r@ == self.req(method, path@, opt_json_view(body), reads),
    {
        Request {
            method,
            url: join3(self.instance_url.as_str(), "/services/data/v59.0/", path.as_str()),
            auth: Auth::Bearer(self.token.clone()),
            body,
            reads_body: reads,
        }
    }

    fn query(&self, soql: String) -> (r: Request)
        ensures
            r@ == self.query_req(soql@),
    {
        let q = encode(soql.as_str());
        self.request(Method::Get, join2("query?q=", q.as_str()), None, true)
    }

    // ---- contacts ----
    fn contact_of(listed: &bool, c: &Json) -> (r: Contact)
        ensures
            r@ == contact_v(c@, *listed),
    {
        Contact {
            id: text_or_empty(field(Some(c), "Id")),
            first_name: sf(c, "FirstName"),
            last_name: sf(c, "LastName"),
            email: sf(c, "Email"),
            phone: sf(c, "Phone"),
            company_id: sf(c, "AccountId"),
            company_name: if *listed {
                text_opt(field(field(Some(c), "Account"), "Name"))
            } else {
                None
            },
            title: sf(c, "Title"),
            backend: owned("salesforce"),
        }
    }

    fn contacts_of(j: &Json) -> (r: Vec<Contact>)
        ensures
            r.deep_view() == contacts_v(j@),
    {
        map_items(
            &true,
            array_of(field(Some(j), "records")),
            Self::contact_of,
            Ghost(|l: bool, c: JsonV| contact_v(c, l)),
        )
    }

    fn contact_result(reply: &Reply) -> (r: Step<Contact>)
        ensures
            r@ == finish(rv(*reply), |j: JsonV| contact_v(j, false)),
    {
        match reply {
            Err(e) => fail(e),
            Ok(j) => Step::Done(Ok(Self::contact_of(&false, j))),
        }
    }

    fn contact_request(&self, id: &str) -> (r: Request)
        ensures
            r@ == self.req(Method::Get, "sobjects/Contact/"@ + id@, None, true),
    {
        self.request(Method::Get, join2("sobjects/Contact/", id), None, true)
    }

    pub open spec fn contacts_soql(limit: u32) -> Seq<char> {
        "SELECT Id,FirstName,LastName,Email,Phone,AccountId,Account.Name,Title FROM Contact LIMIT "@
            + dec(limit as nat)
    }

    fn contacts_query(&self, limit: u32) -> (r: Request)
        ensures
            r@ == self.query_req(Self::contacts_soql(limit)),
    {
        self.query(
            join_dec(
                "SELECT Id,FirstName,LastName,Email,Phone,AccountId,Account.Name,Title FROM Contact LIMIT ",
                limit as u64,
            ),
        )
    }

    /// Lists contacts with a SOQL query.
    pub fn list_contacts(&self, limit: u32, replies: &Vec<Reply>) -> (r: Step<Vec<Contact>>)
        ensures
            replies.len() == 0 ==> r@ == StepV::<Seq<ContactV>>::Send(
                self.query_req(Self::contacts_soql(limit)),
            ),
            replies.len() > 0 ==> r@ == finish(rv(replies@[0]), |j: JsonV| contacts_v(j)),
    {
        if replies.len() == 0 {
            return Step::Send(self.contacts_query(limit));
        }
        match &replies[0] {
            Err(e) => fail(e),
            Ok(j) => Step::Done(Ok(Self::contacts_of(j))),
        }
    }

    /// Gets one contact.
    pub fn get_contact(&self, id: &str, replies: &Vec<Reply>) -> (r: Step<Contact>)
        ensures
            replies.len() == 0 ==> r@ == StepV::<ContactV>::Send(
                self.req(Method::Get, "sobjects/Contact/"@ + id@, None, true),
            ),
            replies.len() > 0 ==> r@ == finish(rv(replies@[0]), |j: JsonV| contact_v(j, false)),
    {
        if replies.len() == 0 {
            return Step::Send(self.contact_request(id));
        }
        Self::contact_result(&replies[0])
    }

    /// Creates a contact, then reads it back by the id the write reports.
    pub fn create_contact(
        &self,
        first_name: &str,
        last_name: &str,
        email: Option<&str>,
        phone: Option<&str>,
        company_id: Option<&str>,
        replies: &Vec<Reply>,
    ) -> (r: Step<Contact>)
        ensures
            replies.len() == 0 ==> r@ == StepV::<ContactV>::Send(
                self.req(
                    Method::Post,
                    "sobjects/Contact"@,
                    Some(
                        JsonV::Object(
                            seq![
                                ("FirstName"@, JsonV::Str(first_name@)),
                                ("LastName"@, JsonV::Str(last_name@)),
                            ] + opt_text_entry("Email"@, opt_str_view(email)) + opt_text_entry(
                                "Phone"@,
                                opt_str_view(phone),
                            ) + opt_text_entry("AccountId"@, opt_str_view(company_id)),
                        ),
                    ),
                    true,
                ),
            ),
            replies.len() == 1 ==> r@ == match rv(replies@[0]) {
                Ok(j) => StepV::<ContactV>::Send(
                    self.req(Method::Get, "sobjects/Contact/"@ + created_id(j), None, true),
                ),
                Err(e) => StepV::Done(Err(e)),
            },
            replies.len() > 1 ==> r@ == after(
                rv(replies@[0]),
                finish(rv(replies@[1]), |j: JsonV| contact_v(j, false)),
            ),
    {
        if replies.len() == 0 {
            let mut es = no_entries();
            push_entry(&mut es, "FirstName", jtext(first_name));
            push_entry(&mut es, "LastName", jtext(last_name));
            push_opt_text(&mut es, "Email", email);
            push_opt_text(&mut es, "Phone", phone);
            push_opt_text(&mut es, "AccountId", company_id);
            proof {
                assert(entries_view(es@) =~= seq![
                    ("FirstName"@, JsonV::Str(first_name@)),
                    ("LastName"@, JsonV::Str(last_name@)),
                ] + opt_text_entry("Email"@, opt_str_view(email)) + opt_text_entry(
                    "Phone"@,
                    opt_str_view(phone),
                ) + opt_text_entry("AccountId"@, opt_str_view(company_id)));
            }
            return Step::Send(
                self.request(Method::Post, owned("sobjects/Contact"), Some(object(es)), true),
            );
        }
        match &replies[0] {
            Err(e) => fail(e),
            Ok(j) => if replies.len() == 1 {
                let id = created_id_of(j);
                Step::Send(self.contact_request(id.as_str()))
            } else {
                Self::contact_result(&replies[1])
            },
        }
    }

    /// Updates a contact (a PATCH whose reply body is not read), then reads it back.
    pub fn update_contact(
        &self,
        id: &str,
        first_name: Option<&str>,
        last_name: Option<&str>,
        email: Option<&str>,
        phone: Option<&str>,
        replies: &Vec<Reply>,
    ) -> (r: Step<Contact>)
        ensures
            replies.len() == 0 ==> r@ == StepV::<ContactV>::Send(
                self.req(
                    Method::Patch,
                    "sobjects/Contact/"@ + id@,
                    Some(
                        JsonV::Object(
                            opt_text_entry("FirstName"@, opt_str_view(first_name)) + opt_text_entry(
                                "LastName"@,
                                opt_str_view(last_name),
                            ) + opt_text_entry("Email"@, opt_str_view(email)) + opt_text_entry(
                                "Phone"@,
                                opt_str_view(phone),
                            ),
                        ),
                    ),
                    false,
                ),
            ),
            replies.len() == 1 ==> r@ == after(
                rv(replies@[0]),
                StepV::<ContactV>::Send(
                    self.req(Method::Get, "sobjects/Contact/"@ + id@, None, true),
                ),
            ),
            replies.len() > 1 ==> r@ == after(
                rv(replies@[0]),
                finish(rv(replies@[1]), |j: JsonV| contact_v(j, false)),
            ),
    {
        if replies.len() == 0 {
            let mut es = no_entries();
            push_opt_text(&mut es, "FirstName", first_name);
            push_opt_text(&mut es, "LastName", last_name);
            push_opt_text(&mut es, "Email", email);
            push_opt_text(&mut es, "Phone", phone);
            proof {
                assert(entries_view(es@) =~= opt_text_entry("FirstName"@, opt_str_view(first_name))
                    + opt_text_entry("LastName"@, opt_str_view(last_name)) + opt_text_entry(
                    "Email"@,
                    opt_str_view(email),
                ) + opt_text_entry("Phone"@, opt_str_view(phone)));
            }
            return Step::Send(
                self.request(
                    Method::Patch,
                    join2("sobjects/Contact/", id),
                    Some(object(es)),
                    false,
                ),
            );
        }
        match &replies[0] {
            Err(e) => fail(e),
            Ok(_) => if replies.len() == 1 {
                Step::Send(self.contact_request(id))
            } else {
                Self::contact_result(&replies[1])
            },
        }
    }

    /// Whether a contact matches the lower-cased query.
    fn contact_matches(c: &Contact, needle: &String, Ghost(query): Ghost<Seq<char>>) -> (r: bool)
        requires
            needle@ == lowercase(query),
        ensures
            r == matches_query(c@, query),
    {
        let first = opt_text_or_empty(&c.first_name);
        let last = opt_text_or_empty(&c.last_name);
        let name = join3(first.as_str(), " ", last.as_str());
        let lname = to_lower(name.as_str());
        let email = opt_text_or_empty(&c.email);
        let lemail = to_lower(email.as_str());
        matches_lowered(lname.as_str(), lemail.as_str(), needle.as_str())
    }

    /// The contacts of a listing that match the query, at most `limit` of them.
    fn search_in(contacts: &Vec<Contact>, query: &str, limit: u32) -> (r: Vec<Contact>)
        ensures
            r.deep_view() == first_n(matching(contacts.deep_view(), query@), limit as int),
    {
        let needle = to_lower(query);
        let ghost cs = contacts.deep_view();
        let mut out: Vec<Contact> = Vec::new();
        let mut i: usize = 0;
        proof {
            assert(out.deep_view() =~= first_n(matching(cs.take(0), query@), limit as int));
        }
        while i < contacts.len()
            invariant
                cs == contacts.deep_view(),
                i <= contacts.len(),
                needle@ == lowercase(query@),
                out.deep_view() =~= first_n(matching(cs.take(i as int), query@), limit as int),
            decreases contacts.len() - i,
        {
            let c = &contacts[i];
            proof {
                assert(c.deep_view() == cs[i as int]);
                assert(cs.take(i + 1).drop_last() =~= cs.take(i as int));
                assert(cs.take(i + 1).last() == cs[i as int]);
            }
            let keep = Self::contact_matches(c, &needle, Ghost(query@));
            let ghost before = out.deep_view();
            if keep && out.len() < limit as usize {
                out.push(c.duplicate());
                proof {
                    assert(out.deep_view() =~= before.push(cs[i as int]));
                }
            }
            i = i + 1;
            proof {
                assert(out.deep_view() =~= first_n(matching(cs.take(i as int), query@), limit as int));
            }
        }
        proof {
            assert(cs.take(contacts.len() as int) =~= cs);
        }
        out
    }

    /// The SOQL of a contact search over the whole organisation: the query,
    /// escaped for a `LIKE` pattern, anywhere in the name or e-mail.
    pub open spec fn search_soql(query: Seq<char>, limit: u32) -> Seq<char> {
        let q = soql_escape(query, true);
        "SELECT Id,FirstName,LastName,Email,Phone,AccountId,Account.Name,Title FROM Contact WHERE Name LIKE '%"@
            + q + "%' OR Email LIKE '%"@ + q + "%' LIMIT "@ + dec(limit as nat)
    }

    /// Searches contacts: a query for the contacts whose name or e-mail holds
    /// the text (case aside), whose answer is then matched as
    /// [`matches_query`] says, at most `limit` of them. A failed query gives
    /// no contacts.
    pub fn search_contacts(&self, query: &str, limit: u32, replies: &Vec<Reply>) -> (r: Step<
        Vec<Contact>,
    >)
        ensures
            replies.len() == 0 ==> r@ == StepV::<Seq<ContactV>>::Send(
                self.query_req(Self::search_soql(query@, limit)),
            ),
            replies.len() > 0 ==> r@ == StepV::<Seq<ContactV>>::Done(
                Ok(
                    match rv(replies@[0]) {
                        Ok(j) => first_n(matching(contacts_v(j), query@), limit as int),
                        Err(_) => Seq::empty(),
                    },
                ),
            ),
    {
        if replies.len() == 0 {
            let q = soql_escape_of(query, true);
            let mut soql = join3(
                "SELECT Id,FirstName,LastName,Email,Phone,AccountId,Account.Name,Title FROM Contact WHERE Name LIKE '%",
                q.as_str(),
                "%' OR Email LIKE '%",
            );
            soql.append(q.as_str());
            soql.append("%' LIMIT ");
            push_dec(&mut soql, limit as u64);
            proof {
                assert(soql@ =~= Self::search_soql(query@, limit));
            }
            return Step::Send(self.query(soql));
        }
        match &replies[0] {
            Err(_) => {
                let v: Vec<Contact> = Vec::new();
                proof {
                    assert(v.deep_view() =~= Seq::<ContactV>::empty());
                }
                Step::Done(Ok(v))
            },
            Ok(j) => Step::Done(Ok(Self::search_in(&Self::contacts_of(j), query, limit))),
        }
    }

    // ---- companies ----
    fn company_of(u: &(), c: &Json) -> (r: Company)
        ensures
            r@ == company_v(c@),
    {
        Company {
            id: text_or_empty(field(Some(c), "Id")),
            name: text_or_empty(field(Some(c), "Name")),
            domain: sf(c, "Website"),
            industry: sf(c, "Industry"),
            phone: sf(c, "Phone"),
            city: sf(c, "BillingCity"),
            country: sf(c, "BillingCountry"),
            backend: owned("salesforce"),
        }
    }

    fn company_result(reply: &Reply) -> (r: Step<Company>)
        ensures
            r@ == finish(rv(*reply), |j: JsonV| company_v(j)),
    {
        match reply {
            Err(e) => fail(e),
            Ok(j) => Step::Done(Ok(Self::company_of(&(), j))),
        }
    }

    fn company_request(&self, id: &str) -> (r: Request)
        ensures
            r@ == self.req(Method::Get, "sobjects/Account/"@ + id@, None, true),
    {
        self.request(Method::Get, join2("sobjects/Account/", id), None, true)
    }

    pub open spec fn companies_soql(limit: u32) -> Seq<char> {
        "SELECT Id,Name,Website,Industry,Phone,BillingCity,BillingCountry FROM Account LIMIT "@ + dec(
            limit as nat,
        )
    }

    /// Lists accounts as companies.
    pub fn list_companies(&self, limit: u32, replies: &Vec<Reply>) -> (r: Step<Vec<Company>>)
        ensures
            replies.len() == 0 ==> r@ == StepV::<Seq<CompanyV>>::Send(
                self.query_req(Self::companies_soql(limit)),
            ),
            replies.len() > 0 ==> r@ == finish(rv(replies@[0]), |j: JsonV| companies_v(j)),
    {
        if replies.len() == 0 {
            return Step::Send(
                self.query(
                    join_dec(
                        "SELECT Id,Name,Website,Industry,Phone,BillingCity,BillingCountry FROM Account LIMIT ",
                        limit as u64,
                    ),
                ),
            );
        }
        match &replies[0] {
            Err(e) => fail(e),
            Ok(j) => Step::Done(
                Ok(
                    map_items(
                        &(),
                        array_of(field(Some(j), "records")),
                        Self::company_of,
                        Ghost(|u: (), c: JsonV| company_v(c)),
                    ),
                ),
            ),
        }
    }

    /// Gets one account.
    pub fn get_company(&self, id: &str, replies: &Vec<Reply>) -> (r: Step<Company>)
        ensures
            replies.len() == 0 ==> r@ == StepV::<CompanyV>::Send(
                self.req(Method::Get, "sobjects/Account/"@ + id@, None, true),
            ),
            replies.len() > 0 ==> r@ == finish(rv(replies@[0]), |j: JsonV| company_v(j)),
    {
        if replies.len() == 0 {
            return Step::Send(self.company_request(id));
        }
        Self::company_result(&replies[0])
    }

    /// Creates an account, then reads it back by the id the write reports.
    pub fn create_company(
        &self,
        name: &str,
        domain: Option<&str>,
        industry: Option<&str>,
        replies: &Vec<Reply>,
    ) -> (r: Step<Company>)
        ensures
            replies.len() == 0 ==> r@ == StepV::<CompanyV>::Send(
                self.req(
                    Method::Post,
                    "sobjects/Account"@,
                    Some(
                        JsonV::Object(
                            seq![("Name"@, JsonV::Str(name@))] + opt_text_entry(
                                "Website"@,
                                opt_str_view(domain),
                            ) + opt_text_entry("Industry"@, opt_str_view(industry)),
                        ),
                    ),
                    true,
                ),
            ),
            replies.len() == 1 ==> r@ == match rv(replies@[0]) {
                Ok(j) => StepV::<CompanyV>::Send(
                    self.req(Method::Get, "sobjects/Account/"@ + created_id(j), None, true),
                ),
                Err(e) => StepV::Done(Err(e)),
            },
            replies.len() > 1 ==> r@ == after(
                rv(replies@[0]),
                finish(rv(replies@[1]), |j: JsonV| company_v(j)),
            ),
    {
        if replies.len() == 0 {
            let mut es = no_entries();
            push_entry(&mut es, "Name", jtext(name));
            push_opt_text(&mut es, "Website", domain);
            push_opt_text(&mut es, "Industry", industry);
            proof {
                assert(entries_view(es@) =~= seq![("Name"@, JsonV::Str(name@))] + opt_text_entry(
                    "Website"@,
                    opt_str_view(domain),
                ) + opt_text_entry("Industry"@, opt_str_view(industry)));
            }
            return Step::Send(
                self.request(Method::Post, owned("sobjects/Account"), Some(object(es)), true),
            );
        }
        match &replies[0] {
            Err(e) => fail(e),
            Ok(j) => if replies.len() == 1 {
                let id = created_id_of(j);
                Step::Send(self.company_request(id.as_str()))
            } else {
                Self::company_result(&replies[1])
            },
        }
    }

    /// Updates an account (a PATCH whose reply body is not read), then reads it back.
    pub fn update_company(
        &self,
        id: &str,
        name: Option<&str>,
        domain: Option<&str>,
        industry: Option<&str>,
        replies: &Vec<Reply>,
    ) -> (r: Step<Company>)
        ensures
            replies.len() == 0 ==> r@ == StepV::<CompanyV>::Send(
                self.req(
                    Method::Patch,
                    "sobjects/Account/"@ + id@,
                    Some(
                        JsonV::Object(
                            opt_text_entry("Name"@, opt_str_view(name)) + opt_text_entry(
                                "Website"@,
                                opt_str_view(domain),
                            ) + opt_text_entry("Industry"@, opt_str_view(industry)),
                        ),
                    ),
                    false,
                ),
            ),
            replies.len() == 1 ==> r@ == after(
                rv(replies@[0]),
                StepV::<CompanyV>::Send(
                    self.req(Method::Get, "sobjects/Account/"@ + id@, None, true),
                ),
            ),
            replies.len() > 1 ==> r@ == after(
                rv(replies@[0]),
                finish(rv(replies@[1]), |j: JsonV| company_v(j)),
            ),
    {
        if replies.len() == 0 {
            let mut es = no_entries();
            push_opt_text(&mut es, "Name", name);
            push_opt_text(&mut es, "Website", domain);
            push_opt_text(&mut es, "Industry", industry);
            proof {
                assert(entries_view(es@) =~= opt_text_entry("Name"@, opt_str_view(name))
                    + opt_text_entry("Website"@, opt_str_view(domain)) + opt_text_entry(
                    "Industry"@,
                    opt_str_view(industry),
                ));
            }
            return Step::Send(
                self.request(Method::Patch, join2("sobjects/Account/", id), Some(object(es)), false),
            );
        }
        match &replies[0] {
            Err(e) => fail(e),
            Ok(_) => if replies.len() == 1 {
                Step::Send(self.company_request(id))
            } else {
                Self::company_result(&replies[1])
            },
        }
    }

    // ---- deals ----
    fn deal_of(u: &(), d: &Json) -> (r: Deal)
        ensures
            r@ == deal_v(d@),
    {
        Deal {
            id: text_or_empty(field(Some(d), "Id")),
            name: text_or_empty(field(Some(d), "Name")),
            stage: sf(d, "StageName"),
            pipeline: None,
            amount: number_text(field(Some(d), "Amount")),
            currency: None,
            contact_id: sf(d, "ContactId"),
            company_id: sf(d, "AccountId"),
            close_date: sf(d, "CloseDate"),
            probability: number_text(field(Some(d), "Probability")),
            status: None,
            backend: owned("salesforce"),
        }
    }

    fn deal_result(reply: &Reply) -> (r: Step<Deal>)
        ensures
            r@ == finish(rv(*reply), |j: JsonV| deal_v(j)),
    {
        match reply {
            Err(e) => fail(e),
            Ok(j) => Step::Done(Ok(Self::deal_of(&(), j))),
        }
    }

    fn deal_request(&self, id: &str) -> (r: Request)
        ensures
            r@ == self.req(Method::Get, "sobjects/Opportunity/"@ + id@, None, true),
    {
        self.request(Method::Get, join2("sobjects/Opportunity/", id), None, true)
    }

    pub open spec fn deals_soql(limit: u32) -> Seq<char> {
        "SELECT Id,Name,StageName,Amount,CloseDate,Probability,AccountId,ContactId FROM Opportunity LIMIT "@
            + dec(limit as nat)
    }

    /// Lists opportunities as deals.
    pub fn list_deals(&self, limit: u32, replies: &Vec<Reply>) -> (r: Step<Vec<Deal>>)
        ensures
            replies.len() == 0 ==> r@ == StepV::<Seq<DealV>>::Send(
                self.query_req(Self::deals_soql(limit)),
            ),
            replies.len() > 0 ==> r@ == finish(rv(replies@[0]), |j: JsonV| deals_v(j)),
    {
        if replies.len() == 0 {
            return Step::Send(
                self.query(
                    join_dec(
                        "SELECT Id,Name,StageName,Amount,CloseDate,Probability,AccountId,ContactId FROM Opportunity LIMIT ",
                        limit as u64,
                    ),
                ),
            );
        }
        match &replies[0] {
            Err(e) => fail(e),
            Ok(j) => Step::Done(
                Ok(
                    map_items(
                        &(),
                        array_of(field(Some(j), "records")),
                        Self::deal_of,
                        Ghost(|u: (), d: JsonV| deal_v(d)),
                    ),
                ),
            ),
        }
    }

    /// Gets one opportunity.
    pub fn get_deal(&self, id: &str, replies: &Vec<Reply>) -> (r: Step<Deal>)
        ensures
            replies.len() == 0 ==> r@ == StepV::<DealV>::Send(
                self.req(Method::Get, "sobjects/Opportunity/"@ + id@, None, true),
            ),
            replies.len() > 0 ==> r@ == finish(rv(replies@[0]), |j: JsonV| deal_v(j)),
    {
        if replies.len() == 0 {
            return Step::Send(self.deal_request(id));
        }
        Self::deal_result(&replies[0])
    }

    /// The fields of a new opportunity: the stage defaults to `Prospecting`
    /// and the close date is the given date.
    pub open spec fn new_deal_fields(
        name: Seq<char>,
        amount: Option<AmountV>,
        stage: Option<Seq<char>>,
        contact: Option<Seq<char>>,
        company: Option<Seq<char>>,
        today: Seq<char>,
    ) -> Seq<(Seq<char>, JsonV)> {
        seq![
            ("Name"@, JsonV::Str(name)),
            (
                "StageName"@,
                JsonV::Str(
                    match stage {
                        Some(st) => st,
                        None => "Prospecting"@,
                    },
                ),
            ),
            ("CloseDate"@, JsonV::Str(today)),
        ] + opt_amount_entry(amount) + opt_text_entry("ContactId"@, contact) + opt_text_entry(
            "AccountId"@,
            company,
        )
    }

    /// Creates an opportunity closing on `today`, then reads it back by the id
    /// the write reports.
    pub fn create_deal_dated(
        &self,
        name: &str,
        amount: Option<&Amount>,
        stage: Option<&str>,
        contact_id: Option<&str>,
        company_id: Option<&str>,
        today: &str,
        replies: &Vec<Reply>,
    ) -> (r: Step<Deal>)
        ensures
            replies.len() == 0 ==> r@ == StepV::<DealV>::Send(
                self.req(
                    Method::Post,
                    "sobjects/Opportunity"@,
                    Some(
                        JsonV::Object(
                            Self::new_deal_fields(
                                name@,
                                amount_view(amount),
                                opt_str_view(stage),
                                opt_str_view(contact_id),
                                opt_str_view(company_id),
                                today@,
                            ),
                        ),
                    ),
                    true,
                ),
            ),
            replies.len() == 1 ==> r@ == match rv(replies@[0]) {
                Ok(j) => StepV::<DealV>::Send(
                    self.req(Method::Get, "sobjects/Opportunity/"@ + created_id(j), None, true),
                ),
                Err(e) => StepV::Done(Err(e)),
            },
            replies.len() > 1 ==> r@ == after(
                rv(replies@[0]),
                finish(rv(replies@[1]), |j: JsonV| deal_v(j)),
            ),
    {
        if replies.len() == 0 {
            let mut es = no_entries();
            push_entry(&mut es, "Name", jtext(name));
            let st = match stage {
                Some(s) => jtext(s),
                None => jtext("Prospecting"),
            };
            push_entry(&mut es, "StageName", st);
            push_entry(&mut es, "CloseDate", jtext(today));
            push_opt_amount(&mut es, amount);
            push_opt_text(&mut es, "ContactId", contact_id);
            push_opt_text(&mut es, "AccountId", company_id);
            proof {
                assert(entries_view(es@) =~= Self::new_deal_fields(
                    name@,
                    amount_view(amount),
                    opt_str_view(stage),
                    opt_str_view(contact_id),
                    opt_str_view(company_id),
                    today@,
                ));
            }
            return Step::Send(
                self.request(Method::Post, owned("sobjects/Opportunity"), Some(object(es)), true),
            );
        }
        match &replies[0] {
            Err(e) => fail(e),
            Ok(j) => if replies.len() == 1 {
                let id = created_id_of(j);
                Step::Send(self.deal_request(id.as_str()))
            } else {
                Self::deal_result(&replies[1])
            },
        }
    }

    /// Creates an opportunity that closes today (UTC), then reads it back.
    /// The close date is whatever the clock gives; when the clock gives no
    /// date the operation fails. The rest is as [`Self::create_deal_dated`] states.
    pub fn create_deal(
        &self,
        name: &str,
        amount: Option<&Amount>,
        stage: Option<&str>,
        contact_id: Option<&str>,
        company_id: Option<&str>,
        replies: &Vec<Reply>,
    ) -> (r: Step<Deal>)
        ensures
            replies.len() == 0 ==> r@ == StepV::<DealV>::Done(Err(clock_error())) || exists|
                y: int,
                m: nat,
                d: nat,
            |
                1 <= m <= 12 && 1 <= d <= 31 && r@ == StepV::<DealV>::Send(
                    self.req(
                        Method::Post,
                        "sobjects/Opportunity"@,
                        Some(
                            JsonV::Object(
                                Self::new_deal_fields(
                                    name@,
                                    amount_view(amount),
                                    opt_str_view(stage),
                                    opt_str_view(contact_id),
                                    opt_str_view(company_id),
                                    ymd_text(y, m, d),
                                ),
                            ),
                        ),
                        true,
                    ),
                ),
            replies.len() == 1 ==> r@ == match rv(replies@[0]) {
                Ok(j) => StepV::<DealV>::Send(
                    self.req(Method::Get, "sobjects/Opportunity/"@ + created_id(j), None, true),
                ),
                Err(e) => StepV::Done(Err(e)),
            },
            replies.len() > 1 ==> r@ == after(
                rv(replies@[0]),
                finish(rv(replies@[1]), |j: JsonV| deal_v(j)),
            ),
    {
        if replies.len() == 0 {
            let today = match today_text() {
                Some(t) => t,
                None => {
                    return Step::Done(Err(HttpError { message: owned("the system clock gives no current date") }));
                },
            };
            let ghost t = today@;
            let r = self.create_deal_dated(name, amount, stage, contact_id, company_id, today.as_str(), replies);
            proof {
                let (y, m, d) = choose|y: int, m: nat, d: nat|
                    1 <= m <= 12 && 1 <= d <= 31 && t == ymd_text(y, m, d);
                assert(1 <= m <= 12 && 1 <= d <= 31 && r@ == StepV::<DealV>::Send(
                    self.req(
                        Method::Post,
                        "sobjects/Opportunity"@,
                        Some(
                            JsonV::Object(
                                Self::new_deal_fields(
                                    name@,
                                    amount_view(amount),
                                    opt_str_view(stage),
                                    opt_str_view(contact_id),
                                    opt_str_view(company_id),
                                    ymd_text(y, m, d),
                                ),
                            ),
                        ),
                        true,
                    ),
                ));
            }
            return r;
        }
        self.create_deal_dated(name, amount, stage, contact_id, company_id, "", replies)
    }

    /// The fields a deal update sends.
    pub open spec fn deal_update_body(
        name: Option<Seq<char>>,
        amount: Option<AmountV>,
        stage: Option<Seq<char>>,
        close_date: Option<Seq<char>>,
    ) -> JsonV {
        JsonV::Object(
            opt_text_entry("Name"@, name) + opt_amount_entry(amount) + opt_text_entry(
                "StageName"@,
                stage,
            ) + opt_text_entry("CloseDate"@, close_date),
        )
    }

    /// Updates an opportunity (a PATCH whose reply body is not read), then reads it back.
    pub fn update_deal(
        &self,
        id: &str,
        name: Option<&str>,
        amount: Option<&Amount>,
        stage: Option<&str>,
        close_date: Option<&str>,
        replies: &Vec<Reply>,
    ) -> (r: Step<Deal>)
        ensures
            replies.len() == 0 ==> r@ == StepV::<DealV>::Send(
                self.req(
                    Method::Patch,
                    "sobjects/Opportunity/"@ + id@,
                    Some(
                        Self::deal_update_body(
                            opt_str_view(name),
                            amount_view(amount),
                            opt_str_view(stage),
                            opt_str_view(close_date),
                        ),
                    ),
                    false,
                ),
            ),
            replies.len() == 1 ==> r@ == after(
                rv(replies@[0]),
                StepV::<DealV>::Send(
                    self.req(Method::Get, "sobjects/Opportunity/"@ + id@, None, true),
                ),
            ),
            replies.len() > 1 ==> r@ == after(
                rv(replies@[0]),
                finish(rv(replies@[1]), |j: JsonV| deal_v(j)),
            ),
    {
        if replies.len() == 0 {
            let mut es = no_entries();
            push_opt_text(&mut es, "Name", name);
            push_opt_amount(&mut es, amount);
            push_opt_text(&mut es, "StageName", stage);
            push_opt_text(&mut es, "CloseDate", close_date);
            proof {
                assert(JsonV::Object(entries_view(es@)) == Self::deal_update_body(
                    opt_str_view(name),
                    amount_view(amount),
                    opt_str_view(stage),
                    opt_str_view(close_date),
                ));
            }
            return Step::Send(
                self.request(
                    Method::Patch,
                    join2("sobjects/Opportunity/", id),
                    Some(object(es)),
                    false,
                ),
            );
        }
        match &replies[0] {
            Err(e) => fail(e),
            Ok(_) => if replies.len() == 1 {
                Step::Send(self.deal_request(id))
            } else {
                Self::deal_result(&replies[1])
            },
        }
    }

    /// Moves an opportunity to a stage, then reads it back.
    pub fn move_deal_stage(&self, id: &str, stage: &str, replies: &Vec<Reply>) -> (r: Step<Deal>)
        ensures
            replies.len() == 0 ==> r@ == StepV::<DealV>::Send(
                self.req(
                    Method::Patch,
                    "sobjects/Opportunity/"@ + id@,
                    Some(JsonV::Object(seq![("StageName"@, JsonV::Str(stage@))])),
                    false,
                ),
            ),
            replies.len() == 1 ==> r@ == after(
                rv(replies@[0]),
                StepV::<DealV>::Send(
                    self.req(Method::Get, "sobjects/Opportunity/"@ + id@, None, true),
                ),
            ),
            replies.len() > 1 ==> r@ == after(
                rv(replies@[0]),
                finish(rv(replies@[1]), |j: JsonV| deal_v(j)),
            ),
    {
        if replies.len() == 0 {
            let mut es = no_entries();
            push_entry(&mut es, "StageName", jtext(stage));
            proof {
                assert(entries_view(es@) =~= seq![("StageName"@, JsonV::Str(stage@))]);
            }
            return Step::Send(
                self.request(
                    Method::Patch,
                    join2("sobjects/Opportunity/", id),
                    Some(object(es)),
                    false,
                ),
            );
        }
        match &replies[0] {
            Err(e) => fail(e),
            Ok(_) => if replies.len() == 1 {
                Step::Send(self.deal_request(id))
            } else {
                Self::deal_result(&replies[1])
            },
        }
    }

    // ---- activities ----
    /// The `WHERE` clause of a listing: by the contact, else by the deal.
    pub open spec fn filter(
        contact_field: Seq<char>,
        contact: Option<Seq<char>>,
        deal_field: Seq<char>,
        deal: Option<Seq<char>>,
    ) -> Seq<char> {
        match contact {
            Some(c) => "WHERE "@ + contact_field + " = '"@ + soql_escape(c, false) + "'"@,
            None => match deal {
                Some(d) => "WHERE "@ + deal_field + " = '"@ + soql_escape(d, false) + "'"@,
                None => Seq::empty(),
            },
        }
    }

    fn filter_of(contact_field: &str, contact: Option<&str>, deal_field: &str, deal: Option<&str>) -> (r:
        String)
        ensures
            r@ == Self::filter(contact_field@, opt_str_view(contact), deal_field@, opt_str_view(deal)),
    {
        match contact {
            Some(c) => {
                let e = soql_escape_of(c, false);
                join5("WHERE ", contact_field, " = '", e.as_str(), "'")
            },
            None => match deal {
                Some(d) => {
                    let e = soql_escape_of(d, false);
                    join5("WHERE ", deal_field, " = '", e.as_str(), "'")
                },
                None => String::new(),
            },
        }
    }

    fn task_of(u: &(), t: &Json) -> (r: Activity)
        ensures
            r@ == task_v(t@),
    {
        let target = owned("Completed");
        let completed = match str_of(field(Some(t), "Status")) {
            Some(s) => *s == target,
            None => false,
        };
        Activity {
            id: text_or_empty(field(Some(t), "Id")),
            activity_type: match text_opt(field(Some(t), "TaskSubtype")) {
                Some(s) => s,
                None => owned("task"),
            },
            subject: sf(t, "Subject"),
            body: sf(t, "Description"),
            contact_id: sf(t, "WhoId"),
            deal_id: sf(t, "WhatId"),
            done: completed,
            due_date: sf(t, "ActivityDate"),
            backend: owned("salesforce"),
        }
    }

    pub open spec fn tasks_soql(contact: Option<Seq<char>>, deal: Option<Seq<char>>, limit: u32) -> Seq<
        char,
    > {
        "SELECT Id,Subject,Description,ActivityDate,Status,TaskSubtype,WhoId,WhatId FROM Task "@ + Self::filter(
            "WhoId"@,
            contact,
            "WhatId"@,
            deal,
        ) + " LIMIT "@ + dec(limit as nat)
    }

    /// Lists the tasks of a contact (`WhoId`), else of a deal (`WhatId`), else
    /// all tasks; each activity carries the task's own contact and deal. The
    /// ids are escaped into the query, so they cannot widen it.
    pub fn list_activities(
        &self,
        contact_id: Option<&str>,
        deal_id: Option<&str>,
        limit: u32,
        replies: &Vec<Reply>,
    ) -> (r: Step<Vec<Activity>>)
        ensures
            replies.len() == 0 ==> r@ == StepV::<Seq<ActivityV>>::Send(
                self.query_req(
                    Self::tasks_soql(opt_str_view(contact_id), opt_str_view(deal_id), limit),
                ),
            ),
            replies.len() > 0 ==> r@ == finish(rv(replies@[0]), |j: JsonV| tasks_v(j)),
    {
        if replies.len() == 0 {
            let f = Self::filter_of("WhoId", contact_id, "WhatId", deal_id);
            let soql = join3_dec(
                "SELECT Id,Subject,Description,ActivityDate,Status,TaskSubtype,WhoId,WhatId FROM Task ",
                f.as_str(),
                " LIMIT ",
                limit as u64,
            );
            return Step::Send(self.query(soql));
        }
        match &replies[0] {
            Err(e) => fail(e),
            Ok(j) => Step::Done(
                Ok(
                    map_items(
                        &(),
                        array_of(field(Some(j), "records")),
                        Self::task_of,
                        Ghost(|u: (), t: JsonV| task_v(t)),
                    ),
                ),
            ),
        }
    }

    /// Logs an activity as a task: one POST; the record is built from the
    /// arguments and the id the write reports.
    pub fn create_activity(
        &self,
        activity_type: &str,
        subject: &str,
        body: Option<&str>,
        contact_id: Option<&str>,
        deal_id: Option<&str>,
        replies: &Vec<Reply>,
    ) -> (r: Step<Activity>)
        ensures
            replies.len() == 0 ==> r@ == StepV::<ActivityV>::Send(
                self.req(
                    Method::Post,
                    "sobjects/Task"@,
                    Some(
                        JsonV::Object(
                            seq![
                                ("Subject"@, JsonV::Str(subject@)),
                                ("TaskSubtype"@, JsonV::Str(activity_type@)),
                            ] + opt_text_entry("Description"@, opt_str_view(body)) + opt_text_entry(
                                "WhoId"@,
                                opt_str_view(contact_id),
                            ) + opt_text_entry("WhatId"@, opt_str_view(deal_id)),
                        ),
                    ),
                    true,
                ),
            ),
            replies.len() > 0 ==> r@ == finish(
                rv(replies@[0]),
                |j: JsonV|
                    ActivityV {
                        id: created_id(j),
                        activity_type: activity_type@,
                        subject: Some(subject@),
                        body: opt_str_view(body),
                        contact_id: opt_str_view(contact_id),
                        deal_id: opt_str_view(deal_id),
                        done: false,
                        due_date: None,
                        backend: "salesforce"@,
                    },
            ),
    {
        if replies.len() == 0 {
            let mut es = no_entries();
            push_entry(&mut es, "Subject", jtext(subject));
            push_entry(&mut es, "TaskSubtype", jtext(activity_type));
            push_opt_text(&mut es, "Description", body);
            push_opt_text(&mut es, "WhoId", contact_id);
            push_opt_text(&mut es, "WhatId", deal_id);
            proof {
                assert(entries_view(es@) =~= seq![
                    ("Subject"@, JsonV::Str(subject@)),
                    ("TaskSubtype"@, JsonV::Str(activity_type@)),
                ] + opt_text_entry("Description"@, opt_str_view(body)) + opt_text_entry(
                    "WhoId"@,
                    opt_str_view(contact_id),
                ) + opt_text_entry("WhatId"@, opt_str_view(deal_id)));
            }
            return Step::Send(
                self.request(Method::Post, owned("sobjects/Task"), Some(object(es)), true),
            );
        }
        match &replies[0] {
            Err(e) => fail(e),
            Ok(j) => Step::Done(
                Ok(
                    Activity {
                        id: created_id_of(j),
                        activity_type: owned(activity_type),
                        subject: Some(owned(subject)),
                        body: owned_opt(body),
                        contact_id: owned_opt(contact_id),
                        deal_id: owned_opt(deal_id),
                        done: false,
                        due_date: None,
                        backend: owned("salesforce"),
                    },
                ),
            ),
        }
    }

    // ---- pipelines ----
    fn pipeline_of(j: &Json) -> (r: Pipeline)
        ensures
            r@ == pipeline_v(j@),
    {
        let mut out: Vec<PipelineStage> = Vec::new();
        match array_of(field(Some(j), "records")) {
            Some(items) => {
                let ghost s = items_view(items@);
                let mut i: usize = 0;
                while i < items.len()
                    invariant
                        s == items_view(items@),
                        i <= items.len(),
                        out.deep_view() =~= Seq::new(i as nat, |k: int| stage_v(s[k], k)),
                    decreases items.len() - i,
                {
                    let st = &items[i];
                    let stage = PipelineStage {
                        id: text_or_empty(field(Some(st), "ApiName")),
                        name: text_or_empty(field(Some(st), "MasterLabel")),
                        order: #[verifier::truncate] (i as u32),
                        deal_count: None,
                        total_value: None,
                    };
                    proof {
                        assert(stage@ == stage_v(s[i as int], i as int));
                    }
                    let ghost prev = out.deep_view();
                    out.push(stage);
                    proof {
                        assert(out.deep_view() =~= prev.push(stage@));
                    }
                    i = i + 1;
                }
            },
            None => {
                proof {
                    assert(out.deep_view() =~= Seq::<PipelineStageV>::empty());
                }
            },
        }
        Pipeline {
            id: owned("default"),
            name: owned("Sales Pipeline"),
            stages: out,
            backend: owned("salesforce"),
        }
    }

    pub open spec fn stages_soql() -> Seq<char> {
        "SELECT MasterLabel,ApiName FROM OpportunityStage ORDER BY SortOrder"@
    }

    /// Lists the single sales pipeline, with the opportunity stages in sort order.
    pub fn list_pipelines(&self, replies: &Vec<Reply>) -> (r: Step<Vec<Pipeline>>)
        ensures
            replies.len() == 0 ==> r@ == StepV::<Seq<PipelineV>>::Send(
                self.query_req(Self::stages_soql()),
            ),
            replies.len() > 0 ==> r@ == finish(rv(replies@[0]), |j: JsonV| seq![pipeline_v(j)]),
    {
        if replies.len() == 0 {
            return Step::Send(
                self.query(owned("SELECT MasterLabel,ApiName FROM OpportunityStage ORDER BY SortOrder")),
            );
        }
        match &replies[0] {
            Err(e) => fail(e),
            Ok(j) => {
                let mut v: Vec<Pipeline> = Vec::new();
                v.push(Self::pipeline_of(j));
                proof {
                    assert(v.deep_view() =~= seq![pipeline_v(j@)]);
                }
                Step::Done(Ok(v))
            },
        }
    }

    /// The SOQL that counts and sums the opportunities of each stage.
    pub open spec fn groups_soql() -> Seq<char> {
        "SELECT StageName,COUNT(Id),SUM(Amount) FROM Opportunity GROUP BY StageName"@
    }

    fn group_for<'a>(gs: &'a Vec<Json>, name: &String) -> (r: Option<&'a Json>)
        ensures
            match r {
                Some(g) => group_of(items_view(gs@), name@) == Some(g@),
                None => group_of(items_view(gs@), name@) is None,
            },
    {
        let ghost all = items_view(gs@);
        let mut i: usize = 0;
        proof {
            assert(all.skip(0) =~= all);
        }
        while i < gs.len()
            invariant
                all == items_view(gs@),
                i <= gs.len(),
                group_of(all, name@) == group_of(all.skip(i as int), name@),
            decreases gs.len() - i,
        {
            let g = &gs[i];
            proof {
                assert(all.skip(i as int)[0] == g@);
                assert(all.skip(i as int).drop_first() =~= all.skip(i + 1));
            }
            let hit = match str_of(field(Some(g), "StageName")) {
                Some(t) => *t == *name,
                None => false,
            };
            if hit {
                return Some(g);
            }
            i = i + 1;
        }
        proof {
            assert(all.skip(i as int).len() == 0);
        }
        None
    }

    fn counted_stage_of(st: &Json, i: usize, gs: &Vec<Json>) -> (r: PipelineStage)
        ensures
            r@ == counted_stage(st@, i as int, items_view(gs@)),
    {
        let id = text_or_empty(field(Some(st), "ApiName"));
        let (deal_count, total_value) = match Self::group_for(gs, &id) {
            Some(g) => {
                let c = match u64_of(field(Some(g), "expr0")) {
                    Some(n) => if n <= 4294967295u64 {
                        Some(n as u32)
                    } else {
                        None
                    },
                    None => None,
                };
                (c, number_text(field(Some(g), "expr1")))
            },
            None => (Some(0u32), None),
        };
        PipelineStage {
            id,
            name: text_or_empty(field(Some(st), "MasterLabel")),
            order: #[verifier::truncate] (i as u32),
            deal_count,
            total_value,
        }
    }

    fn summary_of(stages: &Json, groups: &Json) -> (r: Pipeline)
        ensures
            r@ == summary_v(stages@, groups@),
    {
        let empty: Vec<Json> = Vec::new();
        let gs: &Vec<Json> = match array_of(field(Some(groups), "records")) {
            Some(a) => a,
            None => &empty,
        };
        let ghost g = items_view(gs@);
        proof {
            assert(g =~= match jarray(jfield(groups@, "records"@)) {
                Some(x) => x,
                None => Seq::<JsonV>::empty(),
            });
        }
        let mut out: Vec<PipelineStage> = Vec::new();
        match array_of(field(Some(stages), "records")) {
            Some(items) => {
                let ghost s = items_view(items@);
                let mut i: usize = 0;
                while i < items.len()
                    invariant
                        s == items_view(items@),
                        g == items_view(gs@),
                        i <= items.len(),
                        out.deep_view() =~= Seq::new(i as nat, |k: int| counted_stage(s[k], k, g)),
                    decreases items.len() - i,
                {
                    let stage = Self::counted_stage_of(&items[i], i, gs);
                    let ghost prev = out.deep_view();
                    out.push(stage);
                    proof {
                        assert(out.deep_view() =~= prev.push(stage@));
                    }
                    i = i + 1;
                }
            },
            None => {
                proof {
                    assert(out.deep_view() =~= Seq::<PipelineStageV>::empty());
                }
            },
        }
        Pipeline {
            id: owned("default"),
            name: owned("Sales Pipeline"),
            stages: out,
            backend: owned("salesforce"),
        }
    }

    /// The pipeline summary: the stage listing, then the count and total value
    /// of the opportunities of each stage. The pipeline id is not used (there
    /// is one pipeline).
    pub fn get_pipeline_summary(&self, pipeline_id: Option<&str>, replies: &Vec<Reply>) -> (r: Step<
        Vec<Pipeline>,
    >)
        ensures
            replies.len() == 0 ==> r@ == StepV::<Seq<PipelineV>>::Send(
                self.query_req(Self::stages_soql()),
            ),
            replies.len() == 1 ==> r@ == after(
                rv(replies@[0]),
                StepV::<Seq<PipelineV>>::Send(self.query_req(Self::groups_soql())),
            ),
            replies.len() > 1 ==> r@ == match (rv(replies@[0]), rv(replies@[1])) {
                (Err(e), _) => StepV::Done(Err(e)),
                (Ok(_), Err(e)) => StepV::Done(Err(e)),
                (Ok(st), Ok(gr)) => StepV::Done(Ok(seq![summary_v(st, gr)])),
            },
    {
        if replies.len() == 0 {
            return self.list_pipelines(replies);
        }
        match &replies[0] {
            Err(e) => fail(e),
            Ok(st) => if replies.len() == 1 {
                Step::Send(
                    self.query(
                        owned("SELECT StageName,COUNT(Id),SUM(Amount) FROM Opportunity GROUP BY StageName"),
                    ),
                )
            } else {
                match &replies[1] {
                    Err(e) => fail(e),
                    Ok(gr) => {
                        let mut v: Vec<Pipeline> = Vec::new();
                        v.push(Self::summary_of(st, gr));
                        proof {
                            assert(v.deep_view() =~= seq![summary_v(st@, gr@)]);
                        }
                        Step::Done(Ok(v))
                    },
                }
            },
        }
    }

    // ---- notes ----
    fn note_of(ctx: &(Option<String>, Option<String>), n: &Json) -> (r: Note)
        ensures
            r@ == note_v(n@, opt_string_view(ctx.0), opt_string_view(ctx.1)),
    {
        Note {
            id: text_or_empty(field(Some(n), "Id")),
            content: text_or_empty(field(Some(n), "Body")),
            contact_id: copy_opt(&ctx.0),
            company_id: None,
            deal_id: copy_opt(&ctx.1),
            created_at: sf(n, "CreatedDate"),
            backend: owned("salesforce"),
        }
    }

    pub open spec fn notes_soql(contact: Option<Seq<char>>, deal: Option<Seq<char>>, limit: u32) -> Seq<
        char,
    > {
        "SELECT Id,Body,ParentId,CreatedDate FROM Note "@ + Self::filter(
            "ParentId"@,
            contact,
            "ParentId"@,
            deal,
        ) + " LIMIT "@ + dec(limit as nat)
    }

    /// Lists the notes whose parent is the contact, else the deal, else all notes.
    pub fn list_notes(
        &self,
        contact_id: Option<&str>,
        deal_id: Option<&str>,
        limit: u32,
        replies: &Vec<Reply>,
    ) -> (r: Step<Vec<Note>>)
        ensures
            replies.len() == 0 ==> r@ == StepV::<Seq<NoteV>>::Send(
                self.query_req(
                    Self::notes_soql(opt_str_view(contact_id), opt_str_view(deal_id), limit),
                ),
            ),
            replies.len() > 0 ==> r@ == finish(
                rv(replies@[0]),
                |j: JsonV| notes_v(j, opt_str_view(contact_id), opt_str_view(deal_id)),
            ),
    {
        if replies.len() == 0 {
            let f = Self::filter_of("ParentId", contact_id, "ParentId", deal_id);
            let soql = join3_dec(
                "SELECT Id,Body,ParentId,CreatedDate FROM Note ",
                f.as_str(),
                " LIMIT ",
                limit as u64,
            );
            return Step::Send(self.query(soql));
        }
        let ctx = (owned_opt(contact_id), owned_opt(deal_id));
        match &replies[0] {
            Err(e) => fail(e),
            Ok(j) => {
                let v = map_items(
                    &ctx,
                    array_of(field(Some(j), "records")),
                    Self::note_of,
                    Ghost(
                        |cd: (Option<String>, Option<String>), n: JsonV|
                            note_v(n, opt_string_view(cd.0), opt_string_view(cd.1)),
                    ),
                );
                proof {
                    assert(v.deep_view() =~= map_array(
                        jfield(j@, "records"@),
                        (opt_str_view(contact_id), opt_str_view(deal_id)),
                        |cd: (Option<Seq<char>>, Option<Seq<char>>), n: JsonV| note_v(n, cd.0, cd.1),
                    ));
                }
                Step::Done(Ok(v))
            },
        }
    }

    /// The parent of a new note: the contact, else the deal, else empty.
    pub open spec fn note_parent(
        contact: Option<Seq<char>>,
        deal: Option<Seq<char>>,
        company: Option<Seq<char>>,
    ) -> Seq<char> {
        match contact {
            Some(c) => c,
            None => match deal {
                Some(d) => d,
                None => match company {
                    Some(a) => a,
                    None => Seq::empty(),
                },
            },
        }
    }

    /// Adds a note under the contact, else the deal, else the company (account):
    /// one POST; the record is built from the arguments and the id the write reports.
    pub fn create_note(
        &self,
        content: &str,
        contact_id: Option<&str>,
        company_id: Option<&str>,
        deal_id: Option<&str>,
        replies: &Vec<Reply>,
    ) -> (r: Step<Note>)
        ensures
            replies.len() == 0 ==> r@ == StepV::<NoteV>::Send(
                self.req(
                    Method::Post,
                    "sobjects/Note"@,
                    Some(
                        JsonV::Object(
                            seq![
                                ("Body"@, JsonV::Str(content@)),
                                (
                                    "ParentId"@,
                                    JsonV::Str(
                                        Self::note_parent(
                                            opt_str_view(contact_id),
                                            opt_str_view(deal_id),
                                            opt_str_view(company_id),
                                        ),
                                    ),
                                ),
                                ("Title"@, JsonV::Str("Note"@)),
                            ],
                        ),
                    ),
                    true,
                ),
            ),
            replies.len() > 0 ==> r@ == finish(
                rv(replies@[0]),
                |j: JsonV|
                    NoteV {
                        id: created_id(j),
                        content: content@,
                        contact_id: opt_str_view(contact_id),
                        company_id: opt_str_view(company_id),
                        deal_id: opt_str_view(deal_id),
                        created_at: None,
                        backend: "salesforce"@,
                    },
            ),
    {
        if replies.len() == 0 {
            let parent = match contact_id {
                Some(c) => owned(c),
                None => match deal_id {
                    Some(d) => owned(d),
                    None => match company_id {
                        Some(a) => owned(a),
                        None => String::new(),
                    },
                },
            };
            let mut es = no_entries();
            push_entry(&mut es, "Body", jtext(content));
            push_entry(&mut es, "ParentId", Json::Str(parent));
            push_entry(&mut es, "Title", jtext("Note"));
            proof {
                assert(entries_view(es@) =~= seq![
                    ("Body"@, JsonV::Str(content@)),
                    (
                        "ParentId"@,
                        JsonV::Str(
                            Self::note_parent(
                                opt_str_view(contact_id),
                                opt_str_view(deal_id),
                                opt_str_view(company_id),
                            ),
                        ),
                    ),
                    ("Title"@, JsonV::Str("Note"@)),
                ]);
            }
            return Step::Send(
                self.request(Method::Post, owned("sobjects/Note"), Some(object(es)), true),
            );
        }
        match &replies[0] {
            Err(e) => fail(e),
            Ok(j) => Step::Done(
                Ok(
                    Note {
                        id: created_id_of(j),
                        content: owned(content),
                        contact_id: owned_opt(contact_id),
                        company_id: owned_opt(company_id),
                        deal_id: owned_opt(deal_id),
                        created_at: None,
                        backend: owned("salesforce"),
                    },
                ),
            ),
        }
    }
}

proof fn lemma_matching(cs: Seq<ContactV>, query: Seq<char>)
    ensures
        matching(cs, query).len() <= cs.len(),
        forall|i: int|
            0 <= i < matching(cs, query).len() ==> matches_query(
                #[trigger] matching(cs, query)[i],
                query,
            ) && cs.contains(matching(cs, query)[i]),
        forall|k: int|
            0 <= k < cs.len() && matches_query(#[trigger] cs[k], query) ==> matching(
                cs,
                query,
            ).contains(cs[k]),
    decreases cs.len(),
{
    if cs.len() > 0 {
        let p = cs.drop_last();
        lemma_matching(p, query);
        let m = matching(cs, query);
        let mp = matching(p, query);
        assert forall|i: int| 0 <= i < m.len() implies matches_query(#[trigger] m[i], query)
            && cs.contains(m[i]) by {
            if i < mp.len() {
                assert(m[i] == mp[i]);
                let k = choose|k: int| 0 <= k < p.len() && p[k] == mp[i];
                assert(cs[k] == p[k]);
            } else {
                assert(m[i] == cs.last());
                assert(cs[cs.len() - 1] == cs.last());
            }
        }
        assert forall|k: int| 0 <= k < cs.len() && matches_query(#[trigger] cs[k], query)
            implies m.contains(cs[k]) by {
            if k < p.len() {
                assert(p[k] == cs[k]);
                let i = choose|i: int| 0 <= i < mp.len() && mp[i] == p[k];
                assert(m[i] == mp[i]);
            } else {
                assert(m[m.len() - 1] == cs[k]);
            }
        }
    }
}

/// A contact search keeps at most `limit` contacts, each a listed contact
/// that matches the query; when no more than `limit` match, it keeps every
/// one that does.
pub proof fn search_keeps_matching(cs: Seq<ContactV>, query: Seq<char>, limit: int)
    requires
        limit >= 0,
    ensures
        first_n(matching(cs, query), limit).len() <= limit,
        forall|i: int|
            0 <= i < first_n(matching(cs, query), limit).len() ==> matches_query(
                #[trigger] first_n(matching(cs, query), limit)[i],
                query,
            ) && cs.contains(first_n(matching(cs, query), limit)[i]),
        matching(cs, query).len() <= limit ==> forall|k: int|
            0 <= k < cs.len() && matches_query(#[trigger] cs[k], query) ==> first_n(
                matching(cs, query),
                limit,
            ).contains(cs[k]),
{
    lemma_matching(cs, query);
    let m = matching(cs, query);
    let r = first_n(m, limit);
    assert forall|i: int| 0 <= i < r.len() implies matches_query(#[trigger] r[i], query)
        && cs.contains(r[i]) by {
        assert(r[i] == m[i]);
    }
}

/// A search depends on the query only through its lower-case form: on the
/// same answer, queries with the same lower-case form keep the same contacts,
/// in the same order, and the search result (at most `limit` of them) is the same.
pub proof fn search_ignores_query_case(cs: Seq<ContactV>, q1: Seq<char>, q2: Seq<char>, limit: int)
    requires
        lowercase(q1) == lowercase(q2),
    ensures
        matching(cs, q1) == matching(cs, q2),
        first_n(matching(cs, q1), limit) == first_n(matching(cs, q2), limit),
    decreases cs.len(),
{
    if cs.len() > 0 {
        search_ignores_query_case(cs.drop_last(), q1, q2, limit);
    }
}

/// A longer query never finds more: when the lower-cased `shorter` occurs in
/// the lower-cased `longer`, every contact `longer` keeps, `shorter` keeps too.
pub proof fn longer_query_finds_no_more(cs: Seq<ContactV>, shorter: Seq<char>, longer: Seq<char>)
    requires
        contains_spec(lowercase(longer), lowercase(shorter)),
    ensures
        forall|c: ContactV| matches_query(c, longer) ==> matches_query(c, shorter),
        forall|i: int|
            0 <= i < matching(cs, longer).len() ==> matching(cs, shorter).contains(
                #[trigger] matching(cs, longer)[i],
            ),
        matching(cs, longer).len() <= matching(cs, shorter).len(),
    decreases cs.len(),
{
    assert forall|c: ContactV| matches_query(c, longer) implies matches_query(c, shorter) by {
        let name = lowercase(or_empty(c.first_name) + " "@ + or_empty(c.last_name));
        let email = lowercase(or_empty(c.email));
        if contains_spec(name, lowercase(longer)) {
            contains_transitive(name, lowercase(longer), lowercase(shorter));
        } else {
            contains_transitive(email, lowercase(longer), lowercase(shorter));
        }
    }
    if cs.len() > 0 {
        longer_query_finds_no_more(cs.drop_last(), shorter, longer);
    }
    lemma_matching(cs, longer);
    lemma_matching(cs, shorter);
    assert forall|i: int| 0 <= i < matching(cs, longer).len() implies matching(
        cs,
        shorter,
    ).contains(#[trigger] matching(cs, longer)[i]) by {
        let c = matching(cs, longer)[i];
        assert(matches_query(c, longer));
        let k = choose|k: int| 0 <= k < cs.len() && cs[k] == c;
        assert(matches_query(cs[k], shorter));
    }
}

/// Every record built from a Salesforce reply is tagged `salesforce`, the name
/// of the backend, whatever the reply holds.
pub proof fn salesforce_records_are_tagged(
    j: JsonV,
    listed: bool,
    contact: Option<Seq<char>>,
    deal: Option<Seq<char>>,
)
    ensures
        contact_v(j, listed).backend == "salesforce"@,
        company_v(j).backend == "salesforce"@,
        deal_v(j).backend == "salesforce"@,
        task_v(j).backend == "salesforce"@,
        pipeline_v(j).backend == "salesforce"@,
        note_v(j, contact, deal).backend == "salesforce"@,
        forall|i: int| 0 <= i < contacts_v(j).len() ==> (#[trigger] contacts_v(j)[i]).backend == "salesforce"@,
        forall|i: int| 0 <= i < companies_v(j).len() ==> (#[trigger] companies_v(j)[i]).backend == "salesforce"@,
        forall|i: int| 0 <= i < deals_v(j).len() ==> (#[trigger] deals_v(j)[i]).backend == "salesforce"@,
        forall|i: int| 0 <= i < tasks_v(j).len() ==> (#[trigger] tasks_v(j)[i]).backend == "salesforce"@,
{
}

/// The token travels only in the `Authorization` header: backends for the
/// same instance with different tokens send the same URL and body.
pub proof fn salesforce_token_only_in_header(
    a: SalesforceBackend,
    b: SalesforceBackend,
    method: Method,
    path: Seq<char>,
    body: Option<JsonV>,
    reads: bool,
)
    requires
        a.instance_url@ == b.instance_url@,
    ensures
        a.req(method, path, body, reads).url == b.req(method, path, body, reads).url,
        a.req(method, path, body, reads).body == b.req(method, path, body, reads).body,
        a.req(method, path, body, reads).auth == AuthV::Bearer(a.token@),
{
}

/// A deal update reads back the deal it wrote: the read-back request goes to
/// the very URL of the update.
pub proof fn salesforce_update_reads_back_the_same_deal(
    b: SalesforceBackend,
    id: Seq<char>,
    body: Option<JsonV>,
)
    ensures
        b.req(Method::Get, "sobjects/Opportunity/"@ + id, None, true).url == b.req(
            Method::Patch,
            "sobjects/Opportunity/"@ + id,
            body,
            false,
        ).url,
{
}

/// A contact creation reads back the contact that was created: the read-back
/// request goes to the contact named by the id the write reported.
pub proof fn salesforce_create_reads_back_the_created_contact(b: SalesforceBackend, reply: JsonV)
    ensures
        b.req(Method::Get, "sobjects/Contact/"@ + created_id(reply), None, true).url
            == b.instance_url@ + "/services/data/v59.0/"@ + "sobjects/Contact/"@ + str_or_empty(
            jfield(reply, "id"@),
        ),
{
    assert(b.req(Method::Get, "sobjects/Contact/"@ + created_id(reply), None, true).url
        =~= b.instance_url@ + "/services/data/v59.0/"@ + "sobjects/Contact/"@ + str_or_empty(
        jfield(reply, "id"@),
    ));
}

/// An amount-only deal update round-trips: it sends exactly `{"Amount": a}`,
/// and when the deal read back holds that amount, the returned deal carries it.
pub proof fn salesforce_update_deal_amount_round_trip(a: AmountV, j: JsonV)
    requires
        a.number is Some,
        jfield(j, "Amount"@) == JsonV::Number(a.number->0),
    ensures
        SalesforceBackend::deal_update_body(None, Some(a), None, None) == JsonV::Object(
            seq![("Amount"@, JsonV::Number(a.number->0))],
        ),
        deal_v(j).amount == a.number,
{
    assert(SalesforceBackend::deal_update_body(None, Some(a), None, None) =~= JsonV::Object(
        seq![("Amount"@, JsonV::Number(a.number->0))],
    ));
}

/// A contact creation round-trips: when the server reports id `i` and the
/// contact read back holds the values sent, the returned contact carries
/// exactly them, under id `i`.
pub proof fn salesforce_create_contact_round_trip(
    created: JsonV,
    j: JsonV,
    i: Seq<char>,
    first: Seq<char>,
    last: Seq<char>,
    email: Option<Seq<char>>,
    phone: Option<Seq<char>>,
    account: Option<Seq<char>>,
)
    requires
        jfield(created, "id"@) == JsonV::Str(i),
        jfield(j, "Id"@) == JsonV::Str(i),
        first.len() > 0 && jfield(j, "FirstName"@) == JsonV::Str(first),
        last.len() > 0 && jfield(j, "LastName"@) == JsonV::Str(last),
        match email {
            Some(e) => e.len() > 0 && jfield(j, "Email"@) == JsonV::Str(e),
            None => jfield(j, "Email"@) == JsonV::Null,
        },
        match phone {
            Some(p) => p.len() > 0 && jfield(j, "Phone"@) == JsonV::Str(p),
            None => jfield(j, "Phone"@) == JsonV::Null,
        },
        match account {
            Some(a) => a.len() > 0 && jfield(j, "AccountId"@) == JsonV::Str(a),
            None => jfield(j, "AccountId"@) == JsonV::Null,
        },
    ensures
        created_id(created) == i,
        contact_v(j, false).id == i,
        contact_v(j, false).first_name == Some(first),
        contact_v(j, false).last_name == Some(last),
        contact_v(j, false).email == email,
        contact_v(j, false).phone == phone,
        contact_v(j, false).company_id == account,
        contact_v(j, false).backend == "salesforce"@,
{
}

/// An account record becomes a company field by field: the id from `Id`, the
/// name from `Name`, the domain from `Website`, the industry from `Industry`,
/// the phone from `Phone`, the city from `BillingCity` and the country from
/// `BillingCountry` (empty texts read as absent). A listing gives one such
/// company per record, in order.
pub proof fn salesforce_company_fields(c: JsonV, j: JsonV)
    ensures
        company_v(c).id == str_or_empty(jfield(c, "Id"@)),
        company_v(c).name == str_or_empty(jfield(c, "Name"@)),
        company_v(c).domain == nonempty(jfield(c, "Website"@)),
        company_v(c).industry == nonempty(jfield(c, "Industry"@)),
        company_v(c).phone == nonempty(jfield(c, "Phone"@)),
        company_v(c).city == nonempty(jfield(c, "BillingCity"@)),
        company_v(c).country == nonempty(jfield(c, "BillingCountry"@)),
        companies_v(j).len() == records_of(j).len(),
        forall|i: int|
            0 <= i < companies_v(j).len() ==> {
                &&& (#[trigger] companies_v(j)[i]).city == nonempty(jfield(records_of(j)[i], "BillingCity"@))
                &&& companies_v(j)[i].country == nonempty(jfield(records_of(j)[i], "BillingCountry"@))
                &&& companies_v(j)[i].id == str_or_empty(jfield(records_of(j)[i], "Id"@))
            },
{
}

/// A company creation round-trips the fields it sends: the account sent
/// holds `Name`, and `Website` and `Industry` when given; an account read
/// back that holds them gives a company with that name, domain and industry.
pub proof fn salesforce_create_company_round_trip(
    name: Seq<char>,
    domain: Option<Seq<char>>,
    industry: Option<Seq<char>>,
    j: JsonV,
)
    requires
        jfield(j, "Name"@) == JsonV::Str(name),
        domain matches Some(d) ==> d.len() > 0 && jfield(j, "Website"@) == JsonV::Str(d),
        industry matches Some(x) ==> x.len() > 0 && jfield(j, "Industry"@) == JsonV::Str(x),
    ensures
        (seq![("Name"@, JsonV::Str(name))] + opt_text_entry("Website"@, domain) + opt_text_entry(
            "Industry"@,
            industry,
        )).contains(("Name"@, JsonV::Str(name))),
        domain matches Some(d) ==> (seq![("Name"@, JsonV::Str(name))] + opt_text_entry("Website"@, domain)
            + opt_text_entry("Industry"@, industry)).contains(("Website"@, JsonV::Str(d))),
        company_v(j).name == name,
        domain is Some ==> company_v(j).domain == domain,
        industry is Some ==> company_v(j).industry == industry,
{
    let body = seq![("Name"@, JsonV::Str(name))] + opt_text_entry("Website"@, domain) + opt_text_entry(
        "Industry"@,
        industry,
    );
    assert(body[0] == ("Name"@, JsonV::Str(name)));
    if let Some(d) = domain {
        assert(body[1] == ("Website"@, JsonV::Str(d)));
    }
}

/// An opportunity record becomes a deal field by field: the contact from
/// `ContactId`, the company from `AccountId`, the stage from `StageName`, the
/// close date from `CloseDate` (empty texts read as absent). A listing gives
/// one such deal per record, in order.
pub proof fn salesforce_deal_fields(d: JsonV, j: JsonV)
    ensures
        deal_v(d).id == str_or_empty(jfield(d, "Id"@)),
        deal_v(d).name == str_or_empty(jfield(d, "Name"@)),
        deal_v(d).contact_id == nonempty(jfield(d, "ContactId"@)),
        deal_v(d).company_id == nonempty(jfield(d, "AccountId"@)),
        deal_v(d).stage == nonempty(jfield(d, "StageName"@)),
        deal_v(d).close_date == nonempty(jfield(d, "CloseDate"@)),
        deal_v(d).amount == jnum(jfield(d, "Amount"@)),
        deal_v(d).probability == jnum(jfield(d, "Probability"@)),
        deals_v(j).len() == records_of(j).len(),
        forall|i: int|
            0 <= i < deals_v(j).len() ==> {
                &&& (#[trigger] deals_v(j)[i]).contact_id == nonempty(jfield(records_of(j)[i], "ContactId"@))
                &&& deals_v(j)[i].company_id == nonempty(jfield(records_of(j)[i], "AccountId"@))
            },
{
}

/// A deal creation round-trips its links: the opportunity sent holds
/// `ContactId` c and `AccountId` a, and an opportunity read back that holds
/// them gives a deal whose contact is c and whose company is a.
pub proof fn salesforce_create_deal_round_trip(
    name: Seq<char>,
    amount: Option<AmountV>,
    stage: Option<Seq<char>>,
    c: Seq<char>,
    a: Seq<char>,
    today: Seq<char>,
    j: JsonV,
)
    requires
        c.len() > 0 && jfield(j, "ContactId"@) == JsonV::Str(c),
        a.len() > 0 && jfield(j, "AccountId"@) == JsonV::Str(a),
    ensures
        SalesforceBackend::new_deal_fields(name, amount, stage, Some(c), Some(a), today).contains(
            ("ContactId"@, JsonV::Str(c)),
        ),
        SalesforceBackend::new_deal_fields(name, amount, stage, Some(c), Some(a), today).contains(
            ("AccountId"@, JsonV::Str(a)),
        ),
        deal_v(j).contact_id == Some(c),
        deal_v(j).company_id == Some(a),
{
    let f = SalesforceBackend::new_deal_fields(name, amount, stage, Some(c), Some(a), today);
    let n = f.len();
    assert(f[n - 2] == ("ContactId"@, JsonV::Str(c)));
    assert(f[n - 1] == ("AccountId"@, JsonV::Str(a)));
}

/// A task record becomes an activity field by field: the subject from
/// `Subject`, the body from `Description`, the contact from `WhoId`, the deal
/// from `WhatId`, done when `Status` is `Completed`. A listing gives one such
/// activity per record, in order.
pub proof fn salesforce_task_fields(t: JsonV, j: JsonV)
    ensures
        task_v(t).subject == nonempty(jfield(t, "Subject"@)),
        task_v(t).body == nonempty(jfield(t, "Description"@)),
        task_v(t).contact_id == nonempty(jfield(t, "WhoId"@)),
        task_v(t).deal_id == nonempty(jfield(t, "WhatId"@)),
        task_v(t).done == (jfield(t, "Status"@) == JsonV::Str("Completed"@)),
        task_v(t).due_date == nonempty(jfield(t, "ActivityDate"@)),
        task_v(t).id == str_or_empty(jfield(t, "Id"@)),
        jstr(jfield(t, "TaskSubtype"@)) matches Some(x) ==> task_v(t).activity_type == x,
        tasks_v(j).len() == records_of(j).len(),
        forall|i: int|
            0 <= i < tasks_v(j).len() ==> {
                &&& (#[trigger] tasks_v(j)[i]).subject == nonempty(jfield(records_of(j)[i], "Subject"@))
                &&& tasks_v(j)[i].body == nonempty(jfield(records_of(j)[i], "Description"@))
            },
{
}

/// An activity logged and then listed back keeps its subject and body: the
/// task sent holds `Subject` s and `Description` b, and a task read back that
/// holds them lists as an activity with subject s and body b.
pub proof fn salesforce_activity_round_trip(
    activity_type: Seq<char>,
    s: Seq<char>,
    b: Seq<char>,
    contact: Option<Seq<char>>,
    deal: Option<Seq<char>>,
    t: JsonV,
)
    requires
        s.len() > 0 && jfield(t, "Subject"@) == JsonV::Str(s),
        b.len() > 0 && jfield(t, "Description"@) == JsonV::Str(b),
    ensures
        (seq![("Subject"@, JsonV::Str(s)), ("TaskSubtype"@, JsonV::Str(activity_type))] + opt_text_entry(
            "Description"@,
            Some(b),
        ) + opt_text_entry("WhoId"@, contact) + opt_text_entry("WhatId"@, deal)).contains(
            ("Subject"@, JsonV::Str(s)),
        ),
        (seq![("Subject"@, JsonV::Str(s)), ("TaskSubtype"@, JsonV::Str(activity_type))] + opt_text_entry(
            "Description"@,
            Some(b),
        ) + opt_text_entry("WhoId"@, contact) + opt_text_entry("WhatId"@, deal)).contains(
            ("Description"@, JsonV::Str(b)),
        ),
        task_v(t).subject == Some(s),
        task_v(t).body == Some(b),
{
    let f = seq![("Subject"@, JsonV::Str(s)), ("TaskSubtype"@, JsonV::Str(activity_type))] + opt_text_entry(
        "Description"@,
        Some(b),
    ) + opt_text_entry("WhoId"@, contact) + opt_text_entry("WhatId"@, deal);
    assert(f[0] == ("Subject"@, JsonV::Str(s)));
    assert(f[2] == ("Description"@, JsonV::Str(b)));
}

/// Every note a listing returns carries the contact and the deal the listing
/// was asked for, and its content is the record's `Body`: the same ids a note
/// created for that contact and deal carries.
pub proof fn salesforce_listed_notes_carry_the_asked_ids(
    j: JsonV,
    contact: Option<Seq<char>>,
    deal: Option<Seq<char>>,
)
    ensures
        notes_v(j, contact, deal).len() == records_of(j).len(),
        forall|i: int|
            0 <= i < notes_v(j, contact, deal).len() ==> {
                &&& (#[trigger] notes_v(j, contact, deal)[i]).contact_id == contact
                &&& notes_v(j, contact, deal)[i].deal_id == deal
                &&& notes_v(j, contact, deal)[i].content == str_or_empty(jfield(records_of(j)[i], "Body"@))
            },
{
}

/// A Salesforce contact record becomes a contact field by field: names,
/// e-mail, phone, account and title from `FirstName`, `LastName`, `Email`,
/// `Phone`, `AccountId`, `Title` (empty texts read as absent), the account's
/// name (in listings) from `Account.Name`; a stage becomes a pipeline stage
/// with its id from `ApiName` and its name from `MasterLabel`; a note takes its
/// content from `Body` and its time from `CreatedDate`.
pub proof fn salesforce_contact_stage_note_fields(
    v: JsonV,
    i: int,
    contact: Option<Seq<char>>,
    deal: Option<Seq<char>>,
)
    ensures
        contact_v(v, true).id == str_or_empty(jfield(v, "Id"@)),
        contact_v(v, true).first_name == nonempty(jfield(v, "FirstName"@)),
        contact_v(v, true).last_name == nonempty(jfield(v, "LastName"@)),
        contact_v(v, true).email == nonempty(jfield(v, "Email"@)),
        contact_v(v, true).phone == nonempty(jfield(v, "Phone"@)),
        contact_v(v, true).company_id == nonempty(jfield(v, "AccountId"@)),
        contact_v(v, true).company_name == jstr(jfield(jfield(v, "Account"@), "Name"@)),
        contact_v(v, true).title == nonempty(jfield(v, "Title"@)),
        contact_v(v, false).company_name is None,
        stage_v(v, i).id == str_or_empty(jfield(v, "ApiName"@)),
        stage_v(v, i).name == str_or_empty(jfield(v, "MasterLabel"@)),
        stage_v(v, i).order == i as u32,
        note_v(v, contact, deal).id == str_or_empty(jfield(v, "Id"@)),
        note_v(v, contact, deal).content == str_or_empty(jfield(v, "Body"@)),
        note_v(v, contact, deal).created_at == nonempty(jfield(v, "CreatedDate"@)),
        note_v(v, contact, deal).contact_id == contact,
        note_v(v, contact, deal).deal_id == deal,
{
}

} // verus!
