//! The Pipedrive REST API v1 backend: the requests it sends and how its
//! replies become unified records.
use vstd::prelude::*;
use crate::http::{Auth, AuthV, HttpError, Method, Reply, Request, RequestV, Step, StepV, after, fail, finish, rv};
use crate::json::{
    Json, JsonV, array, array1, array_of, bool_of, entries_view, field, int_text, int_text_of,
    int_text_or_empty, int_text_or_empty_of, items_view, jarray, jbool, jfield, jinteger, jitem,
    jnum, jstr, jtext, map_array, map_items, no_entries, nonempty, nonempty_text, number_text,
    object, object1, opt_json_view, opt_text_entry, push_entry, push_opt_text, str_or_empty,
    text_opt, text_or_empty, u64_of, ju64, item, ov,
};
use crate::text::{
    copy_opt, dec, dec_int, join2, join3, join3_dec, join_dec, join_num, opt_str_view, opt_string_view, owned,
    owned_opt, parse_i64, parse_i64_or_zero, parse_i64_spec,
};
use crate::urlencoding::{encode, encode_bytes};
use vstd::utf8::encode_utf8;
use crate::types::{
    Activity, ActivityV, Amount, AmountV, Company, CompanyV, Contact, ContactV, Deal, DealV, Note,
    NoteV, Pipeline, PipelineStage, PipelineStageV, PipelineV, amount_json, amount_view,
};

verus! {

/// The Pipedrive backend, holding its API token.
#[derive(Debug, PartialEq)]
pub struct PipedriveBackend {
    pub token: String,
}

/// `pd(v, k)`: `v[k]` as non-empty text, else as an integer's numeral.
pub open spec fn pd_v(v: JsonV, k: Seq<char>) -> Option<Seq<char>> {
    match nonempty(jfield(v, k)) {
        Some(s) => Some(s),
        None => int_text(jfield(v, k)),
    }
}

/// `v[k][0]["value"]` as text: the first entry of a list of labelled values.
pub open spec fn first_value(v: JsonV, k: Seq<char>) -> Option<Seq<char>> {
    match jarray(jfield(v, k)) {
        Some(a) => if a.len() > 0 {
            jstr(jfield(a[0], "value"@))
        } else {
            None
        },
        None => None,
    }
}

/// A person as a contact, under the given id.
pub open spec fn person_v(c: JsonV, id: Seq<char>) -> ContactV {
    ContactV {
        id,
        first_name: jstr(jfield(c, "first_name"@)),
        last_name: jstr(jfield(c, "last_name"@)),
        email: first_value(c, "email"@),
        phone: first_value(c, "phone"@),
        company_id: int_text(jfield(jfield(c, "org_id"@), "value"@)),
        company_name: jstr(jfield(jfield(c, "org_id"@), "name"@)),
        title: None,
        backend: "pipedrive"@,
    }
}

/// The id a record carries, as a numeral (empty when missing).
pub open spec fn id_of(v: JsonV) -> Seq<char> {
    int_text_or_empty(jfield(v, "id"@))
}

pub open spec fn persons_v(j: JsonV) -> Seq<ContactV> {
    map_array(jfield(j, "data"@), (), |u: (), c: JsonV| person_v(c, id_of(c)))
}

/// A search hit as a contact.
pub open spec fn hit_v(item: JsonV) -> ContactV {
    let c = jfield(item, "item"@);
    ContactV {
        id: id_of(c),
        first_name: None,
        last_name: None,
        email: jstr(jfield(c, "primary_email"@)),
        phone: jstr(jfield(c, "primary_phone"@)),
        company_id: None,
        company_name: jstr(jfield(jfield(c, "organization"@), "name"@)),
        title: None,
        backend: "pipedrive"@,
    }
}

pub open spec fn hits_v(j: JsonV) -> Seq<ContactV> {
    map_array(jfield(jfield(j, "data"@), "items"@), (), |u: (), i: JsonV| hit_v(i))
}

pub open spec fn organization_v(c: JsonV, id: Seq<char>) -> CompanyV {
    CompanyV {
        id,
        name: str_or_empty(jfield(c, "name"@)),
        domain: None,
        industry: None,
        phone: None,
        city: pd_v(c, "address_locality"@),
        country: pd_v(c, "address_country"@),
        backend: "pipedrive"@,
    }
}

pub open spec fn organizations_v(j: JsonV) -> Seq<CompanyV> {
    map_array(jfield(j, "data"@), (), |u: (), c: JsonV| organization_v(c, id_of(c)))
}

pub open spec fn deal_v(d: JsonV, id: Seq<char>) -> DealV {
    DealV {
        id,
        name: str_or_empty(jfield(d, "title"@)),
        stage: int_text(jfield(d, "stage_id"@)),
        pipeline: int_text(jfield(d, "pipeline_id"@)),
        amount: jnum(jfield(d, "value"@)),
        currency: pd_v(d, "currency"@),
        contact_id: int_text(jfield(jfield(d, "person_id"@), "value"@)),
        company_id: int_text(jfield(jfield(d, "org_id"@), "value"@)),
        close_date: pd_v(d, "expected_close_date"@),
        probability: jnum(jfield(d, "probability"@)),
        status: pd_v(d, "status"@),
        backend: "pipedrive"@,
    }
}

pub open spec fn deals_v(j: JsonV) -> Seq<DealV> {
    map_array(jfield(j, "data"@), (), |u: (), d: JsonV| deal_v(d, id_of(d)))
}

pub open spec fn activity_v(t: JsonV) -> ActivityV {
    ActivityV {
        id: id_of(t),
        activity_type: match jstr(jfield(t, "type"@)) {
            Some(s) => s,
            None => "task"@,
        },
        subject: pd_v(t, "subject"@),
        body: pd_v(t, "note"@),
        contact_id: int_text(jfield(t, "person_id"@)),
        deal_id: int_text(jfield(t, "deal_id"@)),
        done: match jbool(jfield(t, "done"@)) {
            Some(b) => b,
            None => false,
        },
        due_date: pd_v(t, "due_date"@),
        backend: "pipedrive"@,
    }
}

pub open spec fn activities_v(j: JsonV) -> Seq<ActivityV> {
    map_array(jfield(j, "data"@), (), |u: (), t: JsonV| activity_v(t))
}

pub open spec fn stage_v(s: JsonV) -> PipelineStageV {
    PipelineStageV {
        id: id_of(s),
        name: str_or_empty(jfield(s, "name"@)),
        order: match ju64(jfield(s, "order_nr"@)) {
            Some(n) => n as u32,
            None => 0,
        },
        deal_count: match ju64(jfield(jfield(s, "deals_summary"@), "total_count"@)) {
            Some(n) => Some(n as u32),
            None => None,
        },
        total_value: jnum(jfield(jfield(s, "deals_summary"@), "total_value"@)),
    }
}

/// The stages a stage listing gave; none when it failed.
pub open spec fn stages_v(r: Result<JsonV, Seq<char>>) -> Seq<PipelineStageV> {
    match r {
        Ok(j) => map_array(jfield(j, "data"@), (), |u: (), s: JsonV| stage_v(s)),
        Err(_) => Seq::empty(),
    }
}

pub open spec fn pipeline_v(p: JsonV, stages: Result<JsonV, Seq<char>>) -> PipelineV {
    PipelineV {
        id: id_of(p),
        name: str_or_empty(jfield(p, "name"@)),
        stages: stages_v(stages),
        backend: "pipedrive"@,
    }
}

/// The pipelines a pipeline listing gave; none when `data` is not a list.
pub open spec fn pipeline_list(j: JsonV) -> Seq<JsonV> {
    match jarray(jfield(j, "data"@)) {
        Some(a) => a,
        None => Seq::empty(),
    }
}

pub open spec fn note_v(n: JsonV) -> NoteV {
    NoteV {
        id: id_of(n),
        content: str_or_empty(jfield(n, "content"@)),
        contact_id: int_text(jfield(n, "person_id"@)),
        company_id: int_text(jfield(n, "org_id"@)),
        deal_id: int_text(jfield(n, "deal_id"@)),
        created_at: pd_v(n, "add_time"@),
        backend: "pipedrive"@,
    }
}

pub open spec fn notes_v(j: JsonV) -> Seq<NoteV> {
    map_array(jfield(j, "data"@), (), |u: (), n: JsonV| note_v(n))
}

/// `s.parse::<i64>().unwrap_or(0)`.
pub open spec fn id_number(s: Seq<char>) -> int {
    match parse_i64_spec(s) {
        Some(v) => v as int,
        None => 0,
    }
}

/// The failure reported for a stage that is not a numeric stage id.
pub open spec fn stage_error(stage: Seq<char>) -> Seq<char> {
    "stage must be a numeric Pipedrive stage id, got `"@ + stage + "`"@
}

/// Whether a stage is given and is not a numeric stage id.
pub open spec fn bad_stage(stage: Option<Seq<char>>) -> bool {
    match stage {
        Some(st) => parse_i64_spec(st) is None,
        None => false,
    }
}

fn stage_check(stage: Option<&str>) -> (r: Option<HttpError>)
    ensures
        match r {
            Some(e) => bad_stage(opt_str_view(stage)) && e@ == stage_error(stage->0@),
            None => !bad_stage(opt_str_view(stage)),
        },
{
    match stage {
        Some(st) => match parse_i64(st) {
            Some(_) => None,
            None => Some(
                HttpError { message: join3("stage must be a numeric Pipedrive stage id, got `", st, "`") },
            ),
        },
        None => None,
    }
}

/// `[{"value": v, "primary": true}]`.
pub open spec fn primary_list(v: Seq<char>) -> JsonV {
    JsonV::Array(
        seq![JsonV::Object(seq![("value"@, JsonV::Str(v)), ("primary"@, JsonV::Bool(true))])],
    )
}

pub open spec fn opt_list_entry(k: Seq<char>, v: Option<Seq<char>>) -> Seq<(Seq<char>, JsonV)> {
    match v {
        Some(x) => seq![(k, primary_list(x))],
        None => seq![],
    }
}

/// The entry `k: id` with the id parsed as an integer (0 when it is not one).
pub open spec fn opt_id_entry(k: Seq<char>, v: Option<Seq<char>>) -> Seq<(Seq<char>, JsonV)> {
    match v {
        Some(x) => seq![(k, JsonV::Number(dec_int(id_number(x))))],
        None => seq![],
    }
}

pub open spec fn opt_value_entry(a: Option<AmountV>) -> Seq<(Seq<char>, JsonV)> {
    match a {
        Some(x) => seq![("value"@, amount_json(x))],
        None => seq![],
    }
}

/// The id in a creation reply (`data.id`), as a numeral.
pub open spec fn created_id(j: JsonV) -> Seq<char> {
    id_of(jfield(j, "data"@))
}

fn push_opt_list(es: &mut Vec<(String, Json)>, k: &str, v: Option<&str>)
    ensures
        entries_view(final(es)@) == entries_view(old(es)@) + opt_list_entry(k@, opt_str_view(v)),
{
    match v {
        Some(x) => {
            let mut ie = no_entries();
            push_entry(&mut ie, "value", jtext(x));
            push_entry(&mut ie, "primary", Json::Bool(true));
            proof {
                assert(entries_view(ie@) =~= seq![
                    ("value"@, JsonV::Str(x@)),
                    ("primary"@, JsonV::Bool(true)),
                ]);
            }
            let list = array1(object(ie));
            push_entry(es, k, list);
        },
        None => {},
    }
    proof {
        assert(entries_view(final(es)@) =~= entries_view(old(es)@) + opt_list_entry(
            k@,
            opt_str_view(v),
        ));
    }
}

fn push_opt_id(es: &mut Vec<(String, Json)>, k: &str, v: Option<&str>)
    ensures
        entries_view(final(es)@) == entries_view(old(es)@) + opt_id_entry(k@, opt_str_view(v)),
{
    match v {
        Some(x) => {
            push_entry(es, k, jinteger(parse_i64_or_zero(x)));
        },
        None => {},
    }
    proof {
        assert(entries_view(final(es)@) =~= entries_view(old(es)@) + opt_id_entry(
            k@,
            opt_str_view(v),
        ));
    }
}

fn push_opt_value(es: &mut Vec<(String, Json)>, a: Option<&Amount>)
    ensures
        entries_view(final(es)@) == entries_view(old(es)@) + opt_value_entry(amount_view(a)),
{
    match a {
        Some(x) => {
            push_entry(es, "value", x.to_json());
        },
        None => {},
    }
    proof {
        assert(entries_view(final(es)@) =~= entries_view(old(es)@) + opt_value_entry(
            amount_view(a),
        ));
    }
}

fn id_text(v: &Json) -> (r: String)
    ensures
        r@ == id_of(v@),
{
    int_text_or_empty_of(field(Some(v), "id"))
}

fn id_text_in(v: Option<&Json>) -> (r: String)
    ensures
        r@ == id_of(ov(v)),
{
    int_text_or_empty_of(field(v, "id"))
}

fn pd(v: &Json, k: &str) -> (r: Option<String>)
    ensures
        opt_string_view(r) == pd_v(v@, k@),
{
    match nonempty_text(field(Some(v), k)) {
        Some(s) => Some(s),
        None => int_text_of(field(Some(v), k)),
    }
}

fn first_value_of(v: &Json, k: &str) -> (r: Option<String>)
    ensures
        opt_string_view(r) == first_value(v@, k@),
{
    match array_of(field(Some(v), k)) {
        Some(a) => if a.len() > 0 {
            text_opt(field(Some(&a[0]), "value"))
        } else {
            None
        },
        None => None,
    }
}

impl PipedriveBackend {
    pub fn new(token: String) -> (r: Self)
        ensures
            r.token@ == token@,
    {
        PipedriveBackend { token }
    }

    /// The backend's name, which tags every record it returns.
    pub fn name(&self) -> (r: &str)
        ensures
            r@ == "pipedrive"@,
    {
        "pipedrive"
    }

    /// A GET of `https://api.pipedrive.com/v1/{path}`; the path may carry a query.
    pub open spec fn get_req(self, path: Seq<char>) -> RequestV {
        self.simple_req(Method::Get, path, None)
    }

    /// A request to `https://api.pipedrive.com/v1/{path}`. The token travels in
    /// the `x-api-token` header, never in the URL.
    pub open spec fn simple_req(self, method: Method, path: Seq<char>, body: Option<JsonV>) -> RequestV {
        RequestV {
            method,
            url: "https://api.pipedrive.com/v1/"@ + path,
            auth: AuthV::Header("x-api-token"@, self.token@),
            body,
            reads_body: true,
        }
    }

    fn get(&self, path: String) -> (r: Request)
        ensures
            r@ == self.get_req(path@),
    {
        self.simple(Method::Get, path, None)
    }

    fn simple(&self, method: Method, path: String, body: Option<Json>) -> (r: Request)
        ensures
            r@ == self.simple_req(method, path@, opt_json_view(body)),
    {
        Request {
            method,
            url: join2("https://api.pipedrive.com/v1/", path.as_str()),
            auth: Auth::Header(owned("x-api-token"), self.token.clone()),
            body,
            reads_body: true,
        }
    }

    // ---- contacts ----
    fn person_of(c: &Json, id: String) -> (r: Contact)
        ensures
            r@ == person_v(c@, id@),
    {
        Contact {
            id,
            first_name: text_opt(field(Some(c), "first_name")),
            last_name: text_opt(field(Some(c), "last_name")),
            email: first_value_of(c, "email"),
            phone: first_value_of(c, "phone"),
            company_id: int_text_of(field(field(Some(c), "org_id"), "value")),
            company_name: text_opt(field(field(Some(c), "org_id"), "name")),
            title: None,
            backend: owned("pipedrive"),
        }
    }

    fn person_item(u: &(), c: &Json) -> (r: Contact)
        ensures
            r@ == person_v(c@, id_of(c@)),
    {
        Self::person_of(c, id_text(c))
    }

    /// Lists persons as contacts.
    pub fn list_contacts(&self, limit: u32, replies: &Vec<Reply>) -> (r: Step<Vec<Contact>>)
        ensures
            replies.len() == 0 ==> r@ == StepV::<Seq<ContactV>>::Send(
                self.get_req("persons?limit="@ + dec(limit as nat)),
            ),
            replies.len() > 0 ==> r@ == finish(rv(replies@[0]), |j: JsonV| persons_v(j)),
    {
        if replies.len() == 0 {
            return Step::Send(self.get(join_dec("persons?limit=", limit as u64)));
        }
        match &replies[0] {
            Err(e) => fail(e),
            Ok(j) => Step::Done(
                Ok(
                    map_items(
                        &(),
                        array_of(field(Some(j), "data")),
                        Self::person_item,
                        Ghost(|u: (), c: JsonV| person_v(c, id_of(c))),
                    ),
                ),
            ),
        }
    }

    fn person_result(reply: &Reply, id: &str) -> (r: Step<Contact>)
        ensures
            r@ == finish(rv(*reply), |j: JsonV| person_v(jfield(j, "data"@), id@)),
    {
        match reply {
            Err(e) => fail(e),
            Ok(j) => match field(Some(j), "data") {
                Some(d) => Step::Done(Ok(Self::person_of(d, owned(id)))),
                None => {
                    let null = Json::Null;
                    Step::Done(Ok(Self::person_of(&null, owned(id))))
                },
            },
        }
    }

    fn person_request(&self, id: &str) -> (r: Request)
        ensures
            r@ == self.simple_req(Method::Get, "persons/"@ + id@, None),
    {
        self.simple(Method::Get, join2("persons/", id), None)
    }

    /// Gets one person; the contact carries the id asked for.
    pub fn get_contact(&self, id: &str, replies: &Vec<Reply>) -> (r: Step<Contact>)
        ensures
            replies.len() == 0 ==> r@ == StepV::<ContactV>::Send(
                self.simple_req(Method::Get, "persons/"@ + id@, None),
            ),
            replies.len() > 0 ==> r@ == finish(
                rv(replies@[0]),
                |j: JsonV| person_v(jfield(j, "data"@), id@),
            ),
    {
        if replies.len() == 0 {
            return Step::Send(self.person_request(id));
        }
        Self::person_result(&replies[0], id)
    }

    /// The body of a new person.
    pub open spec fn new_person_body(
        first: Seq<char>,
        last: Seq<char>,
        email: Option<Seq<char>>,
        phone: Option<Seq<char>>,
        company: Option<Seq<char>>,
    ) -> JsonV {
        JsonV::Object(
            seq![
                ("first_name"@, JsonV::Str(first)),
                ("last_name"@, JsonV::Str(last)),
                ("name"@, JsonV::Str(first + " "@ + last)),
            ] + opt_list_entry("email"@, email) + opt_list_entry("phone"@, phone) + opt_id_entry(
                "org_id"@,
                company,
            ),
        )
    }

    /// Creates a person: a POST, then the person (by the id in the reply) read back.
    pub fn create_contact(
        &self,
        first_name: &str,
        last_name: &str,
        email: Option<&str>,
        phone: Option<&str>,
        company_id: Option<&str>,
        replies: &Vec<Reply>,
    ) -> (r: Step<Contact>)
        ensures
            replies.len() == 0 ==> r@ == StepV::<ContactV>::Send(
                self.simple_req(
                    Method::Post,
                    "persons"@,
                    Some(
                        Self::new_person_body(
                            first_name@,
                            last_name@,
                            opt_str_view(email),
                            opt_str_view(phone),
                            opt_str_view(company_id),
                        ),
                    ),
                ),
            ),
            replies.len() == 1 ==> r@ == match rv(replies@[0]) {
                Ok(j) => StepV::<ContactV>::Send(
                    self.simple_req(Method::Get, "persons/"@ + created_id(j), None),
                ),
                Err(e) => StepV::Done(Err(e)),
            },
            replies.len() > 1 ==> r@ == match rv(replies@[0]) {
                Ok(j) => finish(
                    rv(replies@[1]),
                    |k: JsonV| person_v(jfield(k, "data"@), created_id(j)),
                ),
                Err(e) => StepV::Done(Err(e)),
            },
    {
        if replies.len() == 0 {
            let mut es = no_entries();
            push_entry(&mut es, "first_name", jtext(first_name));
            push_entry(&mut es, "last_name", jtext(last_name));
            push_entry(&mut es, "name", Json::Str(join3(first_name, " ", last_name)));
            push_opt_list(&mut es, "email", email);
            push_opt_list(&mut es, "phone", phone);
            push_opt_id(&mut es, "org_id", company_id);
            proof {
                assert(entries_view(es@) =~= seq![
                    ("first_name"@, JsonV::Str(first_name@)),
                    ("last_name"@, JsonV::Str(last_name@)),
                    ("name"@, JsonV::Str(first_name@ + " "@ + last_name@)),
                ] + opt_list_entry("email"@, opt_str_view(email)) + opt_list_entry(
                    "phone"@,
                    opt_str_view(phone),
                ) + opt_id_entry("org_id"@, opt_str_view(company_id)));
            }
            return Step::Send(self.simple(Method::Post, owned("persons"), Some(object(es))));
        }
        match &replies[0] {
            Err(e) => fail(e),
            Ok(j) => {
                let id = id_text_in(field(Some(j), "data"));
                if replies.len() == 1 {
                    Step::Send(self.person_request(id.as_str()))
                } else {
                    Self::person_result(&replies[1], id.as_str())
                }
            },
        }
    }

    /// The body of a person update.
    pub open spec fn person_update_body(
        first: Option<Seq<char>>,
        last: Option<Seq<char>>,
        email: Option<Seq<char>>,
        phone: Option<Seq<char>>,
    ) -> JsonV {
        JsonV::Object(
            opt_text_entry("first_name"@, first) + opt_text_entry("last_name"@, last)
                + opt_list_entry("email"@, email) + opt_list_entry("phone"@, phone),
        )
    }

    /// Updates a person: a PUT of the given fields, then the person read back.
    pub fn update_contact(
        &self,
        id: &str,
        first_name: Option<&str>,
        last_name: Option<&str>,
        email: Option<&str>,
        phone: Option<&str>,
        replies: &Vec<Reply>,
    ) -> (r: Step<Contact>)
        ensures
            replies.len() == 0 ==> r@ == StepV::<ContactV>::Send(
                self.simple_req(
                    Method::Put,
                    "persons/"@ + id@,
                    Some(
                        Self::person_update_body(
                            opt_str_view(first_name),
                            opt_str_view(last_name),
                            opt_str_view(email),
                            opt_str_view(phone),
                        ),
                    ),
                ),
            ),
            replies.len() == 1 ==> r@ == after(
                rv(replies@[0]),
                StepV::<ContactV>::Send(self.simple_req(Method::Get, "persons/"@ + id@, None)),
            ),
            replies.len() > 1 ==> r@ == after(
                rv(replies@[0]),
                finish(rv(replies@[1]), |j: JsonV| person_v(jfield(j, "data"@), id@)),
            ),
    {
        if replies.len() == 0 {
            let mut es = no_entries();
            push_opt_text(&mut es, "first_name", first_name);
            push_opt_text(&mut es, "last_name", last_name);
            push_opt_list(&mut es, "email", email);
            push_opt_list(&mut es, "phone", phone);
            proof {
                assert(entries_view(es@) =~= opt_text_entry("first_name"@, opt_str_view(first_name))
                    + opt_text_entry("last_name"@, opt_str_view(last_name)) + opt_list_entry(
                    "email"@,
                    opt_str_view(email),
                ) + opt_list_entry("phone"@, opt_str_view(phone)));
            }
            return Step::Send(self.simple(Method::Put, join2("persons/", id), Some(object(es))));
        }
        match &replies[0] {
            Err(e) => fail(e),
            Ok(_) => if replies.len() == 1 {
                Step::Send(self.person_request(id))
            } else {
                Self::person_result(&replies[1], id)
            },
        }
    }

    fn hit_of(u: &(), item: &Json) -> (r: Contact)
        ensures
            r@ == hit_v(item@),
    {
        let c = field(Some(item), "item");
        Contact {
            id: int_text_or_empty_of(field(c, "id")),
            first_name: None,
            last_name: None,
            email: text_opt(field(c, "primary_email")),
            phone: text_opt(field(c, "primary_phone")),
            company_id: None,
            company_name: text_opt(field(field(c, "organization"), "name")),
            title: None,
            backend: owned("pipedrive"),
        }
    }

    /// Searches persons by term; the term is percent-encoded into the URL.
    pub fn search_contacts(&self, query: &str, limit: u32, replies: &Vec<Reply>) -> (r: Step<
        Vec<Contact>,
    >)
        ensures
            replies.len() == 0 ==> r@ == StepV::<Seq<ContactV>>::Send(
                self.get_req(
                    "persons/search?term="@ + encode_bytes(encode_utf8(query@)) + "&limit="@ + dec(
                        limit as nat,
                    ),
                ),
            ),
            replies.len() > 0 ==> r@ == finish(rv(replies@[0]), |j: JsonV| hits_v(j)),
    {
        if replies.len() == 0 {
            let term = encode(query);
            return Step::Send(self.get(join3_dec("persons/search?term=", term.as_str(), "&limit=", limit as u64)));
        }
        match &replies[0] {
            Err(e) => fail(e),
            Ok(j) => Step::Done(
                Ok(
                    map_items(
                        &(),
                        array_of(field(field(Some(j), "data"), "items")),
                        Self::hit_of,
                        Ghost(|u: (), i: JsonV| hit_v(i)),
                    ),
                ),
            ),
        }
    }

    // ---- companies ----
    fn organization_of(c: &Json, id: String) -> (r: Company)
        ensures
            r@ == organization_v(c@, id@),
    {
        Company {
            id,
            name: text_or_empty(field(Some(c), "name")),
            domain: None,
            industry: None,
            phone: None,
            city: pd(c, "address_locality"),
            country: pd(c, "address_country"),
            backend: owned("pipedrive"),
        }
    }

    fn organization_item(u: &(), c: &Json) -> (r: Company)
        ensures
            r@ == organization_v(c@, id_of(c@)),
    {
        Self::organization_of(c, id_text(c))
    }

    fn organization_result(reply: &Reply, id: &str) -> (r: Step<Company>)
        ensures
            r@ == finish(rv(*reply), |j: JsonV| organization_v(jfield(j, "data"@), id@)),
    {
        match reply {
            Err(e) => fail(e),
            Ok(j) => match field(Some(j), "data") {
                Some(d) => Step::Done(Ok(Self::organization_of(d, owned(id)))),
                None => {
                    let null = Json::Null;
                    Step::Done(Ok(Self::organization_of(&null, owned(id))))
                },
            },
        }
    }

    fn organization_request(&self, id: &str) -> (r: Request)
        ensures
            r@ == self.simple_req(Method::Get, "organizations/"@ + id@, None),
    {
        self.simple(Method::Get, join2("organizations/", id), None)
    }

    /// Lists organizations as companies.
    pub fn list_companies(&self, limit: u32, replies: &Vec<Reply>) -> (r: Step<Vec<Company>>)
        ensures
            replies.len() == 0 ==> r@ == StepV::<Seq<CompanyV>>::Send(
                self.get_req("organizations?limit="@ + dec(limit as nat)),
            ),
            replies.len() > 0 ==> r@ == finish(rv(replies@[0]), |j: JsonV| organizations_v(j)),
    {
        if replies.len() == 0 {
            return Step::Send(self.get(join_dec("organizations?limit=", limit as u64)));
        }
        match &replies[0] {
            Err(e) => fail(e),
            Ok(j) => Step::Done(
                Ok(
                    map_items(
                        &(),
                        array_of(field(Some(j), "data")),
                        Self::organization_item,
                        Ghost(|u: (), c: JsonV| organization_v(c, id_of(c))),
                    ),
                ),
            ),
        }
    }

    /// Gets one organization; the company carries the id asked for.
    pub fn get_company(&self, id: &str, replies: &Vec<Reply>) -> (r: Step<Company>)
        ensures
            replies.len() == 0 ==> r@ == StepV::<CompanyV>::Send(
                self.simple_req(Method::Get, "organizations/"@ + id@, None),
            ),
            replies.len() > 0 ==> r@ == finish(
                rv(replies@[0]),
                |j: JsonV| organization_v(jfield(j, "data"@), id@),
            ),
    {
        if replies.len() == 0 {
            return Step::Send(self.organization_request(id));
        }
        Self::organization_result(&replies[0], id)
    }

    /// Creates an organization by name (domain and industry are not sent),
    /// then reads it back by the id in the reply.
    pub fn create_company(
        &self,
        name: &str,
        domain: Option<&str>,
        industry: Option<&str>,
        replies: &Vec<Reply>,
    ) -> (r: Step<Company>)
        ensures
            replies.len() == 0 ==> r@ == StepV::<CompanyV>::Send(
                self.simple_req(
                    Method::Post,
                    "organizations"@,
                    Some(JsonV::Object(seq![("name"@, JsonV::Str(name@))])),
                ),
            ),
            replies.len() == 1 ==> r@ == match rv(replies@[0]) {
                Ok(j) => StepV::<CompanyV>::Send(
                    self.simple_req(Method::Get, "organizations/"@ + created_id(j), None),
                ),
                Err(e) => StepV::Done(Err(e)),
            },
            replies.len() > 1 ==> r@ == match rv(replies@[0]) {
                Ok(j) => finish(
                    rv(replies@[1]),
                    |k: JsonV| organization_v(jfield(k, "data"@), created_id(j)),
                ),
                Err(e) => StepV::Done(Err(e)),
            },
    {
        if replies.len() == 0 {
            return Step::Send(
                self.simple(Method::Post, owned("organizations"), Some(object1("name", jtext(name)))),
            );
        }
        match &replies[0] {
            Err(e) => fail(e),
            Ok(j) => {
                let id = id_text_in(field(Some(j), "data"));
                if replies.len() == 1 {
                    Step::Send(self.organization_request(id.as_str()))
                } else {
                    Self::organization_result(&replies[1], id.as_str())
                }
            },
        }
    }

    /// Updates an organization's name (domain and industry are not sent), then reads it back.
    pub fn update_company(
        &self,
        id: &str,
        name: Option<&str>,
        domain: Option<&str>,
        industry: Option<&str>,
        replies: &Vec<Reply>,
    ) -> (r: Step<Company>)
        ensures
            replies.len() == 0 ==> r@ == StepV::<CompanyV>::Send(
                self.simple_req(
                    Method::Put,
                    "organizations/"@ + id@,
                    Some(JsonV::Object(opt_text_entry("name"@, opt_str_view(name)))),
                ),
            ),
            replies.len() == 1 ==> r@ == after(
                rv(replies@[0]),
                StepV::<CompanyV>::Send(self.simple_req(Method::Get, "organizations/"@ + id@, None)),
            ),
            replies.len() > 1 ==> r@ == after(
                rv(replies@[0]),
                finish(rv(replies@[1]), |j: JsonV| organization_v(jfield(j, "data"@), id@)),
            ),
    {
        if replies.len() == 0 {
            let mut es = no_entries();
            push_opt_text(&mut es, "name", name);
            proof {
                assert(entries_view(es@) =~= opt_text_entry("name"@, opt_str_view(name)));
            }
            return Step::Send(
                self.simple(Method::Put, join2("organizations/", id), Some(object(es))),
            );
        }
        match &replies[0] {
            Err(e) => fail(e),
            Ok(_) => if replies.len() == 1 {
                Step::Send(self.organization_request(id))
            } else {
                Self::organization_result(&replies[1], id)
            },
        }
    }

    // ---- deals ----
    fn deal_of(d: &Json, id: String) -> (r: Deal)
        ensures
            r@ == deal_v(d@, id@),
    {
        Deal {
            id,
            name: text_or_empty(field(Some(d), "title")),
            stage: int_text_of(field(Some(d), "stage_id")),
            pipeline: int_text_of(field(Some(d), "pipeline_id")),
            amount: number_text(field(Some(d), "value")),
            currency: pd(d, "currency"),
            contact_id: int_text_of(field(field(Some(d), "person_id"), "value")),
            company_id: int_text_of(field(field(Some(d), "org_id"), "value")),
            close_date: pd(d, "expected_close_date"),
            probability: number_text(field(Some(d), "probability")),
            status: pd(d, "status"),
            backend: owned("pipedrive"),
        }
    }

    fn deal_item(u: &(), d: &Json) -> (r: Deal)
        ensures
            r@ == deal_v(d@, id_of(d@)),
    {
        Self::deal_of(d, id_text(d))
    }

    fn deal_result(reply: &Reply, id: &str) -> (r: Step<Deal>)
        ensures
            r@ == finish(rv(*reply), |j: JsonV| deal_v(jfield(j, "data"@), id@)),
    {
        match reply {
            Err(e) => fail(e),
            Ok(j) => match field(Some(j), "data") {
                Some(d) => Step::Done(Ok(Self::deal_of(d, owned(id)))),
                None => {
                    let null = Json::Null;
                    Step::Done(Ok(Self::deal_of(&null, owned(id))))
                },
            },
        }
    }

    fn deal_request(&self, id: &str) -> (r: Request)
        ensures
            r@ == self.simple_req(Method::Get, "deals/"@ + id@, None),
    {
        self.simple(Method::Get, join2("deals/", id), None)
    }

    /// Lists deals.
    pub fn list_deals(&self, limit: u32, replies: &Vec<Reply>) -> (r: Step<Vec<Deal>>)
        ensures
            replies.len() == 0 ==> r@ == StepV::<Seq<DealV>>::Send(
                self.get_req("deals?limit="@ + dec(limit as nat)),
            ),
            replies.len() > 0 ==> r@ == finish(rv(replies@[0]), |j: JsonV| deals_v(j)),
    {
        if replies.len() == 0 {
            return Step::Send(self.get(join_dec("deals?limit=", limit as u64)));
        }
        match &replies[0] {
            Err(e) => fail(e),
            Ok(j) => Step::Done(
                Ok(
                    map_items(
                        &(),
                        array_of(field(Some(j), "data")),
                        Self::deal_item,
                        Ghost(|u: (), d: JsonV| deal_v(d, id_of(d))),
                    ),
                ),
            ),
        }
    }

    /// Gets one deal; the deal carries the id asked for.
    pub fn get_deal(&self, id: &str, replies: &Vec<Reply>) -> (r: Step<Deal>)
        ensures
            replies.len() == 0 ==> r@ == StepV::<DealV>::Send(
                self.simple_req(Method::Get, "deals/"@ + id@, None),
            ),
            replies.len() > 0 ==> r@ == finish(
                rv(replies@[0]),
                |j: JsonV| deal_v(jfield(j, "data"@), id@),
            ),
    {
        if replies.len() == 0 {
            return Step::Send(self.deal_request(id));
        }
        Self::deal_result(&replies[0], id)
    }

    /// The body of a new deal.
    pub open spec fn new_deal_body(
        name: Seq<char>,
        amount: Option<AmountV>,
        stage: Option<Seq<char>>,
        contact: Option<Seq<char>>,
        company: Option<Seq<char>>,
    ) -> JsonV {
        JsonV::Object(
            seq![("title"@, JsonV::Str(name))] + opt_value_entry(amount) + opt_id_entry(
                "stage_id"@,
                stage,
            ) + opt_id_entry("person_id"@, contact) + opt_id_entry("org_id"@, company),
        )
    }

    /// Creates a deal: a POST, then the deal (by the id in the reply) read back.
    /// A stage that is not a numeric stage id is refused.
    pub fn create_deal(
        &self,
        name: &str,
        amount: Option<&Amount>,
        stage: Option<&str>,
        contact_id: Option<&str>,
        company_id: Option<&str>,
        replies: &Vec<Reply>,
    ) -> (r: Step<Deal>)
        ensures
            bad_stage(opt_str_view(stage)) ==> r@ == StepV::<DealV>::Done(
                Err(stage_error(stage->0@)),
            ),
            !bad_stage(opt_str_view(stage)) && replies.len() == 0 ==> r@ == StepV::<DealV>::Send(
                self.simple_req(
                    Method::Post,
                    "deals"@,
                    Some(
                        Self::new_deal_body(
                            name@,
                            amount_view(amount),
                            opt_str_view(stage),
                            opt_str_view(contact_id),
                            opt_str_view(company_id),
                        ),
                    ),
                ),
            ),
            !bad_stage(opt_str_view(stage)) && replies.len() == 1 ==> r@ == match rv(replies@[0]) {
                Ok(j) => StepV::<DealV>::Send(
                    self.simple_req(Method::Get, "deals/"@ + created_id(j), None),
                ),
                Err(e) => StepV::Done(Err(e)),
            },
            !bad_stage(opt_str_view(stage)) && replies.len() > 1 ==> r@ == match rv(replies@[0]) {
                Ok(j) => finish(
                    rv(replies@[1]),
                    |k: JsonV| deal_v(jfield(k, "data"@), created_id(j)),
                ),
                Err(e) => StepV::Done(Err(e)),
            },
    {
        match stage_check(stage) {
            Some(e) => {
                return Step::Done(Err(e));
            },
            None => {},
        }
        if replies.len() == 0 {
            let mut es = no_entries();
            push_entry(&mut es, "title", jtext(name));
            push_opt_value(&mut es, amount);
            push_opt_id(&mut es, "stage_id", stage);
            push_opt_id(&mut es, "person_id", contact_id);
            push_opt_id(&mut es, "org_id", company_id);
            proof {
                assert(entries_view(es@) =~= seq![("title"@, JsonV::Str(name@))] + opt_value_entry(
                    amount_view(amount),
                ) + opt_id_entry("stage_id"@, opt_str_view(stage)) + opt_id_entry(
                    "person_id"@,
                    opt_str_view(contact_id),
                ) + opt_id_entry("org_id"@, opt_str_view(company_id)));
            }
            return Step::Send(self.simple(Method::Post, owned("deals"), Some(object(es))));
        }
        match &replies[0] {
            Err(e) => fail(e),
            Ok(j) => {
                let id = id_text_in(field(Some(j), "data"));
                if replies.len() == 1 {
                    Step::Send(self.deal_request(id.as_str()))
                } else {
                    Self::deal_result(&replies[1], id.as_str())
                }
            },
        }
    }

    /// The body of a deal update.
    pub open spec fn deal_update_body(
        name: Option<Seq<char>>,
        amount: Option<AmountV>,
        stage: Option<Seq<char>>,
        close_date: Option<Seq<char>>,
    ) -> JsonV {
        JsonV::Object(
            opt_text_entry("title"@, name) + opt_value_entry(amount) + opt_id_entry(
                "stage_id"@,
                stage,
            ) + opt_text_entry("expected_close_date"@, close_date),
        )
    }

    /// Updates a deal: a PUT of the given fields, then the deal read back.
    /// A stage that is not a numeric stage id is refused.
    pub fn update_deal(
        &self,
        id: &str,
        name: Option<&str>,
        amount: Option<&Amount>,
        stage: Option<&str>,
        close_date: Option<&str>,
        replies: &Vec<Reply>,
    ) -> (r: Step<Deal>)
        ensures
            bad_stage(opt_str_view(stage)) ==> r@ == StepV::<DealV>::Done(
                Err(stage_error(stage->0@)),
            ),
            !bad_stage(opt_str_view(stage)) && replies.len() == 0 ==> r@ == StepV::<DealV>::Send(
                self.simple_req(
                    Method::Put,
                    "deals/"@ + id@,
                    Some(
                        Self::deal_update_body(
                            opt_str_view(name),
                            amount_view(amount),
                            opt_str_view(stage),
                            opt_str_view(close_date),
                        ),
                    ),
                ),
            ),
            !bad_stage(opt_str_view(stage)) && replies.len() == 1 ==> r@ == after(
                rv(replies@[0]),
                StepV::<DealV>::Send(self.simple_req(Method::Get, "deals/"@ + id@, None)),
            ),
            !bad_stage(opt_str_view(stage)) && replies.len() > 1 ==> r@ == after(
                rv(replies@[0]),
                finish(rv(replies@[1]), |j: JsonV| deal_v(jfield(j, "data"@), id@)),
            ),
    {
        match stage_check(stage) {
            Some(e) => {
                return Step::Done(Err(e));
            },
            None => {},
        }
        if replies.len() == 0 {
            let mut es = no_entries();
            push_opt_text(&mut es, "title", name);
            push_opt_value(&mut es, amount);
            push_opt_id(&mut es, "stage_id", stage);
            push_opt_text(&mut es, "expected_close_date", close_date);
            proof {
                assert(entries_view(es@) =~= opt_text_entry("title"@, opt_str_view(name))
                    + opt_value_entry(amount_view(amount)) + opt_id_entry(
                    "stage_id"@,
                    opt_str_view(stage),
                ) + opt_text_entry("expected_close_date"@, opt_str_view(close_date)));
            }
            return Step::Send(self.simple(Method::Put, join2("deals/", id), Some(object(es))));
        }
        match &replies[0] {
            Err(e) => fail(e),
            Ok(_) => if replies.len() == 1 {
                Step::Send(self.deal_request(id))
            } else {
                Self::deal_result(&replies[1], id)
            },
        }
    }

    /// Moves a deal to a stage (by its numeric id, 0 when it is not a number),
    /// then reads the deal back.
    pub fn move_deal_stage(&self, id: &str, stage: &str, replies: &Vec<Reply>) -> (r: Step<Deal>)
        ensures
            parse_i64_spec(stage@) is None ==> r@ == StepV::<DealV>::Done(
                Err(stage_error(stage@)),
            ),
            parse_i64_spec(stage@) matches Some(n) ==> {
                &&& replies.len() == 0 ==> r@ == StepV::<DealV>::Send(
                    self.simple_req(
                        Method::Put,
                        "deals/"@ + id@,
                        Some(JsonV::Object(seq![("stage_id"@, JsonV::Number(dec_int(n as int)))])),
                    ),
                )
                &&& replies.len() == 1 ==> r@ == after(
                    rv(replies@[0]),
                    StepV::<DealV>::Send(self.simple_req(Method::Get, "deals/"@ + id@, None)),
                )
                &&& replies.len() > 1 ==> r@ == after(
                    rv(replies@[0]),
                    finish(rv(replies@[1]), |j: JsonV| deal_v(jfield(j, "data"@), id@)),
                )
            },
    {
        let n = match parse_i64(stage) {
            Some(n) => n,
            None => {
                return Step::Done(Err(HttpError { message: join3("stage must be a numeric Pipedrive stage id, got `", stage, "`") }));
            },
        };
        if replies.len() == 0 {
            let body = object1("stage_id", jinteger(n));
            return Step::Send(self.simple(Method::Put, join2("deals/", id), Some(body)));
        }
        match &replies[0] {
            Err(e) => fail(e),
            Ok(_) => if replies.len() == 1 {
                Step::Send(self.deal_request(id))
            } else {
                Self::deal_result(&replies[1], id)
            },
        }
    }

    // ---- activities ----
    fn activity_of(u: &(), t: &Json) -> (r: Activity)
        ensures
            r@ == activity_v(t@),
    {
        Activity {
            id: id_text(t),
            activity_type: match text_opt(field(Some(t), "type")) {
                Some(s) => s,
                None => owned("task"),
            },
            subject: pd(t, "subject"),
            body: pd(t, "note"),
            contact_id: int_text_of(field(Some(t), "person_id")),
            deal_id: int_text_of(field(Some(t), "deal_id")),
            done: match bool_of(field(Some(t), "done")) {
                Some(b) => b,
                None => false,
            },
            due_date: pd(t, "due_date"),
            backend: owned("pipedrive"),
        }
    }

    /// Where the activities of a deal, or else all activities, are listed.
    /// Where the activities of a person, else of a deal, else of the account are listed.
    pub open spec fn activities_path(
        contact: Option<Seq<char>>,
        deal: Option<Seq<char>>,
        limit: u32,
    ) -> Seq<char> {
        match contact {
            Some(c) => "persons/"@ + c + "/activities?limit="@ + dec(limit as nat),
            None => match deal {
                Some(d) => "deals/"@ + d + "/activities?limit="@ + dec(limit as nat),
                None => "activities?limit="@ + dec(limit as nat),
            },
        }
    }

    /// Lists the activities of a person, else of a deal, else all activities.
    /// A failed request gives no activities.
    pub fn list_activities(
        &self,
        contact_id: Option<&str>,
        deal_id: Option<&str>,
        limit: u32,
        replies: &Vec<Reply>,
    ) -> (r: Step<Vec<Activity>>)
        ensures
            replies.len() == 0 ==> r@ == StepV::<Seq<ActivityV>>::Send(
                self.get_req(
                    Self::activities_path(opt_str_view(contact_id), opt_str_view(deal_id), limit),
                ),
            ),
            replies.len() > 0 ==> r@ == StepV::<Seq<ActivityV>>::Done(
                Ok(
                    match rv(replies@[0]) {
                        Ok(j) => activities_v(j),
                        Err(_) => Seq::empty(),
                    },
                ),
            ),
    {
        if replies.len() == 0 {
            let path = match contact_id {
                Some(c) => join3_dec("persons/", c, "/activities?limit=", limit as u64),
                None => match deal_id {
                    Some(d) => join3_dec("deals/", d, "/activities?limit=", limit as u64),
                    None => join_dec("activities?limit=", limit as u64),
                },
            };
            proof {
                assert(path@ =~= Self::activities_path(
                    opt_str_view(contact_id),
                    opt_str_view(deal_id),
                    limit,
                ));
            }
            return Step::Send(self.get(path));
        }
        match &replies[0] {
            Err(_) => {
                let v: Vec<Activity> = Vec::new();
                proof {
                    assert(v.deep_view() =~= Seq::<ActivityV>::empty());
                }
                Step::Done(Ok(v))
            },
            Ok(j) => Step::Done(
                Ok(
                    map_items(
                        &(),
                        array_of(field(Some(j), "data")),
                        Self::activity_of,
                        Ghost(|u: (), t: JsonV| activity_v(t)),
                    ),
                ),
            ),
        }
    }

    /// The body of a new activity.
    pub open spec fn new_activity_body(
        activity_type: Seq<char>,
        subject: Seq<char>,
        body: Option<Seq<char>>,
        contact: Option<Seq<char>>,
        deal: Option<Seq<char>>,
    ) -> JsonV {
        JsonV::Object(
            seq![("type"@, JsonV::Str(activity_type)), ("subject"@, JsonV::Str(subject))]
                + opt_text_entry("note"@, body) + opt_id_entry("person_id"@, contact)
                + opt_id_entry("deal_id"@, deal),
        )
    }

    /// Logs an activity: one POST; the record is built from the arguments and
    /// the id in the reply.
    pub fn create_activity(
        &self,
        activity_type: &str,
        subject: &str,
        body: Option<&str>,
        contact_id: Option<&str>,
        deal_id: Option<&str>,
        replies: &Vec<Reply>,
    ) -> (r: Step<Activity>)
        ensures
            replies.len() == 0 ==> r@ == StepV::<ActivityV>::Send(
                self.simple_req(
                    Method::Post,
                    "activities"@,
                    Some(
                        Self::new_activity_body(
                            activity_type@,
                            subject@,
                            opt_str_view(body),
                            opt_str_view(contact_id),
                            opt_str_view(deal_id),
                        ),
                    ),
                ),
            ),
            replies.len() > 0 ==> r@ == finish(
                rv(replies@[0]),
                |j: JsonV|
                    ActivityV {
                        id: created_id(j),
                        activity_type: activity_type@,
                        subject: Some(subject@),
                        body: opt_str_view(body),
                        contact_id: opt_str_view(contact_id),
                        deal_id: opt_str_view(deal_id),
                        done: false,
                        due_date: None,
                        backend: "pipedrive"@,
                    },
            ),
    {
        if replies.len() == 0 {
            let mut es = no_entries();
            push_entry(&mut es, "type", jtext(activity_type));
            push_entry(&mut es, "subject", jtext(subject));
            push_opt_text(&mut es, "note", body);
            push_opt_id(&mut es, "person_id", contact_id);
            push_opt_id(&mut es, "deal_id", deal_id);
            proof {
                assert(entries_view(es@) =~= seq![
                    ("type"@, JsonV::Str(activity_type@)),
                    ("subject"@, JsonV::Str(subject@)),
                ] + opt_text_entry("note"@, opt_str_view(body)) + opt_id_entry(
                    "person_id"@,
                    opt_str_view(contact_id),
                ) + opt_id_entry("deal_id"@, opt_str_view(deal_id)));
            }
            return Step::Send(self.simple(Method::Post, owned("activities"), Some(object(es))));
        }
        match &replies[0] {
            Err(e) => fail(e),
            Ok(j) => Step::Done(
                Ok(
                    Activity {
                        id: id_text_in(field(Some(j), "data")),
                        activity_type: owned(activity_type),
                        subject: Some(owned(subject)),
                        body: owned_opt(body),
                        contact_id: owned_opt(contact_id),
                        deal_id: owned_opt(deal_id),
                        done: false,
                        due_date: None,
                        backend: owned("pipedrive"),
                    },
                ),
            ),
        }
    }

    // ---- pipelines ----
    fn stage_of(u: &(), s: &Json) -> (r: PipelineStage)
        ensures
            r@ == stage_v(s@),
    {
        let summary = field(Some(s), "deals_summary");
        PipelineStage {
            id: id_text(s),
            name: text_or_empty(field(Some(s), "name")),
            order: match u64_of(field(Some(s), "order_nr")) {
                Some(n) => #[verifier::truncate] (n as u32),
                None => 0,
            },
            deal_count: match u64_of(field(summary, "total_count")) {
                Some(n) => Some(#[verifier::truncate] (n as u32)),
                None => None,
            },
            total_value: number_text(field(summary, "total_value")),
        }
    }

    fn stages_of(reply: &Reply) -> (r: Vec<PipelineStage>)
        ensures
            r.deep_view() == stages_v(rv(*reply)),
    {
        match reply {
            Ok(j) => map_items(
                &(),
                array_of(field(Some(j), "data")),
                Self::stage_of,
                Ghost(|u: (), s: JsonV| stage_v(s)),
            ),
            Err(_) => {
                let v: Vec<PipelineStage> = Vec::new();
                proof {
                    assert(v.deep_view() =~= Seq::<PipelineStageV>::empty());
                }
                v
            },
        }
    }

    /// The request for the stages of a pipeline.
    pub open spec fn stages_req(self, p: JsonV) -> RequestV {
        self.simple_req(Method::Get, "stages?pipeline_id="@ + id_of(p), None)
    }

    /// Lists pipelines, then the stages of each, one request per pipeline.
    /// A failed stage listing leaves that pipeline without stages.
    pub fn list_pipelines(&self, replies: &Vec<Reply>) -> (r: Step<Vec<Pipeline>>)
        ensures
            replies.len() == 0 ==> r@ == StepV::<Seq<PipelineV>>::Send(
                self.simple_req(Method::Get, "pipelines"@, None),
            ),
            replies.len() > 0 ==> r@ == match rv(replies@[0]) {
                Err(e) => StepV::Done(Err(e)),
                Ok(j) => {
                    let ps = pipeline_list(j);
                    if replies.len() - 1 < ps.len() {
                        StepV::Send(self.stages_req(ps[replies.len() - 1]))
                    } else {
                        StepV::Done(
                            Ok(
                                Seq::new(
                                    ps.len(),
                                    |i: int| pipeline_v(ps[i], rv(replies@[i + 1])),
                                ),
                            ),
                        )
                    }
                },
            },
    {
        if replies.len() == 0 {
            return Step::Send(self.simple(Method::Get, owned("pipelines"), None));
        }
        match &replies[0] {
            Err(e) => fail(e),
            Ok(j) => {
                let empty: Vec<Json> = Vec::new();
                let ps: &Vec<Json> = match array_of(field(Some(j), "data")) {
                    Some(a) => a,
                    None => &empty,
                };
                proof {
                    assert(items_view(ps@) =~= pipeline_list(j@));
                }
                let k = replies.len() - 1;
                if k < ps.len() {
                    let pid = id_text(&ps[k]);
                    return Step::Send(self.simple(Method::Get, join2("stages?pipeline_id=", pid.as_str()), None));
                }
                let ghost pl = pipeline_list(j@);
                let mut out: Vec<Pipeline> = Vec::new();
                let mut i: usize = 0;
                while i < ps.len()
                    invariant
                        pl == items_view(ps@),
                        k == replies.len() - 1,
                        ps.len() <= k,
                        i <= ps.len(),
                        out.deep_view() =~= Seq::new(
                            i as nat,
                            |m: int| pipeline_v(pl[m], rv(replies@[m + 1])),
                        ),
                    decreases ps.len() - i,
                {
                    let p = &ps[i];
                    let pipeline = Pipeline {
                        id: id_text(p),
                        name: text_or_empty(field(Some(p), "name")),
                        stages: Self::stages_of(&replies[i + 1]),
                        backend: owned("pipedrive"),
                    };
                    proof {
                        assert(pipeline@ == pipeline_v(pl[i as int], rv(replies@[i + 1])));
                    }
                    let ghost prev = out.deep_view();
                    out.push(pipeline);
                    proof {
                        assert(out.deep_view() =~= prev.push(pipeline@));
                    }
                    i = i + 1;
                }
                Step::Done(Ok(out))
            },
        }
    }

    /// The pipeline summary is the pipeline list; the pipeline id is not used.
    pub fn get_pipeline_summary(&self, pipeline_id: Option<&str>, replies: &Vec<Reply>) -> (r: Step<
        Vec<Pipeline>,
    >)
        ensures
            replies.len() == 0 ==> r@ == StepV::<Seq<PipelineV>>::Send(
                self.simple_req(Method::Get, "pipelines"@, None),
            ),
            replies.len() > 0 ==> r@ == match rv(replies@[0]) {
                Err(e) => StepV::Done(Err(e)),
                Ok(j) => {
                    let ps = pipeline_list(j);
                    if replies.len() - 1 < ps.len() {
                        StepV::Send(self.stages_req(ps[replies.len() - 1]))
                    } else {
                        StepV::Done(
                            Ok(
                                Seq::new(
                                    ps.len(),
                                    |i: int| pipeline_v(ps[i], rv(replies@[i + 1])),
                                ),
                            ),
                        )
                    }
                },
            },
    {
        self.list_pipelines(replies)
    }

    // ---- notes ----
    fn note_of(u: &(), n: &Json) -> (r: Note)
        ensures
            r@ == note_v(n@),
    {
        Note {
            id: id_text(n),
            content: text_or_empty(field(Some(n), "content")),
            contact_id: int_text_of(field(Some(n), "person_id")),
            company_id: int_text_of(field(Some(n), "org_id")),
            deal_id: int_text_of(field(Some(n), "deal_id")),
            created_at: pd(n, "add_time"),
            backend: owned("pipedrive"),
        }
    }

    /// The filter a note listing adds: the person, else the deal.
    pub open spec fn notes_filter(contact: Option<Seq<char>>, deal: Option<Seq<char>>) -> Seq<char> {
        match contact {
            Some(c) => "person_id="@ + c + "&"@,
            None => match deal {
                Some(d) => "deal_id="@ + d + "&"@,
                None => Seq::empty(),
            },
        }
    }

    /// Lists the notes of a person, else of a deal, else all notes.
    /// A failed request gives no notes.
    pub fn list_notes(
        &self,
        contact_id: Option<&str>,
        deal_id: Option<&str>,
        limit: u32,
        replies: &Vec<Reply>,
    ) -> (r: Step<Vec<Note>>)
        ensures
            replies.len() == 0 ==> r@ == StepV::<Seq<NoteV>>::Send(
                self.get_req(
                    "notes?"@ + Self::notes_filter(opt_str_view(contact_id), opt_str_view(deal_id))
                        + "limit="@ + dec(limit as nat),
                ),
            ),
            replies.len() > 0 ==> r@ == StepV::<Seq<NoteV>>::Done(
                Ok(
                    match rv(replies@[0]) {
                        Ok(j) => notes_v(j),
                        Err(_) => Seq::empty(),
                    },
                ),
            ),
    {
        if replies.len() == 0 {
            let filter = match contact_id {
                Some(c) => join3("person_id=", c, "&"),
                None => match deal_id {
                    Some(d) => join3("deal_id=", d, "&"),
                    None => String::new(),
                },
            };
            return Step::Send(self.get(join3_dec("notes?", filter.as_str(), "limit=", limit as u64)));
        }
        match &replies[0] {
            Err(_) => {
                let v: Vec<Note> = Vec::new();
                proof {
                    assert(v.deep_view() =~= Seq::<NoteV>::empty());
                }
                Step::Done(Ok(v))
            },
            Ok(j) => Step::Done(
                Ok(
                    map_items(
                        &(),
                        array_of(field(Some(j), "data")),
                        Self::note_of,
                        Ghost(|u: (), n: JsonV| note_v(n)),
                    ),
                ),
            ),
        }
    }

    /// Adds a note: one POST; the record is built from the arguments and the
    /// id in the reply.
    pub fn create_note(
        &self,
        content: &str,
        contact_id: Option<&str>,
        company_id: Option<&str>,
        deal_id: Option<&str>,
        replies: &Vec<Reply>,
    ) -> (r: Step<Note>)
        ensures
            replies.len() == 0 ==> r@ == StepV::<NoteV>::Send(
                self.simple_req(
                    Method::Post,
                    "notes"@,
                    Some(
                        JsonV::Object(
                            seq![("content"@, JsonV::Str(content@))] + opt_id_entry(
                                "person_id"@,
                                opt_str_view(contact_id),
                            ) + opt_id_entry("org_id"@, opt_str_view(company_id)) + opt_id_entry(
                                "deal_id"@,
                                opt_str_view(deal_id),
                            ),
                        ),
                    ),
                ),
            ),
            replies.len() > 0 ==> r@ == finish(
                rv(replies@[0]),
                |j: JsonV|
                    NoteV {
                        id: created_id(j),
                        content: content@,
                        contact_id: opt_str_view(contact_id),
                        company_id: opt_str_view(company_id),
                        deal_id: opt_str_view(deal_id),
                        created_at: None,
                        backend: "pipedrive"@,
                    },
            ),
    {
        if replies.len() == 0 {
            let mut es = no_entries();
            push_entry(&mut es, "content", jtext(content));
            push_opt_id(&mut es, "person_id", contact_id);
            push_opt_id(&mut es, "org_id", company_id);
            push_opt_id(&mut es, "deal_id", deal_id);
            proof {
                assert(entries_view(es@) =~= seq![("content"@, JsonV::Str(content@))] + opt_id_entry(
                    "person_id"@,
                    opt_str_view(contact_id),
                ) + opt_id_entry("org_id"@, opt_str_view(company_id)) + opt_id_entry(
                    "deal_id"@,
                    opt_str_view(deal_id),
                ));
            }
            return Step::Send(self.simple(Method::Post, owned("notes"), Some(object(es))));
        }
        match &replies[0] {
            Err(e) => fail(e),
            Ok(j) => Step::Done(
                Ok(
                    Note {
                        id: id_text_in(field(Some(j), "data")),
                        content: owned(content),
                        contact_id: owned_opt(contact_id),
                        company_id: owned_opt(company_id),
                        deal_id: owned_opt(deal_id),
                        created_at: None,
                        backend: owned("pipedrive"),
                    },
                ),
            ),
        }
    }
}

/// Every record built from a Pipedrive reply is tagged `pipedrive`, the name
/// of the backend, whatever the reply holds.
pub proof fn pipedrive_records_are_tagged(j: JsonV, id: Seq<char>, stages: Result<JsonV, Seq<char>>)
    ensures
        person_v(j, id).backend == "pipedrive"@,
        hit_v(j).backend == "pipedrive"@,
        organization_v(j, id).backend == "pipedrive"@,
        deal_v(j, id).backend == "pipedrive"@,
        activity_v(j).backend == "pipedrive"@,
        pipeline_v(j, stages).backend == "pipedrive"@,
        note_v(j).backend == "pipedrive"@,
        forall|i: int| 0 <= i < persons_v(j).len() ==> (#[trigger] persons_v(j)[i]).backend == "pipedrive"@,
        forall|i: int| 0 <= i < hits_v(j).len() ==> (#[trigger] hits_v(j)[i]).backend == "pipedrive"@,
        forall|i: int| 0 <= i < organizations_v(j).len() ==> (#[trigger] organizations_v(j)[i]).backend == "pipedrive"@,
        forall|i: int| 0 <= i < deals_v(j).len() ==> (#[trigger] deals_v(j)[i]).backend == "pipedrive"@,
        forall|i: int| 0 <= i < activities_v(j).len() ==> (#[trigger] activities_v(j)[i]).backend == "pipedrive"@,
        forall|i: int| 0 <= i < notes_v(j).len() ==> (#[trigger] notes_v(j)[i]).backend == "pipedrive"@,
{
}

/// The token travels only in the `x-api-token` header: backends with
/// different tokens send the same URL and body, so no URL (nor an error
/// message that quotes one) carries the token.
pub proof fn pipedrive_token_only_in_header(
    a: PipedriveBackend,
    b: PipedriveBackend,
    method: Method,
    path: Seq<char>,
    body: Option<JsonV>,
)
    ensures
        a.simple_req(method, path, body).url == b.simple_req(method, path, body).url,
        a.simple_req(method, path, body).body == b.simple_req(method, path, body).body,
        a.simple_req(method, path, body).auth == AuthV::Header("x-api-token"@, a.token@),
        a.get_req(path).url == b.get_req(path).url,
        a.get_req(path).auth == AuthV::Header("x-api-token"@, a.token@),
{
}

/// A Pipedrive object becomes a record field by field, each from the field of
/// the same meaning: a person's names from `first_name`/`last_name`, e-mail and
/// phone from the first entry of `email`/`phone`, company from `org_id`; a
/// search hit from its `item`; an organisation's name, city and country from
/// `name`, `address_locality`, `address_country`; a deal's title, stage,
/// pipeline, value, currency, person, organisation, close date, probability and
/// status from `title`, `stage_id`, `pipeline_id`, `value`, `currency`,
/// `person_id`, `org_id`, `expected_close_date`, `probability`, `status`; an
/// activity's subject, note, person, deal and due date from `subject`, `note`,
/// `person_id`, `deal_id`, `due_date`; a note's content, person, organisation,
/// deal and time from `content`, `person_id`, `org_id`, `deal_id`, `add_time`;
/// a stage's name, order and deal summary from `name`, `order_nr`,
/// `deals_summary`. Ids are the numerals of `id`.
pub proof fn pipedrive_record_fields(v: JsonV, id: Seq<char>)
    ensures
        person_v(v, id).id == id,
        person_v(v, id).first_name == jstr(jfield(v, "first_name"@)),
        person_v(v, id).last_name == jstr(jfield(v, "last_name"@)),
        person_v(v, id).email == first_value(v, "email"@),
        person_v(v, id).phone == first_value(v, "phone"@),
        person_v(v, id).company_id == int_text(jfield(jfield(v, "org_id"@), "value"@)),
        person_v(v, id).company_name == jstr(jfield(jfield(v, "org_id"@), "name"@)),
        hit_v(v).id == int_text_or_empty(jfield(jfield(v, "item"@), "id"@)),
        hit_v(v).email == jstr(jfield(jfield(v, "item"@), "primary_email"@)),
        hit_v(v).phone == jstr(jfield(jfield(v, "item"@), "primary_phone"@)),
        hit_v(v).company_name == jstr(jfield(jfield(jfield(v, "item"@), "organization"@), "name"@)),
        organization_v(v, id).id == id,
        organization_v(v, id).name == str_or_empty(jfield(v, "name"@)),
        organization_v(v, id).city == pd_v(v, "address_locality"@),
        organization_v(v, id).country == pd_v(v, "address_country"@),
        deal_v(v, id).id == id,
        deal_v(v, id).name == str_or_empty(jfield(v, "title"@)),
        deal_v(v, id).stage == int_text(jfield(v, "stage_id"@)),
        deal_v(v, id).pipeline == int_text(jfield(v, "pipeline_id"@)),
        deal_v(v, id).amount == jnum(jfield(v, "value"@)),
        deal_v(v, id).currency == pd_v(v, "currency"@),
        deal_v(v, id).contact_id == int_text(jfield(jfield(v, "person_id"@), "value"@)),
        deal_v(v, id).company_id == int_text(jfield(jfield(v, "org_id"@), "value"@)),
        deal_v(v, id).close_date == pd_v(v, "expected_close_date"@),
        deal_v(v, id).probability == jnum(jfield(v, "probability"@)),
        deal_v(v, id).status == pd_v(v, "status"@),
        activity_v(v).id == int_text_or_empty(jfield(v, "id"@)),
        jstr(jfield(v, "type"@)) matches Some(t) ==> activity_v(v).activity_type == t,
        activity_v(v).subject == pd_v(v, "subject"@),
        activity_v(v).body == pd_v(v, "note"@),
        activity_v(v).contact_id == int_text(jfield(v, "person_id"@)),
        activity_v(v).deal_id == int_text(jfield(v, "deal_id"@)),
        activity_v(v).done == (jbool(jfield(v, "done"@)) == Some(true)),
        activity_v(v).due_date == pd_v(v, "due_date"@),
        note_v(v).id == int_text_or_empty(jfield(v, "id"@)),
        note_v(v).content == str_or_empty(jfield(v, "content"@)),
        note_v(v).contact_id == int_text(jfield(v, "person_id"@)),
        note_v(v).company_id == int_text(jfield(v, "org_id"@)),
        note_v(v).deal_id == int_text(jfield(v, "deal_id"@)),
        note_v(v).created_at == pd_v(v, "add_time"@),
        stage_v(v).id == int_text_or_empty(jfield(v, "id"@)),
        stage_v(v).name == str_or_empty(jfield(v, "name"@)),
        stage_v(v).total_value == jnum(jfield(jfield(v, "deals_summary"@), "total_value"@)),
        ju64(jfield(v, "order_nr"@)) matches Some(n) ==> stage_v(v).order == n as u32,
        ju64(jfield(jfield(v, "deals_summary"@), "total_count"@)) matches Some(n) ==> stage_v(v).deal_count
            == Some(n as u32),
{
}

} // verus!
