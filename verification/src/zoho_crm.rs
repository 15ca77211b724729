//! The Zoho CRM REST API v2 backend: the requests it sends and how its
//! replies become unified records.
use vstd::prelude::*;
use crate::urlencoding::{encode, encode_bytes};
use vstd::utf8::encode_utf8;
use crate::http::{Auth, AuthV, Method, Reply, Request, RequestV, Step, StepV, after, fail, finish, rv};
use crate::json::{
    Json, JsonV, array1, array_of, entries_view, field, item, items_view, jarray, jfield, jitem,
    jnum, jstr, jtext, map_array, map_items, no_entries, nonempty, nonempty_text, number_text,
    object, object1, opt_json_view, opt_text_entry, ov, push_entry, push_opt_text, str_or_empty,
    text_opt, text_or_empty, osv, str_of,
};
use crate::text::{
    copy_opt, dec, join2, join3, join3_dec, join_dec, join_num_after, opt_str_view, opt_string_view, owned,
    owned_opt,
};
use crate::types::{
    Activity, ActivityV, Amount, AmountV, Company, CompanyV, Contact, ContactV, Deal, DealV, Note,
    NoteV, Pipeline, PipelineStage, PipelineStageV, PipelineV, amount_json, amount_view,
};

verus! {

/// The Zoho CRM backend, holding its OAuth token.
#[derive(Debug, PartialEq)]
pub struct ZohoCrmBackend {
    pub token: String,
}

/// `z(v, k)`: `v[k]` as non-empty text.
pub open spec fn z_v(v: JsonV, k: Seq<char>) -> Option<Seq<char>> {
    nonempty(jfield(v, k))
}

/// The first record of a reply (`data[0]`).
pub open spec fn first_record(j: JsonV) -> JsonV {
    jitem(jfield(j, "data"@), 0)
}

/// The id of the first record a write reports (`data[0].details.id`).
pub open spec fn created_id(j: JsonV) -> Seq<char> {
    str_or_empty(jfield(jfield(first_record(j), "details"@), "id"@))
}

/// A contact record; `linked` records carry their account.
pub open spec fn contact_v(c: JsonV, linked: bool) -> ContactV {
    ContactV {
        id: str_or_empty(jfield(c, "id"@)),
        first_name: z_v(c, "First_Name"@),
        last_name: z_v(c, "Last_Name"@),
        email: z_v(c, "Email"@),
        phone: z_v(c, "Phone"@),
        company_id: if linked {
            jstr(jfield(jfield(c, "Account_Name"@), "id"@))
        } else {
            None
        },
        company_name: if linked {
            jstr(jfield(jfield(c, "Account_Name"@), "name"@))
        } else {
            None
        },
        title: z_v(c, "Title"@),
        backend: "zoho_crm"@,
    }
}

pub open spec fn contacts_v(j: JsonV, linked: bool) -> Seq<ContactV> {
    map_array(jfield(j, "data"@), linked, |l: bool, c: JsonV| contact_v(c, l))
}

pub open spec fn company_v(c: JsonV) -> CompanyV {
    CompanyV {
        id: str_or_empty(jfield(c, "id"@)),
        name: str_or_empty(jfield(c, "Account_Name"@)),
        domain: z_v(c, "Website"@),
        industry: z_v(c, "Industry"@),
        phone: z_v(c, "Phone"@),
        city: z_v(c, "Billing_City"@),
        country: z_v(c, "Billing_Country"@),
        backend: "zoho_crm"@,
    }
}

pub open spec fn companies_v(j: JsonV) -> Seq<CompanyV> {
    map_array(jfield(j, "data"@), (), |u: (), c: JsonV| company_v(c))
}

pub open spec fn deal_v(d: JsonV) -> DealV {
    DealV {
        id: str_or_empty(jfield(d, "id"@)),
        name: str_or_empty(jfield(d, "Deal_Name"@)),
        stage: z_v(d, "Stage"@),
        pipeline: z_v(d, "Pipeline"@),
        amount: jnum(jfield(d, "Amount"@)),
        currency: None,
        contact_id: jstr(jfield(jfield(d, "Contact_Name"@), "id"@)),
        company_id: jstr(jfield(jfield(d, "Account_Name"@), "id"@)),
        close_date: z_v(d, "Closing_Date"@),
        probability: jnum(jfield(d, "Probability"@)),
        status: None,
        backend: "zoho_crm"@,
    }
}

pub open spec fn deals_v(j: JsonV) -> Seq<DealV> {
    map_array(jfield(j, "data"@), (), |u: (), d: JsonV| deal_v(d))
}

/// A task as an activity; its contact and deal are the record's own
/// `Who_Id` and `What_Id`.
pub open spec fn activity_v(t: JsonV) -> ActivityV {
    ActivityV {
        id: str_or_empty(jfield(t, "id"@)),
        activity_type: match jstr(jfield(t, "Activity_Type"@)) {
            Some(s) => s,
            None => "task"@,
        },
        subject: z_v(t, "Subject"@),
        body: z_v(t, "Description"@),
        contact_id: jstr(jfield(jfield(t, "Who_Id"@), "id"@)),
        deal_id: jstr(jfield(jfield(t, "What_Id"@), "id"@)),
        done: jstr(jfield(t, "Status"@)) == Some("Completed"@),
        due_date: z_v(t, "Due_Date"@),
        backend: "zoho_crm"@,
    }
}

pub open spec fn activities_v(j: JsonV) -> Seq<ActivityV> {
    map_array(jfield(j, "data"@), (), |u: (), t: JsonV| activity_v(t))
}

pub open spec fn stage_v(s: JsonV, i: int) -> PipelineStageV {
    PipelineStageV {
        id: str_or_empty(jfield(s, "id"@)),
        name: str_or_empty(jfield(s, "display_value"@)),
        order: i as u32,
        deal_count: None,
        total_value: None,
    }
}

/// The stages of a pipeline, numbered by their position.
pub open spec fn stages_v(a: JsonV) -> Seq<PipelineStageV> {
    match jarray(a) {
        Some(s) => Seq::new(s.len(), |i: int| stage_v(s[i], i)),
        None => Seq::empty(),
    }
}

pub open spec fn pipeline_v(p: JsonV) -> PipelineV {
    PipelineV {
        id: str_or_empty(jfield(p, "id"@)),
        name: str_or_empty(jfield(p, "display_value"@)),
        stages: stages_v(jfield(p, "maps"@)),
        backend: "zoho_crm"@,
    }
}

pub open spec fn pipelines_v(j: JsonV) -> Seq<PipelineV> {
    map_array(jfield(j, "pipeline"@), (), |u: (), p: JsonV| pipeline_v(p))
}

pub open spec fn note_v(n: JsonV, contact: Option<Seq<char>>, deal: Option<Seq<char>>) -> NoteV {
    NoteV {
        id: str_or_empty(jfield(n, "id"@)),
        content: str_or_empty(jfield(n, "Note_Content"@)),
        contact_id: contact,
        company_id: None,
        deal_id: deal,
        created_at: z_v(n, "Created_Time"@),
        backend: "zoho_crm"@,
    }
}

/// `{"data": [record]}`.
pub open spec fn data_body(rec: Seq<(Seq<char>, JsonV)>) -> JsonV {
    JsonV::Object(seq![("data"@, JsonV::Array(seq![JsonV::Object(rec)]))])
}

/// The entry `k: {"id": v}` when `v` is given.
pub open spec fn opt_link_entry(k: Seq<char>, v: Option<Seq<char>>) -> Seq<(Seq<char>, JsonV)> {
    match v {
        Some(x) => seq![(k, JsonV::Object(seq![("id"@, JsonV::Str(x))]))],
        None => seq![],
    }
}

pub open spec fn opt_amount_entry(a: Option<AmountV>) -> Seq<(Seq<char>, JsonV)> {
    match a {
        Some(x) => seq![("Amount"@, amount_json(x))],
        None => seq![],
    }
}

fn z(v: &Json, k: &str) -> (r: Option<String>)
    ensures
        opt_string_view(r) == z_v(v@, k@),
{
    nonempty_text(field(Some(v), k))
}

fn data_of(rec: Vec<(String, Json)>) -> (r: Json)
    ensures
        r@ == data_body(entries_view(rec@)),
{
    object1("data", array1(object(rec)))
}

fn push_opt_link(es: &mut Vec<(String, Json)>, k: &str, v: Option<&str>)
    ensures
        entries_view(final(es)@) == entries_view(old(es)@) + opt_link_entry(k@, opt_str_view(v)),
{
    match v {
        Some(x) => {
            push_entry(es, k, object1("id", jtext(x)));
        },
        None => {},
    }
    proof {
        assert(entries_view(final(es)@) =~= entries_view(old(es)@) + opt_link_entry(
            k@,
            opt_str_view(v),
        ));
    }
}

fn push_opt_amount(es: &mut Vec<(String, Json)>, a: Option<&Amount>)
    ensures
        entries_view(final(es)@) == entries_view(old(es)@) + opt_amount_entry(amount_view(a)),
{
    match a {
        Some(x) => {
            push_entry(es, "Amount", x.to_json());
        },
        None => {},
    }
    proof {
        assert(entries_view(final(es)@) =~= entries_view(old(es)@) + opt_amount_entry(
            amount_view(a),
        ));
    }
}

fn str_of_field<'a>(v: &'a Json, k: &str) -> (r: Option<&'a String>)
    ensures
        osv(r) == jstr(jfield(v@, k@)),
{
    str_of(field(Some(v), k))
}

fn first_record_of(j: &Json) -> (r: Option<&Json>)
    ensures
        ov(r) == first_record(j@),
{
    item(field(Some(j), "data"), 0)
}

fn created_id_of(j: &Json) -> (r: String)
    ensures
        r@ == created_id(j@),
{
    text_or_empty(field(field(first_record_of(j), "details"), "id"))
}

impl ZohoCrmBackend {
    pub fn new(token: String) -> (r: Self)
        ensures
            r.token@ == token@,
    {
        ZohoCrmBackend { token }
    }

    /// The backend's name, which tags every record it returns.
    pub fn name(&self) -> (r: &str)
        ensures
            r@ == "zoho_crm"@,
    {
        "zoho_crm"
    }

    /// A request to `https://www.zohoapis.com/crm/v2/{path}` with the OAuth token header.
    pub open spec fn req(self, method: Method, path: Seq<char>, body: Option<JsonV>) -> RequestV {
        RequestV {
            method,
            url: "https://www.zohoapis.com/crm/v2/"@ + path,
            auth: AuthV::Header("Authorization"@, "Zoho-oauthtoken "@ + self.token@),
            body,
            reads_body: true,
        }
    }

    fn request(&self, method: Method, path: String, body: Option<Json>) -> (r: Request)
        ensures
            r@ == self.req(method, path@, opt_json_view(body)),
    {
        Request {
            method,
            url: join2("https://www.zohoapis.com/crm/v2/", path.as_str()),
            auth: Auth::Header(
                owned("Authorization"),
                join2("Zoho-oauthtoken ", self.token.as_str()),
            ),
            body,
            reads_body: true,
        }
    }

    // ---- contacts ----
    fn contact_of(linked: &bool, c: &Json) -> (r: Contact)
        ensures
            r@ == contact_v(c@, *linked),
    {
        let account = field(Some(c), "Account_Name");
        Contact {
            id: text_or_empty(field(Some(c), "id")),
            first_name: z(c, "First_Name"),
            last_name: z(c, "Last_Name"),
            email: z(c, "Email"),
            phone: z(c, "Phone"),
            company_id: if *linked {
                text_opt(field(account, "id"))
            } else {
                None
            },
            company_name: if *linked {
                text_opt(field(account, "name"))
            } else {
                None
            },
            title: z(c, "Title"),
            backend: owned("zoho_crm"),
        }
    }

    fn contact_result(reply: &Reply) -> (r: Step<Contact>)
        ensures
            r@ == finish(rv(*reply), |j: JsonV| contact_v(first_record(j), true)),
    {
        match reply {
            Err(e) => fail(e),
            Ok(j) => match first_record_of(j) {
                Some(c) => Step::Done(Ok(Self::contact_of(&true, c))),
                None => {
                    let null = Json::Null;
                    Step::Done(Ok(Self::contact_of(&true, &null)))
                },
            },
        }
    }

    fn contact_request(&self, id: &str) -> (r: Request)
        ensures
            r@ == self.req(Method::Get, "Contacts/"@ + id@, None),
    {
        self.request(Method::Get, join2("Contacts/", id), None)
    }

    /// Lists contacts.
    pub fn list_contacts(&self, limit: u32, replies: &Vec<Reply>) -> (r: Step<Vec<Contact>>)
        ensures
            replies.len() == 0 ==> r@ == StepV::<Seq<ContactV>>::Send(
                self.req(Method::Get, "Contacts?per_page="@ + dec(limit as nat), None),
            ),
            replies.len() > 0 ==> r@ == finish(rv(replies@[0]), |j: JsonV| contacts_v(j, true)),
    {
        if replies.len() == 0 {
            return Step::Send(
                self.request(Method::Get, join_dec("Contacts?per_page=", limit as u64), None),
            );
        }
        match &replies[0] {
            Err(e) => fail(e),
            Ok(j) => Step::Done(
                Ok(
                    map_items(
                        &true,
                        array_of(field(Some(j), "data")),
                        Self::contact_of,
                        Ghost(|l: bool, c: JsonV| contact_v(c, l)),
                    ),
                ),
            ),
        }
    }

    /// Gets one contact (the first record of the reply).
    pub fn get_contact(&self, id: &str, replies: &Vec<Reply>) -> (r: Step<Contact>)
        ensures
            replies.len() == 0 ==> r@ == StepV::<ContactV>::Send(
                self.req(Method::Get, "Contacts/"@ + id@, None),
            ),
            replies.len() > 0 ==> r@ == finish(
                rv(replies@[0]),
                |j: JsonV| contact_v(first_record(j), true),
            ),
    {
        if replies.len() == 0 {
            return Step::Send(self.contact_request(id));
        }
        Self::contact_result(&replies[0])
    }

    /// Creates a contact (the company is not sent), then reads it back by the
    /// id the write reports.
    pub fn create_contact(
        &self,
        first_name: &str,
        last_name: &str,
        email: Option<&str>,
        phone: Option<&str>,
        company_id: Option<&str>,
        replies: &Vec<Reply>,
    ) -> (r: Step<Contact>)
        ensures
            replies.len() == 0 ==> r@ == StepV::<ContactV>::Send(
                self.req(
                    Method::Post,
                    "Contacts"@,
                    Some(
                        data_body(
                            seq![
                                ("First_Name"@, JsonV::Str(first_name@)),
                                ("Last_Name"@, JsonV::Str(last_name@)),
                            ] + opt_text_entry("Email"@, opt_str_view(email)) + opt_text_entry(
                                "Phone"@,
                                opt_str_view(phone),
                            ),
                        ),
                    ),
                ),
            ),
            replies.len() == 1 ==> r@ == match rv(replies@[0]) {
                Ok(j) => StepV::<ContactV>::Send(
                    self.req(Method::Get, "Contacts/"@ + created_id(j), None),
                ),
                Err(e) => StepV::Done(Err(e)),
            },
            replies.len() > 1 ==> r@ == after(
                rv(replies@[0]),
                finish(rv(replies@[1]), |j: JsonV| contact_v(first_record(j), true)),
            ),
    {
        if replies.len() == 0 {
            let mut es = no_entries();
            push_entry(&mut es, "First_Name", jtext(first_name));
            push_entry(&mut es, "Last_Name", jtext(last_name));
            push_opt_text(&mut es, "Email", email);
            push_opt_text(&mut es, "Phone", phone);
            proof {
                assert(entries_view(es@) =~= seq![
                    ("First_Name"@, JsonV::Str(first_name@)),
                    ("Last_Name"@, JsonV::Str(last_name@)),
                ] + opt_text_entry("Email"@, opt_str_view(email)) + opt_text_entry(
                    "Phone"@,
                    opt_str_view(phone),
                ));
            }
            return Step::Send(self.request(Method::Post, owned("Contacts"), Some(data_of(es))));
        }
        match &replies[0] {
            Err(e) => fail(e),
            Ok(j) => if replies.len() == 1 {
                let id = created_id_of(j);
                Step::Send(self.contact_request(id.as_str()))
            } else {
                Self::contact_result(&replies[1])
            },
        }
    }

    /// Updates a contact (a PUT of the record with its id and the given fields),
    /// then reads it back.
    pub fn update_contact(
        &self,
        id: &str,
        first_name: Option<&str>,
        last_name: Option<&str>,
        email: Option<&str>,
        phone: Option<&str>,
        replies: &Vec<Reply>,
    ) -> (r: Step<Contact>)
        ensures
            replies.len() == 0 ==> r@ == StepV::<ContactV>::Send(
                self.req(
                    Method::Put,
                    "Contacts"@,
                    Some(
                        data_body(
                            seq![("id"@, JsonV::Str(id@))] + opt_text_entry(
                                "First_Name"@,
                                opt_str_view(first_name),
                            ) + opt_text_entry("Last_Name"@, opt_str_view(last_name))
                                + opt_text_entry("Email"@, opt_str_view(email)) + opt_text_entry(
                                "Phone"@,
                                opt_str_view(phone),
                            ),
                        ),
                    ),
                ),
            ),
            replies.len() == 1 ==> r@ == after(
                rv(replies@[0]),
                StepV::<ContactV>::Send(self.req(Method::Get, "Contacts/"@ + id@, None)),
            ),
            replies.len() > 1 ==> r@ == after(
                rv(replies@[0]),
                finish(rv(replies@[1]), |j: JsonV| contact_v(first_record(j), true)),
            ),
    {
        if replies.len() == 0 {
            let mut es = no_entries();
            push_entry(&mut es, "id", jtext(id));
            push_opt_text(&mut es, "First_Name", first_name);
            push_opt_text(&mut es, "Last_Name", last_name);
            push_opt_text(&mut es, "Email", email);
            push_opt_text(&mut es, "Phone", phone);
            proof {
                assert(entries_view(es@) =~= seq![("id"@, JsonV::Str(id@))] + opt_text_entry(
                    "First_Name"@,
                    opt_str_view(first_name),
                ) + opt_text_entry("Last_Name"@, opt_str_view(last_name)) + opt_text_entry(
                    "Email"@,
                    opt_str_view(email),
                ) + opt_text_entry("Phone"@, opt_str_view(phone)));
            }
            return Step::Send(self.request(Method::Put, owned("Contacts"), Some(data_of(es))));
        }
        match &replies[0] {
            Err(e) => fail(e),
            Ok(_) => if replies.len() == 1 {
                Step::Send(self.contact_request(id))
            } else {
                Self::contact_result(&replies[1])
            },
        }
    }

    /// Searches contacts by word (Zoho's search over names, e-mail and the
    /// other text fields); the query is percent-encoded. A failed search gives
    /// no contacts.
    pub fn search_contacts(&self, query: &str, limit: u32, replies: &Vec<Reply>) -> (r: Step<
        Vec<Contact>,
    >)
        ensures
            replies.len() == 0 ==> r@ == StepV::<Seq<ContactV>>::Send(
                self.req(
                    Method::Get,
                    "Contacts/search?word="@ + encode_bytes(encode_utf8(query@)) + "&per_page="@
                        + dec(limit as nat),
                    None,
                ),
            ),
            replies.len() > 0 ==> r@ == StepV::<Seq<ContactV>>::Done(
                Ok(
                    match rv(replies@[0]) {
                        Ok(j) => contacts_v(j, false),
                        Err(_) => Seq::empty(),
                    },
                ),
            ),
    {
        if replies.len() == 0 {
            return Step::Send(
                self.request(
                    Method::Get,
                    join3_dec("Contacts/search?word=", encode(query).as_str(), "&per_page=", limit as u64),
                    None,
                ),
            );
        }
        match &replies[0] {
            Err(_) => {
                let v: Vec<Contact> = Vec::new();
                proof {
                    assert(v.deep_view() =~= Seq::<ContactV>::empty());
                }
                Step::Done(Ok(v))
            },
            Ok(j) => Step::Done(
                Ok(
                    map_items(
                        &false,
                        array_of(field(Some(j), "data")),
                        Self::contact_of,
                        Ghost(|l: bool, c: JsonV| contact_v(c, l)),
                    ),
                ),
            ),
        }
    }

    // ---- companies ----
    fn company_of(u: &(), c: &Json) -> (r: Company)
        ensures
            r@ == company_v(c@),
    {
        Company {
            id: text_or_empty(field(Some(c), "id")),
            name: text_or_empty(field(Some(c), "Account_Name")),
            domain: z(c, "Website"),
            industry: z(c, "Industry"),
            phone: z(c, "Phone"),
            city: z(c, "Billing_City"),
            country: z(c, "Billing_Country"),
            backend: owned("zoho_crm"),
        }
    }

    fn company_result(reply: &Reply) -> (r: Step<Company>)
        ensures
            r@ == finish(rv(*reply), |j: JsonV| company_v(first_record(j))),
    {
        match reply {
            Err(e) => fail(e),
            Ok(j) => match first_record_of(j) {
                Some(c) => Step::Done(Ok(Self::company_of(&(), c))),
                None => {
                    let null = Json::Null;
                    Step::Done(Ok(Self::company_of(&(), &null)))
                },
            },
        }
    }

    fn company_request(&self, id: &str) -> (r: Request)
        ensures
            r@ == self.req(Method::Get, "Accounts/"@ + id@, None),
    {
        self.request(Method::Get, join2("Accounts/", id), None)
    }

    /// Lists accounts as companies.
    pub fn list_companies(&self, limit: u32, replies: &Vec<Reply>) -> (r: Step<Vec<Company>>)
        ensures
            replies.len() == 0 ==> r@ == StepV::<Seq<CompanyV>>::Send(
                self.req(Method::Get, "Accounts?per_page="@ + dec(limit as nat), None),
            ),
            replies.len() > 0 ==> r@ == finish(rv(replies@[0]), |j: JsonV| companies_v(j)),
    {
        if replies.len() == 0 {
            return Step::Send(
                self.request(Method::Get, join_dec("Accounts?per_page=", limit as u64), None),
            );
        }
        match &replies[0] {
            Err(e) => fail(e),
            Ok(j) => Step::Done(
                Ok(
                    map_items(
                        &(),
                        array_of(field(Some(j), "data")),
                        Self::company_of,
                        Ghost(|u: (), c: JsonV| company_v(c)),
                    ),
                ),
            ),
        }
    }

    /// Gets one account (the first record of the reply).
    pub fn get_company(&self, id: &str, replies: &Vec<Reply>) -> (r: Step<Company>)
        ensures
            replies.len() == 0 ==> r@ == StepV::<CompanyV>::Send(
                self.req(Method::Get, "Accounts/"@ + id@, None),
            ),
            replies.len() > 0 ==> r@ == finish(rv(replies@[0]), |j: JsonV| company_v(first_record(j))),
    {
        if replies.len() == 0 {
            return Step::Send(self.company_request(id));
        }
        Self::company_result(&replies[0])
    }

    /// Creates an account, then reads it back by the id the write reports.
    pub fn create_company(
        &self,
        name: &str,
        domain: Option<&str>,
        industry: Option<&str>,
        replies: &Vec<Reply>,
    ) -> (r: Step<Company>)
        ensures
            replies.len() == 0 ==> r@ == StepV::<CompanyV>::Send(
                self.req(
                    Method::Post,
                    "Accounts"@,
                    Some(
                        data_body(
                            seq![("Account_Name"@, JsonV::Str(name@))] + opt_text_entry(
                                "Website"@,
                                opt_str_view(domain),
                            ) + opt_text_entry("Industry"@, opt_str_view(industry)),
                        ),
                    ),
                ),
            ),
            replies.len() == 1 ==> r@ == match rv(replies@[0]) {
                Ok(j) => StepV::<CompanyV>::Send(
                    self.req(Method::Get, "Accounts/"@ + created_id(j), None),
                ),
                Err(e) => StepV::Done(Err(e)),
            },
            replies.len() > 1 ==> r@ == after(
                rv(replies@[0]),
                finish(rv(replies@[1]), |j: JsonV| company_v(first_record(j))),
            ),
    {
        if replies.len() == 0 {
            let mut es = no_entries();
            push_entry(&mut es, "Account_Name", jtext(name));
            push_opt_text(&mut es, "Website", domain);
            push_opt_text(&mut es, "Industry", industry);
            proof {
                assert(entries_view(es@) =~= seq![("Account_Name"@, JsonV::Str(name@))]
                    + opt_text_entry("Website"@, opt_str_view(domain)) + opt_text_entry(
                    "Industry"@,
                    opt_str_view(industry),
                ));
            }
            return Step::Send(self.request(Method::Post, owned("Accounts"), Some(data_of(es))));
        }
        match &replies[0] {
            Err(e) => fail(e),
            Ok(j) => if replies.len() == 1 {
                let id = created_id_of(j);
                Step::Send(self.company_request(id.as_str()))
            } else {
                Self::company_result(&replies[1])
            },
        }
    }

    /// Updates an account, then reads it back.
    pub fn update_company(
        &self,
        id: &str,
        name: Option<&str>,
        domain: Option<&str>,
        industry: Option<&str>,
        replies: &Vec<Reply>,
    ) -> (r: Step<Company>)
        ensures
            replies.len() == 0 ==> r@ == StepV::<CompanyV>::Send(
                self.req(
                    Method::Put,
                    "Accounts"@,
                    Some(
                        data_body(
                            seq![("id"@, JsonV::Str(id@))] + opt_text_entry(
                                "Account_Name"@,
                                opt_str_view(name),
                            ) + opt_text_entry("Website"@, opt_str_view(domain)) + opt_text_entry(
                                "Industry"@,
                                opt_str_view(industry),
                            ),
                        ),
                    ),
                ),
            ),
            replies.len() == 1 ==> r@ == after(
                rv(replies@[0]),
                StepV::<CompanyV>::Send(self.req(Method::Get, "Accounts/"@ + id@, None)),
            ),
            replies.len() > 1 ==> r@ == after(
                rv(replies@[0]),
                finish(rv(replies@[1]), |j: JsonV| company_v(first_record(j))),
            ),
    {
        if replies.len() == 0 {
            let mut es = no_entries();
            push_entry(&mut es, "id", jtext(id));
            push_opt_text(&mut es, "Account_Name", name);
            push_opt_text(&mut es, "Website", domain);
            push_opt_text(&mut es, "Industry", industry);
            proof {
                assert(entries_view(es@) =~= seq![("id"@, JsonV::Str(id@))] + opt_text_entry(
                    "Account_Name"@,
                    opt_str_view(name),
                ) + opt_text_entry("Website"@, opt_str_view(domain)) + opt_text_entry(
                    "Industry"@,
                    opt_str_view(industry),
                ));
            }
            return Step::Send(self.request(Method::Put, owned("Accounts"), Some(data_of(es))));
        }
        match &replies[0] {
            Err(e) => fail(e),
            Ok(_) => if replies.len() == 1 {
                Step::Send(self.company_request(id))
            } else {
                Self::company_result(&replies[1])
            },
        }
    }

    // ---- deals ----
    fn deal_of(u: &(), d: &Json) -> (r: Deal)
        ensures
            r@ == deal_v(d@),
    {
        Deal {
            id: text_or_empty(field(Some(d), "id")),
            name: text_or_empty(field(Some(d), "Deal_Name")),
            stage: z(d, "Stage"),
            pipeline: z(d, "Pipeline"),
            amount: number_text(field(Some(d), "Amount")),
            currency: None,
            contact_id: text_opt(field(field(Some(d), "Contact_Name"), "id")),
            company_id: text_opt(field(field(Some(d), "Account_Name"), "id")),
            close_date: z(d, "Closing_Date"),
            probability: number_text(field(Some(d), "Probability")),
            status: None,
            backend: owned("zoho_crm"),
        }
    }

    fn deal_result(reply: &Reply) -> (r: Step<Deal>)
        ensures
            r@ == finish(rv(*reply), |j: JsonV| deal_v(first_record(j))),
    {
        match reply {
            Err(e) => fail(e),
            Ok(j) => match first_record_of(j) {
                Some(d) => Step::Done(Ok(Self::deal_of(&(), d))),
                None => {
                    let null = Json::Null;
                    Step::Done(Ok(Self::deal_of(&(), &null)))
                },
            },
        }
    }

    fn deal_request(&self, id: &str) -> (r: Request)
        ensures
            r@ == self.req(Method::Get, "Deals/"@ + id@, None),
    {
        self.request(Method::Get, join2("Deals/", id), None)
    }

    /// Lists deals.
    pub fn list_deals(&self, limit: u32, replies: &Vec<Reply>) -> (r: Step<Vec<Deal>>)
        ensures
            replies.len() == 0 ==> r@ == StepV::<Seq<DealV>>::Send(
                self.req(Method::Get, "Deals?per_page="@ + dec(limit as nat), None),
            ),
            replies.len() > 0 ==> r@ == finish(rv(replies@[0]), |j: JsonV| deals_v(j)),
    {
        if replies.len() == 0 {
            return Step::Send(
                self.request(Method::Get, join_dec("Deals?per_page=", limit as u64), None),
            );
        }
        match &replies[0] {
            Err(e) => fail(e),
            Ok(j) => Step::Done(
                Ok(
                    map_items(
                        &(),
                        array_of(field(Some(j), "data")),
                        Self::deal_of,
                        Ghost(|u: (), d: JsonV| deal_v(d)),
                    ),
                ),
            ),
        }
    }

    /// Gets one deal (the first record of the reply).
    pub fn get_deal(&self, id: &str, replies: &Vec<Reply>) -> (r: Step<Deal>)
        ensures
            replies.len() == 0 ==> r@ == StepV::<DealV>::Send(
                self.req(Method::Get, "Deals/"@ + id@, None),
            ),
            replies.len() > 0 ==> r@ == finish(rv(replies@[0]), |j: JsonV| deal_v(first_record(j))),
    {
        if replies.len() == 0 {
            return Step::Send(self.deal_request(id));
        }
        Self::deal_result(&replies[0])
    }

    /// The record of a new deal; the stage defaults to `Qualification`.
    pub open spec fn new_deal_record(
        name: Seq<char>,
        amount: Option<AmountV>,
        stage: Option<Seq<char>>,
        contact: Option<Seq<char>>,
        company: Option<Seq<char>>,
    ) -> Seq<(Seq<char>, JsonV)> {
        seq![
            ("Deal_Name"@, JsonV::Str(name)),
            (
                "Stage"@,
                JsonV::Str(
                    match stage {
                        Some(s) => s,
                        None => "Qualification"@,
                    },
                ),
            ),
        ] + opt_amount_entry(amount) + opt_link_entry("Contact_Name"@, contact) + opt_link_entry(
            "Account_Name"@,
            company,
        )
    }

    /// Creates a deal, then reads it back by the id the write reports.
    pub fn create_deal(
        &self,
        name: &str,
        amount: Option<&Amount>,
        stage: Option<&str>,
        contact_id: Option<&str>,
        company_id: Option<&str>,
        replies: &Vec<Reply>,
    ) -> (r: Step<Deal>)
        ensures
            replies.len() == 0 ==> r@ == StepV::<DealV>::Send(
                self.req(
                    Method::Post,
                    "Deals"@,
                    Some(
                        data_body(
                            Self::new_deal_record(
                                name@,
                                amount_view(amount),
                                opt_str_view(stage),
                                opt_str_view(contact_id),
                                opt_str_view(company_id),
                            ),
                        ),
                    ),
                ),
            ),
            replies.len() == 1 ==> r@ == match rv(replies@[0]) {
                Ok(j) => StepV::<DealV>::Send(self.req(Method::Get, "Deals/"@ + created_id(j), None)),
                Err(e) => StepV::Done(Err(e)),
            },
            replies.len() > 1 ==> r@ == after(
                rv(replies@[0]),
                finish(rv(replies@[1]), |j: JsonV| deal_v(first_record(j))),
            ),
    {
        if replies.len() == 0 {
            let mut es = no_entries();
            push_entry(&mut es, "Deal_Name", jtext(name));
            let st = match stage {
                Some(s) => jtext(s),
                None => jtext("Qualification"),
            };
            push_entry(&mut es, "Stage", st);
            push_opt_amount(&mut es, amount);
            push_opt_link(&mut es, "Contact_Name", contact_id);
            push_opt_link(&mut es, "Account_Name", company_id);
            proof {
                assert(entries_view(es@) =~= Self::new_deal_record(
                    name@,
                    amount_view(amount),
                    opt_str_view(stage),
                    opt_str_view(contact_id),
                    opt_str_view(company_id),
                ));
            }
            return Step::Send(self.request(Method::Post, owned("Deals"), Some(data_of(es))));
        }
        match &replies[0] {
            Err(e) => fail(e),
            Ok(j) => if replies.len() == 1 {
                let id = created_id_of(j);
                Step::Send(self.deal_request(id.as_str()))
            } else {
                Self::deal_result(&replies[1])
            },
        }
    }

    /// The record a deal update sends.
    pub open spec fn deal_update_record(
        id: Seq<char>,
        name: Option<Seq<char>>,
        amount: Option<AmountV>,
        stage: Option<Seq<char>>,
        close_date: Option<Seq<char>>,
    ) -> Seq<(Seq<char>, JsonV)> {
        seq![("id"@, JsonV::Str(id))] + opt_text_entry("Deal_Name"@, name) + opt_amount_entry(amount)
            + opt_text_entry("Stage"@, stage) + opt_text_entry("Closing_Date"@, close_date)
    }

    /// Updates a deal, then reads it back.
    pub fn update_deal(
        &self,
        id: &str,
        name: Option<&str>,
        amount: Option<&Amount>,
        stage: Option<&str>,
        close_date: Option<&str>,
        replies: &Vec<Reply>,
    ) -> (r: Step<Deal>)
        ensures
            replies.len() == 0 ==> r@ == StepV::<DealV>::Send(
                self.req(
                    Method::Put,
                    "Deals"@,
                    Some(
                        data_body(
                            Self::deal_update_record(
                                id@,
                                opt_str_view(name),
                                amount_view(amount),
                                opt_str_view(stage),
                                opt_str_view(close_date),
                            ),
                        ),
                    ),
                ),
            ),
            replies.len() == 1 ==> r@ == after(
                rv(replies@[0]),
                StepV::<DealV>::Send(self.req(Method::Get, "Deals/"@ + id@, None)),
            ),
            replies.len() > 1 ==> r@ == after(
                rv(replies@[0]),
                finish(rv(replies@[1]), |j: JsonV| deal_v(first_record(j))),
            ),
    {
        if replies.len() == 0 {
            let mut es = no_entries();
            push_entry(&mut es, "id", jtext(id));
            push_opt_text(&mut es, "Deal_Name", name);
            push_opt_amount(&mut es, amount);
            push_opt_text(&mut es, "Stage", stage);
            push_opt_text(&mut es, "Closing_Date", close_date);
            proof {
                assert(entries_view(es@) =~= Self::deal_update_record(
                    id@,
                    opt_str_view(name),
                    amount_view(amount),
                    opt_str_view(stage),
                    opt_str_view(close_date),
                ));
            }
            return Step::Send(self.request(Method::Put, owned("Deals"), Some(data_of(es))));
        }
        match &replies[0] {
            Err(e) => fail(e),
            Ok(_) => if replies.len() == 1 {
                Step::Send(self.deal_request(id))
            } else {
                Self::deal_result(&replies[1])
            },
        }
    }

    /// Moves a deal to a stage, then reads it back.
    pub fn move_deal_stage(&self, id: &str, stage: &str, replies: &Vec<Reply>) -> (r: Step<Deal>)
        ensures
            replies.len() == 0 ==> r@ == StepV::<DealV>::Send(
                self.req(
                    Method::Put,
                    "Deals"@,
                    Some(data_body(seq![("id"@, JsonV::Str(id@)), ("Stage"@, JsonV::Str(stage@))])),
                ),
            ),
            replies.len() == 1 ==> r@ == after(
                rv(replies@[0]),
                StepV::<DealV>::Send(self.req(Method::Get, "Deals/"@ + id@, None)),
            ),
            replies.len() > 1 ==> r@ == after(
                rv(replies@[0]),
                finish(rv(replies@[1]), |j: JsonV| deal_v(first_record(j))),
            ),
    {
        if replies.len() == 0 {
            let mut es = no_entries();
            push_entry(&mut es, "id", jtext(id));
            push_entry(&mut es, "Stage", jtext(stage));
            proof {
                assert(entries_view(es@) =~= seq![
                    ("id"@, JsonV::Str(id@)),
                    ("Stage"@, JsonV::Str(stage@)),
                ]);
            }
            return Step::Send(self.request(Method::Put, owned("Deals"), Some(data_of(es))));
        }
        match &replies[0] {
            Err(e) => fail(e),
            Ok(_) => if replies.len() == 1 {
                Step::Send(self.deal_request(id))
            } else {
                Self::deal_result(&replies[1])
            },
        }
    }

    // ---- activities ----
    fn activity_of(u: &(), t: &Json) -> (r: Activity)
        ensures
            r@ == activity_v(t@),
    {
        let status = str_of_field(t, "Status");
        let target = owned("Completed");
        let completed = match status {
            Some(s) => *s == target,
            None => false,
        };
        Activity {
            id: text_or_empty(field(Some(t), "id")),
            activity_type: match text_opt(field(Some(t), "Activity_Type")) {
                Some(s) => s,
                None => owned("task"),
            },
            subject: z(t, "Subject"),
            body: z(t, "Description"),
            contact_id: text_opt(field(field(Some(t), "Who_Id"), "id")),
            deal_id: text_opt(field(field(Some(t), "What_Id"), "id")),
            done: completed,
            due_date: z(t, "Due_Date"),
            backend: owned("zoho_crm"),
        }
    }

    /// Where the activities of a contact, or else all activities, are listed.
    /// Where the activities of a contact, else of a deal, else of the account are listed.
    pub open spec fn activities_path(
        contact: Option<Seq<char>>,
        deal: Option<Seq<char>>,
        limit: u32,
    ) -> Seq<char> {
        match contact {
            Some(c) => "Contacts/"@ + c + "/Activities?per_page="@ + dec(limit as nat),
            None => match deal {
                Some(d) => "Deals/"@ + d + "/Activities?per_page="@ + dec(limit as nat),
                None => "Activities?per_page="@ + dec(limit as nat),
            },
        }
    }

    /// Lists the activities of a contact, else of a deal, else all activities;
    /// each carries its own contact and deal. A failed request gives no activities.
    pub fn list_activities(
        &self,
        contact_id: Option<&str>,
        deal_id: Option<&str>,
        limit: u32,
        replies: &Vec<Reply>,
    ) -> (r: Step<Vec<Activity>>)
        ensures
            replies.len() == 0 ==> r@ == StepV::<Seq<ActivityV>>::Send(
                self.req(
                    Method::Get,
                    Self::activities_path(opt_str_view(contact_id), opt_str_view(deal_id), limit),
                    None,
                ),
            ),
            replies.len() > 0 ==> r@ == StepV::<Seq<ActivityV>>::Done(
                Ok(
                    match rv(replies@[0]) {
                        Ok(j) => activities_v(j),
                        Err(_) => Seq::empty(),
                    },
                ),
            ),
    {
        if replies.len() == 0 {
            let path = match contact_id {
                Some(c) => join3_dec("Contacts/", c, "/Activities?per_page=", limit as u64),
                None => match deal_id {
                    Some(d) => join3_dec("Deals/", d, "/Activities?per_page=", limit as u64),
                    None => join_dec("Activities?per_page=", limit as u64),
                },
            };
            proof {
                assert(path@ =~= Self::activities_path(
                    opt_str_view(contact_id),
                    opt_str_view(deal_id),
                    limit,
                ));
            }
            return Step::Send(self.request(Method::Get, path, None));
        }
        match &replies[0] {
            Err(_) => {
                let v: Vec<Activity> = Vec::new();
                proof {
                    assert(v.deep_view() =~= Seq::<ActivityV>::empty());
                }
                Step::Done(Ok(v))
            },
            Ok(j) => Step::Done(
                Ok(
                    map_items(
                        &(),
                        array_of(field(Some(j), "data")),
                        Self::activity_of,
                        Ghost(|u: (), t: JsonV| activity_v(t)),
                    ),
                ),
            ),
        }
    }

    /// Logs an activity as a task: one POST; the record is built from the
    /// arguments and the id the write reports.
    pub fn create_activity(
        &self,
        activity_type: &str,
        subject: &str,
        body: Option<&str>,
        contact_id: Option<&str>,
        deal_id: Option<&str>,
        replies: &Vec<Reply>,
    ) -> (r: Step<Activity>)
        ensures
            replies.len() == 0 ==> r@ == StepV::<ActivityV>::Send(
                self.req(
                    Method::Post,
                    "Tasks"@,
                    Some(
                        data_body(
                            seq![
                                ("Subject"@, JsonV::Str(subject@)),
                                ("Activity_Type"@, JsonV::Str(activity_type@)),
                            ] + opt_text_entry("Description"@, opt_str_view(body)) + opt_link_entry(
                                "Who_Id"@,
                                opt_str_view(contact_id),
                            ) + opt_link_entry("What_Id"@, opt_str_view(deal_id)),
                        ),
                    ),
                ),
            ),
            replies.len() > 0 ==> r@ == finish(
                rv(replies@[0]),
                |j: JsonV|
                    ActivityV {
                        id: created_id(j),
                        activity_type: activity_type@,
                        subject: Some(subject@),
                        body: opt_str_view(body),
                        contact_id: opt_str_view(contact_id),
                        deal_id: opt_str_view(deal_id),
                        done: false,
                        due_date: None,
                        backend: "zoho_crm"@,
                    },
            ),
    {
        if replies.len() == 0 {
            let mut es = no_entries();
            push_entry(&mut es, "Subject", jtext(subject));
            push_entry(&mut es, "Activity_Type", jtext(activity_type));
            push_opt_text(&mut es, "Description", body);
            push_opt_link(&mut es, "Who_Id", contact_id);
            push_opt_link(&mut es, "What_Id", deal_id);
            proof {
                assert(entries_view(es@) =~= seq![
                    ("Subject"@, JsonV::Str(subject@)),
                    ("Activity_Type"@, JsonV::Str(activity_type@)),
                ] + opt_text_entry("Description"@, opt_str_view(body)) + opt_link_entry(
                    "Who_Id"@,
                    opt_str_view(contact_id),
                ) + opt_link_entry("What_Id"@, opt_str_view(deal_id)));
            }
            return Step::Send(self.request(Method::Post, owned("Tasks"), Some(data_of(es))));
        }
        match &replies[0] {
            Err(e) => fail(e),
            Ok(j) => Step::Done(
                Ok(
                    Activity {
                        id: created_id_of(j),
                        activity_type: owned(activity_type),
                        subject: Some(owned(subject)),
                        body: owned_opt(body),
                        contact_id: owned_opt(contact_id),
                        deal_id: owned_opt(deal_id),
                        done: false,
                        due_date: None,
                        backend: owned("zoho_crm"),
                    },
                ),
            ),
        }
    }

    // ---- pipelines ----
    fn stages_of(a: Option<&Json>) -> (r: Vec<PipelineStage>)
        ensures
            r.deep_view() == stages_v(ov(a)),
    {
        let mut out: Vec<PipelineStage> = Vec::new();
        match array_of(a) {
            Some(items) => {
                let ghost s = items_view(items@);
                let mut i: usize = 0;
                while i < items.len()
                    invariant
                        s == items_view(items@),
                        i <= items.len(),
                        out.deep_view() =~= Seq::new(i as nat, |k: int| stage_v(s[k], k)),
                    decreases items.len() - i,
                {
                    let st = &items[i];
                    let stage = PipelineStage {
                        id: text_or_empty(field(Some(st), "id")),
                        name: text_or_empty(field(Some(st), "display_value")),
                        order: #[verifier::truncate] (i as u32),
                        deal_count: None,
                        total_value: None,
                    };
                    proof {
                        assert(stage@ == stage_v(s[i as int], i as int));
                    }
                    let ghost prev = out.deep_view();
                    out.push(stage);
                    proof {
                        assert(out.deep_view() =~= prev.push(stage@));
                    }
                    i = i + 1;
                }
                out
            },
            None => {
                proof {
                    assert(out.deep_view() =~= Seq::<PipelineStageV>::empty());
                }
                out
            },
        }
    }

    fn pipeline_of(u: &(), p: &Json) -> (r: Pipeline)
        ensures
            r@ == pipeline_v(p@),
    {
        Pipeline {
            id: text_or_empty(field(Some(p), "id")),
            name: text_or_empty(field(Some(p), "display_value")),
            stages: Self::stages_of(field(Some(p), "maps")),
            backend: owned("zoho_crm"),
        }
    }

    /// Lists the deal pipelines with their stages, numbered by position.
    pub fn list_pipelines(&self, replies: &Vec<Reply>) -> (r: Step<Vec<Pipeline>>)
        ensures
            replies.len() == 0 ==> r@ == StepV::<Seq<PipelineV>>::Send(
                self.req(Method::Get, "settings/pipeline?module=Deals"@, None),
            ),
            replies.len() > 0 ==> r@ == finish(rv(replies@[0]), |j: JsonV| pipelines_v(j)),
    {
        if replies.len() == 0 {
            return Step::Send(
                self.request(Method::Get, owned("settings/pipeline?module=Deals"), None),
            );
        }
        match &replies[0] {
            Err(e) => fail(e),
            Ok(j) => Step::Done(
                Ok(
                    map_items(
                        &(),
                        array_of(field(Some(j), "pipeline")),
                        Self::pipeline_of,
                        Ghost(|u: (), p: JsonV| pipeline_v(p)),
                    ),
                ),
            ),
        }
    }

    /// The pipeline summary is the pipeline list; the pipeline id is not used.
    pub fn get_pipeline_summary(&self, pipeline_id: Option<&str>, replies: &Vec<Reply>) -> (r: Step<
        Vec<Pipeline>,
    >)
        ensures
            replies.len() == 0 ==> r@ == StepV::<Seq<PipelineV>>::Send(
                self.req(Method::Get, "settings/pipeline?module=Deals"@, None),
            ),
            replies.len() > 0 ==> r@ == finish(rv(replies@[0]), |j: JsonV| pipelines_v(j)),
    {
        self.list_pipelines(replies)
    }

    // ---- notes ----
    fn note_of(ctx: &(Option<String>, Option<String>), n: &Json) -> (r: Note)
        ensures
            r@ == note_v(n@, opt_string_view(ctx.0), opt_string_view(ctx.1)),
    {
        Note {
            id: text_or_empty(field(Some(n), "id")),
            content: text_or_empty(field(Some(n), "Note_Content")),
            contact_id: copy_opt(&ctx.0),
            company_id: None,
            deal_id: copy_opt(&ctx.1),
            created_at: z(n, "Created_Time"),
            backend: owned("zoho_crm"),
        }
    }

    /// Where the notes of a contact, else of a deal, else all notes live.
    /// Where a new note goes: under the contact, else the deal, else the
    /// company (account), else on its own.
    pub open spec fn note_home(
        contact: Option<Seq<char>>,
        deal: Option<Seq<char>>,
        company: Option<Seq<char>>,
    ) -> Seq<char> {
        match contact {
            Some(c) => "Contacts/"@ + c + "/Notes"@,
            None => match deal {
                Some(d) => "Deals/"@ + d + "/Notes"@,
                None => match company {
                    Some(a) => "Accounts/"@ + a + "/Notes"@,
                    None => "Notes"@,
                },
            },
        }
    }

    pub open spec fn notes_home(contact: Option<Seq<char>>, deal: Option<Seq<char>>) -> Seq<char> {
        match contact {
            Some(c) => "Contacts/"@ + c + "/Notes"@,
            None => match deal {
                Some(d) => "Deals/"@ + d + "/Notes"@,
                None => "Notes"@,
            },
        }
    }

    fn notes_home_of(contact: Option<&str>, deal: Option<&str>) -> (r: String)
        ensures
            r@ == Self::notes_home(opt_str_view(contact), opt_str_view(deal)),
    {
        match contact {
            Some(c) => join3("Contacts/", c, "/Notes"),
            None => match deal {
                Some(d) => join3("Deals/", d, "/Notes"),
                None => owned("Notes"),
            },
        }
    }

    /// Lists the notes of a contact, else of a deal, else all notes.
    /// A failed request gives no notes.
    pub fn list_notes(
        &self,
        contact_id: Option<&str>,
        deal_id: Option<&str>,
        limit: u32,
        replies: &Vec<Reply>,
    ) -> (r: Step<Vec<Note>>)
        ensures
            replies.len() == 0 ==> r@ == StepV::<Seq<NoteV>>::Send(
                self.req(
                    Method::Get,
                    Self::notes_home(opt_str_view(contact_id), opt_str_view(deal_id))
                        + "?per_page="@ + dec(limit as nat),
                    None,
                ),
            ),
            replies.len() > 0 ==> r@ == StepV::<Seq<NoteV>>::Done(
                Ok(
                    match rv(replies@[0]) {
                        Ok(j) => map_array(
                            jfield(j, "data"@),
                            (opt_str_view(contact_id), opt_str_view(deal_id)),
                            |cd: (Option<Seq<char>>, Option<Seq<char>>), n: JsonV|
                                note_v(n, cd.0, cd.1),
                        ),
                        Err(_) => Seq::empty(),
                    },
                ),
            ),
    {
        if replies.len() == 0 {
            let home = Self::notes_home_of(contact_id, deal_id);
            return Step::Send(
                self.request(Method::Get, join_num_after(home.as_str(), "?per_page=", limit as u64), None),
            );
        }
        let ctx = (owned_opt(contact_id), owned_opt(deal_id));
        match &replies[0] {
            Err(_) => {
                let v: Vec<Note> = Vec::new();
                proof {
                    assert(v.deep_view() =~= Seq::<NoteV>::empty());
                }
                Step::Done(Ok(v))
            },
            Ok(j) => {
                let v = map_items(
                    &ctx,
                    array_of(field(Some(j), "data")),
                    Self::note_of,
                    Ghost(
                        |cd: (Option<String>, Option<String>), n: JsonV|
                            note_v(n, opt_string_view(cd.0), opt_string_view(cd.1)),
                    ),
                );
                proof {
                    assert(v.deep_view() =~= map_array(
                        jfield(j@, "data"@),
                        (opt_str_view(contact_id), opt_str_view(deal_id)),
                        |cd: (Option<Seq<char>>, Option<Seq<char>>), n: JsonV| note_v(n, cd.0, cd.1),
                    ));
                }
                Step::Done(Ok(v))
            },
        }
    }

    /// Adds a note under the contact, else the deal, else the company
    /// (account), else on its own: one POST; the record is built from the
    /// arguments and the id the write reports.
    pub fn create_note(
        &self,
        content: &str,
        contact_id: Option<&str>,
        company_id: Option<&str>,
        deal_id: Option<&str>,
        replies: &Vec<Reply>,
    ) -> (r: Step<Note>)
        ensures
            replies.len() == 0 ==> r@ == StepV::<NoteV>::Send(
                self.req(
                    Method::Post,
                    Self::note_home(
                        opt_str_view(contact_id),
                        opt_str_view(deal_id),
                        opt_str_view(company_id),
                    ),
                    Some(data_body(seq![("Note_Content"@, JsonV::Str(content@))])),
                ),
            ),
            replies.len() > 0 ==> r@ == finish(
                rv(replies@[0]),
                |j: JsonV|
                    NoteV {
                        id: created_id(j),
                        content: content@,
                        contact_id: opt_str_view(contact_id),
                        company_id: opt_str_view(company_id),
                        deal_id: opt_str_view(deal_id),
                        created_at: None,
                        backend: "zoho_crm"@,
                    },
            ),
    {
        if replies.len() == 0 {
            let mut es = no_entries();
            push_entry(&mut es, "Note_Content", jtext(content));
            proof {
                assert(entries_view(es@) =~= seq![("Note_Content"@, JsonV::Str(content@))]);
            }
            let home = match contact_id {
                Some(c) => join3("Contacts/", c, "/Notes"),
                None => match deal_id {
                    Some(d) => join3("Deals/", d, "/Notes"),
                    None => match company_id {
                        Some(a) => join3("Accounts/", a, "/Notes"),
                        None => owned("Notes"),
                    },
                },
            };
            proof {
                assert(home@ =~= Self::note_home(
                    opt_str_view(contact_id),
                    opt_str_view(deal_id),
                    opt_str_view(company_id),
                ));
            }
            return Step::Send(self.request(Method::Post, home, Some(data_of(es))));
        }
        match &replies[0] {
            Err(e) => fail(e),
            Ok(j) => Step::Done(
                Ok(
                    Note {
                        id: created_id_of(j),
                        content: owned(content),
                        contact_id: owned_opt(contact_id),
                        company_id: owned_opt(company_id),
                        deal_id: owned_opt(deal_id),
                        created_at: None,
                        backend: owned("zoho_crm"),
                    },
                ),
            ),
        }
    }
}

/// Every record built from a Zoho CRM reply is tagged `zoho_crm`, the name of
/// the backend, whatever the reply holds.
pub proof fn zoho_records_are_tagged(
    j: JsonV,
    linked: bool,
    contact: Option<Seq<char>>,
    deal: Option<Seq<char>>,
)
    ensures
        contact_v(j, linked).backend == "zoho_crm"@,
        company_v(j).backend == "zoho_crm"@,
        deal_v(j).backend == "zoho_crm"@,
        activity_v(j).backend == "zoho_crm"@,
        pipeline_v(j).backend == "zoho_crm"@,
        note_v(j, contact, deal).backend == "zoho_crm"@,
        forall|i: int| 0 <= i < contacts_v(j, linked).len() ==> (#[trigger] contacts_v(j, linked)[i]).backend == "zoho_crm"@,
        forall|i: int| 0 <= i < companies_v(j).len() ==> (#[trigger] companies_v(j)[i]).backend == "zoho_crm"@,
        forall|i: int| 0 <= i < deals_v(j).len() ==> (#[trigger] deals_v(j)[i]).backend == "zoho_crm"@,
        forall|i: int| 0 <= i < activities_v(j).len() ==> (#[trigger] activities_v(j)[i]).backend == "zoho_crm"@,
        forall|i: int| 0 <= i < pipelines_v(j).len() ==> (#[trigger] pipelines_v(j)[i]).backend == "zoho_crm"@,
{
}

/// The token travels only in the `Authorization` header: backends with
/// different tokens send the same URL and body.
pub proof fn zoho_token_only_in_header(
    a: ZohoCrmBackend,
    b: ZohoCrmBackend,
    method: Method,
    path: Seq<char>,
    body: Option<JsonV>,
)
    ensures
        a.req(method, path, body).url == b.req(method, path, body).url,
        a.req(method, path, body).body == b.req(method, path, body).body,
        a.req(method, path, body).auth == AuthV::Header(
            "Authorization"@,
            "Zoho-oauthtoken "@ + a.token@,
        ),
{
}

/// A Zoho record becomes a unified record field by field, each from the
/// field of the same meaning (empty texts read as absent): a contact's names,
/// e-mail, phone and title from `First_Name`, `Last_Name`, `Email`, `Phone`,
/// `Title`, and (when linked) its account from `Account_Name`; an account's
/// name, website, industry, phone, city and country from `Account_Name`,
/// `Website`, `Industry`, `Phone`, `Billing_City`, `Billing_Country`; a deal's
/// name, stage, pipeline, amount, contact, account, closing date and
/// probability from `Deal_Name`, `Stage`, `Pipeline`, `Amount`,
/// `Contact_Name`, `Account_Name`, `Closing_Date`, `Probability`; a task's
/// type, subject, body, contact, deal and due date from `Activity_Type`,
/// `Subject`, `Description`, `Who_Id`, `What_Id`, `Due_Date`; a stage's id and
/// name from `id` and `display_value`; a note's content and time from
/// `Note_Content` and `Created_Time`. Ids come from `id`.
pub proof fn zoho_record_fields(v: JsonV, i: int, contact: Option<Seq<char>>, deal: Option<Seq<char>>)
    ensures
        contact_v(v, true).id == str_or_empty(jfield(v, "id"@)),
        contact_v(v, true).first_name == nonempty(jfield(v, "First_Name"@)),
        contact_v(v, true).last_name == nonempty(jfield(v, "Last_Name"@)),
        contact_v(v, true).email == nonempty(jfield(v, "Email"@)),
        contact_v(v, true).phone == nonempty(jfield(v, "Phone"@)),
        contact_v(v, true).title == nonempty(jfield(v, "Title"@)),
        contact_v(v, true).company_id == jstr(jfield(jfield(v, "Account_Name"@), "id"@)),
        contact_v(v, true).company_name == jstr(jfield(jfield(v, "Account_Name"@), "name"@)),
        contact_v(v, false).company_id is None,
        company_v(v).id == str_or_empty(jfield(v, "id"@)),
        company_v(v).name == str_or_empty(jfield(v, "Account_Name"@)),
        company_v(v).domain == nonempty(jfield(v, "Website"@)),
        company_v(v).industry == nonempty(jfield(v, "Industry"@)),
        company_v(v).phone == nonempty(jfield(v, "Phone"@)),
        company_v(v).city == nonempty(jfield(v, "Billing_City"@)),
        company_v(v).country == nonempty(jfield(v, "Billing_Country"@)),
        deal_v(v).id == str_or_empty(jfield(v, "id"@)),
        deal_v(v).name == str_or_empty(jfield(v, "Deal_Name"@)),
        deal_v(v).stage == nonempty(jfield(v, "Stage"@)),
        deal_v(v).pipeline == nonempty(jfield(v, "Pipeline"@)),
        deal_v(v).amount == jnum(jfield(v, "Amount"@)),
        deal_v(v).contact_id == jstr(jfield(jfield(v, "Contact_Name"@), "id"@)),
        deal_v(v).company_id == jstr(jfield(jfield(v, "Account_Name"@), "id"@)),
        deal_v(v).close_date == nonempty(jfield(v, "Closing_Date"@)),
        deal_v(v).probability == jnum(jfield(v, "Probability"@)),
        activity_v(v).id == str_or_empty(jfield(v, "id"@)),
        jstr(jfield(v, "Activity_Type"@)) matches Some(t) ==> activity_v(v).activity_type == t,
        activity_v(v).subject == nonempty(jfield(v, "Subject"@)),
        activity_v(v).body == nonempty(jfield(v, "Description"@)),
        activity_v(v).contact_id == jstr(jfield(jfield(v, "Who_Id"@), "id"@)),
        activity_v(v).deal_id == jstr(jfield(jfield(v, "What_Id"@), "id"@)),
        activity_v(v).due_date == nonempty(jfield(v, "Due_Date"@)),
        stage_v(v, i).id == str_or_empty(jfield(v, "id"@)),
        stage_v(v, i).name == str_or_empty(jfield(v, "display_value"@)),
        stage_v(v, i).order == i as u32,
        pipeline_v(v).id == str_or_empty(jfield(v, "id"@)),
        pipeline_v(v).name == str_or_empty(jfield(v, "display_value"@)),
        note_v(v, contact, deal).id == str_or_empty(jfield(v, "id"@)),
        note_v(v, contact, deal).content == str_or_empty(jfield(v, "Note_Content"@)),
        note_v(v, contact, deal).created_at == nonempty(jfield(v, "Created_Time"@)),
        note_v(v, contact, deal).contact_id == contact,
        note_v(v, contact, deal).deal_id == deal,
{
}

} // verus!
