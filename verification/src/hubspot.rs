//! The HubSpot CRM API v3 backend: the requests it sends and how its replies
//! become unified records.
use vstd::prelude::*;
use crate::http::{Auth, AuthV, Method, Reply, Request, RequestV, Step, StepV, after, fail, finish, rv};
use crate::json::{
    Json, JsonV, array_of, field, jarray, jfield, jtext, map_array, map_items, no_entries, nonempty,
    nonempty_text, object, object1, opt_json_view, opt_text_entry, push_entry, push_opt_text,
    str_or_empty, text_or_empty, entries_view, jnumber, array, array1, items_view, ov_json,
};
use crate::text::{copy_opt, dec, join3_dec, join_dec, join2, join3, join5, join_num, join_num4, opt_str_view, opt_string_view, owned, owned_opt};
use crate::types::{
    Activity, ActivityV, Amount, AmountV, Company, CompanyV, Contact, ContactV, Deal, DealV, Note,
    NoteV, Pipeline, PipelineStage, PipelineStageV, PipelineV, amount_view,
};

verus! {

/// The HubSpot backend, holding its private-app token.
#[derive(Debug, PartialEq)]
pub struct HubSpotBackend {
    pub token: String,
}

/// `v["properties"][k]` as non-empty text.
pub open spec fn hs_prop(v: JsonV, k: Seq<char>) -> Option<Seq<char>> {
    nonempty(jfield(jfield(v, "properties"@), k))
}

/// A contact record; `detailed` records carry the company name and job title.
pub open spec fn contact_v(c: JsonV, detailed: bool) -> ContactV {
    ContactV {
        id: str_or_empty(jfield(c, "id"@)),
        first_name: hs_prop(c, "firstname"@),
        last_name: hs_prop(c, "lastname"@),
        email: hs_prop(c, "email"@),
        phone: hs_prop(c, "phone"@),
        company_id: None,
        company_name: if detailed {
            hs_prop(c, "company"@)
        } else {
            None
        },
        title: if detailed {
            hs_prop(c, "jobtitle"@)
        } else {
            None
        },
        backend: "hubspot"@,
    }
}

/// The contacts under `results`.
pub open spec fn contacts_v(j: JsonV, detailed: bool) -> Seq<ContactV> {
    map_array(jfield(j, "results"@), detailed, |d: bool, c: JsonV| contact_v(c, d))
}

pub open spec fn company_v(c: JsonV) -> CompanyV {
    CompanyV {
        id: str_or_empty(jfield(c, "id"@)),
        name: match hs_prop(c, "name"@) {
            Some(n) => n,
            None => Seq::empty(),
        },
        domain: hs_prop(c, "domain"@),
        industry: hs_prop(c, "industry"@),
        phone: hs_prop(c, "phone"@),
        city: hs_prop(c, "city"@),
        country: hs_prop(c, "country"@),
        backend: "hubspot"@,
    }
}

pub open spec fn companies_v(j: JsonV) -> Seq<CompanyV> {
    map_array(jfield(j, "results"@), (), |u: (), c: JsonV| company_v(c))
}

/// A deal record; listed deals also carry the stage probability.
pub open spec fn deal_v(d: JsonV, with_probability: bool) -> DealV {
    DealV {
        id: str_or_empty(jfield(d, "id"@)),
        name: match hs_prop(d, "dealname"@) {
            Some(n) => n,
            None => Seq::empty(),
        },
        stage: hs_prop(d, "dealstage"@),
        pipeline: hs_prop(d, "pipeline"@),
        amount: hs_prop(d, "amount"@),
        currency: None,
        contact_id: None,
        company_id: None,
        close_date: hs_prop(d, "closedate"@),
        probability: if with_probability {
            hs_prop(d, "hs_deal_stage_probability"@)
        } else {
            None
        },
        status: None,
        backend: "hubspot"@,
    }
}

pub open spec fn deals_v(j: JsonV) -> Seq<DealV> {
    map_array(jfield(j, "results"@), true, |p: bool, d: JsonV| deal_v(d, p))
}

/// An engagement listed for a contact or deal.
pub open spec fn engagement_v(e: JsonV, contact: Option<Seq<char>>, deal: Option<Seq<char>>) -> ActivityV {
    ActivityV {
        id: str_or_empty(jfield(e, "id"@)),
        activity_type: "engagement"@,
        subject: None,
        body: None,
        contact_id: contact,
        deal_id: deal,
        done: false,
        due_date: None,
        backend: "hubspot"@,
    }
}

pub open spec fn stage_v(s: JsonV, i: int) -> PipelineStageV {
    PipelineStageV {
        id: str_or_empty(jfield(s, "id"@)),
        name: str_or_empty(jfield(s, "label"@)),
        order: i as u32,
        deal_count: None,
        total_value: None,
    }
}

/// The stages of a pipeline, numbered by their position.
pub open spec fn stages_v(a: JsonV) -> Seq<PipelineStageV> {
    match jarray(a) {
        Some(s) => Seq::new(s.len(), |i: int| stage_v(s[i], i)),
        None => Seq::empty(),
    }
}

pub open spec fn pipeline_v(p: JsonV) -> PipelineV {
    PipelineV {
        id: str_or_empty(jfield(p, "id"@)),
        name: str_or_empty(jfield(p, "label"@)),
        stages: stages_v(jfield(p, "stages"@)),
        backend: "hubspot"@,
    }
}

pub open spec fn pipelines_v(j: JsonV) -> Seq<PipelineV> {
    map_array(jfield(j, "results"@), (), |u: (), p: JsonV| pipeline_v(p))
}

pub open spec fn note_v(n: JsonV, contact: Option<Seq<char>>, deal: Option<Seq<char>>) -> NoteV {
    NoteV {
        id: str_or_empty(jfield(n, "id"@)),
        content: match hs_prop(n, "hs_note_body"@) {
            Some(t) => t,
            None => Seq::empty(),
        },
        contact_id: contact,
        company_id: None,
        deal_id: deal,
        created_at: hs_prop(n, "hs_createdate"@),
        backend: "hubspot"@,
    }
}

pub open spec fn notes_v(j: JsonV, contact: Option<Seq<char>>, deal: Option<Seq<char>>) -> Seq<NoteV> {
    map_array(jfield(j, "results"@), (contact, deal), |cd: (Option<Seq<char>>, Option<Seq<char>>), n: JsonV| note_v(n, cd.0, cd.1))
}

/// The failure of the latest association, once the creation reply and at
/// least one association reply have come back.
pub open spec fn link_failure(replies: Seq<Reply>) -> Option<Seq<char>> {
    if replies.len() > 1 {
        match rv(replies.last()) {
            Err(e) => Some(e),
            Ok(_) => None,
        }
    } else {
        None
    }
}

/// `{"properties": props}`.
pub open spec fn props_body(props: Seq<(Seq<char>, JsonV)>) -> JsonV {
    JsonV::Object(seq![("properties"@, JsonV::Object(props))])
}

/// The text entry `k: s` when `s` is given.
pub open spec fn opt_amount_entry(a: Option<AmountV>) -> Seq<(Seq<char>, JsonV)> {
    match a {
        Some(x) => seq![("amount"@, JsonV::Str(x.text))],
        None => seq![],
    }
}

impl HubSpotBackend {
    pub fn new(token: String) -> (r: Self)
        ensures
            r.token@ == token@,
    {
        HubSpotBackend { token }
    }

    /// The backend's name, which tags every record it returns.
    pub fn name(&self) -> (r: &str)
        ensures
            r@ == "hubspot"@,
    {
        "hubspot"
    }

    /// A request to `https://api.hubapi.com/{path}` with the bearer token.
    pub open spec fn req(self, method: Method, path: Seq<char>, body: Option<JsonV>) -> RequestV {
        RequestV {
            method,
            url: "https://api.hubapi.com/"@ + path,
            auth: AuthV::Bearer(self.token@),
            body,
            reads_body: true,
        }
    }

    fn request(&self, method: Method, path: String, body: Option<Json>) -> (r: Request)
        ensures
            r@ == self.req(method, path@, opt_json_view(body)),
    {
        Request {
            method,
            url: join2("https://api.hubapi.com/", path.as_str()),
            auth: Auth::Bearer(self.token.clone()),
            body,
            reads_body: true,
        }
    }

    fn prop(v: &Json, k: &str) -> (r: Option<String>)
        ensures
            opt_string_view(r) == hs_prop(v@, k@),
    {
        nonempty_text(field(field(Some(v), "properties"), k))
    }

    fn contact_of(c: &Json, detailed: bool) -> (r: Contact)
        ensures
            r@ == contact_v(c@, detailed),
    {
        Contact {
            id: text_or_empty(field(Some(c), "id")),
            first_name: Self::prop(c, "firstname"),
            last_name: Self::prop(c, "lastname"),
            email: Self::prop(c, "email"),
            phone: Self::prop(c, "phone"),
            company_id: None,
            company_name: if detailed {
                Self::prop(c, "company")
            } else {
                None
            },
            title: if detailed {
                Self::prop(c, "jobtitle")
            } else {
                None
            },
            backend: owned("hubspot"),
        }
    }

    fn contact_item(detailed: &bool, c: &Json) -> (r: Contact)
        ensures
            r@ == contact_v(c@, *detailed),
    {
        Self::contact_of(c, *detailed)
    }

    fn contacts_of(j: &Json, detailed: bool) -> (r: Vec<Contact>)
        ensures
            r.deep_view() == contacts_v(j@, detailed),
    {
        map_items(
            &detailed,
            array_of(field(Some(j), "results")),
            Self::contact_item,
            Ghost(|d: bool, c: JsonV| contact_v(c, d)),
        )
    }

    fn contact_result(reply: &Reply) -> (r: Step<Contact>)
        ensures
            r@ == finish(rv(*reply), |j: JsonV| contact_v(j, true)),
    {
        match reply {
            Err(e) => fail(e),
            Ok(j) => Step::Done(Ok(Self::contact_of(j, true))),
        }
    }

    pub open spec fn contact_path(id: Seq<char>) -> Seq<char> {
        "crm/v3/objects/contacts/"@ + id + "?properties=firstname,lastname,email,phone,company,jobtitle"@
    }

    fn contact_request(&self, id: &str) -> (r: Request)
        ensures
            r@ == self.req(Method::Get, Self::contact_path(id@), None),
    {
        self.request(
            Method::Get,
            join3(
                "crm/v3/objects/contacts/",
                id,
                "?properties=firstname,lastname,email,phone,company,jobtitle",
            ),
            None,
        )
    }

    /// Lists contacts: one GET, the `results` mapped to contacts.
    pub fn list_contacts(&self, limit: u32, replies: &Vec<Reply>) -> (r: Step<Vec<Contact>>)
        ensures
            replies.len() == 0 ==> r@ == StepV::<Seq<ContactV>>::Send(
                self.req(
                    Method::Get,
                    "crm/v3/objects/contacts?limit="@ + dec(limit as nat)
                        + "&properties=firstname,lastname,email,phone,company,jobtitle"@,
                    None,
                ),
            ),
            replies.len() > 0 ==> r@ == finish(rv(replies@[0]), |j: JsonV| contacts_v(j, true)),
    {
        if replies.len() == 0 {
            return Step::Send(
                self.request(
                    Method::Get,
                    join_num(
                        "crm/v3/objects/contacts?limit=",
                        limit as u64,
                        "&properties=firstname,lastname,email,phone,company,jobtitle",
                    ),
                    None,
                ),
            );
        }
        match &replies[0] {
            Err(e) => fail(e),
            Ok(j) => Step::Done(Ok(Self::contacts_of(j, true))),
        }
    }

    /// Gets one contact.
    pub fn get_contact(&self, id: &str, replies: &Vec<Reply>) -> (r: Step<Contact>)
        ensures
            replies.len() == 0 ==> r@ == StepV::<ContactV>::Send(
                self.req(Method::Get, Self::contact_path(id@), None),
            ),
            replies.len() > 0 ==> r@ == finish(rv(replies@[0]), |j: JsonV| contact_v(j, true)),
    {
        if replies.len() == 0 {
            return Step::Send(self.contact_request(id));
        }
        Self::contact_result(&replies[0])
    }

    /// The properties of a new contact.
    pub open spec fn new_contact_props(
        first: Seq<char>,
        last: Seq<char>,
        email: Option<Seq<char>>,
        phone: Option<Seq<char>>,
    ) -> Seq<(Seq<char>, JsonV)> {
        seq![("firstname"@, JsonV::Str(first)), ("lastname"@, JsonV::Str(last))] + opt_text_entry(
            "email"@,
            email,
        ) + opt_text_entry("phone"@, phone)
    }

    /// Creates a contact: one POST; the record is built from the arguments and
    /// the id in the reply. The company is not sent.
    pub fn create_contact(
        &self,
        first_name: &str,
        last_name: &str,
        email: Option<&str>,
        phone: Option<&str>,
        company_id: Option<&str>,
        replies: &Vec<Reply>,
    ) -> (r: Step<Contact>)
        ensures
            replies.len() == 0 ==> r@ == StepV::<ContactV>::Send(
                self.req(
                    Method::Post,
                    "crm/v3/objects/contacts"@,
                    Some(
                        props_body(
                            Self::new_contact_props(
                                first_name@,
                                last_name@,
                                opt_str_view(email),
                                opt_str_view(phone),
                            ),
                        ),
                    ),
                ),
            ),
            replies.len() > 0 ==> r@ == finish(
                rv(replies@[0]),
                |j: JsonV|
                    ContactV {
                        id: str_or_empty(jfield(j, "id"@)),
                        first_name: Some(first_name@),
                        last_name: Some(last_name@),
                        email: opt_str_view(email),
                        phone: opt_str_view(phone),
                        company_id: None,
                        company_name: None,
                        title: None,
                        backend: "hubspot"@,
                    },
            ),
    {
        if replies.len() == 0 {
            let mut es = no_entries();
            push_entry(&mut es, "firstname", jtext(first_name));
            push_entry(&mut es, "lastname", jtext(last_name));
            push_opt_text(&mut es, "email", email);
            push_opt_text(&mut es, "phone", phone);
            proof {
                assert(entries_view(es@) =~= Self::new_contact_props(
                    first_name@,
                    last_name@,
                    opt_str_view(email),
                    opt_str_view(phone),
                ));
            }
            let body = object1("properties", object(es));
            return Step::Send(self.request(Method::Post, owned("crm/v3/objects/contacts"), Some(body)));
        }
        match &replies[0] {
            Err(e) => fail(e),
            Ok(j) => Step::Done(
                Ok(
                    Contact {
                        id: text_or_empty(field(Some(j), "id")),
                        first_name: Some(owned(first_name)),
                        last_name: Some(owned(last_name)),
                        email: owned_opt(email),
                        phone: owned_opt(phone),
                        company_id: None,
                        company_name: None,
                        title: None,
                        backend: owned("hubspot"),
                    },
                ),
            ),
        }
    }

    /// Updates a contact: a PATCH of the given fields, then the contact read back.
    pub fn update_contact(
        &self,
        id: &str,
        first_name: Option<&str>,
        last_name: Option<&str>,
        email: Option<&str>,
        phone: Option<&str>,
        replies: &Vec<Reply>,
    ) -> (r: Step<Contact>)
        ensures
            replies.len() == 0 ==> r@ == StepV::<ContactV>::Send(
                self.req(
                    Method::Patch,
                    "crm/v3/objects/contacts/"@ + id@,
                    Some(
                        props_body(
                            opt_text_entry("firstname"@, opt_str_view(first_name)) + opt_text_entry(
                                "lastname"@,
                                opt_str_view(last_name),
                            ) + opt_text_entry("email"@, opt_str_view(email)) + opt_text_entry(
                                "phone"@,
                                opt_str_view(phone),
                            ),
                        ),
                    ),
                ),
            ),
            replies.len() == 1 ==> r@ == after(
                rv(replies@[0]),
                StepV::<ContactV>::Send(self.req(Method::Get, Self::contact_path(id@), None)),
            ),
            replies.len() > 1 ==> r@ == after(
                rv(replies@[0]),
                finish(rv(replies@[1]), |j: JsonV| contact_v(j, true)),
            ),
    {
        if replies.len() == 0 {
            let mut es = no_entries();
            push_opt_text(&mut es, "firstname", first_name);
            push_opt_text(&mut es, "lastname", last_name);
            push_opt_text(&mut es, "email", email);
            push_opt_text(&mut es, "phone", phone);
            let body = object1("properties", object(es));
            return Step::Send(
                self.request(Method::Patch, join2("crm/v3/objects/contacts/", id), Some(body)),
            );
        }
        match &replies[0] {
            Err(e) => fail(e),
            Ok(_) => if replies.len() == 1 {
                Step::Send(self.contact_request(id))
            } else {
                Self::contact_result(&replies[1])
            },
        }
    }

    /// The body of a contact search.
    pub open spec fn search_body(query: Seq<char>, limit: u32) -> JsonV {
        JsonV::Object(
            seq![
                ("query"@, JsonV::Str(query)),
                ("limit"@, JsonV::Number(dec(limit as nat))),
                (
                    "properties"@,
                    JsonV::Array(
                        seq![
                            JsonV::Str("firstname"@),
                            JsonV::Str("lastname"@),
                            JsonV::Str("email"@),
                            JsonV::Str("phone"@),
                        ],
                    ),
                ),
            ],
        )
    }

    /// Searches contacts with the native search endpoint.
    pub fn search_contacts(&self, query: &str, limit: u32, replies: &Vec<Reply>) -> (r: Step<
        Vec<Contact>,
    >)
        ensures
            replies.len() == 0 ==> r@ == StepV::<Seq<ContactV>>::Send(
                self.req(
                    Method::Post,
                    "crm/v3/objects/contacts/search"@,
                    Some(Self::search_body(query@, limit)),
                ),
            ),
            replies.len() > 0 ==> r@ == finish(rv(replies@[0]), |j: JsonV| contacts_v(j, false)),
    {
        if replies.len() == 0 {
            let mut props: Vec<Json> = Vec::new();
            props.push(jtext("firstname"));
            props.push(jtext("lastname"));
            props.push(jtext("email"));
            props.push(jtext("phone"));
            proof {
                assert(items_view(props@) =~= seq![
                    JsonV::Str("firstname"@),
                    JsonV::Str("lastname"@),
                    JsonV::Str("email"@),
                    JsonV::Str("phone"@),
                ]);
            }
            let mut es = no_entries();
            push_entry(&mut es, "query", jtext(query));
            push_entry(&mut es, "limit", jnumber(limit as u64));
            push_entry(&mut es, "properties", array(props));
            let body = object(es);
            proof {
                assert(entries_view(es@) =~= seq![
                    ("query"@, JsonV::Str(query@)),
                    ("limit"@, JsonV::Number(dec(limit as nat))),
                    (
                        "properties"@,
                        JsonV::Array(
                            seq![
                                JsonV::Str("firstname"@),
                                JsonV::Str("lastname"@),
                                JsonV::Str("email"@),
                                JsonV::Str("phone"@),
                            ],
                        ),
                    ),
                ]);
            }
            return Step::Send(
                self.request(Method::Post, owned("crm/v3/objects/contacts/search"), Some(body)),
            );
        }
        match &replies[0] {
            Err(e) => fail(e),
            Ok(j) => Step::Done(Ok(Self::contacts_of(j, false))),
        }
    }

    // ---- companies ----
    fn company_of(u: &(), c: &Json) -> (r: Company)
        ensures
            r@ == company_v(c@),
    {
        Company {
            id: text_or_empty(field(Some(c), "id")),
            name: match Self::prop(c, "name") {
                Some(n) => n,
                None => String::new(),
            },
            domain: Self::prop(c, "domain"),
            industry: Self::prop(c, "industry"),
            phone: Self::prop(c, "phone"),
            city: Self::prop(c, "city"),
            country: Self::prop(c, "country"),
            backend: owned("hubspot"),
        }
    }

    fn company_result(reply: &Reply) -> (r: Step<Company>)
        ensures
            r@ == finish(rv(*reply), |j: JsonV| company_v(j)),
    {
        match reply {
            Err(e) => fail(e),
            Ok(j) => Step::Done(Ok(Self::company_of(&(), j))),
        }
    }

    pub open spec fn company_path(id: Seq<char>) -> Seq<char> {
        "crm/v3/objects/companies/"@ + id + "?properties=name,domain,industry,phone,city,country"@
    }

    fn company_request(&self, id: &str) -> (r: Request)
        ensures
            r@ == self.req(Method::Get, Self::company_path(id@), None),
    {
        self.request(
            Method::Get,
            join3("crm/v3/objects/companies/", id, "?properties=name,domain,industry,phone,city,country"),
            None,
        )
    }

    /// Lists companies.
    pub fn list_companies(&self, limit: u32, replies: &Vec<Reply>) -> (r: Step<Vec<Company>>)
        ensures
            replies.len() == 0 ==> r@ == StepV::<Seq<CompanyV>>::Send(
                self.req(
                    Method::Get,
                    "crm/v3/objects/companies?limit="@ + dec(limit as nat)
                        + "&properties=name,domain,industry,phone,city,country"@,
                    None,
                ),
            ),
            replies.len() > 0 ==> r@ == finish(rv(replies@[0]), |j: JsonV| companies_v(j)),
    {
        if replies.len() == 0 {
            return Step::Send(
                self.request(
                    Method::Get,
                    join_num(
                        "crm/v3/objects/companies?limit=",
                        limit as u64,
                        "&properties=name,domain,industry,phone,city,country",
                    ),
                    None,
                ),
            );
        }
        match &replies[0] {
            Err(e) => fail(e),
            Ok(j) => Step::Done(
                Ok(
                    map_items(
                        &(),
                        array_of(field(Some(j), "results")),
                        Self::company_of,
                        Ghost(|u: (), c: JsonV| company_v(c)),
                    ),
                ),
            ),
        }
    }

    /// Gets one company.
    pub fn get_company(&self, id: &str, replies: &Vec<Reply>) -> (r: Step<Company>)
        ensures
            replies.len() == 0 ==> r@ == StepV::<CompanyV>::Send(
                self.req(Method::Get, Self::company_path(id@), None),
            ),
            replies.len() > 0 ==> r@ == finish(rv(replies@[0]), |j: JsonV| company_v(j)),
    {
        if replies.len() == 0 {
            return Step::Send(self.company_request(id));
        }
        Self::company_result(&replies[0])
    }

    /// Creates a company: one POST; the record is built from the arguments
    /// and the id in the reply.
    pub fn create_company(
        &self,
        name: &str,
        domain: Option<&str>,
        industry: Option<&str>,
        replies: &Vec<Reply>,
    ) -> (r: Step<Company>)
        ensures
            replies.len() == 0 ==> r@ == StepV::<CompanyV>::Send(
                self.req(
                    Method::Post,
                    "crm/v3/objects/companies"@,
                    Some(
                        props_body(
                            seq![("name"@, JsonV::Str(name@))] + opt_text_entry(
                                "domain"@,
                                opt_str_view(domain),
                            ) + opt_text_entry("industry"@, opt_str_view(industry)),
                        ),
                    ),
                ),
            ),
            replies.len() > 0 ==> r@ == finish(
                rv(replies@[0]),
                |j: JsonV|
                    CompanyV {
                        id: str_or_empty(jfield(j, "id"@)),
                        name: name@,
                        domain: opt_str_view(domain),
                        industry: opt_str_view(industry),
                        phone: None,
                        city: None,
                        country: None,
                        backend: "hubspot"@,
                    },
            ),
    {
        if replies.len() == 0 {
            let mut es = no_entries();
            push_entry(&mut es, "name", jtext(name));
            push_opt_text(&mut es, "domain", domain);
            push_opt_text(&mut es, "industry", industry);
            proof {
                assert(entries_view(es@) =~= seq![("name"@, JsonV::Str(name@))] + opt_text_entry(
                    "domain"@,
                    opt_str_view(domain),
                ) + opt_text_entry("industry"@, opt_str_view(industry)));
            }
            let body = object1("properties", object(es));
            return Step::Send(
                self.request(Method::Post, owned("crm/v3/objects/companies"), Some(body)),
            );
        }
        match &replies[0] {
            Err(e) => fail(e),
            Ok(j) => Step::Done(
                Ok(
                    Company {
                        id: text_or_empty(field(Some(j), "id")),
                        name: owned(name),
                        domain: owned_opt(domain),
                        industry: owned_opt(industry),
                        phone: None,
                        city: None,
                        country: None,
                        backend: owned("hubspot"),
                    },
                ),
            ),
        }
    }

    /// Updates a company: a PATCH of the given fields, then the company read back.
    pub fn update_company(
        &self,
        id: &str,
        name: Option<&str>,
        domain: Option<&str>,
        industry: Option<&str>,
        replies: &Vec<Reply>,
    ) -> (r: Step<Company>)
        ensures
            replies.len() == 0 ==> r@ == StepV::<CompanyV>::Send(
                self.req(
                    Method::Patch,
                    "crm/v3/objects/companies/"@ + id@,
                    Some(
                        props_body(
                            opt_text_entry("name"@, opt_str_view(name)) + opt_text_entry(
                                "domain"@,
                                opt_str_view(domain),
                            ) + opt_text_entry("industry"@, opt_str_view(industry)),
                        ),
                    ),
                ),
            ),
            replies.len() == 1 ==> r@ == after(
                rv(replies@[0]),
                StepV::<CompanyV>::Send(self.req(Method::Get, Self::company_path(id@), None)),
            ),
            replies.len() > 1 ==> r@ == after(
                rv(replies@[0]),
                finish(rv(replies@[1]), |j: JsonV| company_v(j)),
            ),
    {
        if replies.len() == 0 {
            let mut es = no_entries();
            push_opt_text(&mut es, "name", name);
            push_opt_text(&mut es, "domain", domain);
            push_opt_text(&mut es, "industry", industry);
            let body = object1("properties", object(es));
            return Step::Send(
                self.request(Method::Patch, join2("crm/v3/objects/companies/", id), Some(body)),
            );
        }
        match &replies[0] {
            Err(e) => fail(e),
            Ok(_) => if replies.len() == 1 {
                Step::Send(self.company_request(id))
            } else {
                Self::company_result(&replies[1])
            },
        }
    }

    // ---- deals ----
    fn deal_of(with_probability: &bool, d: &Json) -> (r: Deal)
        ensures
            r@ == deal_v(d@, *with_probability),
    {
        Deal {
            id: text_or_empty(field(Some(d), "id")),
            name: match Self::prop(d, "dealname") {
                Some(n) => n,
                None => String::new(),
            },
            stage: Self::prop(d, "dealstage"),
            pipeline: Self::prop(d, "pipeline"),
            amount: Self::prop(d, "amount"),
            currency: None,
            contact_id: None,
            company_id: None,
            close_date: Self::prop(d, "closedate"),
            probability: if *with_probability {
                Self::prop(d, "hs_deal_stage_probability")
            } else {
                None
            },
            status: None,
            backend: owned("hubspot"),
        }
    }

    fn deal_result(reply: &Reply) -> (r: Step<Deal>)
        ensures
            r@ == finish(rv(*reply), |j: JsonV| deal_v(j, true)),
    {
        match reply {
            Err(e) => fail(e),
            Ok(j) => Step::Done(Ok(Self::deal_of(&true, j))),
        }
    }

    pub open spec fn deal_path(id: Seq<char>) -> Seq<char> {
        "crm/v3/objects/deals/"@ + id + "?properties=dealname,dealstage,pipeline,amount,closedate,hs_deal_stage_probability"@
    }

    fn deal_request(&self, id: &str) -> (r: Request)
        ensures
            r@ == self.req(Method::Get, Self::deal_path(id@), None),
    {
        self.request(
            Method::Get,
            join3("crm/v3/objects/deals/", id, "?properties=dealname,dealstage,pipeline,amount,closedate,hs_deal_stage_probability"),
            None,
        )
    }

    /// Lists deals, with their stage probability.
    pub fn list_deals(&self, limit: u32, replies: &Vec<Reply>) -> (r: Step<Vec<Deal>>)
        ensures
            replies.len() == 0 ==> r@ == StepV::<Seq<DealV>>::Send(
                self.req(
                    Method::Get,
                    "crm/v3/objects/deals?limit="@ + dec(limit as nat)
                        + "&properties=dealname,dealstage,pipeline,amount,closedate,hs_deal_stage_probability"@,
                    None,
                ),
            ),
            replies.len() > 0 ==> r@ == finish(rv(replies@[0]), |j: JsonV| deals_v(j)),
    {
        if replies.len() == 0 {
            return Step::Send(
                self.request(
                    Method::Get,
                    join_num(
                        "crm/v3/objects/deals?limit=",
                        limit as u64,
                        "&properties=dealname,dealstage,pipeline,amount,closedate,hs_deal_stage_probability",
                    ),
                    None,
                ),
            );
        }
        match &replies[0] {
            Err(e) => fail(e),
            Ok(j) => Step::Done(
                Ok(
                    map_items(
                        &true,
                        array_of(field(Some(j), "results")),
                        Self::deal_of,
                        Ghost(|p: bool, d: JsonV| deal_v(d, p)),
                    ),
                ),
            ),
        }
    }

    /// Gets one deal (without the stage probability).
    pub fn get_deal(&self, id: &str, replies: &Vec<Reply>) -> (r: Step<Deal>)
        ensures
            replies.len() == 0 ==> r@ == StepV::<DealV>::Send(
                self.req(Method::Get, Self::deal_path(id@), None),
            ),
            replies.len() > 0 ==> r@ == finish(rv(replies@[0]), |j: JsonV| deal_v(j, true)),
    {
        if replies.len() == 0 {
            return Step::Send(self.deal_request(id));
        }
        Self::deal_result(&replies[0])
    }

    fn push_amount(es: &mut Vec<(String, Json)>, amount: Option<&Amount>)
        ensures
            entries_view(final(es)@) == entries_view(old(es)@) + opt_amount_entry(amount_view(amount)),
    {
        match amount {
            Some(a) => {
                push_entry(es, "amount", Json::Str(a.text.clone()));
            },
            None => {},
        }
        proof {
            assert(entries_view(final(es)@) =~= entries_view(old(es)@) + opt_amount_entry(
                amount_view(amount),
            ));
        }
    }

    /// The properties of a new deal; the amount is sent as its decimal text.
    pub open spec fn new_deal_props(
        name: Seq<char>,
        amount: Option<AmountV>,
        stage: Option<Seq<char>>,
    ) -> Seq<(Seq<char>, JsonV)> {
        seq![("dealname"@, JsonV::Str(name))] + opt_amount_entry(amount) + opt_text_entry(
            "dealstage"@,
            stage,
        )
    }

    /// Creates a deal: a POST, then the new deal (by the id in the reply) read back.
    /// The contact and company are not sent.
    pub fn create_deal(
        &self,
        name: &str,
        amount: Option<&Amount>,
        stage: Option<&str>,
        contact_id: Option<&str>,
        company_id: Option<&str>,
        replies: &Vec<Reply>,
    ) -> (r: Step<Deal>)
        ensures
            replies.len() == 0 ==> r@ == StepV::<DealV>::Send(
                self.req(
                    Method::Post,
                    "crm/v3/objects/deals"@,
                    Some(
                        props_body(
                            Self::new_deal_props(name@, amount_view(amount), opt_str_view(stage)),
                        ),
                    ),
                ),
            ),
            replies.len() == 1 ==> r@ == match rv(replies@[0]) {
                Ok(j) => StepV::<DealV>::Send(
                    self.req(Method::Get, Self::deal_path(str_or_empty(jfield(j, "id"@))), None),
                ),
                Err(e) => StepV::Done(Err(e)),
            },
            replies.len() > 1 ==> r@ == after(
                rv(replies@[0]),
                finish(rv(replies@[1]), |j: JsonV| deal_v(j, true)),
            ),
    {
        if replies.len() == 0 {
            let mut es = no_entries();
            push_entry(&mut es, "dealname", jtext(name));
            Self::push_amount(&mut es, amount);
            push_opt_text(&mut es, "dealstage", stage);
            proof {
                assert(entries_view(es@) =~= Self::new_deal_props(
                    name@,
                    amount_view(amount),
                    opt_str_view(stage),
                ));
            }
            let body = object1("properties", object(es));
            return Step::Send(self.request(Method::Post, owned("crm/v3/objects/deals"), Some(body)));
        }
        match &replies[0] {
            Err(e) => fail(e),
            Ok(j) => if replies.len() == 1 {
                let id = text_or_empty(field(Some(j), "id"));
                Step::Send(self.deal_request(id.as_str()))
            } else {
                Self::deal_result(&replies[1])
            },
        }
    }

    /// The properties a deal update sends.
    pub open spec fn deal_update_props(
        name: Option<Seq<char>>,
        amount: Option<AmountV>,
        stage: Option<Seq<char>>,
        close_date: Option<Seq<char>>,
    ) -> Seq<(Seq<char>, JsonV)> {
        opt_text_entry("dealname"@, name) + opt_amount_entry(amount) + opt_text_entry(
            "dealstage"@,
            stage,
        ) + opt_text_entry("closedate"@, close_date)
    }

    /// Updates a deal: a PATCH of the given fields, then the deal read back.
    pub fn update_deal(
        &self,
        id: &str,
        name: Option<&str>,
        amount: Option<&Amount>,
        stage: Option<&str>,
        close_date: Option<&str>,
        replies: &Vec<Reply>,
    ) -> (r: Step<Deal>)
        ensures
            replies.len() == 0 ==> r@ == StepV::<DealV>::Send(
                self.req(
                    Method::Patch,
                    "crm/v3/objects/deals/"@ + id@,
                    Some(
                        props_body(
                            Self::deal_update_props(
                                opt_str_view(name),
                                amount_view(amount),
                                opt_str_view(stage),
                                opt_str_view(close_date),
                            ),
                        ),
                    ),
                ),
            ),
            replies.len() == 1 ==> r@ == after(
                rv(replies@[0]),
                StepV::<DealV>::Send(self.req(Method::Get, Self::deal_path(id@), None)),
            ),
            replies.len() > 1 ==> r@ == after(
                rv(replies@[0]),
                finish(rv(replies@[1]), |j: JsonV| deal_v(j, true)),
            ),
    {
        if replies.len() == 0 {
            let mut es = no_entries();
            push_opt_text(&mut es, "dealname", name);
            Self::push_amount(&mut es, amount);
            push_opt_text(&mut es, "dealstage", stage);
            push_opt_text(&mut es, "closedate", close_date);
            proof {
                assert(entries_view(es@) =~= Self::deal_update_props(
                    opt_str_view(name),
                    amount_view(amount),
                    opt_str_view(stage),
                    opt_str_view(close_date),
                ));
            }
            let body = object1("properties", object(es));
            return Step::Send(
                self.request(Method::Patch, join2("crm/v3/objects/deals/", id), Some(body)),
            );
        }
        match &replies[0] {
            Err(e) => fail(e),
            Ok(_) => if replies.len() == 1 {
                Step::Send(self.deal_request(id))
            } else {
                Self::deal_result(&replies[1])
            },
        }
    }

    /// Moves a deal to a stage: a PATCH of `dealstage`, then the deal read back.
    pub fn move_deal_stage(&self, id: &str, stage: &str, replies: &Vec<Reply>) -> (r: Step<Deal>)
        ensures
            replies.len() == 0 ==> r@ == StepV::<DealV>::Send(
                self.req(
                    Method::Patch,
                    "crm/v3/objects/deals/"@ + id@,
                    Some(props_body(seq![("dealstage"@, JsonV::Str(stage@))])),
                ),
            ),
            replies.len() == 1 ==> r@ == after(
                rv(replies@[0]),
                StepV::<DealV>::Send(self.req(Method::Get, Self::deal_path(id@), None)),
            ),
            replies.len() > 1 ==> r@ == after(
                rv(replies@[0]),
                finish(rv(replies@[1]), |j: JsonV| deal_v(j, true)),
            ),
    {
        if replies.len() == 0 {
            let body = object1("properties", object1("dealstage", jtext(stage)));
            return Step::Send(
                self.request(Method::Patch, join2("crm/v3/objects/deals/", id), Some(body)),
            );
        }
        match &replies[0] {
            Err(e) => fail(e),
            Ok(_) => if replies.len() == 1 {
                Step::Send(self.deal_request(id))
            } else {
                Self::deal_result(&replies[1])
            },
        }
    }

    // ---- activities ----
    /// Where the engagements of a contact, else of a deal, else of the account are listed.
    pub open spec fn engagements_path(
        contact: Option<Seq<char>>,
        deal: Option<Seq<char>>,
        limit: u32,
    ) -> Seq<char> {
        match contact {
            Some(c) => "crm/v3/objects/contacts/"@ + c + "/associations/engagements?limit="@ + dec(
                limit as nat,
            ),
            None => match deal {
                Some(d) => "crm/v3/objects/deals/"@ + d + "/associations/engagements?limit="@ + dec(
                    limit as nat,
                ),
                None => "crm/v3/objects/engagements?limit="@ + dec(limit as nat),
            },
        }
    }

    fn engagement_of(ctx: &(Option<String>, Option<String>), e: &Json) -> (r: Activity)
        ensures
            r@ == engagement_v(e@, opt_string_view(ctx.0), opt_string_view(ctx.1)),
    {
        Activity {
            id: text_or_empty(field(Some(e), "id")),
            activity_type: owned("engagement"),
            subject: None,
            body: None,
            contact_id: copy_opt(&ctx.0),
            deal_id: copy_opt(&ctx.1),
            done: false,
            due_date: None,
            backend: owned("hubspot"),
        }
    }

    /// Lists the engagements of a contact or deal. A failed request gives no activities.
    pub fn list_activities(
        &self,
        contact_id: Option<&str>,
        deal_id: Option<&str>,
        limit: u32,
        replies: &Vec<Reply>,
    ) -> (r: Step<Vec<Activity>>)
        ensures
            replies.len() == 0 ==> r@ == StepV::<Seq<ActivityV>>::Send(
                self.req(
                    Method::Get,
                    Self::engagements_path(opt_str_view(contact_id), opt_str_view(deal_id), limit),
                    None,
                ),
            ),
            replies.len() > 0 ==> r@ == StepV::<Seq<ActivityV>>::Done(
                Ok(
                    match rv(replies@[0]) {
                        Ok(j) => map_array(
                            jfield(j, "results"@),
                            (opt_str_view(contact_id), opt_str_view(deal_id)),
                            |cd: (Option<Seq<char>>, Option<Seq<char>>), e: JsonV|
                                engagement_v(e, cd.0, cd.1),
                        ),
                        Err(_) => Seq::empty(),
                    },
                ),
            ),
    {
        if replies.len() == 0 {
            let path = match contact_id {
                Some(c) => join3_dec(
                    "crm/v3/objects/contacts/",
                    c,
                    "/associations/engagements?limit=",
                    limit as u64,
                ),
                None => match deal_id {
                    Some(d) => join3_dec(
                        "crm/v3/objects/deals/",
                        d,
                        "/associations/engagements?limit=",
                        limit as u64,
                    ),
                    None => join_dec("crm/v3/objects/engagements?limit=", limit as u64),
                },
            };
            proof {
                assert(path@ =~= Self::engagements_path(
                    opt_str_view(contact_id),
                    opt_str_view(deal_id),
                    limit,
                ));
            }
            return Step::Send(self.request(Method::Get, path, None));
        }
        let ctx = (owned_opt(contact_id), owned_opt(deal_id));
        match &replies[0] {
            Err(_) => {
                let v: Vec<Activity> = Vec::new();
                proof {
                    assert(v.deep_view() =~= Seq::<ActivityV>::empty());
                }
                Step::Done(Ok(v))
            },
            Ok(j) => {
                let v = map_items(
                    &ctx,
                    array_of(field(Some(j), "results")),
                    Self::engagement_of,
                    Ghost(
                        |cd: (Option<String>, Option<String>), e: JsonV|
                            engagement_v(e, opt_string_view(cd.0), opt_string_view(cd.1)),
                    ),
                );
                proof {
                    assert(v.deep_view() =~= map_array(
                        jfield(j@, "results"@),
                        (opt_str_view(contact_id), opt_str_view(deal_id)),
                        |cd: (Option<Seq<char>>, Option<Seq<char>>), e: JsonV|
                            engagement_v(e, cd.0, cd.1),
                    ));
                }
                Step::Done(Ok(v))
            },
        }
    }

    /// An association of a new task or note with a contact or deal.
    pub open spec fn link_req(
        self,
        object: Seq<char>,
        id: Seq<char>,
        target: Seq<char>,
        other: Seq<char>,
        label: Seq<char>,
    ) -> RequestV {
        self.req(
            Method::Post,
            "crm/v3/objects/"@ + object + "/"@ + id + "/associations/"@ + target + "/"@ + other + "/"@
                + label,
            Some(JsonV::Object(seq![])),
        )
    }

    /// The associations made after a task or note is created: with the contact,
    /// then with the deal, then with the company, each when given.
    pub open spec fn links(
        self,
        object: Seq<char>,
        id: Seq<char>,
        contact: Option<Seq<char>>,
        deal: Option<Seq<char>>,
        company: Option<Seq<char>>,
        labels: (Seq<char>, Seq<char>, Seq<char>),
    ) -> Seq<RequestV> {
        (match contact {
            Some(c) => seq![self.link_req(object, id, "contacts"@, c, labels.0)],
            None => seq![],
        }) + (match deal {
            Some(d) => seq![self.link_req(object, id, "deals"@, d, labels.1)],
            None => seq![],
        }) + (match company {
            Some(a) => seq![self.link_req(object, id, "companies"@, a, labels.2)],
            None => seq![],
        })
    }

    fn link_request(&self, kind: &str, id: &str, target: &str, other: &str, label: &str) -> (r:
        Request)
        ensures
            r@ == self.link_req(kind@, id@, target@, other@, label@),
    {
        let mut path = join5("crm/v3/objects/", kind, "/", id, "/associations/");
        path.append(target);
        path.append("/");
        path.append(other);
        path.append("/");
        path.append(label);
        proof {
            assert(path@ =~= "crm/v3/objects/"@ + kind@ + "/"@ + id@ + "/associations/"@ + target@
                + "/"@ + other@ + "/"@ + label@);
        }
        let body = object(no_entries());
        proof {
            let e = match body@ {
                JsonV::Object(e) => e,
                _ => seq![],
            };
            assert(e =~= Seq::<(Seq<char>, JsonV)>::empty());
            assert(body@ == JsonV::Object(seq![]));
        }
        self.request(Method::Post, path, Some(body))
    }

    /// After the creation reply and `k` association replies: the next
    /// association, or the record once all are made.
    fn link_step<T: DeepView>(
        &self,
        object: &str,
        id: &str,
        contact: Option<&str>,
        deal: Option<&str>,
        company: Option<&str>,
        labels: (&str, &str, &str),
        k: usize,
        done: T,
    ) -> (r: Step<T>)
        ensures
            ({
                let ls = self.links(
                    object@,
                    id@,
                    opt_str_view(contact),
                    opt_str_view(deal),
                    opt_str_view(company),
                    (labels.0@, labels.1@, labels.2@),
                );
                r@ == if k < ls.len() {
                    StepV::Send(ls[k as int])
                } else {
                    StepV::Done(Ok(done.deep_view()))
                }
            }),
    {
        let ghost ls = self.links(
            object@,
            id@,
            opt_str_view(contact),
            opt_str_view(deal),
            opt_str_view(company),
            (labels.0@, labels.1@, labels.2@),
        );
        let mut targets: Vec<(&str, &str, &str)> = Vec::new();
        match contact {
            Some(c) => targets.push(("contacts", c, labels.0)),
            None => {},
        }
        match deal {
            Some(d) => targets.push(("deals", d, labels.1)),
            None => {},
        }
        match company {
            Some(a) => targets.push(("companies", a, labels.2)),
            None => {},
        }
        proof {
            assert(targets.len() == ls.len());
            assert forall|i: int| 0 <= i < targets.len() implies self.link_req(
                object@,
                id@,
                (#[trigger] targets@[i]).0@,
                targets@[i].1@,
                targets@[i].2@,
            ) == ls[i] by {}
        }
        if k < targets.len() {
            let (t, o, l) = targets[k];
            proof {
                assert(targets@[k as int] == (t, o, l));
            }
            Step::Send(self.link_request(object, id, t, o, l))
        } else {
            Step::Done(Ok(done))
        }
    }

    /// The activity a created task stands for.
    pub open spec fn task_v(
        j: JsonV,
        activity_type: Seq<char>,
        subject: Seq<char>,
        body: Option<Seq<char>>,
        contact: Option<Seq<char>>,
        deal: Option<Seq<char>>,
    ) -> ActivityV {
        ActivityV {
            id: str_or_empty(jfield(j, "id"@)),
            activity_type,
            subject: Some(subject),
            body,
            contact_id: contact,
            deal_id: deal,
            done: false,
            due_date: None,
            backend: "hubspot"@,
        }
    }

    /// Logs an activity as a task, then associates it with the contact and the
    /// deal; a failed association is reported as the failure of the whole.
    pub fn create_activity(
        &self,
        activity_type: &str,
        subject: &str,
        body: Option<&str>,
        contact_id: Option<&str>,
        deal_id: Option<&str>,
        replies: &Vec<Reply>,
    ) -> (r: Step<Activity>)
        ensures
            replies.len() == 0 ==> r@ == StepV::<ActivityV>::Send(
                self.req(
                    Method::Post,
                    "crm/v3/objects/tasks"@,
                    Some(
                        props_body(
                            seq![
                                ("hs_activity_type"@, JsonV::Str(activity_type@)),
                                ("hs_task_subject"@, JsonV::Str(subject@)),
                            ] + opt_text_entry("hs_task_body"@, opt_str_view(body)),
                        ),
                    ),
                ),
            ),
            replies.len() > 0 ==> r@ == match rv(replies@[0]) {
                Err(e) => StepV::Done(Err(e)),
                Ok(j) => match link_failure(replies@) {
                    Some(e) => StepV::Done(Err(e)),
                    None => {
                    let ls = self.links(
                        "tasks"@,
                        str_or_empty(jfield(j, "id"@)),
                        opt_str_view(contact_id),
                        opt_str_view(deal_id),
                        None,
                        ("task_to_contact"@, "task_to_deal"@, "task_to_company"@),
                    );
                    if replies.len() - 1 < ls.len() {
                        StepV::Send(ls[replies.len() - 1])
                    } else {
                        StepV::Done(
                            Ok(
                                Self::task_v(
                                    j,
                                    activity_type@,
                                    subject@,
                                    opt_str_view(body),
                                    opt_str_view(contact_id),
                                    opt_str_view(deal_id),
                                ),
                            ),
                        )
                    }
                    },
                },
            },
    {
        if replies.len() == 0 {
            let mut es = no_entries();
            push_entry(&mut es, "hs_activity_type", jtext(activity_type));
            push_entry(&mut es, "hs_task_subject", jtext(subject));
            push_opt_text(&mut es, "hs_task_body", body);
            proof {
                assert(entries_view(es@) =~= seq![
                    ("hs_activity_type"@, JsonV::Str(activity_type@)),
                    ("hs_task_subject"@, JsonV::Str(subject@)),
                ] + opt_text_entry("hs_task_body"@, opt_str_view(body)));
            }
            let b = object1("properties", object(es));
            return Step::Send(self.request(Method::Post, owned("crm/v3/objects/tasks"), Some(b)));
        }
        match &replies[0] {
            Err(e) => fail(e),
            Ok(j) => {
                let id = text_or_empty(field(Some(j), "id"));
                let done = Activity {
                    id: id.clone(),
                    activity_type: owned(activity_type),
                    subject: Some(owned(subject)),
                    body: owned_opt(body),
                    contact_id: owned_opt(contact_id),
                    deal_id: owned_opt(deal_id),
                    done: false,
                    due_date: None,
                    backend: owned("hubspot"),
                };
                if replies.len() > 1 {
                    match &replies[replies.len() - 1] {
                        Err(e) => {
                            return fail(e);
                        },
                        Ok(_) => {},
                    }
                }
                self.link_step(
                    "tasks",
                    id.as_str(),
                    contact_id,
                    deal_id,
                    None,
                    ("task_to_contact", "task_to_deal", "task_to_company"),
                    replies.len() - 1,
                    done,
                )
            },
        }
    }

    // ---- pipelines ----
    fn stages_of(a: Option<&Json>) -> (r: Vec<PipelineStage>)
        ensures
            r.deep_view() == stages_v(ov_json(a)),
    {
        let mut out: Vec<PipelineStage> = Vec::new();
        match array_of(a) {
            Some(items) => {
                let ghost s = items_view(items@);
                let mut i: usize = 0;
                while i < items.len()
                    invariant
                        s == items_view(items@),
                        i <= items.len(),
                        out.deep_view() =~= Seq::new(i as nat, |k: int| stage_v(s[k], k)),
                    decreases items.len() - i,
                {
                    let st = &items[i];
                    let stage = PipelineStage {
                        id: text_or_empty(field(Some(st), "id")),
                        name: text_or_empty(field(Some(st), "label")),
                        order: #[verifier::truncate] (i as u32),
                        deal_count: None,
                        total_value: None,
                    };
                    proof {
                        assert(stage@ == stage_v(s[i as int], i as int));
                    }
                    let ghost prev = out.deep_view();
                    out.push(stage);
                    proof {
                        assert(out.deep_view() =~= prev.push(stage@));
                    }
                    i = i + 1;
                    proof {
                        assert(out.deep_view() =~= Seq::new(i as nat, |k: int| stage_v(s[k], k)));
                    }
                }
                out
            },
            None => {
                proof {
                    assert(out.deep_view() =~= Seq::<PipelineStageV>::empty());
                }
                out
            },
        }
    }

    fn pipeline_of(u: &(), p: &Json) -> (r: Pipeline)
        ensures
            r@ == pipeline_v(p@),
    {
        Pipeline {
            id: text_or_empty(field(Some(p), "id")),
            name: text_or_empty(field(Some(p), "label")),
            stages: Self::stages_of(field(Some(p), "stages")),
            backend: owned("hubspot"),
        }
    }

    /// Lists the deal pipelines with their stages, numbered by position.
    pub fn list_pipelines(&self, replies: &Vec<Reply>) -> (r: Step<Vec<Pipeline>>)
        ensures
            replies.len() == 0 ==> r@ == StepV::<Seq<PipelineV>>::Send(
                self.req(Method::Get, "crm/v3/pipelines/deals"@, None),
            ),
            replies.len() > 0 ==> r@ == finish(rv(replies@[0]), |j: JsonV| pipelines_v(j)),
    {
        if replies.len() == 0 {
            return Step::Send(self.request(Method::Get, owned("crm/v3/pipelines/deals"), None));
        }
        match &replies[0] {
            Err(e) => fail(e),
            Ok(j) => Step::Done(
                Ok(
                    map_items(
                        &(),
                        array_of(field(Some(j), "results")),
                        Self::pipeline_of,
                        Ghost(|u: (), p: JsonV| pipeline_v(p)),
                    ),
                ),
            ),
        }
    }

    /// The pipeline summary is the pipeline list; the pipeline id is not used.
    pub fn get_pipeline_summary(&self, pipeline_id: Option<&str>, replies: &Vec<Reply>) -> (r: Step<
        Vec<Pipeline>,
    >)
        ensures
            replies.len() == 0 ==> r@ == StepV::<Seq<PipelineV>>::Send(
                self.req(Method::Get, "crm/v3/pipelines/deals"@, None),
            ),
            replies.len() > 0 ==> r@ == finish(rv(replies@[0]), |j: JsonV| pipelines_v(j)),
    {
        self.list_pipelines(replies)
    }

    // ---- notes ----
    fn note_of(ctx: &(Option<String>, Option<String>), n: &Json) -> (r: Note)
        ensures
            r@ == note_v(n@, opt_string_view(ctx.0), opt_string_view(ctx.1)),
    {
        Note {
            id: text_or_empty(field(Some(n), "id")),
            content: match Self::prop(n, "hs_note_body") {
                Some(t) => t,
                None => String::new(),
            },
            contact_id: copy_opt(&ctx.0),
            company_id: None,
            deal_id: copy_opt(&ctx.1),
            created_at: Self::prop(n, "hs_createdate"),
            backend: owned("hubspot"),
        }
    }

    /// The filter on notes associated with a record of the given kind.
    pub open spec fn assoc_filter(kind: Seq<char>, id: Seq<char>) -> JsonV {
        JsonV::Object(
            seq![
                ("propertyName"@, JsonV::Str("associations."@ + kind)),
                ("operator"@, JsonV::Str("EQ"@)),
                ("value"@, JsonV::Str(id)),
            ],
        )
    }

    /// The filters on the given contact and deal (both must hold).
    pub open spec fn note_filters(contact: Option<Seq<char>>, deal: Option<Seq<char>>) -> Seq<
        JsonV,
    > {
        (match contact {
            Some(c) => seq![Self::assoc_filter("contact"@, c)],
            None => seq![],
        }) + (match deal {
            Some(d) => seq![Self::assoc_filter("deal"@, d)],
            None => seq![],
        })
    }

    /// The body of a search for the notes that pass the filters.
    pub open spec fn notes_search_body(filters: Seq<JsonV>, limit: u32) -> JsonV {
        JsonV::Object(
            seq![
                (
                    "filterGroups"@,
                    JsonV::Array(seq![JsonV::Object(seq![("filters"@, JsonV::Array(filters))])]),
                ),
                (
                    "properties"@,
                    JsonV::Array(seq![JsonV::Str("hs_note_body"@), JsonV::Str("hs_createdate"@)]),
                ),
                ("limit"@, JsonV::Number(dec(limit as nat))),
            ],
        )
    }

    fn assoc_filter_of(kind: &str, id: &str) -> (r: Json)
        ensures
            r@ == Self::assoc_filter(kind@, id@),
    {
        let mut es = no_entries();
        push_entry(&mut es, "propertyName", Json::Str(join2("associations.", kind)));
        push_entry(&mut es, "operator", jtext("EQ"));
        push_entry(&mut es, "value", jtext(id));
        proof {
            assert(entries_view(es@) =~= seq![
                ("propertyName"@, JsonV::Str("associations."@ + kind@)),
                ("operator"@, JsonV::Str("EQ"@)),
                ("value"@, JsonV::Str(id@)),
            ]);
        }
        object(es)
    }

    /// Lists the notes associated with the given contact and deal (a search
    /// on the associations); with neither, lists all notes. The contact and
    /// deal given are copied onto each note.
    pub fn list_notes(
        &self,
        contact_id: Option<&str>,
        deal_id: Option<&str>,
        limit: u32,
        replies: &Vec<Reply>,
    ) -> (r: Step<Vec<Note>>)
        ensures
            replies.len() == 0 && contact_id is None && deal_id is None ==> r@ == StepV::<
                Seq<NoteV>,
            >::Send(
                self.req(
                    Method::Get,
                    "crm/v3/objects/notes?limit="@ + dec(limit as nat)
                        + "&properties=hs_note_body,hs_createdate"@,
                    None,
                ),
            ),
            replies.len() == 0 && !(contact_id is None && deal_id is None) ==> r@ == StepV::<
                Seq<NoteV>,
            >::Send(
                self.req(
                    Method::Post,
                    "crm/v3/objects/notes/search"@,
                    Some(
                        Self::notes_search_body(
                            Self::note_filters(opt_str_view(contact_id), opt_str_view(deal_id)),
                            limit,
                        ),
                    ),
                ),
            ),
            replies.len() > 0 ==> r@ == finish(
                rv(replies@[0]),
                |j: JsonV| notes_v(j, opt_str_view(contact_id), opt_str_view(deal_id)),
            ),
    {
        if replies.len() == 0 {
            if contact_id.is_none() && deal_id.is_none() {
                return Step::Send(
                    self.request(
                        Method::Get,
                        join_num(
                            "crm/v3/objects/notes?limit=",
                            limit as u64,
                            "&properties=hs_note_body,hs_createdate",
                        ),
                        None,
                    ),
                );
            }
            let mut filters: Vec<Json> = Vec::new();
            match contact_id {
                Some(c) => filters.push(Self::assoc_filter_of("contact", c)),
                None => {},
            }
            match deal_id {
                Some(d) => filters.push(Self::assoc_filter_of("deal", d)),
                None => {},
            }
            proof {
                assert(items_view(filters@) =~= Self::note_filters(
                    opt_str_view(contact_id),
                    opt_str_view(deal_id),
                ));
            }
            let mut fe = no_entries();
            push_entry(&mut fe, "filters", array(filters));
            let mut props: Vec<Json> = Vec::new();
            props.push(jtext("hs_note_body"));
            props.push(jtext("hs_createdate"));
            proof {
                assert(items_view(props@) =~= seq![
                    JsonV::Str("hs_note_body"@),
                    JsonV::Str("hs_createdate"@),
                ]);
            }
            let mut es = no_entries();
            push_entry(&mut es, "filterGroups", array1(object(fe)));
            push_entry(&mut es, "properties", array(props));
            push_entry(&mut es, "limit", jnumber(limit as u64));
            proof {
                assert(entries_view(es@) =~= match Self::notes_search_body(
                    Self::note_filters(opt_str_view(contact_id), opt_str_view(deal_id)),
                    limit,
                ) {
                    JsonV::Object(e) => e,
                    _ => seq![],
                });
            }
            return Step::Send(
                self.request(Method::Post, owned("crm/v3/objects/notes/search"), Some(object(es))),
            );
        }
        let ctx = (owned_opt(contact_id), owned_opt(deal_id));
        match &replies[0] {
            Err(e) => fail(e),
            Ok(j) => {
                let v = map_items(
                    &ctx,
                    array_of(field(Some(j), "results")),
                    Self::note_of,
                    Ghost(
                        |cd: (Option<String>, Option<String>), n: JsonV|
                            note_v(n, opt_string_view(cd.0), opt_string_view(cd.1)),
                    ),
                );
                proof {
                    assert(v.deep_view() =~= notes_v(
                        j@,
                        opt_str_view(contact_id),
                        opt_str_view(deal_id),
                    ));
                }
                Step::Done(Ok(v))
            },
        }
    }

    /// Adds a note, then associates it with the contact, the deal and the
    /// company; a failed association is reported as the failure of the whole.
    pub fn create_note(
        &self,
        content: &str,
        contact_id: Option<&str>,
        company_id: Option<&str>,
        deal_id: Option<&str>,
        replies: &Vec<Reply>,
    ) -> (r: Step<Note>)
        ensures
            replies.len() == 0 ==> r@ == StepV::<NoteV>::Send(
                self.req(
                    Method::Post,
                    "crm/v3/objects/notes"@,
                    Some(props_body(seq![("hs_note_body"@, JsonV::Str(content@))])),
                ),
            ),
            replies.len() > 0 ==> r@ == match rv(replies@[0]) {
                Err(e) => StepV::Done(Err(e)),
                Ok(j) => match link_failure(replies@) {
                    Some(e) => StepV::Done(Err(e)),
                    None => {
                    let ls = self.links(
                        "notes"@,
                        str_or_empty(jfield(j, "id"@)),
                        opt_str_view(contact_id),
                        opt_str_view(deal_id),
                        opt_str_view(company_id),
                        ("note_to_contact"@, "note_to_deal"@, "note_to_company"@),
                    );
                    if replies.len() - 1 < ls.len() {
                        StepV::Send(ls[replies.len() - 1])
                    } else {
                        StepV::Done(
                            Ok(
                                NoteV {
                                    id: str_or_empty(jfield(j, "id"@)),
                                    content: content@,
                                    contact_id: opt_str_view(contact_id),
                                    company_id: opt_str_view(company_id),
                                    deal_id: opt_str_view(deal_id),
                                    created_at: None,
                                    backend: "hubspot"@,
                                },
                            ),
                        )
                    }
                    },
                },
            },
    {
        if replies.len() == 0 {
            let b = object1("properties", object1("hs_note_body", jtext(content)));
            return Step::Send(self.request(Method::Post, owned("crm/v3/objects/notes"), Some(b)));
        }
        match &replies[0] {
            Err(e) => fail(e),
            Ok(j) => {
                let id = text_or_empty(field(Some(j), "id"));
                let done = Note {
                    id: id.clone(),
                    content: owned(content),
                    contact_id: owned_opt(contact_id),
                    company_id: owned_opt(company_id),
                    deal_id: owned_opt(deal_id),
                    created_at: None,
                    backend: owned("hubspot"),
                };
                if replies.len() > 1 {
                    match &replies[replies.len() - 1] {
                        Err(e) => {
                            return fail(e);
                        },
                        Ok(_) => {},
                    }
                }
                self.link_step(
                    "notes",
                    id.as_str(),
                    contact_id,
                    deal_id,
                    company_id,
                    ("note_to_contact", "note_to_deal", "note_to_company"),
                    replies.len() - 1,
                    done,
                )
            },
        }
    }
}

/// Every record built from a HubSpot reply is tagged `hubspot`, the name of
/// the backend, whatever the reply holds.
pub proof fn hubspot_records_are_tagged(
    j: JsonV,
    flag: bool,
    contact: Option<Seq<char>>,
    deal: Option<Seq<char>>,
    activity_type: Seq<char>,
    subject: Seq<char>,
    body: Option<Seq<char>>,
)
    ensures
        contact_v(j, flag).backend == "hubspot"@,
        company_v(j).backend == "hubspot"@,
        deal_v(j, flag).backend == "hubspot"@,
        engagement_v(j, contact, deal).backend == "hubspot"@,
        HubSpotBackend::task_v(j, activity_type, subject, body, contact, deal).backend
            == "hubspot"@,
        pipeline_v(j).backend == "hubspot"@,
        note_v(j, contact, deal).backend == "hubspot"@,
        forall|i: int| 0 <= i < contacts_v(j, flag).len() ==> (#[trigger] contacts_v(j, flag)[i]).backend == "hubspot"@,
        forall|i: int| 0 <= i < companies_v(j).len() ==> (#[trigger] companies_v(j)[i]).backend == "hubspot"@,
        forall|i: int| 0 <= i < deals_v(j).len() ==> (#[trigger] deals_v(j)[i]).backend == "hubspot"@,
        forall|i: int| 0 <= i < pipelines_v(j).len() ==> (#[trigger] pipelines_v(j)[i]).backend == "hubspot"@,
        forall|i: int| 0 <= i < notes_v(j, contact, deal).len() ==> (#[trigger] notes_v(j, contact, deal)[i]).backend == "hubspot"@,
{
}

/// The token travels only in the `Authorization` header: backends with
/// different tokens send the same URL and body.
pub proof fn hubspot_token_only_in_header(
    a: HubSpotBackend,
    b: HubSpotBackend,
    method: Method,
    path: Seq<char>,
    body: Option<JsonV>,
)
    ensures
        a.req(method, path, body).url == b.req(method, path, body).url,
        a.req(method, path, body).body == b.req(method, path, body).body,
        a.req(method, path, body).auth == AuthV::Bearer(a.token@),
{
}

/// A contact update reads back the contact it wrote: the read-back request
/// goes to the URL of the update, with the property list after it.
pub proof fn hubspot_update_reads_back_the_same_contact(
    b: HubSpotBackend,
    id: Seq<char>,
    body: Option<JsonV>,
)
    ensures
        b.req(Method::Get, HubSpotBackend::contact_path(id), None).url == b.req(
            Method::Patch,
            "crm/v3/objects/contacts/"@ + id,
            body,
        ).url + "?properties=firstname,lastname,email,phone,company,jobtitle"@,
{
    assert(b.req(Method::Get, HubSpotBackend::contact_path(id), None).url =~= b.req(
        Method::Patch,
        "crm/v3/objects/contacts/"@ + id,
        body,
    ).url + "?properties=firstname,lastname,email,phone,company,jobtitle"@);
}

/// The property `k` of a contact as the server returns it holds the text `v`.
pub open spec fn holds_prop(j: JsonV, k: Seq<char>, v: Option<Seq<char>>) -> bool {
    match v {
        Some(t) => t.len() > 0 && jfield(jfield(j, "properties"@), k) == JsonV::Str(t),
        None => true,
    }
}

/// A contact update round-trips what it wrote: the update sends exactly the
/// given fields, and when the contact read back holds each value sent, the
/// returned record carries each of them. (Whether the server stores them is
/// the service's part.)
pub proof fn hubspot_update_contact_round_trip(
    j: JsonV,
    first: Option<Seq<char>>,
    last: Option<Seq<char>>,
    email: Option<Seq<char>>,
    phone: Option<Seq<char>>,
)
    requires
        holds_prop(j, "firstname"@, first),
        holds_prop(j, "lastname"@, last),
        holds_prop(j, "email"@, email),
        holds_prop(j, "phone"@, phone),
    ensures
        first is Some ==> contact_v(j, true).first_name == first,
        last is Some ==> contact_v(j, true).last_name == last,
        email is Some ==> contact_v(j, true).email == email,
        phone is Some ==> contact_v(j, true).phone == phone,
        contact_v(j, true).company_name == hs_prop(j, "company"@),
        contact_v(j, true).title == hs_prop(j, "jobtitle"@),
{
}

/// Each listed stage is the stage object at its place: its id is the
/// object's `id` (the value a deal's `dealstage` takes), its name the
/// object's `label`, and its order its position. A pipeline listing gives each
/// pipeline's stages so.
pub proof fn hubspot_stage_fields(a: JsonV, j: JsonV)
    ensures
        stages_v(a).len() == (match jarray(a) {
            Some(s) => s.len(),
            None => 0,
        }),
        forall|i: int|
            0 <= i < stages_v(a).len() ==> {
                &&& (#[trigger] stages_v(a)[i]).id == str_or_empty(jfield(jarray(a)->0[i], "id"@))
                &&& stages_v(a)[i].name == str_or_empty(jfield(jarray(a)->0[i], "label"@))
                &&& stages_v(a)[i].order == i as u32
            },
        forall|k: int|
            0 <= k < pipelines_v(j).len() ==> (#[trigger] pipelines_v(j)[k]).stages == stages_v(
                jfield(jarray(jfield(j, "results"@))->0[k], "stages"@),
            ) && pipelines_v(j)[k].id == str_or_empty(jfield(jarray(jfield(j, "results"@))->0[k], "id"@)),
{
}

/// A HubSpot object becomes a record field by field, each from the property
/// of the same meaning (empty texts read as absent): a contact's first and last
/// name from `firstname`/`lastname`, e-mail from `email`, phone from `phone`,
/// company name from `company`, title from `jobtitle`; a company's name, domain,
/// industry, phone, city and country from `name`, `domain`, `industry`,
/// `phone`, `city`, `country`; a deal's name, stage, pipeline, amount, close
/// date and probability from `dealname`, `dealstage`, `pipeline`, `amount`,
/// `closedate`, `hs_deal_stage_probability`; a note's content and creation
/// time from `hs_note_body` and `hs_createdate`. Ids come from `id`.
pub proof fn hubspot_record_fields(v: JsonV, contact: Option<Seq<char>>, deal: Option<Seq<char>>)
    ensures
        contact_v(v, true).id == str_or_empty(jfield(v, "id"@)),
        contact_v(v, true).first_name == nonempty(jfield(jfield(v, "properties"@), "firstname"@)),
        contact_v(v, true).last_name == nonempty(jfield(jfield(v, "properties"@), "lastname"@)),
        contact_v(v, true).email == nonempty(jfield(jfield(v, "properties"@), "email"@)),
        contact_v(v, true).phone == nonempty(jfield(jfield(v, "properties"@), "phone"@)),
        contact_v(v, true).company_name == nonempty(jfield(jfield(v, "properties"@), "company"@)),
        contact_v(v, true).title == nonempty(jfield(jfield(v, "properties"@), "jobtitle"@)),
        company_v(v).id == str_or_empty(jfield(v, "id"@)),
        company_v(v).name == str_or_empty_nonempty(jfield(jfield(v, "properties"@), "name"@)),
        company_v(v).domain == nonempty(jfield(jfield(v, "properties"@), "domain"@)),
        company_v(v).industry == nonempty(jfield(jfield(v, "properties"@), "industry"@)),
        company_v(v).phone == nonempty(jfield(jfield(v, "properties"@), "phone"@)),
        company_v(v).city == nonempty(jfield(jfield(v, "properties"@), "city"@)),
        company_v(v).country == nonempty(jfield(jfield(v, "properties"@), "country"@)),
        deal_v(v, true).id == str_or_empty(jfield(v, "id"@)),
        deal_v(v, true).name == str_or_empty_nonempty(jfield(jfield(v, "properties"@), "dealname"@)),
        deal_v(v, true).stage == nonempty(jfield(jfield(v, "properties"@), "dealstage"@)),
        deal_v(v, true).pipeline == nonempty(jfield(jfield(v, "properties"@), "pipeline"@)),
        deal_v(v, true).amount == nonempty(jfield(jfield(v, "properties"@), "amount"@)),
        deal_v(v, true).close_date == nonempty(jfield(jfield(v, "properties"@), "closedate"@)),
        deal_v(v, true).probability == nonempty(jfield(jfield(v, "properties"@), "hs_deal_stage_probability"@)),
        note_v(v, contact, deal).id == str_or_empty(jfield(v, "id"@)),
        note_v(v, contact, deal).content == str_or_empty_nonempty(jfield(jfield(v, "properties"@), "hs_note_body"@)),
        note_v(v, contact, deal).created_at == nonempty(jfield(jfield(v, "properties"@), "hs_createdate"@)),
        note_v(v, contact, deal).contact_id == contact,
        note_v(v, contact, deal).deal_id == deal,
        engagement_v(v, contact, deal).id == str_or_empty(jfield(v, "id"@)),
        engagement_v(v, contact, deal).contact_id == contact,
        engagement_v(v, contact, deal).deal_id == deal,
        engagement_v(v, contact, deal).activity_type == "engagement"@,
{
}

/// A text, or empty when absent.
pub open spec fn str_or_empty_nonempty(v: JsonV) -> Seq<char> {
    match nonempty(v) {
        Some(t) => t,
        None => Seq::empty(),
    }
}

} // verus!
