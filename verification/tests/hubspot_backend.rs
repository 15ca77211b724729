use mcp_crm::http::{Auth, HttpError, Method, Reply, Request, Step};
use mcp_crm::hubspot::HubSpotBackend;
use mcp_crm::json::Json;
use mcp_crm::types::{Activity, Amount, Contact, Deal, Note};

fn s(x: &str) -> Json {
    Json::Str(x.to_string())
}

fn obj(kv: Vec<(&str, Json)>) -> Json {
    Json::Object(kv.into_iter().map(|(k, v)| (k.to_string(), v)).collect())
}

fn backend() -> HubSpotBackend {
    HubSpotBackend::new("pat-token".to_string())
}

fn req(method: Method, path: &str, body: Option<Json>) -> Request {
    Request {
        method,
        url: format!("https://api.hubapi.com/{path}"),
        auth: Auth::Bearer("pat-token".to_string()),
        body,
        reads_body: true,
    }
}

fn err(m: &str) -> Reply {
    Err(HttpError { message: m.to_string() })
}

fn contact_json() -> Json {
    obj(vec![
        ("id", s("101")),
        (
            "properties",
            obj(vec![
                ("firstname", s("Sarah")),
                ("lastname", s("")),
                ("email", s("sarah@acme.com")),
                ("company", s("Acme")),
                ("jobtitle", s("CTO")),
            ]),
        ),
    ])
}

#[test]
fn hubspot_name_is_hubspot() {
    assert_eq!(backend().name(), "hubspot");
}

#[test]
fn hubspot_list_contacts_request() {
    let step = backend().list_contacts(10, &vec![]);
    assert_eq!(
        step,
        Step::Send(req(
            Method::Get,
            "crm/v3/objects/contacts?limit=10&properties=firstname,lastname,email,phone,company,jobtitle",
            None
        ))
    );
}

#[test]
fn hubspot_list_contacts_maps_results() {
    let reply = obj(vec![("results", Json::Array(vec![contact_json()]))]);
    let step = backend().list_contacts(10, &vec![Ok(reply)]);
    let expected = Contact {
        id: "101".to_string(),
        first_name: Some("Sarah".to_string()),
        last_name: None,
        email: Some("sarah@acme.com".to_string()),
        phone: None,
        company_id: None,
        company_name: Some("Acme".to_string()),
        title: Some("CTO".to_string()),
        backend: "hubspot".to_string(),
    };
    assert_eq!(step, Step::Done(Ok(vec![expected])));
}

#[test]
fn hubspot_list_contacts_without_results_is_empty() {
    let step = backend().list_contacts(10, &vec![Ok(obj(vec![]))]);
    assert_eq!(step, Step::Done(Ok(vec![])));
}

#[test]
fn hubspot_list_contacts_passes_the_error_on() {
    let step = backend().list_contacts(10, &vec![err("HTTP status client error (401 Unauthorized)")]);
    assert_eq!(
        step,
        Step::Done(Err(HttpError { message: "HTTP status client error (401 Unauthorized)".to_string() }))
    );
}

#[test]
fn hubspot_search_contacts_body_and_mapping() {
    let b = backend();
    let step = b.search_contacts("acme", 5, &vec![]);
    let body = obj(vec![
        ("query", s("acme")),
        ("limit", Json::Number("5".to_string())),
        ("properties", Json::Array(vec![s("firstname"), s("lastname"), s("email"), s("phone")])),
    ]);
    assert_eq!(step, Step::Send(req(Method::Post, "crm/v3/objects/contacts/search", Some(body))));
    let reply = obj(vec![("results", Json::Array(vec![contact_json()]))]);
    match b.search_contacts("acme", 5, &vec![Ok(reply)]) {
        Step::Done(Ok(cs)) => {
            assert_eq!(cs.len(), 1);
            assert_eq!(cs[0].company_name, None);
            assert_eq!(cs[0].title, None);
            assert_eq!(cs[0].email, Some("sarah@acme.com".to_string()));
        }
        other => panic!("unexpected {other:?}"),
    }
}

#[test]
fn hubspot_create_contact_builds_the_record() {
    let b = backend();
    let step = b.create_contact("Sarah", "Chen", Some("sarah@acme.com"), None, Some("9"), &vec![]);
    let body = obj(vec![(
        "properties",
        obj(vec![("firstname", s("Sarah")), ("lastname", s("Chen")), ("email", s("sarah@acme.com"))]),
    )]);
    assert_eq!(step, Step::Send(req(Method::Post, "crm/v3/objects/contacts", Some(body))));
    let step = b.create_contact(
        "Sarah",
        "Chen",
        Some("sarah@acme.com"),
        None,
        Some("9"),
        &vec![Ok(obj(vec![("id", s("555"))]))],
    );
    let expected = Contact {
        id: "555".to_string(),
        first_name: Some("Sarah".to_string()),
        last_name: Some("Chen".to_string()),
        email: Some("sarah@acme.com".to_string()),
        phone: None,
        company_id: None,
        company_name: None,
        title: None,
        backend: "hubspot".to_string(),
    };
    assert_eq!(step, Step::Done(Ok(expected)));
}

#[test]
fn hubspot_update_contact_patches_then_reads_back() {
    let b = backend();
    let step = b.update_contact("101", None, None, Some("new@acme.com"), None, &vec![]);
    let body = obj(vec![("properties", obj(vec![("email", s("new@acme.com"))]))]);
    assert_eq!(step, Step::Send(req(Method::Patch, "crm/v3/objects/contacts/101", Some(body))));
    let step = b.update_contact("101", None, None, Some("new@acme.com"), None, &vec![Ok(obj(vec![]))]);
    assert_eq!(
        step,
        Step::Send(req(
            Method::Get,
            "crm/v3/objects/contacts/101?properties=firstname,lastname,email,phone,company,jobtitle",
            None
        ))
    );
    let step = b.update_contact(
        "101",
        None,
        None,
        Some("new@acme.com"),
        None,
        &vec![Ok(obj(vec![])), Ok(contact_json())],
    );
    match step {
        Step::Done(Ok(c)) => assert_eq!(c.id, "101"),
        other => panic!("unexpected {other:?}"),
    }
    let step = b.update_contact("101", None, None, None, None, &vec![err("404")]);
    assert_eq!(step, Step::Done(Err(HttpError { message: "404".to_string() })));
}

#[test]
fn hubspot_create_deal_sends_amount_text_and_reads_back() {
    let b = backend();
    let amount = Amount { number: Some("50000.5".to_string()), text: "50000.5".to_string() };
    let step = b.create_deal("Acme", Some(&amount), Some("negotiation"), None, None, &vec![]);
    let body = obj(vec![(
        "properties",
        obj(vec![("dealname", s("Acme")), ("amount", s("50000.5")), ("dealstage", s("negotiation"))]),
    )]);
    assert_eq!(step, Step::Send(req(Method::Post, "crm/v3/objects/deals", Some(body))));
    let created = vec![Ok(obj(vec![("id", s("77"))]))];
    let step = b.create_deal("Acme", Some(&amount), Some("negotiation"), None, None, &created);
    assert_eq!(
        step,
        Step::Send(req(
            Method::Get,
            "crm/v3/objects/deals/77?properties=dealname,dealstage,pipeline,amount,closedate,hs_deal_stage_probability",
            None
        ))
    );
    let deal = obj(vec![
        ("id", s("77")),
        (
            "properties",
            obj(vec![
                ("dealname", s("Acme")),
                ("amount", s("50000.5")),
                ("dealstage", s("negotiation")),
                ("hs_deal_stage_probability", s("0.4")),
            ]),
        ),
    ]);
    let step = b.create_deal(
        "Acme",
        Some(&amount),
        Some("negotiation"),
        None,
        None,
        &vec![Ok(obj(vec![("id", s("77"))])), Ok(deal)],
    );
    let expected = Deal {
        id: "77".to_string(),
        name: "Acme".to_string(),
        stage: Some("negotiation".to_string()),
        pipeline: None,
        amount: Some("50000.5".to_string()),
        currency: None,
        contact_id: None,
        company_id: None,
        close_date: None,
        probability: Some("0.4".to_string()),
        status: None,
        backend: "hubspot".to_string(),
    };
    assert_eq!(step, Step::Done(Ok(expected)));
}

#[test]
fn hubspot_list_deals_keeps_probability() {
    let deal = obj(vec![
        ("id", s("8")),
        ("properties", obj(vec![("dealname", s("Big")), ("hs_deal_stage_probability", s("0.9"))])),
    ]);
    let step = backend().list_deals(3, &vec![Ok(obj(vec![("results", Json::Array(vec![deal]))]))]);
    match step {
        Step::Done(Ok(ds)) => {
            assert_eq!(ds[0].probability, Some("0.9".to_string()));
            assert_eq!(ds[0].name, "Big");
        }
        other => panic!("unexpected {other:?}"),
    }
}

#[test]
fn hubspot_move_deal_stage_patches_the_stage() {
    let step = backend().move_deal_stage("77", "closedwon", &vec![]);
    let body = obj(vec![("properties", obj(vec![("dealstage", s("closedwon"))]))]);
    assert_eq!(step, Step::Send(req(Method::Patch, "crm/v3/objects/deals/77", Some(body))));
}

#[test]
fn hubspot_list_activities_paths_and_failure() {
    let b = backend();
    assert_eq!(
        b.list_activities(Some("c1"), Some("d1"), 4, &vec![]),
        Step::Send(req(Method::Get, "crm/v3/objects/contacts/c1/associations/engagements?limit=4", None))
    );
    assert_eq!(
        b.list_activities(None, Some("d1"), 4, &vec![]),
        Step::Send(req(Method::Get, "crm/v3/objects/deals/d1/associations/engagements?limit=4", None))
    );
    assert_eq!(
        b.list_activities(None, None, 4, &vec![]),
        Step::Send(req(Method::Get, "crm/v3/objects/engagements?limit=4", None))
    );
    assert_eq!(b.list_activities(None, Some("d1"), 4, &vec![err("500")]), Step::Done(Ok(vec![])));
    let reply = obj(vec![("results", Json::Array(vec![obj(vec![("id", s("e9"))])]))]);
    let expected = Activity {
        id: "e9".to_string(),
        activity_type: "engagement".to_string(),
        subject: None,
        body: None,
        contact_id: None,
        deal_id: Some("d1".to_string()),
        done: false,
        due_date: None,
        backend: "hubspot".to_string(),
    };
    assert_eq!(b.list_activities(None, Some("d1"), 4, &vec![Ok(reply)]), Step::Done(Ok(vec![expected])));
}

#[test]
fn hubspot_create_activity_reports_a_failed_link() {
    let b = backend();
    let created: Reply = Ok(obj(vec![("id", s("77"))]));
    assert_eq!(
        b.create_activity("call", "Proposal", None, Some("c1"), None, &vec![copy_reply(&created), err("link refused")]),
        Step::Done(Err(HttpError { message: "link refused".to_string() }))
    );
}

#[test]
fn hubspot_list_notes_searches_the_associations() {
    let b = backend();
    let filter = |kind: &str, id: &str| {
        obj(vec![("propertyName", s(&format!("associations.{kind}"))), ("operator", s("EQ")), ("value", s(id))])
    };
    let body = obj(vec![
        ("filterGroups", Json::Array(vec![obj(vec![("filters", Json::Array(vec![filter("contact", "c1")]))])])),
        ("properties", Json::Array(vec![s("hs_note_body"), s("hs_createdate")])),
        ("limit", Json::Number("20".to_string())),
    ]);
    assert_eq!(
        b.list_notes(Some("c1"), None, 20, &vec![]),
        Step::Send(req(Method::Post, "crm/v3/objects/notes/search", Some(body)))
    );
    assert_eq!(
        b.list_notes(None, None, 20, &vec![]),
        Step::Send(req(Method::Get, "crm/v3/objects/notes?limit=20&properties=hs_note_body,hs_createdate", None))
    );
}

#[test]
fn hubspot_create_activity_links_contact_then_deal() {
    let b = backend();
    let created: Reply = Ok(obj(vec![("id", s("t1"))]));
    let empty = || Json::Object(vec![]);
    let step = b.create_activity("call", "Proposal", None, Some("c1"), Some("d1"), &vec![copy_reply(&created)]);
    assert_eq!(
        step,
        Step::Send(req(
            Method::Post,
            "crm/v3/objects/tasks/t1/associations/contacts/c1/task_to_contact",
            Some(empty())
        ))
    );
    let step = b.create_activity(
        "call",
        "Proposal",
        None,
        Some("c1"),
        Some("d1"),
        &vec![copy_reply(&created), Ok(empty())],
    );
    assert_eq!(
        step,
        Step::Send(req(Method::Post, "crm/v3/objects/tasks/t1/associations/deals/d1/task_to_deal", Some(empty())))
    );
    let step = b.create_activity(
        "call",
        "Proposal",
        None,
        Some("c1"),
        Some("d1"),
        &vec![copy_reply(&created), Ok(empty()), Ok(empty())],
    );
    let expected = Activity {
        id: "t1".to_string(),
        activity_type: "call".to_string(),
        subject: Some("Proposal".to_string()),
        body: None,
        contact_id: Some("c1".to_string()),
        deal_id: Some("d1".to_string()),
        done: false,
        due_date: None,
        backend: "hubspot".to_string(),
    };
    assert_eq!(step, Step::Done(Ok(expected)));
}

fn copy_reply(r: &Reply) -> Reply {
    match r {
        Ok(j) => Ok(copy_json(j)),
        Err(e) => Err(HttpError { message: e.message.clone() }),
    }
}

fn copy_json(j: &Json) -> Json {
    match j {
        Json::Null => Json::Null,
        Json::Bool(b) => Json::Bool(*b),
        Json::Number(t) => Json::Number(t.clone()),
        Json::Str(t) => Json::Str(t.clone()),
        Json::Array(v) => Json::Array(v.iter().map(copy_json).collect()),
        Json::Object(v) => Json::Object(v.iter().map(|(k, x)| (k.clone(), copy_json(x))).collect()),
    }
}

#[test]
fn hubspot_create_note_links_the_company() {
    let b = backend();
    let body = obj(vec![("properties", obj(vec![("hs_note_body", s("Budget approved by CFO"))]))]);
    assert_eq!(
        b.create_note("Budget approved by CFO", None, Some("co"), None, &vec![]),
        Step::Send(req(Method::Post, "crm/v3/objects/notes", Some(body)))
    );
    let created = || -> Reply { Ok(obj(vec![("id", s("n1"))])) };
    assert_eq!(
        b.create_note("Budget approved by CFO", None, Some("co"), None, &vec![created()]),
        Step::Send(req(
            Method::Post,
            "crm/v3/objects/notes/n1/associations/companies/co/note_to_company",
            Some(Json::Object(vec![]))
        ))
    );
    let expected = Note {
        id: "n1".to_string(),
        content: "Budget approved by CFO".to_string(),
        contact_id: None,
        company_id: Some("co".to_string()),
        deal_id: None,
        created_at: None,
        backend: "hubspot".to_string(),
    };
    assert_eq!(
        b.create_note("Budget approved by CFO", None, Some("co"), None, &vec![created(), Ok(Json::Object(vec![]))]),
        Step::Done(Ok(expected))
    );
    let plain = Note { company_id: None, id: "n1".to_string(), content: "x".to_string(), contact_id: None, deal_id: None, created_at: None, backend: "hubspot".to_string() };
    assert_eq!(b.create_note("x", None, None, None, &vec![created()]), Step::Done(Ok(plain)));
}

#[test]
fn hubspot_pipeline_summary_is_the_pipeline_list() {
    let b = backend();
    let reply = || {
        obj(vec![(
            "results",
            Json::Array(vec![obj(vec![
                ("id", s("default")),
                ("label", s("Sales")),
                (
                    "stages",
                    Json::Array(vec![
                        obj(vec![("id", s("a")), ("label", s("Lead"))]),
                        obj(vec![("id", s("b")), ("label", s("Won"))]),
                    ]),
                ),
            ])]),
        )])
    };
    assert_eq!(b.get_pipeline_summary(Some("x"), &vec![]), b.list_pipelines(&vec![]));
    let summary = b.get_pipeline_summary(None, &vec![Ok(reply())]);
    assert_eq!(summary, b.list_pipelines(&vec![Ok(reply())]));
    match summary {
        Step::Done(Ok(ps)) => {
            assert_eq!(ps[0].stages.len(), 2);
            assert_eq!(ps[0].stages[1].order, 1);
            assert_eq!(ps[0].stages[1].name, "Won");
            assert_eq!(ps[0].backend, "hubspot");
        }
        other => panic!("unexpected {other:?}"),
    }
}

#[test]
fn hubspot_list_notes_copies_the_record_ids() {
    let reply = obj(vec![(
        "results",
        Json::Array(vec![obj(vec![
            ("id", s("n2")),
            ("properties", obj(vec![("hs_note_body", s("hello")), ("hs_createdate", s("2024-01-01"))])),
        ])]),
    )]);
    match backend().list_notes(Some("c1"), None, 20, &vec![Ok(reply)]) {
        Step::Done(Ok(ns)) => {
            assert_eq!(ns[0].contact_id, Some("c1".to_string()));
            assert_eq!(ns[0].content, "hello");
            assert_eq!(ns[0].created_at, Some("2024-01-01".to_string()));
        }
        other => panic!("unexpected {other:?}"),
    }
}

#[test]
fn hubspot_token_only_travels_in_the_header() {
    let a = HubSpotBackend::new("first".to_string());
    let b = HubSpotBackend::new("second".to_string());
    match (a.search_contacts("acme", 5, &vec![]), b.search_contacts("acme", 5, &vec![])) {
        (Step::Send(ra), Step::Send(rb)) => {
            assert_eq!(ra.url, rb.url);
            assert_eq!(ra.body, rb.body);
            assert!(!ra.url.contains("first"));
            assert_eq!(ra.auth, Auth::Bearer("first".to_string()));
            assert_eq!(rb.auth, Auth::Bearer("second".to_string()));
        }
        other => panic!("unexpected {other:?}"),
    }
}
