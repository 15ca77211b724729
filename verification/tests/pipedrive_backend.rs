use mcp_crm::http::{Auth, HttpError, Method, Reply, Request, Step};
use mcp_crm::json::Json;
use mcp_crm::pipedrive::PipedriveBackend;
use mcp_crm::types::{Amount, Contact, Note, Pipeline, PipelineStage};

fn s(x: &str) -> Json {
    Json::Str(x.to_string())
}

fn n(x: &str) -> Json {
    Json::Number(x.to_string())
}

fn obj(kv: Vec<(&str, Json)>) -> Json {
    Json::Object(kv.into_iter().map(|(k, v)| (k.to_string(), v)).collect())
}

fn backend() -> PipedriveBackend {
    PipedriveBackend::new("pd-token".to_string())
}

/// A request; the token travels in the `x-api-token` header.
fn simple(method: Method, path: &str, body: Option<Json>) -> Request {
    Request {
        method,
        url: format!("https://api.pipedrive.com/v1/{path}"),
        auth: Auth::Header("x-api-token".to_string(), "pd-token".to_string()),
        body,
        reads_body: true,
    }
}

fn get(path: &str) -> Request {
    simple(Method::Get, path, None)
}

fn err(m: &str) -> Reply {
    Err(HttpError { message: m.to_string() })
}

fn person() -> Json {
    obj(vec![
        ("id", n("42")),
        ("first_name", s("Sarah")),
        ("last_name", s("Chen")),
        ("email", Json::Array(vec![obj(vec![("value", s("sarah@acme.com")), ("primary", Json::Bool(true))])])),
        ("phone", Json::Array(vec![])),
        ("org_id", obj(vec![("value", n("7")), ("name", s("Acme"))])),
    ])
}

#[test]
fn pipedrive_name_is_pipedrive() {
    assert_eq!(backend().name(), "pipedrive");
}

#[test]
fn pipedrive_list_contacts_puts_the_token_after_the_query() {
    assert_eq!(backend().list_contacts(10, &vec![]), Step::Send(get("persons?limit=10")));
}

#[test]
fn pipedrive_list_contacts_maps_persons() {
    let reply = obj(vec![("data", Json::Array(vec![person()]))]);
    let expected = Contact {
        id: "42".to_string(),
        first_name: Some("Sarah".to_string()),
        last_name: Some("Chen".to_string()),
        email: Some("sarah@acme.com".to_string()),
        phone: None,
        company_id: Some("7".to_string()),
        company_name: Some("Acme".to_string()),
        title: None,
        backend: "pipedrive".to_string(),
    };
    assert_eq!(backend().list_contacts(10, &vec![Ok(reply)]), Step::Done(Ok(vec![expected])));
}

#[test]
fn pipedrive_get_contact_keeps_the_requested_id() {
    let b = backend();
    assert_eq!(b.get_contact("42", &vec![]), Step::Send(simple(Method::Get, "persons/42", None)));
    match b.get_contact("42", &vec![Ok(obj(vec![("data", person())]))]) {
        Step::Done(Ok(c)) => {
            assert_eq!(c.id, "42");
            assert_eq!(c.company_id, Some("7".to_string()));
        }
        other => panic!("unexpected {other:?}"),
    }
}

#[test]
fn pipedrive_create_contact_body_parses_the_org_id() {
    let b = backend();
    let body = obj(vec![
        ("first_name", s("Sarah")),
        ("last_name", s("Chen")),
        ("name", s("Sarah Chen")),
        ("email", Json::Array(vec![obj(vec![("value", s("sarah@acme.com")), ("primary", Json::Bool(true))])])),
        ("org_id", n("0")),
    ]);
    assert_eq!(
        b.create_contact("Sarah", "Chen", Some("sarah@acme.com"), None, Some("acme-id"), &vec![]),
        Step::Send(simple(Method::Post, "persons", Some(body)))
    );
    let created = obj(vec![("data", obj(vec![("id", n("43"))]))]);
    assert_eq!(
        b.create_contact("Sarah", "Chen", None, None, Some("12"), &vec![Ok(created)]),
        Step::Send(simple(Method::Get, "persons/43", None))
    );
}

#[test]
fn pipedrive_create_contact_with_numeric_org() {
    let body = obj(vec![
        ("first_name", s("A")),
        ("last_name", s("B")),
        ("name", s("A B")),
        ("org_id", n("-12")),
    ]);
    assert_eq!(
        backend().create_contact("A", "B", None, None, Some("-12"), &vec![]),
        Step::Send(simple(Method::Post, "persons", Some(body)))
    );
}

#[test]
fn pipedrive_update_contact_puts_then_reads_back() {
    let b = backend();
    let body = obj(vec![("last_name", s("Lee"))]);
    assert_eq!(
        b.update_contact("42", None, Some("Lee"), None, None, &vec![]),
        Step::Send(simple(Method::Put, "persons/42", Some(body)))
    );
    assert_eq!(
        b.update_contact("42", None, Some("Lee"), None, None, &vec![Ok(obj(vec![]))]),
        Step::Send(simple(Method::Get, "persons/42", None))
    );
    assert_eq!(
        b.update_contact("42", None, Some("Lee"), None, None, &vec![err("422")]),
        Step::Done(Err(HttpError { message: "422".to_string() }))
    );
}

#[test]
fn pipedrive_search_contacts_maps_hits() {
    let b = backend();
    assert_eq!(b.search_contacts("acme", 5, &vec![]), Step::Send(get("persons/search?term=acme&limit=5")));
    let hit = obj(vec![(
        "item",
        obj(vec![
            ("id", n("9")),
            ("primary_email", s("x@acme.com")),
            ("organization", obj(vec![("name", s("Acme"))])),
        ]),
    )]);
    let reply = obj(vec![("data", obj(vec![("items", Json::Array(vec![hit]))]))]);
    let expected = Contact {
        id: "9".to_string(),
        first_name: None,
        last_name: None,
        email: Some("x@acme.com".to_string()),
        phone: None,
        company_id: None,
        company_name: Some("Acme".to_string()),
        title: None,
        backend: "pipedrive".to_string(),
    };
    assert_eq!(b.search_contacts("acme", 5, &vec![Ok(reply)]), Step::Done(Ok(vec![expected])));
}

#[test]
fn pipedrive_company_city_accepts_text_or_integer() {
    let org = obj(vec![
        ("id", n("3")),
        ("name", s("Acme")),
        ("address_locality", s("")),
        ("address_country", n("254")),
    ]);
    match backend().list_companies(2, &vec![Ok(obj(vec![("data", Json::Array(vec![org]))]))]) {
        Step::Done(Ok(cs)) => {
            assert_eq!(cs[0].id, "3");
            assert_eq!(cs[0].city, None);
            assert_eq!(cs[0].country, Some("254".to_string()));
        }
        other => panic!("unexpected {other:?}"),
    }
}

#[test]
fn pipedrive_create_deal_body() {
    let amount = Amount { number: Some("50000".to_string()), text: "50000".to_string() };
    let body = obj(vec![
        ("title", s("Acme Enterprise")),
        ("value", n("50000")),
        ("stage_id", n("3")),
        ("person_id", n("42")),
    ]);
    assert_eq!(
        backend().create_deal("Acme Enterprise", Some(&amount), Some("3"), Some("42"), None, &vec![]),
        Step::Send(simple(Method::Post, "deals", Some(body)))
    );
}

#[test]
fn pipedrive_deal_fields() {
    let d = obj(vec![
        ("title", s("Big")),
        ("stage_id", n("4")),
        ("pipeline_id", n("1")),
        ("value", n("1200.5")),
        ("currency", s("EUR")),
        ("person_id", obj(vec![("value", n("42"))])),
        ("probability", Json::Null),
        ("status", s("open")),
    ]);
    match backend().get_deal("11", &vec![Ok(obj(vec![("data", d)]))]) {
        Step::Done(Ok(deal)) => {
            assert_eq!(deal.id, "11");
            assert_eq!(deal.stage, Some("4".to_string()));
            assert_eq!(deal.amount, Some("1200.5".to_string()));
            assert_eq!(deal.contact_id, Some("42".to_string()));
            assert_eq!(deal.probability, None);
            assert_eq!(deal.status, Some("open".to_string()));
        }
        other => panic!("unexpected {other:?}"),
    }
}

#[test]
fn pipedrive_move_deal_stage_needs_a_numeric_stage() {
    let b = backend();
    assert_eq!(
        b.move_deal_stage("11", "closedwon", &vec![]),
        Step::Done(Err(HttpError { message: "stage must be a numeric Pipedrive stage id, got `closedwon`".to_string() }))
    );
    let body = obj(vec![("stage_id", n("4"))]);
    assert_eq!(b.move_deal_stage("11", "4", &vec![]), Step::Send(simple(Method::Put, "deals/11", Some(body))));
    assert_eq!(b.move_deal_stage("11", "4", &vec![Ok(obj(vec![]))]), Step::Send(simple(Method::Get, "deals/11", None)));
}

#[test]
fn pipedrive_search_term_is_encoded() {
    assert_eq!(
        backend().search_contacts("ann&limit=500", 5, &vec![]),
        Step::Send(get("persons/search?term=ann%26limit%3D500&limit=5"))
    );
}

#[test]
fn pipedrive_token_never_in_the_url() {
    match backend().list_pipelines(&vec![Ok(obj(vec![("data", Json::Array(vec![obj(vec![("id", n("1"))])]))]))]) {
        Step::Send(r) => {
            assert_eq!(r.url, "https://api.pipedrive.com/v1/stages?pipeline_id=1");
            assert!(!r.url.contains("pd-token"));
        }
        other => panic!("unexpected {other:?}"),
    }
}

#[test]
fn pipedrive_list_activities_filters_and_failures() {
    let b = backend();
    assert_eq!(b.list_activities(Some("12"), None, 3, &vec![]), Step::Send(get("persons/12/activities?limit=3")));
    assert_eq!(b.list_activities(None, Some("11"), 3, &vec![]), Step::Send(get("deals/11/activities?limit=3")));
    assert_eq!(b.list_activities(None, None, 3, &vec![]), Step::Send(get("activities?limit=3")));
    assert_eq!(b.list_activities(None, None, 3, &vec![err("boom")]), Step::Done(Ok(vec![])));
    let t = obj(vec![("id", n("5")), ("done", Json::Bool(true)), ("deal_id", n("11"))]);
    match b.list_activities(None, None, 3, &vec![Ok(obj(vec![("data", Json::Array(vec![t]))]))]) {
        Step::Done(Ok(acts)) => {
            assert_eq!(acts[0].activity_type, "task");
            assert!(acts[0].done);
            assert_eq!(acts[0].deal_id, Some("11".to_string()));
        }
        other => panic!("unexpected {other:?}"),
    }
}

#[test]
fn pipedrive_list_pipelines_reads_the_stages_of_each() {
    let b = backend();
    let pipelines = || {
        obj(vec![(
            "data",
            Json::Array(vec![obj(vec![("id", n("1")), ("name", s("Sales"))]), obj(vec![("id", n("2")), ("name", s("Hiring"))])]),
        )])
    };
    assert_eq!(b.list_pipelines(&vec![]), Step::Send(simple(Method::Get, "pipelines", None)));
    assert_eq!(
        b.list_pipelines(&vec![Ok(pipelines())]),
        Step::Send(simple(Method::Get, "stages?pipeline_id=1", None))
    );
    let stages = obj(vec![(
        "data",
        Json::Array(vec![obj(vec![
            ("id", n("10")),
            ("name", s("Lead")),
            ("order_nr", n("1")),
            ("deals_summary", obj(vec![("total_count", n("3")), ("total_value", n("900.5"))])),
        ])]),
    )]);
    assert_eq!(
        b.list_pipelines(&vec![Ok(pipelines()), Ok(stages)]),
        Step::Send(simple(Method::Get, "stages?pipeline_id=2", None))
    );
    let stages = obj(vec![(
        "data",
        Json::Array(vec![obj(vec![
            ("id", n("10")),
            ("name", s("Lead")),
            ("order_nr", n("1")),
            ("deals_summary", obj(vec![("total_count", n("3")), ("total_value", n("900.5"))])),
        ])]),
    )]);
    let expected = vec![
        Pipeline {
            id: "1".to_string(),
            name: "Sales".to_string(),
            stages: vec![PipelineStage {
                id: "10".to_string(),
                name: "Lead".to_string(),
                order: 1,
                deal_count: Some(3),
                total_value: Some("900.5".to_string()),
            }],
            backend: "pipedrive".to_string(),
        },
        Pipeline { id: "2".to_string(), name: "Hiring".to_string(), stages: vec![], backend: "pipedrive".to_string() },
    ];
    assert_eq!(b.list_pipelines(&vec![Ok(pipelines()), Ok(stages), err("stage listing failed")]), Step::Done(Ok(expected)));
}

#[test]
fn pipedrive_pipeline_summary_is_the_pipeline_list() {
    let b = backend();
    let pipelines = obj(vec![("data", Json::Array(vec![]))]);
    assert_eq!(b.get_pipeline_summary(Some("1"), &vec![]), b.list_pipelines(&vec![]));
    assert_eq!(b.get_pipeline_summary(None, &vec![Ok(pipelines)]), Step::Done(Ok(vec![])));
    assert_eq!(
        b.get_pipeline_summary(None, &vec![err("401")]),
        Step::Done(Err(HttpError { message: "401".to_string() }))
    );
}

#[test]
fn pipedrive_list_notes_filters() {
    let b = backend();
    assert_eq!(b.list_notes(Some("42"), Some("11"), 20, &vec![]), Step::Send(get("notes?person_id=42&limit=20")));
    assert_eq!(b.list_notes(None, Some("11"), 20, &vec![]), Step::Send(get("notes?deal_id=11&limit=20")));
    assert_eq!(b.list_notes(None, None, 20, &vec![]), Step::Send(get("notes?limit=20")));
    assert_eq!(b.list_notes(None, None, 20, &vec![err("x")]), Step::Done(Ok(vec![])));
}

#[test]
fn pipedrive_create_note_copies_the_arguments() {
    let b = backend();
    let body = obj(vec![("content", s("Budget approved")), ("deal_id", n("11"))]);
    assert_eq!(
        b.create_note("Budget approved", None, None, Some("11"), &vec![]),
        Step::Send(simple(Method::Post, "notes", Some(body)))
    );
    let created = obj(vec![("data", obj(vec![("id", n("900"))]))]);
    let expected = Note {
        id: "900".to_string(),
        content: "Budget approved".to_string(),
        contact_id: None,
        company_id: None,
        deal_id: Some("11".to_string()),
        created_at: None,
        backend: "pipedrive".to_string(),
    };
    assert_eq!(b.create_note("Budget approved", None, None, Some("11"), &vec![Ok(created)]), Step::Done(Ok(expected)));
}

#[test]
fn pipedrive_deal_writes_refuse_a_stage_name() {
    let b = backend();
    let refused = Step::Done(Err(HttpError { message: "stage must be a numeric Pipedrive stage id, got `Negotiation`".to_string() }));
    assert_eq!(b.create_deal("Acme", None, Some("Negotiation"), None, None, &vec![]), refused);
    let refused = Step::Done(Err(HttpError { message: "stage must be a numeric Pipedrive stage id, got `Negotiation`".to_string() }));
    assert_eq!(b.update_deal("11", None, None, Some("Negotiation"), None, &vec![]), refused);
    assert_eq!(
        b.update_deal("11", Some("Big"), None, None, None, &vec![]),
        Step::Send(simple(Method::Put, "deals/11", Some(obj(vec![("title", s("Big"))]))))
    );
}
