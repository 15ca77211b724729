use mcp_crm::http::{Auth, HttpError, Method, Reply, Request, Step};
use mcp_crm::json::Json;
use mcp_crm::types::{Activity, Amount, Contact, Note};
use mcp_crm::zoho_crm::ZohoCrmBackend;

fn s(x: &str) -> Json {
    Json::Str(x.to_string())
}

fn obj(kv: Vec<(&str, Json)>) -> Json {
    Json::Object(kv.into_iter().map(|(k, v)| (k.to_string(), v)).collect())
}

fn data(records: Vec<Json>) -> Json {
    obj(vec![("data", Json::Array(records))])
}

fn backend() -> ZohoCrmBackend {
    ZohoCrmBackend::new("1000.zoho".to_string())
}

fn req(method: Method, path: &str, body: Option<Json>) -> Request {
    Request {
        method,
        url: format!("https://www.zohoapis.com/crm/v2/{path}"),
        auth: Auth::Header("Authorization".to_string(), "Zoho-oauthtoken 1000.zoho".to_string()),
        body,
        reads_body: true,
    }
}

fn err(m: &str) -> Reply {
    Err(HttpError { message: m.to_string() })
}

fn created(id: &str) -> Json {
    data(vec![obj(vec![("details", obj(vec![("id", s(id))]))])])
}

fn contact() -> Json {
    obj(vec![
        ("id", s("z1")),
        ("First_Name", s("Sarah")),
        ("Last_Name", s("Chen")),
        ("Email", s("")),
        ("Account_Name", obj(vec![("id", s("a1")), ("name", s("Acme"))])),
        ("Title", s("CTO")),
    ])
}

#[test]
fn zoho_name_is_zoho_crm() {
    assert_eq!(backend().name(), "zoho_crm");
}

#[test]
fn zoho_list_contacts_request_and_mapping() {
    let b = backend();
    assert_eq!(b.list_contacts(15, &vec![]), Step::Send(req(Method::Get, "Contacts?per_page=15", None)));
    let expected = Contact {
        id: "z1".to_string(),
        first_name: Some("Sarah".to_string()),
        last_name: Some("Chen".to_string()),
        email: None,
        phone: None,
        company_id: Some("a1".to_string()),
        company_name: Some("Acme".to_string()),
        title: Some("CTO".to_string()),
        backend: "zoho_crm".to_string(),
    };
    assert_eq!(b.list_contacts(15, &vec![Ok(data(vec![contact()]))]), Step::Done(Ok(vec![expected])));
}

#[test]
fn zoho_get_contact_reads_the_first_record() {
    let b = backend();
    assert_eq!(b.get_contact("z1", &vec![]), Step::Send(req(Method::Get, "Contacts/z1", None)));
    match b.get_contact("z1", &vec![Ok(data(vec![contact()]))]) {
        Step::Done(Ok(c)) => assert_eq!(c.company_name, Some("Acme".to_string())),
        other => panic!("unexpected {other:?}"),
    }
    match b.get_contact("z1", &vec![Ok(data(vec![]))]) {
        Step::Done(Ok(c)) => {
            assert_eq!(c.id, "");
            assert_eq!(c.first_name, None);
            assert_eq!(c.backend, "zoho_crm");
        }
        other => panic!("unexpected {other:?}"),
    }
}

#[test]
fn zoho_create_contact_posts_a_data_record_then_reads_back() {
    let b = backend();
    let body = data(vec![obj(vec![
        ("First_Name", s("Sarah")),
        ("Last_Name", s("Chen")),
        ("Phone", s("+1 555")),
    ])]);
    assert_eq!(
        b.create_contact("Sarah", "Chen", None, Some("+1 555"), Some("a1"), &vec![]),
        Step::Send(req(Method::Post, "Contacts", Some(body)))
    );
    assert_eq!(
        b.create_contact("Sarah", "Chen", None, Some("+1 555"), Some("a1"), &vec![Ok(created("z9"))]),
        Step::Send(req(Method::Get, "Contacts/z9", None))
    );
    assert_eq!(
        b.create_contact("Sarah", "Chen", None, None, None, &vec![err("400")]),
        Step::Done(Err(HttpError { message: "400".to_string() }))
    );
}

#[test]
fn zoho_update_contact_puts_the_id_with_the_fields() {
    let body = data(vec![obj(vec![("id", s("z1")), ("Email", s("new@acme.com"))])]);
    assert_eq!(
        backend().update_contact("z1", None, None, Some("new@acme.com"), None, &vec![]),
        Step::Send(req(Method::Put, "Contacts", Some(body)))
    );
}

#[test]
fn zoho_search_contacts_falls_back_to_nothing() {
    let b = backend();
    assert_eq!(
        b.search_contacts("Chen", 5, &vec![]),
        Step::Send(req(Method::Get, "Contacts/search?word=Chen&per_page=5", None))
    );
    assert_eq!(
        b.search_contacts("sarah@acme.com", 5, &vec![]),
        Step::Send(req(Method::Get, "Contacts/search?word=sarah%40acme.com&per_page=5", None))
    );
    assert_eq!(b.search_contacts("Chen", 5, &vec![err("204")]), Step::Done(Ok(vec![])));
    match b.search_contacts("Chen", 5, &vec![Ok(data(vec![contact()]))]) {
        Step::Done(Ok(cs)) => {
            assert_eq!(cs[0].company_id, None);
            assert_eq!(cs[0].company_name, None);
            assert_eq!(cs[0].title, Some("CTO".to_string()));
        }
        other => panic!("unexpected {other:?}"),
    }
}

#[test]
fn zoho_create_deal_defaults_the_stage() {
    let amount = Amount { number: Some("1e3".to_string()), text: "1000".to_string() };
    let body = data(vec![obj(vec![
        ("Deal_Name", s("Acme")),
        ("Stage", s("Qualification")),
        ("Amount", Json::Number("1e3".to_string())),
        ("Account_Name", obj(vec![("id", s("a1"))])),
    ])]);
    assert_eq!(
        backend().create_deal("Acme", Some(&amount), None, None, Some("a1"), &vec![]),
        Step::Send(req(Method::Post, "Deals", Some(body)))
    );
}

#[test]
fn zoho_deal_fields() {
    let d = obj(vec![
        ("id", s("d1")),
        ("Deal_Name", s("Acme")),
        ("Stage", s("Negotiation")),
        ("Amount", Json::Number("50000".to_string())),
        ("Contact_Name", obj(vec![("id", s("z1"))])),
        ("Probability", Json::Number("75".to_string())),
        ("Closing_Date", s("2026-01-31")),
    ]);
    match backend().get_deal("d1", &vec![Ok(data(vec![d]))]) {
        Step::Done(Ok(deal)) => {
            assert_eq!(deal.amount, Some("50000".to_string()));
            assert_eq!(deal.probability, Some("75".to_string()));
            assert_eq!(deal.contact_id, Some("z1".to_string()));
            assert_eq!(deal.close_date, Some("2026-01-31".to_string()));
            assert_eq!(deal.company_id, None);
        }
        other => panic!("unexpected {other:?}"),
    }
}

#[test]
fn zoho_move_deal_stage_then_read_back() {
    let b = backend();
    let body = data(vec![obj(vec![("id", s("d1")), ("Stage", s("Closed Won"))])]);
    assert_eq!(b.move_deal_stage("d1", "Closed Won", &vec![]), Step::Send(req(Method::Put, "Deals", Some(body))));
    assert_eq!(b.move_deal_stage("d1", "Closed Won", &vec![Ok(data(vec![]))]), Step::Send(req(Method::Get, "Deals/d1", None)));
}

#[test]
fn zoho_list_activities_of_a_contact() {
    let b = backend();
    assert_eq!(
        b.list_activities(Some("z1"), Some("d1"), 7, &vec![]),
        Step::Send(req(Method::Get, "Contacts/z1/Activities?per_page=7", None))
    );
    assert_eq!(b.list_activities(None, Some("d1"), 7, &vec![]), Step::Send(req(Method::Get, "Deals/d1/Activities?per_page=7", None)));
    assert_eq!(b.list_activities(None, None, 7, &vec![]), Step::Send(req(Method::Get, "Activities?per_page=7", None)));
    let t = obj(vec![
        ("id", s("t1")),
        ("Status", s("Completed")),
        ("Subject", s("Call")),
        ("Who_Id", obj(vec![("id", s("z1"))])),
    ]);
    let expected = Activity {
        id: "t1".to_string(),
        activity_type: "task".to_string(),
        subject: Some("Call".to_string()),
        body: None,
        contact_id: Some("z1".to_string()),
        deal_id: None,
        done: true,
        due_date: None,
        backend: "zoho_crm".to_string(),
    };
    assert_eq!(b.list_activities(Some("z1"), Some("d1"), 7, &vec![Ok(data(vec![t]))]), Step::Done(Ok(vec![expected])));
    assert_eq!(b.list_activities(None, None, 7, &vec![err("x")]), Step::Done(Ok(vec![])));
}

#[test]
fn zoho_create_activity_links_who_and_what() {
    let b = backend();
    let body = data(vec![obj(vec![
        ("Subject", s("Follow up")),
        ("Activity_Type", s("call")),
        ("Who_Id", obj(vec![("id", s("z1"))])),
        ("What_Id", obj(vec![("id", s("d1"))])),
    ])]);
    assert_eq!(
        b.create_activity("call", "Follow up", None, Some("z1"), Some("d1"), &vec![]),
        Step::Send(req(Method::Post, "Tasks", Some(body)))
    );
    match b.create_activity("call", "Follow up", None, Some("z1"), Some("d1"), &vec![Ok(created("t5"))]) {
        Step::Done(Ok(a)) => {
            assert_eq!(a.id, "t5");
            assert_eq!(a.deal_id, Some("d1".to_string()));
            assert!(!a.done);
        }
        other => panic!("unexpected {other:?}"),
    }
}

#[test]
fn zoho_pipelines_and_summary() {
    let b = backend();
    let reply = || {
        obj(vec![(
            "pipeline",
            Json::Array(vec![obj(vec![
                ("id", s("p1")),
                ("display_value", s("Standard")),
                ("maps", Json::Array(vec![obj(vec![("id", s("s1")), ("display_value", s("Qualification"))])])),
            ])]),
        )])
    };
    assert_eq!(b.list_pipelines(&vec![]), Step::Send(req(Method::Get, "settings/pipeline?module=Deals", None)));
    assert_eq!(b.get_pipeline_summary(Some("p1"), &vec![Ok(reply())]), b.list_pipelines(&vec![Ok(reply())]));
    match b.list_pipelines(&vec![Ok(reply())]) {
        Step::Done(Ok(ps)) => {
            assert_eq!(ps[0].name, "Standard");
            assert_eq!(ps[0].stages[0].order, 0);
            assert_eq!(ps[0].stages[0].name, "Qualification");
        }
        other => panic!("unexpected {other:?}"),
    }
}

#[test]
fn zoho_notes_live_under_their_record() {
    let b = backend();
    assert_eq!(
        b.list_notes(None, Some("d1"), 20, &vec![]),
        Step::Send(req(Method::Get, "Deals/d1/Notes?per_page=20", None))
    );
    assert_eq!(
        b.create_note("Budget approved", Some("z1"), None, Some("d1"), &vec![]),
        Step::Send(req(
            Method::Post,
            "Contacts/z1/Notes",
            Some(data(vec![obj(vec![("Note_Content", s("Budget approved"))])]))
        ))
    );
    assert_eq!(
        b.create_note("Budget approved", None, Some("4000"), None, &vec![]),
        Step::Send(req(
            Method::Post,
            "Accounts/4000/Notes",
            Some(data(vec![obj(vec![("Note_Content", s("Budget approved"))])]))
        ))
    );
    let expected = Note {
        id: "n1".to_string(),
        content: "Budget approved".to_string(),
        contact_id: Some("z1".to_string()),
        company_id: None,
        deal_id: Some("d1".to_string()),
        created_at: None,
        backend: "zoho_crm".to_string(),
    };
    assert_eq!(
        b.create_note("Budget approved", Some("z1"), None, Some("d1"), &vec![Ok(created("n1"))]),
        Step::Done(Ok(expected))
    );
}
