use mcp_crm::http::{Auth, HttpError, Method, Reply, Request, Step};
use mcp_crm::json::Json;
use mcp_crm::salesforce::{date_text_of, matches_lowered, today_text, ymd, SalesforceBackend};
use mcp_crm::types::{Amount, Contact, Note};

fn s(x: &str) -> Json {
    Json::Str(x.to_string())
}

fn obj(kv: Vec<(&str, Json)>) -> Json {
    Json::Object(kv.into_iter().map(|(k, v)| (k.to_string(), v)).collect())
}

fn records(rs: Vec<Json>) -> Json {
    obj(vec![("records", Json::Array(rs))])
}

fn backend() -> SalesforceBackend {
    SalesforceBackend::new("https://acme.my.salesforce.com/".to_string(), "00Dtoken".to_string())
}

fn req(method: Method, path: &str, body: Option<Json>, reads: bool) -> Request {
    Request {
        method,
        url: format!("https://acme.my.salesforce.com/services/data/v59.0/{path}"),
        auth: Auth::Bearer("00Dtoken".to_string()),
        body,
        reads_body: reads,
    }
}

/// Percent-encoding as the query parameter needs it, written out here
/// independently of the library.
fn enc(text: &str) -> String {
    let mut out = String::new();
    for b in text.bytes() {
        if b.is_ascii_alphanumeric() || b == b'-' || b == b'_' || b == b'.' || b == b'~' {
            out.push(b as char);
        } else {
            out.push_str(&format!("%{:02X}", b));
        }
    }
    out
}

fn query(soql: &str) -> Request {
    req(Method::Get, &format!("query?q={}", enc(soql)), None, true)
}

fn copy(j: &Json) -> Json {
    match j {
        Json::Null => Json::Null,
        Json::Bool(b) => Json::Bool(*b),
        Json::Number(t) => Json::Number(t.clone()),
        Json::Str(t) => Json::Str(t.clone()),
        Json::Array(v) => Json::Array(v.iter().map(copy).collect()),
        Json::Object(v) => Json::Object(v.iter().map(|(k, x)| (k.clone(), copy(x))).collect()),
    }
}

fn err(m: &str) -> Reply {
    Err(HttpError { message: m.to_string() })
}

fn person(id: &str, first: &str, last: &str, email: &str) -> Json {
    obj(vec![("Id", s(id)), ("FirstName", s(first)), ("LastName", s(last)), ("Email", s(email))])
}

#[test]
fn salesforce_name_and_trimmed_instance() {
    let b = backend();
    assert_eq!(b.name(), "salesforce");
    assert_eq!(b.instance_url, "https://acme.my.salesforce.com");
    let b2 = SalesforceBackend::new("https://x.my.salesforce.com///".to_string(), "t".to_string());
    assert_eq!(b2.instance_url, "https://x.my.salesforce.com");
}

#[test]
fn salesforce_list_contacts_sends_encoded_soql() {
    assert_eq!(
        backend().list_contacts(5, &vec![]),
        Step::Send(query("SELECT Id,FirstName,LastName,Email,Phone,AccountId,Account.Name,Title FROM Contact LIMIT 5"))
    );
    match backend().list_contacts(5, &vec![]) {
        Step::Send(r) => assert!(r.url.ends_with(
            "query?q=SELECT%20Id%2CFirstName%2CLastName%2CEmail%2CPhone%2CAccountId%2CAccount.Name%2CTitle%20FROM%20Contact%20LIMIT%205"
        )),
        other => panic!("unexpected {other:?}"),
    }
}

#[test]
fn salesforce_list_contacts_maps_records() {
    let c = obj(vec![
        ("Id", s("003A")),
        ("FirstName", s("Sarah")),
        ("LastName", s("Chen")),
        ("AccountId", s("001A")),
        ("Account", obj(vec![("Name", s("Acme"))])),
        ("Title", s("")),
    ]);
    let expected = Contact {
        id: "003A".to_string(),
        first_name: Some("Sarah".to_string()),
        last_name: Some("Chen".to_string()),
        email: None,
        phone: None,
        company_id: Some("001A".to_string()),
        company_name: Some("Acme".to_string()),
        title: None,
        backend: "salesforce".to_string(),
    };
    assert_eq!(backend().list_contacts(5, &vec![Ok(records(vec![c]))]), Step::Done(Ok(vec![expected])));
}

#[test]
fn salesforce_create_contact_posts_then_reads_back() {
    let b = backend();
    let body = obj(vec![("FirstName", s("Sarah")), ("LastName", s("Chen")), ("AccountId", s("001A"))]);
    assert_eq!(
        b.create_contact("Sarah", "Chen", None, None, Some("001A"), &vec![]),
        Step::Send(req(Method::Post, "sobjects/Contact", Some(body), true))
    );
    assert_eq!(
        b.create_contact("Sarah", "Chen", None, None, Some("001A"), &vec![Ok(obj(vec![("id", s("003B"))]))]),
        Step::Send(req(Method::Get, "sobjects/Contact/003B", None, true))
    );
    let got = obj(vec![("Id", s("003B")), ("FirstName", s("Sarah")), ("Account", obj(vec![("Name", s("Acme"))]))]);
    match b.create_contact("Sarah", "Chen", None, None, Some("001A"), &vec![Ok(obj(vec![("id", s("003B"))])), Ok(got)]) {
        Step::Done(Ok(c)) => {
            assert_eq!(c.id, "003B");
            assert_eq!(c.company_name, None);
        }
        other => panic!("unexpected {other:?}"),
    }
}

#[test]
fn salesforce_update_contact_patch_reads_no_body() {
    let b = backend();
    let body = obj(vec![("Phone", s("555"))]);
    assert_eq!(
        b.update_contact("003A", None, None, None, Some("555"), &vec![]),
        Step::Send(req(Method::Patch, "sobjects/Contact/003A", Some(body), false))
    );
    assert_eq!(
        b.update_contact("003A", None, None, None, Some("555"), &vec![Ok(Json::Null)]),
        Step::Send(req(Method::Get, "sobjects/Contact/003A", None, true))
    );
    assert_eq!(
        b.update_contact("003A", None, None, None, Some("555"), &vec![err("403")]),
        Step::Done(Err(HttpError { message: "403".to_string() }))
    );
}

fn search_soql(term: &str, limit: u32) -> String {
    format!(
        "SELECT Id,FirstName,LastName,Email,Phone,AccountId,Account.Name,Title FROM Contact WHERE Name LIKE '%{term}%' OR Email LIKE '%{term}%' LIMIT {limit}"
    )
}

#[test]
fn salesforce_search_queries_the_whole_org() {
    let b = backend();
    assert_eq!(b.search_contacts("ACME", 2, &vec![]), Step::Send(query(&search_soql("ACME", 2))));
    assert_eq!(
        b.search_contacts("O'Brien_50%", 2, &vec![]),
        Step::Send(query(&search_soql("O\\'Brien\\_50\\%", 2)))
    );
}

#[test]
fn salesforce_search_filters_the_answer_case_blind() {
    let b = backend();
    let answer = records(vec![
        person("1", "Sarah", "Chen", "sarah@acme.com"),
        person("2", "Bob", "Stone", "bob@other.org"),
        person("3", "Acme", "Bot", "bot@x.org"),
        person("4", "Ann", "Lee", "ann@ACME.io"),
    ]);
    match b.search_contacts("ACME", 2, &vec![Ok(answer)]) {
        Step::Done(Ok(cs)) => {
            let ids: Vec<&str> = cs.iter().map(|c| c.id.as_str()).collect();
            assert_eq!(ids, vec!["1", "3"]);
        }
        other => panic!("unexpected {other:?}"),
    }
}

#[test]
fn salesforce_search_matches_first_and_last_name_together() {
    let answer = records(vec![person("1", "Sarah", "Chen", ""), person("2", "Sara", "H", "")]);
    match backend().search_contacts("h c", 10, &vec![Ok(answer)]) {
        Step::Done(Ok(cs)) => {
            assert_eq!(cs.len(), 1);
            assert_eq!(cs[0].id, "1");
        }
        other => panic!("unexpected {other:?}"),
    }
}

#[test]
fn salesforce_search_finds_names_with_quotes() {
    let answer = records(vec![person("1", "Pat", "O'Brien", "pat@x.org")]);
    match backend().search_contacts("o'brien", 10, &vec![Ok(answer)]) {
        Step::Done(Ok(cs)) => assert_eq!(cs.len(), 1),
        other => panic!("unexpected {other:?}"),
    }
}

#[test]
fn salesforce_search_survives_a_failed_query() {
    assert_eq!(backend().search_contacts("acme", 10, &vec![err("500")]), Step::Done(Ok(vec![])));
}

#[test]
fn salesforce_lowered_matching() {
    assert!(matches_lowered("sarah chen", "", "h c"));
    assert!(matches_lowered("", "ann@acme.io", "acme"));
    assert!(!matches_lowered("sarah chen", "s@x.org", "acme"));
}

#[test]
fn salesforce_create_deal_dated_body() {
    let amount = Amount { number: Some("50000".to_string()), text: "50000".to_string() };
    let body = obj(vec![
        ("Name", s("Acme Enterprise")),
        ("StageName", s("Prospecting")),
        ("CloseDate", s("2026-05-25")),
        ("Amount", Json::Number("50000".to_string())),
        ("ContactId", s("003A")),
    ]);
    assert_eq!(
        backend().create_deal_dated("Acme Enterprise", Some(&amount), None, Some("003A"), None, "2026-05-25", &vec![]),
        Step::Send(req(Method::Post, "sobjects/Opportunity", Some(body), true))
    );
}

#[test]
fn salesforce_create_deal_closes_today() {
    let today = today_text().expect("the clock gives a date");
    match backend().create_deal("Acme", None, Some("Negotiation"), None, None, &vec![]) {
        Step::Send(r) => {
            let body = r.body.expect("a body");
            let expected = obj(vec![("Name", s("Acme")), ("StageName", s("Negotiation")), ("CloseDate", s(&today))]);
            assert_eq!(body, expected);
        }
        other => panic!("unexpected {other:?}"),
    }
    assert_eq!(
        backend().create_deal("Acme", None, None, None, None, &vec![Ok(obj(vec![("id", s("006X"))]))]),
        Step::Send(req(Method::Get, "sobjects/Opportunity/006X", None, true))
    );
}

#[test]
fn salesforce_today_is_a_date() {
    let t = today_text().expect("the clock gives a date");
    let b = t.as_bytes();
    assert_eq!(b.len(), 10, "{t}");
    assert!(b[0..4].iter().all(|c| c.is_ascii_digit()));
    assert_eq!(b[4], b'-');
    assert_eq!(b[7], b'-');
    let month: u32 = t[5..7].parse().unwrap();
    let day: u32 = t[8..10].parse().unwrap();
    assert!((1..=12).contains(&month));
    assert!((1..=31).contains(&day));
}

#[test]
fn salesforce_dates_of_timestamps() {
    assert_eq!(date_text_of(0), Some("1970-01-01".to_string()));
    assert_eq!(date_text_of(1431648000), Some("2015-05-15".to_string()));
    assert_eq!(date_text_of(-86400), Some("1969-12-31".to_string()));
    assert_eq!(date_text_of(i64::MAX), None);
}

#[test]
fn salesforce_ymd_formats_like_chrono() {
    assert_eq!(ymd(2026, 5, 25), "2026-05-25");
    assert_eq!(ymd(2024, 12, 1), "2024-12-01");
    assert_eq!(ymd(99, 1, 1), "0099-01-01");
    assert_eq!(ymd(10000, 12, 31), "+10000-12-31");
    assert_eq!(ymd(-5, 1, 2), "-0005-01-02");
}

#[test]
fn salesforce_deal_amounts_are_numbers() {
    let d = obj(vec![
        ("Id", s("006X")),
        ("Name", s("Acme")),
        ("Amount", Json::Number("50000.0".to_string())),
        ("Probability", s("10")),
    ]);
    match backend().get_deal("006X", &vec![Ok(d)]) {
        Step::Done(Ok(deal)) => {
            assert_eq!(deal.amount, Some("50000.0".to_string()));
            assert_eq!(deal.probability, None);
            assert_eq!(deal.pipeline, None);
        }
        other => panic!("unexpected {other:?}"),
    }
}

#[test]
fn salesforce_activity_filters() {
    let b = backend();
    assert_eq!(
        b.list_activities(Some("003A"), Some("006X"), 5, &vec![]),
        Step::Send(query("SELECT Id,Subject,Description,ActivityDate,Status,TaskSubtype,WhoId,WhatId FROM Task WHERE WhoId = '003A' LIMIT 5"))
    );
    assert_eq!(
        b.list_activities(None, Some("006X"), 5, &vec![]),
        Step::Send(query("SELECT Id,Subject,Description,ActivityDate,Status,TaskSubtype,WhoId,WhatId FROM Task WHERE WhatId = '006X' LIMIT 5"))
    );
    assert_eq!(
        b.list_activities(None, None, 5, &vec![]),
        Step::Send(query("SELECT Id,Subject,Description,ActivityDate,Status,TaskSubtype,WhoId,WhatId FROM Task  LIMIT 5"))
    );
    let t = obj(vec![
        ("Id", s("00T")),
        ("Status", s("Completed")),
        ("TaskSubtype", s("Call")),
        ("WhoId", s("003A")),
        ("WhatId", s("006Y")),
    ]);
    match b.list_activities(Some("003A"), Some("006X"), 5, &vec![Ok(records(vec![t]))]) {
        Step::Done(Ok(acts)) => {
            assert_eq!(acts[0].activity_type, "Call");
            assert!(acts[0].done);
            assert_eq!(acts[0].contact_id, Some("003A".to_string()));
            assert_eq!(acts[0].deal_id, Some("006Y".to_string()));
        }
        other => panic!("unexpected {other:?}"),
    }
    assert_eq!(
        b.list_activities(Some("x' OR Id != '"), None, 5, &vec![]),
        Step::Send(query(
            "SELECT Id,Subject,Description,ActivityDate,Status,TaskSubtype,WhoId,WhatId FROM Task WHERE WhoId = 'x\\' OR Id != \\'' LIMIT 5"
        ))
    );
}

#[test]
fn salesforce_single_pipeline_of_stages() {
    let b = backend();
    assert_eq!(
        b.list_pipelines(&vec![]),
        Step::Send(query("SELECT MasterLabel,ApiName FROM OpportunityStage ORDER BY SortOrder"))
    );
    let stages = records(vec![
        obj(vec![("MasterLabel", s("Prospecting")), ("ApiName", s("Prospecting"))]),
        obj(vec![("MasterLabel", s("Closed Won")), ("ApiName", s("ClosedWon"))]),
    ]);
    match b.list_pipelines(&vec![Ok(copy(&stages))]) {
        Step::Done(Ok(ps)) => {
            assert_eq!(ps.len(), 1);
            assert_eq!(ps[0].id, "default");
            assert_eq!(ps[0].name, "Sales Pipeline");
            assert_eq!(ps[0].stages[1].id, "ClosedWon");
            assert_eq!(ps[0].stages[1].order, 1);
        }
        other => panic!("unexpected {other:?}"),
    }
    assert_eq!(b.get_pipeline_summary(None, &vec![]), b.list_pipelines(&vec![]));
    assert_eq!(
        b.get_pipeline_summary(None, &vec![Ok(copy(&stages))]),
        Step::Send(query("SELECT StageName,COUNT(Id),SUM(Amount) FROM Opportunity GROUP BY StageName"))
    );
    let groups = records(vec![obj(vec![
        ("StageName", s("Prospecting")),
        ("expr0", Json::Number("2".to_string())),
        ("expr1", Json::Number("3000.0".to_string())),
    ])]);
    match b.get_pipeline_summary(None, &vec![Ok(copy(&stages)), Ok(groups)]) {
        Step::Done(Ok(ps)) => {
            assert_eq!(ps[0].stages[0].deal_count, Some(2));
            assert_eq!(ps[0].stages[0].total_value, Some("3000.0".to_string()));
            assert_eq!(ps[0].stages[1].deal_count, Some(0));
            assert_eq!(ps[0].stages[1].total_value, None);
        }
        other => panic!("unexpected {other:?}"),
    }
    assert_eq!(
        b.get_pipeline_summary(None, &vec![Ok(copy(&stages)), err("400")]),
        Step::Done(Err(HttpError { message: "400".to_string() }))
    );
}

#[test]
fn salesforce_note_parent_prefers_the_contact() {
    let b = backend();
    let body = |parent: &str| obj(vec![("Body", s("hi")), ("ParentId", s(parent)), ("Title", s("Note"))]);
    assert_eq!(
        b.create_note("hi", Some("003A"), None, Some("006X"), &vec![]),
        Step::Send(req(Method::Post, "sobjects/Note", Some(body("003A")), true))
    );
    assert_eq!(
        b.create_note("hi", None, None, None, &vec![]),
        Step::Send(req(Method::Post, "sobjects/Note", Some(body("")), true))
    );
    assert_eq!(
        b.create_note("hi", None, Some("001A"), None, &vec![]),
        Step::Send(req(Method::Post, "sobjects/Note", Some(body("001A")), true))
    );
    let expected = Note {
        id: "002".to_string(),
        content: "hi".to_string(),
        contact_id: None,
        company_id: Some("001".to_string()),
        deal_id: Some("006X".to_string()),
        created_at: None,
        backend: "salesforce".to_string(),
    };
    assert_eq!(b.create_note("hi", None, Some("001"), Some("006X"), &vec![Ok(obj(vec![("id", s("002"))]))]), Step::Done(Ok(expected)));
    assert_eq!(
        b.list_notes(None, Some("006X"), 3, &vec![]),
        Step::Send(query("SELECT Id,Body,ParentId,CreatedDate FROM Note WHERE ParentId = '006X' LIMIT 3"))
    );
}

#[test]
fn salesforce_search_folds_case_beyond_ascii() {
    let listing = records(vec![person("1", "ÉLODIE", "Durand", ""), person("2", "Elodie", "Martin", "")]);
    match backend().search_contacts("élodie", 10, &vec![Ok(listing)]) {
        Step::Done(Ok(cs)) => {
            let ids: Vec<&str> = cs.iter().map(|c| c.id.as_str()).collect();
            assert_eq!(ids, vec!["1"]);
        }
        other => panic!("unexpected {other:?}"),
    }
}

#[test]
fn salesforce_search_case_and_longer_query() {
    let answer = || {
        records(vec![
            person("1", "Sarah", "Chen", "sarah@acme.com"),
            person("2", "Ann", "Acmeson", "ann@x.org"),
            person("3", "Bob", "Stone", "bob@y.org"),
        ])
    };
    let ids = |q: &str| match backend().search_contacts(q, 10, &vec![Ok(answer())]) {
        Step::Done(Ok(cs)) => cs.into_iter().map(|c| c.id).collect::<Vec<String>>(),
        other => panic!("unexpected {other:?}"),
    };
    assert_eq!(ids("ACME"), ids("acme"));
    let longer = ids("acme.com");
    let shorter = ids("acme");
    assert_eq!(longer, vec!["1".to_string()]);
    assert!(longer.iter().all(|i| shorter.contains(i)));
}
