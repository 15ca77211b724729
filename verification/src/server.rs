//! The tool inputs of the server, the choice of backend from the
//! configuration, and the texts the server answers with.
use vstd::prelude::*;
use crate::http::HttpError;
use crate::hubspot::HubSpotBackend;
use crate::pipedrive::PipedriveBackend;
use crate::salesforce::SalesforceBackend;
use crate::text::{dec, join2, join3, owned, push_dec, trim_slashes};
use crate::zoho_crm::ZohoCrmBackend;

verus! {

/// The default number of records a listing asks for.
pub fn d20() -> (r: u32)
    ensures
        r == 20,
{
    20
}

pub struct ListInput {
    pub limit: u32,
}

pub struct IdInput {
    pub id: String,
}

pub struct SearchInput {
    pub query: String,
    pub limit: u32,
}

pub struct CreateContactInput {
    pub first_name: String,
    pub last_name: String,
    pub email: Option<String>,
    pub phone: Option<String>,
    pub company_id: Option<String>,
}

pub struct UpdateContactInput {
    pub id: String,
    pub first_name: Option<String>,
    pub last_name: Option<String>,
    pub email: Option<String>,
    pub phone: Option<String>,
}

pub struct CreateCompanyInput {
    pub name: String,
    pub domain: Option<String>,
    pub industry: Option<String>,
}

pub struct UpdateCompanyInput {
    pub id: String,
    pub name: Option<String>,
    pub domain: Option<String>,
    pub industry: Option<String>,
}

pub struct MoveDealInput {
    pub id: String,
    pub stage: String,
}

pub struct ListActivitiesInput {
    pub contact_id: Option<String>,
    pub deal_id: Option<String>,
    pub limit: u32,
}

pub struct CreateActivityInput {
    pub activity_type: String,
    pub subject: String,
    pub body: Option<String>,
    pub contact_id: Option<String>,
    pub deal_id: Option<String>,
}

pub struct PipelineInput {
    pub pipeline_id: Option<String>,
}

pub struct ListNotesInput {
    pub contact_id: Option<String>,
    pub deal_id: Option<String>,
    pub limit: u32,
}

pub struct CreateNoteInput {
    pub content: String,
    pub contact_id: Option<String>,
    pub company_id: Option<String>,
    pub deal_id: Option<String>,
}

pub struct AssociateInput {
    pub contact_id: String,
    pub company_id: String,
}

pub struct DealContactInput {
    pub deal_id: String,
    pub contact_id: String,
}

pub struct UpdateActivityInput {
    pub id: String,
    pub done: Option<bool>,
    pub subject: Option<String>,
}

/// The answer to a tool call that failed.
pub fn error_text(message: &str) -> (r: String)
    ensures
        r@ == "Error: "@ + message@,
{
    join2("Error: ", message)
}

/// The outcome of a health check.
#[derive(Debug, PartialEq)]
pub struct HealthReport {
    pub healthy: bool,
    pub message: Option<String>,
    pub latency_ms: Option<u64>,
}

/// The health of a backend, judged by a probe (a one-record contact listing):
/// healthy with "`name` connected" when it succeeded, else unhealthy with
/// "`name`: `error`".
pub fn health_report(name: &str, probe: &Result<(), HttpError>) -> (r: HealthReport)
    ensures
        r.healthy == probe is Ok,
        match probe {
            Ok(_) => r.message matches Some(m) && m@ == name@ + " connected"@ && r.latency_ms
                == Some(1u64),
            Err(e) => r.message matches Some(m) && m@ == name@ + ": "@ + e@ && r.latency_ms
                is None,
        },
{
    match probe {
        Ok(_) => HealthReport {
            healthy: true,
            message: Some(join2(name, " connected")),
            latency_ms: Some(1),
        },
        Err(e) => HealthReport {
            healthy: false,
            message: Some(join3(name, ": ", e.message.as_str())),
            latency_ms: None,
        },
    }
}

/// The backend the configuration selects.
#[derive(Debug, PartialEq)]
pub enum BackendChoice {
    Salesforce(SalesforceBackend),
    HubSpot(HubSpotBackend),
    ZohoCrm(ZohoCrmBackend),
    Pipedrive(PipedriveBackend),
}

pub enum BackendChoiceV {
    Salesforce(Seq<char>, Seq<char>),
    HubSpot(Seq<char>),
    ZohoCrm(Seq<char>),
    Pipedrive(Seq<char>),
}

impl View for BackendChoice {
    type V = BackendChoiceV;

    open spec fn view(&self) -> BackendChoiceV {
        match self {
            BackendChoice::Salesforce(b) => BackendChoiceV::Salesforce(b.instance_url@, b.token@),
            BackendChoice::HubSpot(b) => BackendChoiceV::HubSpot(b.token@),
            BackendChoice::ZohoCrm(b) => BackendChoiceV::ZohoCrm(b.token@),
            BackendChoice::Pipedrive(b) => BackendChoiceV::Pipedrive(b.token@),
        }
    }
}

impl BackendChoice {
    /// The name of the selected backend, which tags its records.
    pub fn name(&self) -> (r: &str)
        ensures
            r@ == match self@ {
                BackendChoiceV::Salesforce(_, _) => "salesforce"@,
                BackendChoiceV::HubSpot(_) => "hubspot"@,
                BackendChoiceV::ZohoCrm(_) => "zoho_crm"@,
                BackendChoiceV::Pipedrive(_) => "pipedrive"@,
            },
    {
        match self {
            BackendChoice::Salesforce(b) => b.name(),
            BackendChoice::HubSpot(b) => b.name(),
            BackendChoice::ZohoCrm(b) => b.name(),
            BackendChoice::Pipedrive(b) => b.name(),
        }
    }
}

/// The backends built into the server; a backend left out is never chosen.
#[derive(Debug, Clone, Copy, PartialEq, Eq)]
pub struct EnabledBackends {
    pub salesforce: bool,
    pub hubspot: bool,
    pub zoho_crm: bool,
    pub pipedrive: bool,
}

/// Which backend a configuration selects among the enabled ones: Salesforce
/// when both its URL and token are set, else HubSpot, else Zoho CRM, else
/// Pipedrive, else none.
pub open spec fn chosen(
    enabled: EnabledBackends,
    salesforce_url: Option<Seq<char>>,
    salesforce_token: Option<Seq<char>>,
    hubspot_token: Option<Seq<char>>,
    zoho_token: Option<Seq<char>>,
    pipedrive_token: Option<Seq<char>>,
) -> Option<BackendChoiceV> {
    if enabled.salesforce && salesforce_url is Some && salesforce_token is Some {
        Some(BackendChoiceV::Salesforce(trim_slashes(salesforce_url->0), salesforce_token->0))
    } else if enabled.hubspot && hubspot_token is Some {
        Some(BackendChoiceV::HubSpot(hubspot_token->0))
    } else if enabled.zoho_crm && zoho_token is Some {
        Some(BackendChoiceV::ZohoCrm(zoho_token->0))
    } else if enabled.pipedrive && pipedrive_token is Some {
        Some(BackendChoiceV::Pipedrive(pipedrive_token->0))
    } else {
        None
    }
}

pub open spec fn opt_text(s: Option<String>) -> Option<Seq<char>> {
    match s {
        Some(t) => Some(t@),
        None => None,
    }
}

/// Whether a choice is of a backend that is enabled.
pub open spec fn is_enabled(enabled: EnabledBackends, c: BackendChoiceV) -> bool {
    match c {
        BackendChoiceV::Salesforce(_, _) => enabled.salesforce,
        BackendChoiceV::HubSpot(_) => enabled.hubspot,
        BackendChoiceV::ZohoCrm(_) => enabled.zoho_crm,
        BackendChoiceV::Pipedrive(_) => enabled.pipedrive,
    }
}

/// Selects an enabled backend from the configured credentials, or explains
/// which settings are missing. A backend that is not enabled is never chosen.
pub fn init_backend(
    enabled: EnabledBackends,
    salesforce_url: Option<String>,
    salesforce_token: Option<String>,
    hubspot_token: Option<String>,
    zoho_token: Option<String>,
    pipedrive_token: Option<String>,
) -> (r: Result<BackendChoice, String>)
    ensures
        match chosen(
            enabled,
            opt_text(salesforce_url),
            opt_text(salesforce_token),
            opt_text(hubspot_token),
            opt_text(zoho_token),
            opt_text(pipedrive_token),
        ) {
            Some(c) => r matches Ok(b) && b@ == c,
            None => r matches Err(m) && m@
                == "No CRM backend configured. Set one of: SALESFORCE_INSTANCE_URL+SALESFORCE_TOKEN, HUBSPOT_TOKEN, ZOHO_CRM_TOKEN, PIPEDRIVE_TOKEN"@,
        },
        r matches Ok(b) ==> is_enabled(enabled, b@),
{
    if enabled.salesforce {
        match (salesforce_url, salesforce_token) {
            (Some(u), Some(t)) => {
                return Ok(BackendChoice::Salesforce(SalesforceBackend::new(u, t)));
            },
            _ => {},
        }
    }
    if enabled.hubspot {
        match hubspot_token {
            Some(t) => {
                return Ok(BackendChoice::HubSpot(HubSpotBackend::new(t)));
            },
            None => {},
        }
    }
    if enabled.zoho_crm {
        match zoho_token {
            Some(t) => {
                return Ok(BackendChoice::ZohoCrm(ZohoCrmBackend::new(t)));
            },
            None => {},
        }
    }
    if enabled.pipedrive {
        match pipedrive_token {
            Some(t) => {
                return Ok(BackendChoice::Pipedrive(PipedriveBackend::new(t)));
            },
            None => {},
        }
    }
    Err(
        owned(
            "No CRM backend configured. Set one of: SALESFORCE_INSTANCE_URL+SALESFORCE_TOKEN, HUBSPOT_TOKEN, ZOHO_CRM_TOKEN, PIPEDRIVE_TOKEN",
        ),
    )
}

/// Whether a validated manifest may be used: it may when validation found no
/// errors; otherwise the start is refused with the number of errors.
pub fn manifest_verdict(error_count: usize) -> (r: Result<(), String>)
    ensures
        error_count == 0 ==> r is Ok,
        error_count > 0 ==> (r matches Err(m) && m@ == "invalid mcp-server.toml ("@ + dec(
            error_count as nat,
        ) + " error(s))"@),
{
    if error_count == 0 {
        return Ok(());
    }
    let mut m = owned("invalid mcp-server.toml (");
    push_dec(&mut m, error_count as u64);
    m.append(" error(s))");
    Err(m)
}

} // verus!
