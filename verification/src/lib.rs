//! A unified CRM library: one schema for contacts, companies, deals,
//! activities, pipelines and notes over several CRM services.
pub mod json;
pub mod text;
pub mod urlencoding;
pub mod http;
pub mod types;
pub mod hubspot;
pub mod pipedrive;
pub mod zoho_crm;
pub mod salesforce;
pub mod server;
