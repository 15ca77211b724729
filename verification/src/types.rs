//! The unified CRM records that every backend returns.
use vstd::prelude::*;
use crate::json::{Json, JsonV};
use crate::text::{copy_opt, opt_string_view};

verus! {

/// A person in the CRM.
#[derive(Debug, PartialEq)]
pub struct Contact {
    pub id: String,
    pub first_name: Option<String>,
    pub last_name: Option<String>,
    pub email: Option<String>,
    pub phone: Option<String>,
    pub company_id: Option<String>,
    pub company_name: Option<String>,
    pub title: Option<String>,
    /// The name of the backend the record came from.
    pub backend: String,
}

/// The value of a [`Contact`].
pub struct ContactV {
    pub id: Seq<char>,
    pub first_name: Option<Seq<char>>,
    pub last_name: Option<Seq<char>>,
    pub email: Option<Seq<char>>,
    pub phone: Option<Seq<char>>,
    pub company_id: Option<Seq<char>>,
    pub company_name: Option<Seq<char>>,
    pub title: Option<Seq<char>>,
    pub backend: Seq<char>,
}

impl View for Contact {
    type V = ContactV;

    open spec fn view(&self) -> ContactV {
        ContactV {
            id: self.id@,
            first_name: opt_string_view(self.first_name),
            last_name: opt_string_view(self.last_name),
            email: opt_string_view(self.email),
            phone: opt_string_view(self.phone),
            company_id: opt_string_view(self.company_id),
            company_name: opt_string_view(self.company_name),
            title: opt_string_view(self.title),
            backend: self.backend@,
        }
    }
}

impl DeepView for Contact {
    type V = ContactV;

    open spec fn deep_view(&self) -> ContactV {
        self.view()
    }
}

/// An organisation (account) in the CRM.
#[derive(Debug, PartialEq)]
pub struct Company {
    pub id: String,
    pub name: String,
    pub domain: Option<String>,
    pub industry: Option<String>,
    pub phone: Option<String>,
    pub city: Option<String>,
    pub country: Option<String>,
    /// The name of the backend the record came from.
    pub backend: String,
}

/// The value of a [`Company`].
pub struct CompanyV {
    pub id: Seq<char>,
    pub name: Seq<char>,
    pub domain: Option<Seq<char>>,
    pub industry: Option<Seq<char>>,
    pub phone: Option<Seq<char>>,
    pub city: Option<Seq<char>>,
    pub country: Option<Seq<char>>,
    pub backend: Seq<char>,
}

impl View for Company {
    type V = CompanyV;

    open spec fn view(&self) -> CompanyV {
        CompanyV {
            id: self.id@,
            name: self.name@,
            domain: opt_string_view(self.domain),
            industry: opt_string_view(self.industry),
            phone: opt_string_view(self.phone),
            city: opt_string_view(self.city),
            country: opt_string_view(self.country),
            backend: self.backend@,
        }
    }
}

impl DeepView for Company {
    type V = CompanyV;

    open spec fn deep_view(&self) -> CompanyV {
        self.view()
    }
}

/// A deal (opportunity).
#[derive(Debug, PartialEq)]
pub struct Deal {
    pub id: String,
    pub name: String,
    pub stage: Option<String>,
    pub pipeline: Option<String>,
    /// The decimal text of the amount; its floating-point value is read from it.
    pub amount: Option<String>,
    pub currency: Option<String>,
    pub contact_id: Option<String>,
    pub company_id: Option<String>,
    pub close_date: Option<String>,
    /// The decimal text of the probability; its floating-point value is read from it.
    pub probability: Option<String>,
    pub status: Option<String>,
    /// The name of the backend the record came from.
    pub backend: String,
}

/// The value of a [`Deal`].
pub struct DealV {
    pub id: Seq<char>,
    pub name: Seq<char>,
    pub stage: Option<Seq<char>>,
    pub pipeline: Option<Seq<char>>,
    pub amount: Option<Seq<char>>,
    pub currency: Option<Seq<char>>,
    pub contact_id: Option<Seq<char>>,
    pub company_id: Option<Seq<char>>,
    pub close_date: Option<Seq<char>>,
    pub probability: Option<Seq<char>>,
    pub status: Option<Seq<char>>,
    pub backend: Seq<char>,
}

impl View for Deal {
    type V = DealV;

    open spec fn view(&self) -> DealV {
        DealV {
            id: self.id@,
            name: self.name@,
            stage: opt_string_view(self.stage),
            pipeline: opt_string_view(self.pipeline),
            amount: opt_string_view(self.amount),
            currency: opt_string_view(self.currency),
            contact_id: opt_string_view(self.contact_id),
            company_id: opt_string_view(self.company_id),
            close_date: opt_string_view(self.close_date),
            probability: opt_string_view(self.probability),
            status: opt_string_view(self.status),
            backend: self.backend@,
        }
    }
}

impl DeepView for Deal {
    type V = DealV;

    open spec fn deep_view(&self) -> DealV {
        self.view()
    }
}

/// A call, email, meeting or task.
#[derive(Debug, PartialEq)]
pub struct Activity {
    pub id: String,
    pub activity_type: String,
    pub subject: Option<String>,
    pub body: Option<String>,
    pub contact_id: Option<String>,
    pub deal_id: Option<String>,
    pub done: bool,
    pub due_date: Option<String>,
    /// The name of the backend the record came from.
    pub backend: String,
}

/// The value of a [`Activity`].
pub struct ActivityV {
    pub id: Seq<char>,
    pub activity_type: Seq<char>,
    pub subject: Option<Seq<char>>,
    pub body: Option<Seq<char>>,
    pub contact_id: Option<Seq<char>>,
    pub deal_id: Option<Seq<char>>,
    pub done: bool,
    pub due_date: Option<Seq<char>>,
    pub backend: Seq<char>,
}

impl View for Activity {
    type V = ActivityV;

    open spec fn view(&self) -> ActivityV {
        ActivityV {
            id: self.id@,
            activity_type: self.activity_type@,
            subject: opt_string_view(self.subject),
            body: opt_string_view(self.body),
            contact_id: opt_string_view(self.contact_id),
            deal_id: opt_string_view(self.deal_id),
            done: self.done,
            due_date: opt_string_view(self.due_date),
            backend: self.backend@,
        }
    }
}

impl DeepView for Activity {
    type V = ActivityV;

    open spec fn deep_view(&self) -> ActivityV {
        self.view()
    }
}

/// One stage of a sales pipeline.
#[derive(Debug, PartialEq)]
pub struct PipelineStage {
    pub id: String,
    pub name: String,
    pub order: u32,
    pub deal_count: Option<u32>,
    /// The decimal text of the total value of the stage's deals.
    pub total_value: Option<String>,
}

/// The value of a [`PipelineStage`].
pub struct PipelineStageV {
    pub id: Seq<char>,
    pub name: Seq<char>,
    pub order: u32,
    pub deal_count: Option<u32>,
    pub total_value: Option<Seq<char>>,
}

impl View for PipelineStage {
    type V = PipelineStageV;

    open spec fn view(&self) -> PipelineStageV {
        PipelineStageV {
            id: self.id@,
            name: self.name@,
            order: self.order,
            deal_count: self.deal_count,
            total_value: opt_string_view(self.total_value),
        }
    }
}

impl DeepView for PipelineStage {
    type V = PipelineStageV;

    open spec fn deep_view(&self) -> PipelineStageV {
        self.view()
    }
}

/// A sales pipeline with its stages.
#[derive(Debug, PartialEq)]
pub struct Pipeline {
    pub id: String,
    pub name: String,
    pub stages: Vec<PipelineStage>,
    /// The name of the backend the record came from.
    pub backend: String,
}

/// The value of a [`Pipeline`].
pub struct PipelineV {
    pub id: Seq<char>,
    pub name: Seq<char>,
    pub stages: Seq<PipelineStageV>,
    pub backend: Seq<char>,
}

impl View for Pipeline {
    type V = PipelineV;

    open spec fn view(&self) -> PipelineV {
        PipelineV {
            id: self.id@,
            name: self.name@,
            stages: self.stages.deep_view(),
            backend: self.backend@,
        }
    }
}

impl DeepView for Pipeline {
    type V = PipelineV;

    open spec fn deep_view(&self) -> PipelineV {
        self.view()
    }
}

/// A note attached to a record.
#[derive(Debug, PartialEq)]
pub struct Note {
    pub id: String,
    pub content: String,
    pub contact_id: Option<String>,
    pub company_id: Option<String>,
    pub deal_id: Option<String>,
    pub created_at: Option<String>,
    /// The name of the backend the record came from.
    pub backend: String,
}

/// The value of a [`Note`].
pub struct NoteV {
    pub id: Seq<char>,
    pub content: Seq<char>,
    pub contact_id: Option<Seq<char>>,
    pub company_id: Option<Seq<char>>,
    pub deal_id: Option<Seq<char>>,
    pub created_at: Option<Seq<char>>,
    pub backend: Seq<char>,
}

impl View for Note {
    type V = NoteV;

    open spec fn view(&self) -> NoteV {
        NoteV {
            id: self.id@,
            content: self.content@,
            contact_id: opt_string_view(self.contact_id),
            company_id: opt_string_view(self.company_id),
            deal_id: opt_string_view(self.deal_id),
            created_at: opt_string_view(self.created_at),
            backend: self.backend@,
        }
    }
}

impl DeepView for Note {
    type V = NoteV;

    open spec fn deep_view(&self) -> NoteV {
        self.view()
    }
}

impl Contact {
    /// A copy of the contact.
    pub fn duplicate(&self) -> (r: Contact)
        ensures
            r@ == self@,
    {
        Contact {
            id: self.id.clone(),
            first_name: copy_opt(&self.first_name),
            last_name: copy_opt(&self.last_name),
            email: copy_opt(&self.email),
            phone: copy_opt(&self.phone),
            company_id: copy_opt(&self.company_id),
            company_name: copy_opt(&self.company_name),
            title: copy_opt(&self.title),
            backend: self.backend.clone(),
        }
    }
}

/// An amount handed to a deal operation: its JSON numeral (none for a value
/// that is not finite, which JSON writes as null) and its decimal display text.
#[derive(Debug, PartialEq)]
pub struct Amount {
    pub number: Option<String>,
    pub text: String,
}

pub struct AmountV {
    pub number: Option<Seq<char>>,
    pub text: Seq<char>,
}

impl View for Amount {
    type V = AmountV;

    open spec fn view(&self) -> AmountV {
        AmountV { number: opt_string_view(self.number), text: self.text@ }
    }
}

/// The JSON value of an amount: its numeral, or null.
pub open spec fn amount_json(a: AmountV) -> JsonV {
    match a.number {
        Some(t) => JsonV::Number(t),
        None => JsonV::Null,
    }
}

impl Amount {
    /// The JSON value of the amount.
    pub fn to_json(&self) -> (r: Json)
        ensures
            r@ == amount_json(self@),
    {
        match &self.number {
            Some(t) => Json::Number(t.clone()),
            None => Json::Null,
        }
    }
}

pub open spec fn amount_view(a: Option<&Amount>) -> Option<AmountV> {
    match a {
        Some(x) => Some(x@),
        None => None,
    }
}

} // verus!
