//! Requests the library asks to be sent, the replies it is handed back, and
//! the steps of an operation that alternates the two.
use vstd::prelude::*;
use crate::json::{Json, JsonV};

verus! {

#[derive(Debug, Clone, Copy, PartialEq, Eq)]
pub enum Method {
    Get,
    Post,
    Patch,
    Put,
}

/// How a request carries the credential.
#[derive(Debug, PartialEq)]
pub enum Auth {
    /// `Authorization: Bearer <token>`.
    Bearer(String),
    /// A header of the given name and value.
    Header(String, String),
}

pub enum AuthV {
    Bearer(Seq<char>),
    Header(Seq<char>, Seq<char>),
}

impl View for Auth {
    type V = AuthV;

    open spec fn view(&self) -> AuthV {
        match self {
            Auth::Bearer(t) => AuthV::Bearer(t@),
            Auth::Header(n, v) => AuthV::Header(n@, v@),
        }
    }
}

/// An HTTP request. A failing status is an error; when `reads_body` holds,
/// the reply is the JSON body of the response, otherwise null.
#[derive(Debug, PartialEq)]
pub struct Request {
    pub method: Method,
    pub url: String,
    pub auth: Auth,
    pub body: Option<Json>,
    pub reads_body: bool,
}

pub struct RequestV {
    pub method: Method,
    pub url: Seq<char>,
    pub auth: AuthV,
    pub body: Option<JsonV>,
    pub reads_body: bool,
}

impl View for Request {
    type V = RequestV;

    open spec fn view(&self) -> RequestV {
        RequestV {
            method: self.method,
            url: self.url@,
            auth: self.auth@,
            body: match self.body {
                Some(b) => Some(b@),
                None => None,
            },
            reads_body: self.reads_body,
        }
    }
}

/// The failure of an operation, described by its message: a request that
/// failed, or an operation that could not be carried out (a stage that is not
/// a stage id, a clock that gives no date).
#[derive(Debug, PartialEq)]
pub struct HttpError {
    pub message: String,
}

impl View for HttpError {
    type V = Seq<char>;

    open spec fn view(&self) -> Seq<char> {
        self.message@
    }
}

impl HttpError {
    pub fn duplicate(&self) -> (r: HttpError)
        ensures
            r@ == self@,
    {
        HttpError { message: self.message.clone() }
    }
}

/// What came back for a request.
pub type Reply = Result<Json, HttpError>;

pub type ReplyV = Result<JsonV, Seq<char>>;

pub open spec fn rv(r: Reply) -> ReplyV {
    match r {
        Ok(j) => Ok(j@),
        Err(e) => Err(e@),
    }
}

/// The next thing an operation does: send a request, or finish with a result.
#[derive(Debug, PartialEq)]
pub enum Step<T> {
    Send(Request),
    Done(Result<T, HttpError>),
}

pub enum StepV<V> {
    Send(RequestV),
    Done(Result<V, Seq<char>>),
}

impl<T: DeepView> View for Step<T> {
    type V = StepV<T::V>;

    open spec fn view(&self) -> StepV<T::V> {
        match self {
            Step::Send(r) => StepV::Send(r@),
            Step::Done(Ok(t)) => StepV::Done(Ok(t.deep_view())),
            Step::Done(Err(e)) => StepV::Done(Err(e@)),
        }
    }
}

/// Finishes with the failure a reply carried.
pub fn fail<T: DeepView>(e: &HttpError) -> (r: Step<T>)
    ensures
        r@ == StepV::<T::V>::Done(Err(e@)),
{
    Step::Done(Err(e.duplicate()))
}

/// Finishes with what `f` makes of a reply, or with the reply's failure.
pub open spec fn finish<V>(r: ReplyV, f: spec_fn(JsonV) -> V) -> StepV<V> {
    match r {
        Ok(j) => StepV::Done(Ok(f(j))),
        Err(e) => StepV::Done(Err(e)),
    }
}

/// Goes on with `next` after a reply that succeeded; stops on a failure.
pub open spec fn after<V>(r: ReplyV, next: StepV<V>) -> StepV<V> {
    match r {
        Ok(_) => next,
        Err(e) => StepV::Done(Err(e)),
    }
}

} // verus!
