//! The two request handlers, as decisions over plain values: what a create
//! request leads to, and what a redirect answers for what the store returned.

use crate::auth::{authorize, authorized};
use crate::ident::{is_owner_secret, is_slug, new_owner_secret, new_slug};
use vstd::prelude::*;

verus! {

/// What is persisted under a slug.
#[derive(Debug, Clone, PartialEq, Eq)]
pub struct Record {
    /// The redirect destination, echoed verbatim.
    pub target: String,
    /// The secret minted for the creator of this entry.
    pub owner_secret: String,
}

pub struct RecordView {
    pub target: Seq<char>,
    pub owner_secret: Seq<char>,
}

impl View for Record {
    type V = RecordView;

    open spec fn view(&self) -> RecordView {
        RecordView { target: self.target@, owner_secret: self.owner_secret@ }
    }
}

/// The body of a create request.
#[derive(Debug, Clone, PartialEq, Eq)]
pub struct CreateRequest {
    pub master_secret: Option<String>,
    pub target: String,
}

pub struct CreateRequestView {
    pub master_secret: Option<Seq<char>>,
    pub target: Seq<char>,
}

impl View for CreateRequest {
    type V = CreateRequestView;

    open spec fn view(&self) -> CreateRequestView {
        CreateRequestView { master_secret: self.master_secret.deep_view(), target: self.target@ }
    }
}

/// The body answered to a successful create request.
#[derive(Debug, Clone, PartialEq, Eq)]
pub struct CreateReply {
    pub slug: String,
    pub owner_secret: String,
}

pub struct CreateReplyView {
    pub slug: Seq<char>,
    pub owner_secret: Seq<char>,
}

impl View for CreateReply {
    type V = CreateReplyView;

    open spec fn view(&self) -> CreateReplyView {
        CreateReplyView { slug: self.slug@, owner_secret: self.owner_secret@ }
    }
}

/// What a create request leads to: a refusal, or one record to be written
/// under a freshly minted slug.
#[derive(Debug, Clone, PartialEq, Eq)]
pub enum CreateDecision {
    Forbidden,
    Store { slug: String, record: Record },
}

pub enum CreateDecisionView {
    Forbidden,
    Store { slug: Seq<char>, record: RecordView },
}

impl View for CreateDecision {
    type V = CreateDecisionView;

    open spec fn view(&self) -> CreateDecisionView {
        match self {
            CreateDecision::Forbidden => CreateDecisionView::Forbidden,
            CreateDecision::Store { slug, record } => CreateDecisionView::Store {
                slug: slug@,
                record: record@,
            },
        }
    }
}

/// What reading a slug from the store gave.
#[derive(Debug, Clone, PartialEq, Eq)]
pub enum Lookup {
    /// A record was stored under the slug and decoded.
    Found(Record),
    /// Nothing is stored under the slug.
    Missing,
    /// Bytes are stored under the slug but do not decode to a record.
    Corrupt,
    /// The store could not be read.
    Failed,
}

pub enum LookupView {
    Found(RecordView),
    Missing,
    Corrupt,
    Failed,
}

impl View for Lookup {
    type V = LookupView;

    open spec fn view(&self) -> LookupView {
        match self {
            Lookup::Found(r) => LookupView::Found(r@),
            Lookup::Missing => LookupView::Missing,
            Lookup::Corrupt => LookupView::Corrupt,
            Lookup::Failed => LookupView::Failed,
        }
    }
}

/// The answer to a request; every variant but `Found` and `Created` has an
/// empty body.
#[derive(Debug, Clone, PartialEq, Eq)]
pub enum Response {
    /// A redirect to `location`.
    Found { location: String },
    NotFound,
    Created(CreateReply),
    Forbidden,
    BadRequest,
    ServerError,
}

pub enum ResponseView {
    Found { location: Seq<char> },
    NotFound,
    Created(CreateReplyView),
    Forbidden,
    BadRequest,
    ServerError,
}

impl View for Response {
    type V = ResponseView;

    open spec fn view(&self) -> ResponseView {
        match self {
            Response::Found { location } => ResponseView::Found { location: location@ },
            Response::NotFound => ResponseView::NotFound,
            Response::Created(c) => ResponseView::Created(c@),
            Response::Forbidden => ResponseView::Forbidden,
            Response::BadRequest => ResponseView::BadRequest,
            Response::ServerError => ResponseView::ServerError,
        }
    }
}

/// The record written for `target` under `slug` with `owner_secret`.
pub open spec fn entry_of(
    target: Seq<char>,
    slug: Seq<char>,
    owner_secret: Seq<char>,
) -> CreateDecisionView {
    CreateDecisionView::Store {
        slug,
        record: RecordView { target, owner_secret },
    }
}

/// What a create request leads to once `slug` and `owner_secret` are minted.
pub open spec fn decision_of(
    master: Option<Seq<char>>,
    request: CreateRequestView,
    slug: Seq<char>,
    owner_secret: Seq<char>,
) -> CreateDecisionView {
    if authorized(master, request.master_secret) {
        entry_of(request.target, slug, owner_secret)
    } else {
        CreateDecisionView::Forbidden
    }
}

/// The answer to a create request whose record was written under `slug`
/// (`stored`) or could not be written.
pub open spec fn created_of(slug: Seq<char>, record: RecordView, stored: bool) -> ResponseView {
    if stored {
        ResponseView::Created(CreateReplyView { slug, owner_secret: record.owner_secret })
    } else {
        ResponseView::ServerError
    }
}

/// The answer to a redirect request, given what the store held for its slug.
pub open spec fn redirect_of(lookup: LookupView) -> ResponseView {
    match lookup {
        LookupView::Found(r) => ResponseView::Found { location: r.target },
        LookupView::Missing => ResponseView::NotFound,
        LookupView::Corrupt => ResponseView::ServerError,
        LookupView::Failed => ResponseView::ServerError,
    }
}

/// The HTTP status code of a response.
pub open spec fn status_of(r: ResponseView) -> u16 {
    match r {
        ResponseView::Found { .. } => 302,
        ResponseView::NotFound => 404,
        ResponseView::Created(_) => 201,
        ResponseView::Forbidden => 403,
        ResponseView::BadRequest => 400,
        ResponseView::ServerError => 500,
    }
}

impl Response {
    /// The HTTP status code to send.
    pub fn status(&self) -> (s: u16)
        ensures
            s == status_of(self@),
    {
        match self {
            Response::Found { .. } => 302,
            Response::NotFound => 404,
            Response::Created(_) => 201,
            Response::Forbidden => 403,
            Response::BadRequest => 400,
            Response::ServerError => 500,
        }
    }
}

/// The record to write for `target` under `slug`, owned through `owner_secret`.
pub fn store_entry(target: &String, slug: String, owner_secret: String) -> (d: CreateDecision)
    ensures
        d@ == entry_of(target@, slug@, owner_secret@),
{
    CreateDecision::Store { slug, record: Record { target: target.clone(), owner_secret } }
}

/// Decides a create request. A request that the master secret does not
/// admit is refused before anything is minted; otherwise a fresh slug and
/// owner secret are minted and the record pairing the owner secret with the
/// request's target is to be written under the slug.
pub fn create(master: &Option<String>, request: &CreateRequest) -> (d: CreateDecision)
    ensures
        match d@ {
            CreateDecisionView::Forbidden => !authorized(master.deep_view(), request@.master_secret),
            CreateDecisionView::Store { slug, record } => {
                &&& d@ == decision_of(master.deep_view(), request@, slug, record.owner_secret)
                &&& authorized(master.deep_view(), request@.master_secret)
                &&& is_slug(slug)
                &&& is_owner_secret(record.owner_secret)
            },
        },
{
    if !authorize(master, &request.master_secret) {
        return CreateDecision::Forbidden;
    }
    let slug = new_slug();
    let owner_secret = new_owner_secret();
    store_entry(&request.target, slug, owner_secret)
}

/// The answer to a create request once the store write for `record` under
/// `slug` has succeeded (`stored`) or failed.
pub fn finish_create(slug: String, record: &Record, stored: bool) -> (r: Response)
    ensures
        r@ == created_of(slug@, record@, stored),
{
    if stored {
        Response::Created(CreateReply { slug, owner_secret: record.owner_secret.clone() })
    } else {
        Response::ServerError
    }
}

/// The answer to a redirect request: a redirect to the stored target, not
/// found when nothing is stored, a server error when the store failed or
/// holds bytes that are no record.
pub fn redirect(lookup: Lookup) -> (r: Response)
    ensures
        r@ == redirect_of(lookup@),
{
    match lookup {
        Lookup::Found(record) => Response::Found { location: record.target },
        Lookup::Missing => Response::NotFound,
        Lookup::Corrupt => Response::ServerError,
        Lookup::Failed => Response::ServerError,
    }
}

/// A created link resolves to what was submitted: when a request is admitted,
/// the record written under the minted slug redirects to the request's
/// target, and the creator is answered that slug and the owner secret stored
/// in the record.
pub proof fn lemma_created_link_resolves_to_target(
    master: Option<Seq<char>>,
    request: CreateRequestView,
    slug: Seq<char>,
    owner_secret: Seq<char>,
)
    requires
        authorized(master, request.master_secret),
    ensures
        decision_of(master, request, slug, owner_secret) matches CreateDecisionView::Store {
            slug: s,
            record,
        } && s == slug && redirect_of(LookupView::Found(record)) == (ResponseView::Found {
            location: request.target,
        }) && created_of(s, record, true) == ResponseView::Created(
            CreateReplyView { slug, owner_secret },
        ),
{
}

/// With a master secret configured, a request that omits it or carries any
/// other value is refused, and nothing is to be written.
pub proof fn lemma_wrong_secret_refused(
    master: Seq<char>,
    request: CreateRequestView,
    slug: Seq<char>,
    owner_secret: Seq<char>,
)
    requires
        request.master_secret != Some(master),
    ensures
        decision_of(Some(master), request, slug, owner_secret) == CreateDecisionView::Forbidden,
{
}

/// Without a master secret every create request is admitted, whatever
/// secret it carries.
pub proof fn lemma_open_without_master(
    request: CreateRequestView,
    slug: Seq<char>,
    owner_secret: Seq<char>,
)
    ensures
        decision_of(None, request, slug, owner_secret) == entry_of(
            request.target,
            slug,
            owner_secret,
        ),
{
}

/// A slug under which nothing is stored answers not found.
pub proof fn lemma_missing_slug_not_found()
    ensures
        status_of(redirect_of(LookupView::Missing)) == 404,
{
}

} // verus!
