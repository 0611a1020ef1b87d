//! Linking customers to accounts at identity providers.
use vstd::prelude::*;
use vstd::string::*;
use crate::application::errors::{bad_request, not_found, ApplicationError, ApplicationErrorView};
use crate::application::events::{EventPayload, IdentityLinkedChangedPayload};
use crate::application::flow::{Effect, Outcome, OutcomeKind, Step};
use crate::domain::identity::{CreateIdentity, Identity};
use crate::ids::{uuid_hyphenated, uuid_to_string};
use crate::time::rfc3339_text;

verus! {

/// Request to link a provider identity.
#[derive(Debug)]
pub struct CreateIdentityRequest {
    pub provider_name: String,
    pub external_id: String,
    pub provider_id_token: Option<String>,
    pub provider_access_token: Option<String>,
    pub provider_refresh_token: Option<String>,
}

/// An identity as the API shows it.
#[derive(Debug)]
pub struct IdentityResponse {
    pub id: String,
    pub user_uuid: String,
    pub provider_name: String,
    pub external_id: String,
    pub provider_id_token: Option<String>,
    pub provider_access_token: Option<String>,
    pub provider_refresh_token: Option<String>,
    pub is_deleted: bool,
    pub created_at: String,
    pub updated_at: String,
}

/// Stored provider tokens of an identity.
#[derive(Debug)]
pub struct InvokeTokenResponse {
    pub access_token: Option<String>,
    pub refresh_token: Option<String>,
}

impl IdentityResponse {
    /// `self` shows `i`: ids as hyphenated text, instants as RFC 3339, the
    /// other fields as they are.
    pub open spec fn shows(self, i: Identity) -> bool {
        &&& self.id@ == uuid_hyphenated(i.id)
        &&& self.user_uuid@ == uuid_hyphenated(i.user_uuid)
        &&& self.provider_name == i.provider_name
        &&& self.external_id == i.external_id
        &&& self.provider_id_token == i.provider_id_token
        &&& self.provider_access_token == i.provider_access_token
        &&& self.provider_refresh_token == i.provider_refresh_token
        &&& self.is_deleted == i.is_deleted
        &&& self.created_at@ == rfc3339_text(i.created_at@.0, i.created_at@.1)
        &&& self.updated_at@ == rfc3339_text(i.updated_at@.0, i.updated_at@.1)
    }

    /// The response that shows an identity.
    pub fn from(identity: Identity) -> (r: IdentityResponse)
        ensures
            r.shows(identity),
    {
        let id = uuid_to_string(identity.id);
        let user_uuid = uuid_to_string(identity.user_uuid);
        let created_at = identity.created_at.to_rfc3339();
        let updated_at = identity.updated_at.to_rfc3339();
        IdentityResponse {
            id,
            user_uuid,
            provider_name: identity.provider_name,
            external_id: identity.external_id,
            provider_id_token: identity.provider_id_token,
            provider_access_token: identity.provider_access_token,
            provider_refresh_token: identity.provider_refresh_token,
            is_deleted: identity.is_deleted,
            created_at,
            updated_at,
        }
    }
}

/// Every response shows the identity at the same position.
pub open spec fn all_shown(rs: Seq<IdentityResponse>, ids: Seq<Identity>) -> bool {
    rs.len() == ids.len() && forall|k: int| 0 <= k < rs.len() ==> #[trigger] rs[k].shows(ids[k])
}

/// The responses for a list of identities, in the same order.
pub fn responses_of(identities: Vec<Identity>) -> (r: Vec<IdentityResponse>)
    ensures
        all_shown(r@, identities@),
{
    let ghost all = identities@;
    let mut rest = identities;
    let mut out: Vec<IdentityResponse> = Vec::new();
    while rest.len() > 0
        invariant
            out@.len() + rest@.len() == all.len(),
            rest@ == all.skip(out@.len() as int),
            forall|k: int| 0 <= k < out@.len() ==> #[trigger] out@[k].shows(all[k]),
        decreases rest@.len(),
    {
        let ghost k = out@.len() as int;
        let identity = rest.remove(0);
        assert(rest@ =~= all.skip(k + 1));
        let resp = IdentityResponse::from(identity);
        out.push(resp);
    }
    out
}

/// The event published when an identity is linked or unlinked.
pub open spec fn link_event(payload: EventPayload, user_uuid: u128, provider: Seq<char>, action: Seq<char>) -> bool {
    payload matches EventPayload::IdentityLinkedChanged(p) && p.user_uuid@ == uuid_hyphenated(user_uuid)
        && p.provider_name@ == provider && p.action@ == action
}

/// Builds the link event payload.
fn link_payload(user_uuid: u128, provider: &String, action: &str) -> (p: EventPayload)
    ensures
        link_event(p, user_uuid, provider@, action@),
{
    EventPayload::IdentityLinkedChanged(IdentityLinkedChangedPayload {
        user_uuid: uuid_to_string(user_uuid),
        provider_name: provider.clone(),
        action: String::from_str(action),
    })
}

/// The error of a failed repository call.
pub open spec fn repository_failure<T, S>(r: Step<S, T>, e: crate::domain::errors::RepositoryError) -> bool {
    r matches Step::Finish(Err(err)) && err@ == ApplicationErrorView::Repository(e@)
}

/// The step finishes with this error.
pub open spec fn fails_with<S, T>(r: Step<S, T>, err: ApplicationErrorView) -> bool {
    r matches Step::Finish(Err(e)) && e@ == err
}

/// `get_identities` / `get_identities_internal`: all active identities of a user.
#[derive(Debug)]
pub enum GetIdentitiesFlow {
    AwaitList,
}

impl GetIdentitiesFlow {
    /// Kind of outcome awaited.
    pub open spec fn awaited(self) -> OutcomeKind {
        OutcomeKind::Identities
    }

    /// Whether `resume` accepts this outcome.
    pub open spec fn accepts(self, o: Outcome) -> bool {
        o.kind_of() == self.awaited()
    }

    /// Exec form of `accepts`.
    pub fn can_resume(&self, o: &Outcome) -> (b: bool)
        ensures
            b == self.accepts(*o),
    {
        matches!(o, Outcome::Identities(_))
    }

    /// The first step of a listing: ask for the user's identities and wait
    /// for the list.
    pub open spec fn listing(user_uuid: u128) -> Step<GetIdentitiesFlow, Vec<IdentityResponse>> {
        Step::Perform(GetIdentitiesFlow::AwaitList, Effect::FindIdentitiesByUser { user_uuid })
    }

    /// Asks for the user's identities (`get_identities`).
    pub fn start(user_uuid: u128) -> (r: Step<GetIdentitiesFlow, Vec<IdentityResponse>>)
        ensures
            r == Self::listing(user_uuid),
    {
        Step::Perform(GetIdentitiesFlow::AwaitList, Effect::FindIdentitiesByUser { user_uuid })
    }

    /// The internal listing (`get_identities_internal`) is the public one:
    /// it takes the very first step that `start` takes, so it makes the same
    /// single call, `FindIdentitiesByUser` of this user, and `resume` maps the
    /// same outcome to the same result.
    pub fn start_internal(user_uuid: u128) -> (r: Step<GetIdentitiesFlow, Vec<IdentityResponse>>)
        ensures
            r == Self::listing(user_uuid),
    {
        Self::start(user_uuid)
    }

    /// Maps every identity found to its response.
    pub fn resume(self, outcome: Outcome) -> (r: Step<GetIdentitiesFlow, Vec<IdentityResponse>>)
        requires
            self.accepts(outcome),
        ensures
            outcome matches Outcome::Identities(Ok(ids)) ==> (r matches Step::Finish(Ok(rs))
                && all_shown(rs@, ids@)),
            outcome matches Outcome::Identities(Err(e)) ==> repository_failure(r, e),
    {
        match outcome {
            Outcome::Identities(Ok(ids)) => Step::Finish(Ok(responses_of(ids))),
            Outcome::Identities(Err(e)) => Step::Finish(Err(ApplicationError::Repository(e))),
            _ => vstd::pervasive::unreached(),
        }
    }
}

/// `create_identity`: links a provider identity to a user.
///
/// An active link for the same user, provider and external id is refused;
/// a soft-deleted row for the provider and external id is restored (and
/// given to the calling user); otherwise a new row is created. After a
/// restore or a create the "linked" event is published.
#[derive(Debug)]
pub enum CreateIdentityFlow {
    AwaitActive { user_uuid: u128, req: CreateIdentityRequest, topic: String },
    AwaitDeleted { user_uuid: u128, req: CreateIdentityRequest, topic: String },
    AwaitSaved { user_uuid: u128, provider_name: String, topic: String },
    AwaitPublished { response: IdentityResponse },
}

/// The tokens of a link request for `user_uuid`.
pub open spec fn tokens_of(user_uuid: u128, req: CreateIdentityRequest, t: CreateIdentity) -> bool {
    &&& t.user_uuid == user_uuid
    &&& t.provider_name == req.provider_name
    &&& t.external_id == req.external_id
    &&& t.provider_id_token == req.provider_id_token
    &&& t.provider_access_token == req.provider_access_token
    &&& t.provider_refresh_token == req.provider_refresh_token
}

impl CreateIdentityFlow {
    /// Kind of outcome awaited.
    pub open spec fn awaited(self) -> OutcomeKind {
        match self {
            CreateIdentityFlow::AwaitActive { .. } => OutcomeKind::Identity,
            CreateIdentityFlow::AwaitDeleted { .. } => OutcomeKind::Identity,
            CreateIdentityFlow::AwaitSaved { .. } => OutcomeKind::SavedIdentity,
            CreateIdentityFlow::AwaitPublished { .. } => OutcomeKind::Delivered,
        }
    }

    /// Whether `resume` accepts this outcome.
    pub open spec fn accepts(self, o: Outcome) -> bool {
        o.kind_of() == self.awaited()
    }

    /// Exec form of `accepts`.
    pub fn can_resume(&self, o: &Outcome) -> (b: bool)
        ensures
            b == self.accepts(*o),
    {
        match self {
            CreateIdentityFlow::AwaitActive { .. } => matches!(o, Outcome::Identity(_)),
            CreateIdentityFlow::AwaitDeleted { .. } => matches!(o, Outcome::Identity(_)),
            CreateIdentityFlow::AwaitSaved { .. } => matches!(o, Outcome::SavedIdentity(_)),
            CreateIdentityFlow::AwaitPublished { .. } => matches!(o, Outcome::Delivered(_)),
        }
    }

    /// The step taken from `self` on outcome `o`.
    pub open spec fn transition(self, o: Outcome, r: Step<CreateIdentityFlow, IdentityResponse>) -> bool {
        match self {
            CreateIdentityFlow::AwaitActive { user_uuid, req, topic } => match o {
                // an active link is refused
                Outcome::Identity(Ok(Some(_))) => fails_with(r, ApplicationErrorView::BadRequest("identity already linked"@)),
                // with no active link, look for a deleted one
                Outcome::Identity(Ok(None)) => match r {
                    Step::Perform(f, Effect::FindDeletedIdentity { provider, external_id }) =>
                        f == (CreateIdentityFlow::AwaitDeleted { user_uuid, req, topic })
                        && provider == req.provider_name && external_id == req.external_id,
                    _ => false,
                },
                Outcome::Identity(Err(e)) => repository_failure(r, e),
                _ => true,
            },
            CreateIdentityFlow::AwaitDeleted { user_uuid, req, topic } => {
                let next = CreateIdentityFlow::AwaitSaved { user_uuid, provider_name: req.provider_name, topic };
                match o {
                    // a deleted row is restored and given to this user
                    Outcome::Identity(Ok(Some(deleted))) => match r {
                        Step::Perform(f, Effect::RestoreIdentity { id, user_uuid: u, tokens }) =>
                            f == next && id == deleted.id && u == user_uuid && tokens_of(user_uuid, req, tokens),
                        _ => false,
                    },
                    // otherwise a fresh row is created
                    Outcome::Identity(Ok(None)) => match r {
                        Step::Perform(f, Effect::CreateIdentity { data }) => f == next && tokens_of(user_uuid, req, data),
                        _ => false,
                    },
                    Outcome::Identity(Err(e)) => repository_failure(r, e),
                    _ => true,
                }
            },
            // the saved row is announced as linked, then returned
            CreateIdentityFlow::AwaitSaved { user_uuid, provider_name, topic } => match o {
                Outcome::SavedIdentity(Ok(saved)) => match r {
                    Step::Perform(CreateIdentityFlow::AwaitPublished { response }, Effect::Publish { topic: t, payload }) =>
                        response.shows(saved) && t == topic && link_event(payload, user_uuid, provider_name@, "linked"@),
                    _ => false,
                },
                Outcome::SavedIdentity(Err(e)) => repository_failure(r, e),
                _ => true,
            },
            // whatever the publish gave, the response is returned
            CreateIdentityFlow::AwaitPublished { response } => r == Step::<CreateIdentityFlow, IdentityResponse>::Finish(Ok(response)),
        }
    }

    /// Looks for an active link of this user, provider and external id.
    pub fn start(user_uuid: u128, req: CreateIdentityRequest, topic: String) -> (r: Step<CreateIdentityFlow, IdentityResponse>)
        ensures
            match r {
                Step::Perform(f, Effect::FindActiveIdentity { user_uuid: u, provider, external_id }) =>
                    f == (CreateIdentityFlow::AwaitActive { user_uuid, req, topic })
                    && u == user_uuid && provider == req.provider_name && external_id == req.external_id,
                _ => false,
            },
    {
        let provider = req.provider_name.clone();
        let external_id = req.external_id.clone();
        Step::Perform(
            CreateIdentityFlow::AwaitActive { user_uuid, req, topic },
            Effect::FindActiveIdentity { user_uuid, provider, external_id },
        )
    }

    /// Takes the outcome of the awaited call.
    pub fn resume(self, outcome: Outcome) -> (r: Step<CreateIdentityFlow, IdentityResponse>)
        requires
            self.accepts(outcome),
        ensures
            r matches Step::Perform(f, e) ==> f.awaited() == e.answered_by(),
            self.transition(outcome, r),
    {
        match self {
            CreateIdentityFlow::AwaitActive { user_uuid, req, topic } => match outcome {
                Outcome::Identity(Ok(Some(_))) => Step::Finish(Err(bad_request("identity already linked"))),
                Outcome::Identity(Ok(None)) => {
                    let provider = req.provider_name.clone();
                    let external_id = req.external_id.clone();
                    Step::Perform(
                        CreateIdentityFlow::AwaitDeleted { user_uuid, req, topic },
                        Effect::FindDeletedIdentity { provider, external_id },
                    )
                },
                Outcome::Identity(Err(e)) => Step::Finish(Err(ApplicationError::Repository(e))),
                _ => vstd::pervasive::unreached(),
            },
            CreateIdentityFlow::AwaitDeleted { user_uuid, req, topic } => match outcome {
                Outcome::Identity(Ok(found)) => {
                    let tokens = CreateIdentity {
                        user_uuid,
                        provider_name: req.provider_name.clone(),
                        external_id: req.external_id.clone(),
                        provider_id_token: req.provider_id_token.clone(),
                        provider_access_token: req.provider_access_token.clone(),
                        provider_refresh_token: req.provider_refresh_token.clone(),
                    };
                    let next = CreateIdentityFlow::AwaitSaved { user_uuid, provider_name: req.provider_name, topic };
                    match found {
                        Some(deleted) => Step::Perform(
                            next,
                            Effect::RestoreIdentity { id: deleted.id, user_uuid, tokens },
                        ),
                        None => Step::Perform(next, Effect::CreateIdentity { data: tokens }),
                    }
                },
                Outcome::Identity(Err(e)) => Step::Finish(Err(ApplicationError::Repository(e))),
                _ => vstd::pervasive::unreached(),
            },
            CreateIdentityFlow::AwaitSaved { user_uuid, provider_name, topic } => match outcome {
                Outcome::SavedIdentity(Ok(saved)) => {
                    let payload = link_payload(user_uuid, &provider_name, "linked");
                    let response = IdentityResponse::from(saved);
                    Step::Perform(
                        CreateIdentityFlow::AwaitPublished { response },
                        Effect::Publish { topic, payload },
                    )
                },
                Outcome::SavedIdentity(Err(e)) => Step::Finish(Err(ApplicationError::Repository(e))),
                _ => vstd::pervasive::unreached(),
            },
            CreateIdentityFlow::AwaitPublished { response } => Step::Finish(Ok(response)),
        }
    }
}

} // verus!

verus! {

/// `delete_identity`: unlinks an active identity of a user.
///
/// Missing link: `NotFound`. Otherwise the row is soft-deleted, the action
/// is written to the audit log, and the "unlinked" event is published.
#[derive(Debug)]
pub enum DeleteIdentityFlow {
    AwaitActive { user_uuid: u128, provider: String, external_id: String, topic: String },
    AwaitDeleted { user_uuid: u128, provider: String, external_id: String, topic: String },
    AwaitLogged { user_uuid: u128, provider: String, topic: String },
    AwaitPublished,
}

impl DeleteIdentityFlow {
    /// Kind of outcome awaited.
    pub open spec fn awaited(self) -> OutcomeKind {
        match self {
            DeleteIdentityFlow::AwaitActive { .. } => OutcomeKind::Identity,
            DeleteIdentityFlow::AwaitDeleted { .. } => OutcomeKind::SavedIdentity,
            DeleteIdentityFlow::AwaitLogged { .. } => OutcomeKind::Stored,
            DeleteIdentityFlow::AwaitPublished => OutcomeKind::Delivered,
        }
    }

    /// Whether `resume` accepts this outcome.
    pub open spec fn accepts(self, o: Outcome) -> bool {
        o.kind_of() == self.awaited()
    }

    /// Exec form of `accepts`.
    pub fn can_resume(&self, o: &Outcome) -> (b: bool)
        ensures
            b == self.accepts(*o),
    {
        match self {
            DeleteIdentityFlow::AwaitActive { .. } => matches!(o, Outcome::Identity(_)),
            DeleteIdentityFlow::AwaitDeleted { .. } => matches!(o, Outcome::SavedIdentity(_)),
            DeleteIdentityFlow::AwaitLogged { .. } => matches!(o, Outcome::Stored(_)),
            DeleteIdentityFlow::AwaitPublished => matches!(o, Outcome::Delivered(_)),
        }
    }

    /// The step taken from `self` on outcome `o`.
    pub open spec fn transition(self, o: Outcome, r: Step<DeleteIdentityFlow, ()>) -> bool {
        match self {
            DeleteIdentityFlow::AwaitActive { user_uuid, provider, external_id, topic } => match o {
                Outcome::Identity(Ok(None)) => fails_with(r, ApplicationErrorView::NotFound("identity not found"@)),
                Outcome::Identity(Ok(Some(found))) => match r {
                    Step::Perform(f, Effect::SoftDeleteIdentity { id, user_uuid: u }) =>
                        f == (DeleteIdentityFlow::AwaitDeleted { user_uuid, provider, external_id, topic })
                        && id == found.id && u == user_uuid,
                    _ => false,
                },
                Outcome::Identity(Err(e)) => repository_failure(r, e),
                _ => true,
            },
            DeleteIdentityFlow::AwaitDeleted { user_uuid, provider, external_id, topic } => match o {
                Outcome::SavedIdentity(Ok(_)) => match r {
                    Step::Perform(f, Effect::LogIdentityTransaction { user_uuid: u, action, provider: p, external_id: x }) =>
                        f == (DeleteIdentityFlow::AwaitLogged { user_uuid, provider, topic })
                        && u == user_uuid && action@ == "delete"@ && p == provider && x == external_id,
                    _ => false,
                },
                Outcome::SavedIdentity(Err(e)) => repository_failure(r, e),
                _ => true,
            },
            DeleteIdentityFlow::AwaitLogged { user_uuid, provider, topic } => match o {
                Outcome::Stored(Ok(())) => match r {
                    Step::Perform(f, Effect::Publish { topic: t, payload }) =>
                        f == DeleteIdentityFlow::AwaitPublished && t == topic
                        && link_event(payload, user_uuid, provider@, "unlinked"@),
                    _ => false,
                },
                Outcome::Stored(Err(e)) => repository_failure(r, e),
                _ => true,
            },
            DeleteIdentityFlow::AwaitPublished => r == Step::<DeleteIdentityFlow, ()>::Finish(Ok(())),
        }
    }

    /// Looks for the active link.
    pub fn start(user_uuid: u128, provider: String, external_id: String, topic: String) -> (r: Step<DeleteIdentityFlow, ()>)
        ensures
            match r {
                Step::Perform(f, Effect::FindActiveIdentity { user_uuid: u, provider: p, external_id: x }) =>
                    f == (DeleteIdentityFlow::AwaitActive { user_uuid, provider, external_id, topic })
                    && u == user_uuid && p == provider && x == external_id,
                _ => false,
            },
    {
        let p = provider.clone();
        let x = external_id.clone();
        Step::Perform(
            DeleteIdentityFlow::AwaitActive { user_uuid, provider, external_id, topic },
            Effect::FindActiveIdentity { user_uuid, provider: p, external_id: x },
        )
    }

    /// Takes the outcome of the awaited call.
    pub fn resume(self, outcome: Outcome) -> (r: Step<DeleteIdentityFlow, ()>)
        requires
            self.accepts(outcome),
        ensures
            r matches Step::Perform(f, e) ==> f.awaited() == e.answered_by(),
            self.transition(outcome, r),
    {
        match self {
            DeleteIdentityFlow::AwaitActive { user_uuid, provider, external_id, topic } => match outcome {
                Outcome::Identity(Ok(Some(found))) => Step::Perform(
                    DeleteIdentityFlow::AwaitDeleted { user_uuid, provider, external_id, topic },
                    Effect::SoftDeleteIdentity { id: found.id, user_uuid },
                ),
                Outcome::Identity(Ok(None)) => Step::Finish(Err(not_found("identity not found"))),
                Outcome::Identity(Err(e)) => Step::Finish(Err(ApplicationError::Repository(e))),
                _ => vstd::pervasive::unreached(),
            },
            DeleteIdentityFlow::AwaitDeleted { user_uuid, provider, external_id, topic } => match outcome {
                Outcome::SavedIdentity(Ok(_)) => {
                    let p = provider.clone();
                    Step::Perform(
                        DeleteIdentityFlow::AwaitLogged { user_uuid, provider, topic },
                        Effect::LogIdentityTransaction {
                            user_uuid,
                            action: String::from_str("delete"),
                            provider: p,
                            external_id,
                        },
                    )
                },
                Outcome::SavedIdentity(Err(e)) => Step::Finish(Err(ApplicationError::Repository(e))),
                _ => vstd::pervasive::unreached(),
            },
            DeleteIdentityFlow::AwaitLogged { user_uuid, provider, topic } => match outcome {
                Outcome::Stored(Ok(())) => {
                    let payload = link_payload(user_uuid, &provider, "unlinked");
                    Step::Perform(DeleteIdentityFlow::AwaitPublished, Effect::Publish { topic, payload })
                },
                Outcome::Stored(Err(e)) => Step::Finish(Err(ApplicationError::Repository(e))),
                _ => vstd::pervasive::unreached(),
            },
            DeleteIdentityFlow::AwaitPublished => Step::Finish(Ok(())),
        }
    }
}

/// Position of the first identity of the given provider.
pub open spec fn first_of_provider(ids: Seq<Identity>, provider: Seq<char>) -> Option<int> {
    if exists|k: int| 0 <= k < ids.len() && #[trigger] ids[k].provider_name@ == provider {
        Some(choose|k: int| 0 <= k < ids.len() && ids[k].provider_name@ == provider
            && forall|j: int| 0 <= j < k ==> #[trigger] ids[j].provider_name@ != provider)
    } else {
        None
    }
}

/// The message of a missing provider link.
pub open spec fn no_identity_message(provider: Seq<char>) -> Seq<char> {
    "no active identity found for provider '"@ + provider + "'"@
}

/// Finds the first identity of a provider.
pub fn find_first_of_provider(ids: &Vec<Identity>, provider: &String) -> (r: Option<usize>)
    ensures
        r matches Some(k) ==> k < ids@.len() && ids@[k as int].provider_name@ == provider@
            && forall|j: int| 0 <= j < k ==> #[trigger] ids@[j].provider_name@ != provider@,
        r is None ==> forall|j: int| 0 <= j < ids@.len() ==> #[trigger] ids@[j].provider_name@ != provider@,
{
    let mut k: usize = 0;
    while k < ids.len()
        invariant
            k <= ids@.len(),
            forall|j: int| 0 <= j < k ==> #[trigger] ids@[j].provider_name@ != provider@,
        decreases ids@.len() - k,
    {
        if ids[k].provider_name == *provider {
            return Some(k);
        }
        k = k + 1;
    }
    None
}

/// `invoke_token`: the stored tokens of the user's first identity at a provider.
#[derive(Debug)]
pub enum InvokeTokenFlow {
    AwaitList { provider_name: String },
}

impl InvokeTokenFlow {
    /// Kind of outcome awaited.
    pub open spec fn awaited(self) -> OutcomeKind {
        OutcomeKind::Identities
    }

    /// Whether `resume` accepts this outcome.
    pub open spec fn accepts(self, o: Outcome) -> bool {
        o.kind_of() == self.awaited()
    }

    /// Exec form of `accepts`.
    pub fn can_resume(&self, o: &Outcome) -> (b: bool)
        ensures
            b == self.accepts(*o),
    {
        matches!(o, Outcome::Identities(_))
    }

    /// Asks for the user's identities.
    pub fn start(user_uuid: u128, provider_name: String) -> (r: Step<InvokeTokenFlow, InvokeTokenResponse>)
        ensures
            r == Step::<InvokeTokenFlow, InvokeTokenResponse>::Perform(
                InvokeTokenFlow::AwaitList { provider_name },
                Effect::FindIdentitiesByUser { user_uuid },
            ),
    {
        Step::Perform(InvokeTokenFlow::AwaitList { provider_name }, Effect::FindIdentitiesByUser { user_uuid })
    }

    /// Picks the first identity of the provider and returns its tokens;
    /// `NotFound` when the user has none.
    pub fn resume(self, outcome: Outcome) -> (r: Step<InvokeTokenFlow, InvokeTokenResponse>)
        requires
            self.accepts(outcome),
        ensures
            outcome matches Outcome::Identities(Err(e)) ==> repository_failure(r, e),
            outcome matches Outcome::Identities(Ok(ids)) ==> {
                let provider = self->AwaitList_provider_name@;
                match first_of_provider(ids@, provider) {
                    Some(k) => r matches Step::Finish(Ok(t)) && t.access_token == ids@[k].provider_access_token
                        && t.refresh_token == ids@[k].provider_refresh_token,
                    None => fails_with(r, ApplicationErrorView::NotFound(no_identity_message(provider))),
                }
            },
    {
        let InvokeTokenFlow::AwaitList { provider_name } = self;
        match outcome {
            Outcome::Identities(Ok(ids)) => {
                let found = find_first_of_provider(&ids, &provider_name);
                proof {
                    let provider = provider_name@;
                    if let Some(k) = found {
                        assert(exists|m: int| 0 <= m < ids@.len() && #[trigger] ids@[m].provider_name@ == provider);
                        let c = choose|m: int| 0 <= m < ids@.len() && ids@[m].provider_name@ == provider
                            && forall|j: int| 0 <= j < m ==> #[trigger] ids@[j].provider_name@ != provider;
                        assert(ids@[k as int].provider_name@ == provider);
                        if c < k {
                            assert(ids@[c].provider_name@ != provider);
                        }
                        if k < c {
                            assert(ids@[k as int].provider_name@ != provider);
                        }
                        assert(c == k);
                    }
                }
                match found {
                    Some(k) => {
                        let mut ids = ids;
                        let identity = ids.swap_remove(k);
                        Step::Finish(Ok(InvokeTokenResponse {
                            access_token: identity.provider_access_token,
                            refresh_token: identity.provider_refresh_token,
                        }))
                    },
                    None => {
                        let mut msg = String::from_str("no active identity found for provider '");
                        msg.append(provider_name.as_str());
                        msg.append("'");
                        Step::Finish(Err(ApplicationError::NotFound(msg)))
                    },
                }
            },
            Outcome::Identities(Err(e)) => Step::Finish(Err(ApplicationError::Repository(e))),
            _ => vstd::pervasive::unreached(),
        }
    }
}

/// The identity row that linking creates, or restores from a deleted row,
/// belongs to the caller and holds the request's provider, external id and
/// tokens, each in its own field: the access token as the access token, the
/// refresh token as the refresh token, the id token as the id token.
pub proof fn link_stores_the_request_tokens(
    user_uuid: u128,
    req: CreateIdentityRequest,
    topic: String,
    o: Outcome,
    r: Step<CreateIdentityFlow, IdentityResponse>,
)
    requires
        ({
            let f = CreateIdentityFlow::AwaitDeleted { user_uuid, req, topic };
            f.accepts(o) && f.transition(o, r)
        }),
    ensures
        r matches Step::Perform(_, Effect::CreateIdentity { data }) ==> {
            &&& data.user_uuid == user_uuid
            &&& data.provider_name == req.provider_name
            &&& data.external_id == req.external_id
            &&& data.provider_id_token == req.provider_id_token
            &&& data.provider_access_token == req.provider_access_token
            &&& data.provider_refresh_token == req.provider_refresh_token
        },
        r matches Step::Perform(_, Effect::RestoreIdentity { id, user_uuid: u, tokens }) ==> {
            &&& o matches Outcome::Identity(Ok(Some(deleted))) && id == deleted.id
            &&& u == user_uuid
            &&& tokens.user_uuid == user_uuid
            &&& tokens.provider_name == req.provider_name
            &&& tokens.external_id == req.external_id
            &&& tokens.provider_id_token == req.provider_id_token
            &&& tokens.provider_access_token == req.provider_access_token
            &&& tokens.provider_refresh_token == req.provider_refresh_token
        },
{
}

} // verus!
