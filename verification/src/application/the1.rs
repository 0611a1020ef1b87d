//! Reading a customer's The1 membership.
use vstd::prelude::*;
use crate::application::errors::{not_found, ApplicationError, ApplicationErrorView};
use crate::application::flow::{Effect, Outcome, OutcomeKind, Step};
use crate::application::identities::{fails_with, repository_failure};
use crate::domain::the1_user::{The1User, Tier};
use crate::ids::{uuid_hyphenated, uuid_to_string};
use crate::time::{rfc3339_text, Timestamp};

verus! {

/// A tier as the API shows it.
#[derive(Debug)]
pub struct TierResponse {
    pub id: String,
    pub code: String,
    pub name: Option<String>,
    pub expired_date: Option<Timestamp>,
}

/// A The1 membership as the API shows it.
#[derive(Debug)]
pub struct The1AccountResponse {
    pub id: String,
    pub user_uuid: u128,
    pub member_id: String,
    pub account_id: String,
    pub profile_id: String,
    pub card_number: Option<String>,
    pub tiers: Vec<TierResponse>,
    pub created_at: String,
    pub updated_at: String,
}

impl TierResponse {
    /// `self` shows `t`: the id as hyphenated text, the rest as it is.
    pub open spec fn shows(self, t: Tier) -> bool {
        &&& self.id@ == uuid_hyphenated(t.id)
        &&& self.code == t.code
        &&& self.name == t.name
        &&& self.expired_date == t.expired_date
    }

    /// The response that shows a tier.
    pub fn from(t: Tier) -> (r: TierResponse)
        ensures
            r.shows(t),
    {
        TierResponse { id: uuid_to_string(t.id), code: t.code, name: t.name, expired_date: t.expired_date }
    }
}

/// Every tier response shows the tier at the same position.
pub open spec fn tiers_shown(rs: Seq<TierResponse>, ts: Seq<Tier>) -> bool {
    rs.len() == ts.len() && forall|k: int| 0 <= k < rs.len() ==> #[trigger] rs[k].shows(ts[k])
}

/// The responses for a list of tiers, in the same order.
pub fn tier_responses(tiers: Vec<Tier>) -> (r: Vec<TierResponse>)
    ensures
        tiers_shown(r@, tiers@),
{
    let ghost all = tiers@;
    let mut rest = tiers;
    let mut out: Vec<TierResponse> = Vec::new();
    while rest.len() > 0
        invariant
            out@.len() + rest@.len() == all.len(),
            rest@ == all.skip(out@.len() as int),
            forall|k: int| 0 <= k < out@.len() ==> #[trigger] out@[k].shows(all[k]),
        decreases rest@.len(),
    {
        let ghost k = out@.len() as int;
        let t = rest.remove(0);
        assert(rest@ =~= all.skip(k + 1));
        out.push(TierResponse::from(t));
    }
    out
}

impl The1AccountResponse {
    /// `self` shows `u`: ids as hyphenated text, instants as RFC 3339, tiers
    /// in order, the other fields as they are.
    pub open spec fn shows(self, u: The1User) -> bool {
        &&& self.id@ == uuid_hyphenated(u.id)
        &&& self.user_uuid == u.user_uuid
        &&& self.member_id == u.member_id
        &&& self.account_id == u.account_id
        &&& self.profile_id == u.profile_id
        &&& self.card_number == u.card_number
        &&& tiers_shown(self.tiers@, u.tiers@)
        &&& self.created_at@ == rfc3339_text(u.created_at@.0, u.created_at@.1)
        &&& self.updated_at@ == rfc3339_text(u.updated_at@.0, u.updated_at@.1)
    }

    /// The response that shows a membership.
    pub fn from(user: The1User) -> (r: The1AccountResponse)
        ensures
            r.shows(user),
    {
        let id = uuid_to_string(user.id);
        let created_at = user.created_at.to_rfc3339();
        let updated_at = user.updated_at.to_rfc3339();
        The1AccountResponse {
            id,
            user_uuid: user.user_uuid,
            member_id: user.member_id,
            account_id: user.account_id,
            profile_id: user.profile_id,
            card_number: user.card_number,
            tiers: tier_responses(user.tiers),
            created_at,
            updated_at,
        }
    }
}

/// `get_the1_account`: the membership of a user; `NotFound` when none is
/// linked yet.
#[derive(Debug)]
pub enum GetThe1AccountFlow {
    AwaitMembership,
}

impl GetThe1AccountFlow {
    /// Kind of outcome awaited.
    pub open spec fn awaited(self) -> OutcomeKind {
        OutcomeKind::The1User
    }

    /// Whether `resume` accepts this outcome.
    pub open spec fn accepts(self, o: Outcome) -> bool {
        o.kind_of() == self.awaited()
    }

    /// Exec form of `accepts`.
    pub fn can_resume(&self, o: &Outcome) -> (b: bool)
        ensures
            b == self.accepts(*o),
    {
        matches!(o, Outcome::The1User(_))
    }

    /// Asks for the user's membership.
    pub fn start(user_uuid: u128) -> (r: Step<GetThe1AccountFlow, The1AccountResponse>)
        ensures
            r == Step::<GetThe1AccountFlow, The1AccountResponse>::Perform(
                GetThe1AccountFlow::AwaitMembership,
                Effect::FindThe1ByUser { user_uuid },
            ),
    {
        Step::Perform(GetThe1AccountFlow::AwaitMembership, Effect::FindThe1ByUser { user_uuid })
    }

    /// Shows the membership found.
    pub fn resume(self, outcome: Outcome) -> (r: Step<GetThe1AccountFlow, The1AccountResponse>)
        requires
            self.accepts(outcome),
        ensures
            outcome matches Outcome::The1User(Ok(Some(u))) ==> (r matches Step::Finish(Ok(a)) && a.shows(u)),
            outcome matches Outcome::The1User(Ok(None)) ==> fails_with(
                r,
                ApplicationErrorView::NotFound("the1 account not found"@),
            ),
            outcome matches Outcome::The1User(Err(e)) ==> repository_failure(r, e),
    {
        match outcome {
            Outcome::The1User(Ok(Some(u))) => Step::Finish(Ok(The1AccountResponse::from(u))),
            Outcome::The1User(Ok(None)) => Step::Finish(Err(not_found("the1 account not found"))),
            Outcome::The1User(Err(e)) => Step::Finish(Err(ApplicationError::Repository(e))),
            _ => vstd::pervasive::unreached(),
        }
    }
}

/// `get_by_card_number` / `get_by_member_id`: a membership looked up by card
/// number or member id, `None` when there is none.
#[derive(Debug)]
pub enum The1LookupFlow {
    AwaitMembership,
}

impl The1LookupFlow {
    /// Kind of outcome awaited.
    pub open spec fn awaited(self) -> OutcomeKind {
        OutcomeKind::The1User
    }

    /// Whether `resume` accepts this outcome.
    pub open spec fn accepts(self, o: Outcome) -> bool {
        o.kind_of() == self.awaited()
    }

    /// Exec form of `accepts`.
    pub fn can_resume(&self, o: &Outcome) -> (b: bool)
        ensures
            b == self.accepts(*o),
    {
        matches!(o, Outcome::The1User(_))
    }

    /// Asks for the membership holding a card number.
    pub fn by_card_number(card_number: String) -> (r: Step<The1LookupFlow, Option<The1AccountResponse>>)
        ensures
            r == Step::<The1LookupFlow, Option<The1AccountResponse>>::Perform(
                The1LookupFlow::AwaitMembership,
                Effect::FindThe1ByCardNumber { card_number },
            ),
    {
        Step::Perform(The1LookupFlow::AwaitMembership, Effect::FindThe1ByCardNumber { card_number })
    }

    /// Asks for the membership with a member id.
    pub fn by_member_id(member_id: String) -> (r: Step<The1LookupFlow, Option<The1AccountResponse>>)
        ensures
            r == Step::<The1LookupFlow, Option<The1AccountResponse>>::Perform(
                The1LookupFlow::AwaitMembership,
                Effect::FindThe1ByMemberId { member_id },
            ),
    {
        Step::Perform(The1LookupFlow::AwaitMembership, Effect::FindThe1ByMemberId { member_id })
    }

    /// Shows the membership found, if any.
    pub fn resume(self, outcome: Outcome) -> (r: Step<The1LookupFlow, Option<The1AccountResponse>>)
        requires
            self.accepts(outcome),
        ensures
            outcome matches Outcome::The1User(Ok(Some(u))) ==> (r matches Step::Finish(Ok(Some(a))) && a.shows(u)),
            outcome matches Outcome::The1User(Ok(None)) ==> r matches Step::Finish(Ok(None)),
            outcome matches Outcome::The1User(Err(e)) ==> repository_failure(r, e),
    {
        match outcome {
            Outcome::The1User(Ok(Some(u))) => Step::Finish(Ok(Some(The1AccountResponse::from(u)))),
            Outcome::The1User(Ok(None)) => Step::Finish(Ok(None)),
            Outcome::The1User(Err(e)) => Step::Finish(Err(ApplicationError::Repository(e))),
            _ => vstd::pervasive::unreached(),
        }
    }
}

} // verus!
