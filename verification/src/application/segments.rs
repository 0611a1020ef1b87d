//! Looking up a member's segment (first tier) through The1.
use vstd::prelude::*;
use vstd::string::*;
use crate::application::errors::{not_found, ApplicationError, ApplicationErrorView};
use crate::application::events::{EventPayload, The1ProfileUpdatedPayload};
use crate::application::flow::{Effect, Outcome, OutcomeKind, Step};
use crate::application::identities::{fails_with, repository_failure};
use crate::domain::the1_user::{The1User, UpsertThe1User, UpsertTier};
use crate::ids::{uuid_hyphenated, uuid_to_string};
use crate::time::Timestamp;

verus! {

/// Member data that The1 returns for a card number.
#[derive(Debug)]
pub struct The1PartnerMemberData {
    pub user_uuid: u128,
    pub member_id: String,
    pub account_id: String,
    pub profile_id: String,
    pub card_number: Option<String>,
    pub tiers: Vec<UpsertTier>,
}

/// A member's segment: the code and expiry of their first tier.
#[derive(Debug)]
pub struct SegmentResponse {
    pub segment_slug: String,
    pub expired_time: Option<Timestamp>,
    pub user_uuid: u128,
}

/// The membership record that stores what The1 returned.
pub open spec fn stores(profile: UpsertThe1User, data: The1PartnerMemberData) -> bool {
    &&& profile.member_id == data.member_id
    &&& profile.account_id == data.account_id
    &&& profile.profile_id == data.profile_id
    &&& profile.card_number == data.card_number
    &&& profile.tiers == data.tiers
}

/// The event announcing that the membership of `user_uuid` was refreshed.
pub open spec fn refreshed_event(payload: EventPayload, user_uuid: u128, saved: The1User) -> bool {
    payload matches EventPayload::The1ProfileUpdated(p) && p.user_uuid@ == uuid_hyphenated(user_uuid)
        && p.member_id == saved.member_id && p.card_number == saved.card_number
}

/// The segment of a stored membership: its first tier, if it has one.
pub open spec fn segment_of(saved: The1User, r: Option<SegmentResponse>) -> bool {
    if saved.tiers@.len() == 0 {
        r is None
    } else {
        r matches Some(s) && s.segment_slug == saved.tiers@[0].code
            && s.expired_time == saved.tiers@[0].expired_date && s.user_uuid == saved.user_uuid
    }
}

/// The segment of a stored membership, `None` when it holds no tier.
pub fn first_segment(saved: The1User) -> (r: Option<SegmentResponse>)
    ensures
        segment_of(saved, r),
{
    let user_uuid = saved.user_uuid;
    let mut tiers = saved.tiers;
    if tiers.len() == 0 {
        None
    } else {
        let first = tiers.remove(0);
        Some(SegmentResponse { segment_slug: first.code, expired_time: first.expired_date, user_uuid })
    }
}

/// `get_segment`: fetches the member from The1 by card number, stores the
/// membership, announces the refresh, and returns the first tier.
///
/// A failed fetch is `External`; a membership without tiers is
/// `NotFound("no segment found")`. The refresh is announced before that
/// check, and a failed publish does not change the result.
#[derive(Debug)]
pub enum GetSegmentFlow {
    AwaitMember { topic: String },
    AwaitStored { user_uuid: u128, topic: String },
    AwaitPublished { segment: Option<SegmentResponse> },
}

impl GetSegmentFlow {
    /// Kind of outcome awaited.
    pub open spec fn awaited(self) -> OutcomeKind {
        match self {
            GetSegmentFlow::AwaitMember { .. } => OutcomeKind::PartnerMember,
            GetSegmentFlow::AwaitStored { .. } => OutcomeKind::SavedThe1User,
            GetSegmentFlow::AwaitPublished { .. } => OutcomeKind::Delivered,
        }
    }

    /// Whether `resume` accepts this outcome.
    pub open spec fn accepts(self, o: Outcome) -> bool {
        o.kind_of() == self.awaited()
    }

    /// Exec form of `accepts`.
    pub fn can_resume(&self, o: &Outcome) -> (b: bool)
        ensures
            b == self.accepts(*o),
    {
        match self {
            GetSegmentFlow::AwaitMember { .. } => matches!(o, Outcome::PartnerMember(_)),
            GetSegmentFlow::AwaitStored { .. } => matches!(o, Outcome::SavedThe1User(_)),
            GetSegmentFlow::AwaitPublished { .. } => matches!(o, Outcome::Delivered(_)),
        }
    }

    /// The step taken from `self` on outcome `o`.
    pub open spec fn transition(self, o: Outcome, r: Step<GetSegmentFlow, SegmentResponse>) -> bool {
        match self {
            GetSegmentFlow::AwaitMember { topic } => match o {
                Outcome::PartnerMember(Err(m)) => fails_with(r, ApplicationErrorView::External(m@)),
                // what The1 returned is stored under its user
                Outcome::PartnerMember(Ok(data)) => match r {
                    Step::Perform(f, Effect::UpsertThe1User { user_uuid, profile }) =>
                        f == (GetSegmentFlow::AwaitStored { user_uuid: data.user_uuid, topic })
                        && user_uuid == data.user_uuid && stores(profile, data),
                    _ => false,
                },
                _ => true,
            },
            // the stored membership is announced; its first tier waits
            GetSegmentFlow::AwaitStored { user_uuid, topic } => match o {
                Outcome::SavedThe1User(Ok(saved)) => match r {
                    Step::Perform(GetSegmentFlow::AwaitPublished { segment }, Effect::Publish { topic: t, payload }) =>
                        t == topic && refreshed_event(payload, user_uuid, saved) && segment_of(saved, segment),
                    _ => false,
                },
                Outcome::SavedThe1User(Err(e)) => repository_failure(r, e),
                _ => true,
            },
            // whatever the publish gave, the first tier or `NotFound`
            GetSegmentFlow::AwaitPublished { segment } => match segment {
                Some(s) => r == Step::<GetSegmentFlow, SegmentResponse>::Finish(Ok(s)),
                None => fails_with(r, ApplicationErrorView::NotFound("no segment found"@)),
            },
        }
    }

    /// Asks The1 for the member holding the card.
    pub fn start(card_number: String, topic: String) -> (r: Step<GetSegmentFlow, SegmentResponse>)
        ensures
            r == Step::<GetSegmentFlow, SegmentResponse>::Perform(
                GetSegmentFlow::AwaitMember { topic },
                Effect::GetPartnerMember { card_number },
            ),
    {
        Step::Perform(GetSegmentFlow::AwaitMember { topic }, Effect::GetPartnerMember { card_number })
    }

    /// Takes the outcome of the awaited call.
    pub fn resume(self, outcome: Outcome) -> (r: Step<GetSegmentFlow, SegmentResponse>)
        requires
            self.accepts(outcome),
        ensures
            r matches Step::Perform(f, e) ==> f.awaited() == e.answered_by(),
            self.transition(outcome, r),
    {
        match self {
            GetSegmentFlow::AwaitMember { topic } => match outcome {
                Outcome::PartnerMember(Ok(data)) => {
                    let user_uuid = data.user_uuid;
                    let profile = UpsertThe1User {
                        member_id: data.member_id,
                        account_id: data.account_id,
                        profile_id: data.profile_id,
                        card_number: data.card_number,
                        tiers: data.tiers,
                    };
                    Step::Perform(
                        GetSegmentFlow::AwaitStored { user_uuid, topic },
                        Effect::UpsertThe1User { user_uuid, profile },
                    )
                },
                Outcome::PartnerMember(Err(m)) => Step::Finish(Err(ApplicationError::External(m))),
                _ => vstd::pervasive::unreached(),
            },
            GetSegmentFlow::AwaitStored { user_uuid, topic } => match outcome {
                Outcome::SavedThe1User(Ok(saved)) => {
                    let payload = EventPayload::The1ProfileUpdated(The1ProfileUpdatedPayload {
                        user_uuid: uuid_to_string(user_uuid),
                        member_id: saved.member_id.clone(),
                        card_number: saved.card_number.clone(),
                    });
                    let segment = first_segment(saved);
                    Step::Perform(GetSegmentFlow::AwaitPublished { segment }, Effect::Publish { topic, payload })
                },
                Outcome::SavedThe1User(Err(e)) => Step::Finish(Err(ApplicationError::Repository(e))),
                _ => vstd::pervasive::unreached(),
            },
            GetSegmentFlow::AwaitPublished { segment } => match segment {
                Some(s) => Step::Finish(Ok(s)),
                None => Step::Finish(Err(not_found("no segment found"))),
            },
        }
    }
}

} // verus!
