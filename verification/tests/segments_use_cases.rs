use customer_profile::application::errors::ApplicationError;
use customer_profile::application::events::EventPayload;
use customer_profile::application::flow::{Effect, Outcome, Step};
use customer_profile::application::segments::{GetSegmentFlow, SegmentResponse, The1PartnerMemberData};
use customer_profile::domain::the1_user::{The1User, Tier, UpsertTier};
use customer_profile::time::Timestamp;

fn drive<S, T>(
    mut step: Step<S, T>,
    can_resume: impl Fn(&S, &Outcome) -> bool,
    resume: impl Fn(S, Outcome) -> Step<S, T>,
    mut answer: impl FnMut(&Effect) -> Outcome,
) -> Result<T, ApplicationError> {
    loop {
        match step {
            Step::Finish(r) => return r,
            Step::Perform(state, effect) => {
                let outcome = answer(&effect);
                assert!(can_resume(&state, &outcome), "unexpected outcome for {:?}", effect);
                step = resume(state, outcome);
            }
        }
    }
}

fn instant() -> Timestamp {
    Timestamp::from_parts(1_700_000_000, 0).unwrap()
}

fn make_tier(code: &str) -> Tier {
    Tier { id: 77, code: code.to_string(), name: None, expired_date: None }
}

fn make_the1_user(user_uuid: u128, tiers: Vec<Tier>) -> The1User {
    The1User {
        id: 5,
        user_uuid,
        member_id: "member-1".to_string(),
        account_id: "account-1".to_string(),
        profile_id: "profile-1".to_string(),
        card_number: Some("1234567890".to_string()),
        tiers,
        created_at: instant(),
        updated_at: instant(),
    }
}

fn make_partner_data(user_uuid: u128, tiers: Vec<UpsertTier>) -> The1PartnerMemberData {
    The1PartnerMemberData {
        user_uuid,
        member_id: "member-1".to_string(),
        account_id: "account-1".to_string(),
        profile_id: "profile-1".to_string(),
        card_number: Some("1234567890".to_string()),
        tiers,
    }
}

/// Runs `get_segment`; The1 answers with `member` (or fails with `failure`)
/// and the store gives back a membership with `stored_tiers`.
fn get_segment(
    card: &str,
    member: Option<The1PartnerMemberData>,
    failure: &str,
    stored_tiers: &[&str],
    published: &mut Vec<String>,
) -> Result<SegmentResponse, ApplicationError> {
    let mut member = member;
    drive(
        GetSegmentFlow::start(card.to_string(), "arn:sns:the1".to_string()),
        GetSegmentFlow::can_resume,
        GetSegmentFlow::resume,
        |e| match e {
            Effect::GetPartnerMember { .. } => Outcome::PartnerMember(match member.take() {
                Some(d) => Ok(d),
                None => Err(failure.to_string()),
            }),
            Effect::UpsertThe1User { user_uuid, .. } => Outcome::SavedThe1User(Ok(make_the1_user(
                *user_uuid,
                stored_tiers.iter().map(|c| make_tier(c)).collect(),
            ))),
            Effect::Publish { topic, payload: EventPayload::The1ProfileUpdated(p) } => {
                published.push(format!("{} {} {}", topic, p.user_uuid, p.member_id));
                Outcome::Delivered(Ok(()))
            }
            other => panic!("unexpected call {:?}", other),
        },
    )
}

fn check_returns_first_tier() {
    let data = make_partner_data(
        1,
        vec![UpsertTier { code: "GOLD".to_string(), name: None, expired_date: None }],
    );
    let mut published = vec![];
    let res = get_segment("1234567890", Some(data), "", &["GOLD", "SILVER"], &mut published).unwrap();
    assert_eq!(res.segment_slug, "GOLD");
}

fn check_no_tiers() {
    let data = make_partner_data(1, vec![]);
    let mut published = vec![];
    let err = get_segment("1234567890", Some(data), "", &[], &mut published).unwrap_err();
    assert!(matches!(err, ApplicationError::NotFound(_)));
}

fn check_external_error() {
    let mut published = vec![];
    let err = get_segment("bad-card", None, "the1 api down", &[], &mut published).unwrap_err();
    assert!(matches!(err, ApplicationError::External(_)));
}

#[test]
fn segments_use_cases_get_segment_returns_first_tier() {
    check_returns_first_tier();
}

#[test]
fn use_cases_get_segment_returns_first_tier() {
    check_returns_first_tier();
}

#[test]
fn segments_use_cases_get_segment_no_tiers_returns_not_found() {
    check_no_tiers();
}

#[test]
fn use_cases_get_segment_no_tiers_returns_not_found() {
    check_no_tiers();
}

#[test]
fn segments_use_cases_get_segment_external_error_propagates() {
    check_external_error();
}

#[test]
fn use_cases_get_segment_external_error_propagates() {
    check_external_error();
}

#[test]
fn segment_refresh_is_announced_even_without_tiers() {
    let mut published = vec![];
    let err = get_segment("c", Some(make_partner_data(3, vec![])), "", &[], &mut published).unwrap_err();
    match err {
        ApplicationError::NotFound(m) => assert_eq!(m, "no segment found"),
        other => panic!("unexpected error {:?}", other),
    }
    assert_eq!(published, vec!["arn:sns:the1 00000000-0000-0000-0000-000000000003 member-1".to_string()]);
}

#[test]
fn segment_stores_what_the1_returned() {
    let data = make_partner_data(3, vec![UpsertTier { code: "GOLD".to_string(), name: None, expired_date: None }]);
    let step = GetSegmentFlow::start("c".to_string(), "t".to_string());
    let state = match step {
        Step::Perform(state, Effect::GetPartnerMember { card_number }) => {
            assert_eq!(card_number, "c");
            state
        }
        other => panic!("unexpected step {:?}", other),
    };
    match GetSegmentFlow::resume(state, Outcome::PartnerMember(Ok(data))) {
        Step::Perform(_, Effect::UpsertThe1User { user_uuid, profile }) => {
            assert_eq!(user_uuid, 3);
            assert_eq!(profile.member_id, "member-1");
            assert_eq!(profile.tiers.len(), 1);
            assert_eq!(profile.tiers[0].code, "GOLD");
        }
        other => panic!("unexpected step {:?}", other),
    }
}

#[test]
fn segment_response_carries_stored_user_and_expiry() {
    let expiry = Timestamp::from_parts(1_800_000_000, 0).unwrap();
    let mut saved = make_the1_user(8, vec![]);
    saved.tiers.push(Tier { id: 1, code: "PLAT".to_string(), name: Some("Platinum".to_string()), expired_date: Some(expiry) });
    let state = match GetSegmentFlow::resume(
        GetSegmentFlow::AwaitStored { user_uuid: 3, topic: "t".to_string() },
        Outcome::SavedThe1User(Ok(saved)),
    ) {
        Step::Perform(state, Effect::Publish { .. }) => state,
        other => panic!("unexpected step {:?}", other),
    };
    match GetSegmentFlow::resume(state, Outcome::Delivered(Err("sns down".to_string()))) {
        Step::Finish(Ok(s)) => {
            assert_eq!(s.segment_slug, "PLAT");
            assert_eq!(s.user_uuid, 8);
            assert_eq!(s.expired_time.unwrap().secs(), 1_800_000_000);
        }
        other => panic!("unexpected step {:?}", other),
    }
}
