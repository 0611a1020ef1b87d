use customer_profile::application::errors::ApplicationError;
use customer_profile::application::events::EventPayload;
use customer_profile::application::flow::{Effect, Outcome, Step};
use customer_profile::application::identities::{
    CreateIdentityFlow, CreateIdentityRequest, DeleteIdentityFlow, GetIdentitiesFlow, IdentityResponse,
    InvokeTokenFlow, InvokeTokenResponse,
};
use customer_profile::domain::identity::Identity;
use customer_profile::time::Timestamp;

fn drive<S, T>(
    mut step: Step<S, T>,
    can_resume: impl Fn(&S, &Outcome) -> bool,
    resume: impl Fn(S, Outcome) -> Step<S, T>,
    mut answer: impl FnMut(&Effect) -> Outcome,
) -> Result<T, ApplicationError> {
    loop {
        match step {
            Step::Finish(r) => return r,
            Step::Perform(state, effect) => {
                let outcome = answer(&effect);
                assert!(can_resume(&state, &outcome), "unexpected outcome for {:?}", effect);
                step = resume(state, outcome);
            }
        }
    }
}

fn instant() -> Timestamp {
    Timestamp::from_parts(1_700_000_000, 0).unwrap()
}

fn make_identity(id: u128, user_uuid: u128) -> Identity {
    Identity {
        id,
        user_uuid,
        provider_name: "google".to_string(),
        external_id: "google-123".to_string(),
        provider_id_token: None,
        provider_access_token: Some("access".to_string()),
        provider_refresh_token: Some("refresh".to_string()),
        is_deleted: false,
        created_at: instant(),
        updated_at: instant(),
    }
}

struct MockIdentityRepo {
    user_uuid: u128,
    listed: bool,
    active: Option<u128>,
    deleted: Option<u128>,
}

impl MockIdentityRepo {
    fn new(user_uuid: u128) -> Self {
        MockIdentityRepo { user_uuid, listed: true, active: None, deleted: None }
    }

    fn answer(&self, effect: &Effect) -> Outcome {
        match effect {
            Effect::FindIdentitiesByUser { .. } => Outcome::Identities(Ok(if self.listed {
                vec![make_identity(500, self.user_uuid)]
            } else {
                vec![]
            })),
            Effect::FindActiveIdentity { .. } => Outcome::Identity(Ok(self.active.map(|id| make_identity(id, self.user_uuid)))),
            Effect::FindDeletedIdentity { .. } => Outcome::Identity(Ok(self.deleted.map(|id| make_identity(id, 777)))),
            Effect::CreateIdentity { .. } => Outcome::SavedIdentity(Ok(make_identity(501, self.user_uuid))),
            Effect::RestoreIdentity { id, user_uuid, .. } => Outcome::SavedIdentity(Ok(make_identity(*id, *user_uuid))),
            Effect::SoftDeleteIdentity { id, user_uuid } => {
                let mut i = make_identity(*id, *user_uuid);
                i.is_deleted = true;
                Outcome::SavedIdentity(Ok(i))
            }
            Effect::LogIdentityTransaction { .. } => Outcome::Stored(Ok(())),
            Effect::Publish { .. } => Outcome::Delivered(Ok(())),
            other => panic!("unexpected call {:?}", other),
        }
    }
}

fn request() -> CreateIdentityRequest {
    CreateIdentityRequest {
        provider_name: "google".to_string(),
        external_id: "google-123".to_string(),
        provider_id_token: None,
        provider_access_token: None,
        provider_refresh_token: None,
    }
}

fn get_identities(repo: &MockIdentityRepo) -> Vec<IdentityResponse> {
    drive(GetIdentitiesFlow::start(repo.user_uuid), GetIdentitiesFlow::can_resume, GetIdentitiesFlow::resume, |e| repo.answer(e))
        .unwrap()
}

fn create_identity(repo: &MockIdentityRepo) -> Result<IdentityResponse, ApplicationError> {
    drive(
        CreateIdentityFlow::start(repo.user_uuid, request(), "arn:sns:identity".to_string()),
        CreateIdentityFlow::can_resume,
        CreateIdentityFlow::resume,
        |e| repo.answer(e),
    )
}

fn delete_identity(repo: &MockIdentityRepo) -> Result<(), ApplicationError> {
    drive(
        DeleteIdentityFlow::start(repo.user_uuid, "google".to_string(), "google-123".to_string(), "t".to_string()),
        DeleteIdentityFlow::can_resume,
        DeleteIdentityFlow::resume,
        |e| repo.answer(e),
    )
}

fn invoke_token(repo: &MockIdentityRepo, provider: &str) -> Result<InvokeTokenResponse, ApplicationError> {
    drive(
        InvokeTokenFlow::start(repo.user_uuid, provider.to_string()),
        InvokeTokenFlow::can_resume,
        InvokeTokenFlow::resume,
        |e| repo.answer(e),
    )
}

fn check_mapped_list() {
    let repo = MockIdentityRepo::new(1);
    let result = get_identities(&repo);
    assert_eq!(result.len(), 1);
    assert_eq!(result[0].provider_name, "google");
}

fn check_empty_list() {
    let mut repo = MockIdentityRepo::new(1);
    repo.listed = false;
    assert!(get_identities(&repo).is_empty());
}

fn check_fresh_insert() {
    let repo = MockIdentityRepo::new(1);
    let res = create_identity(&repo).unwrap();
    assert_eq!(res.provider_name, "google");
}

fn check_rejects_already_linked() {
    let mut repo = MockIdentityRepo::new(1);
    repo.active = Some(9);
    let err = create_identity(&repo).unwrap_err();
    assert!(matches!(err, ApplicationError::BadRequest(_)));
}

fn check_restores_deleted_row() {
    let mut repo = MockIdentityRepo::new(1);
    repo.deleted = Some(9);
    let res = create_identity(&repo).unwrap();
    assert_eq!(res.provider_name, "google");
}

fn check_delete_succeeds() {
    let mut repo = MockIdentityRepo::new(1);
    repo.active = Some(9);
    assert!(delete_identity(&repo).is_ok());
}

fn check_delete_not_found() {
    let repo = MockIdentityRepo::new(1);
    let err = delete_identity(&repo).unwrap_err();
    assert!(matches!(err, ApplicationError::NotFound(_)));
}

fn check_invoke_token() {
    let repo = MockIdentityRepo::new(1);
    let res = invoke_token(&repo, "google").unwrap();
    assert_eq!(res.access_token, Some("access".to_string()));
}

fn check_invoke_token_not_found() {
    let mut repo = MockIdentityRepo::new(1);
    repo.listed = false;
    let err = invoke_token(&repo, "facebook").unwrap_err();
    assert!(matches!(err, ApplicationError::NotFound(_)));
}

#[test]
fn identities_use_cases_get_identities_returns_mapped_list() {
    check_mapped_list();
}

#[test]
fn use_cases_get_identities_returns_mapped_list() {
    check_mapped_list();
}

#[test]
fn identities_use_cases_get_identities_returns_empty_list() {
    check_empty_list();
}

#[test]
fn use_cases_get_identities_returns_empty_list() {
    check_empty_list();
}

#[test]
fn identities_use_cases_create_identity_fresh_insert() {
    check_fresh_insert();
}

#[test]
fn use_cases_create_identity_fresh_insert() {
    check_fresh_insert();
}

#[test]
fn identities_use_cases_create_identity_rejects_already_linked() {
    check_rejects_already_linked();
}

#[test]
fn use_cases_create_identity_rejects_already_linked() {
    check_rejects_already_linked();
}

#[test]
fn identities_use_cases_create_identity_restores_deleted_row() {
    check_restores_deleted_row();
}

#[test]
fn use_cases_create_identity_restores_deleted_row() {
    check_restores_deleted_row();
}

#[test]
fn identities_use_cases_delete_identity_succeeds() {
    check_delete_succeeds();
}

#[test]
fn use_cases_delete_identity_succeeds() {
    check_delete_succeeds();
}

#[test]
fn identities_use_cases_delete_identity_not_found() {
    check_delete_not_found();
}

#[test]
fn use_cases_delete_identity_not_found() {
    check_delete_not_found();
}

#[test]
fn identities_use_cases_invoke_token_returns_stored_tokens() {
    check_invoke_token();
}

#[test]
fn use_cases_invoke_token_returns_stored_tokens() {
    check_invoke_token();
}

#[test]
fn identities_use_cases_invoke_token_not_found_for_provider() {
    check_invoke_token_not_found();
}

#[test]
fn use_cases_invoke_token_not_found_for_provider() {
    check_invoke_token_not_found();
}

#[test]
fn restored_identity_is_given_to_the_caller_and_announced() {
    let mut repo = MockIdentityRepo::new(1);
    repo.deleted = Some(9);
    let mut actions = Vec::new();
    let res = drive(
        CreateIdentityFlow::start(1, request(), "arn:sns:identity".to_string()),
        CreateIdentityFlow::can_resume,
        CreateIdentityFlow::resume,
        |e| {
            match e {
                Effect::RestoreIdentity { id, user_uuid, tokens } => {
                    assert_eq!((*id, *user_uuid, tokens.user_uuid), (9, 1, 1));
                }
                Effect::CreateIdentity { .. } => panic!("a deleted row must be restored, not recreated"),
                Effect::Publish { payload: EventPayload::IdentityLinkedChanged(p), .. } => actions.push(p.action.clone()),
                _ => {}
            }
            repo.answer(e)
        },
    )
    .unwrap();
    assert_eq!(res.user_uuid, "00000000-0000-0000-0000-000000000001");
    assert_eq!(actions, vec!["linked".to_string()]);
}

#[test]
fn delete_identity_logs_and_announces_unlink() {
    let mut repo = MockIdentityRepo::new(1);
    repo.active = Some(9);
    let mut seen = Vec::new();
    let res = drive(
        DeleteIdentityFlow::start(1, "google".to_string(), "google-123".to_string(), "t".to_string()),
        DeleteIdentityFlow::can_resume,
        DeleteIdentityFlow::resume,
        |e| {
            match e {
                Effect::LogIdentityTransaction { action, .. } => seen.push(action.clone()),
                Effect::Publish { payload: EventPayload::IdentityLinkedChanged(p), .. } => seen.push(p.action.clone()),
                _ => {}
            }
            repo.answer(e)
        },
    );
    assert!(res.is_ok());
    assert_eq!(seen, vec!["delete".to_string(), "unlinked".to_string()]);
}

#[test]
fn invoke_token_message_names_provider() {
    let mut repo = MockIdentityRepo::new(1);
    repo.listed = false;
    match invoke_token(&repo, "facebook") {
        Err(ApplicationError::NotFound(m)) => assert_eq!(m, "no active identity found for provider 'facebook'"),
        other => panic!("unexpected result {:?}", other),
    }
}

#[test]
fn internal_listing_matches_public_listing() {
    let repo = MockIdentityRepo::new(1);
    let public = get_identities(&repo);
    let internal = drive(
        GetIdentitiesFlow::start_internal(repo.user_uuid),
        GetIdentitiesFlow::can_resume,
        GetIdentitiesFlow::resume,
        |e| match e {
            Effect::FindIdentitiesByUser { user_uuid } => {
                assert_eq!(*user_uuid, 1);
                repo.answer(e)
            }
            other => panic!("unexpected call {:?}", other),
        },
    )
    .unwrap();
    assert_eq!(public.len(), internal.len());
    for (a, b) in public.iter().zip(internal.iter()) {
        assert_eq!((&a.id, &a.user_uuid, &a.provider_name, &a.created_at), (&b.id, &b.user_uuid, &b.provider_name, &b.created_at));
    }
}
