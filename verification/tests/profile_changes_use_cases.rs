use customer_profile::application::config::AppConfig;
use customer_profile::application::errors::ApplicationError;
use customer_profile::application::events::EventPayload;
use customer_profile::application::flow::{Effect, Outcome, Step};
use customer_profile::application::profile_changes::{
    ChangeSettings, ConfirmProfileChangeFlow, CreateProfileChangeFlow, CreateProfileChangeRequest, OtpCodes,
    ProfileChangeResponse, UpdateProfileChangeFlow, UpdateProfileChangeRequest, VerifyProfileChangeFlow,
    VerifyProfileChangeRequest,
};
use customer_profile::domain::customer::{Customer, Locale};
use customer_profile::domain::profile_change::{ChangeStatus, ChangeType, ProfileChange};
use customer_profile::time::Timestamp;

fn drive<S, T>(
    mut step: Step<S, T>,
    can_resume: impl Fn(&S, &Outcome) -> bool,
    resume: impl Fn(S, Outcome) -> Step<S, T>,
    mut answer: impl FnMut(&Effect) -> Outcome,
) -> Result<T, ApplicationError> {
    loop {
        match step {
            Step::Finish(r) => return r,
            Step::Perform(state, effect) => {
                let outcome = answer(&effect);
                assert!(can_resume(&state, &outcome), "unexpected outcome for {:?}", effect);
                step = resume(state, outcome);
            }
        }
    }
}

const NOW: i64 = 1_700_000_000;

fn at(offset_secs: i64) -> Timestamp {
    Timestamp::from_parts(NOW + offset_secs, 0).unwrap()
}

fn make_config() -> AppConfig {
    AppConfig {
        country_code: "TH".to_string(),
        phone_number_format: "+66".to_string(),
        otp_expired_time: 5,
        otp_text: "OTP: {otp}".to_string(),
        jwt_secret_key: "secret".to_string(),
        profile_change_expired_time: 60,
        token_expired_time: 5,
        allow_image_types: vec![],
        max_image_size_mb: 5,
        image_prefix: "profiles".to_string(),
        image_expired_in_sec: 3600,
        sns_user_profile_changed: "arn:sns:profile-changed".to_string(),
        sns_email_sent_requested: "arn:sns:email-sent".to_string(),
        sns_user_identity_linked_changed: "arn:sns:identity".to_string(),
        sns_user_the1_get_profile_updated: "arn:sns:the1".to_string(),
        s3_profile_bucket: "bucket".to_string(),
        cloudfront_base_endpoint: "https://cdn.example.com".to_string(),
        cloudfront_key_id: "key-id".to_string(),
    }
}

fn settings() -> ChangeSettings {
    ChangeSettings::from_config(&make_config())
}

fn make_customer(id: u128) -> Customer {
    Customer {
        id,
        email: Some("user@example.com".to_string()),
        phone: Some("+66811111111".to_string()),
        email_verified: false,
        phone_verified: false,
        locale: Locale::En,
        has_consent: true,
        is_deleted: false,
        client_id: None,
        created_at: at(0),
        updated_at: at(0),
        profile: None,
    }
}

/// How a stored change request looks, relative to `NOW`.
#[derive(Clone, Copy)]
struct ChangeShape {
    status: ChangeStatus,
    change_type: ChangeType,
    otp_expires_in: i64,
    token_expires_in: i64,
}

impl ChangeShape {
    fn new(status: ChangeStatus) -> Self {
        ChangeShape { status, change_type: ChangeType::Email, otp_expires_in: 300, token_expires_in: 3600 }
    }

    fn build(&self, id: u128, user_uuid: u128) -> ProfileChange {
        ProfileChange {
            id,
            user_uuid,
            change_type: self.change_type,
            identifier: None,
            old_value: Some("old@example.com".to_string()),
            new_value: Some("new@example.com".to_string()),
            status: self.status,
            token: None,
            token_expired_at: at(self.token_expires_in),
            otp: Some("123456".to_string()),
            ref_code: Some("ABCDEF".to_string()),
            next_otp_request_at: at(-10),
            otp_expired_at: at(self.otp_expires_in),
            created_at: at(0),
            updated_at: at(0),
        }
    }
}

struct Mock {
    id: u128,
    user_uuid: u128,
    found: Option<ChangeShape>,
    active: Option<ChangeShape>,
    saved: ChangeShape,
    claims: (u128, u128),
    sms: Vec<(String, String)>,
    published: Vec<(String, String)>,
}

impl Mock {
    fn new(id: u128, user_uuid: u128, saved: ChangeShape) -> Self {
        Mock { id, user_uuid, found: None, active: None, saved, claims: (id, user_uuid), sms: vec![], published: vec![] }
    }

    fn answer(&mut self, effect: &Effect) -> Outcome {
        match effect {
            Effect::FindActiveProfileChange { .. } => {
                Outcome::ProfileChange(Ok(self.active.map(|s| s.build(self.id, self.user_uuid))))
            }
            Effect::FindProfileChange { .. } => Outcome::ProfileChange(Ok(self.found.map(|s| s.build(self.id, self.user_uuid)))),
            Effect::FindCustomerById { id } => Outcome::Customer(Ok(Some(make_customer(*id)))),
            Effect::DrawCodes => Outcome::Codes(OtpCodes::draw()),
            Effect::ReadClock => Outcome::Clock(at(0)),
            Effect::CreateProfileChange { .. } | Effect::UpdateOtp { .. } | Effect::UpdateStatusAndToken { .. } => {
                Outcome::SavedProfileChange(Ok(self.saved.build(self.id, self.user_uuid)))
            }
            Effect::SendSms { phone, message } => {
                self.sms.push((phone.clone(), message.clone()));
                Outcome::Delivered(Ok(()))
            }
            Effect::Publish { topic, payload } => {
                let kind = match payload {
                    EventPayload::EmailSentRequested(_) => "email",
                    EventPayload::ProfileChanged(_) => "profile",
                    _ => "other",
                };
                self.published.push((topic.clone(), kind.to_string()));
                Outcome::Delivered(Ok(()))
            }
            Effect::GenerateToken { profile_change_id, user_uuid, .. } => {
                Outcome::TokenIssued(Ok(format!("{}.{}", profile_change_id, user_uuid)))
            }
            Effect::ValidateToken { .. } => Outcome::TokenClaims(Ok(self.claims)),
            Effect::UpdateCustomer { id, .. } => Outcome::SavedCustomer(Ok(make_customer(*id))),
            other => panic!("unexpected call {:?}", other),
        }
    }
}

fn create_change(mock: &mut Mock, change_type: &str, new_value: &str) -> Result<ProfileChangeResponse, ApplicationError> {
    let req = CreateProfileChangeRequest { change_type: change_type.to_string(), new_value: new_value.to_string() };
    drive(
        CreateProfileChangeFlow::start(mock.user_uuid, req, settings()),
        CreateProfileChangeFlow::can_resume,
        CreateProfileChangeFlow::resume,
        |e| mock.answer(e),
    )
}

fn verify(mock: &mut Mock, otp: &str) -> Result<ProfileChangeResponse, ApplicationError> {
    let req = VerifyProfileChangeRequest { otp: otp.to_string() };
    drive(
        VerifyProfileChangeFlow::start(mock.user_uuid, mock.id, req, 5),
        VerifyProfileChangeFlow::can_resume,
        VerifyProfileChangeFlow::resume,
        |e| mock.answer(e),
    )
}

fn confirm(mock: &mut Mock) -> Result<ProfileChangeResponse, ApplicationError> {
    drive(
        ConfirmProfileChangeFlow::start(mock.user_uuid, mock.id, "arn:sns:profile-changed".to_string()),
        ConfirmProfileChangeFlow::can_resume,
        ConfirmProfileChangeFlow::resume,
        |e| mock.answer(e),
    )
}

// ── create_profile_change ─────────────────────────────────────────────────

#[test]
fn create_email_change_returns_pending_record() {
    let mut mock = Mock::new(1, 2, ChangeShape::new(ChangeStatus::PendingVerifyOtp));
    let res = create_change(&mut mock, "email", "new@example.com").unwrap();
    assert_eq!(res.status, "pending_verify_otp");
    assert_eq!(mock.published, vec![("arn:sns:email-sent".to_string(), "email".to_string())]);
    assert!(mock.sms.is_empty());
}

#[test]
fn create_telephone_change_returns_pending_record() {
    let mut shape = ChangeShape::new(ChangeStatus::PendingVerifyOtp);
    shape.change_type = ChangeType::Telephone;
    let mut mock = Mock::new(1, 2, shape);
    let res = create_change(&mut mock, "telephone", "0899999999").unwrap();
    assert_eq!(res.status, "pending_verify_otp");
    assert_eq!(mock.sms.len(), 1);
    assert_eq!(mock.sms[0].0, "+66899999999");
    assert!(mock.sms[0].1.starts_with("OTP: "));
    assert_eq!(mock.sms[0].1.len(), "OTP: ".len() + 6);
}

#[test]
fn create_rejects_duplicate_active_change() {
    let mut mock = Mock::new(1, 2, ChangeShape::new(ChangeStatus::PendingVerifyOtp));
    mock.active = Some(ChangeShape::new(ChangeStatus::PendingVerifyOtp));
    let err = create_change(&mut mock, "email", "another@example.com").unwrap_err();
    assert!(matches!(err, ApplicationError::BadRequest(_)));
}

#[test]
fn create_rejects_unknown_change_type() {
    let mut mock = Mock::new(1, 2, ChangeShape::new(ChangeStatus::PendingVerifyOtp));
    match create_change(&mut mock, "address", "x") {
        Err(ApplicationError::BadRequest(m)) => {
            assert_eq!(m, "invalid change_type 'address': expected 'telephone' or 'email'")
        }
        other => panic!("unexpected result {:?}", other),
    }
}

#[test]
fn create_stores_codes_and_expiry_times() {
    let req = CreateProfileChangeRequest { change_type: "EMAIL".to_string(), new_value: "n@example.com".to_string() };
    let mut mock = Mock::new(1, 2, ChangeShape::new(ChangeStatus::PendingVerifyOtp));
    let res = drive(
        CreateProfileChangeFlow::start(2, req, settings()),
        CreateProfileChangeFlow::can_resume,
        CreateProfileChangeFlow::resume,
        |e| {
            if let Effect::CreateProfileChange { data } = e {
                assert_eq!(data.user_uuid, 2);
                assert_eq!(data.change_type, ChangeType::Email);
                assert_eq!(data.old_value.as_deref(), Some("user@example.com"));
                assert_eq!(data.new_value.as_deref(), Some("n@example.com"));
                assert_eq!(data.status, ChangeStatus::PendingVerifyOtp);
                let otp = data.otp.clone().unwrap();
                assert_eq!(otp.len(), 6);
                assert!(otp.chars().all(|c| c.is_ascii_digit()));
                let code = data.ref_code.clone().unwrap();
                assert_eq!(code.len(), 6);
                assert!(code.chars().all(|c| c.is_ascii_uppercase()));
                assert_eq!(data.otp_expired_at.secs(), NOW + 5 * 60);
                assert_eq!(data.next_otp_request_at.secs(), NOW + 60);
                assert_eq!(data.token_expired_at.secs(), NOW + 60 * 60);
            }
            mock.answer(e)
        },
    );
    assert!(res.is_ok());
}

// ── update_profile_change ─────────────────────────────────────────────────

#[test]
fn resend_rejects_token_of_other_request() {
    let mut mock = Mock::new(1, 2, ChangeShape::new(ChangeStatus::PendingVerifyOtp));
    mock.found = Some(ChangeShape::new(ChangeStatus::PendingVerifyOtp));
    mock.claims = (99, 2);
    let req = UpdateProfileChangeRequest { token: "t".to_string() };
    let res = drive(
        UpdateProfileChangeFlow::start(2, 1, req, settings()),
        UpdateProfileChangeFlow::can_resume,
        UpdateProfileChangeFlow::resume,
        |e| mock.answer(e),
    );
    match res {
        Err(ApplicationError::BadRequest(m)) => assert_eq!(m, "token mismatch"),
        other => panic!("unexpected result {:?}", other),
    }
}

#[test]
fn resend_too_soon_is_refused() {
    let mut mock = Mock::new(1, 2, ChangeShape::new(ChangeStatus::PendingVerifyOtp));
    mock.found = Some(ChangeShape::new(ChangeStatus::PendingVerifyOtp));
    let req = UpdateProfileChangeRequest { token: "t".to_string() };
    let res = drive(
        UpdateProfileChangeFlow::start(2, 1, req, settings()),
        UpdateProfileChangeFlow::can_resume,
        UpdateProfileChangeFlow::resume,
        |e| match e {
            // the resend window opens 10 s after this reading
            Effect::ReadClock => Outcome::Clock(at(-20)),
            _ => mock.answer(e),
        },
    );
    match res {
        Err(ApplicationError::BadRequest(m)) => {
            assert_eq!(m, "OTP request too soon — please wait before requesting a new OTP")
        }
        other => panic!("unexpected result {:?}", other),
    }
}

#[test]
fn resend_stores_fresh_codes() {
    let mut mock = Mock::new(1, 2, ChangeShape::new(ChangeStatus::PendingVerifyOtp));
    mock.found = Some(ChangeShape::new(ChangeStatus::PendingVerifyOtp));
    let req = UpdateProfileChangeRequest { token: "t".to_string() };
    let mut updated = 0;
    let res = drive(
        UpdateProfileChangeFlow::start(2, 1, req, settings()),
        UpdateProfileChangeFlow::can_resume,
        UpdateProfileChangeFlow::resume,
        |e| {
            if let Effect::UpdateOtp { id, otp, expires, next_request, .. } = e {
                assert_eq!(*id, 1);
                assert_eq!(otp.len(), 6);
                assert_eq!(expires.secs(), NOW + 300);
                assert_eq!(next_request.secs(), NOW + 60);
                updated += 1;
            }
            mock.answer(e)
        },
    );
    assert!(res.is_ok());
    assert_eq!(updated, 1);
}

// ── verify_profile_change ─────────────────────────────────────────────────

#[test]
fn verify_correct_otp_succeeds() {
    let mut mock = Mock::new(1, 2, ChangeShape::new(ChangeStatus::VerifyChangeCompleted));
    mock.found = Some(ChangeShape::new(ChangeStatus::PendingVerifyOtp));
    let res = verify(&mut mock, "123456").unwrap();
    assert_eq!(res.status, "verify_change_completed");
}

#[test]
fn verify_wrong_otp_returns_bad_request() {
    let mut mock = Mock::new(1, 2, ChangeShape::new(ChangeStatus::PendingVerifyOtp));
    mock.found = Some(ChangeShape::new(ChangeStatus::PendingVerifyOtp));
    let err = verify(&mut mock, "000000").unwrap_err();
    assert!(matches!(err, ApplicationError::BadRequest(_)));
}

#[test]
fn verify_expired_otp_returns_bad_request() {
    let mut shape = ChangeShape::new(ChangeStatus::PendingVerifyOtp);
    shape.otp_expires_in = -600;
    let mut mock = Mock::new(1, 2, shape);
    mock.found = Some(shape);
    let err = verify(&mut mock, "123456").unwrap_err();
    assert!(matches!(err, ApplicationError::BadRequest(_)));
}

#[test]
fn verify_other_users_request_is_not_found() {
    let mut mock = Mock::new(1, 2, ChangeShape::new(ChangeStatus::PendingVerifyOtp));
    mock.found = Some(ChangeShape::new(ChangeStatus::PendingVerifyOtp));
    let res = drive(
        VerifyProfileChangeFlow::start(3, 1, VerifyProfileChangeRequest { otp: "123456".to_string() }, 5),
        VerifyProfileChangeFlow::can_resume,
        VerifyProfileChangeFlow::resume,
        |e| mock.answer(e),
    );
    assert!(matches!(res, Err(ApplicationError::NotFound(_))));
}

#[test]
fn verify_stores_token_with_expiry() {
    let mut mock = Mock::new(1, 2, ChangeShape::new(ChangeStatus::VerifyChangeCompleted));
    mock.found = Some(ChangeShape::new(ChangeStatus::PendingVerifyOtp));
    let res = drive(
        VerifyProfileChangeFlow::start(2, 1, VerifyProfileChangeRequest { otp: "123456".to_string() }, 5),
        VerifyProfileChangeFlow::can_resume,
        VerifyProfileChangeFlow::resume,
        |e| {
            if let Effect::UpdateStatusAndToken { id, status, token, token_expires } = e {
                assert_eq!(*id, 1);
                assert_eq!(*status, ChangeStatus::VerifyChangeCompleted);
                assert_eq!(token.as_deref(), Some("1.2"));
                assert_eq!(token_expires.unwrap().secs(), NOW + 300);
            }
            mock.answer(e)
        },
    );
    assert!(res.is_ok());
}

// ── confirm_profile_change ────────────────────────────────────────────────

#[test]
fn confirm_wrong_status_returns_bad_request() {
    let mut mock = Mock::new(1, 2, ChangeShape::new(ChangeStatus::PendingVerifyOtp));
    mock.found = Some(ChangeShape::new(ChangeStatus::PendingVerifyOtp));
    let err = confirm(&mut mock).unwrap_err();
    assert!(matches!(err, ApplicationError::BadRequest(_)));
}

#[test]
fn confirm_expired_token_returns_bad_request() {
    let mut shape = ChangeShape::new(ChangeStatus::VerifyChangeCompleted);
    shape.token_expires_in = -600;
    let mut mock = Mock::new(1, 2, shape);
    mock.found = Some(shape);
    let err = confirm(&mut mock).unwrap_err();
    assert!(matches!(err, ApplicationError::BadRequest(_)));
}

#[test]
fn confirm_succeeds_with_valid_state() {
    let mut mock = Mock::new(1, 2, ChangeShape::new(ChangeStatus::Completed));
    mock.found = Some(ChangeShape::new(ChangeStatus::VerifyChangeCompleted));
    let res = confirm(&mut mock).unwrap();
    assert_eq!(res.status, "completed");
    assert_eq!(mock.published, vec![("arn:sns:profile-changed".to_string(), "profile".to_string())]);
}

#[test]
fn confirm_sets_only_the_changed_field() {
    let mut mock = Mock::new(1, 2, ChangeShape::new(ChangeStatus::Completed));
    mock.found = Some(ChangeShape::new(ChangeStatus::VerifyChangeCompleted));
    let res = drive(
        ConfirmProfileChangeFlow::start(2, 1, "t".to_string()),
        ConfirmProfileChangeFlow::can_resume,
        ConfirmProfileChangeFlow::resume,
        |e| {
            match e {
                Effect::UpdateCustomer { id, data } => {
                    assert_eq!(*id, 2);
                    assert_eq!(data.email.as_deref(), Some("new@example.com"));
                    assert!(data.phone.is_none() && data.locale.is_none() && data.first_name.is_none());
                }
                Effect::UpdateStatusAndToken { status, token, token_expires, .. } => {
                    assert_eq!(*status, ChangeStatus::Completed);
                    assert!(token.is_none() && token_expires.is_none());
                }
                _ => {}
            }
            mock.answer(e)
        },
    );
    assert!(res.is_ok());
}
