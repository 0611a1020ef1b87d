use customer_profile::application::config::AppConfig;
use customer_profile::application::errors::ApplicationError;
use customer_profile::application::flow::{Effect, Outcome, Step};
use customer_profile::application::profile_images::{
    DeleteImageFlow, GetImageFlow, ImageSettings, ProfileImageResponse, UploadImageFlow,
};
use customer_profile::domain::customer::{Customer, CustomerProfile, Locale};
use customer_profile::time::Timestamp;

fn drive<S, T>(
    mut step: Step<S, T>,
    can_resume: impl Fn(&S, &Outcome) -> bool,
    resume: impl Fn(S, Outcome) -> Step<S, T>,
    mut answer: impl FnMut(&Effect) -> Outcome,
) -> Result<T, ApplicationError> {
    loop {
        match step {
            Step::Finish(r) => return r,
            Step::Perform(state, effect) => {
                let outcome = answer(&effect);
                assert!(can_resume(&state, &outcome), "unexpected outcome for {:?}", effect);
                step = resume(state, outcome);
            }
        }
    }
}

fn instant() -> Timestamp {
    Timestamp::from_parts(1_700_000_000, 0).unwrap()
}

fn make_config() -> AppConfig {
    AppConfig {
        country_code: "TH".to_string(),
        phone_number_format: "+66".to_string(),
        otp_expired_time: 5,
        otp_text: "".to_string(),
        jwt_secret_key: "secret".to_string(),
        profile_change_expired_time: 60,
        token_expired_time: 5,
        allow_image_types: vec!["image/jpeg".to_string(), "image/png".to_string()],
        max_image_size_mb: 2,
        image_prefix: "profiles".to_string(),
        image_expired_in_sec: 3600,
        sns_user_profile_changed: "".to_string(),
        sns_email_sent_requested: "".to_string(),
        sns_user_identity_linked_changed: "".to_string(),
        sns_user_the1_get_profile_updated: "".to_string(),
        s3_profile_bucket: "bucket".to_string(),
        cloudfront_base_endpoint: "https://cdn.example.com".to_string(),
        cloudfront_key_id: "key-id".to_string(),
    }
}

fn make_customer_with_image(id: u128, image_key: Option<&str>) -> Customer {
    Customer {
        id,
        email: None,
        phone: None,
        email_verified: false,
        phone_verified: false,
        locale: Locale::En,
        has_consent: true,
        is_deleted: false,
        client_id: None,
        created_at: instant(),
        updated_at: instant(),
        profile: Some(CustomerProfile {
            id: 1000,
            user_uuid: id,
            first_name: None,
            last_name: None,
            birthdate: None,
            gender: None,
            profile_image: image_key.map(|k| k.to_string()),
            nationality: None,
            created_at: instant(),
            updated_at: instant(),
        }),
    }
}

/// Customer repository, object storage and URL signer in one.
struct Mock {
    user_uuid: u128,
    exists: bool,
    image: Option<&'static str>,
    storage_fails: bool,
    calls: Vec<String>,
}

impl Mock {
    fn new(image: Option<&'static str>) -> Self {
        Mock { user_uuid: 0xabc, exists: true, image, storage_fails: false, calls: vec![] }
    }

    fn answer(&mut self, effect: &Effect) -> Outcome {
        match effect {
            Effect::FindCustomerById { id } => {
                Outcome::Customer(Ok(if self.exists { Some(make_customer_with_image(*id, self.image)) } else { None }))
            }
            Effect::UploadImage { key, .. } => {
                self.calls.push(format!("upload {}", key));
                Outcome::Uploaded(if self.storage_fails { Err("s3 error".to_string()) } else { Ok(key.clone()) })
            }
            Effect::DeleteImage { key } => {
                self.calls.push(format!("delete {}", key));
                Outcome::Delivered(if self.storage_fails { Err("s3 error".to_string()) } else { Ok(()) })
            }
            Effect::UpdateProfileImage { image_key, .. } => {
                self.calls.push(format!("record {:?}", image_key));
                Outcome::Stored(Ok(()))
            }
            Effect::SignUrl { key } => Outcome::Signed(Ok(format!("https://cdn.example.com/{}?signature=abc", key))),
            other => panic!("unexpected call {:?}", other),
        }
    }
}

fn upload(mock: &mut Mock, size: usize, content_type: &str) -> Result<ProfileImageResponse, ApplicationError> {
    let settings = ImageSettings::from_config(&make_config());
    drive(
        UploadImageFlow::start(mock.user_uuid, vec![0u8; size], content_type.to_string(), size, &settings),
        UploadImageFlow::can_resume,
        UploadImageFlow::resume,
        |e| mock.answer(e),
    )
}

fn get_image(mock: &mut Mock) -> Result<ProfileImageResponse, ApplicationError> {
    drive(GetImageFlow::start(mock.user_uuid), GetImageFlow::can_resume, GetImageFlow::resume, |e| mock.answer(e))
}

fn delete_image(mock: &mut Mock) -> Result<(), ApplicationError> {
    drive(DeleteImageFlow::start(mock.user_uuid), DeleteImageFlow::can_resume, DeleteImageFlow::resume, |e| mock.answer(e))
}

fn check_upload_returns_signed_url() {
    let mut mock = Mock::new(None);
    let res = upload(&mut mock, 100, "image/jpeg").unwrap();
    assert!(res.url.contains("cdn.example.com"));
}

fn check_upload_rejects_type() {
    let mut mock = Mock::new(None);
    let err = upload(&mut mock, 0, "application/pdf").unwrap_err();
    assert!(matches!(err, ApplicationError::BadRequest(_)));
}

fn check_upload_rejects_size() {
    let mut mock = Mock::new(None);
    let err = upload(&mut mock, 3 * 1024 * 1024, "image/jpeg").unwrap_err();
    assert!(matches!(err, ApplicationError::BadRequest(_)));
}

fn check_get_image() {
    let mut mock = Mock::new(Some("profiles/uuid"));
    let res = get_image(&mut mock).unwrap();
    assert!(res.url.contains("profiles/uuid"));
}

fn check_get_image_customer_not_found() {
    let mut mock = Mock::new(None);
    mock.exists = false;
    let err = get_image(&mut mock).unwrap_err();
    assert!(matches!(err, ApplicationError::NotFound(_)));
}

fn check_get_image_no_key() {
    let mut mock = Mock::new(None);
    let err = get_image(&mut mock).unwrap_err();
    assert!(matches!(err, ApplicationError::NotFound(_)));
}

fn check_delete_image() {
    let mut mock = Mock::new(Some("profiles/uuid"));
    assert!(delete_image(&mut mock).is_ok());
}

fn check_delete_image_no_image() {
    let mut mock = Mock::new(None);
    let err = delete_image(&mut mock).unwrap_err();
    assert!(matches!(err, ApplicationError::NotFound(_)));
}

#[test]
fn profile_images_use_cases_upload_returns_signed_url() {
    check_upload_returns_signed_url();
}

#[test]
fn use_cases_upload_returns_signed_url() {
    check_upload_returns_signed_url();
}

#[test]
fn profile_images_use_cases_upload_rejects_unsupported_content_type() {
    check_upload_rejects_type();
}

#[test]
fn use_cases_upload_rejects_unsupported_content_type() {
    check_upload_rejects_type();
}

#[test]
fn profile_images_use_cases_upload_rejects_oversized_file() {
    check_upload_rejects_size();
}

#[test]
fn use_cases_upload_rejects_oversized_file() {
    check_upload_rejects_size();
}

#[test]
fn profile_images_use_cases_get_image_returns_signed_url() {
    check_get_image();
}

#[test]
fn use_cases_get_image_returns_signed_url() {
    check_get_image();
}

#[test]
fn profile_images_use_cases_get_image_customer_not_found() {
    check_get_image_customer_not_found();
}

#[test]
fn use_cases_get_image_customer_not_found() {
    check_get_image_customer_not_found();
}

#[test]
fn profile_images_use_cases_get_image_no_image_key_returns_not_found() {
    check_get_image_no_key();
}

#[test]
fn use_cases_get_image_no_image_key_returns_not_found() {
    check_get_image_no_key();
}

#[test]
fn profile_images_use_cases_delete_image_succeeds() {
    check_delete_image();
}

#[test]
fn use_cases_delete_image_succeeds() {
    check_delete_image();
}

#[test]
fn profile_images_use_cases_delete_image_no_image_returns_not_found() {
    check_delete_image_no_image();
}

#[test]
fn use_cases_delete_image_no_image_returns_not_found() {
    check_delete_image_no_image();
}

#[test]
fn upload_stores_under_prefix_and_user_then_records_key() {
    let mut mock = Mock::new(None);
    upload(&mut mock, 10, "image/png").unwrap();
    let key = "profiles/00000000-0000-0000-0000-000000000abc";
    assert_eq!(
        mock.calls,
        vec![format!("upload {}", key), format!("record {:?}", Some(key.to_string()))]
    );
}

#[test]
fn upload_at_exact_size_limit_is_accepted() {
    let mut mock = Mock::new(None);
    assert!(upload(&mut mock, 2 * 1024 * 1024, "image/jpeg").is_ok());
    let mut mock = Mock::new(None);
    assert!(upload(&mut mock, 2 * 1024 * 1024 + 1, "image/jpeg").is_err());
}

#[test]
fn upload_storage_failure_is_external() {
    let mut mock = Mock::new(None);
    mock.storage_fails = true;
    match upload(&mut mock, 10, "image/jpeg") {
        Err(ApplicationError::External(m)) => assert_eq!(m, "s3 error"),
        other => panic!("unexpected result {:?}", other),
    }
}

#[test]
fn delete_image_removes_object_then_clears_key() {
    let mut mock = Mock::new(Some("profiles/uuid"));
    delete_image(&mut mock).unwrap();
    assert_eq!(mock.calls, vec!["delete profiles/uuid".to_string(), format!("record {:?}", None::<String>)]);
}
