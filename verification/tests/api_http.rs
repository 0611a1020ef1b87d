use customer_profile::api::auth::UserUuid;
use customer_profile::api::errors::AppError;
use customer_profile::api::health::{liveness, readiness, readiness_at};
use customer_profile::api::metrics::route_label;
use customer_profile::api::uploads::UploadForm;
use customer_profile::application::errors::ApplicationError;
use customer_profile::domain::errors::RepositoryError;
use customer_profile::domain::events::DispatchError;
use customer_profile::time::Timestamp;

fn mapped(e: ApplicationError) -> (u16, String, String, String) {
    let a = AppError::from_application_error(e);
    (a.status_code, a.type_url, a.title, a.detail)
}

#[test]
fn validation_error_is_422() {
    let (s, u, t, d) = mapped(ApplicationError::ValidationError("email: invalid".to_string()));
    assert_eq!(s, 422);
    assert_eq!(u, "https://datatracker.ietf.org/doc/html/rfc4918#section-11.2");
    assert_eq!(t, "Validation Error");
    assert_eq!(d, "email: invalid");
}

#[test]
fn not_found_is_404_with_message() {
    let (s, u, t, d) = mapped(ApplicationError::NotFound("customer x not found".to_string()));
    assert_eq!((s, t.as_str(), d.as_str()), (404, "Resource Not Found", "customer x not found"));
    assert_eq!(u, "https://datatracker.ietf.org/doc/html/rfc7231#section-6.5.4");
}

#[test]
fn bad_request_and_business_rule_are_400() {
    let (s, _, t, d) = mapped(ApplicationError::BadRequest("nope".to_string()));
    assert_eq!((s, t.as_str(), d.as_str()), (400, "Bad Request", "nope"));
    let (s, u, _, d) = mapped(ApplicationError::BusinessRuleViolation("rule".to_string()));
    assert_eq!((s, d.as_str()), (400, "rule"));
    assert_eq!(u, "https://datatracker.ietf.org/doc/html/rfc7231#section-6.5.1");
}

#[test]
fn external_is_502() {
    let (s, u, t, d) = mapped(ApplicationError::External("the1 api down".to_string()));
    assert_eq!((s, t.as_str(), d.as_str()), (502, "Bad Gateway", "the1 api down"));
    assert_eq!(u, "https://datatracker.ietf.org/doc/html/rfc7231#section-6.6.3");
}

#[test]
fn repository_errors_map_by_kind() {
    let (s, _, _, d) = mapped(ApplicationError::Repository(RepositoryError::NotFound("gone".to_string())));
    assert_eq!((s, d.as_str()), (404, "gone"));
    let (s, u, t, d) = mapped(ApplicationError::Repository(RepositoryError::Conflict("dup".to_string())));
    assert_eq!((s, t.as_str(), d.as_str()), (409, "Conflict", "dup"));
    assert_eq!(u, "https://datatracker.ietf.org/doc/html/rfc7231#section-6.5.8");
}

#[test]
fn internal_failures_hide_their_message() {
    let a = mapped(ApplicationError::Repository(RepositoryError::Backend("password=hunter2".to_string())));
    let b = mapped(ApplicationError::Dispatch(DispatchError::Backend("queue full".to_string())));
    assert_eq!(a, b);
    assert_eq!(a.0, 500);
    assert_eq!(a.1, "https://datatracker.ietf.org/doc/html/rfc7231#section-6.6.1");
    assert_eq!(a.2, "Internal Server Error");
    assert_eq!(a.3, "Internal server error");
}

#[test]
fn constructors_set_status_and_title() {
    let u = AppError::unauthorized("who".to_string());
    assert_eq!((u.status_code, u.title.as_str()), (401, "Unauthorized"));
    assert_eq!(u.type_url, "https://datatracker.ietf.org/doc/html/rfc7235#section-3.1");
    let n = AppError::new(418, "u".to_string(), "t".to_string(), "d".to_string());
    assert_eq!((n.status_code, n.type_url.as_str(), n.title.as_str(), n.detail.as_str()), (418, "u", "t", "d"));
}

#[test]
fn problem_details_copy_the_error() {
    let p = AppError::conflict("dup".to_string()).problem_details();
    assert_eq!(p.status, 409);
    assert_eq!(p.title, "Conflict");
    assert_eq!(p.detail, "dup");
    assert_eq!(p.type_url, "https://datatracker.ietf.org/doc/html/rfc7231#section-6.5.8");
}

#[test]
fn missing_user_header_is_unauthorized() {
    let e = UserUuid::from_header(None).unwrap_err();
    assert_eq!(e.status_code, 401);
    assert_eq!(e.detail, "missing user_uuid header");
}

#[test]
fn malformed_user_header_is_bad_request() {
    let e = UserUuid::from_header(Some("not-a-uuid")).unwrap_err();
    assert_eq!(e.status_code, 400);
    assert_eq!(e.detail, "invalid user_uuid header: not a valid UUID");
}

#[test]
fn user_header_gives_the_uuid() {
    let u = UserUuid::from_header(Some("67e55044-10b1-426f-9247-bb680e5fe0c8")).unwrap();
    assert_eq!(u, UserUuid(0x67e55044_10b1_426f_9247_bb680e5fe0c8));
    // the simple (unhyphenated) form is accepted as well
    let s = UserUuid::from_header(Some("67e5504410b1426f9247bb680e5fe0c8")).unwrap();
    assert_eq!(s, u);
}

#[test]
fn liveness_is_ok() {
    assert_eq!(liveness().status, "ok");
}

#[test]
fn readiness_reports_database_state() {
    let at = Timestamp::from_parts(0, 0).unwrap();
    let (code, r) = readiness_at(at, Ok(()));
    assert_eq!(code, 200);
    assert_eq!(r.status, "ready");
    assert_eq!(r.timestamp, "1970-01-01T00:00:00+00:00");
    assert_eq!((r.services.api.as_str(), r.services.database.as_str()), ("ok", "ok"));
    assert!(r.error.is_none());
    let (code, r) = readiness_at(at, Err("connection refused".to_string()));
    assert_eq!(code, 503);
    assert_eq!(r.status, "not_ready");
    assert_eq!(r.services.database, "error");
    assert_eq!(r.error.as_deref(), Some("connection refused"));
}

#[test]
fn readiness_now_is_stamped() {
    let (code, r) = readiness(Ok(()));
    assert_eq!(code, 200);
    assert!(r.timestamp.ends_with("+00:00"));
}

#[test]
fn upload_form_defaults_and_file_part() {
    let mut form = UploadForm::new();
    assert!(form.data.is_empty());
    assert_eq!(form.content_type, "image/jpeg");
    assert!(UploadForm::is_file_field(Some("file")));
    assert!(!UploadForm::is_file_field(Some("avatar")));
    assert!(!UploadForm::is_file_field(None));
    form.take_file(Some("image/png"), vec![1, 2, 3]);
    assert_eq!(form.content_type, "image/png");
    assert_eq!(form.data, vec![1, 2, 3]);
    form.take_file(None, vec![9]);
    assert_eq!(form.content_type, "image/jpeg");
    assert_eq!(form.data, vec![9]);
}

#[test]
fn route_label_falls_back_to_unmatched() {
    assert_eq!(route_label(Some("/v1/customers/{id}")), "/v1/customers/{id}");
    assert_eq!(route_label(None), "<unmatched>");
}

#[test]
fn user_header_accepts_every_uuid_layout() {
    let v = UserUuid(0x67e55044_10b1_426f_9247_bb680e5fe0c8);
    assert_eq!(UserUuid::from_header(Some("67E55044-10B1-426F-9247-BB680E5FE0C8")).unwrap(), v);
    assert_eq!(UserUuid::from_header(Some("{67e55044-10b1-426f-9247-bb680e5fe0c8}")).unwrap(), v);
    assert_eq!(UserUuid::from_header(Some("URN:uuid:67e55044-10b1-426f-9247-bb680e5fe0c8")).unwrap(), v);
    assert!(UserUuid::from_header(Some("67e55044-10b1-426f-9247_bb680e5fe0c8")).is_err());
    assert!(UserUuid::from_header(Some("67e55044-10b1-426f-9247-bb680e5fe0c")).is_err());
    assert!(UserUuid::from_header(Some("g7e5504410b1426f9247bb680e5fe0c8")).is_err());
    assert!(UserUuid::from_header(Some("(67e55044-10b1-426f-9247-bb680e5fe0c8)")).is_err());
}
