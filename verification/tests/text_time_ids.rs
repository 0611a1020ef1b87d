use customer_profile::application::customers::{
    gender_to_str, locale_to_str, normalize_phone, parse_gender, parse_locale, CustomerResponse,
};
use customer_profile::application::identities::IdentityResponse;
use customer_profile::application::profile_changes::{
    change_status_to_str, change_type_to_str, fill_otp, generate_otp_code, generate_ref_code, parse_change_type,
    ProfileChangeResponse,
};
use customer_profile::application::profile_images::image_key_of;
use customer_profile::application::errors::ApplicationError;
use customer_profile::domain::customer::{Customer, CustomerProfile, Gender, Locale};
use customer_profile::domain::identity::Identity;
use customer_profile::domain::profile_change::{ChangeStatus, ChangeType, ProfileChange};
use customer_profile::text::format_six_digits;
use customer_profile::time::{parse_date, CalendarDate, Timestamp, MAX_DAY, MAX_SECS, MIN_DAY, MIN_SECS};

#[test]
fn normalize_phone_replaces_leading_zero() {
    assert_eq!(normalize_phone("0812345678", "+66"), "+66812345678");
    assert_eq!(normalize_phone("+66812345678", "+66"), "+66812345678");
    assert_eq!(normalize_phone("812345678", "+66"), "812345678");
    assert_eq!(normalize_phone("", "+66"), "");
    assert_eq!(normalize_phone("0", "+66"), "+66");
    // only the first zero goes
    assert_eq!(normalize_phone("00812", "+66"), "+660812");
}

#[test]
fn normalizing_twice_changes_nothing_more() {
    let once = normalize_phone("0812345678", "+66");
    assert_eq!(normalize_phone(&once, "+66"), once);
}

#[test]
fn enum_texts() {
    assert_eq!(locale_to_str(&Locale::Th), "th");
    assert_eq!(locale_to_str(&Locale::En), "en");
    assert_eq!(gender_to_str(&Gender::NotToSay), "not_to_say");
    assert_eq!(gender_to_str(&Gender::Unspecified), "unspecified");
    assert_eq!(change_type_to_str(&ChangeType::Telephone), "telephone");
    assert_eq!(change_status_to_str(&ChangeStatus::PendingChangeTopConfirmation), "pending_change_top_confirmation");
    assert_eq!(change_status_to_str(&ChangeStatus::Completed), "completed");
}

#[test]
fn parsing_is_case_insensitive() {
    assert_eq!(parse_locale("EN"), Locale::En);
    assert_eq!(parse_locale("th"), Locale::Th);
    assert_eq!(parse_locale("fr"), Locale::Th);
    assert_eq!(parse_gender("FeMale"), Some(Gender::Female));
    assert_eq!(parse_gender("robot"), None);
    assert_eq!(parse_change_type("Email").unwrap(), ChangeType::Email);
    assert_eq!(parse_change_type("TELEPHONE").unwrap(), ChangeType::Telephone);
    match parse_change_type("fax") {
        Err(ApplicationError::BadRequest(m)) => assert_eq!(m, "invalid change_type 'fax': expected 'telephone' or 'email'"),
        other => panic!("unexpected result {:?}", other),
    }
}

#[test]
fn texts_read_back() {
    for l in [Locale::Th, Locale::En] {
        assert_eq!(parse_locale(locale_to_str(&l)), l);
    }
    for g in [Gender::Male, Gender::Female, Gender::Other, Gender::Unspecified, Gender::NotToSay] {
        assert_eq!(parse_gender(&gender_to_str(&g)), Some(g));
    }
    for t in [ChangeType::Telephone, ChangeType::Email] {
        assert_eq!(parse_change_type(change_type_to_str(&t)).unwrap(), t);
    }
}

#[test]
fn six_digit_codes() {
    assert_eq!(format_six_digits(0), "000000");
    assert_eq!(format_six_digits(42), "000042");
    assert_eq!(format_six_digits(999_999), "999999");
    for _ in 0..20 {
        let otp = generate_otp_code();
        assert_eq!(otp.len(), 6);
        assert!(otp.chars().all(|c| c.is_ascii_digit()));
        let r = generate_ref_code();
        assert_eq!(r.len(), 6);
        assert!(r.chars().all(|c| c.is_ascii_uppercase()));
    }
}

#[test]
fn otp_template_is_filled() {
    assert_eq!(fill_otp(&"OTP: {otp}".to_string(), &"123456".to_string()), "OTP: 123456");
    assert_eq!(fill_otp(&"{otp} / {otp}".to_string(), &"1".to_string()), "1 / 1");
    assert_eq!(fill_otp(&"no code".to_string(), &"1".to_string()), "no code");
}

#[test]
fn image_key_joins_prefix_and_uuid() {
    assert_eq!(image_key_of(&"profiles".to_string(), 0xff), "profiles/00000000-0000-0000-0000-0000000000ff");
}

#[test]
fn timestamps_in_range_only() {
    assert!(Timestamp::from_parts(MIN_SECS, 0).is_some());
    assert!(Timestamp::from_parts(MAX_SECS, 999_999_999).is_some());
    assert!(Timestamp::from_parts(MAX_SECS + 1, 0).is_none());
    assert!(Timestamp::from_parts(MIN_SECS - 1, 0).is_none());
    assert!(Timestamp::from_parts(0, 1_000_000_000).is_none());
    let t = Timestamp::from_parts(MAX_SECS, 0).unwrap();
    assert!(!t.fits_minutes(1));
    let t = Timestamp::from_parts(100, 5).unwrap();
    assert_eq!(t.add_minutes(2).secs(), 220);
    assert_eq!(t.add_minutes(2).nanos(), 5);
    assert!(t.is_before(&t.add_minutes(1)));
    assert!(!t.is_before(&t));
}

#[test]
fn rfc3339_texts() {
    assert_eq!(Timestamp::from_parts(0, 0).unwrap().to_rfc3339(), "1970-01-01T00:00:00+00:00");
    assert_eq!(Timestamp::from_parts(1_700_000_000, 500_000_000).unwrap().to_rfc3339(), "2023-11-14T22:13:20.500+00:00");
    // the ends of the range do not panic
    assert!(Timestamp::from_parts(MIN_SECS, 0).unwrap().to_rfc3339().starts_with("-262143"));
    assert!(Timestamp::from_parts(MAX_SECS, 0).unwrap().to_rfc3339().starts_with("+262142"));
}

#[test]
fn calendar_dates() {
    let d = parse_date("1990-02-03").unwrap();
    assert_eq!(d.to_text(), "1990-02-03");
    assert!(parse_date("1990-02-30").is_none());
    assert!(parse_date("not a date").is_none());
    assert_eq!(CalendarDate::from_days(1).unwrap().to_text(), "0001-01-01");
    assert!(CalendarDate::from_days(MIN_DAY).is_some());
    assert!(CalendarDate::from_days(MAX_DAY + 1).is_none());
    let _ = CalendarDate::from_days(MAX_DAY).unwrap().to_text();
    let _ = CalendarDate::from_days(MIN_DAY).unwrap().to_text();
}

#[test]
fn responses_show_ids_as_hyphenated_text() {
    let t = Timestamp::from_parts(0, 0).unwrap();
    let i = IdentityResponse::from(Identity {
        id: 0x0123_4567_89ab_cdef_0123_4567_89ab_cdef,
        user_uuid: 1,
        provider_name: "google".to_string(),
        external_id: "x".to_string(),
        provider_id_token: None,
        provider_access_token: None,
        provider_refresh_token: None,
        is_deleted: false,
        created_at: t,
        updated_at: t,
    });
    assert_eq!(i.id, "01234567-89ab-cdef-0123-456789abcdef");
    assert_eq!(i.user_uuid, "00000000-0000-0000-0000-000000000001");
    assert_eq!(i.created_at, "1970-01-01T00:00:00+00:00");

    let c = CustomerResponse::from(Customer {
        id: 2,
        email: None,
        phone: None,
        email_verified: true,
        phone_verified: false,
        locale: Locale::Th,
        has_consent: false,
        is_deleted: false,
        client_id: None,
        created_at: t,
        updated_at: t,
        profile: Some(CustomerProfile {
            id: 3,
            user_uuid: 2,
            first_name: Some("A".to_string()),
            last_name: None,
            birthdate: parse_date("2000-12-31"),
            gender: Some(Gender::Other),
            profile_image: None,
            nationality: None,
            created_at: t,
            updated_at: t,
        }),
    });
    assert_eq!(c.id, "00000000-0000-0000-0000-000000000002");
    assert_eq!(c.locale, "th");
    assert_eq!(c.birthdate.as_deref(), Some("2000-12-31"));
    assert_eq!(c.gender.as_deref(), Some("other"));
    assert_eq!(c.first_name.as_deref(), Some("A"));

    let p = ProfileChangeResponse::from(ProfileChange {
        id: 4,
        user_uuid: 5,
        change_type: ChangeType::Telephone,
        identifier: None,
        old_value: None,
        new_value: Some("+66899999999".to_string()),
        status: ChangeStatus::PendingVerifyOtp,
        token: None,
        token_expired_at: t,
        otp: Some("123456".to_string()),
        ref_code: Some("ABCDEF".to_string()),
        next_otp_request_at: t,
        otp_expired_at: t,
        created_at: t,
        updated_at: t,
    });
    assert_eq!(p.change_type, "telephone");
    assert_eq!(p.status, "pending_verify_otp");
    assert_eq!(p.id, "00000000-0000-0000-0000-000000000004");
}
