//! Changing a customer's phone number or email address through an OTP.
use vstd::prelude::*;
use vstd::string::*;
use crate::application::config::AppConfig;
use crate::application::customers::{customer_missing, customer_missing_message, profile_changed_event, profile_changed_payload};
use crate::application::errors::{bad_request, ApplicationError, ApplicationErrorView};
use crate::application::events::{EmailSentRequestedPayload, EventPayload};
use crate::application::flow::{Effect, Outcome, OutcomeKind, Step};
use crate::application::identities::{fails_with, repository_failure};
use crate::domain::customer::UpdateCustomer;
use crate::domain::profile_change::{ChangeStatus, ChangeType, CreateProfileChange, ProfileChange};
use crate::ids::{uuid_hyphenated, uuid_to_string};
use crate::text::{
    ascii_lower, format_six_digits, is_lower_word, lemma_lower_word_is_lowercase, lowercase_of, normalized_phone,
    push_char, replace_all, replaced, six_digits, to_lowercase,
};
use crate::time::{can_add_minutes, earlier, plus_minutes, rfc3339_text, Timestamp};

pub use crate::text::normalize_phone;

verus! {

/// `rand::thread_rng().gen_range(lo..=hi)`: a random number in `lo..=hi`.
/// Which one is left open.
#[verifier::external_body]
fn random_in(lo: u32, hi: u32) -> (r: u32)
    requires
        lo <= hi,
    ensures
        lo <= r <= hi,
{
    rand::Rng::gen_range(&mut rand::thread_rng(), lo..=hi)
}

/// A six-digit OTP: a random number in `0..=999_999`, zero-padded.
pub fn generate_otp_code() -> (r: String)
    ensures
        exists|n: int| 0 <= n <= 999_999 && r@ == six_digits(n),
{
    let n = random_in(0, 999_999);
    format_six_digits(n)
}

/// Whether every character is an uppercase ASCII letter.
pub open spec fn all_upper(s: Seq<char>) -> bool {
    forall|i: int| 0 <= i < s.len() ==> 'A' <= #[trigger] s[i] <= 'Z'
}

/// The uppercase ASCII letter with this code.
fn upper_letter(code: u32) -> (c: char)
    requires
        65 <= code <= 90,
    ensures
        c as int == code,
        'A' <= c <= 'Z',
{
    let letters: [char; 26] = ['A', 'B', 'C', 'D', 'E', 'F', 'G', 'H', 'I', 'J', 'K', 'L', 'M',
        'N', 'O', 'P', 'Q', 'R', 'S', 'T', 'U', 'V', 'W', 'X', 'Y', 'Z'];
    let c = letters[(code - 65) as usize];
    assert(letters@ =~= seq!['A', 'B', 'C', 'D', 'E', 'F', 'G', 'H', 'I', 'J', 'K', 'L', 'M',
        'N', 'O', 'P', 'Q', 'R', 'S', 'T', 'U', 'V', 'W', 'X', 'Y', 'Z']);
    c
}

/// A reference code of six random uppercase letters.
pub fn generate_ref_code() -> (r: String)
    ensures
        r@.len() == 6,
        all_upper(r@),
{
    let mut out = String::new();
    let mut k: usize = 0;
    while k < 6
        invariant
            k <= 6,
            out@.len() == k,
            all_upper(out@),
        decreases 6 - k,
    {
        let code = random_in(65, 90);
        let c = upper_letter(code);
        push_char(&mut out, c);
        k = k + 1;
    }
    out
}

/// A freshly drawn OTP and reference code.
#[derive(Debug)]
pub struct OtpCodes {
    otp: String,
    ref_code: String,
}

impl OtpCodes {
    #[verifier::type_invariant]
    spec fn well_formed(self) -> bool {
        &&& exists|n: int| 0 <= n <= 999_999 && self.otp@ == six_digits(n)
        &&& self.ref_code@.len() == 6
        &&& all_upper(self.ref_code@)
    }

    /// The OTP.
    pub closed spec fn otp_text(self) -> Seq<char> {
        self.otp@
    }

    /// The reference code.
    pub closed spec fn ref_text(self) -> Seq<char> {
        self.ref_code@
    }

    /// Draws a new OTP and reference code: the OTP is a random number in
    /// `0..=999_999` written with six digits, the reference code six random
    /// uppercase letters. Which ones are drawn is left open.
    pub fn draw() -> (r: OtpCodes)
        ensures
            exists|n: int| 0 <= n <= 999_999 && r.otp_text() == six_digits(n),
            r.ref_text().len() == 6,
            all_upper(r.ref_text()),
    {
        let otp = generate_otp_code();
        let ref_code = generate_ref_code();
        OtpCodes { otp, ref_code }
    }

    /// The OTP: six decimal digits.
    pub fn otp(&self) -> (r: &String)
        ensures
            r@ == self.otp_text(),
            exists|n: int| 0 <= n <= 999_999 && r@ == six_digits(n),
    {
        proof {
            use_type_invariant(self);
        }
        &self.otp
    }

    /// The reference code: six uppercase letters.
    pub fn ref_code(&self) -> (r: &String)
        ensures
            r@ == self.ref_text(),
            r@.len() == 6,
            all_upper(r@),
    {
        proof {
            use_type_invariant(self);
        }
        &self.ref_code
    }
}

} // verus!

verus! {

/// Request to start a change.
#[derive(Debug)]
pub struct CreateProfileChangeRequest {
    pub change_type: String,
    pub new_value: String,
}

/// Request to resend the OTP; carries the token of the request.
#[derive(Debug)]
pub struct UpdateProfileChangeRequest {
    pub token: String,
}

/// Request to verify the OTP.
#[derive(Debug)]
pub struct VerifyProfileChangeRequest {
    pub otp: String,
}

/// A change request as the API shows it (without the OTP itself).
#[derive(Debug)]
pub struct ProfileChangeResponse {
    pub id: String,
    pub user_uuid: String,
    pub change_type: String,
    pub identifier: Option<String>,
    pub old_value: Option<String>,
    pub new_value: Option<String>,
    pub status: String,
    pub token: Option<String>,
    pub token_expired_at: String,
    pub ref_code: Option<String>,
    pub next_otp_request_at: String,
    pub otp_expired_at: String,
    pub created_at: String,
    pub updated_at: String,
}

/// Text of a change type.
pub open spec fn change_type_text(t: ChangeType) -> Seq<char> {
    match t {
        ChangeType::Telephone => "telephone"@,
        ChangeType::Email => "email"@,
    }
}

/// Text of a change status.
pub open spec fn change_status_text(s: ChangeStatus) -> Seq<char> {
    match s {
        ChangeStatus::PendingVerifyOtp => "pending_verify_otp"@,
        ChangeStatus::VerifyChangeCompleted => "verify_change_completed"@,
        ChangeStatus::PendingChangeTopConfirmation => "pending_change_top_confirmation"@,
        ChangeStatus::Completed => "completed"@,
    }
}

/// Lowercase text of a change type.
pub fn change_type_to_str(ct: &ChangeType) -> (r: &'static str)
    ensures
        r@ == change_type_text(*ct),
{
    match ct {
        ChangeType::Telephone => "telephone",
        ChangeType::Email => "email",
    }
}

/// Lowercase text of a change status.
pub fn change_status_to_str(cs: &ChangeStatus) -> (r: &'static str)
    ensures
        r@ == change_status_text(*cs),
{
    match cs {
        ChangeStatus::PendingVerifyOtp => "pending_verify_otp",
        ChangeStatus::VerifyChangeCompleted => "verify_change_completed",
        ChangeStatus::PendingChangeTopConfirmation => "pending_change_top_confirmation",
        ChangeStatus::Completed => "completed",
    }
}

/// The change type a lowercased text names.
pub open spec fn change_type_named(lower: Seq<char>) -> Option<ChangeType> {
    if lower == "telephone"@ {
        Some(ChangeType::Telephone)
    } else if lower == "email"@ {
        Some(ChangeType::Email)
    } else {
        None
    }
}

/// Message for a text that names no change type.
pub open spec fn bad_change_type_message(s: Seq<char>) -> Seq<char> {
    "invalid change_type '"@ + s + "': expected 'telephone' or 'email'"@
}

/// The change type named by an already lowercased text.
pub fn change_type_from_lowercase(lower: &String) -> (r: Option<ChangeType>)
    ensures
        r == change_type_named(lower@),
{
    if *lower == String::from_str("telephone") {
        Some(ChangeType::Telephone)
    } else if *lower == String::from_str("email") {
        Some(ChangeType::Email)
    } else {
        None
    }
}

/// Change type of a text, compared case-insensitively; any other text is a
/// `BadRequest` that quotes it.
pub fn parse_change_type(s: &str) -> (r: Result<ChangeType, ApplicationError>)
    ensures
        match change_type_named(lowercase_of(s@)) {
            Some(t) => r == Ok::<ChangeType, ApplicationError>(t),
            None => r matches Err(e) && e@ == ApplicationErrorView::BadRequest(bad_change_type_message(s@)),
        },
        vstd::utf8::is_ascii_chars(s@) ==> match change_type_named(
            s@.map_values(|c: char| crate::text::ascii_lower(c)),
        ) {
            Some(t) => r == Ok::<ChangeType, ApplicationError>(t),
            None => r matches Err(e) && e@ == ApplicationErrorView::BadRequest(bad_change_type_message(s@)),
        },
{
    let lower = to_lowercase(s);
    match change_type_from_lowercase(&lower) {
        Some(t) => Ok(t),
        None => {
            let mut msg = String::from_str("invalid change_type '");
            msg.append(s);
            msg.append("': expected 'telephone' or 'email'");
            Err(ApplicationError::BadRequest(msg))
        },
    }
}

/// The text of a change type reads back as that change type:
/// `parse_change_type` of what `change_type_to_str` writes is `Ok` of it.
pub proof fn change_type_text_reads_back(t: ChangeType)
    ensures
        vstd::utf8::is_ascii_chars(change_type_text(t)),
        change_type_named(change_type_text(t).map_values(|c: char| ascii_lower(c))) == Some(t),
{
    reveal_strlit("telephone");
    reveal_strlit("email");
    assert(is_lower_word(change_type_text(t)));
    lemma_lower_word_is_lowercase(change_type_text(t));
}

/// Distinct statuses have distinct texts.
pub proof fn change_status_texts_differ(a: ChangeStatus, b: ChangeStatus)
    requires
        a != b,
    ensures
        change_status_text(a) != change_status_text(b),
{
    reveal_strlit("pending_verify_otp");
    reveal_strlit("verify_change_completed");
    reveal_strlit("pending_change_top_confirmation");
    reveal_strlit("completed");
    if change_status_text(a).len() == change_status_text(b).len() {
        assert(change_status_text(a)[0] != change_status_text(b)[0] || change_status_text(a)[1] != change_status_text(b)[1]);
    }
}

/// The RFC 3339 text of an instant.
pub open spec fn instant_text(t: Timestamp) -> Seq<char> {
    rfc3339_text(t@.0, t@.1)
}

impl ProfileChangeResponse {
    /// `self` shows `pc`: ids as hyphenated text, type and status as
    /// lowercase words, instants as RFC 3339, the OTP left out.
    pub open spec fn shows(self, pc: ProfileChange) -> bool {
        &&& self.id@ == uuid_hyphenated(pc.id)
        &&& self.user_uuid@ == uuid_hyphenated(pc.user_uuid)
        &&& self.change_type@ == change_type_text(pc.change_type)
        &&& self.identifier == pc.identifier
        &&& self.old_value == pc.old_value
        &&& self.new_value == pc.new_value
        &&& self.status@ == change_status_text(pc.status)
        &&& self.token == pc.token
        &&& self.token_expired_at@ == instant_text(pc.token_expired_at)
        &&& self.ref_code == pc.ref_code
        &&& self.next_otp_request_at@ == instant_text(pc.next_otp_request_at)
        &&& self.otp_expired_at@ == instant_text(pc.otp_expired_at)
        &&& self.created_at@ == instant_text(pc.created_at)
        &&& self.updated_at@ == instant_text(pc.updated_at)
    }

    /// The response that shows a change request.
    pub fn from(pc: ProfileChange) -> (r: ProfileChangeResponse)
        ensures
            r.shows(pc),
    {
        ProfileChangeResponse {
            id: uuid_to_string(pc.id),
            user_uuid: uuid_to_string(pc.user_uuid),
            change_type: String::from_str(change_type_to_str(&pc.change_type)),
            identifier: pc.identifier,
            old_value: pc.old_value,
            new_value: pc.new_value,
            status: String::from_str(change_status_to_str(&pc.status)),
            token: pc.token,
            token_expired_at: pc.token_expired_at.to_rfc3339(),
            ref_code: pc.ref_code,
            next_otp_request_at: pc.next_otp_request_at.to_rfc3339(),
            otp_expired_at: pc.otp_expired_at.to_rfc3339(),
            created_at: pc.created_at.to_rfc3339(),
            updated_at: pc.updated_at.to_rfc3339(),
        }
    }
}

/// The configuration values the change flows read.
#[derive(Debug)]
pub struct ChangeSettings {
    pub phone_number_format: String,
    pub otp_text: String,
    pub otp_expired_time: u32,
    pub profile_change_expired_time: u32,
    pub token_expired_time: u32,
    pub sns_email_sent_requested: String,
    pub sns_user_profile_changed: String,
}

impl ChangeSettings {
    /// The settings taken from the configuration.
    pub fn from_config(config: &AppConfig) -> (r: ChangeSettings)
        ensures
            r.phone_number_format == config.phone_number_format,
            r.otp_text == config.otp_text,
            r.otp_expired_time == config.otp_expired_time,
            r.profile_change_expired_time == config.profile_change_expired_time,
            r.token_expired_time == config.token_expired_time,
            r.sns_email_sent_requested == config.sns_email_sent_requested,
            r.sns_user_profile_changed == config.sns_user_profile_changed,
    {
        ChangeSettings {
            phone_number_format: config.phone_number_format.clone(),
            otp_text: config.otp_text.clone(),
            otp_expired_time: config.otp_expired_time,
            profile_change_expired_time: config.profile_change_expired_time,
            token_expired_time: config.token_expired_time,
            sns_email_sent_requested: config.sns_email_sent_requested.clone(),
            sns_user_profile_changed: config.sns_user_profile_changed.clone(),
        }
    }
}

/// The SMS text carrying an OTP: the template with every `{otp}` replaced.
pub open spec fn otp_message(template: Seq<char>, otp: Seq<char>) -> Seq<char> {
    replaced(template, "{otp}"@, otp)
}

/// Fills the OTP into the SMS template.
pub fn fill_otp(template: &String, otp: &String) -> (r: String)
    ensures
        r@ == otp_message(template@, otp@),
{
    proof {
        reveal_strlit("{otp}");
    }
    replace_all(template.as_str(), "{otp}", otp.as_str())
}

/// The value a change stores as new: a phone number is normalised, an
/// email kept as given.
pub open spec fn new_value_for(t: ChangeType, value: Seq<char>, format: Seq<char>) -> Seq<char> {
    match t {
        ChangeType::Telephone => normalized_phone(value, format),
        ChangeType::Email => value,
    }
}

} // verus!

verus! {

/// The "email OTP requested" event.
pub open spec fn email_otp_event(payload: EventPayload, user_uuid: u128, email: Seq<char>, otp: Seq<char>, ref_code: Seq<char>, expires: Timestamp) -> bool {
    payload matches EventPayload::EmailSentRequested(p) && p.user_uuid@ == uuid_hyphenated(user_uuid)
        && p.email@ == email && p.otp@ == otp && p.ref_code@ == ref_code && p.otp_expired_at@ == instant_text(expires)
}

/// The record a new change request stores.
pub open spec fn new_change_record(
    data: CreateProfileChange,
    user_uuid: u128,
    change_type: ChangeType,
    old_value: Option<String>,
    new_value: String,
    codes: OtpCodes,
    now: Timestamp,
    settings: ChangeSettings,
) -> bool {
    &&& data.user_uuid == user_uuid
    &&& data.change_type == change_type
    &&& data.identifier is None
    &&& data.old_value == old_value
    &&& data.new_value == Some(new_value)
    &&& data.status == ChangeStatus::PendingVerifyOtp
    &&& data.otp matches Some(o) && o@ == codes.otp_text()
    &&& data.ref_code matches Some(c) && c@ == codes.ref_text()
    &&& data.otp_expired_at@ == plus_minutes(now@, settings.otp_expired_time as int)
    &&& data.next_otp_request_at@ == plus_minutes(now@, 1)
    &&& data.token_expired_at@ == plus_minutes(now@, settings.profile_change_expired_time as int)
}

/// `create_profile_change`: starts a phone or email change.
///
/// An unknown change type is a `BadRequest`; so is a second active request
/// of the same type. The current value is kept as the old value and a new
/// phone number is normalised. A fresh OTP is stored with its expiry times;
/// for a phone change it is sent by SMS (a failed SMS is an `External`
/// error), for an email change the "email OTP requested" event is published.
#[derive(Debug)]
pub enum CreateProfileChangeFlow {
    AwaitActive { user_uuid: u128, change_type: ChangeType, new_value: String, settings: ChangeSettings },
    AwaitCustomer { user_uuid: u128, change_type: ChangeType, new_value: String, settings: ChangeSettings },
    AwaitCodes {
        user_uuid: u128,
        change_type: ChangeType,
        old_value: Option<String>,
        new_value: String,
        settings: ChangeSettings,
    },
    AwaitClock {
        user_uuid: u128,
        change_type: ChangeType,
        old_value: Option<String>,
        new_value: String,
        codes: OtpCodes,
        settings: ChangeSettings,
    },
    AwaitCreated {
        user_uuid: u128,
        change_type: ChangeType,
        new_value: String,
        otp: String,
        ref_code: String,
        otp_expired_at: Timestamp,
        settings: ChangeSettings,
    },
    AwaitSms { response: ProfileChangeResponse },
    AwaitPublished { response: ProfileChangeResponse },
}

impl CreateProfileChangeFlow {
    /// Kind of outcome awaited.
    pub open spec fn awaited(self) -> OutcomeKind {
        match self {
            CreateProfileChangeFlow::AwaitActive { .. } => OutcomeKind::ProfileChange,
            CreateProfileChangeFlow::AwaitCustomer { .. } => OutcomeKind::Customer,
            CreateProfileChangeFlow::AwaitCodes { .. } => OutcomeKind::Codes,
            CreateProfileChangeFlow::AwaitClock { .. } => OutcomeKind::Clock,
            CreateProfileChangeFlow::AwaitCreated { .. } => OutcomeKind::SavedProfileChange,
            CreateProfileChangeFlow::AwaitSms { .. } => OutcomeKind::Delivered,
            CreateProfileChangeFlow::AwaitPublished { .. } => OutcomeKind::Delivered,
        }
    }

    /// Whether `resume` accepts this outcome: one of the awaited kind, and a
    /// clock reading from which every expiry time can be computed (`chrono`
    /// panics past its range).
    pub open spec fn accepts(self, o: Outcome) -> bool {
        &&& o.kind_of() == self.awaited()
        &&& (self matches CreateProfileChangeFlow::AwaitClock { settings, .. } ==> (o matches Outcome::Clock(now) ==> {
            &&& can_add_minutes(now@, settings.otp_expired_time as int)
            &&& can_add_minutes(now@, 1)
            &&& can_add_minutes(now@, settings.profile_change_expired_time as int)
        }))
    }

    /// Exec form of `accepts`.
    pub fn can_resume(&self, o: &Outcome) -> (b: bool)
        ensures
            b == self.accepts(*o),
    {
        match self {
            CreateProfileChangeFlow::AwaitActive { .. } => matches!(o, Outcome::ProfileChange(_)),
            CreateProfileChangeFlow::AwaitCustomer { .. } => matches!(o, Outcome::Customer(_)),
            CreateProfileChangeFlow::AwaitCodes { .. } => matches!(o, Outcome::Codes(_)),
            CreateProfileChangeFlow::AwaitClock { settings, .. } => match o {
                Outcome::Clock(now) => now.fits_minutes(settings.otp_expired_time) && now.fits_minutes(1)
                    && now.fits_minutes(settings.profile_change_expired_time),
                _ => false,
            },
            CreateProfileChangeFlow::AwaitCreated { .. } => matches!(o, Outcome::SavedProfileChange(_)),
            CreateProfileChangeFlow::AwaitSms { .. } => matches!(o, Outcome::Delivered(_)),
            CreateProfileChangeFlow::AwaitPublished { .. } => matches!(o, Outcome::Delivered(_)),
        }
    }

    /// The step taken from `self` on outcome `o`.
    pub open spec fn transition(self, o: Outcome, r: Step<CreateProfileChangeFlow, ProfileChangeResponse>) -> bool {
        match self {
            CreateProfileChangeFlow::AwaitActive { user_uuid, change_type, new_value, settings } => match o {
                Outcome::ProfileChange(Ok(Some(_))) => fails_with(
                    r,
                    ApplicationErrorView::BadRequest("an active profile change of this type already exists"@),
                ),
                Outcome::ProfileChange(Ok(None)) => r == Step::<CreateProfileChangeFlow, ProfileChangeResponse>::Perform(
                    CreateProfileChangeFlow::AwaitCustomer { user_uuid, change_type, new_value, settings },
                    Effect::FindCustomerById { id: user_uuid },
                ),
                Outcome::ProfileChange(Err(e)) => repository_failure(r, e),
                _ => true,
            },
            CreateProfileChangeFlow::AwaitCustomer { user_uuid, change_type, new_value, settings } => match o {
                Outcome::Customer(Ok(None)) => fails_with(r, ApplicationErrorView::NotFound(customer_missing_message(user_uuid))),
                Outcome::Customer(Ok(Some(c))) => match r {
                    Step::Perform(CreateProfileChangeFlow::AwaitCodes { user_uuid: u, change_type: t, old_value, new_value: v, settings: s }, Effect::DrawCodes) => {
                        &&& u == user_uuid && t == change_type && s == settings
                        &&& old_value == (match change_type {
                            ChangeType::Telephone => c.phone,
                            ChangeType::Email => c.email,
                        })
                        &&& v@ == new_value_for(change_type, new_value@, settings.phone_number_format@)
                    },
                    _ => false,
                },
                Outcome::Customer(Err(e)) => repository_failure(r, e),
                _ => true,
            },
            CreateProfileChangeFlow::AwaitCodes { user_uuid, change_type, old_value, new_value, settings } => match o {
                Outcome::Codes(codes) => r == Step::<CreateProfileChangeFlow, ProfileChangeResponse>::Perform(
                    CreateProfileChangeFlow::AwaitClock { user_uuid, change_type, old_value, new_value, codes, settings },
                    Effect::ReadClock,
                ),
                _ => true,
            },
            CreateProfileChangeFlow::AwaitClock { user_uuid, change_type, old_value, new_value, codes, settings } => match o {
                Outcome::Clock(now) => match r {
                    Step::Perform(
                        CreateProfileChangeFlow::AwaitCreated { user_uuid: u, change_type: t, new_value: v, otp, ref_code, otp_expired_at, settings: s },
                        Effect::CreateProfileChange { data },
                    ) => {
                        &&& new_change_record(data, user_uuid, change_type, old_value, new_value, codes, now, settings)
                        &&& u == user_uuid && t == change_type && v == new_value && s == settings
                        &&& otp@ == codes.otp_text() && ref_code@ == codes.ref_text()
                        &&& otp_expired_at == data.otp_expired_at
                    },
                    _ => false,
                },
                _ => true,
            },
            CreateProfileChangeFlow::AwaitCreated { user_uuid, change_type, new_value, otp, ref_code, otp_expired_at, settings } => match o {
                Outcome::SavedProfileChange(Ok(record)) => match change_type {
                    // a phone change sends the OTP by SMS to the new number
                    ChangeType::Telephone => match r {
                        Step::Perform(CreateProfileChangeFlow::AwaitSms { response }, Effect::SendSms { phone, message }) =>
                            response.shows(record) && phone == new_value && message@ == otp_message(settings.otp_text@, otp@),
                        _ => false,
                    },
                    // an email change publishes the request for an OTP email
                    ChangeType::Email => match r {
                        Step::Perform(CreateProfileChangeFlow::AwaitPublished { response }, Effect::Publish { topic, payload }) =>
                            response.shows(record) && topic == settings.sns_email_sent_requested
                            && email_otp_event(payload, user_uuid, new_value@, otp@, ref_code@, otp_expired_at),
                        _ => false,
                    },
                },
                Outcome::SavedProfileChange(Err(e)) => repository_failure(r, e),
                _ => true,
            },
            CreateProfileChangeFlow::AwaitSms { response } => match o {
                Outcome::Delivered(Ok(())) => r == Step::<CreateProfileChangeFlow, ProfileChangeResponse>::Finish(Ok(response)),
                Outcome::Delivered(Err(e)) => fails_with(r, ApplicationErrorView::External(e@)),
                _ => true,
            },
            CreateProfileChangeFlow::AwaitPublished { response } =>
                r == Step::<CreateProfileChangeFlow, ProfileChangeResponse>::Finish(Ok(response)),
        }
    }

    /// Parses the change type and looks for an active request of that type.
    pub fn start(user_uuid: u128, req: CreateProfileChangeRequest, settings: ChangeSettings) -> (r: Step<CreateProfileChangeFlow, ProfileChangeResponse>)
        ensures
            r matches Step::Perform(f, e) ==> f.awaited() == e.answered_by(),
            match change_type_named(lowercase_of(req.change_type@)) {
                Some(t) => r == Step::<CreateProfileChangeFlow, ProfileChangeResponse>::Perform(
                    CreateProfileChangeFlow::AwaitActive { user_uuid, change_type: t, new_value: req.new_value, settings },
                    Effect::FindActiveProfileChange { user_uuid, change_type: t },
                ),
                None => fails_with(r, ApplicationErrorView::BadRequest(bad_change_type_message(req.change_type@))),
            },
    {
        match parse_change_type(req.change_type.as_str()) {
            Ok(change_type) => Step::Perform(
                CreateProfileChangeFlow::AwaitActive { user_uuid, change_type, new_value: req.new_value, settings },
                Effect::FindActiveProfileChange { user_uuid, change_type },
            ),
            Err(e) => Step::Finish(Err(e)),
        }
    }

    /// Takes the outcome of the awaited call.
    pub fn resume(self, outcome: Outcome) -> (r: Step<CreateProfileChangeFlow, ProfileChangeResponse>)
        requires
            self.accepts(outcome),
        ensures
            r matches Step::Perform(f, e) ==> f.awaited() == e.answered_by(),
            self.transition(outcome, r),
    {
        match self {
            CreateProfileChangeFlow::AwaitActive { user_uuid, change_type, new_value, settings } => match outcome {
                Outcome::ProfileChange(Ok(Some(_))) => Step::Finish(
                    Err(bad_request("an active profile change of this type already exists")),
                ),
                Outcome::ProfileChange(Ok(None)) => Step::Perform(
                    CreateProfileChangeFlow::AwaitCustomer { user_uuid, change_type, new_value, settings },
                    Effect::FindCustomerById { id: user_uuid },
                ),
                Outcome::ProfileChange(Err(e)) => Step::Finish(Err(ApplicationError::Repository(e))),
                _ => vstd::pervasive::unreached(),
            },
            CreateProfileChangeFlow::AwaitCustomer { user_uuid, change_type, new_value, settings } => match outcome {
                Outcome::Customer(Ok(Some(c))) => {
                    let old_value = match change_type {
                        ChangeType::Telephone => c.phone,
                        ChangeType::Email => c.email,
                    };
                    let new_value = match change_type {
                        ChangeType::Telephone => normalize_phone(new_value.as_str(), settings.phone_number_format.as_str()),
                        ChangeType::Email => new_value,
                    };
                    Step::Perform(
                        CreateProfileChangeFlow::AwaitCodes { user_uuid, change_type, old_value, new_value, settings },
                        Effect::DrawCodes,
                    )
                },
                Outcome::Customer(Ok(None)) => Step::Finish(Err(customer_missing(user_uuid))),
                Outcome::Customer(Err(e)) => Step::Finish(Err(ApplicationError::Repository(e))),
                _ => vstd::pervasive::unreached(),
            },
            CreateProfileChangeFlow::AwaitCodes { user_uuid, change_type, old_value, new_value, settings } => match outcome {
                Outcome::Codes(codes) => Step::Perform(
                    CreateProfileChangeFlow::AwaitClock { user_uuid, change_type, old_value, new_value, codes, settings },
                    Effect::ReadClock,
                ),
                _ => vstd::pervasive::unreached(),
            },
            CreateProfileChangeFlow::AwaitClock { user_uuid, change_type, old_value, new_value, codes, settings } => match outcome {
                Outcome::Clock(now) => {
                    let otp_expired_at = now.add_minutes(settings.otp_expired_time);
                    let next_otp_request_at = now.add_minutes(1);
                    let token_expired_at = now.add_minutes(settings.profile_change_expired_time);
                    let otp = codes.otp().clone();
                    let ref_code = codes.ref_code().clone();
                    let data = CreateProfileChange {
                        user_uuid,
                        change_type,
                        identifier: None,
                        old_value,
                        new_value: Some(new_value.clone()),
                        status: ChangeStatus::PendingVerifyOtp,
                        otp: Some(otp.clone()),
                        ref_code: Some(ref_code.clone()),
                        token_expired_at,
                        next_otp_request_at,
                        otp_expired_at,
                    };
                    Step::Perform(
                        CreateProfileChangeFlow::AwaitCreated {
                            user_uuid,
                            change_type,
                            new_value,
                            otp,
                            ref_code,
                            otp_expired_at,
                            settings,
                        },
                        Effect::CreateProfileChange { data },
                    )
                },
                _ => vstd::pervasive::unreached(),
            },
            CreateProfileChangeFlow::AwaitCreated { user_uuid, change_type, new_value, otp, ref_code, otp_expired_at, settings } => match outcome {
                Outcome::SavedProfileChange(Ok(record)) => {
                    let response = ProfileChangeResponse::from(record);
                    match change_type {
                        ChangeType::Telephone => {
                            let message = fill_otp(&settings.otp_text, &otp);
                            Step::Perform(
                                CreateProfileChangeFlow::AwaitSms { response },
                                Effect::SendSms { phone: new_value, message },
                            )
                        },
                        ChangeType::Email => {
                            let payload = EventPayload::EmailSentRequested(EmailSentRequestedPayload {
                                user_uuid: uuid_to_string(user_uuid),
                                email: new_value,
                                otp,
                                ref_code,
                                otp_expired_at: otp_expired_at.to_rfc3339(),
                            });
                            Step::Perform(
                                CreateProfileChangeFlow::AwaitPublished { response },
                                Effect::Publish { topic: settings.sns_email_sent_requested, payload },
                            )
                        },
                    }
                },
                Outcome::SavedProfileChange(Err(e)) => Step::Finish(Err(ApplicationError::Repository(e))),
                _ => vstd::pervasive::unreached(),
            },
            CreateProfileChangeFlow::AwaitSms { response } => match outcome {
                Outcome::Delivered(Ok(())) => Step::Finish(Ok(response)),
                Outcome::Delivered(Err(e)) => Step::Finish(Err(ApplicationError::External(e))),
                _ => vstd::pervasive::unreached(),
            },
            CreateProfileChangeFlow::AwaitPublished { response } => Step::Finish(Ok(response)),
        }
    }
}

} // verus!

verus! {

/// Message of a missing (or someone else's) change request.
pub open spec fn change_missing_message(id: u128) -> Seq<char> {
    "profile change "@ + uuid_hyphenated(id) + " not found"@
}

/// `NotFound` for a missing change request.
pub fn change_missing(id: u128) -> (e: ApplicationError)
    ensures
        e@ == ApplicationErrorView::NotFound(change_missing_message(id)),
{
    let mut msg = String::from_str("profile change ");
    let id_text = uuid_to_string(id);
    msg.append(id_text.as_str());
    msg.append(" not found");
    ApplicationError::NotFound(msg)
}

/// `prefix` followed by `detail`.
pub fn prefixed(prefix: &str, detail: &String) -> (r: String)
    ensures
        r@ == prefix@ + detail@,
{
    let mut msg = String::from_str(prefix);
    msg.append(detail.as_str());
    msg
}

/// Message of a too early OTP resend.
pub open spec fn too_soon_message() -> Seq<char> {
    "OTP request too soon — please wait before requesting a new OTP"@
}

/// `update_profile_change`: resends the OTP of a change request.
///
/// The request must exist and belong to the caller, the token must be valid
/// and name this request and this user, and the resend window must have
/// opened. A fresh OTP is stored with new expiry times and, for a phone
/// change, sent by SMS to the new number.
#[derive(Debug)]
pub enum UpdateProfileChangeFlow {
    AwaitRecord { user_uuid: u128, profile_id: u128, token: String, settings: ChangeSettings },
    AwaitClaims {
        user_uuid: u128,
        profile_id: u128,
        change_type: ChangeType,
        new_value: Option<String>,
        next_otp_request_at: Timestamp,
        settings: ChangeSettings,
    },
    AwaitClock {
        profile_id: u128,
        change_type: ChangeType,
        new_value: Option<String>,
        next_otp_request_at: Timestamp,
        settings: ChangeSettings,
    },
    AwaitCodes {
        profile_id: u128,
        change_type: ChangeType,
        new_value: Option<String>,
        expires: Timestamp,
        next_request: Timestamp,
        settings: ChangeSettings,
    },
    AwaitUpdated { change_type: ChangeType, new_value: Option<String>, otp: String, settings: ChangeSettings },
    AwaitSms { response: ProfileChangeResponse },
}

impl UpdateProfileChangeFlow {
    /// Kind of outcome awaited.
    pub open spec fn awaited(self) -> OutcomeKind {
        match self {
            UpdateProfileChangeFlow::AwaitRecord { .. } => OutcomeKind::ProfileChange,
            UpdateProfileChangeFlow::AwaitClaims { .. } => OutcomeKind::TokenClaims,
            UpdateProfileChangeFlow::AwaitClock { .. } => OutcomeKind::Clock,
            UpdateProfileChangeFlow::AwaitCodes { .. } => OutcomeKind::Codes,
            UpdateProfileChangeFlow::AwaitUpdated { .. } => OutcomeKind::SavedProfileChange,
            UpdateProfileChangeFlow::AwaitSms { .. } => OutcomeKind::Delivered,
        }
    }

    /// Whether `resume` accepts this outcome: one of the awaited kind, and a
    /// clock reading from which the new expiry times can be computed
    /// whenever the resend window is open.
    pub open spec fn accepts(self, o: Outcome) -> bool {
        &&& o.kind_of() == self.awaited()
        &&& (self matches UpdateProfileChangeFlow::AwaitClock { next_otp_request_at, settings, .. } ==> (
        o matches Outcome::Clock(now) ==> (!earlier(now@, next_otp_request_at@) ==> {
            &&& can_add_minutes(now@, settings.otp_expired_time as int)
            &&& can_add_minutes(now@, 1)
        })))
    }

    /// Exec form of `accepts`.
    pub fn can_resume(&self, o: &Outcome) -> (b: bool)
        ensures
            b == self.accepts(*o),
    {
        match self {
            UpdateProfileChangeFlow::AwaitRecord { .. } => matches!(o, Outcome::ProfileChange(_)),
            UpdateProfileChangeFlow::AwaitClaims { .. } => matches!(o, Outcome::TokenClaims(_)),
            UpdateProfileChangeFlow::AwaitClock { next_otp_request_at, settings, .. } => match o {
                Outcome::Clock(now) => now.is_before(next_otp_request_at) || (now.fits_minutes(
                    settings.otp_expired_time,
                ) && now.fits_minutes(1)),
                _ => false,
            },
            UpdateProfileChangeFlow::AwaitCodes { .. } => matches!(o, Outcome::Codes(_)),
            UpdateProfileChangeFlow::AwaitUpdated { .. } => matches!(o, Outcome::SavedProfileChange(_)),
            UpdateProfileChangeFlow::AwaitSms { .. } => matches!(o, Outcome::Delivered(_)),
        }
    }

    /// The step taken from `self` on outcome `o`.
    pub open spec fn transition(self, o: Outcome, r: Step<UpdateProfileChangeFlow, ProfileChangeResponse>) -> bool {
        match self {
            UpdateProfileChangeFlow::AwaitRecord { user_uuid, profile_id, token, settings } => match o {
                Outcome::ProfileChange(Ok(Some(record))) => if record.user_uuid != user_uuid {
                    fails_with(r, ApplicationErrorView::NotFound(change_missing_message(profile_id)))
                } else {
                    r == Step::<UpdateProfileChangeFlow, ProfileChangeResponse>::Perform(
                        UpdateProfileChangeFlow::AwaitClaims {
                            user_uuid,
                            profile_id,
                            change_type: record.change_type,
                            new_value: record.new_value,
                            next_otp_request_at: record.next_otp_request_at,
                            settings,
                        },
                        Effect::ValidateToken { token },
                    )
                },
                Outcome::ProfileChange(Ok(None)) => fails_with(r, ApplicationErrorView::NotFound(change_missing_message(profile_id))),
                Outcome::ProfileChange(Err(e)) => repository_failure(r, e),
                _ => true,
            },
            UpdateProfileChangeFlow::AwaitClaims { user_uuid, profile_id, change_type, new_value, next_otp_request_at, settings } => match o {
                Outcome::TokenClaims(Err(e)) => fails_with(r, ApplicationErrorView::BadRequest("invalid token: "@ + e@)),
                Outcome::TokenClaims(Ok((claimed_id, claimed_user))) => if claimed_id != profile_id || claimed_user != user_uuid {
                    fails_with(r, ApplicationErrorView::BadRequest("token mismatch"@))
                } else {
                    r == Step::<UpdateProfileChangeFlow, ProfileChangeResponse>::Perform(
                        UpdateProfileChangeFlow::AwaitClock { profile_id, change_type, new_value, next_otp_request_at, settings },
                        Effect::ReadClock,
                    )
                },
                _ => true,
            },
            UpdateProfileChangeFlow::AwaitClock { profile_id, change_type, new_value, next_otp_request_at, settings } => match o {
                Outcome::Clock(now) => if earlier(now@, next_otp_request_at@) {
                    fails_with(r, ApplicationErrorView::BadRequest(too_soon_message()))
                } else {
                    match r {
                        Step::Perform(
                            UpdateProfileChangeFlow::AwaitCodes { profile_id: p, change_type: t, new_value: v, expires, next_request, settings: s },
                            Effect::DrawCodes,
                        ) => p == profile_id && t == change_type && v == new_value && s == settings
                            && expires@ == plus_minutes(now@, settings.otp_expired_time as int)
                            && next_request@ == plus_minutes(now@, 1),
                        _ => false,
                    }
                },
                _ => true,
            },
            UpdateProfileChangeFlow::AwaitCodes { profile_id, change_type, new_value, expires, next_request, settings } => match o {
                Outcome::Codes(codes) => match r {
                    Step::Perform(
                        UpdateProfileChangeFlow::AwaitUpdated { change_type: t, new_value: v, otp, settings: s },
                        Effect::UpdateOtp { id, otp: o2, ref_code, expires: x, next_request: n },
                    ) => t == change_type && v == new_value && s == settings && otp@ == codes.otp_text()
                        && id == profile_id && o2 == otp && ref_code@ == codes.ref_text() && x == expires && n == next_request,
                    _ => false,
                },
                _ => true,
            },
            UpdateProfileChangeFlow::AwaitUpdated { change_type, new_value, otp, settings } => match o {
                Outcome::SavedProfileChange(Ok(updated)) => match (change_type, new_value) {
                    // a phone change resends the OTP by SMS
                    (ChangeType::Telephone, Some(phone)) => match r {
                        Step::Perform(UpdateProfileChangeFlow::AwaitSms { response }, Effect::SendSms { phone: p, message }) =>
                            response.shows(updated) && p == phone && message@ == otp_message(settings.otp_text@, otp@),
                        _ => false,
                    },
                    _ => r matches Step::Finish(Ok(response)) && response.shows(updated),
                },
                Outcome::SavedProfileChange(Err(e)) => repository_failure(r, e),
                _ => true,
            },
            UpdateProfileChangeFlow::AwaitSms { response } => match o {
                Outcome::Delivered(Ok(())) => r == Step::<UpdateProfileChangeFlow, ProfileChangeResponse>::Finish(Ok(response)),
                Outcome::Delivered(Err(e)) => fails_with(r, ApplicationErrorView::External(e@)),
                _ => true,
            },
        }
    }

    /// Looks the change request up.
    pub fn start(user_uuid: u128, profile_id: u128, req: UpdateProfileChangeRequest, settings: ChangeSettings) -> (r: Step<UpdateProfileChangeFlow, ProfileChangeResponse>)
        ensures
            r == Step::<UpdateProfileChangeFlow, ProfileChangeResponse>::Perform(
                UpdateProfileChangeFlow::AwaitRecord { user_uuid, profile_id, token: req.token, settings },
                Effect::FindProfileChange { id: profile_id },
            ),
    {
        Step::Perform(
            UpdateProfileChangeFlow::AwaitRecord { user_uuid, profile_id, token: req.token, settings },
            Effect::FindProfileChange { id: profile_id },
        )
    }

    /// Takes the outcome of the awaited call.
    pub fn resume(self, outcome: Outcome) -> (r: Step<UpdateProfileChangeFlow, ProfileChangeResponse>)
        requires
            self.accepts(outcome),
        ensures
            r matches Step::Perform(f, e) ==> f.awaited() == e.answered_by(),
            self.transition(outcome, r),
    {
        match self {
            UpdateProfileChangeFlow::AwaitRecord { user_uuid, profile_id, token, settings } => match outcome {
                Outcome::ProfileChange(Ok(Some(record))) => {
                    if record.user_uuid != user_uuid {
                        Step::Finish(Err(change_missing(profile_id)))
                    } else {
                        Step::Perform(
                            UpdateProfileChangeFlow::AwaitClaims {
                                user_uuid,
                                profile_id,
                                change_type: record.change_type,
                                new_value: record.new_value,
                                next_otp_request_at: record.next_otp_request_at,
                                settings,
                            },
                            Effect::ValidateToken { token },
                        )
                    }
                },
                Outcome::ProfileChange(Ok(None)) => Step::Finish(Err(change_missing(profile_id))),
                Outcome::ProfileChange(Err(e)) => Step::Finish(Err(ApplicationError::Repository(e))),
                _ => vstd::pervasive::unreached(),
            },
            UpdateProfileChangeFlow::AwaitClaims { user_uuid, profile_id, change_type, new_value, next_otp_request_at, settings } => match outcome {
                Outcome::TokenClaims(Err(e)) => Step::Finish(Err(ApplicationError::BadRequest(prefixed("invalid token: ", &e)))),
                Outcome::TokenClaims(Ok((claimed_id, claimed_user))) => {
                    if claimed_id != profile_id || claimed_user != user_uuid {
                        Step::Finish(Err(bad_request("token mismatch")))
                    } else {
                        Step::Perform(
                            UpdateProfileChangeFlow::AwaitClock { profile_id, change_type, new_value, next_otp_request_at, settings },
                            Effect::ReadClock,
                        )
                    }
                },
                _ => vstd::pervasive::unreached(),
            },
            UpdateProfileChangeFlow::AwaitClock { profile_id, change_type, new_value, next_otp_request_at, settings } => match outcome {
                Outcome::Clock(now) => {
                    if now.is_before(&next_otp_request_at) {
                        Step::Finish(Err(bad_request("OTP request too soon — please wait before requesting a new OTP")))
                    } else {
                        let expires = now.add_minutes(settings.otp_expired_time);
                        let next_request = now.add_minutes(1);
                        Step::Perform(
                            UpdateProfileChangeFlow::AwaitCodes { profile_id, change_type, new_value, expires, next_request, settings },
                            Effect::DrawCodes,
                        )
                    }
                },
                _ => vstd::pervasive::unreached(),
            },
            UpdateProfileChangeFlow::AwaitCodes { profile_id, change_type, new_value, expires, next_request, settings } => match outcome {
                Outcome::Codes(codes) => {
                    let otp = codes.otp().clone();
                    let ref_code = codes.ref_code().clone();
                    let stored = otp.clone();
                    Step::Perform(
                        UpdateProfileChangeFlow::AwaitUpdated { change_type, new_value, otp, settings },
                        Effect::UpdateOtp { id: profile_id, otp: stored, ref_code, expires, next_request },
                    )
                },
                _ => vstd::pervasive::unreached(),
            },
            UpdateProfileChangeFlow::AwaitUpdated { change_type, new_value, otp, settings } => match outcome {
                Outcome::SavedProfileChange(Ok(updated)) => {
                    let response = ProfileChangeResponse::from(updated);
                    match (change_type, new_value) {
                        (ChangeType::Telephone, Some(phone)) => {
                            let message = fill_otp(&settings.otp_text, &otp);
                            Step::Perform(UpdateProfileChangeFlow::AwaitSms { response }, Effect::SendSms { phone, message })
                        },
                        _ => Step::Finish(Ok(response)),
                    }
                },
                Outcome::SavedProfileChange(Err(e)) => Step::Finish(Err(ApplicationError::Repository(e))),
                _ => vstd::pervasive::unreached(),
            },
            UpdateProfileChangeFlow::AwaitSms { response } => match outcome {
                Outcome::Delivered(Ok(())) => Step::Finish(Ok(response)),
                Outcome::Delivered(Err(e)) => Step::Finish(Err(ApplicationError::External(e))),
                _ => vstd::pervasive::unreached(),
            },
        }
    }
}

} // verus!

verus! {

/// Whether a stored OTP matches the one given.
pub open spec fn otp_matches(stored: Option<String>, given: Seq<char>) -> bool {
    stored matches Some(s) && s@ == given
}

/// `verify_profile_change`: checks the OTP and issues a confirmation token.
///
/// The request must exist and belong to the caller; the OTP must match and
/// must not have expired. A token valid for `token_expired_time` minutes is
/// generated (a failure is an `External` error) and stored with status
/// `VerifyChangeCompleted`.
#[derive(Debug)]
pub enum VerifyProfileChangeFlow {
    AwaitRecord { user_uuid: u128, profile_id: u128, otp: String, token_minutes: u32 },
    AwaitClock { user_uuid: u128, profile_id: u128, otp_expired_at: Timestamp, token_minutes: u32 },
    AwaitToken { profile_id: u128, token_minutes: u32 },
    AwaitTokenClock { profile_id: u128, token: String, token_minutes: u32 },
    AwaitUpdated,
}

impl VerifyProfileChangeFlow {
    /// Kind of outcome awaited.
    pub open spec fn awaited(self) -> OutcomeKind {
        match self {
            VerifyProfileChangeFlow::AwaitRecord { .. } => OutcomeKind::ProfileChange,
            VerifyProfileChangeFlow::AwaitClock { .. } => OutcomeKind::Clock,
            VerifyProfileChangeFlow::AwaitToken { .. } => OutcomeKind::TokenIssued,
            VerifyProfileChangeFlow::AwaitTokenClock { .. } => OutcomeKind::Clock,
            VerifyProfileChangeFlow::AwaitUpdated => OutcomeKind::SavedProfileChange,
        }
    }

    /// Whether `resume` accepts this outcome: one of the awaited kind, and a
    /// clock reading from which the token expiry can be computed.
    pub open spec fn accepts(self, o: Outcome) -> bool {
        &&& o.kind_of() == self.awaited()
        &&& (self matches VerifyProfileChangeFlow::AwaitTokenClock { token_minutes, .. } ==> (
        o matches Outcome::Clock(now) ==> can_add_minutes(now@, token_minutes as int)))
    }

    /// Exec form of `accepts`.
    pub fn can_resume(&self, o: &Outcome) -> (b: bool)
        ensures
            b == self.accepts(*o),
    {
        match self {
            VerifyProfileChangeFlow::AwaitRecord { .. } => matches!(o, Outcome::ProfileChange(_)),
            VerifyProfileChangeFlow::AwaitClock { .. } => matches!(o, Outcome::Clock(_)),
            VerifyProfileChangeFlow::AwaitToken { .. } => matches!(o, Outcome::TokenIssued(_)),
            VerifyProfileChangeFlow::AwaitTokenClock { token_minutes, .. } => match o {
                Outcome::Clock(now) => now.fits_minutes(*token_minutes),
                _ => false,
            },
            VerifyProfileChangeFlow::AwaitUpdated => matches!(o, Outcome::SavedProfileChange(_)),
        }
    }

    /// The step taken from `self` on outcome `o`.
    pub open spec fn transition(self, o: Outcome, r: Step<VerifyProfileChangeFlow, ProfileChangeResponse>) -> bool {
        match self {
            VerifyProfileChangeFlow::AwaitRecord { user_uuid, profile_id, otp, token_minutes } => match o {
                Outcome::ProfileChange(Ok(Some(record))) => if record.user_uuid != user_uuid {
                    fails_with(r, ApplicationErrorView::NotFound(change_missing_message(profile_id)))
                } else if !otp_matches(record.otp, otp@) {
                    fails_with(r, ApplicationErrorView::BadRequest("invalid OTP"@))
                } else {
                    r == Step::<VerifyProfileChangeFlow, ProfileChangeResponse>::Perform(
                        VerifyProfileChangeFlow::AwaitClock { user_uuid, profile_id, otp_expired_at: record.otp_expired_at, token_minutes },
                        Effect::ReadClock,
                    )
                },
                Outcome::ProfileChange(Ok(None)) => fails_with(r, ApplicationErrorView::NotFound(change_missing_message(profile_id))),
                Outcome::ProfileChange(Err(e)) => repository_failure(r, e),
                _ => true,
            },
            VerifyProfileChangeFlow::AwaitClock { user_uuid, profile_id, otp_expired_at, token_minutes } => match o {
                Outcome::Clock(now) => if earlier(otp_expired_at@, now@) {
                    fails_with(r, ApplicationErrorView::BadRequest("OTP has expired"@))
                } else {
                    r == Step::<VerifyProfileChangeFlow, ProfileChangeResponse>::Perform(
                        VerifyProfileChangeFlow::AwaitToken { profile_id, token_minutes },
                        Effect::GenerateToken { profile_change_id: profile_id, user_uuid, expires_in_minutes: token_minutes },
                    )
                },
                _ => true,
            },
            VerifyProfileChangeFlow::AwaitToken { profile_id, token_minutes } => match o {
                Outcome::TokenIssued(Err(e)) => fails_with(r, ApplicationErrorView::External("token generation failed: "@ + e@)),
                Outcome::TokenIssued(Ok(token)) => r == Step::<VerifyProfileChangeFlow, ProfileChangeResponse>::Perform(
                    VerifyProfileChangeFlow::AwaitTokenClock { profile_id, token, token_minutes },
                    Effect::ReadClock,
                ),
                _ => true,
            },
            VerifyProfileChangeFlow::AwaitTokenClock { profile_id, token, token_minutes } => match o {
                Outcome::Clock(now) => match r {
                    Step::Perform(VerifyProfileChangeFlow::AwaitUpdated, Effect::UpdateStatusAndToken { id, status, token: t, token_expires: Some(x) }) =>
                        id == profile_id && status == ChangeStatus::VerifyChangeCompleted && t == Some(token)
                        && x@ == plus_minutes(now@, token_minutes as int),
                    _ => false,
                },
                _ => true,
            },
            VerifyProfileChangeFlow::AwaitUpdated => match o {
                Outcome::SavedProfileChange(Ok(updated)) => r matches Step::Finish(Ok(response)) && response.shows(updated),
                Outcome::SavedProfileChange(Err(e)) => repository_failure(r, e),
                _ => true,
            },
        }
    }

    /// Looks the change request up.
    pub fn start(user_uuid: u128, profile_id: u128, req: VerifyProfileChangeRequest, token_minutes: u32) -> (r: Step<VerifyProfileChangeFlow, ProfileChangeResponse>)
        ensures
            r == Step::<VerifyProfileChangeFlow, ProfileChangeResponse>::Perform(
                VerifyProfileChangeFlow::AwaitRecord { user_uuid, profile_id, otp: req.otp, token_minutes },
                Effect::FindProfileChange { id: profile_id },
            ),
    {
        Step::Perform(
            VerifyProfileChangeFlow::AwaitRecord { user_uuid, profile_id, otp: req.otp, token_minutes },
            Effect::FindProfileChange { id: profile_id },
        )
    }

    /// Takes the outcome of the awaited call.
    pub fn resume(self, outcome: Outcome) -> (r: Step<VerifyProfileChangeFlow, ProfileChangeResponse>)
        requires
            self.accepts(outcome),
        ensures
            r matches Step::Perform(f, e) ==> f.awaited() == e.answered_by(),
            self.transition(outcome, r),
    {
        match self {
            VerifyProfileChangeFlow::AwaitRecord { user_uuid, profile_id, otp, token_minutes } => match outcome {
                Outcome::ProfileChange(Ok(Some(record))) => {
                    if record.user_uuid != user_uuid {
                        return Step::Finish(Err(change_missing(profile_id)));
                    }
                    let matches_otp = match &record.otp {
                        Some(stored) => *stored == otp,
                        None => false,
                    };
                    if !matches_otp {
                        Step::Finish(Err(bad_request("invalid OTP")))
                    } else {
                        Step::Perform(
                            VerifyProfileChangeFlow::AwaitClock { user_uuid, profile_id, otp_expired_at: record.otp_expired_at, token_minutes },
                            Effect::ReadClock,
                        )
                    }
                },
                Outcome::ProfileChange(Ok(None)) => Step::Finish(Err(change_missing(profile_id))),
                Outcome::ProfileChange(Err(e)) => Step::Finish(Err(ApplicationError::Repository(e))),
                _ => vstd::pervasive::unreached(),
            },
            VerifyProfileChangeFlow::AwaitClock { user_uuid, profile_id, otp_expired_at, token_minutes } => match outcome {
                Outcome::Clock(now) => {
                    if otp_expired_at.is_before(&now) {
                        Step::Finish(Err(bad_request("OTP has expired")))
                    } else {
                        Step::Perform(
                            VerifyProfileChangeFlow::AwaitToken { profile_id, token_minutes },
                            Effect::GenerateToken { profile_change_id: profile_id, user_uuid, expires_in_minutes: token_minutes },
                        )
                    }
                },
                _ => vstd::pervasive::unreached(),
            },
            VerifyProfileChangeFlow::AwaitToken { profile_id, token_minutes } => match outcome {
                Outcome::TokenIssued(Err(e)) => Step::Finish(Err(ApplicationError::External(prefixed("token generation failed: ", &e)))),
                Outcome::TokenIssued(Ok(token)) => Step::Perform(
                    VerifyProfileChangeFlow::AwaitTokenClock { profile_id, token, token_minutes },
                    Effect::ReadClock,
                ),
                _ => vstd::pervasive::unreached(),
            },
            VerifyProfileChangeFlow::AwaitTokenClock { profile_id, token, token_minutes } => match outcome {
                Outcome::Clock(now) => {
                    let expires = now.add_minutes(token_minutes);
                    Step::Perform(
                        VerifyProfileChangeFlow::AwaitUpdated,
                        Effect::UpdateStatusAndToken {
                            id: profile_id,
                            status: ChangeStatus::VerifyChangeCompleted,
                            token: Some(token),
                            token_expires: Some(expires),
                        },
                    )
                },
                _ => vstd::pervasive::unreached(),
            },
            VerifyProfileChangeFlow::AwaitUpdated => match outcome {
                Outcome::SavedProfileChange(Ok(updated)) => Step::Finish(Ok(ProfileChangeResponse::from(updated))),
                Outcome::SavedProfileChange(Err(e)) => Step::Finish(Err(ApplicationError::Repository(e))),
                _ => vstd::pervasive::unreached(),
            },
        }
    }
}

/// The customer update a confirmed change applies: exactly the changed
/// field, set to the new value.
pub open spec fn applies_change(data: UpdateCustomer, change_type: ChangeType, value: String) -> bool {
    &&& data.phone == (if change_type == ChangeType::Telephone { Some(value) } else { None })
    &&& data.email == (if change_type == ChangeType::Email { Some(value) } else { None })
    &&& data.locale is None
    &&& data.has_consent is None
    &&& data.first_name is None
    &&& data.last_name is None
    &&& data.birthdate is None
    &&& data.gender is None
    &&& data.nationality is None
}

/// `confirm_profile_change`: applies a verified change to the customer.
///
/// The request must exist, belong to the caller, have status
/// `VerifyChangeCompleted`, an unexpired confirmation token and a new
/// value. The customer's phone or email is then set to the new value, the
/// "profile changed" event is published, and the request is marked
/// `Completed` with its token cleared.
#[derive(Debug)]
pub enum ConfirmProfileChangeFlow {
    AwaitRecord { user_uuid: u128, profile_id: u128, topic: String },
    AwaitClock {
        user_uuid: u128,
        profile_id: u128,
        change_type: ChangeType,
        new_value: Option<String>,
        token_expired_at: Timestamp,
        topic: String,
    },
    AwaitCustomerUpdated { user_uuid: u128, profile_id: u128, topic: String },
    AwaitPublished { profile_id: u128 },
    AwaitCompleted,
}

impl ConfirmProfileChangeFlow {
    /// Kind of outcome awaited.
    pub open spec fn awaited(self) -> OutcomeKind {
        match self {
            ConfirmProfileChangeFlow::AwaitRecord { .. } => OutcomeKind::ProfileChange,
            ConfirmProfileChangeFlow::AwaitClock { .. } => OutcomeKind::Clock,
            ConfirmProfileChangeFlow::AwaitCustomerUpdated { .. } => OutcomeKind::SavedCustomer,
            ConfirmProfileChangeFlow::AwaitPublished { .. } => OutcomeKind::Delivered,
            ConfirmProfileChangeFlow::AwaitCompleted => OutcomeKind::SavedProfileChange,
        }
    }

    /// Whether `resume` accepts this outcome.
    pub open spec fn accepts(self, o: Outcome) -> bool {
        o.kind_of() == self.awaited()
    }

    /// Exec form of `accepts`.
    pub fn can_resume(&self, o: &Outcome) -> (b: bool)
        ensures
            b == self.accepts(*o),
    {
        match self {
            ConfirmProfileChangeFlow::AwaitRecord { .. } => matches!(o, Outcome::ProfileChange(_)),
            ConfirmProfileChangeFlow::AwaitClock { .. } => matches!(o, Outcome::Clock(_)),
            ConfirmProfileChangeFlow::AwaitCustomerUpdated { .. } => matches!(o, Outcome::SavedCustomer(_)),
            ConfirmProfileChangeFlow::AwaitPublished { .. } => matches!(o, Outcome::Delivered(_)),
            ConfirmProfileChangeFlow::AwaitCompleted => matches!(o, Outcome::SavedProfileChange(_)),
        }
    }

    /// The step taken from `self` on outcome `o`.
    pub open spec fn transition(self, o: Outcome, r: Step<ConfirmProfileChangeFlow, ProfileChangeResponse>) -> bool {
        match self {
            ConfirmProfileChangeFlow::AwaitRecord { user_uuid, profile_id, topic } => match o {
                Outcome::ProfileChange(Ok(Some(record))) => if record.user_uuid != user_uuid {
                    fails_with(r, ApplicationErrorView::NotFound(change_missing_message(profile_id)))
                } else if record.status != ChangeStatus::VerifyChangeCompleted {
                    fails_with(r, ApplicationErrorView::BadRequest("OTP must be verified before confirming the change"@))
                } else {
                    r == Step::<ConfirmProfileChangeFlow, ProfileChangeResponse>::Perform(
                        ConfirmProfileChangeFlow::AwaitClock {
                            user_uuid,
                            profile_id,
                            change_type: record.change_type,
                            new_value: record.new_value,
                            token_expired_at: record.token_expired_at,
                            topic,
                        },
                        Effect::ReadClock,
                    )
                },
                Outcome::ProfileChange(Ok(None)) => fails_with(r, ApplicationErrorView::NotFound(change_missing_message(profile_id))),
                Outcome::ProfileChange(Err(e)) => repository_failure(r, e),
                _ => true,
            },
            ConfirmProfileChangeFlow::AwaitClock { user_uuid, profile_id, change_type, new_value, token_expired_at, topic } => match o {
                Outcome::Clock(now) => if earlier(token_expired_at@, now@) {
                    fails_with(r, ApplicationErrorView::BadRequest("confirmation token has expired"@))
                } else {
                    match new_value {
                        None => fails_with(r, ApplicationErrorView::BadRequest("missing new value"@)),
                        Some(value) => match r {
                            Step::Perform(f, Effect::UpdateCustomer { id, data }) =>
                                f == (ConfirmProfileChangeFlow::AwaitCustomerUpdated { user_uuid, profile_id, topic })
                                && id == user_uuid && applies_change(data, change_type, value),
                            _ => false,
                        },
                    }
                },
                _ => true,
            },
            ConfirmProfileChangeFlow::AwaitCustomerUpdated { user_uuid, profile_id, topic } => match o {
                Outcome::SavedCustomer(Ok(_)) => match r {
                    Step::Perform(f, Effect::Publish { topic: t, payload }) =>
                        f == (ConfirmProfileChangeFlow::AwaitPublished { profile_id }) && t == topic
                        && profile_changed_event(payload, user_uuid),
                    _ => false,
                },
                Outcome::SavedCustomer(Err(e)) => repository_failure(r, e),
                _ => true,
            },
            ConfirmProfileChangeFlow::AwaitPublished { profile_id } =>
                r == Step::<ConfirmProfileChangeFlow, ProfileChangeResponse>::Perform(
                    ConfirmProfileChangeFlow::AwaitCompleted,
                    Effect::UpdateStatusAndToken { id: profile_id, status: ChangeStatus::Completed, token: None, token_expires: None },
                ),
            ConfirmProfileChangeFlow::AwaitCompleted => match o {
                Outcome::SavedProfileChange(Ok(completed)) => r matches Step::Finish(Ok(response)) && response.shows(completed),
                Outcome::SavedProfileChange(Err(e)) => repository_failure(r, e),
                _ => true,
            },
        }
    }

    /// Looks the change request up.
    pub fn start(user_uuid: u128, profile_id: u128, topic: String) -> (r: Step<ConfirmProfileChangeFlow, ProfileChangeResponse>)
        ensures
            r == Step::<ConfirmProfileChangeFlow, ProfileChangeResponse>::Perform(
                ConfirmProfileChangeFlow::AwaitRecord { user_uuid, profile_id, topic },
                Effect::FindProfileChange { id: profile_id },
            ),
    {
        Step::Perform(ConfirmProfileChangeFlow::AwaitRecord { user_uuid, profile_id, topic }, Effect::FindProfileChange { id: profile_id })
    }

    /// Takes the outcome of the awaited call.
    pub fn resume(self, outcome: Outcome) -> (r: Step<ConfirmProfileChangeFlow, ProfileChangeResponse>)
        requires
            self.accepts(outcome),
        ensures
            r matches Step::Perform(f, e) ==> f.awaited() == e.answered_by(),
            self.transition(outcome, r),
    {
        match self {
            ConfirmProfileChangeFlow::AwaitRecord { user_uuid, profile_id, topic } => match outcome {
                Outcome::ProfileChange(Ok(Some(record))) => {
                    if record.user_uuid != user_uuid {
                        Step::Finish(Err(change_missing(profile_id)))
                    } else if record.status != ChangeStatus::VerifyChangeCompleted {
                        Step::Finish(Err(bad_request("OTP must be verified before confirming the change")))
                    } else {
                        Step::Perform(
                            ConfirmProfileChangeFlow::AwaitClock {
                                user_uuid,
                                profile_id,
                                change_type: record.change_type,
                                new_value: record.new_value,
                                token_expired_at: record.token_expired_at,
                                topic,
                            },
                            Effect::ReadClock,
                        )
                    }
                },
                Outcome::ProfileChange(Ok(None)) => Step::Finish(Err(change_missing(profile_id))),
                Outcome::ProfileChange(Err(e)) => Step::Finish(Err(ApplicationError::Repository(e))),
                _ => vstd::pervasive::unreached(),
            },
            ConfirmProfileChangeFlow::AwaitClock { user_uuid, profile_id, change_type, new_value, token_expired_at, topic } => match outcome {
                Outcome::Clock(now) => {
                    if token_expired_at.is_before(&now) {
                        return Step::Finish(Err(bad_request("confirmation token has expired")));
                    }
                    match new_value {
                        None => Step::Finish(Err(bad_request("missing new value"))),
                        Some(value) => {
                            let data = match change_type {
                                ChangeType::Telephone => UpdateCustomer {
                                    phone: Some(value),
                                    email: None,
                                    locale: None,
                                    has_consent: None,
                                    first_name: None,
                                    last_name: None,
                                    birthdate: None,
                                    gender: None,
                                    nationality: None,
                                },
                                ChangeType::Email => UpdateCustomer {
                                    email: Some(value),
                                    phone: None,
                                    locale: None,
                                    has_consent: None,
                                    first_name: None,
                                    last_name: None,
                                    birthdate: None,
                                    gender: None,
                                    nationality: None,
                                },
                            };
                            Step::Perform(
                                ConfirmProfileChangeFlow::AwaitCustomerUpdated { user_uuid, profile_id, topic },
                                Effect::UpdateCustomer { id: user_uuid, data },
                            )
                        },
                    }
                },
                _ => vstd::pervasive::unreached(),
            },
            ConfirmProfileChangeFlow::AwaitCustomerUpdated { user_uuid, profile_id, topic } => match outcome {
                Outcome::SavedCustomer(Ok(_)) => {
                    let payload = profile_changed_payload(user_uuid);
                    Step::Perform(ConfirmProfileChangeFlow::AwaitPublished { profile_id }, Effect::Publish { topic, payload })
                },
                Outcome::SavedCustomer(Err(e)) => Step::Finish(Err(ApplicationError::Repository(e))),
                _ => vstd::pervasive::unreached(),
            },
            ConfirmProfileChangeFlow::AwaitPublished { profile_id } => Step::Perform(
                ConfirmProfileChangeFlow::AwaitCompleted,
                Effect::UpdateStatusAndToken { id: profile_id, status: ChangeStatus::Completed, token: None, token_expires: None },
            ),
            ConfirmProfileChangeFlow::AwaitCompleted => match outcome {
                Outcome::SavedProfileChange(Ok(completed)) => Step::Finish(Ok(ProfileChangeResponse::from(completed))),
                Outcome::SavedProfileChange(Err(e)) => Step::Finish(Err(ApplicationError::Repository(e))),
                _ => vstd::pervasive::unreached(),
            },
        }
    }
}

/// Confirming a change writes its new value onto exactly the contact field
/// that its type names, the caller's phone for a telephone change and the
/// email for an email change, leaves every other field as it is, and does
/// so only while the confirmation token has not expired.
pub proof fn confirm_writes_the_field_of_its_type(
    user_uuid: u128,
    profile_id: u128,
    change_type: ChangeType,
    new_value: Option<String>,
    token_expired_at: Timestamp,
    topic: String,
    o: Outcome,
    r: Step<ConfirmProfileChangeFlow, ProfileChangeResponse>,
)
    requires
        ({
            let f = ConfirmProfileChangeFlow::AwaitClock { user_uuid, profile_id, change_type, new_value, token_expired_at, topic };
            f.accepts(o) && f.transition(o, r)
        }),
    ensures
        r matches Step::Perform(_, Effect::UpdateCustomer { id, data }) ==> {
            &&& id == user_uuid
            &&& o matches Outcome::Clock(now) && !earlier(token_expired_at@, now@)
            &&& new_value is Some
            &&& match change_type {
                ChangeType::Telephone => data.phone == new_value && data.email is None,
                ChangeType::Email => data.email == new_value && data.phone is None,
            }
            &&& data.locale is None
            &&& data.has_consent is None
            &&& data.first_name is None
            &&& data.last_name is None
            &&& data.birthdate is None
            &&& data.gender is None
            &&& data.nationality is None
        },
{
}

} // verus!
