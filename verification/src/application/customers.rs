//! Customer accounts: creation with uniqueness guards, lookup, search,
//! self-service update and soft deletion.
use vstd::prelude::*;
use vstd::string::*;
use crate::application::errors::{bad_request, ApplicationError, ApplicationErrorView};
use crate::application::events::{EventPayload, ProfileChangedPayload};
use crate::application::flow::{Effect, Outcome, OutcomeKind, Step};
use crate::application::identities::{fails_with, repository_failure};
use crate::domain::customer::{CreateCustomer, Customer, CustomerProfile, Gender, Locale, SearchField, UpdateCustomer};
use crate::ids::{parse_uuid, uuid_hyphenated, uuid_parse, uuid_to_string};
use crate::text::{ascii_lower, is_lower_word, lemma_lower_word_is_lowercase, lowercase_of, normalized_phone, to_lowercase};
use crate::time::{date_parse, date_text, parse_date, rfc3339_text, CalendarDate};

pub use crate::text::normalize_phone;

verus! {

/// Request to create a customer.
#[derive(Debug)]
pub struct CreateCustomerRequest {
    pub email: Option<String>,
    pub phone: Option<String>,
    pub locale: Option<String>,
    pub has_consent: Option<bool>,
    pub client_id: Option<String>,
    pub first_name: Option<String>,
    pub last_name: Option<String>,
    pub birthdate: Option<String>,
    pub gender: Option<String>,
    pub nationality: Option<String>,
}

/// Request to update the caller's own account.
#[derive(Debug)]
pub struct UpdateCustomerRequest {
    pub email: Option<String>,
    pub locale: Option<String>,
    pub has_consent: Option<bool>,
    pub first_name: Option<String>,
    pub last_name: Option<String>,
    pub birthdate: Option<String>,
    pub gender: Option<String>,
    pub nationality: Option<String>,
}

/// A customer as the API shows it.
#[derive(Debug)]
pub struct CustomerResponse {
    pub id: String,
    pub email: Option<String>,
    pub phone: Option<String>,
    pub email_verified: bool,
    pub phone_verified: bool,
    pub locale: String,
    pub has_consent: bool,
    pub is_deleted: bool,
    pub client_id: Option<String>,
    pub created_at: String,
    pub updated_at: String,
    pub first_name: Option<String>,
    pub last_name: Option<String>,
    pub birthdate: Option<String>,
    pub gender: Option<String>,
    pub profile_image: Option<String>,
    pub nationality: Option<String>,
}

/// Query parameters of a customer search; the first one given is used.
#[derive(Debug)]
pub struct SearchCustomerQuery {
    pub id: Option<String>,
    pub phone: Option<String>,
    pub the1_member_id: Option<String>,
    pub the1_card_number: Option<String>,
}

/// Text of a locale.
pub open spec fn locale_text(l: Locale) -> Seq<char> {
    match l {
        Locale::Th => "th"@,
        Locale::En => "en"@,
    }
}

/// Text of a gender.
pub open spec fn gender_text(g: Gender) -> Seq<char> {
    match g {
        Gender::Male => "male"@,
        Gender::Female => "female"@,
        Gender::Other => "other"@,
        Gender::Unspecified => "unspecified"@,
        Gender::NotToSay => "not_to_say"@,
    }
}

/// The locale that a lowercased text names: `"en"` is English, anything else Thai.
pub open spec fn locale_named(lower: Seq<char>) -> Locale {
    if lower == "en"@ {
        Locale::En
    } else {
        Locale::Th
    }
}

/// The gender that a lowercased text names, if any.
pub open spec fn gender_named(lower: Seq<char>) -> Option<Gender> {
    if lower == "male"@ {
        Some(Gender::Male)
    } else if lower == "female"@ {
        Some(Gender::Female)
    } else if lower == "other"@ {
        Some(Gender::Other)
    } else if lower == "not_to_say"@ {
        Some(Gender::NotToSay)
    } else if lower == "unspecified"@ {
        Some(Gender::Unspecified)
    } else {
        None
    }
}

/// Lowercase text of a locale.
pub fn locale_to_str(locale: &Locale) -> (r: &'static str)
    ensures
        r@ == locale_text(*locale),
{
    match locale {
        Locale::Th => "th",
        Locale::En => "en",
    }
}

/// Lowercase text of a gender.
pub fn gender_to_str(gender: &Gender) -> (r: String)
    ensures
        r@ == gender_text(*gender),
{
    match gender {
        Gender::Male => String::from_str("male"),
        Gender::Female => String::from_str("female"),
        Gender::Other => String::from_str("other"),
        Gender::Unspecified => String::from_str("unspecified"),
        Gender::NotToSay => String::from_str("not_to_say"),
    }
}

/// The locale named by an already lowercased text.
pub fn locale_from_lowercase(lower: &String) -> (r: Locale)
    ensures
        r == locale_named(lower@),
{
    if *lower == String::from_str("en") {
        Locale::En
    } else {
        Locale::Th
    }
}

/// The gender named by an already lowercased text.
pub fn gender_from_lowercase(lower: &String) -> (r: Option<Gender>)
    ensures
        r == gender_named(lower@),
{
    if *lower == String::from_str("male") {
        Some(Gender::Male)
    } else if *lower == String::from_str("female") {
        Some(Gender::Female)
    } else if *lower == String::from_str("other") {
        Some(Gender::Other)
    } else if *lower == String::from_str("not_to_say") {
        Some(Gender::NotToSay)
    } else if *lower == String::from_str("unspecified") {
        Some(Gender::Unspecified)
    } else {
        None
    }
}

/// Locale of a text, compared case-insensitively: `"en"` is English and
/// anything else Thai.
pub fn parse_locale(s: &str) -> (r: Locale)
    ensures
        r == locale_named(lowercase_of(s@)),
        vstd::utf8::is_ascii_chars(s@) ==> r == locale_named(s@.map_values(|c: char| crate::text::ascii_lower(c))),
{
    let lower = to_lowercase(s);
    locale_from_lowercase(&lower)
}

/// Gender of a text, compared case-insensitively; `None` when it names none.
pub fn parse_gender(s: &str) -> (r: Option<Gender>)
    ensures
        r == gender_named(lowercase_of(s@)),
        vstd::utf8::is_ascii_chars(s@) ==> r == gender_named(s@.map_values(|c: char| crate::text::ascii_lower(c))),
{
    let lower = to_lowercase(s);
    gender_from_lowercase(&lower)
}

/// The text of a locale reads back as that locale: it is ASCII and already
/// lowercase, so `parse_locale` of what `locale_to_str` writes is the same
/// locale.
pub proof fn locale_text_reads_back(l: Locale)
    ensures
        vstd::utf8::is_ascii_chars(locale_text(l)),
        locale_named(locale_text(l).map_values(|c: char| ascii_lower(c))) == l,
{
    reveal_strlit("th");
    reveal_strlit("en");
    assert(is_lower_word(locale_text(l)));
    lemma_lower_word_is_lowercase(locale_text(l));
    assert("th"@[0] != "en"@[0]);
}

/// The text of a gender reads back as that gender: `parse_gender` of what
/// `gender_to_str` writes is `Some` of the same gender.
pub proof fn gender_text_reads_back(g: Gender)
    ensures
        vstd::utf8::is_ascii_chars(gender_text(g)),
        gender_named(gender_text(g).map_values(|c: char| ascii_lower(c))) == Some(g),
{
    reveal_strlit("male");
    reveal_strlit("female");
    reveal_strlit("other");
    reveal_strlit("unspecified");
    reveal_strlit("not_to_say");
    assert(is_lower_word(gender_text(g)));
    lemma_lower_word_is_lowercase(gender_text(g));
}

/// The text of an optional date.
pub open spec fn opt_date_text(d: Option<CalendarDate>) -> Option<Seq<char>> {
    match d {
        Some(d) => Some(date_text(d@)),
        None => None,
    }
}

/// Views of an optional string.
pub open spec fn opt_view(s: Option<String>) -> Option<Seq<char>> {
    match s {
        Some(s) => Some(s@),
        None => None,
    }
}

impl CustomerResponse {
    /// `self` shows `c`: ids as hyphenated text, instants as RFC 3339, the
    /// birthdate as `%Y-%m-%d`, locale and gender as lowercase words, and the
    /// profile fields empty when there is no profile.
    pub open spec fn shows(self, c: Customer) -> bool {
        &&& self.id@ == uuid_hyphenated(c.id)
        &&& self.email == c.email
        &&& self.phone == c.phone
        &&& self.email_verified == c.email_verified
        &&& self.phone_verified == c.phone_verified
        &&& self.locale@ == locale_text(c.locale)
        &&& self.has_consent == c.has_consent
        &&& self.is_deleted == c.is_deleted
        &&& self.client_id == c.client_id
        &&& self.created_at@ == rfc3339_text(c.created_at@.0, c.created_at@.1)
        &&& self.updated_at@ == rfc3339_text(c.updated_at@.0, c.updated_at@.1)
        &&& match c.profile {
            Some(p) => {
                &&& self.first_name == p.first_name
                &&& self.last_name == p.last_name
                &&& opt_view(self.birthdate) == opt_date_text(p.birthdate)
                &&& opt_view(self.gender) == (match p.gender {
                    Some(g) => Some(gender_text(g)),
                    None => None,
                })
                &&& self.profile_image == p.profile_image
                &&& self.nationality == p.nationality
            },
            None => {
                &&& self.first_name is None
                &&& self.last_name is None
                &&& self.birthdate is None
                &&& self.gender is None
                &&& self.profile_image is None
                &&& self.nationality is None
            },
        }
    }

    /// The response that shows a customer.
    pub fn from(customer: Customer) -> (r: CustomerResponse)
        ensures
            r.shows(customer),
    {
        let id = uuid_to_string(customer.id);
        let locale = String::from_str(locale_to_str(&customer.locale));
        let created_at = customer.created_at.to_rfc3339();
        let updated_at = customer.updated_at.to_rfc3339();
        let (first_name, last_name, birthdate, gender, profile_image, nationality) = match customer.profile {
            Some(profile) => {
                let birthdate = match &profile.birthdate {
                    Some(d) => Some(d.to_text()),
                    None => None,
                };
                let gender = match &profile.gender {
                    Some(g) => Some(gender_to_str(g)),
                    None => None,
                };
                (profile.first_name, profile.last_name, birthdate, gender, profile.profile_image, profile.nationality)
            },
            None => (None, None, None, None, None, None),
        };
        CustomerResponse {
            id,
            email: customer.email,
            phone: customer.phone,
            email_verified: customer.email_verified,
            phone_verified: customer.phone_verified,
            locale,
            has_consent: customer.has_consent,
            is_deleted: customer.is_deleted,
            client_id: customer.client_id,
            created_at,
            updated_at,
            first_name,
            last_name,
            birthdate,
            gender,
            profile_image,
            nationality,
        }
    }
}

/// Every response shows the customer at the same position.
pub open spec fn all_shown(rs: Seq<CustomerResponse>, cs: Seq<Customer>) -> bool {
    rs.len() == cs.len() && forall|k: int| 0 <= k < rs.len() ==> #[trigger] rs[k].shows(cs[k])
}

/// The responses for a list of customers, in the same order.
pub fn responses_of(customers: Vec<Customer>) -> (r: Vec<CustomerResponse>)
    ensures
        all_shown(r@, customers@),
{
    let ghost all = customers@;
    let mut rest = customers;
    let mut out: Vec<CustomerResponse> = Vec::new();
    while rest.len() > 0
        invariant
            out@.len() + rest@.len() == all.len(),
            rest@ == all.skip(out@.len() as int),
            forall|k: int| 0 <= k < out@.len() ==> #[trigger] out@[k].shows(all[k]),
        decreases rest@.len(),
    {
        let ghost k = out@.len() as int;
        let c = rest.remove(0);
        assert(rest@ =~= all.skip(k + 1));
        out.push(CustomerResponse::from(c));
    }
    out
}

} // verus!

verus! {

/// Message of a search without parameters.
pub open spec fn no_search_parameter_message() -> Seq<char> {
    "at least one search parameter is required (id, phone, the1_member_id, or the1_card_number)"@
}

/// Maps a search query to the field it searches by: the first of `id`,
/// `phone`, `the1_member_id`, `the1_card_number` that is given. An `id` that
/// is not a UUID and a query with none of them are `BadRequest`.
pub fn build_search_field(query: &SearchCustomerQuery) -> (r: Result<SearchField, ApplicationError>)
    ensures
        build_search_field_ensures(*query, r),
{
    if let Some(id) = &query.id {
        return match parse_uuid(id.as_str()) {
            Some(v) => Ok(SearchField::Id(v)),
            None => Err(bad_request("invalid id format")),
        };
    }
    if let Some(phone) = &query.phone {
        return Ok(SearchField::Phone(phone.clone()));
    }
    if let Some(member_id) = &query.the1_member_id {
        return Ok(SearchField::The1MemberId(member_id.clone()));
    }
    if let Some(card_number) = &query.the1_card_number {
        return Ok(SearchField::The1CardNumber(card_number.clone()));
    }
    Err(bad_request(
        "at least one search parameter is required (id, phone, the1_member_id, or the1_card_number)",
    ))
}

/// The locale a request field names.
pub open spec fn requested_locale(s: Option<String>) -> Option<Locale> {
    match s {
        Some(s) => Some(locale_named(lowercase_of(s@))),
        None => None,
    }
}

/// The gender a request field names (none when the text names none).
pub open spec fn requested_gender(s: Option<String>) -> Option<Gender> {
    match s {
        Some(s) => gender_named(lowercase_of(s@)),
        None => None,
    }
}

/// The birthdate a request field gives (none when the text is not a date).
pub open spec fn requested_birthdate(s: Option<String>, d: Option<CalendarDate>) -> bool {
    match s {
        Some(s) => match date_parse(s@) {
            Some(day) => d matches Some(x) && x@ == day,
            None => d is None,
        },
        None => d is None,
    }
}

fn opt_locale(s: &Option<String>) -> (r: Option<Locale>)
    ensures
        r == requested_locale(*s),
{
    match s {
        Some(s) => Some(parse_locale(s.as_str())),
        None => None,
    }
}

fn opt_gender(s: &Option<String>) -> (r: Option<Gender>)
    ensures
        r == requested_gender(*s),
{
    match s {
        Some(s) => parse_gender(s.as_str()),
        None => None,
    }
}

fn opt_date(s: &Option<String>) -> (r: Option<CalendarDate>)
    ensures
        requested_birthdate(*s, r),
{
    match s {
        Some(s) => parse_date(s.as_str()),
        None => None,
    }
}

/// The phone number a create request stores: normalised with the configured prefix.
pub open spec fn requested_phone(phone: Option<String>, format: Seq<char>) -> Option<Seq<char>> {
    match phone {
        Some(p) => Some(normalized_phone(p@, format)),
        None => None,
    }
}

/// `data` is what a create request asks to store, with phone `phone`.
pub open spec fn create_data(req: CreateCustomerRequest, phone: Option<String>, data: CreateCustomer) -> bool {
    &&& data.email == req.email
    &&& data.phone == phone
    &&& data.locale == requested_locale(req.locale)
    &&& data.has_consent == req.has_consent
    &&& data.client_id == req.client_id
    &&& data.first_name == req.first_name
    &&& data.last_name == req.last_name
    &&& requested_birthdate(req.birthdate, data.birthdate)
    &&& data.gender == requested_gender(req.gender)
    &&& data.nationality == req.nationality
}

fn create_data_of(req: CreateCustomerRequest, phone: Option<String>) -> (data: CreateCustomer)
    ensures
        create_data(req, phone, data),
{
    let locale = opt_locale(&req.locale);
    let birthdate = opt_date(&req.birthdate);
    let gender = opt_gender(&req.gender);
    CreateCustomer {
        email: req.email,
        phone,
        locale,
        has_consent: req.has_consent,
        client_id: req.client_id,
        first_name: req.first_name,
        last_name: req.last_name,
        birthdate,
        gender,
        nationality: req.nationality,
    }
}

/// `create`: registers a customer.
///
/// The phone number is normalised first. An email or (normalised) phone
/// that another customer already uses is refused before anything is stored.
#[derive(Debug)]
pub enum CreateCustomerFlow {
    AwaitEmailCheck { req: CreateCustomerRequest, phone: Option<String> },
    AwaitPhoneCheck { req: CreateCustomerRequest, phone: Option<String> },
    AwaitCreated,
}

impl CreateCustomerFlow {
    /// Kind of outcome awaited.
    pub open spec fn awaited(self) -> OutcomeKind {
        match self {
            CreateCustomerFlow::AwaitCreated => OutcomeKind::SavedCustomer,
            _ => OutcomeKind::Customer,
        }
    }

    /// Whether `resume` accepts this outcome.
    pub open spec fn accepts(self, o: Outcome) -> bool {
        o.kind_of() == self.awaited()
    }

    /// Exec form of `accepts`.
    pub fn can_resume(&self, o: &Outcome) -> (b: bool)
        ensures
            b == self.accepts(*o),
    {
        match self {
            CreateCustomerFlow::AwaitCreated => matches!(o, Outcome::SavedCustomer(_)),
            _ => matches!(o, Outcome::Customer(_)),
        }
    }

    /// After the email is known to be free (or absent): check the phone if
    /// there is one, else create.
    pub open spec fn after_email(req: CreateCustomerRequest, phone: Option<String>, r: Step<CreateCustomerFlow, CustomerResponse>) -> bool {
        match phone {
            Some(p) => match r {
                Step::Perform(f, Effect::FindCustomerByPhone { phone: q }) =>
                    f == (CreateCustomerFlow::AwaitPhoneCheck { req, phone }) && q == p,
                _ => false,
            },
            None => Self::creates(req, phone, r),
        }
    }

    /// The step creates the customer.
    pub open spec fn creates(req: CreateCustomerRequest, phone: Option<String>, r: Step<CreateCustomerFlow, CustomerResponse>) -> bool {
        match r {
            Step::Perform(f, Effect::CreateCustomer { data }) => f == CreateCustomerFlow::AwaitCreated && create_data(req, phone, data),
            _ => false,
        }
    }

    /// The step taken from `self` on outcome `o`.
    pub open spec fn transition(self, o: Outcome, r: Step<CreateCustomerFlow, CustomerResponse>) -> bool {
        match self {
            CreateCustomerFlow::AwaitEmailCheck { req, phone } => match o {
                Outcome::Customer(Ok(Some(_))) => fails_with(r, ApplicationErrorView::BadRequest("email already in use"@)),
                Outcome::Customer(Ok(None)) => Self::after_email(req, phone, r),
                Outcome::Customer(Err(e)) => repository_failure(r, e),
                _ => true,
            },
            CreateCustomerFlow::AwaitPhoneCheck { req, phone } => match o {
                Outcome::Customer(Ok(Some(_))) => fails_with(r, ApplicationErrorView::BadRequest("phone already in use"@)),
                Outcome::Customer(Ok(None)) => Self::creates(req, phone, r),
                Outcome::Customer(Err(e)) => repository_failure(r, e),
                _ => true,
            },
            CreateCustomerFlow::AwaitCreated => match o {
                Outcome::SavedCustomer(Ok(c)) => r matches Step::Finish(Ok(resp)) && resp.shows(c),
                Outcome::SavedCustomer(Err(e)) => repository_failure(r, e),
                _ => true,
            },
        }
    }

    fn phone_or_create(req: CreateCustomerRequest, phone: Option<String>) -> (r: Step<CreateCustomerFlow, CustomerResponse>)
        ensures
            Self::after_email(req, phone, r),
            r matches Step::Perform(f, e) ==> f.awaited() == e.answered_by(),
    {
        match &phone {
            Some(p) => {
                let q = p.clone();
                Step::Perform(CreateCustomerFlow::AwaitPhoneCheck { req, phone }, Effect::FindCustomerByPhone { phone: q })
            },
            None => {
                let data = create_data_of(req, phone);
                Step::Perform(CreateCustomerFlow::AwaitCreated, Effect::CreateCustomer { data })
            },
        }
    }

    /// The first step of a registration: with the phone number normalised
    /// by `format`, check the email if one is given, else go on as after a
    /// free email.
    pub open spec fn started(req: CreateCustomerRequest, format: Seq<char>, r: Step<CreateCustomerFlow, CustomerResponse>) -> bool {
        exists|phone: Option<String>| opt_view(phone) == requested_phone(req.phone, format)
            && match req.email {
            Some(email) => match r {
                Step::Perform(f, Effect::FindCustomerByEmail { email: q }) =>
                    f == (CreateCustomerFlow::AwaitEmailCheck { req, phone }) && q == email,
                _ => false,
            },
            None => Self::after_email(req, phone, r),
        }
    }

    /// Normalises the phone number and checks the email first, if given.
    pub fn start(req: CreateCustomerRequest, phone_number_format: &String) -> (r: Step<CreateCustomerFlow, CustomerResponse>)
        ensures
            r matches Step::Perform(f, e) ==> f.awaited() == e.answered_by(),
            Self::started(req, phone_number_format@, r),
    {
        let phone = match &req.phone {
            Some(p) => Some(normalize_phone(p.as_str(), phone_number_format.as_str())),
            None => None,
        };
        assert(opt_view(phone) == requested_phone(req.phone, phone_number_format@));
        match &req.email {
            Some(email) => {
                let q = email.clone();
                Step::Perform(CreateCustomerFlow::AwaitEmailCheck { req, phone }, Effect::FindCustomerByEmail { email: q })
            },
            None => Self::phone_or_create(req, phone),
        }
    }

    /// Takes the outcome of the awaited call.
    pub fn resume(self, outcome: Outcome) -> (r: Step<CreateCustomerFlow, CustomerResponse>)
        requires
            self.accepts(outcome),
        ensures
            r matches Step::Perform(f, e) ==> f.awaited() == e.answered_by(),
            self.transition(outcome, r),
    {
        match self {
            CreateCustomerFlow::AwaitEmailCheck { req, phone } => match outcome {
                Outcome::Customer(Ok(Some(_))) => Step::Finish(Err(bad_request("email already in use"))),
                Outcome::Customer(Ok(None)) => Self::phone_or_create(req, phone),
                Outcome::Customer(Err(e)) => Step::Finish(Err(ApplicationError::Repository(e))),
                _ => vstd::pervasive::unreached(),
            },
            CreateCustomerFlow::AwaitPhoneCheck { req, phone } => match outcome {
                Outcome::Customer(Ok(Some(_))) => Step::Finish(Err(bad_request("phone already in use"))),
                Outcome::Customer(Ok(None)) => {
                    let data = create_data_of(req, phone);
                    Step::Perform(CreateCustomerFlow::AwaitCreated, Effect::CreateCustomer { data })
                },
                Outcome::Customer(Err(e)) => Step::Finish(Err(ApplicationError::Repository(e))),
                _ => vstd::pervasive::unreached(),
            },
            CreateCustomerFlow::AwaitCreated => match outcome {
                Outcome::SavedCustomer(Ok(c)) => Step::Finish(Ok(CustomerResponse::from(c))),
                Outcome::SavedCustomer(Err(e)) => Step::Finish(Err(ApplicationError::Repository(e))),
                _ => vstd::pervasive::unreached(),
            },
        }
    }
}

/// Message of a missing customer.
pub open spec fn customer_missing_message(id: u128) -> Seq<char> {
    "customer "@ + uuid_hyphenated(id) + " not found"@
}

/// `NotFound` for a missing customer.
pub fn customer_missing(id: u128) -> (e: ApplicationError)
    ensures
        e@ == ApplicationErrorView::NotFound(customer_missing_message(id)),
{
    let mut msg = String::from_str("customer ");
    let id_text = uuid_to_string(id);
    msg.append(id_text.as_str());
    msg.append(" not found");
    ApplicationError::NotFound(msg)
}

/// `get_by_id` / `get_me`: a customer that exists and is not deleted.
#[derive(Debug)]
pub enum GetCustomerFlow {
    AwaitCustomer { id: u128 },
}

impl GetCustomerFlow {
    /// Kind of outcome awaited.
    pub open spec fn awaited(self) -> OutcomeKind {
        OutcomeKind::Customer
    }

    /// Whether `resume` accepts this outcome.
    pub open spec fn accepts(self, o: Outcome) -> bool {
        o.kind_of() == self.awaited()
    }

    /// Exec form of `accepts`.
    pub fn can_resume(&self, o: &Outcome) -> (b: bool)
        ensures
            b == self.accepts(*o),
    {
        matches!(o, Outcome::Customer(_))
    }

    /// Looks the customer up.
    pub fn start(id: u128) -> (r: Step<GetCustomerFlow, CustomerResponse>)
        ensures
            r == Step::<GetCustomerFlow, CustomerResponse>::Perform(
                GetCustomerFlow::AwaitCustomer { id },
                Effect::FindCustomerById { id },
            ),
    {
        Step::Perform(GetCustomerFlow::AwaitCustomer { id }, Effect::FindCustomerById { id })
    }

    /// A missing or soft-deleted customer is `NotFound`.
    pub fn resume(self, outcome: Outcome) -> (r: Step<GetCustomerFlow, CustomerResponse>)
        requires
            self.accepts(outcome),
        ensures
            match outcome {
                Outcome::Customer(Ok(Some(c))) => if c.is_deleted {
                    fails_with(r, ApplicationErrorView::NotFound(customer_missing_message(self->AwaitCustomer_id)))
                } else {
                    r matches Step::Finish(Ok(resp)) && resp.shows(c)
                },
                Outcome::Customer(Ok(None)) =>
                    fails_with(r, ApplicationErrorView::NotFound(customer_missing_message(self->AwaitCustomer_id))),
                Outcome::Customer(Err(e)) => repository_failure(r, e),
                _ => true,
            },
    {
        let GetCustomerFlow::AwaitCustomer { id } = self;
        match outcome {
            Outcome::Customer(Ok(Some(c))) => {
                if c.is_deleted {
                    Step::Finish(Err(customer_missing(id)))
                } else {
                    Step::Finish(Ok(CustomerResponse::from(c)))
                }
            },
            Outcome::Customer(Ok(None)) => Step::Finish(Err(customer_missing(id))),
            Outcome::Customer(Err(e)) => Step::Finish(Err(ApplicationError::Repository(e))),
            _ => vstd::pervasive::unreached(),
        }
    }
}

/// `search`: customers matching one query field.
#[derive(Debug)]
pub enum SearchCustomersFlow {
    AwaitResults,
}

impl SearchCustomersFlow {
    /// Kind of outcome awaited.
    pub open spec fn awaited(self) -> OutcomeKind {
        OutcomeKind::Customers
    }

    /// Whether `resume` accepts this outcome.
    pub open spec fn accepts(self, o: Outcome) -> bool {
        o.kind_of() == self.awaited()
    }

    /// Exec form of `accepts`.
    pub fn can_resume(&self, o: &Outcome) -> (b: bool)
        ensures
            b == self.accepts(*o),
    {
        matches!(o, Outcome::Customers(_))
    }

    /// Searches by the field the query selects; a bad query fails at once.
    pub fn start(query: SearchCustomerQuery) -> (r: Step<SearchCustomersFlow, Vec<CustomerResponse>>)
        ensures
            r matches Step::Perform(f, e) ==> f.awaited() == e.answered_by(),
            exists|b: Result<SearchField, ApplicationError>| #[trigger] build_search_field_ensures(query, b)
                && match b {
                Ok(field) => r == Step::<SearchCustomersFlow, Vec<CustomerResponse>>::Perform(
                    SearchCustomersFlow::AwaitResults,
                    Effect::SearchCustomers { field },
                ),
                Err(e) => r == Step::<SearchCustomersFlow, Vec<CustomerResponse>>::Finish(Err(e)),
            },
    {
        let b = build_search_field(&query);
        assert(build_search_field_ensures(query, b));
        match b {
            Ok(field) => Step::Perform(SearchCustomersFlow::AwaitResults, Effect::SearchCustomers { field }),
            Err(e) => Step::Finish(Err(e)),
        }
    }

    /// Maps every customer found to its response.
    pub fn resume(self, outcome: Outcome) -> (r: Step<SearchCustomersFlow, Vec<CustomerResponse>>)
        requires
            self.accepts(outcome),
        ensures
            outcome matches Outcome::Customers(Ok(cs)) ==> (r matches Step::Finish(Ok(rs)) && all_shown(rs@, cs@)),
            outcome matches Outcome::Customers(Err(e)) ==> repository_failure(r, e),
    {
        match outcome {
            Outcome::Customers(Ok(cs)) => Step::Finish(Ok(responses_of(cs))),
            Outcome::Customers(Err(e)) => Step::Finish(Err(ApplicationError::Repository(e))),
            _ => vstd::pervasive::unreached(),
        }
    }
}

/// The result of `build_search_field` on a query.
pub open spec fn build_search_field_ensures(query: SearchCustomerQuery, r: Result<SearchField, ApplicationError>) -> bool {
    match query.id {
        Some(id) => match uuid_parse(id@) {
            Some(v) => r == Ok::<SearchField, ApplicationError>(SearchField::Id(v)),
            None => r matches Err(e) && e@ == ApplicationErrorView::BadRequest("invalid id format"@),
        },
        None => match query.phone {
            Some(p) => r == Ok::<SearchField, ApplicationError>(SearchField::Phone(p)),
            None => match query.the1_member_id {
                Some(m) => r == Ok::<SearchField, ApplicationError>(SearchField::The1MemberId(m)),
                None => match query.the1_card_number {
                    Some(c) => r == Ok::<SearchField, ApplicationError>(SearchField::The1CardNumber(c)),
                    None => r matches Err(e) && e@ == ApplicationErrorView::BadRequest(no_search_parameter_message()),
                },
            },
        },
    }
}

} // verus!

verus! {

/// `data` is what a self-service update asks to store: never a phone
/// number (phone changes go through the profile-change flow).
pub open spec fn update_data(req: UpdateCustomerRequest, data: UpdateCustomer) -> bool {
    &&& data.email == req.email
    &&& data.phone is None
    &&& data.locale == requested_locale(req.locale)
    &&& data.has_consent == req.has_consent
    &&& data.first_name == req.first_name
    &&& data.last_name == req.last_name
    &&& requested_birthdate(req.birthdate, data.birthdate)
    &&& data.gender == requested_gender(req.gender)
    &&& data.nationality == req.nationality
}

fn update_data_of(req: UpdateCustomerRequest) -> (data: UpdateCustomer)
    ensures
        update_data(req, data),
{
    let locale = opt_locale(&req.locale);
    let birthdate = opt_date(&req.birthdate);
    let gender = opt_gender(&req.gender);
    UpdateCustomer {
        email: req.email,
        phone: None,
        locale,
        has_consent: req.has_consent,
        first_name: req.first_name,
        last_name: req.last_name,
        birthdate,
        gender,
        nationality: req.nationality,
    }
}

/// The "profile changed" event for a user.
pub open spec fn profile_changed_event(payload: EventPayload, user_uuid: u128) -> bool {
    payload matches EventPayload::ProfileChanged(p) && p.user_uuid@ == uuid_hyphenated(user_uuid)
}

/// Builds the "profile changed" event.
pub fn profile_changed_payload(user_uuid: u128) -> (p: EventPayload)
    ensures
        profile_changed_event(p, user_uuid),
{
    EventPayload::ProfileChanged(ProfileChangedPayload { user_uuid: uuid_to_string(user_uuid) })
}

/// `update_me`: a customer updates their own account.
///
/// A new email that belongs to another customer is refused; re-submitting
/// one's own email is allowed. The phone number is never changed here.
/// After the update the "profile changed" event is published.
#[derive(Debug)]
pub enum UpdateMeFlow {
    AwaitEmailOwner { user_uuid: u128, req: UpdateCustomerRequest, topic: String },
    AwaitUpdated { user_uuid: u128, topic: String },
    AwaitPublished { response: CustomerResponse },
}

impl UpdateMeFlow {
    /// Kind of outcome awaited.
    pub open spec fn awaited(self) -> OutcomeKind {
        match self {
            UpdateMeFlow::AwaitEmailOwner { .. } => OutcomeKind::Customer,
            UpdateMeFlow::AwaitUpdated { .. } => OutcomeKind::SavedCustomer,
            UpdateMeFlow::AwaitPublished { .. } => OutcomeKind::Delivered,
        }
    }

    /// Whether `resume` accepts this outcome.
    pub open spec fn accepts(self, o: Outcome) -> bool {
        o.kind_of() == self.awaited()
    }

    /// Exec form of `accepts`.
    pub fn can_resume(&self, o: &Outcome) -> (b: bool)
        ensures
            b == self.accepts(*o),
    {
        match self {
            UpdateMeFlow::AwaitEmailOwner { .. } => matches!(o, Outcome::Customer(_)),
            UpdateMeFlow::AwaitUpdated { .. } => matches!(o, Outcome::SavedCustomer(_)),
            UpdateMeFlow::AwaitPublished { .. } => matches!(o, Outcome::Delivered(_)),
        }
    }

    /// The step updates the account of `user_uuid` as `req` asks.
    pub open spec fn updates(user_uuid: u128, req: UpdateCustomerRequest, topic: String, r: Step<UpdateMeFlow, CustomerResponse>) -> bool {
        match r {
            Step::Perform(f, Effect::UpdateCustomer { id, data }) =>
                f == (UpdateMeFlow::AwaitUpdated { user_uuid, topic }) && id == user_uuid && update_data(req, data),
            _ => false,
        }
    }

    /// The step taken from `self` on outcome `o`.
    pub open spec fn transition(self, o: Outcome, r: Step<UpdateMeFlow, CustomerResponse>) -> bool {
        match self {
            UpdateMeFlow::AwaitEmailOwner { user_uuid, req, topic } => match o {
                Outcome::Customer(Ok(Some(owner))) => if owner.id != user_uuid {
                    fails_with(r, ApplicationErrorView::BadRequest("email already in use"@))
                } else {
                    Self::updates(user_uuid, req, topic, r)
                },
                Outcome::Customer(Ok(None)) => Self::updates(user_uuid, req, topic, r),
                Outcome::Customer(Err(e)) => repository_failure(r, e),
                _ => true,
            },
            UpdateMeFlow::AwaitUpdated { user_uuid, topic } => match o {
                Outcome::SavedCustomer(Ok(c)) => match r {
                    Step::Perform(UpdateMeFlow::AwaitPublished { response }, Effect::Publish { topic: t, payload }) =>
                        response.shows(c) && t == topic && profile_changed_event(payload, user_uuid),
                    _ => false,
                },
                Outcome::SavedCustomer(Err(e)) => repository_failure(r, e),
                _ => true,
            },
            UpdateMeFlow::AwaitPublished { response } => r == Step::<UpdateMeFlow, CustomerResponse>::Finish(Ok(response)),
        }
    }

    fn update(user_uuid: u128, req: UpdateCustomerRequest, topic: String) -> (r: Step<UpdateMeFlow, CustomerResponse>)
        ensures
            Self::updates(user_uuid, req, topic, r),
    {
        let data = update_data_of(req);
        Step::Perform(UpdateMeFlow::AwaitUpdated { user_uuid, topic }, Effect::UpdateCustomer { id: user_uuid, data })
    }

    /// The first step of an update: look up who owns the new email, if one
    /// is given; else update at once.
    pub open spec fn started(user_uuid: u128, req: UpdateCustomerRequest, topic: String, r: Step<UpdateMeFlow, CustomerResponse>) -> bool {
        match req.email {
            Some(email) => match r {
                Step::Perform(f, Effect::FindCustomerByEmail { email: q }) =>
                    f == (UpdateMeFlow::AwaitEmailOwner { user_uuid, req, topic }) && q == email,
                _ => false,
            },
            None => Self::updates(user_uuid, req, topic, r),
        }
    }

    /// Checks who owns the new email, if one is given; else updates at once.
    pub fn start(user_uuid: u128, req: UpdateCustomerRequest, topic: String) -> (r: Step<UpdateMeFlow, CustomerResponse>)
        ensures
            r matches Step::Perform(f, e) ==> f.awaited() == e.answered_by(),
            Self::started(user_uuid, req, topic, r),
    {
        match &req.email {
            Some(email) => {
                let q = email.clone();
                Step::Perform(UpdateMeFlow::AwaitEmailOwner { user_uuid, req, topic }, Effect::FindCustomerByEmail { email: q })
            },
            None => Self::update(user_uuid, req, topic),
        }
    }

    /// Takes the outcome of the awaited call.
    pub fn resume(self, outcome: Outcome) -> (r: Step<UpdateMeFlow, CustomerResponse>)
        requires
            self.accepts(outcome),
        ensures
            r matches Step::Perform(f, e) ==> f.awaited() == e.answered_by(),
            self.transition(outcome, r),
    {
        match self {
            UpdateMeFlow::AwaitEmailOwner { user_uuid, req, topic } => match outcome {
                Outcome::Customer(Ok(Some(owner))) => {
                    if owner.id != user_uuid {
                        Step::Finish(Err(bad_request("email already in use")))
                    } else {
                        Self::update(user_uuid, req, topic)
                    }
                },
                Outcome::Customer(Ok(None)) => Self::update(user_uuid, req, topic),
                Outcome::Customer(Err(e)) => Step::Finish(Err(ApplicationError::Repository(e))),
                _ => vstd::pervasive::unreached(),
            },
            UpdateMeFlow::AwaitUpdated { user_uuid, topic } => match outcome {
                Outcome::SavedCustomer(Ok(c)) => {
                    let response = CustomerResponse::from(c);
                    let payload = profile_changed_payload(user_uuid);
                    Step::Perform(UpdateMeFlow::AwaitPublished { response }, Effect::Publish { topic, payload })
                },
                Outcome::SavedCustomer(Err(e)) => Step::Finish(Err(ApplicationError::Repository(e))),
                _ => vstd::pervasive::unreached(),
            },
            UpdateMeFlow::AwaitPublished { response } => Step::Finish(Ok(response)),
        }
    }
}

/// `delete`: soft-deletes a customer and returns the deleted record.
#[derive(Debug)]
pub enum DeleteCustomerFlow {
    AwaitDeleted,
}

impl DeleteCustomerFlow {
    /// Kind of outcome awaited.
    pub open spec fn awaited(self) -> OutcomeKind {
        OutcomeKind::SavedCustomer
    }

    /// Whether `resume` accepts this outcome.
    pub open spec fn accepts(self, o: Outcome) -> bool {
        o.kind_of() == self.awaited()
    }

    /// Exec form of `accepts`.
    pub fn can_resume(&self, o: &Outcome) -> (b: bool)
        ensures
            b == self.accepts(*o),
    {
        matches!(o, Outcome::SavedCustomer(_))
    }

    /// Soft-deletes the customer.
    pub fn start(id: u128) -> (r: Step<DeleteCustomerFlow, CustomerResponse>)
        ensures
            r == Step::<DeleteCustomerFlow, CustomerResponse>::Perform(
                DeleteCustomerFlow::AwaitDeleted,
                Effect::SoftDeleteCustomer { id },
            ),
    {
        Step::Perform(DeleteCustomerFlow::AwaitDeleted, Effect::SoftDeleteCustomer { id })
    }

    /// Returns the deleted record.
    pub fn resume(self, outcome: Outcome) -> (r: Step<DeleteCustomerFlow, CustomerResponse>)
        requires
            self.accepts(outcome),
        ensures
            outcome matches Outcome::SavedCustomer(Ok(c)) ==> (r matches Step::Finish(Ok(resp)) && resp.shows(c)),
            outcome matches Outcome::SavedCustomer(Err(e)) ==> repository_failure(r, e),
    {
        match outcome {
            Outcome::SavedCustomer(Ok(c)) => Step::Finish(Ok(CustomerResponse::from(c))),
            Outcome::SavedCustomer(Err(e)) => Step::Finish(Err(ApplicationError::Repository(e))),
            _ => vstd::pervasive::unreached(),
        }
    }
}

/// `update_profile_image` of the customer use cases: records (or clears)
/// the image key of a customer.
#[derive(Debug)]
pub enum SetProfileImageFlow {
    AwaitStored,
}

impl SetProfileImageFlow {
    /// Kind of outcome awaited.
    pub open spec fn awaited(self) -> OutcomeKind {
        OutcomeKind::Stored
    }

    /// Whether `resume` accepts this outcome.
    pub open spec fn accepts(self, o: Outcome) -> bool {
        o.kind_of() == self.awaited()
    }

    /// Exec form of `accepts`.
    pub fn can_resume(&self, o: &Outcome) -> (b: bool)
        ensures
            b == self.accepts(*o),
    {
        matches!(o, Outcome::Stored(_))
    }

    /// Stores the key.
    pub fn start(user_uuid: u128, image_key: Option<String>) -> (r: Step<SetProfileImageFlow, ()>)
        ensures
            r == Step::<SetProfileImageFlow, ()>::Perform(
                SetProfileImageFlow::AwaitStored,
                Effect::UpdateProfileImage { user_uuid, image_key },
            ),
    {
        Step::Perform(SetProfileImageFlow::AwaitStored, Effect::UpdateProfileImage { user_uuid, image_key })
    }

    /// Finishes with the repository's answer.
    pub fn resume(self, outcome: Outcome) -> (r: Step<SetProfileImageFlow, ()>)
        requires
            self.accepts(outcome),
        ensures
            outcome matches Outcome::Stored(Ok(())) ==> r == Step::<SetProfileImageFlow, ()>::Finish(Ok(())),
            outcome matches Outcome::Stored(Err(e)) ==> repository_failure(r, e),
    {
        match outcome {
            Outcome::Stored(Ok(())) => Step::Finish(Ok(())),
            Outcome::Stored(Err(e)) => Step::Finish(Err(ApplicationError::Repository(e))),
            _ => vstd::pervasive::unreached(),
        }
    }
}

/// A registration stores the request's own fields: the email, consent,
/// client id, first and last name and nationality as given; the locale,
/// gender and birthdate as their texts name them (`None` where the text names
/// none); and the phone number with a leading `0` replaced by the prefix.
pub proof fn registration_stores_the_request(
    req: CreateCustomerRequest,
    format: Seq<char>,
    f: CreateCustomerFlow,
    o: Outcome,
    r: Step<CreateCustomerFlow, CustomerResponse>,
)
    requires
        CreateCustomerFlow::started(req, format, r) || (f.accepts(o) && f.transition(o, r) && match f {
            CreateCustomerFlow::AwaitEmailCheck { req: q, phone } => q == req && opt_view(phone) == match req.phone {
                Some(p) => Some(normalized_phone(p@, format)),
                None => None,
            },
            CreateCustomerFlow::AwaitPhoneCheck { req: q, phone } => q == req && opt_view(phone) == match req.phone {
                Some(p) => Some(normalized_phone(p@, format)),
                None => None,
            },
            _ => false,
        }),
    ensures
        r matches Step::Perform(_, Effect::CreateCustomer { data }) ==> {
            &&& data.email == req.email
            &&& data.has_consent == req.has_consent
            &&& data.client_id == req.client_id
            &&& data.first_name == req.first_name
            &&& data.last_name == req.last_name
            &&& data.nationality == req.nationality
            &&& data.locale == match req.locale {
                Some(t) => Some(locale_named(lowercase_of(t@))),
                None => None,
            }
            &&& data.gender == match req.gender {
                Some(t) => gender_named(lowercase_of(t@)),
                None => None,
            }
            &&& match req.birthdate {
                Some(t) => match date_parse(t@) {
                    Some(day) => data.birthdate matches Some(d) && d@ == day,
                    None => data.birthdate is None,
                },
                None => data.birthdate is None,
            }
            &&& opt_view(data.phone) == match req.phone {
                Some(p) => Some(normalized_phone(p@, format)),
                None => None,
            }
        },
{
}

/// `update_me` sends the requested fields to the caller's own record: the
/// email, consent, first and last name and nationality as given; the
/// locale, gender and birthdate as their texts name them; and never a phone
/// number.
pub proof fn update_me_sends_the_request(
    user_uuid: u128,
    req: UpdateCustomerRequest,
    topic: String,
    o: Outcome,
    r: Step<UpdateMeFlow, CustomerResponse>,
)
    requires
        UpdateMeFlow::started(user_uuid, req, topic, r) || ((UpdateMeFlow::AwaitEmailOwner {
            user_uuid,
            req,
            topic,
        }).accepts(o) && (UpdateMeFlow::AwaitEmailOwner { user_uuid, req, topic }).transition(o, r)),
    ensures
        r matches Step::Perform(_, Effect::UpdateCustomer { id, data }) ==> {
            &&& id == user_uuid
            &&& data.phone is None
            &&& data.email == req.email
            &&& data.has_consent == req.has_consent
            &&& data.first_name == req.first_name
            &&& data.last_name == req.last_name
            &&& data.nationality == req.nationality
            &&& data.locale == match req.locale {
                Some(t) => Some(locale_named(lowercase_of(t@))),
                None => None,
            }
            &&& data.gender == match req.gender {
                Some(t) => gender_named(lowercase_of(t@)),
                None => None,
            }
            &&& match req.birthdate {
                Some(t) => match date_parse(t@) {
                    Some(day) => data.birthdate matches Some(d) && d@ == day,
                    None => data.birthdate is None,
                },
                None => data.birthdate is None,
            }
        },
{
}

} // verus!
