//! Uploading, signing and deleting a customer's profile image.
use vstd::prelude::*;
use vstd::string::*;
use crate::application::config::AppConfig;
use crate::application::customers::{customer_missing, customer_missing_message};
use crate::application::errors::{bad_request, not_found, ApplicationError, ApplicationErrorView};
use crate::application::flow::{Effect, Outcome, OutcomeKind, Step};
use crate::application::identities::{fails_with, repository_failure};
use crate::domain::customer::Customer;
use crate::ids::{uuid_hyphenated, uuid_to_string};

verus! {

/// A signed URL of a profile image.
#[derive(Debug)]
pub struct ProfileImageResponse {
    pub url: String,
}

/// The configuration values the image flows read.
#[derive(Debug)]
pub struct ImageSettings {
    pub allow_image_types: Vec<String>,
    pub max_image_size_mb: u32,
    pub image_prefix: String,
}

/// Copies a list of strings.
fn copy_strings(v: &Vec<String>) -> (r: Vec<String>)
    ensures
        r@ == v@,
{
    let mut out: Vec<String> = Vec::new();
    let mut k: usize = 0;
    while k < v.len()
        invariant
            k <= v@.len(),
            out@ == v@.take(k as int),
        decreases v@.len() - k,
    {
        out.push(v[k].clone());
        k = k + 1;
        assert(out@ =~= v@.take(k as int));
    }
    assert(v@.take(v@.len() as int) =~= v@);
    out
}

impl ImageSettings {
    /// The settings taken from the configuration.
    pub fn from_config(config: &AppConfig) -> (r: ImageSettings)
        ensures
            r.allow_image_types@ == config.allow_image_types@,
            r.max_image_size_mb == config.max_image_size_mb,
            r.image_prefix == config.image_prefix,
    {
        ImageSettings {
            allow_image_types: copy_strings(&config.allow_image_types),
            max_image_size_mb: config.max_image_size_mb,
            image_prefix: config.image_prefix.clone(),
        }
    }
}

/// Whether a content type is in the allow-list.
pub open spec fn type_allowed(allowed: Seq<String>, content_type: Seq<char>) -> bool {
    exists|k: int| 0 <= k < allowed.len() && #[trigger] allowed[k]@ == content_type
}

/// Whether the allow-list holds a content type.
pub fn is_allowed_type(allowed: &Vec<String>, content_type: &String) -> (b: bool)
    ensures
        b == type_allowed(allowed@, content_type@),
{
    let mut k: usize = 0;
    while k < allowed.len()
        invariant
            k <= allowed@.len(),
            forall|j: int| 0 <= j < k ==> #[trigger] allowed@[j]@ != content_type@,
        decreases allowed@.len() - k,
    {
        if allowed[k] == *content_type {
            assert(allowed@[k as int]@ == content_type@);
            return true;
        }
        k = k + 1;
    }
    false
}

/// The largest accepted size, in bytes.
pub open spec fn max_bytes(max_mb: u32) -> int {
    max_mb as int * 1024 * 1024
}

/// The storage key of a user's image: `<prefix>/<user uuid>`.
pub open spec fn image_key(prefix: Seq<char>, user_uuid: u128) -> Seq<char> {
    prefix + "/"@ + uuid_hyphenated(user_uuid)
}

/// Builds the storage key of a user's image.
pub fn image_key_of(prefix: &String, user_uuid: u128) -> (r: String)
    ensures
        r@ == image_key(prefix@, user_uuid),
{
    let mut key = prefix.clone();
    key.append("/");
    let id = uuid_to_string(user_uuid);
    key.append(id.as_str());
    key
}

/// `upload`: stores a new profile image and returns a signed URL for it.
///
/// The content type must be allowed and the size at most the configured
/// number of megabytes. The image is stored under `<prefix>/<user uuid>`,
/// the key recorded on the customer, and the key signed. Storage and
/// signing failures are `External` errors.
#[derive(Debug)]
pub enum UploadImageFlow {
    AwaitUploaded { user_uuid: u128, key: String },
    AwaitRecorded { key: String },
    AwaitSigned,
}

impl UploadImageFlow {
    /// Kind of outcome awaited.
    pub open spec fn awaited(self) -> OutcomeKind {
        match self {
            UploadImageFlow::AwaitUploaded { .. } => OutcomeKind::Uploaded,
            UploadImageFlow::AwaitRecorded { .. } => OutcomeKind::Stored,
            UploadImageFlow::AwaitSigned => OutcomeKind::Signed,
        }
    }

    /// Whether `resume` accepts this outcome.
    pub open spec fn accepts(self, o: Outcome) -> bool {
        o.kind_of() == self.awaited()
    }

    /// Exec form of `accepts`.
    pub fn can_resume(&self, o: &Outcome) -> (b: bool)
        ensures
            b == self.accepts(*o),
    {
        match self {
            UploadImageFlow::AwaitUploaded { .. } => matches!(o, Outcome::Uploaded(_)),
            UploadImageFlow::AwaitRecorded { .. } => matches!(o, Outcome::Stored(_)),
            UploadImageFlow::AwaitSigned => matches!(o, Outcome::Signed(_)),
        }
    }

    /// The first step of an upload: refuse a content type that is not
    /// allowed, then a file that is too large, else upload the data under
    /// the user's key.
    pub open spec fn started(
        user_uuid: u128,
        data: Vec<u8>,
        content_type: String,
        file_size: usize,
        settings: ImageSettings,
        r: Step<UploadImageFlow, ProfileImageResponse>,
    ) -> bool {
        if !type_allowed(settings.allow_image_types@, content_type@) {
            fails_with(r, ApplicationErrorView::BadRequest("unsupported image type"@))
        } else if file_size > max_bytes(settings.max_image_size_mb) {
            fails_with(r, ApplicationErrorView::BadRequest("image too large"@))
        } else {
            match r {
                Step::Perform(UploadImageFlow::AwaitUploaded { user_uuid: u, key }, Effect::UploadImage { key: k, data: d, content_type: c }) =>
                    u == user_uuid && key@ == image_key(settings.image_prefix@, user_uuid) && k == key && d == data
                    && c == content_type,
                _ => false,
            }
        }
    }

    /// Checks type and size, then uploads.
    pub fn start(user_uuid: u128, data: Vec<u8>, content_type: String, file_size: usize, settings: &ImageSettings) -> (r: Step<UploadImageFlow, ProfileImageResponse>)
        ensures
            r matches Step::Perform(f, e) ==> f.awaited() == e.answered_by(),
            Self::started(user_uuid, data, content_type, file_size, *settings, r),
    {
        if !is_allowed_type(&settings.allow_image_types, &content_type) {
            return Step::Finish(Err(bad_request("unsupported image type")));
        }
        let limit: u64 = (settings.max_image_size_mb as u64) * 1024 * 1024;
        if file_size as u64 > limit {
            return Step::Finish(Err(bad_request("image too large")));
        }
        let key = image_key_of(&settings.image_prefix, user_uuid);
        let k = key.clone();
        Step::Perform(UploadImageFlow::AwaitUploaded { user_uuid, key }, Effect::UploadImage { key: k, data, content_type })
    }

    /// The step taken from `self` on outcome `o`.
    pub open spec fn transition(self, o: Outcome, r: Step<UploadImageFlow, ProfileImageResponse>) -> bool {
        match self {
            UploadImageFlow::AwaitUploaded { user_uuid, key } => match o {
                Outcome::Uploaded(Err(e)) => fails_with(r, ApplicationErrorView::External(e@)),
                Outcome::Uploaded(Ok(_)) => r == Step::<UploadImageFlow, ProfileImageResponse>::Perform(
                    UploadImageFlow::AwaitRecorded { key },
                    Effect::UpdateProfileImage { user_uuid, image_key: Some(key) },
                ),
                _ => true,
            },
            UploadImageFlow::AwaitRecorded { key } => match o {
                Outcome::Stored(Ok(())) => r == Step::<UploadImageFlow, ProfileImageResponse>::Perform(
                    UploadImageFlow::AwaitSigned,
                    Effect::SignUrl { key },
                ),
                Outcome::Stored(Err(e)) => repository_failure(r, e),
                _ => true,
            },
            UploadImageFlow::AwaitSigned => match o {
                Outcome::Signed(Ok(url)) => r == Step::<UploadImageFlow, ProfileImageResponse>::Finish(Ok(ProfileImageResponse { url })),
                Outcome::Signed(Err(e)) => fails_with(r, ApplicationErrorView::External(e@)),
                _ => true,
            },
        }
    }

    /// Takes the outcome of the awaited call.
    pub fn resume(self, outcome: Outcome) -> (r: Step<UploadImageFlow, ProfileImageResponse>)
        requires
            self.accepts(outcome),
        ensures
            r matches Step::Perform(f, e) ==> f.awaited() == e.answered_by(),
            self.transition(outcome, r),
    {
        match self {
            UploadImageFlow::AwaitUploaded { user_uuid, key } => match outcome {
                Outcome::Uploaded(Err(e)) => Step::Finish(Err(ApplicationError::External(e))),
                Outcome::Uploaded(Ok(_)) => {
                    let k = key.clone();
                    Step::Perform(UploadImageFlow::AwaitRecorded { key }, Effect::UpdateProfileImage { user_uuid, image_key: Some(k) })
                },
                _ => vstd::pervasive::unreached(),
            },
            UploadImageFlow::AwaitRecorded { key } => match outcome {
                Outcome::Stored(Ok(())) => Step::Perform(UploadImageFlow::AwaitSigned, Effect::SignUrl { key }),
                Outcome::Stored(Err(e)) => Step::Finish(Err(ApplicationError::Repository(e))),
                _ => vstd::pervasive::unreached(),
            },
            UploadImageFlow::AwaitSigned => match outcome {
                Outcome::Signed(Ok(url)) => Step::Finish(Ok(ProfileImageResponse { url })),
                Outcome::Signed(Err(e)) => Step::Finish(Err(ApplicationError::External(e))),
                _ => vstd::pervasive::unreached(),
            },
        }
    }
}

/// The image key stored on a customer, if any.
pub open spec fn stored_image(c: Customer) -> Option<String> {
    match c.profile {
        Some(p) => p.profile_image,
        None => None,
    }
}

/// Takes the image key out of a customer record.
fn image_of(c: Customer) -> (r: Option<String>)
    ensures
        r == stored_image(c),
{
    match c.profile {
        Some(p) => p.profile_image,
        None => None,
    }
}

/// `get_image`: a signed URL for the customer's current image.
#[derive(Debug)]
pub enum GetImageFlow {
    AwaitCustomer { user_uuid: u128 },
    AwaitSigned,
}

impl GetImageFlow {
    /// Kind of outcome awaited.
    pub open spec fn awaited(self) -> OutcomeKind {
        match self {
            GetImageFlow::AwaitCustomer { .. } => OutcomeKind::Customer,
            GetImageFlow::AwaitSigned => OutcomeKind::Signed,
        }
    }

    /// Whether `resume` accepts this outcome.
    pub open spec fn accepts(self, o: Outcome) -> bool {
        o.kind_of() == self.awaited()
    }

    /// Exec form of `accepts`.
    pub fn can_resume(&self, o: &Outcome) -> (b: bool)
        ensures
            b == self.accepts(*o),
    {
        match self {
            GetImageFlow::AwaitCustomer { .. } => matches!(o, Outcome::Customer(_)),
            GetImageFlow::AwaitSigned => matches!(o, Outcome::Signed(_)),
        }
    }

    /// Looks the customer up.
    pub fn start(user_uuid: u128) -> (r: Step<GetImageFlow, ProfileImageResponse>)
        ensures
            r == Step::<GetImageFlow, ProfileImageResponse>::Perform(
                GetImageFlow::AwaitCustomer { user_uuid },
                Effect::FindCustomerById { id: user_uuid },
            ),
    {
        Step::Perform(GetImageFlow::AwaitCustomer { user_uuid }, Effect::FindCustomerById { id: user_uuid })
    }

    /// The step taken from `self` on outcome `o`.
    pub open spec fn transition(self, o: Outcome, r: Step<GetImageFlow, ProfileImageResponse>) -> bool {
        match self {
            GetImageFlow::AwaitCustomer { user_uuid } => match o {
                Outcome::Customer(Ok(None)) => fails_with(r, ApplicationErrorView::NotFound(customer_missing_message(user_uuid))),
                Outcome::Customer(Ok(Some(c))) => match stored_image(c) {
                    None => fails_with(r, ApplicationErrorView::NotFound("profile image not found"@)),
                    Some(key) => r == Step::<GetImageFlow, ProfileImageResponse>::Perform(
                        GetImageFlow::AwaitSigned,
                        Effect::SignUrl { key },
                    ),
                },
                Outcome::Customer(Err(e)) => repository_failure(r, e),
                _ => true,
            },
            GetImageFlow::AwaitSigned => match o {
                Outcome::Signed(Ok(url)) => r == Step::<GetImageFlow, ProfileImageResponse>::Finish(Ok(ProfileImageResponse { url })),
                Outcome::Signed(Err(e)) => fails_with(r, ApplicationErrorView::External(e@)),
                _ => true,
            },
        }
    }

    /// Takes the outcome of the awaited call.
    pub fn resume(self, outcome: Outcome) -> (r: Step<GetImageFlow, ProfileImageResponse>)
        requires
            self.accepts(outcome),
        ensures
            r matches Step::Perform(f, e) ==> f.awaited() == e.answered_by(),
            self.transition(outcome, r),
    {
        match self {
            GetImageFlow::AwaitCustomer { user_uuid } => match outcome {
                Outcome::Customer(Ok(None)) => Step::Finish(Err(customer_missing(user_uuid))),
                Outcome::Customer(Ok(Some(c))) => match image_of(c) {
                    None => Step::Finish(Err(not_found("profile image not found"))),
                    Some(key) => Step::Perform(GetImageFlow::AwaitSigned, Effect::SignUrl { key }),
                },
                Outcome::Customer(Err(e)) => Step::Finish(Err(ApplicationError::Repository(e))),
                _ => vstd::pervasive::unreached(),
            },
            GetImageFlow::AwaitSigned => match outcome {
                Outcome::Signed(Ok(url)) => Step::Finish(Ok(ProfileImageResponse { url })),
                Outcome::Signed(Err(e)) => Step::Finish(Err(ApplicationError::External(e))),
                _ => vstd::pervasive::unreached(),
            },
        }
    }
}

/// `delete_image`: removes the stored image and clears the customer's key.
#[derive(Debug)]
pub enum DeleteImageFlow {
    AwaitCustomer { user_uuid: u128 },
    AwaitRemoved { user_uuid: u128 },
    AwaitCleared,
}

impl DeleteImageFlow {
    /// Kind of outcome awaited.
    pub open spec fn awaited(self) -> OutcomeKind {
        match self {
            DeleteImageFlow::AwaitCustomer { .. } => OutcomeKind::Customer,
            DeleteImageFlow::AwaitRemoved { .. } => OutcomeKind::Delivered,
            DeleteImageFlow::AwaitCleared => OutcomeKind::Stored,
        }
    }

    /// Whether `resume` accepts this outcome.
    pub open spec fn accepts(self, o: Outcome) -> bool {
        o.kind_of() == self.awaited()
    }

    /// Exec form of `accepts`.
    pub fn can_resume(&self, o: &Outcome) -> (b: bool)
        ensures
            b == self.accepts(*o),
    {
        match self {
            DeleteImageFlow::AwaitCustomer { .. } => matches!(o, Outcome::Customer(_)),
            DeleteImageFlow::AwaitRemoved { .. } => matches!(o, Outcome::Delivered(_)),
            DeleteImageFlow::AwaitCleared => matches!(o, Outcome::Stored(_)),
        }
    }

    /// Looks the customer up.
    pub fn start(user_uuid: u128) -> (r: Step<DeleteImageFlow, ()>)
        ensures
            r == Step::<DeleteImageFlow, ()>::Perform(
                DeleteImageFlow::AwaitCustomer { user_uuid },
                Effect::FindCustomerById { id: user_uuid },
            ),
    {
        Step::Perform(DeleteImageFlow::AwaitCustomer { user_uuid }, Effect::FindCustomerById { id: user_uuid })
    }

    /// The step taken from `self` on outcome `o`.
    pub open spec fn transition(self, o: Outcome, r: Step<DeleteImageFlow, ()>) -> bool {
        match self {
            DeleteImageFlow::AwaitCustomer { user_uuid } => match o {
                Outcome::Customer(Ok(None)) => fails_with(r, ApplicationErrorView::NotFound(customer_missing_message(user_uuid))),
                Outcome::Customer(Ok(Some(c))) => match stored_image(c) {
                    None => fails_with(r, ApplicationErrorView::NotFound("profile image not found"@)),
                    Some(key) => r == Step::<DeleteImageFlow, ()>::Perform(
                        DeleteImageFlow::AwaitRemoved { user_uuid },
                        Effect::DeleteImage { key },
                    ),
                },
                Outcome::Customer(Err(e)) => repository_failure(r, e),
                _ => true,
            },
            DeleteImageFlow::AwaitRemoved { user_uuid } => match o {
                Outcome::Delivered(Ok(())) => r == Step::<DeleteImageFlow, ()>::Perform(
                    DeleteImageFlow::AwaitCleared,
                    Effect::UpdateProfileImage { user_uuid, image_key: None },
                ),
                Outcome::Delivered(Err(e)) => fails_with(r, ApplicationErrorView::External(e@)),
                _ => true,
            },
            DeleteImageFlow::AwaitCleared => match o {
                Outcome::Stored(Ok(())) => r == Step::<DeleteImageFlow, ()>::Finish(Ok(())),
                Outcome::Stored(Err(e)) => repository_failure(r, e),
                _ => true,
            },
        }
    }

    /// Takes the outcome of the awaited call.
    pub fn resume(self, outcome: Outcome) -> (r: Step<DeleteImageFlow, ()>)
        requires
            self.accepts(outcome),
        ensures
            r matches Step::Perform(f, e) ==> f.awaited() == e.answered_by(),
            self.transition(outcome, r),
    {
        match self {
            DeleteImageFlow::AwaitCustomer { user_uuid } => match outcome {
                Outcome::Customer(Ok(None)) => Step::Finish(Err(customer_missing(user_uuid))),
                Outcome::Customer(Ok(Some(c))) => match image_of(c) {
                    None => Step::Finish(Err(not_found("profile image not found"))),
                    Some(key) => Step::Perform(DeleteImageFlow::AwaitRemoved { user_uuid }, Effect::DeleteImage { key }),
                },
                Outcome::Customer(Err(e)) => Step::Finish(Err(ApplicationError::Repository(e))),
                _ => vstd::pervasive::unreached(),
            },
            DeleteImageFlow::AwaitRemoved { user_uuid } => match outcome {
                Outcome::Delivered(Ok(())) => Step::Perform(
                    DeleteImageFlow::AwaitCleared,
                    Effect::UpdateProfileImage { user_uuid, image_key: None },
                ),
                Outcome::Delivered(Err(e)) => Step::Finish(Err(ApplicationError::External(e))),
                _ => vstd::pervasive::unreached(),
            },
            DeleteImageFlow::AwaitCleared => match outcome {
                Outcome::Stored(Ok(())) => Step::Finish(Ok(())),
                Outcome::Stored(Err(e)) => Step::Finish(Err(ApplicationError::Repository(e))),
                _ => vstd::pervasive::unreached(),
            },
        }
    }
}

/// An upload goes ahead only for a content type that equals, as a whole
/// text, one of the configured types, and a size of at most the configured
/// number of megabytes; any other content type is refused with
/// `BadRequest("unsupported image type")` before anything is stored, and
/// the data are stored under `<prefix>/<user uuid>` with the content type
/// as given.
pub proof fn upload_accepts_exactly_the_allowed_types(
    user_uuid: u128,
    data: Vec<u8>,
    content_type: String,
    file_size: usize,
    settings: ImageSettings,
    r: Step<UploadImageFlow, ProfileImageResponse>,
)
    requires
        UploadImageFlow::started(user_uuid, data, content_type, file_size, settings, r),
    ensures
        (forall|k: int| 0 <= k < settings.allow_image_types@.len() ==> #[trigger] settings.allow_image_types@[k]@ != content_type@)
            ==> (r matches Step::Finish(Err(e)) && e@ == ApplicationErrorView::BadRequest("unsupported image type"@)),
        r matches Step::Perform(_, Effect::UploadImage { key, data: d, content_type: c }) ==> {
            &&& exists|k: int| 0 <= k < settings.allow_image_types@.len() && #[trigger] settings.allow_image_types@[k]@ == content_type@
            &&& file_size <= settings.max_image_size_mb * 1024 * 1024
            &&& key@ == settings.image_prefix@ + "/"@ + uuid_hyphenated(user_uuid)
            &&& d == data
            &&& c == content_type
        },
{
}

} // verus!
