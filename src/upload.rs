use vstd::prelude::*;
use crate::text::text_eq;

verus! {

/// The shape of a UUID's hyphenated lower-case text: 36 characters, with
/// hyphens at positions 8, 13, 18 and 23 and lower-case hex digits elsewhere.
pub open spec fn hyphenated_uuid_text(s: Seq<char>) -> bool {
    &&& s.len() == 36
    &&& forall|i: int| 0 <= i < 36 ==> (if i == 8 || i == 13 || i == 18 || i == 23 {
        #[trigger] s[i] == '-'
    } else {
        ('0' <= s[i] <= '9') || ('a' <= s[i] <= 'f')
    })
}

/// Relies on `uuid::Uuid::new_v4` for a fresh random identifier, turned into
/// text by its `Display` impl, which writes the hyphenated lower-case form.
/// Nothing is known of the digits.
#[verifier::external_body]
fn random_uuid_text() -> (r: String)
    ensures
        hyphenated_uuid_text(r@),
{
    uuid::Uuid::new_v4().to_string()
}

/// One upload of an archive: a fresh release identifier, the URL it goes to,
/// and the form fields sent with it.
#[derive(Debug, Clone)]
pub struct UploadSession {
    pub release_id: String,
    pub url: String,
    pub environment: String,
    pub file_name: String,
}

/// An upload the server did not accept.
#[derive(Debug, Clone, PartialEq, Eq)]
pub struct UploadError {
    pub status: u16,
    pub body: String,
}

pub open spec fn release_spec(uuid: Seq<char>) -> Seq<char> {
    "u-"@ + uuid
}

pub open spec fn upload_url_spec(base: Seq<char>, name: Seq<char>, release_id: Seq<char>) -> Seq<char> {
    base + "/apps/"@ + name + "/releases/"@ + release_id + "/upload"@
}

pub open spec fn session_spec(
    s: UploadSession,
    base: Seq<char>,
    name: Seq<char>,
    environment: Seq<char>,
    uuid: Seq<char>,
) -> bool {
    &&& s.release_id@ == release_spec(uuid)
    &&& s.url@ == upload_url_spec(base, name, release_spec(uuid))
    &&& s.environment@ == environment
    &&& s.file_name@ == name
}

/// The release identifier made from a UUID's text.
pub fn release_identifier(uuid: &str) -> (r: String)
    ensures
        r@ == release_spec(uuid@),
{
    String::from_str("u-").concat(uuid)
}

/// The release-scoped upload URL.
pub fn upload_url(base: &str, name: &str, release_id: &str) -> (r: String)
    ensures
        r@ == upload_url_spec(base@, name@, release_id@),
{
    String::from_str(base).concat("/apps/").concat(name).concat("/releases/").concat(release_id).concat("/upload")
}

impl UploadSession {
    /// The session for a project's upload under the release named by `uuid`.
    pub fn for_release(base: &str, name: &str, environment: &str, uuid: &str) -> (r: UploadSession)
        ensures
            session_spec(r, base@, name@, environment@, uuid@),
    {
        let release_id = release_identifier(uuid);
        let url = upload_url(base, name, release_id.as_str());
        UploadSession {
            release_id,
            url,
            environment: String::from_str(environment),
            file_name: String::from_str(name),
        }
    }

    /// A session under a freshly generated release identifier.
    pub fn new(base: &str, name: &str, environment: &str) -> (r: UploadSession)
        ensures
            exists|uuid: Seq<char>| hyphenated_uuid_text(uuid) && session_spec(r, base@, name@, environment@, uuid),
            r.release_id@.len() == 38,
    {
        let uuid = random_uuid_text();
        proof {
            reveal_strlit("u-");
        }
        UploadSession::for_release(base, name, environment, uuid.as_str())
    }
}

/// A 2xx status.
pub open spec fn success_status(code: u16) -> bool {
    200 <= code <= 299
}

/// The result of an upload by the response's status and body text, when the
/// body could be read.
pub fn upload_outcome(status: u16, body: Option<String>) -> (r: Result<(), UploadError>)
    ensures
        success_status(status) <==> r is Ok,
        r matches Err(e) ==> e.status == status && (body matches Some(b) ==> e.body@ == b@)
            && (body is None ==> e.body@ == "No error message"@),
{
    if 200 <= status && status <= 299 {
        Ok(())
    } else {
        let text = match body {
            Some(b) => b,
            None => String::from_str("No error message"),
        };
        Err(UploadError { status, body: text })
    }
}

/// The archive's file name, from the project directory's leaf name.
pub fn archive_file_name(project_name: Option<&str>) -> (r: String)
    ensures
        project_name matches Some(n) ==> r@ == n@ + ".tar.gz"@,
        project_name is None ==> r@ == "project.tar.gz"@,
{
    match project_name {
        Some(n) => String::from_str(n).concat(".tar.gz"),
        None => String::from_str("project.tar.gz"),
    }
}

/// Whether a deploy to this environment must be confirmed first: only
/// `Production` is.
pub fn needs_deploy_confirmation(environment: &str) -> (r: bool)
    ensures
        r == (environment@ == "Production"@),
{
    text_eq(environment, "Production")
}

} // verus!
