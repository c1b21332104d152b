//! The HTTP surface's decisions: which multipart field is the bundle and
//! what the function is called, the size cap on uploads, the replies of
//! the deploy route, the listing of a user's functions, and the input
//! rules of registration and login.

use vstd::prelude::*;

use crate::catalog::FunctionRecord;
use crate::errors::{spec_error_message, Error};
use crate::guard::{parse_uuid, spec_uuid_parse};
use crate::text::{dec_str_of, spec_ends_with, str_ends_with, usize_to_string};

verus! {

/// Whether a multipart field's file name marks it as the function bundle:
/// only ZIP archives are accepted.
pub fn is_bundle_file(file_name: &str) -> (r: bool)
    ensures
        r == spec_ends_with(file_name@, ".zip"@),
{
    str_ends_with(file_name, ".zip")
}

/// The name a bundle deploys under: its file name with `.zip` cut off.
pub fn bundle_name(file_name: &str) -> (r: String)
    requires
        spec_ends_with(file_name@, ".zip"@),
    ensures
        r@ == file_name@.take(file_name@.len() - 4),
{
    proof {
        reveal_strlit(".zip");
    }
    let n: usize = file_name.unicode_len();
    let stem = file_name.substring_char(0, n - 4);
    proof {
        assert(stem@ =~= file_name@.take(file_name@.len() - 4));
    }
    stem.to_owned()
}

/// The bytes of a sequence of upload chunks, in order.
pub open spec fn spec_concat_chunks(chunks: Seq<Vec<u8>>) -> Seq<u8>
    decreases chunks.len(),
{
    if chunks.len() == 0 {
        Seq::<u8>::empty()
    } else {
        spec_concat_chunks(chunks.drop_last()) + chunks.last()@
    }
}

pub proof fn lemma_concat_chunks_prefix(chunks: Seq<Vec<u8>>, k: int)
    requires
        0 <= k <= chunks.len(),
    ensures
        spec_concat_chunks(chunks.take(k)).len() <= spec_concat_chunks(chunks).len(),
    decreases chunks.len() - k,
{
    if k < chunks.len() {
        lemma_concat_chunks_prefix(chunks, k + 1);
        assert(chunks.take(k + 1).drop_last() =~= chunks.take(k));
    } else {
        assert(chunks.take(k) =~= chunks);
    }
}

/// Buffer the chunks of an upload, refusing to grow beyond the size cap:
/// the whole bundle is returned exactly when its bytes fit, and an upload
/// over the cap is rejected, whatever else its chunks hold.
pub fn accumulate_chunks(chunks: &Vec<Vec<u8>>, max_size: usize) -> (r: Option<Vec<u8>>)
    ensures
        match r {
            Some(buf) => buf@ == spec_concat_chunks(chunks@) && buf@.len() <= max_size,
            None => spec_concat_chunks(chunks@).len() > max_size,
        },
{
    let n: usize = chunks.len();
    let mut buf: Vec<u8> = Vec::new();
    let mut i: usize = 0;
    proof {
        assert(buf@ =~= spec_concat_chunks(chunks@.take(0)));
    }
    while i < n
        invariant
            i <= n,
            n == chunks@.len(),
            buf@ == spec_concat_chunks(chunks@.take(i as int)),
            buf@.len() <= max_size,
        decreases n - i,
    {
        let chunk = &chunks[i];
        let len: usize = chunk.len();
        proof {
            assert(chunks@.take(i + 1).drop_last() =~= chunks@.take(i as int));
            assert(chunks@.take(i + 1).last() == chunks@[i as int]);
        }
        if len > max_size - buf.len() {
            proof {
                assert(spec_concat_chunks(chunks@.take(i + 1)).len() > max_size);
                lemma_concat_chunks_prefix(chunks@, i + 1);
            }
            return None;
        }
        let mut j: usize = 0;
        while j < len
            invariant
                j <= len,
                len == chunk@.len(),
                buf@ == spec_concat_chunks(chunks@.take(i as int)) + chunk@.take(j as int),
                spec_concat_chunks(chunks@.take(i as int)).len() + len <= max_size,
            decreases len - j,
        {
            buf.push(chunk[j]);
            proof {
                assert(chunk@.take(j + 1) =~= chunk@.take(j as int).push(chunk@[j as int]));
                assert(buf@ =~= spec_concat_chunks(chunks@.take(i as int)) + chunk@.take(j + 1));
            }
            j = j + 1;
        }
        proof {
            assert(chunk@.take(len as int) =~= chunk@);
            assert(buf@ =~= spec_concat_chunks(chunks@.take(i + 1)));
        }
        i = i + 1;
    }
    proof {
        assert(chunks@.take(n as int) =~= chunks@);
    }
    Some(buf)
}

/// The message an oversized upload is refused with.
pub open spec fn spec_too_large_message(max: int) -> Seq<char> {
    "File too large, maximum size is "@ + dec_str_of(max) + " bytes"@
}

/// How the deploy route's work ended.
pub enum UploadEvent {
    /// No field of the multipart request is a ZIP file.
    NoBundleField,
    /// The bundle could not be buffered within the size cap.
    TooLarge { max_size: usize },
    /// A chunk of the upload could not be read; the detail says why.
    ReadFailed { detail: String },
    /// The deploy went through, with this message.
    Deployed { message: String },
    /// The deploy failed.
    DeployFailed { error: Error },
}

/// The deploy route's reply: a request without a bundle is a 400, an
/// oversized bundle, a broken upload and a failed deploy are 500s, and a
/// finished deploy answers 200 with its message. Nothing is ever
/// registered on the failing paths; the deploy itself runs only after
/// the bundle was buffered in full.
pub fn upload_reply(ev: UploadEvent) -> (r: (u16, String))
    ensures
        match ev {
            UploadEvent::NoBundleField => r.0 == 400 && r.1@ == "Unexpected request"@,
            UploadEvent::TooLarge { max_size } => r.0 == 500 && r.1@ == "Error reading file: "@
                + spec_too_large_message(max_size as int),
            UploadEvent::ReadFailed { detail } => r.0 == 500 && r.1@ == "Error reading file: "@
                + detail@,
            UploadEvent::Deployed { message } => r.0 == 200 && r.1@ == message@,
            UploadEvent::DeployFailed { error } => r.0 == 500 && r.1@
                == "Failed to deploy function: "@ + spec_error_message(error),
        },
{
    match ev {
        UploadEvent::NoBundleField => (400, "Unexpected request".to_owned()),
        UploadEvent::TooLarge { max_size } => {
            let mut body: String = "Error reading file: ".to_owned();
            body.append("File too large, maximum size is ");
            let rendered = usize_to_string(max_size);
            body.append(rendered.as_str());
            body.append(" bytes");
            proof {
                assert(body@ =~= "Error reading file: "@ + spec_too_large_message(
                    max_size as int,
                ));
            }
            (500, body)
        },
        UploadEvent::ReadFailed { detail } => {
            let mut body: String = "Error reading file: ".to_owned();
            body.append(detail.as_str());
            (500, body)
        },
        UploadEvent::Deployed { message } => (200, message),
        UploadEvent::DeployFailed { error } => {
            let mut body: String = "Failed to deploy function: ".to_owned();
            let rendered = error.message();
            body.append(rendered.as_str());
            (500, body)
        },
    }
}

/// One row of the `/list` reply.
pub struct FunctionSummary {
    pub uuid: String,
    pub name: String,
    pub runtime: String,
}

/// The `/list` reply for a user's catalog rows: uuid, name and runtime of
/// each, in catalog order.
pub fn function_summaries(functions: &Vec<FunctionRecord>) -> (r: Vec<FunctionSummary>)
    ensures
        r@.len() == functions@.len(),
        forall|i: int|
            0 <= i < functions@.len() ==> (#[trigger] r@[i]).uuid@ == functions@[i].uuid@
                && r@[i].name@ == functions@[i].name@ && r@[i].runtime@ == functions@[i].runtime@,
{
    let n: usize = functions.len();
    let mut out: Vec<FunctionSummary> = Vec::new();
    let mut i: usize = 0;
    while i < n
        invariant
            i <= n,
            n == functions@.len(),
            out@.len() == i,
            forall|k: int|
                0 <= k < i ==> (#[trigger] out@[k]).uuid@ == functions@[k].uuid@ && out@[k].name@
                    == functions@[k].name@ && out@[k].runtime@ == functions@[k].runtime@,
        decreases n - i,
    {
        let f = &functions[i];
        out.push(
            FunctionSummary {
                uuid: f.uuid.clone(),
                name: f.name.clone(),
                runtime: f.runtime.clone(),
            },
        );
        i = i + 1;
    }
    out
}

/// Read the namespace segment of an invocation route as a user UUID:
/// a segment that is no UUID in any accepted form is refused, anything
/// else becomes the canonical hyphenated form.
pub fn parse_namespace(segment: &str) -> (r: Option<String>)
    ensures
        match spec_uuid_parse(segment@) {
            Some(v) => r matches Some(u) && u@ == v && u@.len() == 36,
            None => r is None,
        },
{
    parse_uuid(segment)
}

/// The reply for an invocation whose namespace segment is no UUID: a
/// 400 naming the offending segment; nothing further is looked up or
/// started.
pub fn invalid_namespace_reply(segment: &str) -> (r: (u16, String))
    ensures
        r.0 == 400,
        r.1@ == "Invalid function namespace: "@ + segment@,
{
    let mut body: String = "Invalid function namespace: ".to_owned();
    body.append(segment);
    (400, body)
}

/// A registration request's body.
pub struct RegisterRequest {
    pub email: String,
    pub password: String,
}

/// A login request's body.
pub struct LoginRequest {
    pub email: String,
    pub password: String,
}

/// What a successful registration or login answers: the token and the
/// user it belongs to.
pub struct AuthResponse {
    pub token: String,
    pub user: UserResponse,
}

/// A user as shown to clients: uuid and email, nothing sensitive.
pub struct UserResponse {
    pub uuid: String,
    pub email: String,
}

/// The input rules of registration: both fields must be present and the
/// password at least six characters; a request that breaks them is
/// answered with 400 and the rule it broke.
pub fn validate_registration(email: &str, password: &str) -> (r: Option<(u16, String)>)
    ensures
        (if email@.len() == 0 || password@.len() == 0 {
            r matches Some(p) && p.0 == 400 && p.1@ == "Email and password are required"@
        } else if password@.len() < 6 {
            r matches Some(p) && p.0 == 400 && p.1@ == "Password must be at least 6 characters"@
        } else {
            r is None
        }),
{
    if email.is_empty() || password.is_empty() {
        Some((400, "Email and password are required".to_owned()))
    } else if password.unicode_len() < 6 {
        Some((400, "Password must be at least 6 characters".to_owned()))
    } else {
        None
    }
}

/// The reply a failed registration gets: a duplicate email is a conflict,
/// anything else is on the platform.
pub fn register_failure_reply(duplicate_email: bool) -> (r: (u16, String))
    ensures
        duplicate_email ==> r.0 == 409 && r.1@ == "Email already registered"@,
        !duplicate_email ==> r.0 == 500 && r.1@ == "Failed to register user"@,
{
    if duplicate_email {
        (409, "Email already registered".to_owned())
    } else {
        (500, "Failed to register user".to_owned())
    }
}

/// The reply a failed login gets: wrong credentials are a 401, anything
/// else is on the platform.
pub fn login_failure_reply(bad_credentials: bool) -> (r: (u16, String))
    ensures
        bad_credentials ==> r.0 == 401 && r.1@ == "Invalid credentials"@,
        !bad_credentials ==> r.0 == 500 && r.1@ == "Failed to authenticate user"@,
{
    if bad_credentials {
        (401, "Invalid credentials".to_owned())
    } else {
        (500, "Failed to authenticate user".to_owned())
    }
}

} // verus!
