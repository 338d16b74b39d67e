//! Session client: connection material derived from a lockfile descriptor,
//! and the exact URLs and bodies of the control-API requests. The HTTP
//! transport itself lives outside the library and attaches the header this
//! module computes.
use vstd::prelude::*;
use vstd::string::{StrSliceExecFns, StringExecFns};

use crate::digits::{i64_to_string, int_rep};
use crate::errors::{AppError, AppResult};
use crate::lockfile::ConnectionDescriptor;

pub mod champ_select_session;

verus! {

/// What an outside function returns: the standard-alphabet, padded base64
/// encoding of a string's UTF-8 bytes.
pub uninterp spec fn base64_of(s: Seq<char>) -> Seq<char>;

/// Relies on base64's `Engine::encode` with the `STANDARD` engine: the
/// encoding is a function of the input bytes alone, and a string's UTF-8
/// bytes are a function of its characters.
#[verifier::external_body]
fn base64_encode(s: &String) -> (r: String)
    ensures
        r@ == base64_of(s@),
{
    base64::Engine::encode(&base64::prelude::BASE64_STANDARD, s.as_bytes())
}

/// Relies on std::path::Path::exists: answers whether the path names an
/// entry on the file system. Nothing is assumed of the answer.
#[verifier::external_body]
fn path_exists(p: &str) -> bool {
    std::path::Path::new(p).exists()
}

/// Path of the game's subdirectory under the install root.
pub fn league_dir_path(riot_path: &str) -> (p: String)
    ensures
        p@ == riot_path@ + "/League of Legends"@,
{
    riot_path.to_owned().concat("/League of Legends")
}

/// Path of the lockfile under the install root.
pub fn lockfile_path(riot_path: &str) -> (p: String)
    ensures
        p@ == riot_path@ + "/League of Legends/lockfile"@,
{
    riot_path.to_owned().concat("/League of Legends/lockfile")
}

/// Answers whether the install root holds the game's subdirectory. The
/// answer comes from the file system and may change between calls.
pub fn check_riot_path(riot_path: String) -> bool {
    path_exists(league_dir_path(riot_path.as_str()).as_str())
}

/// Session client bound to one connection descriptor: the port of the
/// local service and the Basic-Auth header value to attach to every
/// request. A new descriptor requires a new client.
#[derive(Clone, Debug)]
pub struct LolClient {
    pub port: String,
    pub auth_header: String,
}

impl LolClient {
    /// Pure construction from a descriptor; no network call. The header is
    /// `Basic` followed by the encoding of `riot:` and the credential.
    pub fn new(descriptor: &ConnectionDescriptor) -> (c: LolClient)
        ensures
            c.port@ == descriptor.port@,
            c.auth_header@ == "Basic "@ + base64_of("riot:"@ + descriptor.credential@),
    {
        let creds = "riot:".to_owned().concat(descriptor.credential.as_str());
        let encoded = base64_encode(&creds);
        let auth_header = "Basic ".to_owned().concat(encoded.as_str());
        LolClient { port: descriptor.port.clone(), auth_header }
    }

    /// Full URL of an endpoint on the local service.
    pub fn get_url(&self, endpoint: &str) -> (url: String)
        ensures
            url@ == "https://127.0.0.1:"@ + self.port@ + endpoint@,
    {
        "https://127.0.0.1:".to_owned().concat(self.port.as_str()).concat(endpoint)
    }

    /// URL of the act resource of one action.
    pub fn ban_url(&self, action_id: i64) -> (url: String)
        ensures
            url@ == "https://127.0.0.1:"@ + self.port@ + "/lol-champ-select/v1/session/actions/"@
                + int_rep(action_id as int),
    {
        let endpoint = "/lol-champ-select/v1/session/actions/".to_owned().concat(
            i64_to_string(action_id).as_str(),
        );
        let url = self.get_url(endpoint.as_str());
        proof {
            assert(("https://127.0.0.1:"@ + self.port@) + ("/lol-champ-select/v1/session/actions/"@
                + int_rep(action_id as int)) =~= ("https://127.0.0.1:"@ + self.port@
                + "/lol-champ-select/v1/session/actions/"@) + int_rep(action_id as int));
        }
        url
    }

    /// JSON body of the act call: the champion to ban, and completion.
    pub fn ban_body(champion_id: i32) -> (body: String)
        ensures
            body@ == "{\"championId\":"@ + int_rep(champion_id as int) + ",\"completed\":true}"@,
    {
        "{\"championId\":".to_owned().concat(i64_to_string(champion_id as i64).as_str()).concat(
            ",\"completed\":true}",
        )
    }
}

/// Interprets the identity resource: the caller's id when the expected
/// field was present, otherwise the service is not ready yet.
pub fn interpret_identity(puuid: Option<String>) -> (r: AppResult<String>)
    ensures
        match r {
            Ok(p) => puuid == Some(p),
            Err(e) => puuid is None && e is NotReadyError,
        },
{
    match puuid {
        Some(p) => Ok(p),
        None => Err(AppError::NotReadyError),
    }
}

} // verus!
