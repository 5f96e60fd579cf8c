//! Custom configurations that consumers can set: the server, the bucket and
//! the collection that a client syncs with.
use crate::error::{Error, Result};
use vstd::prelude::*;

verus! {

/// The production server, in the canonical form that a parser gives it.
pub const PROD_URL: &'static str = "https://firefox.settings.services.mozilla.com/";

/// The staging server.
pub const STAGE_URL: &'static str = "https://firefox.settings.services.allizom.org/";

/// The development server.
pub const DEV_URL: &'static str = "https://remote-settings-dev.allizom.org/";

/// The serialization of the absolute URL that `raw` parses to, or `None` where
/// `raw` is not an absolute URL.
pub uninterp spec fn parsed_url(raw: Seq<char>) -> Option<Seq<char>>;

/// Relies on `url::Url::parse`, which parses an absolute URL or returns a
/// `ParseError`, and on `From<Url> for String`, which hands back the parsed
/// URL's serialization. The outcome depends on the text alone.
#[verifier::external_body]
fn parse_absolute(raw: &str) -> (r: std::result::Result<String, url::ParseError>)
    ensures
        r is Ok <==> parsed_url(raw@) is Some,
        r matches Ok(t) ==> parsed_url(raw@) == Some(t@),
{
    url::Url::parse(raw).map(String::from)
}

/// An absolute URL in canonical text form, as a resolved server choice gives it.
pub struct AbsoluteUrl {
    text: String,
}

impl View for AbsoluteUrl {
    type V = Seq<char>;

    closed spec fn view(&self) -> Seq<char> {
        self.text@
    }
}

impl AbsoluteUrl {
    /// The URL as text.
    pub fn as_str(&self) -> (r: &str)
        ensures
            r@ == self@,
    {
        self.text.as_str()
    }

    /// The URL as an owned string.
    pub fn into_string(self) -> (r: String)
        ensures
            r@ == self@,
    {
        self.text
    }
}

/// Custom configuration for the client:
/// - `server`: the Remote Settings server to use; where it is not given, the
///   production server (`RemoteSettingsServer::Prod`).
/// - `server_url`: a custom Remote Settings server URL. Deprecated: use
///   `server`. Which of the two wins where both are given is left to the
///   consumer of this configuration.
/// - `bucket_name`: the bucket that holds the collection on the server; where
///   it is not given, the standard bucket.
/// - `collection_name`: the collection to sync.
#[derive(Debug, Clone)]
pub struct RemoteSettingsConfig {
    pub server: Option<RemoteSettingsServer>,
    pub server_url: Option<String>,
    pub bucket_name: Option<String>,
    pub collection_name: String,
}

/// The Remote Settings server that the client should use.
#[derive(Debug, Clone)]
pub enum RemoteSettingsServer {
    Prod,
    Stage,
    Dev,
    Custom { url: String },
}

/// What a resolution yields, with the URL seen as text.
pub open spec fn url_outcome(r: Result<AbsoluteUrl>) -> Result<Seq<char>> {
    match r {
        Ok(u) => Ok(u@),
        Err(e) => Err(e),
    }
}

/// What a resolution to a string yields, with the string seen as text.
pub open spec fn text_outcome(r: Result<String>) -> Result<Seq<char>> {
    match r {
        Ok(t) => Ok(t@),
        Err(e) => Err(e),
    }
}

/// `r` is what resolving `server` yields: its URL where it has one, else an
/// `InvalidUrl` error that carries the custom address as it was given.
pub open spec fn resolves_to(server: RemoteSettingsServer, r: Result<Seq<char>>) -> bool {
    match r {
        Ok(t) => server.resolved() == Some(t),
        Err(e) => {
            &&& server.resolved() is None
            &&& server is Custom
            &&& e.address() == server->Custom_url@
        },
    }
}

impl RemoteSettingsServer {
    /// The canonical URL of the server: a fixed one for the named servers, what
    /// the address parses to for a custom one, `None` where it does not parse.
    pub open spec fn resolved(self) -> Option<Seq<char>> {
        match self {
            RemoteSettingsServer::Prod => Some(PROD_URL@),
            RemoteSettingsServer::Stage => Some(STAGE_URL@),
            RemoteSettingsServer::Dev => Some(DEV_URL@),
            RemoteSettingsServer::Custom { url } => parsed_url(url@),
        }
    }

    /// The absolute URL of the server. The named servers always resolve; a
    /// custom address resolves exactly when it parses as an absolute URL.
    pub fn url(&self) -> (r: Result<AbsoluteUrl>)
        ensures
            resolves_to(*self, url_outcome(r)),
            !(self is Custom) ==> r is Ok,
    {
        match self {
            RemoteSettingsServer::Prod => Ok(AbsoluteUrl { text: PROD_URL.to_owned() }),
            RemoteSettingsServer::Stage => Ok(AbsoluteUrl { text: STAGE_URL.to_owned() }),
            RemoteSettingsServer::Dev => Ok(AbsoluteUrl { text: DEV_URL.to_owned() }),
            RemoteSettingsServer::Custom { url } => match parse_absolute(url.as_str()) {
                Ok(text) => Ok(AbsoluteUrl { text }),
                Err(reason) => Err(Error::InvalidUrl { url: url.clone(), reason }),
            },
        }
    }
}

/// Returns the URL of the Remote Settings server as a string.
pub fn remote_settings_server_url(server: RemoteSettingsServer) -> (r: Result<String>)
    ensures
        resolves_to(server, text_outcome(r)),
        !(server is Custom) ==> r is Ok,
{
    match server.url() {
        Ok(u) => Ok(u.into_string()),
        Err(e) => Err(e),
    }
}

/// A named server always resolves, to its fixed URL, and that URL ends in a
/// slash.
pub proof fn named_servers_resolve(server: RemoteSettingsServer)
    requires
        !(server is Custom),
    ensures
        server.resolved() is Some,
        server.resolved().unwrap().len() > 0,
        server.resolved().unwrap().last() == '/',
        server is Prod ==> server.resolved() == Some(PROD_URL@),
        server is Stage ==> server.resolved() == Some(STAGE_URL@),
        server is Dev ==> server.resolved() == Some(DEV_URL@),
{
    reveal_strlit("https://firefox.settings.services.mozilla.com/");
    reveal_strlit("https://firefox.settings.services.allizom.org/");
    reveal_strlit("https://remote-settings-dev.allizom.org/");
}

/// Resolving the same server twice gives the same outcome: both succeed with
/// the same URL, or both fail on the same address.
pub proof fn resolution_is_deterministic(
    server: RemoteSettingsServer,
    first: Result<Seq<char>>,
    second: Result<Seq<char>>,
)
    requires
        resolves_to(server, first),
        resolves_to(server, second),
    ensures
        first is Ok <==> second is Ok,
        first is Ok && second is Ok ==> first->Ok_0 == second->Ok_0,
        first is Err && second is Err ==> first->Err_0.address() == second->Err_0.address(),
{
}

/// The string form of a server's URL is the text of the URL that the server
/// resolves to, and it fails exactly when the resolution fails.
pub proof fn string_form_agrees(
    server: RemoteSettingsServer,
    resolution: Result<AbsoluteUrl>,
    string_form: Result<String>,
)
    requires
        resolves_to(server, url_outcome(resolution)),
        resolves_to(server, text_outcome(string_form)),
    ensures
        resolution is Ok <==> string_form is Ok,
        resolution is Ok && string_form is Ok ==> resolution->Ok_0@ == string_form->Ok_0@,
{
}

} // verus!
