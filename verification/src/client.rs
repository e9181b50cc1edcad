//! The calendar provider, seen from this side of the network: which request
//! asks for today's events, what its answer means, and how an access token
//! is renewed. Sending the requests is the caller's part.

use crate::calendar::{resolve, resolved, CalendarInfo, CalendarItem};
use crate::moment::Moment;
use vstd::prelude::*;
use vstd::string::StringExecFns;

verus! {

/// Where the events of the primary calendar are asked for.
pub const EVENTS_URL: &'static str =
    "https://www.googleapis.com/calendar/v3/calendars/primary/events";

/// Where an access token is renewed.
pub const TOKEN_URL: &'static str = "https://oauth2.googleapis.com/token";

/// The HTTP status by which the provider refuses an access token.
pub const HTTP_UNAUTHORIZED: u16 = 401;

/// Why the calendar could not be read.
#[derive(Clone, Copy, Debug, PartialEq, Eq, Structural)]
pub enum FetchError {
    /// The provider refused the access token; renewing it may help.
    Unauthorized,
    /// The request did not get through.
    Network,
    /// The answer was not a list of events.
    Malformed,
}

/// Why the access token could not be renewed.
#[derive(Clone, Copy, Debug, PartialEq, Eq, Structural)]
pub enum RefreshError {
    /// The credentials hold no refresh token.
    NoRefreshToken,
    /// The provider answered with this status, which is not a success.
    Rejected(u16),
    /// The answer was not JSON.
    Malformed,
    /// The answer holds no access token.
    NoAccessToken,
}

/// What the provider knows the owner by.
#[derive(Clone, Debug, PartialEq, Eq)]
pub struct OAuthCredentials {
    pub token: String,
    pub refresh_token: Option<String>,
    pub token_uri: String,
    pub client_id: String,
    pub client_secret: String,
    pub scopes: Vec<String>,
    pub expiry: Option<String>,
}

/// The list of events in the body of the provider's answer.
#[derive(Clone, Debug, PartialEq, Eq)]
pub struct CalendarResponse {
    pub items: Vec<CalendarItem>,
}

/// The provider's answer to a request for events.
#[derive(Clone, Debug, PartialEq, Eq)]
pub struct HttpAnswer {
    pub status: u16,
    /// The list of events that the body held, if it held one.
    pub body: Option<CalendarResponse>,
}

/// The client's side of the conversation with the calendar provider.
#[derive(Clone, Debug, PartialEq, Eq)]
pub struct CalendarClient {
    pub creds: OAuthCredentials,
}

/// The text that the JSON document `body` holds under `key`, as the
/// `serde_json` crate reads it: `None` where `body` is no JSON document, and
/// `Some(None)` where the document is no object, has no member `key`, or has
/// one that is no string.
pub uninterp spec fn json_member_text(body: Seq<u8>, key: Seq<char>) -> Option<Option<Seq<char>>>;

/// What was found under a key, as plain text.
pub open spec fn text_found(found: Option<Option<String>>) -> Option<Option<Seq<char>>> {
    match found {
        None => None,
        Some(None) => Some(None),
        Some(Some(text)) => Some(Some(text@)),
    }
}

/// Reads `body` with `serde_json::from_slice` as a `serde_json::Value`, looks
/// `key` up by indexing, and takes the member's text with `Value::as_str`.
///
/// Trusted: the result is the one that [`json_member_text`] names, that is,
/// it depends on the bytes of `body` and the characters of `key` alone.
#[verifier::external_body]
fn member_text(body: &[u8], key: &str) -> (found: Option<Option<String>>)
    ensures
        text_found(found) == json_member_text(body@, key@),
{
    match serde_json::from_slice::<serde_json::Value>(body) {
        Ok(document) => match document[key].as_str() {
            Some(text) => Some(Some(text.to_string())),
            None => Some(None),
        },
        Err(_) => None,
    }
}

/// Names and values, as plain text.
pub open spec fn pairs_text(pairs: Seq<(String, String)>) -> Seq<(Seq<char>, Seq<char>)> {
    pairs.map_values(|pair: (String, String)| (pair.0@, pair.1@))
}

fn pair(name: &str, value: &str) -> (pair: (String, String))
    ensures
        pair.0@ == name@,
        pair.1@ == value@,
{
    (String::from_str(name), String::from_str(value))
}

/// Whether an HTTP status reports success.
pub open spec fn is_success(http_status: u16) -> bool {
    200 <= http_status < 300
}

/// What a renewal comes to: the new access token, or why there is none.
/// `found` is what the provider's answer held under `access_token`. Nothing
/// is accepted by credentials that hold no refresh token to have asked with,
/// nothing from an answer that is no success, and then only a text.
pub open spec fn renewal(
    creds: OAuthCredentials,
    http_status: u16,
    found: Option<Option<Seq<char>>>,
) -> Result<Seq<char>, RefreshError> {
    if creds.refresh_token is None {
        Err(RefreshError::NoRefreshToken)
    } else if !is_success(http_status) {
        Err(RefreshError::Rejected(http_status))
    } else {
        match found {
            None => Err(RefreshError::Malformed),
            Some(None) => Err(RefreshError::NoAccessToken),
            Some(Some(token)) => Ok(token),
        }
    }
}

/// Whether `done` and the credentials `after` are what `outcome` asks for:
/// a token replaces the access token and nothing else, and an error leaves
/// the credentials as they were `before`.
pub open spec fn renewal_done(
    before: OAuthCredentials,
    after: OAuthCredentials,
    done: Result<(), RefreshError>,
    outcome: Result<Seq<char>, RefreshError>,
) -> bool {
    match outcome {
        Ok(token) => done is Ok && renewed(before, after, token),
        Err(error) => done == Err::<(), RefreshError>(error) && after == before,
    }
}

/// The credentials after a renewal that gave `token`.
pub open spec fn renewed(creds: OAuthCredentials, fresh: OAuthCredentials, token: Seq<char>) -> bool {
    &&& fresh.token@ == token
    &&& fresh.refresh_token == creds.refresh_token
    &&& fresh.token_uri == creds.token_uri
    &&& fresh.client_id == creds.client_id
    &&& fresh.client_secret == creds.client_secret
    &&& fresh.scopes == creds.scopes
    &&& fresh.expiry == creds.expiry
}

impl FetchError {
    pub fn message(&self) -> (text: String)
        ensures
            text@ == match *self {
                FetchError::Unauthorized => "Unauthorized"@,
                FetchError::Network => "Network error"@,
                FetchError::Malformed => "Malformed response"@,
            },
    {
        match self {
            FetchError::Unauthorized => String::from_str("Unauthorized"),
            FetchError::Network => String::from_str("Network error"),
            FetchError::Malformed => String::from_str("Malformed response"),
        }
    }
}

impl CalendarClient {
    pub fn new(creds: OAuthCredentials) -> (client: CalendarClient)
        ensures
            client.creds == creds,
    {
        CalendarClient { creds }
    }

    /// The token to present with a request for events.
    pub fn bearer_token(&self) -> (token: &str)
        ensures
            token@ == self.creds.token@,
    {
        self.creds.token.as_str()
    }

    /// The query that asks for the events between `time_min` and `time_max`
    /// of the primary calendar, recurring events written out one by one, in
    /// the order of their start.
    pub fn events_query(time_min: &str, time_max: &str) -> (query: Vec<(String, String)>)
        ensures
            pairs_text(query@) == seq![
                ("calendarId"@, "primary"@),
                ("singleEvents"@, "true"@),
                ("orderBy"@, "startTime"@),
                ("timeMin"@, time_min@),
                ("timeMax"@, time_max@),
            ],
    {
        let mut query: Vec<(String, String)> = Vec::new();
        query.push(pair("calendarId", "primary"));
        query.push(pair("singleEvents", "true"));
        query.push(pair("orderBy", "startTime"));
        query.push(pair("timeMin", time_min));
        query.push(pair("timeMax", time_max));
        assert(pairs_text(query@) =~= seq![
            ("calendarId"@, "primary"@),
            ("singleEvents"@, "true"@),
            ("orderBy"@, "startTime"@),
            ("timeMin"@, time_min@),
            ("timeMax"@, time_max@),
        ]);
        query
    }

    /// Reads what came back for a request for events. No answer at all is a
    /// network failure. A refused token is reported as such, whatever the
    /// body; a body that is no list of events is malformed; otherwise the
    /// events come down to one status.
    pub fn fetch_current_status(&self, answer: Option<HttpAnswer>, now: &Moment) -> (status: Result<
        CalendarInfo,
        FetchError,
    >)
        ensures
            match answer {
                None => status == Err::<CalendarInfo, FetchError>(FetchError::Network),
                Some(answer) => if answer.status == HTTP_UNAUTHORIZED {
                    status == Err::<CalendarInfo, FetchError>(FetchError::Unauthorized)
                } else {
                    match answer.body {
                        None => status == Err::<CalendarInfo, FetchError>(FetchError::Malformed),
                        Some(response) => status matches Ok(info) && info@ == resolved(
                            response.items@,
                            *now,
                        ),
                    }
                },
            },
    {
        let answer = match answer {
            Some(answer) => answer,
            None => return Err(FetchError::Network),
        };
        if answer.status == HTTP_UNAUTHORIZED {
            return Err(FetchError::Unauthorized);
        }
        match answer.body {
            Some(response) => Ok(resolve(&response.items, now)),
            None => Err(FetchError::Malformed),
        }
    }

    /// The form that asks for a new access token, or
    /// [`RefreshError::NoRefreshToken`] where the credentials hold no refresh
    /// token to ask with.
    pub fn refresh_form(&self) -> (form: Result<Vec<(String, String)>, RefreshError>)
        ensures
            self.creds.refresh_token is None ==> form == Err::<Vec<(String, String)>, RefreshError>(
                RefreshError::NoRefreshToken,
            ),
            self.creds.refresh_token matches Some(refresh) ==> (form matches Ok(pairs)
                && pairs_text(pairs@) == seq![
                ("client_id"@, self.creds.client_id@),
                ("client_secret"@, self.creds.client_secret@),
                ("refresh_token"@, refresh@),
                ("grant_type"@, "refresh_token"@),
            ]),
    {
        let refresh = match &self.creds.refresh_token {
            Some(refresh) => refresh,
            None => return Err(RefreshError::NoRefreshToken),
        };
        let mut pairs: Vec<(String, String)> = Vec::new();
        pairs.push(pair("client_id", self.creds.client_id.as_str()));
        pairs.push(pair("client_secret", self.creds.client_secret.as_str()));
        pairs.push(pair("refresh_token", refresh.as_str()));
        pairs.push(pair("grant_type", "refresh_token"));
        assert(pairs_text(pairs@) =~= seq![
            ("client_id"@, self.creds.client_id@),
            ("client_secret"@, self.creds.client_secret@),
            ("refresh_token"@, refresh@),
            ("grant_type"@, "refresh_token"@),
        ]);
        Ok(pairs)
    }

    /// Takes in the answer to a renewal: its HTTP status and `found`, what
    /// its body held under `access_token`. See [`renewal`] for what is
    /// accepted.
    pub fn accept_token(&mut self, http_status: u16, found: Option<Option<String>>) -> (done:
        Result<(), RefreshError>)
        ensures
            renewal_done(
                old(self).creds,
                final(self).creds,
                done,
                renewal(old(self).creds, http_status, text_found(found)),
            ),
    {
        match &self.creds.refresh_token {
            Some(_) => {},
            None => return Err(RefreshError::NoRefreshToken),
        }
        if http_status < 200 || http_status >= 300 {
            return Err(RefreshError::Rejected(http_status));
        }
        match found {
            None => Err(RefreshError::Malformed),
            Some(None) => Err(RefreshError::NoAccessToken),
            Some(Some(token)) => {
                self.creds.token = token;
                Ok(())
            },
        }
    }

    /// Reads the provider's answer to a renewal: its HTTP status and its
    /// body. Only credentials that hold a refresh token are renewed, and
    /// only by a success whose body is a JSON object with a text under
    /// `access_token`; then the access token changes and nothing else.
    pub fn refresh_token(&mut self, http_status: u16, body: &[u8]) -> (done: Result<
        (),
        RefreshError,
    >)
        ensures
            renewal_done(
                old(self).creds,
                final(self).creds,
                done,
                renewal(
                    old(self).creds,
                    http_status,
                    json_member_text(body@, "access_token"@),
                ),
            ),
    {
        let found = member_text(body, "access_token");
        self.accept_token(http_status, found)
    }
}

} // verus!
