use doorsign::calendar::{CalendarDate, CalendarInfo, CalendarItem, Status};
use doorsign::client::{
    CalendarClient, CalendarResponse, FetchError, HttpAnswer, OAuthCredentials, RefreshError,
    EVENTS_URL, HTTP_UNAUTHORIZED, TOKEN_URL,
};
use doorsign::moment::Moment;

fn creds(refresh_token: Option<&str>) -> OAuthCredentials {
    OAuthCredentials {
        token: "old-token".to_string(),
        refresh_token: refresh_token.map(|t| t.to_string()),
        token_uri: "https://oauth2.googleapis.com/token".to_string(),
        client_id: "client".to_string(),
        client_secret: "hush".to_string(),
        scopes: vec!["calendar.readonly".to_string()],
        expiry: Some("2024-05-01T10:00:00Z".to_string()),
    }
}

fn pairs(list: &[(&str, &str)]) -> Vec<(String, String)> {
    list.iter().map(|(name, value)| (name.to_string(), value.to_string())).collect()
}

fn standup() -> CalendarItem {
    CalendarItem {
        start: Some(CalendarDate { date: None, date_time: Some(Moment::new(1_714_554_000, 0, 0)) }),
        end: Some(CalendarDate { date: None, date_time: Some(Moment::new(1_714_555_800, 0, 0)) }),
        summary: "Standup".to_string(),
        event_type: Some("default".to_string()),
    }
}

#[test]
fn addresses_of_the_provider() {
    assert_eq!(EVENTS_URL, "https://www.googleapis.com/calendar/v3/calendars/primary/events");
    assert_eq!(TOKEN_URL, "https://oauth2.googleapis.com/token");
    assert_eq!(HTTP_UNAUTHORIZED, 401);
}

#[test]
fn query_asks_for_one_day_in_order() {
    let query = CalendarClient::events_query("2024-05-01T00:00:00+02:00", "2024-05-01T23:59:59+02:00");
    assert_eq!(
        query,
        pairs(&[
            ("calendarId", "primary"),
            ("singleEvents", "true"),
            ("orderBy", "startTime"),
            ("timeMin", "2024-05-01T00:00:00+02:00"),
            ("timeMax", "2024-05-01T23:59:59+02:00"),
        ])
    );
}

#[test]
fn bearer_token_is_the_access_token() {
    let client = CalendarClient::new(creds(None));
    assert_eq!(client.bearer_token(), "old-token");
    assert_eq!(client.creds, creds(None));
}

fn answer(status: u16, items: Option<Vec<CalendarItem>>) -> Option<HttpAnswer> {
    Some(HttpAnswer { status, body: items.map(|items| CalendarResponse { items }) })
}

#[test]
fn no_answer_is_a_network_failure() {
    let client = CalendarClient::new(creds(None));
    let now = Moment::new(1_714_555_200, 0, 0);
    assert_eq!(client.fetch_current_status(None, &now), Err(FetchError::Network));
}

#[test]
fn refused_token_is_unauthorized_whatever_the_body() {
    let client = CalendarClient::new(creds(None));
    let now = Moment::new(1_714_555_200, 0, 0);
    assert_eq!(client.fetch_current_status(answer(401, None), &now), Err(FetchError::Unauthorized));
    assert_eq!(
        client.fetch_current_status(answer(401, Some(vec![standup()])), &now),
        Err(FetchError::Unauthorized)
    );
}

#[test]
fn unreadable_body_is_malformed() {
    let client = CalendarClient::new(creds(None));
    let now = Moment::new(1_714_555_200, 0, 0);
    for status in [200, 403, 500] {
        assert_eq!(client.fetch_current_status(answer(status, None), &now), Err(FetchError::Malformed));
    }
}

#[test]
fn events_are_resolved() {
    let client = CalendarClient::new(creds(None));
    let now = Moment::new(1_714_555_200, 0, 0);
    assert_eq!(
        client.fetch_current_status(answer(200, Some(vec![standup()])), &now),
        Ok(CalendarInfo {
            status: Status::Busy,
            start_time: [9, 0],
            duration: 6,
            label: "Standup".to_string(),
        })
    );
    assert_eq!(
        client.fetch_current_status(answer(200, Some(vec![])), &now),
        Ok(CalendarInfo::default_free())
    );
}

#[test]
fn error_messages() {
    assert_eq!(FetchError::Unauthorized.message(), "Unauthorized");
    assert_eq!(FetchError::Network.message(), "Network error");
    assert_eq!(FetchError::Malformed.message(), "Malformed response");
}

#[test]
fn refresh_form_needs_a_refresh_token() {
    let client = CalendarClient::new(creds(None));
    assert_eq!(client.refresh_form(), Err(RefreshError::NoRefreshToken));
    let client = CalendarClient::new(creds(Some("again")));
    assert_eq!(
        client.refresh_form(),
        Ok(pairs(&[
            ("client_id", "client"),
            ("client_secret", "hush"),
            ("refresh_token", "again"),
            ("grant_type", "refresh_token"),
        ]))
    );
}

#[test]
fn renewal_replaces_only_the_access_token() {
    let mut client = CalendarClient::new(creds(Some("again")));
    let body = b"{\"access_token\":\"new-token\",\"expires_in\":3599,\"token_type\":\"Bearer\"}";
    assert_eq!(client.refresh_token(200, body), Ok(()));
    let expected = OAuthCredentials { token: "new-token".to_string(), ..creds(Some("again")) };
    assert_eq!(client.creds, expected);
    assert_eq!(client.bearer_token(), "new-token");
}

#[test]
fn renewal_reads_escapes_in_the_token() {
    let mut client = CalendarClient::new(creds(Some("again")));
    let body = b" { \"access_token\" : \"a\\\"b\\u0041\" } ";
    assert_eq!(client.refresh_token(299, body), Ok(()));
    assert_eq!(client.bearer_token(), "a\"bA");
}

#[test]
fn rejected_renewal_changes_nothing() {
    for status in [199, 300, 400, 401, 500] {
        let mut client = CalendarClient::new(creds(Some("again")));
        let body = b"{\"access_token\":\"new-token\"}";
        assert_eq!(client.refresh_token(status, body), Err(RefreshError::Rejected(status)));
        assert_eq!(client.creds, creds(Some("again")));
    }
}

#[test]
fn renewal_without_json_is_malformed() {
    for body in [&b""[..], b"access_token=new", b"{\"access_token\":", b"{} trailing"] {
        let mut client = CalendarClient::new(creds(Some("again")));
        assert_eq!(client.refresh_token(200, body), Err(RefreshError::Malformed));
        assert_eq!(client.creds, creds(Some("again")));
    }
}

#[test]
fn renewal_without_a_token_is_reported() {
    let bodies: [&[u8]; 6] = [
        b"{}",
        b"{\"error\":\"invalid_grant\"}",
        b"{\"access_token\":null}",
        b"{\"access_token\":42}",
        b"[\"access_token\"]",
        b"\"access_token\"",
    ];
    for body in bodies {
        let mut client = CalendarClient::new(creds(Some("again")));
        assert_eq!(client.refresh_token(200, body), Err(RefreshError::NoAccessToken));
        assert_eq!(client.creds, creds(Some("again")));
    }
}

#[test]
fn accept_token_for_each_finding() {
    let mut client = CalendarClient::new(creds(Some("again")));
    assert_eq!(client.accept_token(200, None), Err(RefreshError::Malformed));
    assert_eq!(client.accept_token(200, Some(None)), Err(RefreshError::NoAccessToken));
    assert_eq!(
        client.accept_token(404, Some(Some("fresh".to_string()))),
        Err(RefreshError::Rejected(404))
    );
    assert_eq!(client.creds, creds(Some("again")));
    assert_eq!(client.accept_token(200, Some(Some("fresh".to_string()))), Ok(()));
    assert_eq!(
        client.creds,
        OAuthCredentials { token: "fresh".to_string(), ..creds(Some("again")) }
    );
}

#[test]
fn credentials_without_a_refresh_token_are_never_renewed() {
    let body = b"{\"access_token\":\"new-token\"}";
    for status in [200, 204, 401, 500] {
        let mut client = CalendarClient::new(creds(None));
        assert_eq!(client.refresh_token(status, body), Err(RefreshError::NoRefreshToken));
        assert_eq!(client.refresh_token(status, b"not json"), Err(RefreshError::NoRefreshToken));
        assert_eq!(
            client.accept_token(status, Some(Some("fresh".to_string()))),
            Err(RefreshError::NoRefreshToken)
        );
        assert_eq!(client.accept_token(status, None), Err(RefreshError::NoRefreshToken));
        assert_eq!(client.creds, creds(None));
        assert_eq!(client.bearer_token(), "old-token");
    }
}
