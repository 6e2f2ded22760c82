use stormchaser::app::{App, AppAction, AppState, AuthExchangeResponse, RunStatus, WorkflowRunDetail, WorkflowRunFullDetail};
use stormchaser::auth::{callback_code, exchange_request, TokenReply};
use stormchaser::dialogs::{ApiBody, BodyValue, HttpMethod, KeyTarget};
use stormchaser::filters::{Key, KeyPress};

fn setup_app(url: &str) -> App {
    App::new(url.to_string(), None)
}

fn key(k: Key) -> KeyPress {
    KeyPress { key: k, shift: false, ctrl: false }
}

#[test]
fn test_refresh_session_success() {
    let mut app = setup_app("http://server");
    app.refresh_token = Some("old_refresh_token".to_string());
    assert_eq!(app.token_expired(), vec![AppAction::RefreshSession]);

    let response = AuthExchangeResponse {
        access_token: "new_access_token".to_string(),
        refresh_token: Some("new_refresh_token".to_string()),
    };
    let acts = app.session_refreshed(TokenReply::Accepted(Some(response)));
    assert_eq!(acts, vec![AppAction::ListenForWorkflows]);
    assert_eq!(app.token, Some("new_access_token".to_string()));
    assert_eq!(app.refresh_token, Some("new_refresh_token".to_string()));
    assert_eq!(app.state, AppState::LoggedIn);
}

#[test]
fn test_refresh_session_failure() {
    let mut app = setup_app("http://server");
    app.refresh_token = Some("old_refresh_token".to_string());
    let acts = app.session_refreshed(TokenReply::Refused("401 Unauthorized".to_string()));
    assert!(acts.is_empty());
    assert_eq!(app.token, None);
    assert_eq!(app.refresh_token, None);
    assert_eq!(app.state, AppState::LoggedOut);
}

#[test]
fn test_handle_oauth_callback_success() {
    let request = "GET /callback?code=mock_auth_code HTTP/1.1\r\nHost: localhost\r\n\r\n";
    let code = callback_code(request).expect("a code");
    assert_eq!(code, "mock_auth_code");
    let call = exchange_request(code);
    assert_eq!(call.method, HttpMethod::Post);
    assert_eq!(call.path, "/api/v1/auth/exchange");
    match &call.body {
        ApiBody::Fields(f) => {
            assert_eq!(f[0].0, "sso_token");
            assert!(matches!(&f[0].1, BodyValue::Text(t) if t == "mock_auth_code"));
            assert!(matches!(&f[1].1, BodyValue::Text(t) if t == "http://localhost:8080/callback"));
        }
        _ => panic!("expected an object body"),
    }

    let mut app = setup_app("http://server");
    let response = AuthExchangeResponse { access_token: "access".to_string(), refresh_token: Some("refresh".to_string()) };
    let acts = app.login_exchanged(TokenReply::Accepted(Some(response)));
    assert_eq!(app.token, Some("access".to_string()));
    assert_eq!(app.refresh_token, Some("refresh".to_string()));
    assert_eq!(app.state, AppState::LoggedIn);
    assert_eq!(acts.len(), 6);
    assert_eq!(acts[0], AppAction::ListenForWorkflows);
}

#[test]
fn callback_code_edge_cases() {
    assert_eq!(callback_code(""), None);
    assert_eq!(callback_code("GET"), None);
    assert_eq!(callback_code("GET /callback HTTP/1.1"), None);
    assert_eq!(callback_code("GET /callback?state=1 HTTP/1.1"), None);
    assert_eq!(callback_code("  GET   /cb?code=a%20b&x=1&code=last HTTP/1.1").as_deref(), Some("last"));
    assert_eq!(callback_code("GET /cb?code=a+b?code=ignored").as_deref(), Some("a b"));
}

#[test]
fn login_messages() {
    let mut app = setup_app("http://server");
    app.login_exchanged(TokenReply::RequestFailed("connection refused".to_string()));
    assert_eq!(app.error.as_deref(), Some("Request failed: connection refused"));
    assert_eq!(app.state, AppState::LoggedOut);
    app.login_exchanged(TokenReply::Refused("403 Forbidden".to_string()));
    assert_eq!(app.error.as_deref(), Some("Token exchange failed: 403 Forbidden"));
    app.login_exchanged(TokenReply::Accepted(None));
    assert_eq!(app.error.as_deref(), Some("Failed to parse token response"));
    app.login_failed("No authorization code received from provider".to_string());
    assert_eq!(app.error.as_deref(), Some("No authorization code received from provider"));
}

#[test]
fn begin_login_url() {
    let mut app = setup_app("http://server:3000");
    app.error = Some("old".to_string());
    let url = app.begin_login();
    assert_eq!(url, "http://server:3000/api/v1/auth/login?callback_url=http%3A%2F%2Flocalhost%3A8080%2Fcallback");
    assert_eq!(app.state, AppState::LoggingIn);
    assert_eq!(app.error, None);
}

#[test]
fn token_expiry_without_refresh_token_logs_out() {
    let mut app = App::new("http://server".to_string(), Some("t".to_string()));
    app.state = AppState::LoggedIn;
    assert!(app.token_expired().is_empty());
    assert_eq!(app.token, None);
    assert_eq!(app.state, AppState::LoggedOut);
}

#[test]
fn refresh_keeps_old_refresh_token_and_rewatches_shown_run() {
    let mut app = setup_app("http://server");
    app.refresh_token = Some("keep".to_string());
    app.selected_run = Some(WorkflowRunFullDetail {
        detail: WorkflowRunDetail {
            id: 9,
            workflow_name: "wf".to_string(),
            initiating_user: "u".to_string(),
            status: RunStatus::Running,
            created_at_ms: 0,
            finished_at_ms: None,
        },
        steps: vec![],
        attachments_json: "[]".to_string(),
    });
    let acts = app.session_refreshed(TokenReply::Accepted(Some(AuthExchangeResponse {
        access_token: "a".to_string(),
        refresh_token: None,
    })));
    assert_eq!(acts, vec![AppAction::ListenForWorkflows, AppAction::StartWatching { id: 9 }]);
    assert_eq!(app.refresh_token.as_deref(), Some("keep"));
    // A request that never reached the server logs out but keeps the tokens.
    app.session_refreshed(TokenReply::RequestFailed("timeout".to_string()));
    assert_eq!(app.state, AppState::LoggedOut);
    assert_eq!(app.token.as_deref(), Some("a"));
}

#[test]
fn keys_are_routed_by_state_and_dialog() {
    let mut app = setup_app("http://server");
    assert_eq!(app.route_key(key(Key::Enter)), KeyTarget::StartLogin);
    assert_eq!(app.route_key(key(Key::Char('q'))), KeyTarget::Quit);
    assert_eq!(app.route_key(key(Key::Char('j'))), KeyTarget::Ignore);
    app.state = AppState::LoggingIn;
    assert_eq!(app.route_key(key(Key::Enter)), KeyTarget::Ignore);
    app.state = AppState::LoggedIn;
    assert_eq!(app.route_key(key(Key::Enter)), KeyTarget::Main);
    app.file_browser_active = true;
    assert_eq!(app.route_key(key(Key::Enter)), KeyTarget::FileBrowser);
    app.cron_dialog.active = true;
    assert_eq!(app.route_key(key(Key::Enter)), KeyTarget::CronDialog);
    app.filter_dialog_active = true;
    assert_eq!(app.route_key(key(Key::Enter)), KeyTarget::FilterDialog);
}
