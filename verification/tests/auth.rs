use opencli_rs::auth::{
    auth_resume, auth_start, verify_request, AuthAction, AuthEvent, AuthNext, AuthProgress,
    AuthStage,
};
use opencli_rs::json::Json;
use opencli_rs::language::Language;
use opencli_rs::report::Line;
use opencli_rs::server::ServerRequest;

const EN: Language = Language::English;

fn text(s: &str) -> Json {
    Json::String(s.to_string())
}

fn object(entries: Vec<(&str, Json)>) -> Json {
    Json::Object(entries.into_iter().map(|(k, v)| (k.to_string(), v)).collect())
}

fn notes(texts: Vec<&str>) -> Vec<Line> {
    texts.into_iter().map(|t| Line::Note(t.to_string())).collect()
}

fn prompt(texts: Vec<&str>) -> AuthProgress {
    AuthProgress {
        lines: notes(texts),
        next: AuthNext::Ask(
            AuthStage::Entering,
            AuthAction::Prompt("Enter your token:".to_string()),
        ),
    }
}

fn end(texts: Vec<&str>, code: i32) -> AuthProgress {
    AuthProgress { lines: notes(texts), next: AuthNext::End(code) }
}

fn verifying() -> AuthStage {
    AuthStage::Verifying("tok".to_string())
}

#[test]
fn authentication_begins_with_the_address() {
    assert_eq!(
        auth_start(EN),
        prompt(vec![
            "🔑 Get your token from the browser:",
            "   https://autocli.ai/get-token",
            "",
        ])
    );
}

#[test]
fn entered_tokens_are_trimmed_and_checked() {
    assert_eq!(
        auth_resume(EN, AuthStage::Entering, AuthEvent::Entered(" tok\n".to_string())),
        AuthProgress {
            lines: notes(vec!["🔍 Verifying token..."]),
            next: AuthNext::Ask(verifying(), AuthAction::Verify("tok".to_string())),
        }
    );
    assert_eq!(
        auth_resume(EN, AuthStage::Entering, AuthEvent::Entered(" \u{3000}\t".to_string())),
        prompt(vec!["❌ Token cannot be empty"])
    );
}

#[test]
fn checks_send_the_token() {
    assert_eq!(
        verify_request("ua", "tok"),
        ServerRequest {
            url: "https://autocli.ai/api/auth/tokens/verify".to_string(),
            authorization: None,
            content_type: Some("application/json".to_string()),
            user_agent: "ua".to_string(),
            body: Some(object(vec![("token", text("tok"))])),
            timeout_seconds: 10,
        }
    );
}

#[test]
fn valid_tokens_are_saved() {
    let reply = object(vec![("status", text("valid"))]);
    assert_eq!(
        auth_resume(EN, verifying(), AuthEvent::Answer(reply)),
        AuthProgress {
            lines: vec![],
            next: AuthNext::Ask(AuthStage::Saving, AuthAction::Save("tok".to_string())),
        }
    );
    assert_eq!(
        auth_resume(EN, AuthStage::Saving, AuthEvent::Saved("/home/a/config.json".to_string())),
        end(vec!["✅ Token saved to /home/a/config.json"], 0)
    );
    assert_eq!(
        auth_resume(EN, AuthStage::Saving, AuthEvent::NotSaved("denied".to_string())),
        end(vec!["❌ Failed to save token: denied"], 1)
    );
}

#[test]
fn other_tokens_can_be_entered_again() {
    let replies = vec![
        Json::Null,
        object(vec![("status", text("invalid"))]),
        object(vec![("status", Json::Bool(true))]),
    ];
    for reply in replies {
        assert_eq!(
            auth_resume(EN, verifying(), AuthEvent::Answer(reply)),
            prompt(vec!["❌ Invalid token, please try again"])
        );
    }
    assert_eq!(
        auth_resume(EN, verifying(), AuthEvent::Unreachable),
        prompt(vec![
            "❌ Cannot connect to verification server, please check your network and try again",
        ])
    );
}

#[test]
fn users_can_give_up() {
    assert_eq!(
        auth_resume(EN, AuthStage::Entering, AuthEvent::Cancelled),
        end(vec!["Cancelled"], 0)
    );
    assert_eq!(
        auth_resume(Language::Chinese, AuthStage::Entering, AuthEvent::Cancelled),
        end(vec!["已取消"], 0)
    );
}
