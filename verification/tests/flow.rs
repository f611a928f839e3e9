use opencli_rs::adapters::AdapterMatch;
use opencli_rs::flow::{
    upload_event, Effect, Flow, FlowAction, FlowEvent, FlowNext, FlowProgress, FlowStage, Purpose,
};
use opencli_rs::http::CallStage;
use opencli_rs::language::Language;
use opencli_rs::report::Line;
use opencli_rs::server::UploadProgress;

fn flow(purpose: Purpose) -> Flow {
    Flow { language: Language::English, purpose, goal: None }
}

fn adapter(site: &str, command: &str, uuid: &str) -> AdapterMatch {
    AdapterMatch {
        match_type: "exact".to_string(),
        site_name: site.to_string(),
        cmd_name: command.to_string(),
        description: String::new(),
        author: String::new(),
        command_uuid: uuid.to_string(),
    }
}

fn found() -> Vec<AdapterMatch> {
    vec![adapter("news", "hot", "u1"), adapter("blog", "new", "u2")]
}

fn say(text: &str) -> Effect {
    Effect::Say(Line::Note(text.to_string()))
}

fn end(effects: Vec<Effect>, code: i32) -> FlowProgress {
    FlowProgress { effects, next: FlowNext::End(code) }
}

fn ask(effects: Vec<Effect>, stage: FlowStage, action: FlowAction) -> FlowProgress {
    FlowProgress { effects, next: FlowNext::Ask(stage, action) }
}

fn generate(effects: Vec<Effect>, goal: &str) -> FlowProgress {
    ask(effects, FlowStage::Generating, FlowAction::Generate { goal: goal.to_string() })
}

fn fetching() -> FlowStage {
    FlowStage::Fetching { site: "news".to_string(), name: "hot".to_string() }
}

fn token() -> Option<String> {
    Some("tok".to_string())
}

#[test]
fn searches_complete_the_address() {
    assert_eq!(
        flow(Purpose::Search).start("example.com", token()),
        ask(
            vec![],
            FlowStage::Searching,
            FlowAction::Search { url: "https://example.com".to_string() }
        )
    );
    assert_eq!(
        flow(Purpose::GenerateByAi).start("example.com", token()),
        ask(vec![], FlowStage::Searching, FlowAction::Search { url: "example.com".to_string() })
    );
}

#[test]
fn rules_need_no_token() {
    assert_eq!(flow(Purpose::GenerateByRules).start("x", None), generate(vec![], ""));
    let named = Flow { goal: Some("top".to_string()), ..flow(Purpose::GenerateByRules) };
    assert_eq!(named.start("x", None), generate(vec![], "top"));
}

#[test]
fn servers_need_a_token() {
    let missing = || {
        end(
            vec![
                say("❌ Not authenticated. Please login to get your token"),
                say("   https://autocli.ai/get-token"),
                say(""),
                say("   After getting your token, run: opencli-rs auth"),
            ],
            1,
        )
    };
    assert_eq!(flow(Purpose::Search).start("x", None), missing());
    assert_eq!(flow(Purpose::GenerateByAi).start("x", Some(String::new())), missing());
}

#[test]
fn found_adapters_are_offered() {
    let labels = || vec!["[exact]   news hot".to_string(), "[exact]   blog new".to_string()];
    assert_eq!(
        flow(Purpose::Search).resume(FlowStage::Searching, FlowEvent::Found(Ok(found()))),
        ask(
            vec![],
            FlowStage::Choosing(found()),
            FlowAction::Select {
                prompt: "Adapters found, please select:".to_string(),
                options: labels(),
            }
        )
    );
    let mut options = labels();
    options.push("🔄 Regenerate (using AI)".to_string());
    assert_eq!(
        flow(Purpose::GenerateByAi).resume(FlowStage::Searching, FlowEvent::Found(Ok(found()))),
        ask(
            vec![],
            FlowStage::Choosing(found()),
            FlowAction::Select {
                prompt: "Existing adapters found, please select:".to_string(),
                options,
            }
        )
    );
}

#[test]
fn nothing_found_ends_a_search_and_starts_a_generation() {
    assert_eq!(
        flow(Purpose::Search).resume(FlowStage::Searching, FlowEvent::Found(Ok(vec![]))),
        end(vec![say("📭 No matching adapters found")], 0)
    );
    assert_eq!(
        flow(Purpose::GenerateByAi).resume(FlowStage::Searching, FlowEvent::Found(Ok(vec![]))),
        generate(vec![say("📭 No existing adapter found, starting AI generation...")], "hot")
    );
}

#[test]
fn failed_searches_end_with_an_error() {
    let event = || FlowEvent::Found(Err("❌ Server error".to_string()));
    assert_eq!(
        flow(Purpose::Search).resume(FlowStage::Searching, event()),
        end(vec![say("❌ Server error")], 1)
    );
    assert_eq!(
        flow(Purpose::GenerateByAi).resume(FlowStage::Searching, event()),
        end(vec![say("❌ Server error"), Effect::ClosePage], 1)
    );
}

#[test]
fn chosen_adapters_are_fetched() {
    for purpose in vec![Purpose::Search, Purpose::GenerateByAi] {
        assert_eq!(
            flow(purpose).resume(
                FlowStage::Choosing(found()),
                FlowEvent::Chosen("[exact]   blog new".to_string())
            ),
            ask(
                vec![say("📥 Downloading config...")],
                FlowStage::Fetching { site: "blog".to_string(), name: "new".to_string() },
                FlowAction::Fetch { uuid: "u2".to_string() }
            )
        );
    }
}

#[test]
fn regeneration_can_be_chosen() {
    let chosen = || FlowEvent::Chosen("🔄 Regenerate (using AI)".to_string());
    assert_eq!(
        flow(Purpose::GenerateByAi).resume(FlowStage::Choosing(found()), chosen()),
        generate(vec![], "hot")
    );
    assert_eq!(
        flow(Purpose::Search).resume(FlowStage::Choosing(found()), chosen()),
        end(vec![], 0)
    );
}

#[test]
fn lines_that_name_nothing_lead_to_a_generation() {
    let chosen = || FlowEvent::Chosen("neither".to_string());
    assert_eq!(
        flow(Purpose::GenerateByAi).resume(FlowStage::Choosing(found()), chosen()),
        generate(vec![], "hot")
    );
    assert_eq!(
        flow(Purpose::Search).resume(FlowStage::Choosing(found()), chosen()),
        end(vec![], 0)
    );
}

#[test]
fn users_can_cancel() {
    assert_eq!(
        flow(Purpose::Search).resume(FlowStage::Choosing(found()), FlowEvent::Cancelled),
        end(vec![say("Cancelled")], 0)
    );
    let zh = Flow { language: Language::Chinese, ..flow(Purpose::GenerateByAi) };
    assert_eq!(
        zh.resume(FlowStage::Choosing(found()), FlowEvent::Cancelled),
        end(vec![say("已取消"), Effect::ClosePage], 0)
    );
}

#[test]
fn fetched_adapters_are_saved_under_their_own_names() {
    let save = |site: &str, name: &str, yaml: &str| Effect::Save {
        site: site.to_string(),
        name: name.to_string(),
        yaml: yaml.to_string(),
    };
    let yaml = "site: \"own\"\nname: best\n";
    assert_eq!(
        flow(Purpose::Search).resume(fetching(), FlowEvent::Config(Ok(yaml.to_string()))),
        end(vec![save("own", "best", yaml)], 0)
    );
    assert_eq!(
        flow(Purpose::GenerateByAi).resume(fetching(), FlowEvent::Config(Ok("x: 1".to_string()))),
        end(vec![save("news", "hot", "x: 1"), Effect::ClosePage], 0)
    );
}

#[test]
fn failed_fetches_are_an_error_of_a_generation() {
    let event = || FlowEvent::Config(Err("❌ Config content is empty".to_string()));
    assert_eq!(
        flow(Purpose::Search).resume(fetching(), event()),
        end(vec![say("❌ Config content is empty")], 0)
    );
    assert_eq!(
        flow(Purpose::GenerateByAi).resume(fetching(), event()),
        end(vec![say("❌ Config content is empty"), Effect::ClosePage], 1)
    );
}

#[test]
fn refused_tokens_end_the_flow_at_once() {
    let expired = || {
        end(
            vec![
                say("❌ Token is invalid or expired. Please get a new one"),
                say("   https://autocli.ai/get-token"),
                say(""),
                say("   After getting a new token, run: opencli-rs auth"),
            ],
            1,
        )
    };
    assert_eq!(flow(Purpose::Search).resume(fetching(), FlowEvent::Expired), expired());
    let ai = flow(Purpose::GenerateByAi);
    assert_eq!(ai.resume(fetching(), FlowEvent::Expired), expired());
    assert_eq!(ai.resume(FlowStage::Uploading, FlowEvent::Expired), expired());
}

#[test]
fn uploads_end_the_flow() {
    let ai = flow(Purpose::GenerateByAi);
    let line = || vec![Line::Note("✅ Adapter uploaded successfully".to_string())];
    assert_eq!(
        ai.resume(FlowStage::Uploading, FlowEvent::Uploaded(line())),
        end(vec![say("✅ Adapter uploaded successfully")], 0)
    );
    assert_eq!(
        ai.resume(FlowStage::Uploading, FlowEvent::NoToken),
        end(
            vec![
                say("❌ Not authenticated. Please login to get your token"),
                say("   https://autocli.ai/get-token"),
                say(""),
                say("   After getting your token, run: opencli-rs auth"),
            ],
            1,
        )
    );
    assert_eq!(upload_event(UploadProgress::Expired), Some(FlowEvent::Expired));
    assert_eq!(upload_event(UploadProgress::Done(line())), Some(FlowEvent::Uploaded(line())));
    assert_eq!(upload_event(UploadProgress::ReadBody(CallStage::ReadingError(500))), None);
}

#[test]
fn generated_adapters_are_saved() {
    let event = || FlowEvent::Adapter {
        site: "news".to_string(),
        name: "hot".to_string(),
        yaml: "site: news".to_string(),
    };
    let save = || Effect::Save {
        site: "news".to_string(),
        name: "hot".to_string(),
        yaml: "site: news".to_string(),
    };
    assert_eq!(
        flow(Purpose::GenerateByRules).resume(FlowStage::Generating, event()),
        end(vec![Effect::ClosePage, save()], 0)
    );
    assert_eq!(
        flow(Purpose::GenerateByAi).resume(FlowStage::Generating, event()),
        ask(
            vec![Effect::ClosePage, save()],
            FlowStage::Uploading,
            FlowAction::Upload { yaml: "site: news".to_string() }
        )
    );
}

#[test]
fn failed_generations_show_the_error() {
    let event = FlowEvent::Failed {
        icon: "✖".to_string(),
        shown: "no luck".to_string(),
        suggestions: vec!["try again".to_string()],
    };
    assert_eq!(
        flow(Purpose::GenerateByRules).resume(FlowStage::Generating, event),
        end(vec![Effect::ClosePage, say("✖ no luck"), say(""), say("  -> try again")], 1)
    );
}
