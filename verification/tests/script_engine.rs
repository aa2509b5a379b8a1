use lingchat::script_engine::chapter::Chapter;
use lingchat::script_engine::events::ai_dialogue_event::{
    after_generation_failure, require_model, require_role_id, require_script_status,
    retry_message, AIDialogueEvent, RetryAction,
};
use lingchat::script_engine::events::narration_event::NarrationEvent;
use lingchat::script_engine::events::set_player_identity_event::SetPlayerIdentityEvent;
use lingchat::script_engine::events::{init_event_registry, EventRegistry, ScriptEventKind};
use lingchat::types::{LineAttribute, PlayerIdentity, ScriptStatus};

fn player(name: &str) -> PlayerIdentity {
    PlayerIdentity {
        user_name: name.to_string(),
        user_subtitle: "原副标题".to_string(),
        user_prompt: "原设定".to_string(),
    }
}

#[test]
fn registry_resolves_every_registered_event_type() {
    let registry = init_event_registry();
    assert_eq!(registry.resolve("ai_dialogue"), Some(ScriptEventKind::AiDialogue));
    assert_eq!(registry.resolve("narration"), Some(ScriptEventKind::Narration));
    assert_eq!(
        registry.resolve("set_player_identity"),
        Some(ScriptEventKind::SetPlayerIdentity)
    );
    assert_eq!(registry.resolve("unknown"), None);
}

#[test]
fn registering_again_replaces_and_keeps_others() {
    let mut registry = EventRegistry::new();
    registry.register_event("a", ScriptEventKind::Narration);
    registry.register_event("b", ScriptEventKind::AiDialogue);
    registry.register_event("a", ScriptEventKind::SetPlayerIdentity);
    assert_eq!(registry.resolve("a"), Some(ScriptEventKind::SetPlayerIdentity));
    assert_eq!(registry.resolve("b"), Some(ScriptEventKind::AiDialogue));
}

#[test]
fn identity_switch_records_original_once() {
    let mut p = player("玩家");
    let mut kept = None;
    let first = SetPlayerIdentityEvent::from_event_data(Some("侦探".to_string()), None, None, None);
    assert_eq!(first.scope, "chapter");
    first.execute(&mut p, &mut kept);
    assert_eq!(p.user_name, "侦探");
    assert_eq!(p.user_subtitle, "原副标题");
    assert_eq!(kept, Some(player("玩家")));

    let second = SetPlayerIdentityEvent::from_event_data(
        Some("".to_string()),
        Some("新副标题".to_string()),
        Some("新设定".to_string()),
        Some("script".to_string()),
    );
    second.execute(&mut p, &mut kept);
    assert_eq!(p.user_name, "侦探");
    assert_eq!(p.user_subtitle, "新副标题");
    assert_eq!(p.user_prompt, "新设定");
    assert_eq!(kept, Some(player("玩家")));
}

#[test]
fn permanent_identity_switch_records_nothing() {
    let mut p = player("玩家");
    let mut kept = None;
    let e = SetPlayerIdentityEvent::from_event_data(
        Some("永久".to_string()),
        None,
        None,
        Some("permanent".to_string()),
    );
    e.execute(&mut p, &mut kept);
    assert_eq!(p.user_name, "永久");
    assert_eq!(kept, None);
}

#[test]
fn narration_splits_lines_and_names_the_narrator() {
    let e = NarrationEvent::from_event_data(Some("第一行\n\n第二行\n".to_string()), None, false);
    assert_eq!(e.display_lines(), vec!["第一行".to_string(), "第二行".to_string()]);
    assert!(e.waits_for_player());
    let line = e.narration_line("内容".to_string());
    assert_eq!(line.base.display_name.as_deref(), Some("旁白"));
    assert_eq!(line.base.sender_role_id, Some(0));
    assert_eq!(line.base.attribute, LineAttribute::User);

    let named = NarrationEvent::from_event_data(None, Some("系统".to_string()), true);
    assert!(named.display_lines().is_empty());
    assert!(!named.waits_for_player());
    assert_eq!(named.narration_line(String::new()).base.display_name.as_deref(), Some("系统"));
}

#[test]
fn ai_dialogue_defaults_to_main_character() {
    let e = AIDialogueEvent::from_event_data(None, Some("提示".to_string()));
    assert_eq!(e.character, "MAIN");
    let line = e.prompt_line("剧情提示".to_string());
    assert_eq!(line.base.display_name.as_deref(), Some("旁白"));
    assert_eq!(line.base.attribute, LineAttribute::User);
}

#[test]
fn retries_wait_one_two_three_seconds_then_ask_the_player() {
    let mut attempt = 0;
    let mut actions = Vec::new();
    for _ in 0..8 {
        let (action, next) = after_generation_failure(attempt);
        actions.push(action);
        attempt = next;
    }
    assert_eq!(
        actions,
        vec![
            RetryAction::Sleep { secs: 1 },
            RetryAction::Sleep { secs: 2 },
            RetryAction::Sleep { secs: 3 },
            RetryAction::AskPlayer { failures: 4 },
            RetryAction::Sleep { secs: 1 },
            RetryAction::Sleep { secs: 2 },
            RetryAction::Sleep { secs: 3 },
            RetryAction::AskPlayer { failures: 4 },
        ]
    );
    assert_eq!(retry_message(4), "AI 响应失败（已尝试 4 次），点击「继续」重试");
}

fn status(chapter: &str, process: i32) -> ScriptStatus {
    ScriptStatus {
        folder_key: "demo".to_string(),
        vars: "{}".to_string(),
        current_chapter_key: chapter.to_string(),
        current_event_process: process,
    }
}

#[test]
fn chapter_resumes_at_saved_event_of_the_same_chapter() {
    let ch = Chapter::new("c1.yaml".to_string(), None, vec![1, 2, 3], &status("c1.yaml", 2));
    assert_eq!(ch.chapter_name, "c1.yaml");
    assert_eq!(ch.events_handler.progress, 2);
    assert_eq!(ch.events_handler.chapter_key, "c1.yaml");
    assert_eq!(ch.progress_marker(), 2);
    assert!(!ch.events_handler.is_finished());

    let other = Chapter::new("c2.yaml".to_string(), Some("第二章".to_string()), vec![1, 2], &status("c1.yaml", 1));
    assert_eq!(other.chapter_name, "第二章");
    assert_eq!(other.events_handler.progress, 0);
}

#[test]
fn chapter_clamps_out_of_range_and_negative_progress() {
    let beyond = Chapter::new("c".to_string(), None, vec!['a', 'b'], &status("c", 9));
    assert_eq!(beyond.events_handler.progress, 1);
    let negative = Chapter::new("c".to_string(), None, vec!['a', 'b'], &status("c", -3));
    assert_eq!(negative.events_handler.progress, 0);
    let empty: Chapter<u8> = Chapter::new("c".to_string(), None, vec![], &status("c", 4));
    assert_eq!(empty.events_handler.progress, 0);
    assert!(empty.events_handler.is_finished());
}

#[test]
fn ai_dialogue_refusals() {
    assert_eq!(require_script_status(Some(3)).unwrap(), 3);
    assert_eq!(require_script_status::<u8>(None).unwrap_err(), "ScriptStatus 未设置");
    assert_eq!(require_role_id(Some(5)).unwrap(), 5);
    assert_eq!(require_role_id(None).unwrap_err(), "角色 ID 未设置");
    assert_eq!(require_model(Some("m")).unwrap(), "m");
    assert_eq!(
        require_model::<u8>(None).unwrap_err(),
        "尚未配置大模型，无法执行「AI 对话」事件，剧本终止。请先在设置里配置并选择模型。"
    );
}

#[test]
fn chapter_steps_record_the_next_event_and_stop_at_the_end() {
    let mut ch = Chapter::new("c".to_string(), None, vec!['a', 'b'], &status("c", 1));
    assert_eq!(ch.next_step(), Some(1));
    ch.events_handler.progress = 2;
    assert_eq!(ch.next_step(), None);
}
