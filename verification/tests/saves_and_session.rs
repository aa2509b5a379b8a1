use lingchat::api::save::{
    insert_persona_lines, restore_script_state, PersonaRepair,
    active_save_after_delete, chapter_file_name, last_message_ids, list_page,
    missing_save_message, player_read_position, require_main_role, restore_position,
    save_list_item, screenshot_file_name, CreateSaveResponse,
};
use lingchat::game_system::player_profile_sync::{
    has_persona_prompt, rebuild_system_lines, roles_missing_system_line, system_sender_role_ids,
};
use lingchat::game_system::session::{
    effective_prompt_options, formal_session_admission, intro_persona_text,
    intro_plan, needs_clothes_change_line, rollback_index, rollback_not_found_message, SessionSnapshot,
};
use lingchat::game_system::session::ScriptRecordAction;
use lingchat::migration::read_position_columns_to_add;
use lingchat::types::ScriptStatus;
use lingchat::types::{GameLine, GameMemoryBank, LineAttribute, LineBase, PromptOptions};

fn line(attribute: LineAttribute, sender: Option<i32>, content: &str) -> GameLine {
    GameLine::from_base(
        LineBase {
            id: Some(1),
            content: content.to_string(),
            attribute,
            sender_role_id: sender,
            display_name: None,
        },
        vec![],
    )
}

#[test]
fn save_list_defaults_and_items() {
    assert_eq!(list_page(None, None), (1, 50));
    assert_eq!(list_page(Some(3), Some(10)), (3, 10));
    assert_eq!(last_message_ids(&vec![Some(4), None, Some(9)]), vec![4, 9]);
    let lines = vec![(4, "旧".to_string()), (9, "x".to_string()), (4, "新".to_string())];
    let item = save_list_item(
        1,
        "t".to_string(),
        "c".to_string(),
        "u".to_string(),
        Some(4),
        &lines,
        "/s/1.png".to_string(),
        false,
    );
    assert_eq!(item.last_message.as_deref(), Some("新"));
    assert_eq!(item.screenshot, None);
    let item = save_list_item(2, "t".into(), "c".into(), "u".into(), Some(7), &lines, "p".into(), true);
    assert_eq!(item.last_message, None);
    assert_eq!(item.screenshot.as_deref(), Some("p"));
}

#[test]
fn save_names_and_messages() {
    assert_eq!(screenshot_file_name(12), "12.png");
    assert_eq!(screenshot_file_name(-3), "-3.png");
    assert_eq!(missing_save_message(7), "存档 7 不存在");
    assert_eq!(CreateSaveResponse::created(5).message, "存档创建成功");
    assert_eq!(require_main_role(None).unwrap_err(), "存档中未记录主角信息");
    assert_eq!(require_main_role(Some(3)).unwrap(), 3);
}

#[test]
fn reading_position_and_restore() {
    assert_eq!(player_read_position("", 0), (None, None));
    assert_eq!(player_read_position("c2", 5), (Some("c2".to_string()), Some(5)));
    assert_eq!(chapter_file_name("c2"), "c2.yaml");
    assert_eq!(chapter_file_name("c2.yaml"), "c2.yaml");
    assert_eq!(
        restore_position(Some("c2".into()), None, "c1".into(), 7, true),
        ("c2".to_string(), 7)
    );
    assert_eq!(
        restore_position(Some("c2".into()), Some(3), "c1".into(), 7, true),
        ("c2".to_string(), 3)
    );
    assert_eq!(
        restore_position(Some("c2".into()), Some(3), "c1".into(), 7, false),
        ("c1".to_string(), 7)
    );
    assert_eq!(
        restore_position(Some("".into()), Some(3), "c1".into(), 7, true),
        ("c1".to_string(), 7)
    );
    assert_eq!(active_save_after_delete(Some(4), 4), None);
    assert_eq!(active_save_after_delete(Some(4), 5), Some(4));
}

#[test]
fn system_lines_are_rebuilt_per_role() {
    let mut lines = vec![
        line(LineAttribute::System, Some(3), "old 3"),
        line(LineAttribute::User, Some(0), "hi"),
        line(LineAttribute::System, Some(5), "old 5"),
        line(LineAttribute::System, Some(3), "old 3b"),
        line(LineAttribute::System, None, "no sender"),
    ];
    assert_eq!(system_sender_role_ids(&lines), vec![3, 5]);
    let prompts = vec![(3, Some("new 3".to_string())), (5, None)];
    let n = rebuild_system_lines(&mut lines, &prompts);
    assert_eq!(n, 2);
    assert_eq!(lines[0].base.content, "new 3");
    assert_eq!(lines[1].base.content, "hi");
    assert_eq!(lines[2].base.content, "old 5");
    assert_eq!(lines[3].base.content, "new 3");
    assert_eq!(lines[4].base.content, "no sender");
    assert_eq!(lines[0].base.id, Some(1));
}

#[test]
fn loaded_save_lists_roles_without_persona_line() {
    let lines = vec![
        line(LineAttribute::System, Some(3), "p"),
        line(LineAttribute::Assistant, Some(3), "a"),
        line(LineAttribute::Assistant, Some(8), "b"),
        line(LineAttribute::User, Some(0), "me"),
    ];
    assert_eq!(roles_missing_system_line(&lines, &vec![9, 3, 8]), vec![8, 9]);
    assert!(has_persona_prompt(&Some(" 人设 ".to_string())));
    assert!(!has_persona_prompt(&Some("  ".to_string())));
    assert!(!has_persona_prompt(&None));
}

#[test]
fn rollback_finds_the_nth_player_message() {
    let lines = vec![
        line(LineAttribute::System, Some(3), "sys"),
        line(LineAttribute::User, Some(0), "first"),
        line(LineAttribute::Assistant, Some(3), "reply"),
        line(LineAttribute::User, Some(7), "narration"),
        line(LineAttribute::User, Some(0), "second"),
    ];
    assert_eq!(rollback_index(&lines, 1), Some(1));
    assert_eq!(rollback_index(&lines, 2), Some(4));
    assert_eq!(rollback_index(&lines, 3), None);
    assert_eq!(rollback_index(&lines, 0), None);
    assert_eq!(rollback_not_found_message(3), "未找到序号为 3 的用户消息");
}

#[test]
fn session_decisions() {
    assert!(formal_session_admission(false).is_ok());
    assert_eq!(formal_session_admission(true).unwrap_err(), "试玩期间不能保存正式会话");
    assert_eq!(
        intro_persona_text(None),
        "你的信息被设置错误了，请你在接下来的对话中提示用户检查配置信息"
    );
    assert_eq!(intro_persona_text(Some("persona".into())), "persona");
    assert!(needs_clothes_change_line("swimsuit"));
    assert!(!needs_clothes_change_line("default"));
    assert!(!needs_clothes_change_line(""));
    let o = PromptOptions { output_sec_lang: false, no_emotion_limit: true };
    assert_eq!(effective_prompt_options(Some(o)), o);
    assert_eq!(
        effective_prompt_options(None),
        PromptOptions { output_sec_lang: true, no_emotion_limit: true }
    );
    let snapshot = SessionSnapshot {
        lines: vec![],
        main_role_id: Some(1),
        status: (),
        memory_banks: vec![(7, GameMemoryBank::default(), 3), (9, GameMemoryBank::default(), 1)],
        running_script: None,
    };
    assert_eq!(snapshot.memory_revisions(), vec![(7, 3), (9, 1)]);
}

#[test]
fn snapshot_script_record_is_authoritative() {
    let without = SessionSnapshot {
        lines: vec![],
        main_role_id: None,
        status: 0u8,
        memory_banks: vec![],
        running_script: None,
    };
    assert_eq!(without.script_record_action(), ScriptRecordAction::Clear);
    let with = SessionSnapshot {
        lines: vec![],
        main_role_id: None,
        status: 0u8,
        memory_banks: vec![],
        running_script: Some(ScriptStatus {
            folder_key: "demo".into(),
            vars: "{}".into(),
            current_chapter_key: "c1".into(),
            current_event_process: 2,
        }),
    };
    assert_eq!(with.script_record_action(), ScriptRecordAction::Upsert);
}

#[test]
fn read_position_migration_adds_only_missing_columns() {
    assert_eq!(read_position_columns_to_add(&vec!["id".to_string()]), (true, true));
    assert_eq!(
        read_position_columns_to_add(&vec!["player_read_chapter".to_string()]),
        (false, true)
    );
    assert_eq!(
        read_position_columns_to_add(&vec![
            "player_read_sequence".to_string(),
            "player_read_chapter".to_string()
        ]),
        (false, false)
    );
}

#[test]
fn intro_plan_sets_player_role_and_system_line() {
    assert!(intro_plan(None, "u".into(), None, "ai".into(), "p".into(), "x").is_none());
    let plan = intro_plan(Some(4), "小林".into(), None, "风雪".into(), "人设".into(), "swimsuit").unwrap();
    assert_eq!(plan.player_user_name, "小林");
    assert_eq!(plan.player_user_subtitle, "");
    assert_eq!(plan.role_id, 4);
    assert!(plan.clothes_change);
    assert_eq!(plan.system_line.base.content, "人设");
    assert_eq!(plan.system_line.base.attribute, LineAttribute::System);
    assert_eq!(plan.system_line.base.sender_role_id, Some(4));
    assert_eq!(plan.system_line.base.display_name.as_deref(), Some("风雪"));
    let plan = intro_plan(Some(4), "a".into(), Some("副".into()), "b".into(), "c".into(), "default").unwrap();
    assert_eq!(plan.player_user_subtitle, "副");
    assert!(!plan.clothes_change);
}

#[test]
fn read_position_migration_run_twice_adds_nothing() {
    let mut columns = vec!["id".to_string()];
    let (chapter, sequence) = read_position_columns_to_add(&columns);
    if chapter {
        columns.push("player_read_chapter".to_string());
    }
    if sequence {
        columns.push("player_read_sequence".to_string());
    }
    assert_eq!(read_position_columns_to_add(&columns), (false, false));
}

#[test]
fn missing_persona_lines_go_in_front() {
    let mut lines = vec![line(LineAttribute::User, Some(0), "hi")];
    let repairs = vec![
        PersonaRepair { role_id: 8, content: "p8".into(), display_name: Some("八".into()) },
        PersonaRepair { role_id: 9, content: "p9".into(), display_name: None },
    ];
    insert_persona_lines(&mut lines, &repairs);
    assert_eq!(lines.len(), 3);
    assert_eq!(lines[0].base.content, "p9");
    assert_eq!(lines[0].base.sender_role_id, Some(9));
    assert_eq!(lines[0].base.attribute, LineAttribute::System);
    assert_eq!(lines[1].base.content, "p8");
    assert_eq!(lines[1].base.display_name.as_deref(), Some("八"));
    assert_eq!(lines[2].base.content, "hi");
}

#[test]
fn restored_script_resumes_and_moves_the_epoch() {
    let script = ScriptStatus {
        folder_key: "demo".into(),
        vars: "{}".into(),
        current_chapter_key: "c0".into(),
        current_event_process: 0,
    };
    let r = restore_script_state(script, "c2".into(), 5, "{\"a\":1}".into(), 7);
    assert_eq!(r.script_status.folder_key, "demo");
    assert_eq!(r.script_status.current_chapter_key, "c2");
    assert_eq!(r.script_status.current_event_process, 5);
    assert_eq!(r.script_status.vars, "{\"a\":1}");
    assert_eq!(r.player_read_chapter, "");
    assert_eq!(r.player_read_seq, 0);
    assert_eq!(r.script_epoch, 8);
    let script = ScriptStatus {
        folder_key: "demo".into(),
        vars: "{}".into(),
        current_chapter_key: "c0".into(),
        current_event_process: 0,
    };
    assert_eq!(restore_script_state(script, "c".into(), 0, "{}".into(), u64::MAX).script_epoch, 0);
}
