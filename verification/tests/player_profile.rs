use base64::Engine;
use lingchat::player::avatar::decode_player_avatar;
use lingchat::player::avatar::{accept_decoded_avatar, avatar_ext, avatar_payload, checked_avatar_ext};
use lingchat::player::profile::{CharacterSettings, PlayerProfileData, PlayerProfileRepo};
use lingchat::player::validation::{validate_player_profile, validate_user_name};

fn profile(info: Option<&str>, prompt: Option<&str>, example: Option<&str>) -> PlayerProfileData {
    PlayerProfileData {
        user_name: "阿明".to_string(),
        user_subtitle: None,
        user_prompt: prompt.map(|s| s.to_string()),
        info: info.map(|s| s.to_string()),
        system_prompt_example: example.map(|s| s.to_string()),
        avatar_path: None,
    }
}

#[test]
fn prompt_fragment_joins_filled_blocks_in_order() {
    let p = profile(Some("学生"), Some("开朗"), Some("你好呀"));
    assert_eq!(
        p.to_prompt_fragment(),
        "【简介】学生\n【人格设定】开朗\n【说话风格示例】\n你好呀"
    );
}

#[test]
fn prompt_fragment_skips_empty_and_missing_blocks() {
    let p = profile(Some(""), Some("开朗"), None);
    assert_eq!(p.to_prompt_fragment(), "【人格设定】开朗");
    let empty = profile(None, None, None);
    assert_eq!(empty.to_prompt_fragment(), "");
}

#[test]
fn default_profile_uses_default_name() {
    let p = PlayerProfileData::default();
    assert_eq!(p.user_name, "玩家");
    assert_eq!(p.user_subtitle, None);
    assert_eq!(p.avatar_path, None);
}

#[test]
fn user_name_is_trimmed_and_bounded() {
    assert_eq!(validate_user_name("  小林 \n").unwrap(), "小林");
    assert_eq!(
        validate_user_name("   ").unwrap_err(),
        "玩家昵称不能为空，且长度需为 1~32 个字符"
    );
    assert_eq!(validate_user_name("a\u{7}b").unwrap_err(), "玩家昵称不能包含控制字符");
    let long: String = std::iter::repeat('名').take(33).collect();
    assert!(validate_user_name(&long).is_err());
    let max: String = std::iter::repeat('名').take(32).collect();
    assert_eq!(validate_user_name(&max).unwrap(), max);
}

#[test]
fn profile_input_validation_reports_the_first_failing_field() {
    let ok = validate_player_profile(
        " 小林 ".to_string(),
        Some(" 副标题 ".to_string()),
        Some("多行\n设定\t缩进".to_string()),
        None,
        Some("".to_string()),
    )
    .unwrap();
    assert_eq!(ok.user_name, "小林");
    assert_eq!(ok.user_subtitle.as_deref(), Some("副标题"));
    assert_eq!(ok.user_prompt.as_deref(), Some("多行\n设定\t缩进"));
    assert_eq!(ok.info, None);
    assert_eq!(ok.system_prompt_example.as_deref(), Some(""));
    assert_eq!(ok.avatar_path, None);

    let long_subtitle: String = std::iter::repeat('x').take(65).collect();
    let err = validate_player_profile("小林".to_string(), Some(long_subtitle), None, None, None)
        .unwrap_err();
    assert_eq!(err, "玩家副标题长度不能超过 64 个字符");

    let err = validate_player_profile(
        "小林".to_string(),
        None,
        Some("bad\u{1b}".to_string()),
        None,
        None,
    )
    .unwrap_err();
    assert_eq!(err, "玩家设定不能包含除换行和制表符以外的控制字符");

    let long_info: String = std::iter::repeat('x').take(4001).collect();
    let err =
        validate_player_profile("小林".to_string(), None, None, Some(long_info), None).unwrap_err();
    assert_eq!(err, "玩家简介长度不能超过 4000 个字符");
}

#[test]
fn validated_text_validates_again_unchanged() {
    let first = validate_user_name("\u{3000} 小林\u{a0}").unwrap();
    assert_eq!(first, "小林");
    assert_eq!(validate_user_name(&first).unwrap(), first);
}

#[test]
fn legacy_fields_are_normalised_and_placeholder_dropped() {
    let card = CharacterSettings {
        user_name: "  老玩家 ".to_string(),
        user_subtitle: Some("   ".to_string()),
        system_prompt: Some("AI 人设".to_string()),
        info: None,
        system_prompt_example: None,
    };
    let migrated = PlayerProfileRepo::migrated_profile(Some(("老玩家".to_string(), None)));
    assert_eq!(migrated.user_name, "老玩家");
    assert_eq!(migrated.user_prompt, None);
    let from_file = PlayerProfileRepo::profile_from_settings(&card);
    assert_eq!(from_file.user_name, "  老玩家 ");
    assert_eq!(from_file.user_prompt.as_deref(), Some("AI 人设"));
    let fresh = PlayerProfileRepo::migrated_profile(None);
    assert_eq!(fresh.user_name, "玩家");
}

#[test]
fn profile_entries_use_role_card_keys_and_skip_empty_texts() {
    let mut p = profile(Some("简介"), Some("设定"), Some(""));
    p.user_subtitle = Some("副".to_string());
    let entries = PlayerProfileRepo::profile_entries(&p);
    let keys: Vec<&str> = entries.iter().map(|(k, _)| k.as_str()).collect();
    assert_eq!(keys, vec!["user_name", "user_subtitle", "system_prompt", "info"]);
    assert_eq!(entries[2].1, "设定");
}

#[test]
fn rendered_yaml_holds_every_entry() {
    let p = profile(Some("简介"), Some("设定"), None);
    let yaml = PlayerProfileRepo::render_profile_yaml(&p).unwrap();
    assert!(yaml.contains("user_name: 阿明"));
    assert!(yaml.contains("system_prompt: 设定"));
    assert!(yaml.contains("info: 简介"));
    assert!(!yaml.contains("user_subtitle"));
}

#[test]
fn avatar_payload_strips_only_data_url_prefixes() {
    assert_eq!(avatar_payload("data:image/png;base64,QUJD"), "QUJD");
    assert_eq!(avatar_payload("QUJD"), "QUJD");
    assert_eq!(avatar_payload("abc,QUJD"), "abc,QUJD");
}

#[test]
fn avatar_extension_is_normalised_and_checked() {
    assert_eq!(avatar_ext(Some(".PNG".to_string())).unwrap(), "png");
    assert_eq!(avatar_ext(Some("..Jpeg".to_string())).unwrap(), "jpeg");
    assert_eq!(avatar_ext(None).unwrap(), "png");
    assert_eq!(avatar_ext(Some(".".to_string())).unwrap(), "png");
    assert_eq!(
        avatar_ext(Some("TIFF".to_string())).unwrap_err(),
        "头像格式不支持: .tiff，仅支持 png/jpg/jpeg/webp/gif/bmp"
    );
}

#[test]
fn avatar_upload_is_decoded_and_checked() {
    let (data, ext) = decode_player_avatar("data:image/png;base64,aGVsbG8=", Some("GIF".to_string()))
        .unwrap();
    assert_eq!(data, b"hello".to_vec());
    assert_eq!(ext, "gif");
    let err = decode_player_avatar("***", None).unwrap_err();
    assert!(err.starts_with("解码图片数据失败: "));
    let err = decode_player_avatar("aGVsbG8=", Some("exe".to_string())).unwrap_err();
    assert!(err.starts_with("头像格式不支持"));
}

#[test]
fn oversized_avatar_is_refused() {
    let big = vec![0u8; 10 * 1024 * 1024 + 1];
    let encoded = base64::engine::general_purpose::STANDARD.encode(&big);
    assert_eq!(
        decode_player_avatar(&encoded, None).unwrap_err(),
        "头像图片过大，解码后不能超过 10MB"
    );
}

#[test]
fn avatar_file_names() {
    assert_eq!(PlayerProfileRepo::avatar_file_name(""), "头像.png");
    assert_eq!(PlayerProfileRepo::avatar_file_name("webp"), "头像.webp");
    let names = PlayerProfileRepo::avatar_candidate_names();
    assert_eq!(
        names,
        vec!["头像.png", "头像.jpg", "头像.jpeg", "头像.webp", "头像.gif", "头像.bmp"]
    );
    assert!(PlayerProfileRepo::is_avatar_fallback_entry("头像-old.png", Some(false)));
    assert!(!PlayerProfileRepo::is_avatar_fallback_entry("头像", Some(true)));
    assert!(!PlayerProfileRepo::is_avatar_fallback_entry("头像.png", None));
    assert!(!PlayerProfileRepo::is_avatar_fallback_entry("avatar.png", Some(false)));
}

#[test]
fn shown_profile_fills_absent_texts_with_empty_ones() {
    let p = profile(Some("简介"), None, None);
    let shown = p.shown();
    assert_eq!(shown.user_name, "阿明");
    assert_eq!(shown.info, "简介");
    assert_eq!(shown.user_prompt, "");
    assert_eq!(shown.user_subtitle, "");
}

#[test]
fn checked_extension_defaults_and_allow_list() {
    assert_eq!(checked_avatar_ext(String::new()).unwrap(), "png");
    assert_eq!(checked_avatar_ext("bmp".to_string()).unwrap(), "bmp");
    assert_eq!(
        checked_avatar_ext("PNG".to_string()).unwrap_err(),
        "头像格式不支持: .PNG，仅支持 png/jpg/jpeg/webp/gif/bmp"
    );
}

#[test]
fn decoded_avatar_is_limited_to_ten_mebibytes() {
    let limit = 10 * 1024 * 1024;
    let (data, ext) = accept_decoded_avatar(vec![1u8; limit], Ok("gif".to_string())).unwrap();
    assert_eq!(data.len(), limit);
    assert_eq!(ext, "gif");
    assert_eq!(
        accept_decoded_avatar(vec![1u8; limit + 1], Ok("gif".to_string())).unwrap_err(),
        "头像图片过大，解码后不能超过 10MB"
    );
    assert_eq!(
        accept_decoded_avatar(vec![1u8; limit + 1], Err("bad ext".to_string())).unwrap_err(),
        "bad ext"
    );
}

#[test]
fn runtime_identity_follows_the_saved_profile() {
    let mut p = profile(Some("学生"), None, None);
    p.user_subtitle = None;
    let id = p.runtime_identity();
    assert_eq!(id.user_name, "阿明");
    assert_eq!(id.user_subtitle, "");
    assert_eq!(id.user_prompt, "【简介】学生");
}

#[test]
fn invalid_base64_reports_the_decoder_error() {
    let err = decode_player_avatar("***", None).unwrap_err();
    assert!(err.len() > "解码图片数据失败: ".len());
}
