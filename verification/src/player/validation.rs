use vstd::prelude::*;

use super::profile::PlayerProfileData;
use crate::text::{decimal, lemma_trim_idempotent, trim, trim_str, u64_to_decimal};

verus! {

/// The control characters that player texts may not hold: every C0 control
/// character except line feed and tab.
pub open spec fn is_forbidden_control(c: char) -> bool {
    (c as u32) < 0x20 && c != '\n' && c != '\t'
}

pub open spec fn has_forbidden_control(s: Seq<char>) -> bool {
    exists|i: int| 0 <= i < s.len() && is_forbidden_control(#[trigger] s[i])
}

/// Whether `value` holds a control character other than `\n` and `\t`.
pub(crate) fn contains_forbidden_control(value: &str) -> (b: bool)
    ensures
        b == has_forbidden_control(value@),
{
    let n = value.unicode_len();
    let mut i: usize = 0;
    for c in it: value.chars()
        invariant
            it.seq() == value@,
            i == it.index(),
            n == value@.len(),
            forall|j: int| 0 <= j < i ==> !is_forbidden_control(#[trigger] value@[j]),
    {
        if (c as u32) < 0x20 && c != '\n' && c != '\t' {
            assert(is_forbidden_control(value@[i as int]));
            return true;
        }
        assert(i < n);
        i = i + 1;
    }
    false
}

/// What an optional text field becomes: absent stays absent; a given text is
/// trimmed, then refused if it holds a forbidden control character or is longer
/// than `max_chars` characters.
pub open spec fn spec_validate_optional_text(
    label: Seq<char>,
    value: Option<Seq<char>>,
    max_chars: nat,
) -> Result<Option<Seq<char>>, Seq<char>> {
    match value {
        None => Ok(None),
        Some(v) => {
            let t = trim(v);
            if has_forbidden_control(t) {
                Err(label + "不能包含除换行和制表符以外的控制字符"@)
            } else if t.len() > max_chars {
                Err(label + "长度不能超过 "@ + decimal(max_chars) + " 个字符"@)
            } else {
                Ok(Some(t))
            }
        },
    }
}

/// Checks an optional text field: trims it, then refuses forbidden control
/// characters and texts longer than `max_chars` characters.
pub(crate) fn validate_optional_text(label: &str, value: Option<String>, max_chars: usize) -> (r:
    Result<Option<String>, String>)
    ensures
        match r {
            Ok(o) => spec_validate_optional_text(label@, value.deep_view(), max_chars as nat) == Ok::<
                Option<Seq<char>>,
                Seq<char>,
            >(o.deep_view()),
            Err(m) => spec_validate_optional_text(label@, value.deep_view(), max_chars as nat)
                == Err::<Option<Seq<char>>, Seq<char>>(m@),
        },
{
    let value = match value {
        Some(v) => v,
        None => return Ok(None),
    };
    let trimmed = trim_str(value.as_str());
    if contains_forbidden_control(trimmed.as_str()) {
        let mut m = String::from_str(label);
        m.append("不能包含除换行和制表符以外的控制字符");
        return Err(m);
    }
    if trimmed.unicode_len() > max_chars {
        let mut m = String::from_str(label);
        m.append("长度不能超过 ");
        let digits = u64_to_decimal(max_chars as u64);
        m.append(digits.as_str());
        m.append(" 个字符");
        return Err(m);
    }
    Ok(Some(trimmed))
}

/// What a player name becomes: trimmed, then refused if it holds a forbidden
/// control character or is not 1 to 32 characters long.
pub open spec fn spec_validate_user_name(name: Seq<char>) -> Result<Seq<char>, Seq<char>> {
    let t = trim(name);
    if has_forbidden_control(t) {
        Err("玩家昵称不能包含控制字符"@)
    } else if t.len() == 0 || t.len() > 32 {
        Err("玩家昵称不能为空，且长度需为 1~32 个字符"@)
    } else {
        Ok(t)
    }
}

/// Checks the player's name as `set_player_profile` does.
pub fn validate_user_name(user_name: &str) -> (r: Result<String, String>)
    ensures
        match r {
            Ok(n) => spec_validate_user_name(user_name@) == Ok::<Seq<char>, Seq<char>>(n@),
            Err(m) => spec_validate_user_name(user_name@) == Err::<Seq<char>, Seq<char>>(m@),
        },
{
    let name = trim_str(user_name);
    if contains_forbidden_control(name.as_str()) {
        return Err(String::from_str("玩家昵称不能包含控制字符"));
    }
    let name_chars = name.unicode_len();
    if name_chars == 0 || name_chars > 32 {
        return Err(String::from_str("玩家昵称不能为空，且长度需为 1~32 个字符"));
    }
    Ok(name)
}

/// The limits of the optional profile texts.
pub open spec fn subtitle_limit() -> nat {
    64
}

pub open spec fn text_limit() -> nat {
    4000
}

/// The profile that `set_player_profile` stores for the given input, or the
/// message of the first check that refuses it (name, subtitle, personality,
/// introduction, speaking-style example, in this order).
pub open spec fn spec_validate_player_profile(
    user_name: Seq<char>,
    user_subtitle: Option<Seq<char>>,
    user_prompt: Option<Seq<char>>,
    info: Option<Seq<char>>,
    system_prompt_example: Option<Seq<char>>,
) -> Result<super::profile::PlayerProfileView, Seq<char>> {
    match spec_validate_user_name(user_name) {
        Err(m) => Err(m),
        Ok(name) => match spec_validate_optional_text("玩家副标题"@, user_subtitle, subtitle_limit()) {
            Err(m) => Err(m),
            Ok(subtitle) => match spec_validate_optional_text(
                "玩家设定"@,
                user_prompt,
                text_limit(),
            ) {
                Err(m) => Err(m),
                Ok(prompt) => match spec_validate_optional_text("玩家简介"@, info, text_limit()) {
                    Err(m) => Err(m),
                    Ok(info) => match spec_validate_optional_text(
                        "玩家说话风格示例"@,
                        system_prompt_example,
                        text_limit(),
                    ) {
                        Err(m) => Err(m),
                        Ok(example) => Ok(
                            super::profile::PlayerProfileView {
                                user_name: name,
                                user_subtitle: subtitle,
                                user_prompt: prompt,
                                info: info,
                                system_prompt_example: example,
                                avatar_path: None,
                            },
                        ),
                    },
                },
            },
        },
    }
}

/// Whether an optional text passes a check with limit `max_chars`: absent, or,
/// once trimmed, free of forbidden control characters and at most `max_chars`
/// characters long.
pub open spec fn acceptable_text(o: Option<Seq<char>>, max_chars: nat) -> bool {
    match o {
        None => true,
        Some(v) => !has_forbidden_control(trim(v)) && trim(v).len() <= max_chars,
    }
}

/// An optional text, trimmed.
pub open spec fn trimmed_text(o: Option<Seq<char>>) -> Option<Seq<char>> {
    match o {
        None => None,
        Some(v) => Some(trim(v)),
    }
}

/// Whether a player name passes: once trimmed, free of forbidden control
/// characters and 1 to 32 characters long.
pub open spec fn acceptable_name(name: Seq<char>) -> bool {
    !has_forbidden_control(trim(name)) && 1 <= trim(name).len() <= 32
}

/// Input within the documented limits is accepted, and stored trimmed: a name of
/// 1 to 32 characters, a subtitle of at most 64 characters and a personality,
/// introduction and speaking-style example of at most 4000 characters each,
/// none holding a control character other than line feed and tab.
pub proof fn lemma_input_within_limits_is_accepted(
    user_name: Seq<char>,
    user_subtitle: Option<Seq<char>>,
    user_prompt: Option<Seq<char>>,
    info: Option<Seq<char>>,
    system_prompt_example: Option<Seq<char>>,
)
    requires
        acceptable_name(user_name),
        acceptable_text(user_subtitle, 64),
        acceptable_text(user_prompt, 4000),
        acceptable_text(info, 4000),
        acceptable_text(system_prompt_example, 4000),
    ensures
        spec_validate_player_profile(user_name, user_subtitle, user_prompt, info, system_prompt_example)
            matches Ok(p) && p.user_name == trim(user_name) && p.user_subtitle == trimmed_text(
            user_subtitle,
        ) && p.user_prompt == trimmed_text(user_prompt) && p.info == trimmed_text(info)
            && p.system_prompt_example == trimmed_text(system_prompt_example) && p.avatar_path is None,
{
}

/// A text over its limit is refused: a subtitle of more than 64 characters, or a
/// personality, introduction or speaking-style example of more than 4000, once
/// trimmed.
pub proof fn lemma_text_over_limit_is_refused(
    user_name: Seq<char>,
    user_subtitle: Option<Seq<char>>,
    user_prompt: Option<Seq<char>>,
    info: Option<Seq<char>>,
    system_prompt_example: Option<Seq<char>>,
)
    requires
        (user_subtitle matches Some(v) && trim(v).len() > 64) || (user_prompt matches Some(v)
            && trim(v).len() > 4000) || (info matches Some(v) && trim(v).len() > 4000) || (
        system_prompt_example matches Some(v) && trim(v).len() > 4000),
    ensures
        spec_validate_player_profile(user_name, user_subtitle, user_prompt, info, system_prompt_example)
            is Err,
{
}

/// Validates and normalises the input of `set_player_profile`: every text is
/// trimmed; control characters other than `\n` and `\t` are refused; the name
/// must have 1 to 32 characters, the subtitle at most 64, the other texts at most
/// 4000.
pub fn validate_player_profile(
    user_name: String,
    user_subtitle: Option<String>,
    user_prompt: Option<String>,
    info: Option<String>,
    system_prompt_example: Option<String>,
) -> (r: Result<PlayerProfileData, String>)
    ensures
        match r {
            Ok(p) => spec_validate_player_profile(
                user_name@,
                user_subtitle.deep_view(),
                user_prompt.deep_view(),
                info.deep_view(),
                system_prompt_example.deep_view(),
            ) == Ok::<super::profile::PlayerProfileView, Seq<char>>(p@),
            Err(m) => spec_validate_player_profile(
                user_name@,
                user_subtitle.deep_view(),
                user_prompt.deep_view(),
                info.deep_view(),
                system_prompt_example.deep_view(),
            ) == Err::<super::profile::PlayerProfileView, Seq<char>>(m@),
        },
        acceptable_name(user_name@) && acceptable_text(user_subtitle.deep_view(), 64)
            && acceptable_text(user_prompt.deep_view(), 4000) && acceptable_text(info.deep_view(), 4000)
            && acceptable_text(system_prompt_example.deep_view(), 4000) ==> (r matches Ok(p)
            && p@.user_name == trim(user_name@) && p@.user_subtitle == trimmed_text(
            user_subtitle.deep_view(),
        ) && p@.user_prompt == trimmed_text(user_prompt.deep_view()) && p@.info == trimmed_text(
            info.deep_view(),
        ) && p@.system_prompt_example == trimmed_text(system_prompt_example.deep_view())),
{
    proof {
        if acceptable_name(user_name@) && acceptable_text(user_subtitle.deep_view(), 64)
            && acceptable_text(user_prompt.deep_view(), 4000) && acceptable_text(info.deep_view(), 4000)
            && acceptable_text(system_prompt_example.deep_view(), 4000) {
            lemma_input_within_limits_is_accepted(
                user_name@,
                user_subtitle.deep_view(),
                user_prompt.deep_view(),
                info.deep_view(),
                system_prompt_example.deep_view(),
            );
        }
    }
    let name = validate_user_name(user_name.as_str())?;
    let user_subtitle = validate_optional_text("玩家副标题", user_subtitle, 64)?;
    let user_prompt = validate_optional_text("玩家设定", user_prompt, 4000)?;
    let info = validate_optional_text("玩家简介", info, 4000)?;
    let system_prompt_example = validate_optional_text("玩家说话风格示例", system_prompt_example, 4000)?;
    Ok(PlayerProfileData {
        user_name: name,
        user_subtitle,
        user_prompt,
        info,
        system_prompt_example,
        avatar_path: None,
    })
}

/// Validation is a normalisation: a text that was accepted is accepted again
/// unchanged.
pub proof fn lemma_validate_optional_text_idempotent(
    label: Seq<char>,
    value: Seq<char>,
    max_chars: nat,
)
    requires
        spec_validate_optional_text(label, Some(value), max_chars) is Ok,
    ensures
        spec_validate_optional_text(
            label,
            spec_validate_optional_text(label, Some(value), max_chars)->Ok_0,
            max_chars,
        ) == spec_validate_optional_text(label, Some(value), max_chars),
{
    lemma_trim_idempotent(value);
}

/// The same holds of the player name.
pub proof fn lemma_validate_user_name_idempotent(name: Seq<char>)
    requires
        spec_validate_user_name(name) is Ok,
    ensures
        spec_validate_user_name(spec_validate_user_name(name)->Ok_0) == spec_validate_user_name(
            name,
        ),
{
    lemma_trim_idempotent(name);
}

} // verus!
