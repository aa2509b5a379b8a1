use vstd::prelude::*;

use crate::text::{join_strings, join_with, trim, trim_str};
use crate::types::PlayerIdentity;

verus! {

/// The player profile, stored in `game_data/player/settings.yml`.
#[derive(Debug, PartialEq)]
pub struct PlayerProfileData {
    pub user_name: String,
    pub user_subtitle: Option<String>,
    pub user_prompt: Option<String>,
    /// A one-line introduction of the player.
    pub info: Option<String>,
    /// An example of the player's way of speaking.
    pub system_prompt_example: Option<String>,
    /// The avatar file name, relative to the player directory.
    pub avatar_path: Option<String>,
}

/// The profile as character sequences.
pub struct PlayerProfileView {
    pub user_name: Seq<char>,
    pub user_subtitle: Option<Seq<char>>,
    pub user_prompt: Option<Seq<char>>,
    pub info: Option<Seq<char>>,
    pub system_prompt_example: Option<Seq<char>>,
    pub avatar_path: Option<Seq<char>>,
}

impl View for PlayerProfileData {
    type V = PlayerProfileView;

    open spec fn view(&self) -> PlayerProfileView {
        PlayerProfileView {
            user_name: self.user_name@,
            user_subtitle: self.user_subtitle.deep_view(),
            user_prompt: self.user_prompt.deep_view(),
            info: self.info.deep_view(),
            system_prompt_example: self.system_prompt_example.deep_view(),
            avatar_path: self.avatar_path.deep_view(),
        }
    }
}

/// The fields of a role card (`settings.yml`) that the player profile reads.
/// The player file uses the same keys as a role card.
#[derive(Debug)]
pub struct CharacterSettings {
    pub user_name: String,
    pub user_subtitle: Option<String>,
    pub system_prompt: Option<String>,
    pub info: Option<String>,
    pub system_prompt_example: Option<String>,
}

pub struct CharacterSettingsView {
    pub user_name: Seq<char>,
    pub user_subtitle: Option<Seq<char>>,
    pub system_prompt: Option<Seq<char>>,
    pub info: Option<Seq<char>>,
    pub system_prompt_example: Option<Seq<char>>,
}

impl View for CharacterSettings {
    type V = CharacterSettingsView;

    open spec fn view(&self) -> CharacterSettingsView {
        CharacterSettingsView {
            user_name: self.user_name@,
            user_subtitle: self.user_subtitle.deep_view(),
            system_prompt: self.system_prompt.deep_view(),
            info: self.info.deep_view(),
            system_prompt_example: self.system_prompt_example.deep_view(),
        }
    }
}

/// The name a player has before choosing one.
pub open spec fn spec_default_user_name() -> Seq<char> {
    seq!['玩', '家']
}

/// The placeholder that a role card's `user_name` holds when it was never set.
pub open spec fn spec_unset_user_name() -> Seq<char> {
    "user_name未设定"@
}

pub fn clone_opt(o: &Option<String>) -> (r: Option<String>)
    ensures
        r == *o,
{
    match o {
        Some(s) => Some(s.clone()),
        None => None,
    }
}

pub(crate) fn default_user_name() -> (s: String)
    ensures
        s@ == spec_default_user_name(),
{
    proof {
        reveal_strlit("玩家");
    }
    String::from_str("玩家")
}

/// What a legacy role-card text field contributes: its trimmed text, unless that is
/// empty or the never-set placeholder.
pub open spec fn spec_normalize_legacy_text(raw: Seq<char>) -> Option<Seq<char>> {
    let t = trim(raw);
    if t.len() == 0 || t == spec_unset_user_name() {
        None
    } else {
        Some(t)
    }
}

/// Normalises a text field of an old role card: blank text and the serde
/// placeholder `user_name未设定` count as absent.
pub(crate) fn normalize_legacy_text(raw: &str) -> (r: Option<String>)
    ensures
        r.deep_view() == spec_normalize_legacy_text(raw@),
{
    let trimmed = trim_str(raw);
    if trimmed.unicode_len() == 0 {
        return None;
    }
    let unset = String::from_str("user_name未设定");
    if trimmed == unset {
        return None;
    }
    Some(trimmed)
}

/// Whether an optional text is present and not empty.
pub open spec fn filled(o: Option<Seq<char>>) -> bool {
    o is Some && o->0.len() > 0
}

/// The piece `label + text` when `o` is filled, nothing otherwise.
pub open spec fn labelled_part(label: Seq<char>, o: Option<Seq<char>>) -> Seq<Seq<char>> {
    if filled(o) {
        seq![label + o->0]
    } else {
        Seq::<Seq<char>>::empty()
    }
}

/// The setting blocks that go into the system prompt, in order: introduction,
/// personality, speaking-style example.
pub open spec fn prompt_fragment_parts(p: PlayerProfileView) -> Seq<Seq<char>> {
    labelled_part("【简介】"@, p.info) + labelled_part("【人格设定】"@, p.user_prompt)
        + labelled_part("【说话风格示例】\n"@, p.system_prompt_example)
}

pub open spec fn spec_prompt_fragment(p: PlayerProfileView) -> Seq<char> {
    join_with(prompt_fragment_parts(p), "\n"@)
}

fn push_labelled(parts: &mut Vec<String>, label: &str, o: &Option<String>)
    ensures
        final(parts).deep_view() == old(parts).deep_view() + labelled_part(label@, o.deep_view()),
{
    match o {
        Some(s) => {
            if s.unicode_len() > 0 {
                let mut piece = String::from_str(label);
                piece.append(s.as_str());
                parts.push(piece);
                assert(final(parts).deep_view() =~= old(parts).deep_view() + labelled_part(
                    label@,
                    o.deep_view(),
                ));
            } else {
                assert(old(parts).deep_view() + labelled_part(label@, o.deep_view())
                    =~= old(parts).deep_view());
            }
        },
        None => {
            assert(old(parts).deep_view() + labelled_part(label@, o.deep_view())
                =~= old(parts).deep_view());
        },
    }
}

impl PlayerProfileData {
    /// The profile with the default name and nothing else.
    pub open spec fn spec_default() -> PlayerProfileView {
        PlayerProfileView {
            user_name: spec_default_user_name(),
            user_subtitle: None,
            user_prompt: None,
            info: None,
            system_prompt_example: None,
            avatar_path: None,
        }
    }

    /// Merges the profile's setting blocks into one text for the system prompt:
    /// introduction, then personality, then speaking-style example; empty
    /// fields are skipped.
    pub fn to_prompt_fragment(&self) -> (r: String)
        ensures
            r@ == spec_prompt_fragment(self@),
    {
        let mut parts: Vec<String> = Vec::new();
        push_labelled(&mut parts, "【简介】", &self.info);
        push_labelled(&mut parts, "【人格设定】", &self.user_prompt);
        push_labelled(&mut parts, "【说话风格示例】\n", &self.system_prompt_example);
        assert(parts.deep_view() =~= prompt_fragment_parts(self@));
        join_strings(&parts, "\n")
    }
}

/// An optional text, or the empty text.
pub open spec fn or_empty(o: Option<Seq<char>>) -> Seq<char> {
    match o {
        Some(s) => s,
        None => Seq::<char>::empty(),
    }
}

fn text_or_empty(o: &Option<String>) -> (r: String)
    ensures
        r@ == or_empty(o.deep_view()),
{
    match o {
        Some(s) => s.clone(),
        None => String::new(),
    }
}

/// The profile as shown to the front end: every optional text as text, empty
/// when absent.
pub struct ShownProfile {
    pub user_name: String,
    pub user_subtitle: String,
    pub user_prompt: String,
    pub info: String,
    pub system_prompt_example: String,
}

impl PlayerProfileData {
    /// The texts that `get_player_profile` and the `player-profile-updated`
    /// event carry.
    pub fn shown(&self) -> (r: ShownProfile)
        ensures
            r.user_name@ == self.user_name@,
            r.user_subtitle@ == or_empty(self.user_subtitle.deep_view()),
            r.user_prompt@ == or_empty(self.user_prompt.deep_view()),
            r.info@ == or_empty(self.info.deep_view()),
            r.system_prompt_example@ == or_empty(self.system_prompt_example.deep_view()),
    {
        ShownProfile {
            user_name: self.user_name.clone(),
            user_subtitle: text_or_empty(&self.user_subtitle),
            user_prompt: text_or_empty(&self.user_prompt),
            info: text_or_empty(&self.info),
            system_prompt_example: text_or_empty(&self.system_prompt_example),
        }
    }
}

impl PlayerProfileData {
    /// The identity the running game takes after the profile is saved: the
    /// name, the subtitle (empty when absent) and, as the player's settings,
    /// the profile's prompt fragment.
    pub fn runtime_identity(&self) -> (r: PlayerIdentity)
        ensures
            r.user_name == self.user_name,
            r.user_subtitle@ == or_empty(self.user_subtitle.deep_view()),
            r.user_prompt@ == spec_prompt_fragment(self@),
    {
        PlayerIdentity {
            user_name: self.user_name.clone(),
            user_subtitle: text_or_empty(&self.user_subtitle),
            user_prompt: self.to_prompt_fragment(),
        }
    }
}

impl Default for PlayerProfileData {
    fn default() -> (r: Self)
        ensures
            r@ == PlayerProfileData::spec_default(),
    {
        PlayerProfileData {
            user_name: default_user_name(),
            user_subtitle: None,
            user_prompt: None,
            info: None,
            system_prompt_example: None,
            avatar_path: None,
        }
    }
}

} // verus!

verus! {

/// The name of what an outside function returns: the YAML document that
/// `serde_yaml::to_string` writes for a string-to-string mapping with these entries.
pub uninterp spec fn yaml_document(entries: Seq<(Seq<char>, Seq<char>)>) -> Seq<char>;

#[verifier::external_type_specification]
#[verifier::external_body]
pub struct ExYamlError(serde_yaml::Error);

/// Whether no key occurs twice among the entries.
pub open spec fn distinct_keys(entries: Seq<(Seq<char>, Seq<char>)>) -> bool {
    forall|i: int, j: int|
        0 <= i < j < entries.len() ==> #[trigger] entries[i].0 != #[trigger] entries[j].0
}

/// Calls `serde_yaml::to_string` on the mapping from each entry's key to its value.
/// Claims that it succeeds and returns the document `yaml_document` names for
/// these entries. In serde_yaml's source a string-to-string map is written as
/// plain scalars into a `Vec`: none of its error paths (tags, nested enums,
/// emitter event-order errors, writer errors) is reached for such a map.
#[verifier::external_body]
fn yaml_string_map(entries: &Vec<(String, String)>) -> (r: Result<String, serde_yaml::Error>)
    requires
        distinct_keys(entries.deep_view()),
    ensures
        r is Ok,
        r matches Ok(y) ==> y@ == yaml_document(entries.deep_view()),
{
    let map: std::collections::BTreeMap<&str, &str> = entries.iter().map(
        |(k, v)| (k.as_str(), v.as_str()),
    ).collect();
    serde_yaml::to_string(&map)
}

/// The value of the first entry with key `key`.
pub open spec fn entry_value(entries: Seq<(Seq<char>, Seq<char>)>, key: Seq<char>) -> Option<
    Seq<char>,
>
    decreases entries.len(),
{
    if entries.len() == 0 {
        None
    } else if entries[0].0 == key {
        Some(entries[0].1)
    } else {
        entry_value(entries.drop_first(), key)
    }
}

/// The entry `(key, text)` when `o` is filled, nothing otherwise.
pub open spec fn filled_entry(key: Seq<char>, o: Option<Seq<char>>) -> Seq<(Seq<char>, Seq<char>)> {
    if filled(o) {
        seq![(key, o->0)]
    } else {
        Seq::<(Seq<char>, Seq<char>)>::empty()
    }
}

/// The keys written to the player file, in role-card terms: the player's
/// personality is stored under `system_prompt`; empty texts are left out.
pub open spec fn spec_profile_entries(p: PlayerProfileView) -> Seq<(Seq<char>, Seq<char>)> {
    seq![("user_name"@, p.user_name)] + filled_entry("user_subtitle"@, p.user_subtitle)
        + filled_entry("system_prompt"@, p.user_prompt) + filled_entry("info"@, p.info)
        + filled_entry("system_prompt_example"@, p.system_prompt_example)
}

/// The profile read back from a role-card-shaped settings file.
pub open spec fn spec_profile_from_settings(s: CharacterSettingsView) -> PlayerProfileView {
    PlayerProfileView {
        user_name: s.user_name,
        user_subtitle: s.user_subtitle,
        user_prompt: s.system_prompt,
        info: s.info,
        system_prompt_example: s.system_prompt_example,
        avatar_path: None,
    }
}

/// A legacy role card's player identity: its normalised name, when there is one,
/// with its normalised subtitle.
pub open spec fn spec_legacy_identity(s: CharacterSettingsView) -> Option<(Seq<char>, Option<Seq<char>>)> {
    match spec_normalize_legacy_text(s.user_name) {
        None => None,
        Some(name) => Some(
            (
                name,
                match s.user_subtitle {
                    Some(sub) => spec_normalize_legacy_text(sub),
                    None => None,
                },
            ),
        ),
    }
}

/// The profile that a migration from a legacy identity produces.
pub open spec fn spec_migrated_profile(found: Option<(Seq<char>, Option<Seq<char>>)>) -> PlayerProfileView {
    PlayerProfileView {
        user_name: match found {
            Some(f) => f.0,
            None => spec_default_user_name(),
        },
        user_subtitle: match found {
            Some(f) => f.1,
            None => None,
        },
        user_prompt: None,
        info: None,
        system_prompt_example: None,
        avatar_path: None,
    }
}

/// Errors of writing the player file.
#[derive(Debug)]
pub enum ProfileStoreError {
    /// `serde_yaml` could not serialise the profile.
    Serialize(serde_yaml::Error),
}

fn push_filled_entry(entries: &mut Vec<(String, String)>, key: &str, o: &Option<String>)
    ensures
        final(entries).deep_view() == old(entries).deep_view() + filled_entry(key@, o.deep_view()),
{
    match o {
        Some(s) => {
            if s.unicode_len() > 0 {
                entries.push((String::from_str(key), s.clone()));
                assert(final(entries).deep_view() =~= old(entries).deep_view() + filled_entry(
                    key@,
                    o.deep_view(),
                ));
            } else {
                assert(old(entries).deep_view() + filled_entry(key@, o.deep_view())
                    =~= old(entries).deep_view());
            }
        },
        None => {
            assert(old(entries).deep_view() + filled_entry(key@, o.deep_view())
                =~= old(entries).deep_view());
        },
    }
}

/// The player profile repository: one `player/` directory holding a
/// `settings.yml` and an avatar image, shaped like a role card.
pub struct PlayerProfileRepo;

impl PlayerProfileRepo {
    /// The player directory, as path segments below the data directory:
    /// `game_data/player`, beside `characters/`.
    pub fn player_dir() -> (r: Vec<String>)
        ensures
            r.deep_view() == seq!["game_data"@, "player"@],
    {
        let mut r = Vec::new();
        r.push(String::from_str("game_data"));
        r.push(String::from_str("player"));
        assert(r.deep_view() =~= seq!["game_data"@, "player"@]);
        r
    }

    /// The player's `settings.yml`, as path segments below the data directory.
    pub fn settings_path() -> (r: Vec<String>)
        ensures
            r.deep_view() == seq!["game_data"@, "player"@, "settings.yml"@],
    {
        let mut r = Self::player_dir();
        let ghost before = r.deep_view();
        r.push(String::from_str("settings.yml"));
        assert(r.deep_view() =~= before.push("settings.yml"@));
        assert(r.deep_view() =~= seq!["game_data"@, "player"@, "settings.yml"@]);
        r
    }

    /// The profile held by an existing player file.
    pub fn profile_from_settings(settings: &CharacterSettings) -> (r: PlayerProfileData)
        ensures
            r@ == spec_profile_from_settings(settings@),
    {
        PlayerProfileData {
            user_name: settings.user_name.clone(),
            user_subtitle: clone_opt(&settings.user_subtitle),
            user_prompt: clone_opt(&settings.system_prompt),
            info: clone_opt(&settings.info),
            system_prompt_example: clone_opt(&settings.system_prompt_example),
            avatar_path: None,
        }
    }

    /// The player fields that an old AI role card can hand over: its name and
    /// subtitle, with blank text and the serde placeholder filtered out. The
    /// card's `system_prompt` is the AI's persona and is never taken.
    pub fn extract_legacy_profile_fields(settings: &CharacterSettings) -> (r: Option<
        (String, Option<String>),
    >)
        ensures
            r.deep_view() == spec_legacy_identity(settings@),
            trim(settings@.user_name) == "user_name未设定"@ ==> r is None,
            trim(settings@.user_name).len() == 0 ==> r is None,
            trim(settings@.user_name).len() > 0 && trim(settings@.user_name) != "user_name未设定"@
                ==> (r.deep_view() matches Some(f) && f.0 == trim(settings@.user_name)),
    {
        let user_name = match normalize_legacy_text(settings.user_name.as_str()) {
            Some(n) => n,
            None => return None,
        };
        let user_subtitle = match &settings.user_subtitle {
            Some(s) => normalize_legacy_text(s.as_str()),
            None => None,
        };
        Some((user_name, user_subtitle))
    }

    /// The profile created when no player file exists yet: the identity found on a
    /// legacy role card, or the default name.
    pub fn migrated_profile(found: Option<(String, Option<String>)>) -> (r: PlayerProfileData)
        ensures
            r@ == spec_migrated_profile(found.deep_view()),
    {
        let (user_name, user_subtitle) = match found {
            Some((name, subtitle)) => (name, subtitle),
            None => (default_user_name(), None),
        };
        PlayerProfileData {
            user_name,
            user_subtitle,
            user_prompt: None,
            info: None,
            system_prompt_example: None,
            avatar_path: None,
        }
    }

    /// The key/value pairs that the player file holds for `profile`.
    pub fn profile_entries(profile: &PlayerProfileData) -> (r: Vec<(String, String)>)
        ensures
            r.deep_view() == spec_profile_entries(profile@),
    {
        let mut entries: Vec<(String, String)> = Vec::new();
        entries.push((String::from_str("user_name"), profile.user_name.clone()));
        assert(entries.deep_view() =~= seq![("user_name"@, profile.user_name@)]);
        push_filled_entry(&mut entries, "user_subtitle", &profile.user_subtitle);
        push_filled_entry(&mut entries, "system_prompt", &profile.user_prompt);
        push_filled_entry(&mut entries, "info", &profile.info);
        push_filled_entry(&mut entries, "system_prompt_example", &profile.system_prompt_example);
        entries
    }

    /// The YAML text of the player file for `profile`.
    pub fn render_profile_yaml(profile: &PlayerProfileData) -> (r: Result<
        String,
        ProfileStoreError,
    >)
        ensures
            r is Ok,
            r matches Ok(y) ==> y@ == yaml_document(spec_profile_entries(profile@)),
    {
        let entries = Self::profile_entries(profile);
        proof {
            lemma_profile_entries_distinct(profile@);
        }
        match yaml_string_map(&entries) {
            Ok(y) => Ok(y),
            Err(e) => Err(ProfileStoreError::Serialize(e)),
        }
    }
}

proof fn lemma_profile_entries_distinct(p: PlayerProfileView)
    ensures
        distinct_keys(spec_profile_entries(p)),
{
    reveal_strlit("user_name");
    reveal_strlit("user_subtitle");
    reveal_strlit("system_prompt");
    reveal_strlit("info");
    reveal_strlit("system_prompt_example");
    let e = spec_profile_entries(p);
    assert forall|i: int, j: int| 0 <= i < j < e.len() implies #[trigger] e[i].0
        != #[trigger] e[j].0 by {
        let ki = e[i].0;
        let kj = e[j].0;
        assert(ki.len() != kj.len() || ki[0] != kj[0] || ki[5] != kj[5] || ki != kj);
    }
}

} // verus!

verus! {

/// A settings file that holds exactly these entries, as the role-card reader sees it.
pub open spec fn settings_from_entries(e: Seq<(Seq<char>, Seq<char>)>) -> CharacterSettingsView {
    CharacterSettingsView {
        user_name: match entry_value(e, "user_name"@) {
            Some(v) => v,
            None => spec_unset_user_name(),
        },
        user_subtitle: entry_value(e, "user_subtitle"@),
        system_prompt: entry_value(e, "system_prompt"@),
        info: entry_value(e, "info"@),
        system_prompt_example: entry_value(e, "system_prompt_example"@),
    }
}

/// `o` when it is filled, nothing otherwise.
pub open spec fn keep_filled(o: Option<Seq<char>>) -> Option<Seq<char>> {
    if filled(o) {
        o
    } else {
        None
    }
}

proof fn lemma_entry_value_append(
    a: Seq<(Seq<char>, Seq<char>)>,
    b: Seq<(Seq<char>, Seq<char>)>,
    key: Seq<char>,
)
    ensures
        entry_value(a + b, key) == match entry_value(a, key) {
            Some(v) => Some(v),
            None => entry_value(b, key),
        },
    decreases a.len(),
{
    if a.len() > 0 {
        assert((a + b).drop_first() =~= a.drop_first() + b);
        lemma_entry_value_append(a.drop_first(), b, key);
    } else {
        assert(a + b =~= b);
    }
}

proof fn lemma_entry_value_filled(key: Seq<char>, o: Option<Seq<char>>, k: Seq<char>)
    ensures
        entry_value(filled_entry(key, o), k) == if k == key {
            keep_filled(o)
        } else {
            None
        },
{
    reveal_with_fuel(entry_value, 2);
    let e = filled_entry(key, o);
    if filled(o) {
        assert(e.drop_first() =~= Seq::<(Seq<char>, Seq<char>)>::empty());
    }
}

proof fn lemma_entry_value_single(key: Seq<char>, v: Seq<char>, k: Seq<char>)
    ensures
        entry_value(seq![(key, v)], k) == if k == key {
            Some(v)
        } else {
            None
        },
{
    reveal_with_fuel(entry_value, 2);
    assert(seq![(key, v)].drop_first() =~= Seq::<(Seq<char>, Seq<char>)>::empty());
}

proof fn lemma_entry_value_five(
    a: Seq<(Seq<char>, Seq<char>)>,
    b: Seq<(Seq<char>, Seq<char>)>,
    c: Seq<(Seq<char>, Seq<char>)>,
    d: Seq<(Seq<char>, Seq<char>)>,
    f: Seq<(Seq<char>, Seq<char>)>,
    k: Seq<char>,
)
    ensures
        entry_value(a + b + c + d + f, k) == match entry_value(a, k) {
            Some(v) => Some(v),
            None => match entry_value(b, k) {
                Some(v) => Some(v),
                None => match entry_value(c, k) {
                    Some(v) => Some(v),
                    None => match entry_value(d, k) {
                        Some(v) => Some(v),
                        None => entry_value(f, k),
                    },
                },
            },
        },
{
    lemma_entry_value_append(a + b + c + d, f, k);
    lemma_entry_value_append(a + b + c, d, k);
    lemma_entry_value_append(a + b, c, k);
    lemma_entry_value_append(a, b, k);
}

/// Reading back what is written: the entries written for a profile, read as a
/// settings file, give the profile again with its empty optional texts dropped
/// and no avatar path (the avatar is found by file name, not stored).
pub proof fn lemma_profile_file_round_trip(p: PlayerProfileView)
    ensures
        spec_profile_from_settings(settings_from_entries(spec_profile_entries(p)))
            == (PlayerProfileView {
            user_name: p.user_name,
            user_subtitle: keep_filled(p.user_subtitle),
            user_prompt: keep_filled(p.user_prompt),
            info: keep_filled(p.info),
            system_prompt_example: keep_filled(p.system_prompt_example),
            avatar_path: None,
        }),
{
    reveal_strlit("user_name");
    reveal_strlit("user_subtitle");
    reveal_strlit("system_prompt");
    reveal_strlit("info");
    reveal_strlit("system_prompt_example");
    let k0: Seq<char> = "user_name"@;
    let k1: Seq<char> = "user_subtitle"@;
    let k2: Seq<char> = "system_prompt"@;
    let k3: Seq<char> = "info"@;
    let k4: Seq<char> = "system_prompt_example"@;
    let a: Seq<(Seq<char>, Seq<char>)> = seq![(k0, p.user_name)];
    let b = filled_entry(k1, p.user_subtitle);
    let c = filled_entry(k2, p.user_prompt);
    let d = filled_entry(k3, p.info);
    let f = filled_entry(k4, p.system_prompt_example);
    let e = spec_profile_entries(p);
    assert(e == a + b + c + d + f);
    assert(k0 != k1 && k0 != k2 && k0 != k3 && k0 != k4) by {
        assert(k0.len() != k1.len() && k0.len() != k2.len() && k0.len() != k3.len() && k0.len()
            != k4.len());
    }
    assert(k1 != k2 && k1 != k3 && k1 != k4) by {
        assert(k1[0] != k2[1] || k1.len() != k2.len());
        assert(k1.len() != k3.len() && k1.len() != k4.len());
    }
    assert(k2 != k3 && k2 != k4) by {
        assert(k2.len() != k3.len() && k2.len() != k4.len());
    }
    assert(k3 != k4) by {
        assert(k3.len() != k4.len());
    }
    lemma_entry_value_five(a, b, c, d, f, k0);
    lemma_entry_value_five(a, b, c, d, f, k1);
    lemma_entry_value_five(a, b, c, d, f, k2);
    lemma_entry_value_five(a, b, c, d, f, k3);
    lemma_entry_value_five(a, b, c, d, f, k4);
    lemma_entry_value_single(k0, p.user_name, k0);
    lemma_entry_value_filled(k1, p.user_subtitle, k0);
    lemma_entry_value_filled(k2, p.user_prompt, k0);
    lemma_entry_value_filled(k3, p.info, k0);
    lemma_entry_value_filled(k4, p.system_prompt_example, k0);
    lemma_entry_value_single(k0, p.user_name, k1);
    lemma_entry_value_filled(k1, p.user_subtitle, k1);
    lemma_entry_value_filled(k2, p.user_prompt, k1);
    lemma_entry_value_filled(k3, p.info, k1);
    lemma_entry_value_filled(k4, p.system_prompt_example, k1);
    lemma_entry_value_single(k0, p.user_name, k2);
    lemma_entry_value_filled(k1, p.user_subtitle, k2);
    lemma_entry_value_filled(k2, p.user_prompt, k2);
    lemma_entry_value_filled(k3, p.info, k2);
    lemma_entry_value_filled(k4, p.system_prompt_example, k2);
    lemma_entry_value_single(k0, p.user_name, k3);
    lemma_entry_value_filled(k1, p.user_subtitle, k3);
    lemma_entry_value_filled(k2, p.user_prompt, k3);
    lemma_entry_value_filled(k3, p.info, k3);
    lemma_entry_value_filled(k4, p.system_prompt_example, k3);
    lemma_entry_value_single(k0, p.user_name, k4);
    lemma_entry_value_filled(k1, p.user_subtitle, k4);
    lemma_entry_value_filled(k2, p.user_prompt, k4);
    lemma_entry_value_filled(k3, p.info, k4);
    lemma_entry_value_filled(k4, p.system_prompt_example, k4);
}

/// A role card whose player name was never set (it holds the placeholder
/// `user_name未设定`, blanks around it aside) hands nothing over: the migrated
/// player keeps the default name `玩家` and no subtitle, whatever else the
/// card holds.
pub proof fn lemma_unset_name_is_never_migrated(card: CharacterSettingsView)
    requires
        trim(card.user_name) == "user_name未设定"@,
    ensures
        spec_legacy_identity(card) is None,
        spec_migrated_profile(spec_legacy_identity(card)).user_name == "玩家"@,
        spec_migrated_profile(spec_legacy_identity(card)).user_subtitle is None,
{
    reveal_strlit("玩家");
}

/// A role card with a real player name hands over exactly that name, trimmed.
pub proof fn lemma_set_name_is_migrated(card: CharacterSettingsView)
    requires
        trim(card.user_name).len() > 0,
        trim(card.user_name) != "user_name未设定"@,
    ensures
        spec_legacy_identity(card) is Some,
        spec_migrated_profile(spec_legacy_identity(card)).user_name == trim(card.user_name),
{
}

/// A migration never takes the AI persona of a legacy role card (its
/// `system_prompt`) as the player's personality: only the name and subtitle
/// move over.
pub proof fn lemma_migration_never_takes_ai_persona(card: CharacterSettingsView)
    ensures
        spec_migrated_profile(spec_legacy_identity(card)).user_prompt is None,
        spec_migrated_profile(spec_legacy_identity(card)).info is None,
        spec_migrated_profile(spec_legacy_identity(card)).system_prompt_example is None,
{
}

} // verus!
