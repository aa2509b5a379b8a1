use base64::Engine;
use vstd::prelude::*;

use super::profile::PlayerProfileRepo;
use crate::text::{has_prefix, starts_with, str_eq, trim_start_char, trim_start_matches_char};

verus! {

/// The position of the first `c` in `s`, if any.
pub open spec fn first_index_of(s: Seq<char>, c: char) -> Option<int> {
    if exists|i: int| 0 <= i < s.len() && s[i] == c {
        Some(choose|i: int| 0 <= i < s.len() && s[i] == c && forall|j: int| 0 <= j < i ==> s[j] != c)
    } else {
        None
    }
}

/// The base64 payload of an image text: what follows the first comma when the
/// text before it begins with `data:` (a data URL), the whole text otherwise.
pub open spec fn spec_avatar_payload(s: Seq<char>) -> Seq<char> {
    match first_index_of(s, ',') {
        Some(k) => if has_prefix(s.subrange(0, k), "data:"@) {
            s.subrange(k + 1, s.len() as int)
        } else {
            s
        },
        None => s,
    }
}

/// Strips a data-URL prefix such as `data:image/png;base64,` from an image text.
pub fn avatar_payload(image_base64: &str) -> (r: String)
    ensures
        r@ == spec_avatar_payload(image_base64@),
{
    let n = image_base64.unicode_len();
    let mut comma: Option<usize> = None;
    let mut i: usize = 0;
    for c in it: image_base64.chars()
        invariant
            it.seq() == image_base64@,
            i == it.index(),
            n == image_base64@.len(),
            comma is None ==> forall|j: int| 0 <= j < i ==> #[trigger] image_base64@[j] != ',',
            comma matches Some(k) ==> k < i && image_base64@[k as int] == ',' && forall|j: int|
                0 <= j < k ==> #[trigger] image_base64@[j] != ',',
    {
        assert(i < n);
        if comma.is_none() && c == ',' {
            comma = Some(i);
        }
        i = i + 1;
    }
    let ghost s = image_base64@;
    match comma {
        None => {
            assert(!exists|i: int| 0 <= i < s.len() && s[i] == ',');
            String::from_str(image_base64)
        },
        Some(k) => {
            proof {
                let w = choose|i: int|
                    0 <= i < s.len() && s[i] == ',' && forall|j: int| 0 <= j < i ==> s[j] != ',';
                assert(0 <= k < s.len() && s[k as int] == ',' && forall|j: int|
                    0 <= j < k ==> s[j] != ',');
                if w < k {
                    assert(s[w] != ',');
                }
                if k < w {
                    assert(s[k as int] != ',');
                }
                assert(first_index_of(s, ',') == Some(k as int));
            }
            let prefix = image_base64.substring_char(0, k);
            proof {
                reveal_strlit("data:");
            }
            if starts_with(prefix, "data:") {
                String::from_str(image_base64.substring_char(k + 1, n))
            } else {
                String::from_str(image_base64)
            }
        },
    }
}

/// The name of what an outside function returns: what base64's standard engine
/// (`base64::engine::general_purpose::STANDARD`) reports for the UTF-8 text with
/// these characters: the decoded bytes, or the display text of its decode error.
pub uninterp spec fn base64_standard_decode(text: Seq<char>) -> Result<Seq<u8>, Seq<char>>;

/// Calls `Engine::decode` of `base64::engine::general_purpose::STANDARD` on the
/// text's bytes; an error is converted to its `Display` text. Claims that the
/// result is the one `base64_standard_decode` names for the text.
#[verifier::external_body]
fn decode_standard_base64(text: &str) -> (r: Result<Vec<u8>, String>)
    ensures
        match r {
            Ok(v) => base64_standard_decode(text@) == Ok::<Seq<u8>, Seq<char>>(v@),
            Err(m) => base64_standard_decode(text@) == Err::<Seq<u8>, Seq<char>>(m@),
        },
{
    match base64::engine::general_purpose::STANDARD.decode(text) {
        Ok(v) => Ok(v),
        Err(e) => Err(e.to_string()),
    }
}

/// The name of what a std function returns: `str::to_lowercase` of the text
/// with these characters (Unicode lowercase mapping).
pub uninterp spec fn unicode_lowercase(s: Seq<char>) -> Seq<char>;

/// Calls `str::to_lowercase`. Claims that the result is the one
/// `unicode_lowercase` names for the text.
#[verifier::external_body]
fn to_lowercase(s: &str) -> (r: String)
    ensures
        r@ == unicode_lowercase(s@),
{
    s.to_lowercase()
}

/// The image extensions accepted for the avatar.
pub open spec fn allowed_avatar_ext(e: Seq<char>) -> bool {
    ||| e == "png"@
    ||| e == "jpg"@
    ||| e == "jpeg"@
    ||| e == "webp"@
    ||| e == "gif"@
    ||| e == "bmp"@
}

/// The extension that the avatar is saved under, from the given extension
/// already stripped of leading dots and lowercased: `png` when that is empty;
/// refused unless it is one of png, jpg, jpeg, webp, gif and bmp.
pub open spec fn spec_checked_avatar_ext(given: Seq<char>) -> Result<Seq<char>, Seq<char>> {
    let e = if given.len() > 0 {
        given
    } else {
        "png"@
    };
    if allowed_avatar_ext(e) {
        Ok(e)
    } else {
        Err("头像格式不支持: ."@ + e + "，仅支持 png/jpg/jpeg/webp/gif/bmp"@)
    }
}

/// The extension that the avatar is saved under: the given one without leading
/// dots and lowercased, `png` when none or an empty one is given; refused unless
/// it is one of png, jpg, jpeg, webp, gif and bmp.
pub open spec fn spec_avatar_ext(ext: Option<Seq<char>>) -> Result<Seq<char>, Seq<char>> {
    spec_checked_avatar_ext(
        match ext {
            Some(s) => unicode_lowercase(trim_start_char(s, '.')),
            None => Seq::<char>::empty(),
        },
    )
}

fn is_allowed_avatar_ext(e: &str) -> (b: bool)
    ensures
        b == allowed_avatar_ext(e@),
{
    str_eq(e, "png") || str_eq(e, "jpg") || str_eq(e, "jpeg") || str_eq(e, "webp") || str_eq(
        e,
        "gif",
    ) || str_eq(e, "bmp")
}

/// Normalises and checks the avatar extension, as `save_player_avatar` does.
pub fn avatar_ext(ext: Option<String>) -> (r: Result<String, String>)
    ensures
        match r {
            Ok(e) => spec_avatar_ext(ext.deep_view()) == Ok::<Seq<char>, Seq<char>>(e@),
            Err(m) => spec_avatar_ext(ext.deep_view()) == Err::<Seq<char>, Seq<char>>(m@),
        },
{
    let given = match &ext {
        Some(s) => {
            let stripped = trim_start_matches_char(s.as_str(), '.');
            to_lowercase(stripped.as_str())
        },
        None => String::new(),
    };
    checked_avatar_ext(given)
}

/// Checks an extension that is already stripped of leading dots and
/// lowercased: the empty one becomes `png`, and only png, jpg, jpeg, webp, gif
/// and bmp are accepted.
pub fn checked_avatar_ext(given: String) -> (r: Result<String, String>)
    ensures
        match r {
            Ok(e) => spec_checked_avatar_ext(given@) == Ok::<Seq<char>, Seq<char>>(e@),
            Err(m) => spec_checked_avatar_ext(given@) == Err::<Seq<char>, Seq<char>>(m@),
        },
        given@ == "png"@ || given@ == "jpg"@ || given@ == "jpeg"@ || given@ == "webp"@ || given@
            == "gif"@ || given@ == "bmp"@ ==> (r matches Ok(e) && e@ == given@),
        given@.len() == 0 ==> (r matches Ok(e) && e@ == "png"@),
        r matches Ok(e) ==> (e@ == "png"@ || e@ == "jpg"@ || e@ == "jpeg"@ || e@ == "webp"@ || e@
            == "gif"@ || e@ == "bmp"@),
{
    proof {
        lemma_extension_list_is_not_empty();
    }
    let e = if given.unicode_len() > 0 {
        given
    } else {
        String::from_str("png")
    };
    if is_allowed_avatar_ext(e.as_str()) {
        Ok(e)
    } else {
        let mut m = String::from_str("头像格式不支持: .");
        m.append(e.as_str());
        m.append("，仅支持 png/jpg/jpeg/webp/gif/bmp");
        Err(m)
    }
}

proof fn lemma_extension_list_is_not_empty()
    ensures
        "png"@.len() > 0,
        "jpg"@.len() > 0,
        "jpeg"@.len() > 0,
        "webp"@.len() > 0,
        "gif"@.len() > 0,
        "bmp"@.len() > 0,
{
    reveal_strlit("png");
    reveal_strlit("jpg");
    reveal_strlit("jpeg");
    reveal_strlit("webp");
    reveal_strlit("gif");
    reveal_strlit("bmp");
}

/// Each of png, jpg, jpeg, webp, gif and bmp is accepted as it is, and the
/// empty extension becomes png.
pub proof fn lemma_listed_extensions_are_accepted(e: Seq<char>)
    ensures
        e == "png"@ || e == "jpg"@ || e == "jpeg"@ || e == "webp"@ || e == "gif"@ || e == "bmp"@
            ==> spec_checked_avatar_ext(e) == Ok::<Seq<char>, Seq<char>>(e),
        e.len() == 0 ==> spec_checked_avatar_ext(e) == Ok::<Seq<char>, Seq<char>>("png"@),
{
    lemma_extension_list_is_not_empty();
}

/// Whatever is accepted is one of png, jpg, jpeg, webp, gif and bmp.
pub proof fn lemma_accepted_extension_is_listed(e: Seq<char>)
    ensures
        spec_checked_avatar_ext(e) matches Ok(x) ==> (x == "png"@ || x == "jpg"@ || x == "jpeg"@
            || x == "webp"@ || x == "gif"@ || x == "bmp"@),
{
}

/// The largest decoded avatar accepted, in bytes: 10 MiB.
pub open spec fn max_avatar_bytes() -> nat {
    10 * 1024 * 1024
}

/// After decoding: the extension's refusal, then the 10 MiB limit.
pub open spec fn spec_accept_decoded_avatar(data: Seq<u8>, ext: Result<Seq<char>, Seq<char>>) -> Result<
    (Seq<u8>, Seq<char>),
    Seq<char>,
> {
    match ext {
        Err(m) => Err(m),
        Ok(e) => if data.len() > max_avatar_bytes() {
            Err("头像图片过大，解码后不能超过 10MB"@)
        } else {
            Ok((data, e))
        },
    }
}

/// What follows a successful decode: the extension's refusal, if any, then
/// the 10 MiB limit on the decoded bytes; otherwise the bytes and extension.
pub fn accept_decoded_avatar(data: Vec<u8>, ext: Result<String, String>) -> (r: Result<
    (Vec<u8>, String),
    String,
>)
    ensures
        match spec_accept_decoded_avatar(
            data@,
            match ext {
                Ok(e) => Ok::<Seq<char>, Seq<char>>(e@),
                Err(m) => Err::<Seq<char>, Seq<char>>(m@),
            },
        ) {
            Ok((d, e)) => r matches Ok((x, y)) && x@ == d && y@ == e,
            Err(msg) => r matches Err(m) && m@ == msg,
        },
{
    let ext = ext?;
    if data.len() > 10 * 1024 * 1024 {
        return Err(String::from_str("头像图片过大，解码后不能超过 10MB"));
    }
    Ok((data, ext))
}

/// What `save_player_avatar` hands to the file store for an image text and an
/// extension: the decoded bytes and the extension. Refused, in this order, when
/// the payload is not valid base64 (`解码图片数据失败: ` and base64's error
/// text), when the extension is not accepted, and when the decoded image
/// exceeds 10 MiB.
pub open spec fn spec_decode_player_avatar(image: Seq<char>, ext: Option<Seq<char>>) -> Result<
    (Seq<u8>, Seq<char>),
    Seq<char>,
> {
    match base64_standard_decode(spec_avatar_payload(image)) {
        Err(detail) => Err("解码图片数据失败: "@ + detail),
        Ok(data) => spec_accept_decoded_avatar(data, spec_avatar_ext(ext)),
    }
}

/// Decodes and checks an avatar upload (a base64 text, possibly a data URL) and
/// its extension, as `spec_decode_player_avatar` says.
pub fn decode_player_avatar(image_base64: &str, ext: Option<String>) -> (r: Result<
    (Vec<u8>, String),
    String,
>)
    ensures
        match spec_decode_player_avatar(image_base64@, ext.deep_view()) {
            Ok((data, e)) => r matches Ok((d, x)) && d@ == data && x@ == e,
            Err(msg) => r matches Err(m) && m@ == msg,
        },
{
    let payload = avatar_payload(image_base64);
    let data = match decode_standard_base64(payload.as_str()) {
        Ok(d) => d,
        Err(detail) => {
            let mut m = String::from_str("解码图片数据失败: ");
            m.append(detail.as_str());
            return Err(m);
        },
    };
    accept_decoded_avatar(data, avatar_ext(ext))
}

/// The extensions probed, in order, when looking for the avatar file.
pub open spec fn avatar_probe_exts() -> Seq<Seq<char>> {
    seq!["png"@, "jpg"@, "jpeg"@, "webp"@, "gif"@, "bmp"@]
}

/// The avatar file name for an extension: `头像.<ext>`, `头像.png` for an empty one.
pub open spec fn spec_avatar_file_name(ext: Seq<char>) -> Seq<char> {
    "头像."@ + if ext.len() == 0 {
        "png"@
    } else {
        ext
    }
}

impl PlayerProfileRepo {
    /// The file name that `save_avatar` writes the avatar under.
    pub fn avatar_file_name(ext: &str) -> (r: String)
        ensures
            r@ == spec_avatar_file_name(ext@),
    {
        let mut name = String::from_str("头像.");
        if ext.unicode_len() == 0 {
            name.append("png");
        } else {
            name.append(ext);
        }
        name
    }

    /// The avatar file names probed, in order, by `avatar_abs_path`.
    pub fn avatar_candidate_names() -> (r: Vec<String>)
        ensures
            r.deep_view() == avatar_probe_exts().map_values(|e: Seq<char>| spec_avatar_file_name(e)),
    {
        proof {
            reveal_strlit("png");
            reveal_strlit("jpg");
            reveal_strlit("jpeg");
            reveal_strlit("webp");
            reveal_strlit("gif");
            reveal_strlit("bmp");
        }
        let mut r: Vec<String> = Vec::new();
        r.push(Self::avatar_file_name("png"));
        r.push(Self::avatar_file_name("jpg"));
        r.push(Self::avatar_file_name("jpeg"));
        r.push(Self::avatar_file_name("webp"));
        r.push(Self::avatar_file_name("gif"));
        r.push(Self::avatar_file_name("bmp"));
        assert(r.deep_view() =~= avatar_probe_exts().map_values(
            |e: Seq<char>| spec_avatar_file_name(e),
        ));
        r
    }

    /// Whether a directory entry serves as the avatar when no probed name exists:
    /// its name begins with `头像` and its file type is known not to be a directory.
    pub fn is_avatar_fallback_entry(name: &str, is_dir: Option<bool>) -> (b: bool)
        ensures
            b == (has_prefix(name@, "头像"@) && is_dir == Some(false)),
    {
        starts_with(name, "头像") && match is_dir {
            Some(d) => !d,
            None => false,
        }
    }
}

} // verus!
