//! Add-on install parameters: two input shapes that converge on one canonical form.
use vstd::prelude::*;
use crate::decode::{
    check_keys_within, keys_within, optional_bool, read_optional_bool, read_required_text,
    required_text, DecodeError,
};
use crate::json::{member, JsonValue};

verus! {

/// Body of the add-on install command, in canonical form.
#[derive(Clone, Debug, PartialEq)]
pub struct AddonInstallParameters {
    pub path: String,
    pub temporary: Option<bool>,
}

impl View for AddonInstallParameters {
    type V = (Seq<char>, Option<bool>);

    open spec fn view(&self) -> (Seq<char>, Option<bool>) {
        (self.path@, self.temporary)
    }
}

/// Which input shape an install body has, with what it holds.
#[derive(Debug)]
pub enum AddonInput {
    /// `{"path": ..., "temporary"?: ...}`
    Path { path: String, temporary: Option<bool> },
    /// `{"addon": <base64>, "temporary"?: ...}`
    Inline { addon: String, temporary: Option<bool> },
}

/// The shape of an install body, over plain values.
pub enum AddonInputModel {
    Path(Seq<char>, Option<bool>),
    Inline(Seq<char>, Option<bool>),
}

impl View for AddonInput {
    type V = AddonInputModel;

    open spec fn view(&self) -> AddonInputModel {
        match self {
            AddonInput::Path { path, temporary } => AddonInputModel::Path(path@, *temporary),
            AddonInput::Inline { addon, temporary } => AddonInputModel::Inline(addon@, *temporary),
        }
    }
}

/// The shape that an install body matches. Each shape rejects members
/// outside its own; a body that matches neither shape (also one that names
/// both `path` and `addon`) has none.
pub open spec fn addon_input_of(j: JsonValue) -> Option<AddonInputModel> {
    match j {
        JsonValue::Object(f) => {
            let t = optional_bool(f@, "temporary"@);
            if keys_within(f@, "addon"@, "temporary"@) && required_text(f@, "addon"@) is Some
                && t is Some {
                Some(AddonInputModel::Inline(required_text(f@, "addon"@)->Some_0, t->Some_0))
            } else if keys_within(f@, "path"@, "temporary"@) && required_text(f@, "path"@) is Some
                && t is Some {
                Some(AddonInputModel::Path(required_text(f@, "path"@)->Some_0, t->Some_0))
            } else {
                None
            }
        },
        _ => None,
    }
}

/// The value is exactly `{"path": <path>, "temporary": <bool or null>}`.
pub open spec fn is_addon_json(j: JsonValue, a: (Seq<char>, Option<bool>)) -> bool {
    &&& j matches JsonValue::Object(f) && f@.len() == 2 && f@[0].0@ == "path"@
        && f@[1].0@ == "temporary"@ && (f@[0].1 matches JsonValue::Text(p) && p@ == a.0)
        && f@[1].1 == match a.1 {
            Some(b) => JsonValue::Bool(b),
            None => JsonValue::Null,
        }
}

/// The bytes that a base64 text (standard alphabet, padding optional) encodes, or
/// `None` where the text is not valid base64.
pub uninterp spec fn base64_decoded(text: Seq<char>) -> Option<Seq<u8>>;

/// Relies on `base64::decode` (standard configuration): the bytes that the
/// text encodes, or an error where it is not valid base64. The outcome
/// depends on the text alone.
#[verifier::external_body]
fn decode_base64(text: &String) -> (r: Result<Vec<u8>, String>)
    ensures
        match r {
            Ok(b) => base64_decoded(text@) == Some(b@),
            Err(_) => base64_decoded(text@) is None,
        },
{
    match base64::decode(text) {
        Ok(b) => Ok(b),
        Err(e) => Err(e.to_string()),
    }
}

/// The name of the file that an inline add-on is staged in: `addon-<id>.xpi`.
pub open spec fn addon_file_name_of(id: Seq<char>) -> Seq<char> {
    "addon-"@ + id + ".xpi"@
}

/// An add-on sent inline, decoded and waiting to be written to a file
/// (named by `addon_file_name`).
#[derive(Debug)]
pub struct InlineAddon {
    /// The package's bytes.
    pub content: Vec<u8>,
    pub temporary: Option<bool>,
}

/// A decoded install body: either ready, or an inline package still to be staged.
#[derive(Debug)]
pub enum AddonInstallSource {
    Ready(AddonInstallParameters),
    Inline(InlineAddon),
}

impl AddonInput {
    /// Decides which shape an install body has.
    pub fn from_json(j: &JsonValue) -> (r: Result<AddonInput, DecodeError>)
        ensures
            match r {
                Ok(i) => addon_input_of(*j) == Some(i@),
                Err(_) => addon_input_of(*j) is None,
            },
    {
        match j {
            JsonValue::Object(f) => {
                let temporary = read_optional_bool(f, "temporary")?;
                if check_keys_within(f, "addon", "temporary") {
                    if let Ok(addon) = read_required_text(f, "addon") {
                        return Ok(AddonInput::Inline { addon, temporary });
                    }
                }
                if check_keys_within(f, "path", "temporary") {
                    if let Ok(path) = read_required_text(f, "path") {
                        return Ok(AddonInput::Path { path, temporary });
                    }
                }
                Err(DecodeError::new("data did not match any install shape: expected `path` or `addon`"))
            },
            _ => Err(DecodeError::new("invalid type, expected an object")),
        }
    }
}

impl InlineAddon {
    /// Builds the inline add-on from what base64 decoding gave.
    pub fn from_decoded(
        decoded: Result<Vec<u8>, String>,
        temporary: Option<bool>,
    ) -> (r: Result<InlineAddon, DecodeError>)
        ensures
            match decoded {
                Ok(b) => r matches Ok(a) && a.content@ == b@ && a.temporary == temporary,
                Err(e) => r matches Err(d) && d.message@ == e@,
            },
    {
        match decoded {
            Ok(content) => Ok(InlineAddon { content, temporary }),
            Err(message) => Err(DecodeError { message }),
        }
    }
}

/// The file name for an add-on staged under the identifier `id`; a fresh
/// random identifier per install keeps concurrent installs apart.
pub fn addon_file_name(id: &str) -> (r: String)
    ensures
        r@ == addon_file_name_of(id@),
{
    String::from_str("addon-").concat(id).concat(".xpi")
}

impl AddonInstallParameters {
    /// Decodes an install body. A path is passed through; an inline package is
    /// decoded from base64, to be written to a file before the command is complete.
    pub fn from_json(j: &JsonValue) -> (r: Result<AddonInstallSource, DecodeError>)
        ensures
            match addon_input_of(*j) {
                None => r is Err,
                Some(AddonInputModel::Path(path, temporary)) => r matches Ok(
                    AddonInstallSource::Ready(p),
                ) && p@ == (path, temporary),
                Some(AddonInputModel::Inline(addon, temporary)) => match base64_decoded(addon) {
                    None => r is Err,
                    Some(bytes) => r matches Ok(AddonInstallSource::Inline(a)) && a.content@
                        == bytes && a.temporary == temporary,
                },
            },
    {
        match AddonInput::from_json(j)? {
            AddonInput::Path { path, temporary } => Ok(
                AddonInstallSource::Ready(AddonInstallParameters { path, temporary }),
            ),
            AddonInput::Inline { addon, temporary } => {
                let decoded = decode_base64(&addon);
                let inline = InlineAddon::from_decoded(decoded, temporary)?;
                Ok(AddonInstallSource::Inline(inline))
            },
        }
    }

    /// The canonical parameters once an inline package has been written to `path`.
    pub fn staged(path: String, inline: &InlineAddon) -> (r: AddonInstallParameters)
        ensures
            r@ == (path@, inline.temporary),
    {
        AddonInstallParameters { path, temporary: inline.temporary }
    }

    /// The body that decodes back to these parameters: `{"path": ..., "temporary": ...}`,
    /// with `null` for an absent `temporary`.
    pub fn to_json(&self) -> (r: JsonValue)
        ensures
            is_addon_json(r, self@),
            addon_input_of(r) == Some(AddonInputModel::Path(self.path@, self.temporary)),
    {
        let mut f: Vec<(String, JsonValue)> = Vec::new();
        f.push((String::from_str("path"), JsonValue::Text(self.path.clone())));
        let t = match self.temporary {
            Some(b) => JsonValue::Bool(b),
            None => JsonValue::Null,
        };
        f.push((String::from_str("temporary"), t));
        proof {
            reveal_strlit("path");
            reveal_strlit("temporary");
            reveal_strlit("addon");
            assert("path"@.len() != "temporary"@.len());
            assert("path"@ != "addon"@);
            assert("temporary"@ != "addon"@);
            assert(f@.drop_first()[0] == f@[1]);
            assert(f@.drop_first().drop_first().len() == 0);
            assert(member(f@.drop_first(), "temporary"@) == Some(f@[1].1));
            assert(member(f@.drop_first().drop_first(), "addon"@) is None);
            assert(member(f@.drop_first(), "addon"@) is None);
            assert(member(f@, "addon"@) is None);
            assert(!keys_within(f@, "addon"@, "temporary"@)) by {
                assert(f@[0].0@ == "path"@);
            }
        }
        JsonValue::Object(f)
    }
}

} // verus!

verus! {

/// A body that names both `path` and `addon` matches no shape, whatever else it holds.
pub proof fn lemma_path_and_addon_rejected(j: JsonValue)
    requires
        j matches JsonValue::Object(f) && member(f@, "path"@) is Some && member(f@, "addon"@) is Some,
    ensures
        addon_input_of(j) is None,
{
    reveal_strlit("path");
    reveal_strlit("addon");
    reveal_strlit("temporary");
    let f = j->Object_0@;
    let i = crate::json::lemma_member_index(f, "path"@);
    let k = crate::json::lemma_member_index(f, "addon"@);
    assert("path"@.len() != "addon"@.len() && "path"@.len() != "temporary"@.len());
    assert("addon"@.len() != "temporary"@.len());
    assert(!keys_within(f, "addon"@, "temporary"@)) by {
        assert(f[i].0@ == "path"@);
    }
    assert(!keys_within(f, "path"@, "temporary"@)) by {
        assert(f[k].0@ == "addon"@);
    }
}

/// A body that names neither `path` nor `addon` matches no shape.
pub proof fn lemma_neither_path_nor_addon_rejected(j: JsonValue)
    requires
        j matches JsonValue::Object(f) && member(f@, "path"@) is None && member(f@, "addon"@) is None,
    ensures
        addon_input_of(j) is None,
{
}

/// `{"addon": B}` with valid base64 `B` is the inline shape with `B` and no
/// `temporary`; its decoding then holds exactly the bytes that `B` encodes.
pub proof fn lemma_inline_addon_accepted(j: JsonValue)
    requires
        j matches JsonValue::Object(f) && f@.len() == 1 && f@[0].0@ == "addon"@
            && f@[0].1 is Text && base64_decoded(f@[0].1->Text_0@) is Some,
    ensures
        addon_input_of(j) == Some(AddonInputModel::Inline(j->Object_0@[0].1->Text_0@, None)),
{
    reveal_strlit("addon");
    reveal_strlit("temporary");
    assert("addon"@.len() != "temporary"@.len());
    let f = j->Object_0@;
    crate::json::lemma_single_member(f, "temporary"@);
    assert(keys_within(f, "addon"@, "temporary"@));
}

} // verus!
