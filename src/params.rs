//! The payload types that carry no numbers: context, locator and add-on uninstall.
use vstd::prelude::*;
use crate::decode::{read_required_text, required_text, DecodeError};
use crate::json::{get_member, member, JsonValue};

verus! {

/// The browsing context that commands run in.
#[derive(Clone, Copy, Debug, PartialEq, Eq, Structural)]
pub enum GeckoContext {
    Content,
    Chrome,
}

/// Body of the set-context command.
#[derive(Clone, Copy, Debug, PartialEq, Eq, Structural)]
pub struct GeckoContextParameters {
    pub context: GeckoContext,
}

/// Body of the anonymous-content-by-attribute command.
#[derive(Clone, Debug, PartialEq)]
pub struct XblLocatorParameters {
    pub name: String,
    pub value: String,
}

/// Body of the add-on uninstall command.
#[derive(Clone, Debug, PartialEq)]
pub struct AddonUninstallParameters {
    pub id: String,
}

impl View for XblLocatorParameters {
    type V = (Seq<char>, Seq<char>);

    open spec fn view(&self) -> (Seq<char>, Seq<char>) {
        (self.name@, self.value@)
    }
}

impl View for AddonUninstallParameters {
    type V = Seq<char>;

    open spec fn view(&self) -> Seq<char> {
        self.id@
    }
}

/// The value is the JSON string `s`.
pub open spec fn is_text(j: JsonValue, s: Seq<char>) -> bool {
    j matches JsonValue::Text(t) && t@ == s
}

/// The wire token of a context.
pub open spec fn context_token(c: GeckoContext) -> Seq<char> {
    match c {
        GeckoContext::Content => "content"@,
        GeckoContext::Chrome => "chrome"@,
    }
}

/// The value is exactly `{"context": <token>}`.
pub open spec fn is_context_json(j: JsonValue, p: GeckoContextParameters) -> bool {
    j matches JsonValue::Object(f) && f@.len() == 1 && f@[0].0@ == "context"@ && is_text(
        f@[0].1,
        context_token(p.context),
    )
}

/// The value is exactly `{"name": <name>, "value": <value>}`.
pub open spec fn is_locator_json(j: JsonValue, l: (Seq<char>, Seq<char>)) -> bool {
    j matches JsonValue::Object(f) && f@.len() == 2 && f@[0].0@ == "name"@ && is_text(f@[0].1, l.0)
        && f@[1].0@ == "value"@ && is_text(f@[1].1, l.1)
}

/// The value is exactly `{"id": <id>}`.
pub open spec fn is_uninstall_json(j: JsonValue, id: Seq<char>) -> bool {
    j matches JsonValue::Object(f) && f@.len() == 1 && f@[0].0@ == "id"@ && is_text(f@[0].1, id)
}

/// The context named by a JSON value: `"content"` or `"chrome"`.
pub open spec fn gecko_context_of(j: JsonValue) -> Option<GeckoContext> {
    match j {
        JsonValue::Text(s) => if s@ == "content"@ {
            Some(GeckoContext::Content)
        } else if s@ == "chrome"@ {
            Some(GeckoContext::Chrome)
        } else {
            None
        },
        _ => None,
    }
}

/// What `{"context": ...}` decodes to; other members are ignored.
pub open spec fn gecko_context_parameters_of(j: JsonValue) -> Option<GeckoContextParameters> {
    match j {
        JsonValue::Object(f) => match member(f@, "context"@) {
            Some(c) => match gecko_context_of(c) {
                Some(context) => Some(GeckoContextParameters { context }),
                None => None,
            },
            None => None,
        },
        _ => None,
    }
}

/// What `{"name": ..., "value": ...}` decodes to; both are required strings.
pub open spec fn xbl_locator_of(j: JsonValue) -> Option<(Seq<char>, Seq<char>)> {
    match j {
        JsonValue::Object(f) => match (required_text(f@, "name"@), required_text(f@, "value"@)) {
            (Some(n), Some(v)) => Some((n, v)),
            _ => None,
        },
        _ => None,
    }
}

/// What `{"id": ...}` decodes to; the id is a required string.
pub open spec fn addon_uninstall_of(j: JsonValue) -> Option<Seq<char>> {
    match j {
        JsonValue::Object(f) => required_text(f@, "id"@),
        _ => None,
    }
}

/// A one-member object.
pub fn object_of_one(key: &str, v: JsonValue) -> (r: JsonValue)
    ensures
        r matches JsonValue::Object(f) && f@.len() == 1 && f@[0].0@ == key@ && f@[0].1 == v,
{
    let mut f: Vec<(String, JsonValue)> = Vec::new();
    f.push((String::from_str(key), v));
    JsonValue::Object(f)
}

impl GeckoContext {
    pub fn from_json(j: &JsonValue) -> (r: Result<GeckoContext, DecodeError>)
        ensures
            match r {
                Ok(c) => gecko_context_of(*j) == Some(c),
                Err(_) => gecko_context_of(*j) is None,
            },
    {
        match j {
            JsonValue::Text(s) => {
                if crate::json::key_is(s, "content") {
                    Ok(GeckoContext::Content)
                } else if crate::json::key_is(s, "chrome") {
                    Ok(GeckoContext::Chrome)
                } else {
                    Err(DecodeError::new("unknown variant, expected `content` or `chrome`"))
                }
            },
            _ => Err(DecodeError::new("invalid type, expected a string")),
        }
    }

    pub fn to_json(&self) -> (r: JsonValue)
        ensures
            is_text(r, context_token(*self)),
            gecko_context_of(r) == Some(*self),
    {
        proof {
            reveal_strlit("content");
            reveal_strlit("chrome");
            assert("content"@.len() != "chrome"@.len());
        }
        match self {
            GeckoContext::Content => JsonValue::Text(String::from_str("content")),
            GeckoContext::Chrome => JsonValue::Text(String::from_str("chrome")),
        }
    }
}

impl GeckoContextParameters {
    pub fn from_json(j: &JsonValue) -> (r: Result<GeckoContextParameters, DecodeError>)
        ensures
            match r {
                Ok(p) => gecko_context_parameters_of(*j) == Some(p),
                Err(_) => gecko_context_parameters_of(*j) is None,
            },
    {
        match j {
            JsonValue::Object(f) => match get_member(f, "context") {
                Some(c) => {
                    let context = GeckoContext::from_json(c)?;
                    Ok(GeckoContextParameters { context })
                },
                None => Err(DecodeError::new("missing field: context")),
            },
            _ => Err(DecodeError::new("invalid type, expected an object")),
        }
    }

    /// The body that decodes back to these parameters.
    pub fn to_json(&self) -> (r: JsonValue)
        ensures
            is_context_json(r, *self),
            gecko_context_parameters_of(r) == Some(*self),
    {
        let r = object_of_one("context", self.context.to_json());
        proof {
            let f = r->Object_0@;
            assert(member(f, "context"@) == Some(f[0].1));
        }
        r
    }
}

impl XblLocatorParameters {
    pub fn from_json(j: &JsonValue) -> (r: Result<XblLocatorParameters, DecodeError>)
        ensures
            match r {
                Ok(p) => xbl_locator_of(*j) == Some(p@),
                Err(_) => xbl_locator_of(*j) is None,
            },
    {
        match j {
            JsonValue::Object(f) => {
                let name = read_required_text(f, "name")?;
                let value = read_required_text(f, "value")?;
                Ok(XblLocatorParameters { name, value })
            },
            _ => Err(DecodeError::new("invalid type, expected an object")),
        }
    }

    /// The body that decodes back to this locator.
    pub fn to_json(&self) -> (r: JsonValue)
        ensures
            is_locator_json(r, self@),
            xbl_locator_of(r) == Some(self@),
    {
        let mut f: Vec<(String, JsonValue)> = Vec::new();
        f.push((String::from_str("name"), JsonValue::Text(self.name.clone())));
        f.push((String::from_str("value"), JsonValue::Text(self.value.clone())));
        proof {
            reveal_strlit("name");
            reveal_strlit("value");
            assert("name"@.len() != "value"@.len());
            assert(f@.drop_first()[0] == f@[1]);
            assert(member(f@.drop_first(), "value"@) == Some(f@[1].1));
        }
        JsonValue::Object(f)
    }
}

impl AddonUninstallParameters {
    pub fn from_json(j: &JsonValue) -> (r: Result<AddonUninstallParameters, DecodeError>)
        ensures
            match r {
                Ok(p) => addon_uninstall_of(*j) == Some(p@),
                Err(_) => addon_uninstall_of(*j) is None,
            },
    {
        match j {
            JsonValue::Object(f) => {
                let id = read_required_text(f, "id")?;
                Ok(AddonUninstallParameters { id })
            },
            _ => Err(DecodeError::new("invalid type, expected an object")),
        }
    }

    /// The body that decodes back to these parameters.
    pub fn to_json(&self) -> (r: JsonValue)
        ensures
            is_uninstall_json(r, self@),
            addon_uninstall_of(r) == Some(self@),
    {
        let r = object_of_one("id", JsonValue::Text(self.id.clone()));
        proof {
            let f = r->Object_0@;
            assert(member(f, "id"@) == Some(f[0].1));
        }
        r
    }
}

} // verus!

verus! {

/// `"content"` and `"chrome"` select their contexts; any other string,
/// another kind of value, or an absent `context` member fails.
pub proof fn lemma_context_tokens(j: JsonValue)
    requires
        j is Object,
    ensures
        ({
            let m = member(j->Object_0@, "context"@);
            &&& (m matches Some(JsonValue::Text(s)) && s@ == "content"@) ==> gecko_context_parameters_of(j)
                == Some(GeckoContextParameters { context: GeckoContext::Content })
            &&& (m matches Some(JsonValue::Text(s)) && s@ == "chrome"@) ==> gecko_context_parameters_of(j)
                == Some(GeckoContextParameters { context: GeckoContext::Chrome })
            &&& !(m matches Some(JsonValue::Text(s)) && (s@ == "content"@ || s@ == "chrome"@))
                ==> gecko_context_parameters_of(j) is None
        }),
{
    reveal_strlit("content");
    reveal_strlit("chrome");
    assert("content"@.len() != "chrome"@.len());
}

/// A locator needs both `name` and `value` as strings, and then holds them.
pub proof fn lemma_locator_members(j: JsonValue)
    requires
        j is Object,
    ensures
        ({
            let f = j->Object_0@;
            &&& member(f, "name"@) is None ==> xbl_locator_of(j) is None
            &&& member(f, "value"@) is None ==> xbl_locator_of(j) is None
            &&& (required_text(f, "name"@) is Some && required_text(f, "value"@) is Some)
                ==> xbl_locator_of(j) == Some(
                (required_text(f, "name"@)->Some_0, required_text(f, "value"@)->Some_0),
            )
        }),
{
}

} // verus!
