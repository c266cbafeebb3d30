//! Print parameters: every field optional, with a documented default, and
//! nested objects that take their defaults member by member.
use vstd::prelude::*;
use crate::decode::DecodeError;
use crate::json::{decimal_text, get_member, key_is, lemma_member_at, member, opt_value, pow10, Decimal, JsonValue};

verus! {

#[derive(Clone, Copy, Debug, PartialEq, Eq, Structural)]
pub enum PrintOrientation {
    Landscape,
    Portrait,
}

/// Page size in centimetres.
#[derive(Clone, Copy, Debug, PartialEq, Eq, Structural)]
pub struct PrintPage {
    pub width: Decimal,
    pub height: Decimal,
}

/// Page margins in centimetres.
#[derive(Clone, Copy, Debug, PartialEq, Eq, Structural)]
pub struct PrintMargins {
    pub top: Decimal,
    pub bottom: Decimal,
    pub left: Decimal,
    pub right: Decimal,
}

/// Body of the print command.
#[derive(Clone, Debug, PartialEq)]
pub struct PrintParameters {
    pub orientation: PrintOrientation,
    pub scale: Decimal,
    pub background: bool,
    pub page: PrintPage,
    pub margin: PrintMargins,
    pub page_ranges: Vec<String>,
    pub shrink_to_fit: bool,
}

/// Print parameters over plain values.
pub struct PrintParametersModel {
    pub orientation: PrintOrientation,
    pub scale: Decimal,
    pub background: bool,
    pub page: PrintPage,
    pub margin: PrintMargins,
    pub page_ranges: Seq<Seq<char>>,
    pub shrink_to_fit: bool,
}

impl View for PrintParameters {
    type V = PrintParametersModel;

    open spec fn view(&self) -> PrintParametersModel {
        PrintParametersModel {
            orientation: self.orientation,
            scale: self.scale,
            background: self.background,
            page: self.page,
            margin: self.margin,
            page_ranges: self.page_ranges@.map_values(|s: String| s@),
            shrink_to_fit: self.shrink_to_fit,
        }
    }
}

/// The default page: US letter, 21.59 by 27.94.
pub open spec fn default_print_page() -> PrintPage {
    PrintPage {
        width: Decimal { negative: false, digits: 2159, scale: 2 },
        height: Decimal { negative: false, digits: 2794, scale: 2 },
    }
}

/// One, written `1.0`.
pub open spec fn one() -> Decimal {
    Decimal { negative: false, digits: 10, scale: 1 }
}

/// The default margins: 1 on every side.
pub open spec fn default_print_margins() -> PrintMargins {
    PrintMargins { top: one(), bottom: one(), left: one(), right: one() }
}

/// The parameters that an empty body gives.
pub open spec fn default_print_parameters() -> PrintParametersModel {
    PrintParametersModel {
        orientation: PrintOrientation::Portrait,
        scale: one(),
        background: false,
        page: default_print_page(),
        margin: default_print_margins(),
        page_ranges: Seq::empty(),
        shrink_to_fit: true,
    }
}

/// The wire token of an orientation.
pub open spec fn orientation_token(o: PrintOrientation) -> Seq<char> {
    match o {
        PrintOrientation::Landscape => "landscape"@,
        PrintOrientation::Portrait => "portrait"@,
    }
}

/// The value is exactly `{"width": .., "height": ..}`.
pub open spec fn is_page_json(j: JsonValue, p: PrintPage) -> bool {
    j matches JsonValue::Object(f) && f@.len() == 2 && f@[0].0@ == "width"@ && f@[0].1
        == JsonValue::Number(p.width) && f@[1].0@ == "height"@ && f@[1].1 == JsonValue::Number(p.height)
}

/// The value is exactly `{"top": .., "bottom": .., "left": .., "right": ..}`.
pub open spec fn is_margins_json(j: JsonValue, m: PrintMargins) -> bool {
    j matches JsonValue::Object(f) && f@.len() == 4 && f@[0].0@ == "top"@ && f@[0].1
        == JsonValue::Number(m.top) && f@[1].0@ == "bottom"@ && f@[1].1 == JsonValue::Number(m.bottom)
        && f@[2].0@ == "left"@ && f@[2].1 == JsonValue::Number(m.left) && f@[3].0@ == "right"@ && f@[3].1
        == JsonValue::Number(m.right)
}

/// The value is exactly an array of the given strings.
pub open spec fn is_texts_json(j: JsonValue, texts: Seq<Seq<char>>) -> bool {
    j matches JsonValue::Array(items) && items@.len() == texts.len() && forall|i: int|
        0 <= i < texts.len() ==> (#[trigger] items@[i] matches JsonValue::Text(t) && t@ == texts[i])
}

/// The value is exactly the seven members, in this order, that encode `p`.
pub open spec fn is_print_json(j: JsonValue, p: PrintParametersModel) -> bool {
    j matches JsonValue::Object(f) && f@.len() == 7 && f@[0].0@ == "orientation"@ && (f@[0].1 matches JsonValue::Text(
        t,
    ) && t@ == orientation_token(p.orientation)) && f@[1].0@ == "scale"@ && f@[1].1 == JsonValue::Number(
        p.scale,
    ) && f@[2].0@ == "background"@ && f@[2].1 == JsonValue::Bool(p.background) && f@[3].0@ == "page"@
        && is_page_json(f@[3].1, p.page) && f@[4].0@ == "margin"@ && is_margins_json(f@[4].1, p.margin)
        && f@[5].0@ == "pageRanges"@ && is_texts_json(f@[5].1, p.page_ranges) && f@[6].0@
        == "shrinkToFit"@ && f@[6].1 == JsonValue::Bool(p.shrink_to_fit)
}

/// A non-negative number member, or `default` where the member is absent.
pub open spec fn non_negative_or(m: Option<JsonValue>, default: Decimal) -> Option<Decimal> {
    match m {
        None => Some(default),
        Some(JsonValue::Number(d)) => if d.spec_non_negative() {
            Some(d)
        } else {
            None
        },
        _ => None,
    }
}

/// A scale member in `[0.1, 2.0]`, or 1 where it is absent.
pub open spec fn scale_or(m: Option<JsonValue>) -> Option<Decimal> {
    match m {
        None => Some(one()),
        Some(JsonValue::Number(d)) => if d.spec_in_print_scale_range() {
            Some(d)
        } else {
            None
        },
        _ => None,
    }
}

/// A boolean member, or `default` where it is absent.
pub open spec fn bool_or(m: Option<JsonValue>, default: bool) -> Option<bool> {
    match m {
        None => Some(default),
        Some(JsonValue::Bool(b)) => Some(b),
        _ => None,
    }
}

/// An orientation member, `"landscape"` or `"portrait"`, or portrait where it is absent.
pub open spec fn orientation_or(m: Option<JsonValue>) -> Option<PrintOrientation> {
    match m {
        None => Some(PrintOrientation::Portrait),
        Some(JsonValue::Text(s)) => if s@ == "landscape"@ {
            Some(PrintOrientation::Landscape)
        } else if s@ == "portrait"@ {
            Some(PrintOrientation::Portrait)
        } else {
            None
        },
        _ => None,
    }
}

/// A page object: each size member non-negative or defaulted on its own.
pub open spec fn page_of(f: Seq<(String, JsonValue)>) -> Option<PrintPage> {
    let d = default_print_page();
    match (non_negative_or(member(f, "width"@), d.width), non_negative_or(member(f, "height"@), d.height)) {
        (Some(width), Some(height)) => Some(PrintPage { width, height }),
        _ => None,
    }
}

/// A margins object: each side non-negative or defaulted on its own.
pub open spec fn margins_of(f: Seq<(String, JsonValue)>) -> Option<PrintMargins> {
    match (
        non_negative_or(member(f, "top"@), one()),
        non_negative_or(member(f, "bottom"@), one()),
        non_negative_or(member(f, "left"@), one()),
        non_negative_or(member(f, "right"@), one()),
    ) {
        (Some(top), Some(bottom), Some(left), Some(right)) => Some(
            PrintMargins { top, bottom, left, right },
        ),
        _ => None,
    }
}

pub open spec fn page_or(m: Option<JsonValue>) -> Option<PrintPage> {
    match m {
        None => Some(default_print_page()),
        Some(JsonValue::Object(f)) => page_of(f@),
        _ => None,
    }
}

pub open spec fn margins_or(m: Option<JsonValue>) -> Option<PrintMargins> {
    match m {
        None => Some(default_print_margins()),
        Some(JsonValue::Object(f)) => margins_of(f@),
        _ => None,
    }
}

/// The texts of an array whose items are all strings.
pub open spec fn texts_of(items: Seq<JsonValue>) -> Option<Seq<Seq<char>>> {
    if forall|i: int| 0 <= i < items.len() ==> #[trigger] items[i] is Text {
        Some(Seq::new(items.len(), |i: int| items[i]->Text_0@))
    } else {
        None
    }
}

pub open spec fn page_ranges_or(m: Option<JsonValue>) -> Option<Seq<Seq<char>>> {
    match m {
        None => Some(Seq::empty()),
        Some(JsonValue::Array(items)) => texts_of(items@),
        _ => None,
    }
}

/// What a print body decodes to: an object whose members (camelCase keys)
/// each take their default where absent; any invalid member fails the whole.
pub open spec fn print_parameters_of(j: JsonValue) -> Option<PrintParametersModel> {
    match j {
        JsonValue::Object(f) => {
            let f = f@;
            match (
                orientation_or(member(f, "orientation"@)),
                scale_or(member(f, "scale"@)),
                bool_or(member(f, "background"@), false),
                page_or(member(f, "page"@)),
                margins_or(member(f, "margin"@)),
                page_ranges_or(member(f, "pageRanges"@)),
                bool_or(member(f, "shrinkToFit"@), true),
            ) {
                (
                    Some(orientation),
                    Some(scale),
                    Some(background),
                    Some(page),
                    Some(margin),
                    Some(page_ranges),
                    Some(shrink_to_fit),
                ) => Some(
                    PrintParametersModel {
                        orientation,
                        scale,
                        background,
                        page,
                        margin,
                        page_ranges,
                        shrink_to_fit,
                    },
                ),
                _ => None,
            }
        },
        _ => None,
    }
}

impl PrintPage {
    pub open spec fn spec_valid(self) -> bool {
        self.width.spec_non_negative() && self.height.spec_non_negative()
    }
}

impl PrintMargins {
    pub open spec fn spec_valid(self) -> bool {
        &&& self.top.spec_non_negative()
        &&& self.bottom.spec_non_negative()
        &&& self.left.spec_non_negative()
        &&& self.right.spec_non_negative()
    }
}

impl PrintParametersModel {
    /// The values that decoding can produce: scale in range, sizes non-negative.
    pub open spec fn spec_valid(self) -> bool {
        &&& self.scale.spec_in_print_scale_range()
        &&& self.page.spec_valid()
        &&& self.margin.spec_valid()
    }
}

impl Default for PrintOrientation {
    fn default() -> (r: PrintOrientation)
        ensures
            r == PrintOrientation::Portrait,
    {
        PrintOrientation::Portrait
    }
}

impl Default for PrintPage {
    fn default() -> (r: PrintPage)
        ensures
            r == default_print_page(),
    {
        PrintPage { width: Decimal::new(2159, 2), height: Decimal::new(2794, 2) }
    }
}

impl Default for PrintMargins {
    fn default() -> (r: PrintMargins)
        ensures
            r == default_print_margins(),
    {
        PrintMargins {
            top: Decimal::new(10, 1),
            bottom: Decimal::new(10, 1),
            left: Decimal::new(10, 1),
            right: Decimal::new(10, 1),
        }
    }
}

impl Default for PrintParameters {
    fn default() -> (r: PrintParameters)
        ensures
            r@ == default_print_parameters(),
    {
        let r = PrintParameters {
            orientation: PrintOrientation::default(),
            scale: Decimal::new(10, 1),
            background: false,
            page: PrintPage::default(),
            margin: PrintMargins::default(),
            page_ranges: Vec::new(),
            shrink_to_fit: true,
        };
        assert(r@.page_ranges =~= Seq::empty());
        r
    }
}

} // verus!

verus! {

/// Reads a size member, which must not be negative; `default` where it is absent.
pub fn read_non_negative(fields: &Vec<(String, JsonValue)>, key: &str, default: Decimal) -> (r: Result<
    Decimal,
    DecodeError,
>)
    ensures
        match r {
            Ok(d) => non_negative_or(member(fields@, key@), default) == Some(d),
            Err(_) => non_negative_or(member(fields@, key@), default) is None,
        },
        match member(fields@, key@) {
            Some(JsonValue::Number(d)) => !d.spec_non_negative() ==> (r matches Err(e)
                && e.message@ == decimal_text(d) + " is negative"@),
            _ => true,
        },
{
    match get_member(fields, key) {
        None => Ok(default),
        Some(JsonValue::Number(d)) => {
            if d.is_non_negative() {
                Ok(*d)
            } else {
                Err(DecodeError { message: d.to_text().concat(" is negative") })
            }
        },
        Some(_) => Err(DecodeError::about("invalid type, expected a number: ", key)),
    }
}

fn read_bool_or(fields: &Vec<(String, JsonValue)>, key: &str, default: bool) -> (r: Result<
    bool,
    DecodeError,
>)
    ensures
        match r {
            Ok(b) => bool_or(member(fields@, key@), default) == Some(b),
            Err(_) => bool_or(member(fields@, key@), default) is None,
        },
{
    match get_member(fields, key) {
        None => Ok(default),
        Some(JsonValue::Bool(b)) => Ok(*b),
        Some(_) => Err(DecodeError::about("invalid type, expected a boolean: ", key)),
    }
}

impl PrintOrientation {
    /// Reads an orientation member, portrait where it is absent.
    pub fn from_member(m: Option<&JsonValue>) -> (r: Result<PrintOrientation, DecodeError>)
        ensures
            match r {
                Ok(o) => orientation_or(opt_value(m)) == Some(o),
                Err(_) => orientation_or(opt_value(m)) is None,
            },
    {
        match m {
            None => Ok(PrintOrientation::Portrait),
            Some(JsonValue::Text(s)) => {
                if key_is(s, "landscape") {
                    Ok(PrintOrientation::Landscape)
                } else if key_is(s, "portrait") {
                    Ok(PrintOrientation::Portrait)
                } else {
                    Err(DecodeError::new("unknown variant, expected `landscape` or `portrait`"))
                }
            },
            Some(_) => Err(DecodeError::new("invalid type, expected a string: orientation")),
        }
    }
}

/// Reads the scale member, which must lie in `[0.1, 2.0]`; 1 where it is absent.
pub fn read_print_scale(fields: &Vec<(String, JsonValue)>) -> (r: Result<Decimal, DecodeError>)
    ensures
        match r {
            Ok(d) => scale_or(member(fields@, "scale"@)) == Some(d),
            Err(_) => scale_or(member(fields@, "scale"@)) is None,
        },
        match member(fields@, "scale"@) {
            Some(JsonValue::Number(d)) => !d.spec_in_print_scale_range() ==> (r matches Err(e)
                && e.message@ == decimal_text(d) + " is outside range 0.1-2"@),
            _ => true,
        },
{
    match get_member(fields, "scale") {
        None => Ok(Decimal::new(10, 1)),
        Some(JsonValue::Number(d)) => {
            if d.is_in_print_scale_range() {
                Ok(*d)
            } else {
                Err(DecodeError { message: d.to_text().concat(" is outside range 0.1-2") })
            }
        },
        Some(_) => Err(DecodeError::new("invalid type, expected a number: scale")),
    }
}

impl PrintPage {
    pub fn from_member(m: Option<&JsonValue>) -> (r: Result<PrintPage, DecodeError>)
        ensures
            match r {
                Ok(p) => page_or(opt_value(m)) == Some(p),
                Err(_) => page_or(opt_value(m)) is None,
            },
    {
        match m {
            None => Ok(PrintPage::default()),
            Some(JsonValue::Object(f)) => {
                let width = read_non_negative(f, "width", Decimal::new(2159, 2))?;
                let height = read_non_negative(f, "height", Decimal::new(2794, 2))?;
                Ok(PrintPage { width, height })
            },
            Some(_) => Err(DecodeError::new("invalid type, expected an object: page")),
        }
    }
}

impl PrintMargins {
    pub fn from_member(m: Option<&JsonValue>) -> (r: Result<PrintMargins, DecodeError>)
        ensures
            match r {
                Ok(p) => margins_or(opt_value(m)) == Some(p),
                Err(_) => margins_or(opt_value(m)) is None,
            },
    {
        match m {
            None => Ok(PrintMargins::default()),
            Some(JsonValue::Object(f)) => {
                let top = read_non_negative(f, "top", Decimal::new(10, 1))?;
                let bottom = read_non_negative(f, "bottom", Decimal::new(10, 1))?;
                let left = read_non_negative(f, "left", Decimal::new(10, 1))?;
                let right = read_non_negative(f, "right", Decimal::new(10, 1))?;
                Ok(PrintMargins { top, bottom, left, right })
            },
            Some(_) => Err(DecodeError::new("invalid type, expected an object: margin")),
        }
    }
}

/// Reads the page ranges member: an array of strings, empty where it is absent.
pub fn read_page_ranges(m: Option<&JsonValue>) -> (r: Result<Vec<String>, DecodeError>)
    ensures
        match r {
            Ok(v) => page_ranges_or(opt_value(m)) == Some(
                v@.map_values(|s: String| s@),
            ),
            Err(_) => page_ranges_or(opt_value(m)) is None,
        },
{
    match m {
        None => {
            let v: Vec<String> = Vec::new();
            assert(v@.map_values(|s: String| s@) =~= Seq::empty());
            Ok(v)
        },
        Some(JsonValue::Array(items)) => {
            let mut out: Vec<String> = Vec::new();
            let mut i: usize = 0;
            while i < items.len()
                invariant
                    opt_value(m) == Some(JsonValue::Array(*items)),
                    i <= items.len(),
                    out@.len() == i,
                    forall|k: int| 0 <= k < i ==> #[trigger] items@[k] is Text,
                    forall|k: int| 0 <= k < i ==> #[trigger] out@[k]@ == items@[k]->Text_0@,
                decreases items.len() - i,
            {
                match &items[i] {
                    JsonValue::Text(s) => out.push(s.clone()),
                    _ => {
                        assert(!(items@[i as int] is Text));
                        assert(!(forall|k: int| 0 <= k < items@.len() ==> #[trigger] items@[k] is Text));
                        assert(texts_of(items@) is None);
                        return Err(DecodeError::new("invalid type, expected a string: pageRanges"));
                    },
                }
                i = i + 1;
            }
            assert(out@.map_values(|s: String| s@) =~= Seq::new(
                items@.len(),
                |k: int| items@[k]->Text_0@,
            ));
            Ok(out)
        },
        Some(_) => Err(DecodeError::new("invalid type, expected an array: pageRanges")),
    }
}

impl PrintParameters {
    /// Decodes a print body, starting from the defaults and replacing each
    /// member that is present, after checking it.
    pub fn from_json(j: &JsonValue) -> (r: Result<PrintParameters, DecodeError>)
        ensures
            match r {
                Ok(p) => print_parameters_of(*j) == Some(p@),
                Err(_) => print_parameters_of(*j) is None,
            },
    {
        match j {
            JsonValue::Object(f) => {
                let orientation = PrintOrientation::from_member(get_member(f, "orientation"))?;
                let scale = read_print_scale(f)?;
                let background = read_bool_or(f, "background", false)?;
                let page = PrintPage::from_member(get_member(f, "page"))?;
                let margin = PrintMargins::from_member(get_member(f, "margin"))?;
                let page_ranges = read_page_ranges(get_member(f, "pageRanges"))?;
                let shrink_to_fit = read_bool_or(f, "shrinkToFit", true)?;
                Ok(
                    PrintParameters {
                        orientation,
                        scale,
                        background,
                        page,
                        margin,
                        page_ranges,
                        shrink_to_fit,
                    },
                )
            },
            _ => Err(DecodeError::new("invalid type, expected an object")),
        }
    }
}

} // verus!

verus! {

/// Facts about the member names of print bodies.
pub proof fn lemma_print_keys()
    ensures
        "orientation"@ != "scale"@,
        "orientation"@ != "background"@,
        "orientation"@ != "page"@,
        "orientation"@ != "margin"@,
        "orientation"@ != "pageRanges"@,
        "orientation"@ != "shrinkToFit"@,
        "scale"@ != "background"@,
        "scale"@ != "page"@,
        "scale"@ != "margin"@,
        "scale"@ != "pageRanges"@,
        "scale"@ != "shrinkToFit"@,
        "background"@ != "page"@,
        "background"@ != "margin"@,
        "background"@ != "pageRanges"@,
        "background"@ != "shrinkToFit"@,
        "page"@ != "margin"@,
        "page"@ != "pageRanges"@,
        "page"@ != "shrinkToFit"@,
        "margin"@ != "pageRanges"@,
        "margin"@ != "shrinkToFit"@,
        "pageRanges"@ != "shrinkToFit"@,
        "width"@ != "height"@,
        "top"@ != "bottom"@,
        "top"@ != "left"@,
        "top"@ != "right"@,
        "bottom"@ != "left"@,
        "bottom"@ != "right"@,
        "left"@ != "right"@,
{
    reveal_strlit("orientation");
    reveal_strlit("scale");
    reveal_strlit("background");
    reveal_strlit("page");
    reveal_strlit("margin");
    reveal_strlit("pageRanges");
    reveal_strlit("shrinkToFit");
    reveal_strlit("width");
    reveal_strlit("height");
    reveal_strlit("top");
    reveal_strlit("bottom");
    reveal_strlit("left");
    reveal_strlit("right");
    assert("orientation"@.len() == 11);
    assert("scale"@.len() == 5);
    assert("background"@.len() == 10);
    assert("page"@.len() == 4);
    assert("margin"@.len() == 6);
    assert("pageRanges"@.len() == 10);
    assert("shrinkToFit"@.len() == 11);
    assert("width"@.len() == 5);
    assert("height"@.len() == 6);
    assert("top"@.len() == 3);
    assert("bottom"@.len() == 6);
    assert("left"@.len() == 4);
    assert("right"@.len() == 5);
    assert("orientation"@[0] != "shrinkToFit"@[0]);
    assert("background"@[0] != "pageRanges"@[0]);
}

impl PrintOrientation {
    pub fn to_json(&self) -> (r: JsonValue)
        ensures
            r matches JsonValue::Text(t) && t@ == orientation_token(*self),
            orientation_or(Some(r)) == Some(*self),
    {
        proof {
            reveal_strlit("landscape");
            reveal_strlit("portrait");
            assert("landscape"@.len() != "portrait"@.len());
        }
        match self {
            PrintOrientation::Landscape => JsonValue::Text(String::from_str("landscape")),
            PrintOrientation::Portrait => JsonValue::Text(String::from_str("portrait")),
        }
    }
}

impl PrintPage {
    /// `{"width": ..., "height": ...}`, which decodes back to this page.
    pub fn to_json(&self) -> (r: JsonValue)
        ensures
            is_page_json(r, *self),
            self.spec_valid() ==> page_or(Some(r)) == Some(*self),
    {
        let mut f: Vec<(String, JsonValue)> = Vec::new();
        f.push((String::from_str("width"), JsonValue::Number(self.width)));
        f.push((String::from_str("height"), JsonValue::Number(self.height)));
        proof {
            lemma_print_keys();
            lemma_member_at(f@, "width"@, 0);
            lemma_member_at(f@, "height"@, 1);
        }
        JsonValue::Object(f)
    }
}

impl PrintMargins {
    /// `{"top": ..., "bottom": ..., "left": ..., "right": ...}`, which decodes back to these margins.
    pub fn to_json(&self) -> (r: JsonValue)
        ensures
            is_margins_json(r, *self),
            self.spec_valid() ==> margins_or(Some(r)) == Some(*self),
    {
        let mut f: Vec<(String, JsonValue)> = Vec::new();
        f.push((String::from_str("top"), JsonValue::Number(self.top)));
        f.push((String::from_str("bottom"), JsonValue::Number(self.bottom)));
        f.push((String::from_str("left"), JsonValue::Number(self.left)));
        f.push((String::from_str("right"), JsonValue::Number(self.right)));
        proof {
            lemma_print_keys();
            let s = f@;
            lemma_member_at(s, "top"@, 0);
            assert forall|i: int| 0 <= i < 1 implies #[trigger] s[i].0@ != "bottom"@ by {}
            lemma_member_at(s, "bottom"@, 1);
            assert forall|i: int| 0 <= i < 2 implies #[trigger] s[i].0@ != "left"@ by {
                if i == 1 {} else {}
            }
            lemma_member_at(s, "left"@, 2);
            assert forall|i: int| 0 <= i < 3 implies #[trigger] s[i].0@ != "right"@ by {
                if i == 2 {} else if i == 1 {} else {}
            }
            lemma_member_at(s, "right"@, 3);
        }
        JsonValue::Object(f)
    }
}

/// An array of the given strings, which decodes back to them.
pub fn page_ranges_to_json(v: &Vec<String>) -> (r: JsonValue)
    ensures
        is_texts_json(r, v@.map_values(|s: String| s@)),
        page_ranges_or(Some(r)) == Some(v@.map_values(|s: String| s@)),
{
    let mut items: Vec<JsonValue> = Vec::new();
    let mut i: usize = 0;
    while i < v.len()
        invariant
            i <= v.len(),
            items@.len() == i,
            forall|k: int| 0 <= k < i ==> #[trigger] items@[k] is Text,
            forall|k: int| 0 <= k < i ==> #[trigger] items@[k]->Text_0@ == v@[k]@,
        decreases v.len() - i,
    {
        items.push(JsonValue::Text(v[i].clone()));
        i = i + 1;
    }
    assert(Seq::new(items@.len(), |k: int| items@[k]->Text_0@) =~= v@.map_values(|s: String| s@));
    JsonValue::Array(items)
}

impl PrintParameters {
    /// The body with every member written out. Parameters within their
    /// ranges (as decoding produces them) decode back to themselves.
    pub fn to_json(&self) -> (r: JsonValue)
        ensures
            is_print_json(r, self@),
            self@.spec_valid() ==> print_parameters_of(r) == Some(self@),
    {
        let mut f: Vec<(String, JsonValue)> = Vec::new();
        f.push((String::from_str("orientation"), self.orientation.to_json()));
        f.push((String::from_str("scale"), JsonValue::Number(self.scale)));
        f.push((String::from_str("background"), JsonValue::Bool(self.background)));
        f.push((String::from_str("page"), self.page.to_json()));
        f.push((String::from_str("margin"), self.margin.to_json()));
        f.push((String::from_str("pageRanges"), page_ranges_to_json(&self.page_ranges)));
        f.push((String::from_str("shrinkToFit"), JsonValue::Bool(self.shrink_to_fit)));
        proof {
            lemma_print_keys();
            let s = f@;
            lemma_member_at(s, "orientation"@, 0);
            assert forall|i: int| 0 <= i < 1 implies #[trigger] s[i].0@ != "scale"@ by {}
            lemma_member_at(s, "scale"@, 1);
            assert forall|i: int| 0 <= i < 2 implies #[trigger] s[i].0@ != "background"@ by {
                if i == 1 {} else {}
            }
            lemma_member_at(s, "background"@, 2);
            assert forall|i: int| 0 <= i < 3 implies #[trigger] s[i].0@ != "page"@ by {
                if i == 2 {} else if i == 1 {} else {}
            }
            lemma_member_at(s, "page"@, 3);
            assert forall|i: int| 0 <= i < 4 implies #[trigger] s[i].0@ != "margin"@ by {
                if i == 3 {} else if i == 2 {} else if i == 1 {} else {}
            }
            lemma_member_at(s, "margin"@, 4);
            assert forall|i: int| 0 <= i < 5 implies #[trigger] s[i].0@ != "pageRanges"@ by {
                if i == 4 {} else if i == 3 {} else if i == 2 {} else if i == 1 {} else {}
            }
            lemma_member_at(s, "pageRanges"@, 5);
            assert forall|i: int| 0 <= i < 6 implies #[trigger] s[i].0@ != "shrinkToFit"@ by {
                if i == 5 {} else if i == 4 {} else if i == 3 {} else if i == 2 {} else if i
                    == 1 {} else {}
            }
            lemma_member_at(s, "shrinkToFit"@, 6);
        }
        JsonValue::Object(f)
    }
}

} // verus!

verus! {

/// What a print body decodes to meets the ranges: scale in `[0.1, 2.0]`,
/// sizes and margins non-negative.
pub proof fn lemma_decoded_print_valid(j: JsonValue)
    requires
        print_parameters_of(j) is Some,
    ensures
        print_parameters_of(j)->Some_0.spec_valid(),
{
    assert(pow10(0) == 1);
    assert(pow10(1) == 10);
}

} // verus!

verus! {

/// The number held by a member, or `default` where it holds none.
pub open spec fn number_or(m: Option<JsonValue>, default: Decimal) -> Decimal {
    match m {
        Some(JsonValue::Number(d)) => d,
        _ => default,
    }
}

/// The member is absent or a non-negative number.
pub open spec fn absent_or_non_negative(m: Option<JsonValue>) -> bool {
    m is None || (m matches Some(JsonValue::Number(d)) && d.spec_non_negative())
}

/// An empty print body decodes to the defaults.
pub proof fn lemma_empty_print_body(j: JsonValue)
    requires
        j matches JsonValue::Object(f) && f@.len() == 0,
    ensures
        print_parameters_of(j) == Some(default_print_parameters()),
{
    assert(pow10(0) == 1);
    assert(pow10(1) == 10);
}

/// `{"scale": v}` decodes exactly when `v` lies in `[0.1, 2.0]`, and then to
/// the defaults with that scale.
pub proof fn lemma_scale_only(j: JsonValue)
    requires
        j matches JsonValue::Object(f) && f@.len() == 1 && f@[0].0@ == "scale"@ && f@[0].1 is Number,
    ensures
        ({
            let v = j->Object_0@[0].1->Number_0;
            &&& (print_parameters_of(j) is Some <==> v.spec_in_print_scale_range())
            &&& print_parameters_of(j) is Some ==> print_parameters_of(j)->Some_0.scale == v
            &&& print_parameters_of(j) is Some ==> print_parameters_of(j)->Some_0.page
                == default_print_page()
        }),
{
    lemma_print_keys();
    let f = j->Object_0@;
    crate::json::lemma_single_member(f, "orientation"@);
    crate::json::lemma_single_member(f, "background"@);
    crate::json::lemma_single_member(f, "page"@);
    crate::json::lemma_single_member(f, "margin"@);
    crate::json::lemma_single_member(f, "pageRanges"@);
    crate::json::lemma_single_member(f, "shrinkToFit"@);
}

/// A page object whose sizes are absent or non-negative decodes, each
/// absent size taking its own default.
pub proof fn lemma_page_defaults(pf: Seq<(String, JsonValue)>)
    requires
        absent_or_non_negative(member(pf, "width"@)),
        absent_or_non_negative(member(pf, "height"@)),
    ensures
        page_of(pf) == Some(
            PrintPage {
                width: number_or(member(pf, "width"@), default_print_page().width),
                height: number_or(member(pf, "height"@), default_print_page().height),
            },
        ),
{
}

/// A margins object whose sides are absent or non-negative decodes, each
/// absent side taking its own default.
pub proof fn lemma_margins_defaults(mf: Seq<(String, JsonValue)>)
    requires
        absent_or_non_negative(member(mf, "top"@)),
        absent_or_non_negative(member(mf, "bottom"@)),
        absent_or_non_negative(member(mf, "left"@)),
        absent_or_non_negative(member(mf, "right"@)),
    ensures
        margins_of(mf) == Some(
            PrintMargins {
                top: number_or(member(mf, "top"@), one()),
                bottom: number_or(member(mf, "bottom"@), one()),
                left: number_or(member(mf, "left"@), one()),
                right: number_or(member(mf, "right"@), one()),
            },
        ),
{
}

/// `{"page": P}` with sizes absent or non-negative decodes to the defaults
/// with the page that `P` gives.
pub proof fn lemma_page_only(j: JsonValue)
    requires
        j matches JsonValue::Object(f) && f@.len() == 1 && f@[0].0@ == "page"@ && f@[0].1 is Object
            && absent_or_non_negative(member(f@[0].1->Object_0@, "width"@))
            && absent_or_non_negative(member(f@[0].1->Object_0@, "height"@)),
    ensures
        ({
            let pf = j->Object_0@[0].1->Object_0@;
            let d = default_print_parameters();
            print_parameters_of(j) == Some(
                PrintParametersModel {
                    orientation: d.orientation,
                    scale: d.scale,
                    background: d.background,
                    page: PrintPage {
                        width: number_or(member(pf, "width"@), default_print_page().width),
                        height: number_or(member(pf, "height"@), default_print_page().height),
                    },
                    margin: d.margin,
                    page_ranges: d.page_ranges,
                    shrink_to_fit: d.shrink_to_fit,
                },
            )
        }),
{
    lemma_print_keys();
    let f = j->Object_0@;
    crate::json::lemma_single_member(f, "orientation"@);
    crate::json::lemma_single_member(f, "scale"@);
    crate::json::lemma_single_member(f, "background"@);
    crate::json::lemma_single_member(f, "margin"@);
    crate::json::lemma_single_member(f, "pageRanges"@);
    crate::json::lemma_single_member(f, "shrinkToFit"@);
    lemma_page_defaults(f[0].1->Object_0@);
    assert(pow10(0) == 1);
    assert(pow10(1) == 10);
}

} // verus!
