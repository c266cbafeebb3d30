//! The extension route table, the resolver from a route to a typed command,
//! and the serializer of a command's parameters.
use vstd::prelude::*;
use crate::addon::{
    addon_input_of, base64_decoded, is_addon_json, AddonInputModel, AddonInstallParameters,
    AddonInstallSource, InlineAddon,
};
use crate::decode::DecodeError;
use crate::json::{key_is, JsonValue};
use crate::params::{
    addon_uninstall_of, gecko_context_parameters_of, is_context_json, is_locator_json,
    is_uninstall_json, xbl_locator_of, AddonUninstallParameters,
    GeckoContextParameters, XblLocatorParameters,
};
use crate::print::{is_print_json, print_parameters_of, PrintParameters};

verus! {

/// The HTTP methods that extension routes use.
#[derive(Clone, Copy, Debug, PartialEq, Eq, Structural)]
pub enum HttpMethod {
    Get,
    Post,
}

/// The vendor-specific endpoints.
#[derive(Clone, Copy, Debug, PartialEq, Eq, Structural)]
pub enum GeckoExtensionRoute {
    GetContext,
    SetContext,
    XblAnonymousChildren,
    XblAnonymousByAttribute,
    InstallAddon,
    UninstallAddon,
    TakeFullScreenshot,
    Print,
}

/// The route table: method, path template and route, in order.
pub open spec fn route_table() -> Seq<(HttpMethod, Seq<char>, GeckoExtensionRoute)> {
    seq![
        (HttpMethod::Get, "/session/{sessionId}/moz/context"@, GeckoExtensionRoute::GetContext),
        (HttpMethod::Post, "/session/{sessionId}/moz/context"@, GeckoExtensionRoute::SetContext),
        (
            HttpMethod::Post,
            "/session/{sessionId}/moz/xbl/{elementId}/anonymous_children"@,
            GeckoExtensionRoute::XblAnonymousChildren,
        ),
        (
            HttpMethod::Post,
            "/session/{sessionId}/moz/xbl/{elementId}/anonymous_by_attribute"@,
            GeckoExtensionRoute::XblAnonymousByAttribute,
        ),
        (
            HttpMethod::Post,
            "/session/{sessionId}/moz/addon/install"@,
            GeckoExtensionRoute::InstallAddon,
        ),
        (
            HttpMethod::Post,
            "/session/{sessionId}/moz/addon/uninstall"@,
            GeckoExtensionRoute::UninstallAddon,
        ),
        (
            HttpMethod::Get,
            "/session/{sessionId}/moz/screenshot/full"@,
            GeckoExtensionRoute::TakeFullScreenshot,
        ),
        (HttpMethod::Post, "/session/{sessionId}/moz/print"@, GeckoExtensionRoute::Print),
    ]
}

/// The extension routes with their methods and path templates.
pub fn extension_routes() -> (r: Vec<(HttpMethod, &'static str, GeckoExtensionRoute)>)
    ensures
        r@.len() == route_table().len(),
        forall|i: int|
            0 <= i < r@.len() ==> (#[trigger] r@[i]).0 == route_table()[i].0 && r@[i].1@
                == route_table()[i].1 && r@[i].2 == route_table()[i].2,
{
    let mut r: Vec<(HttpMethod, &'static str, GeckoExtensionRoute)> = Vec::new();
    r.push((HttpMethod::Get, "/session/{sessionId}/moz/context", GeckoExtensionRoute::GetContext));
    r.push(
        (HttpMethod::Post, "/session/{sessionId}/moz/context", GeckoExtensionRoute::SetContext),
    );
    r.push(
        (
            HttpMethod::Post,
            "/session/{sessionId}/moz/xbl/{elementId}/anonymous_children",
            GeckoExtensionRoute::XblAnonymousChildren,
        ),
    );
    r.push(
        (
            HttpMethod::Post,
            "/session/{sessionId}/moz/xbl/{elementId}/anonymous_by_attribute",
            GeckoExtensionRoute::XblAnonymousByAttribute,
        ),
    );
    r.push(
        (
            HttpMethod::Post,
            "/session/{sessionId}/moz/addon/install",
            GeckoExtensionRoute::InstallAddon,
        ),
    );
    r.push(
        (
            HttpMethod::Post,
            "/session/{sessionId}/moz/addon/uninstall",
            GeckoExtensionRoute::UninstallAddon,
        ),
    );
    r.push(
        (
            HttpMethod::Get,
            "/session/{sessionId}/moz/screenshot/full",
            GeckoExtensionRoute::TakeFullScreenshot,
        ),
    );
    r.push((HttpMethod::Post, "/session/{sessionId}/moz/print", GeckoExtensionRoute::Print));
    r
}

/// A handle to a DOM element that an earlier command returned.
#[derive(Clone, Debug, PartialEq)]
pub struct ElementReference {
    pub id: String,
}

/// A resolved extension command with its validated payload.
#[derive(Clone, Debug, PartialEq)]
pub enum GeckoExtensionCommand {
    GetContext,
    SetContext(GeckoContextParameters),
    XblAnonymousChildren(ElementReference),
    XblAnonymousByAttribute(ElementReference, XblLocatorParameters),
    InstallAddon(AddonInstallParameters),
    UninstallAddon(AddonUninstallParameters),
    TakeFullScreenshot,
    Print(PrintParameters),
}

/// Why a request could not become a command.
#[derive(Debug)]
pub enum CommandError {
    /// A required path parameter is missing.
    InvalidArgument(String),
    /// The body does not decode to the route's payload.
    Decode(DecodeError),
}

/// The outcome of resolving a route: a command, or an inline add-on that
/// must first be written to a file (see `addon_file_name` and `install_staged`).
#[derive(Debug)]
pub enum Resolution {
    Ready(GeckoExtensionCommand),
    StageAddon(InlineAddon),
}

/// The value of the first path parameter named `key`.
pub open spec fn path_param(params: Seq<(String, String)>, key: Seq<char>) -> Option<Seq<char>>
    decreases params.len(),
{
    if params.len() == 0 {
        None
    } else if params[0].0@ == key {
        Some(params[0].1@)
    } else {
        path_param(params.drop_first(), key)
    }
}

/// Looks up a path parameter by name.
pub fn get_path_param(params: &Vec<(String, String)>, key: &str) -> (r: Option<String>)
    ensures
        match r {
            Some(v) => path_param(params@, key@) == Some(v@),
            None => path_param(params@, key@) is None,
        },
{
    let mut i: usize = 0;
    assert(params@.subrange(0, params@.len() as int) =~= params@);
    while i < params.len()
        invariant
            i <= params.len(),
            path_param(params@, key@) == path_param(
                params@.subrange(i as int, params@.len() as int),
                key@,
            ),
        decreases params.len() - i,
    {
        if key_is(&params[i].0, key) {
            return Some(params[i].1.clone());
        }
        assert(params@.subrange(i as int, params@.len() as int).drop_first() =~= params@.subrange(
            i + 1,
            params@.len() as int,
        ));
        i = i + 1;
    }
    None
}

fn missing_element_id() -> (r: CommandError)
    ensures
        r matches CommandError::InvalidArgument(m) && m@ == "Missing elementId parameter"@,
{
    CommandError::InvalidArgument(String::from_str("Missing elementId parameter"))
}

impl GeckoExtensionCommand {
    /// The payload meets the invariants that decoding establishes.
    pub open spec fn spec_valid(&self) -> bool {
        match self {
            GeckoExtensionCommand::Print(p) => p@.spec_valid(),
            _ => true,
        }
    }

    /// Completes an install command once an inline add-on has been written:
    /// `staged` is the file's path, or why it could not be written.
    pub fn install_staged(inline: &InlineAddon, staged: Result<String, String>) -> (r: Result<
        GeckoExtensionCommand,
        CommandError,
    >)
        ensures
            match staged {
                Ok(path) => r matches Ok(GeckoExtensionCommand::InstallAddon(p)) && p@ == (
                    path@,
                    inline.temporary,
                ),
                Err(e) => r matches Err(CommandError::Decode(d)) && d.message@ == e@,
            },
    {
        match staged {
            Ok(path) => Ok(
                GeckoExtensionCommand::InstallAddon(AddonInstallParameters::staged(path, inline)),
            ),
            Err(message) => Err(CommandError::Decode(DecodeError { message })),
        }
    }
}

} // verus!

verus! {

impl GeckoExtensionRoute {
    /// Resolves this route, with its path parameters and request body, into a
    /// command. Routes without a payload ignore the body; a missing element id
    /// fails before the body is read; decoding errors are passed on as they are.
    pub fn command(&self, params: &Vec<(String, String)>, body: &JsonValue) -> (r: Result<
        Resolution,
        CommandError,
    >)
        ensures
            r matches Ok(Resolution::Ready(c)) ==> c.spec_valid(),
            match *self {
                GeckoExtensionRoute::GetContext => r matches Ok(
                    Resolution::Ready(GeckoExtensionCommand::GetContext),
                ),
                GeckoExtensionRoute::TakeFullScreenshot => r matches Ok(
                    Resolution::Ready(GeckoExtensionCommand::TakeFullScreenshot),
                ),
                GeckoExtensionRoute::SetContext => match gecko_context_parameters_of(*body) {
                    Some(p) => r matches Ok(
                        Resolution::Ready(GeckoExtensionCommand::SetContext(q)),
                    ) && q == p,
                    None => r matches Err(CommandError::Decode(_)),
                },
                GeckoExtensionRoute::XblAnonymousChildren => match path_param(
                    params@,
                    "elementId"@,
                ) {
                    Some(id) => r matches Ok(
                        Resolution::Ready(GeckoExtensionCommand::XblAnonymousChildren(e)),
                    ) && e.id@ == id,
                    None => r matches Err(CommandError::InvalidArgument(m)) && m@
                        == "Missing elementId parameter"@,
                },
                GeckoExtensionRoute::XblAnonymousByAttribute => match path_param(
                    params@,
                    "elementId"@,
                ) {
                    Some(id) => match xbl_locator_of(*body) {
                        Some(l) => r matches Ok(
                            Resolution::Ready(GeckoExtensionCommand::XblAnonymousByAttribute(e, x)),
                        ) && e.id@ == id && x@ == l,
                        None => r matches Err(CommandError::Decode(_)),
                    },
                    None => r matches Err(CommandError::InvalidArgument(m)) && m@
                        == "Missing elementId parameter"@,
                },
                GeckoExtensionRoute::InstallAddon => match addon_input_of(*body) {
                    None => r matches Err(CommandError::Decode(_)),
                    Some(AddonInputModel::Path(path, temporary)) => r matches Ok(
                        Resolution::Ready(GeckoExtensionCommand::InstallAddon(a)),
                    ) && a@ == (path, temporary),
                    Some(AddonInputModel::Inline(addon, temporary)) => match base64_decoded(
                        addon,
                    ) {
                        None => r matches Err(CommandError::Decode(_)),
                        Some(bytes) => r matches Ok(Resolution::StageAddon(i)) && i.content@
                            == bytes && i.temporary == temporary,
                    },
                },
                GeckoExtensionRoute::UninstallAddon => match addon_uninstall_of(*body) {
                    Some(id) => r matches Ok(
                        Resolution::Ready(GeckoExtensionCommand::UninstallAddon(u)),
                    ) && u@ == id,
                    None => r matches Err(CommandError::Decode(_)),
                },
                GeckoExtensionRoute::Print => match print_parameters_of(*body) {
                    Some(p) => r matches Ok(Resolution::Ready(GeckoExtensionCommand::Print(q)))
                        && q@ == p,
                    None => r matches Err(CommandError::Decode(_)),
                },
            },
    {
        match self {
            GeckoExtensionRoute::GetContext => Ok(Resolution::Ready(GeckoExtensionCommand::GetContext)),
            GeckoExtensionRoute::TakeFullScreenshot => Ok(
                Resolution::Ready(GeckoExtensionCommand::TakeFullScreenshot),
            ),
            GeckoExtensionRoute::SetContext => match GeckoContextParameters::from_json(body) {
                Ok(p) => Ok(Resolution::Ready(GeckoExtensionCommand::SetContext(p))),
                Err(e) => Err(CommandError::Decode(e)),
            },
            GeckoExtensionRoute::XblAnonymousChildren => match get_path_param(params, "elementId") {
                Some(id) => Ok(
                    Resolution::Ready(
                        GeckoExtensionCommand::XblAnonymousChildren(ElementReference { id }),
                    ),
                ),
                None => Err(missing_element_id()),
            },
            GeckoExtensionRoute::XblAnonymousByAttribute => match get_path_param(
                params,
                "elementId",
            ) {
                Some(id) => match XblLocatorParameters::from_json(body) {
                    Ok(l) => Ok(
                        Resolution::Ready(
                            GeckoExtensionCommand::XblAnonymousByAttribute(
                                ElementReference { id },
                                l,
                            ),
                        ),
                    ),
                    Err(e) => Err(CommandError::Decode(e)),
                },
                None => Err(missing_element_id()),
            },
            GeckoExtensionRoute::InstallAddon => match AddonInstallParameters::from_json(body) {
                Ok(AddonInstallSource::Ready(a)) => Ok(
                    Resolution::Ready(GeckoExtensionCommand::InstallAddon(a)),
                ),
                Ok(AddonInstallSource::Inline(i)) => Ok(Resolution::StageAddon(i)),
                Err(e) => Err(CommandError::Decode(e)),
            },
            GeckoExtensionRoute::UninstallAddon => match AddonUninstallParameters::from_json(body) {
                Ok(u) => Ok(Resolution::Ready(GeckoExtensionCommand::UninstallAddon(u))),
                Err(e) => Err(CommandError::Decode(e)),
            },
            GeckoExtensionRoute::Print => match PrintParameters::from_json(body) {
                Ok(p) => {
                    proof {
                        crate::print::lemma_decoded_print_valid(*body);
                    }
                    Ok(Resolution::Ready(GeckoExtensionCommand::Print(p)))
                },
                Err(e) => Err(CommandError::Decode(e)),
            },
        }
    }
}

impl GeckoExtensionCommand {
    /// The JSON form of the command's externally visible payload, which
    /// decodes back to that payload (for print parameters, where they lie in
    /// their ranges, as every resolved command's do); `None` for commands without one (the
    /// element reference of an attribute lookup is left out).
    pub fn parameters_json(&self) -> (r: Option<JsonValue>)
        ensures
            match self {
                GeckoExtensionCommand::GetContext => r is None,
                GeckoExtensionCommand::XblAnonymousChildren(_) => r is None,
                GeckoExtensionCommand::TakeFullScreenshot => r is None,
                GeckoExtensionCommand::SetContext(p) => r matches Some(j) && is_context_json(j, *p)
                    && gecko_context_parameters_of(j) == Some(*p),
                GeckoExtensionCommand::XblAnonymousByAttribute(_, l) => r matches Some(j)
                    && is_locator_json(j, l@) && xbl_locator_of(j) == Some(l@),
                GeckoExtensionCommand::InstallAddon(a) => r matches Some(j) && is_addon_json(j, a@)
                    && addon_input_of(j) == Some(AddonInputModel::Path(a.path@, a.temporary)),
                GeckoExtensionCommand::UninstallAddon(u) => r matches Some(j) && is_uninstall_json(
                    j,
                    u@,
                ) && addon_uninstall_of(j) == Some(u@),
                GeckoExtensionCommand::Print(p) => r matches Some(j) && is_print_json(j, p@) && (
                p@.spec_valid() ==> print_parameters_of(j) == Some(p@)),
            },
    {
        match self {
            GeckoExtensionCommand::GetContext => None,
            GeckoExtensionCommand::InstallAddon(x) => Some(x.to_json()),
            GeckoExtensionCommand::SetContext(x) => Some(x.to_json()),
            GeckoExtensionCommand::UninstallAddon(x) => Some(x.to_json()),
            GeckoExtensionCommand::XblAnonymousByAttribute(_, x) => Some(x.to_json()),
            GeckoExtensionCommand::XblAnonymousChildren(_) => None,
            GeckoExtensionCommand::TakeFullScreenshot => None,
            GeckoExtensionCommand::Print(x) => Some(x.to_json()),
        }
    }
}

} // verus!
