use geckodriver_command::addon::{AddonInstallParameters, AddonInstallSource};
use geckodriver_command::json::{Decimal, JsonValue};
use geckodriver_command::params::{
    AddonUninstallParameters, GeckoContext, GeckoContextParameters, XblLocatorParameters,
};
use geckodriver_command::print::{PrintMargins, PrintOrientation, PrintPage, PrintParameters};

fn obj(members: Vec<(&str, JsonValue)>) -> JsonValue {
    JsonValue::Object(members.into_iter().map(|(k, v)| (k.to_string(), v)).collect())
}

fn text(s: &str) -> JsonValue {
    JsonValue::Text(s.to_string())
}

fn whole(n: u64) -> JsonValue {
    JsonValue::Number(Decimal::from_int(n))
}

fn dec(digits: u64, scale: u32) -> JsonValue {
    JsonValue::Number(Decimal::new(digits, scale))
}

fn inline_of(j: &JsonValue) -> geckodriver_command::addon::InlineAddon {
    match AddonInstallParameters::from_json(j).unwrap() {
        AddonInstallSource::Inline(i) => i,
        AddonInstallSource::Ready(_) => panic!("expected an inline add-on"),
    }
}

fn ready_of(j: &JsonValue) -> AddonInstallParameters {
    match AddonInstallParameters::from_json(j).unwrap() {
        AddonInstallSource::Ready(p) => p,
        AddonInstallSource::Inline(_) => panic!("expected a path"),
    }
}

#[test]
fn test_json_addon_install_parameters_invalid() {
    assert!(serde_json::from_str::<serde_json::Value>("").is_err());
    assert!(AddonInstallParameters::from_json(&JsonValue::Null).is_err());
    assert!(AddonInstallParameters::from_json(&obj(vec![])).is_err());
}

#[test]
fn test_json_addon_install_parameters_with_path_and_temporary() {
    let params = AddonInstallParameters {
        path: "/path/to.xpi".to_string(),
        temporary: Some(true),
    };
    let json = obj(vec![("path", text("/path/to.xpi")), ("temporary", JsonValue::Bool(true))]);
    assert_eq!(params, ready_of(&json));
}

#[test]
fn test_json_addon_install_parameters_with_path() {
    let params = AddonInstallParameters {
        path: "/path/to.xpi".to_string(),
        temporary: None,
    };
    assert_eq!(params, ready_of(&obj(vec![("path", text("/path/to.xpi"))])));
}

#[test]
fn test_json_addon_install_parameters_with_path_invalid_type() {
    let json = obj(vec![("path", JsonValue::Bool(true)), ("temporary", JsonValue::Bool(true))]);
    assert!(AddonInstallParameters::from_json(&json).is_err());
}

#[test]
fn test_json_addon_install_parameters_with_path_and_temporary_invalid_type() {
    let json = obj(vec![("path", text("/path/to.xpi")), ("temporary", text("foo"))]);
    assert!(AddonInstallParameters::from_json(&json).is_err());
}

#[test]
fn test_json_addon_install_parameters_with_addon() {
    let json = obj(vec![("addon", text("aGVsbG8=")), ("temporary", JsonValue::Bool(true))]);
    let data = inline_of(&json);
    assert_eq!(data.temporary, Some(true));
    assert_eq!(data.content, b"hello".to_vec());
}

#[test]
fn test_json_addon_install_parameters_with_addon_only() {
    let json = obj(vec![("addon", text("aGVsbG8="))]);
    let data = inline_of(&json);
    assert_eq!(data.temporary, None);
    assert_eq!(String::from_utf8(data.content).unwrap(), "hello");
}

#[test]
fn test_json_addon_install_parameters_with_addon_invalid_type() {
    let json = obj(vec![("addon", JsonValue::Bool(true)), ("temporary", JsonValue::Bool(true))]);
    assert!(AddonInstallParameters::from_json(&json).is_err());
}

#[test]
fn test_json_addon_install_parameters_with_addon_and_temporary_invalid_type() {
    let json = obj(vec![("addon", text("aGVsbG8=")), ("temporary", text("foo"))]);
    assert!(AddonInstallParameters::from_json(&json).is_err());
}

#[test]
fn test_json_install_parameters_with_temporary_only() {
    let json = obj(vec![("temporary", JsonValue::Bool(true))]);
    assert!(AddonInstallParameters::from_json(&json).is_err());
}

#[test]
fn test_json_addon_install_parameters_with_both_path_and_addon() {
    let json = obj(vec![
        ("path", text("/path/to.xpi")),
        ("addon", text("aGVsbG8=")),
        ("temporary", JsonValue::Bool(true)),
    ]);
    assert!(AddonInstallParameters::from_json(&json).is_err());
}

#[test]
fn test_json_addon_uninstall_parameters_invalid() {
    assert!(serde_json::from_str::<serde_json::Value>("").is_err());
    assert!(AddonUninstallParameters::from_json(&JsonValue::Null).is_err());
    assert!(AddonUninstallParameters::from_json(&obj(vec![])).is_err());
}

#[test]
fn test_json_addon_uninstall_parameters() {
    let params = AddonUninstallParameters { id: "foo".to_string() };
    let decoded = AddonUninstallParameters::from_json(&obj(vec![("id", text("foo"))])).unwrap();
    assert_eq!(params, decoded);
}

#[test]
fn test_json_addon_uninstall_parameters_id_invalid_type() {
    let json = obj(vec![("id", JsonValue::Bool(true))]);
    assert!(AddonUninstallParameters::from_json(&json).is_err());
}

#[test]
fn test_json_gecko_context_parameters_content() {
    let params = GeckoContextParameters { context: GeckoContext::Content };
    let decoded = GeckoContextParameters::from_json(&obj(vec![("context", text("content"))]));
    assert_eq!(params, decoded.unwrap());
}

#[test]
fn test_json_gecko_context_parameters_chrome() {
    let params = GeckoContextParameters { context: GeckoContext::Chrome };
    let decoded = GeckoContextParameters::from_json(&obj(vec![("context", text("chrome"))]));
    assert_eq!(params, decoded.unwrap());
}

#[test]
fn test_json_gecko_context_parameters_context_invalid() {
    type P = GeckoContextParameters;
    assert!(P::from_json(&obj(vec![])).is_err());
    assert!(P::from_json(&obj(vec![("context", JsonValue::Null)])).is_err());
    assert!(P::from_json(&obj(vec![("context", text("foo"))])).is_err());
}

#[test]
fn test_json_xbl_anonymous_by_attribute() {
    let locator = XblLocatorParameters {
        name: "foo".to_string(),
        value: "bar".to_string(),
    };
    let json = obj(vec![("name", text("foo")), ("value", text("bar"))]);
    assert_eq!(locator, XblLocatorParameters::from_json(&json).unwrap());
}

#[test]
fn test_json_xbl_anonymous_by_attribute_with_name_invalid() {
    type P = XblLocatorParameters;
    assert!(P::from_json(&obj(vec![("value", text("bar"))])).is_err());
    assert!(P::from_json(&obj(vec![("name", JsonValue::Null), ("value", text("bar"))])).is_err());
    assert!(P::from_json(&obj(vec![("name", text("foo"))])).is_err());
    assert!(P::from_json(&obj(vec![("name", text("foo")), ("value", JsonValue::Null)])).is_err());
}

#[test]
fn test_json_gecko_print_defaults() {
    let params = PrintParameters::default();
    assert_eq!(params, PrintParameters::from_json(&obj(vec![])).unwrap());
}

#[test]
fn test_json_gecko_print() {
    let params = PrintParameters {
        orientation: PrintOrientation::Landscape,
        page: PrintPage {
            width: Decimal::from_int(10),
            ..Default::default()
        },
        margin: PrintMargins {
            top: Decimal::from_int(10),
            ..Default::default()
        },
        scale: Decimal::new(15, 1),
        ..Default::default()
    };
    let json = obj(vec![
        ("orientation", text("landscape")),
        ("page", obj(vec![("width", whole(10))])),
        ("margin", obj(vec![("top", whole(10))])),
        ("scale", dec(15, 1)),
    ]);
    assert_eq!(params, PrintParameters::from_json(&json).unwrap());
}

#[test]
fn test_json_gecko_scale_invalid() {
    assert!(AddonInstallParameters::from_json(&obj(vec![("scale", whole(3))])).is_err());
}
