use geckodriver_command::addon::{addon_file_name, AddonInstallParameters, AddonInstallSource};
use geckodriver_command::command::{
    extension_routes, CommandError, GeckoExtensionCommand, GeckoExtensionRoute, HttpMethod,
    Resolution,
};
use geckodriver_command::json::{Decimal, JsonValue};
use geckodriver_command::params::{GeckoContext, GeckoContextParameters, XblLocatorParameters};
use geckodriver_command::print::{PrintPage, PrintParameters};
use geckodriver_command::{LogOptions, CHROME_ELEMENT_KEY};

fn obj(members: Vec<(&str, JsonValue)>) -> JsonValue {
    JsonValue::Object(members.into_iter().map(|(k, v)| (k.to_string(), v)).collect())
}

fn text(s: &str) -> JsonValue {
    JsonValue::Text(s.to_string())
}

fn scale_body(digits: u64, scale: u32) -> JsonValue {
    obj(vec![("scale", JsonValue::Number(Decimal::new(digits, scale)))])
}

fn element_params() -> Vec<(String, String)> {
    vec![
        ("sessionId".to_string(), "s1".to_string()),
        ("elementId".to_string(), "e42".to_string()),
    ]
}

#[test]
fn route_table_has_every_route_in_order() {
    let routes = extension_routes();
    assert_eq!(routes.len(), 8);
    assert_eq!(routes[0], (HttpMethod::Get, "/session/{sessionId}/moz/context", GeckoExtensionRoute::GetContext));
    assert_eq!(routes[1].2, GeckoExtensionRoute::SetContext);
    assert_eq!(routes[1].0, HttpMethod::Post);
    assert_eq!(routes[3].1, "/session/{sessionId}/moz/xbl/{elementId}/anonymous_by_attribute");
    assert_eq!(routes[6], (HttpMethod::Get, "/session/{sessionId}/moz/screenshot/full", GeckoExtensionRoute::TakeFullScreenshot));
    assert_eq!(routes[7], (HttpMethod::Post, "/session/{sessionId}/moz/print", GeckoExtensionRoute::Print));
}

#[test]
fn scale_bounds_are_inclusive() {
    assert_eq!(PrintParameters::from_json(&scale_body(1, 1)).unwrap().scale, Decimal::new(1, 1));
    assert_eq!(PrintParameters::from_json(&scale_body(2, 0)).unwrap().scale, Decimal::new(2, 0));
    assert_eq!(PrintParameters::from_json(&scale_body(200, 2)).unwrap().scale, Decimal::new(200, 2));
    assert!(PrintParameters::from_json(&scale_body(9, 2)).is_err());
    assert!(PrintParameters::from_json(&scale_body(201, 2)).is_err());
    assert!(PrintParameters::from_json(&scale_body(3, 0)).is_err());
    assert!(PrintParameters::from_json(&scale_body(0, 0)).is_err());
    let negative = JsonValue::Number(Decimal { negative: true, digits: 1, scale: 0 });
    assert!(PrintParameters::from_json(&obj(vec![("scale", negative)])).is_err());
}

#[test]
fn negative_sizes_are_rejected() {
    let neg = || JsonValue::Number(Decimal { negative: true, digits: 5, scale: 1 });
    assert!(PrintParameters::from_json(&obj(vec![("page", obj(vec![("height", neg())]))])).is_err());
    assert!(PrintParameters::from_json(&obj(vec![("margin", obj(vec![("left", neg())]))])).is_err());
    let zero = JsonValue::Number(Decimal { negative: true, digits: 0, scale: 0 });
    let p = PrintParameters::from_json(&obj(vec![("margin", obj(vec![("right", zero)]))])).unwrap();
    assert_eq!(p.margin.right.digits, 0);
}

#[test]
fn page_defaults_apply_per_member() {
    let body = obj(vec![("page", obj(vec![("width", JsonValue::Number(Decimal::from_int(10)))]))]);
    let p = PrintParameters::from_json(&body).unwrap();
    assert_eq!(p.page, PrintPage { width: Decimal::from_int(10), height: Decimal::new(2794, 2) });
    assert_eq!(p.margin.top, Decimal::new(10, 1));
}

#[test]
fn print_defaults_are_documented_values() {
    let p = PrintParameters::default();
    assert_eq!(p.page.width, Decimal::new(2159, 2));
    assert_eq!(p.scale, Decimal::new(10, 1));
    assert!(!p.background);
    assert!(p.shrink_to_fit);
    assert!(p.page_ranges.is_empty());
}

#[test]
fn print_members_of_wrong_kind_fail() {
    assert!(PrintParameters::from_json(&JsonValue::Null).is_err());
    assert!(PrintParameters::from_json(&obj(vec![("orientation", text("sideways"))])).is_err());
    assert!(PrintParameters::from_json(&obj(vec![("background", JsonValue::Null)])).is_err());
    assert!(PrintParameters::from_json(&obj(vec![("pageRanges", JsonValue::Array(vec![text("1-2"), JsonValue::Bool(true)]))])).is_err());
    let ok = PrintParameters::from_json(&obj(vec![
        ("pageRanges", JsonValue::Array(vec![text("1-2"), text("5")])),
        ("shrinkToFit", JsonValue::Bool(false)),
        ("unknown", JsonValue::Null),
    ]))
    .unwrap();
    assert_eq!(ok.page_ranges, vec!["1-2".to_string(), "5".to_string()]);
    assert!(!ok.shrink_to_fit);
}

#[test]
fn print_round_trip() {
    let body = obj(vec![
        ("orientation", text("landscape")),
        ("scale", JsonValue::Number(Decimal::new(75, 2))),
        ("pageRanges", JsonValue::Array(vec![text("3")])),
    ]);
    let p = PrintParameters::from_json(&body).unwrap();
    assert_eq!(PrintParameters::from_json(&p.to_json()).unwrap(), p);
}

#[test]
fn payload_round_trips_through_parameters_json() {
    let commands = vec![
        GeckoExtensionCommand::SetContext(GeckoContextParameters { context: GeckoContext::Chrome }),
        GeckoExtensionCommand::InstallAddon(AddonInstallParameters { path: "/a.xpi".to_string(), temporary: None }),
    ];
    let j = commands[0].parameters_json().unwrap();
    assert_eq!(GeckoContextParameters::from_json(&j).unwrap().context, GeckoContext::Chrome);
    let j = commands[1].parameters_json().unwrap();
    match AddonInstallParameters::from_json(&j).unwrap() {
        AddonInstallSource::Ready(p) => assert_eq!(p.path, "/a.xpi"),
        AddonInstallSource::Inline(_) => panic!("expected a path"),
    }
    assert!(GeckoExtensionCommand::GetContext.parameters_json().is_none());
    assert!(GeckoExtensionCommand::TakeFullScreenshot.parameters_json().is_none());
}

#[test]
fn missing_element_id_is_invalid_argument() {
    let bad_body = JsonValue::Null;
    for route in [GeckoExtensionRoute::XblAnonymousChildren, GeckoExtensionRoute::XblAnonymousByAttribute] {
        match route.command(&vec![], &bad_body) {
            Err(CommandError::InvalidArgument(m)) => assert_eq!(m, "Missing elementId parameter"),
            _ => panic!("expected an invalid argument"),
        }
    }
}

#[test]
fn resolver_builds_commands() {
    let body = obj(vec![("name", text("foo")), ("value", text("bar"))]);
    match GeckoExtensionRoute::XblAnonymousByAttribute.command(&element_params(), &body) {
        Ok(Resolution::Ready(GeckoExtensionCommand::XblAnonymousByAttribute(e, l))) => {
            assert_eq!(e.id, "e42");
            assert_eq!(l, XblLocatorParameters { name: "foo".to_string(), value: "bar".to_string() });
        }
        _ => panic!("expected a locator command"),
    }
    match GeckoExtensionRoute::XblAnonymousChildren.command(&element_params(), &JsonValue::Null) {
        Ok(Resolution::Ready(GeckoExtensionCommand::XblAnonymousChildren(e))) => assert_eq!(e.id, "e42"),
        _ => panic!("expected a children command"),
    }
    assert!(matches!(
        GeckoExtensionRoute::GetContext.command(&vec![], &JsonValue::Null),
        Ok(Resolution::Ready(GeckoExtensionCommand::GetContext))
    ));
    assert!(matches!(
        GeckoExtensionRoute::SetContext.command(&vec![], &obj(vec![("context", text("x"))])),
        Err(CommandError::Decode(_))
    ));
}

#[test]
fn inline_install_is_staged_and_completed() {
    let body = obj(vec![("addon", text("aGVsbG8="))]);
    let a = match GeckoExtensionRoute::InstallAddon.command(&vec![], &body) {
        Ok(Resolution::StageAddon(a)) => a,
        _ => panic!("expected an add-on to stage"),
    };
    assert_eq!(a.content, b"hello".to_vec());
    assert_eq!(addon_file_name("0f3c-9a"), "addon-0f3c-9a.xpi");
    match GeckoExtensionCommand::install_staged(&a, Ok("/tmp/x.xpi".to_string())) {
        Ok(GeckoExtensionCommand::InstallAddon(p)) => {
            assert_eq!(p.path, "/tmp/x.xpi");
            assert_eq!(p.temporary, None);
        }
        _ => panic!("expected an install command"),
    }
    assert!(GeckoExtensionCommand::install_staged(&a, Err("disk full".to_string())).is_err());
}

#[test]
fn invalid_base64_fails() {
    let body = obj(vec![("addon", text("not base64!"))]);
    assert!(AddonInstallParameters::from_json(&body).is_err());
}

#[test]
fn log_options_default_has_no_level() {
    assert_eq!(LogOptions::default().level, None);
    assert!(CHROME_ELEMENT_KEY.starts_with("chromeelement-"));
}

#[test]
fn range_errors_name_the_value() {
    let e = PrintParameters::from_json(&scale_body(25, 1)).unwrap_err();
    assert_eq!(e.message, "2.5 is outside range 0.1-2");
    let e = PrintParameters::from_json(&scale_body(5, 2)).unwrap_err();
    assert_eq!(e.message, "0.05 is outside range 0.1-2");
    let neg = JsonValue::Number(Decimal { negative: true, digits: 2159, scale: 2 });
    let e = PrintParameters::from_json(&obj(vec![("page", obj(vec![("width", neg)]))])).unwrap_err();
    assert_eq!(e.message, "-21.59 is negative");
    assert_eq!(Decimal::from_int(0).to_text(), "0");
    assert_eq!(Decimal::from_int(30).to_text(), "30");
}

fn members(j: &JsonValue) -> Vec<String> {
    match j {
        JsonValue::Object(f) => f.iter().map(|(k, _)| k.clone()).collect(),
        _ => panic!("expected an object"),
    }
}

#[test]
fn parameters_json_builds_exact_objects() {
    let c = GeckoExtensionCommand::SetContext(GeckoContextParameters { context: GeckoContext::Content });
    match c.parameters_json().unwrap() {
        JsonValue::Object(f) => {
            assert_eq!(f.len(), 1);
            assert_eq!(f[0].0, "context");
            assert!(matches!(&f[0].1, JsonValue::Text(t) if t == "content"));
        }
        _ => panic!("expected an object"),
    }
    let u = GeckoExtensionCommand::UninstallAddon(
        geckodriver_command::params::AddonUninstallParameters { id: "foo".to_string() },
    );
    assert_eq!(members(&u.parameters_json().unwrap()), vec!["id"]);
    let p = GeckoExtensionCommand::Print(PrintParameters::default()).parameters_json().unwrap();
    assert_eq!(
        members(&p),
        vec!["orientation", "scale", "background", "page", "margin", "pageRanges", "shrinkToFit"]
    );
    match p {
        JsonValue::Object(f) => {
            assert!(matches!(&f[0].1, JsonValue::Text(t) if t == "portrait"));
            assert_eq!(members(&f[3].1), vec!["width", "height"]);
            assert_eq!(members(&f[4].1), vec!["top", "bottom", "left", "right"]);
            assert!(matches!(&f[5].1, JsonValue::Array(v) if v.is_empty()));
        }
        _ => panic!("expected an object"),
    }
}

#[test]
fn negative_one_message() {
    let neg = JsonValue::Number(Decimal { negative: true, digits: 1, scale: 0 });
    let e = PrintParameters::from_json(&obj(vec![("margin", obj(vec![("top", neg)]))])).unwrap_err();
    assert_eq!(e.message, "-1 is negative");
    assert_eq!(Decimal::new(2794, 2).to_text(), "27.94");
    assert_eq!(Decimal::new(1, 3).to_text(), "0.001");
}
