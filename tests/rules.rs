use mcl_rs::metadata::native_classifier;
use mcl_rs::metadata::{
    Argument, ArgumentValue, Arguments, Library, LibraryResource, LibraryResources, Resource,
};
use mcl_rs::rules::{OsDescription, PlatformContext, Rule, RuleAction, Rules};

fn ctx(os: &str, arch: &str) -> PlatformContext {
    PlatformContext::new(os.to_string(), arch.to_string())
}

fn os_rule(action: RuleAction, name: Option<&str>, arch: Option<&str>) -> Rule {
    Rule {
        action,
        os: Some(OsDescription {
            name: name.map(String::from),
            version: None,
            arch: arch.map(String::from),
        }),
        features: None,
    }
}

fn library(rules: Option<Rules>) -> Library {
    Library {
        resources: LibraryResources { artifact: None, other: None },
        name: "lib".to_string(),
        rules,
    }
}

#[test]
fn rule_action_value_invert_chain() {
    assert!(RuleAction::Allow.value());
    assert!(!RuleAction::Disallow.value());
    assert_eq!(RuleAction::Allow.invert(), RuleAction::Disallow);
    assert_eq!(RuleAction::Disallow.invert(), RuleAction::Allow);
    assert_eq!(RuleAction::Allow.chain(RuleAction::Allow), RuleAction::Allow);
    assert_eq!(RuleAction::Allow.chain(RuleAction::Disallow), RuleAction::Disallow);
    assert_eq!(RuleAction::Disallow.chain(RuleAction::Allow), RuleAction::Disallow);
}

#[test]
fn disallow_linux_on_windows_is_allowed() {
    let rules = Rules(vec![os_rule(RuleAction::Disallow, Some("linux"), None)]);
    assert!(rules.is_allowed(&ctx("windows", "x86_64")));
    assert!(!rules.is_allowed(&ctx("linux", "x86_64")));
}

#[test]
fn empty_rule_set_differs_from_no_rule_set() {
    let c = ctx("linux", "x86_64");
    assert!(!Rules(vec![]).is_allowed(&c));
    assert!(!library(Some(Rules(vec![]))).is_supported_by_rules(&c));
    assert!(library(None).is_supported_by_rules(&c));
}

#[test]
fn arch_filter_inverts_on_mismatch() {
    let rule = os_rule(RuleAction::Allow, None, Some("x86"));
    assert_eq!(rule.calculate_action(&ctx("linux", "x86_64")), RuleAction::Disallow);
    assert_eq!(rule.calculate_action(&ctx("linux", "x86")), RuleAction::Allow);
    assert!(rule.is_allowed(&ctx("windows", "x86")));
}

#[test]
fn os_version_filter_is_ignored() {
    let rule = Rule {
        action: RuleAction::Allow,
        os: Some(OsDescription {
            name: Some("osx".to_string()),
            version: Some("^10\\.5\\.\\d$".to_string()),
            arch: None,
        }),
        features: None,
    };
    assert!(rule.is_allowed(&ctx("osx", "x86_64")));
    assert!(!rule.is_allowed(&ctx("linux", "x86_64")));
}

#[test]
fn feature_filter_uses_false_for_missing_flags() {
    let rule = Rule {
        action: RuleAction::Allow,
        os: None,
        features: Some(vec![("is_demo_user".to_string(), true)]),
    };
    let mut c = ctx("linux", "x86_64");
    assert!(!rule.is_allowed(&c));
    c.set_feature("is_demo_user".to_string(), true);
    assert!(rule.is_allowed(&c));
    c.set_feature("is_demo_user".to_string(), false);
    assert!(!rule.is_allowed(&c));
    assert!(!c.feature(&"has_custom_resolution".to_string()));

    let wants_false = Rule {
        action: RuleAction::Allow,
        os: None,
        features: Some(vec![("has_quick_plays_support".to_string(), false)]),
    };
    assert!(wants_false.is_allowed(&ctx("linux", "x86_64")));
}

#[test]
fn any_allowing_rule_suffices() {
    let rules = Rules(vec![
        os_rule(RuleAction::Allow, Some("osx"), None),
        os_rule(RuleAction::Allow, Some("linux"), None),
    ]);
    assert!(rules.is_allowed(&ctx("linux", "x86_64")));
    // On Windows both filters fail, so both rules invert to Disallow.
    assert!(!rules.is_allowed(&ctx("windows", "x86_64")));
}

#[test]
fn argument_strings_follow_rules() {
    let c = ctx("linux", "x86_64");
    let plain = Argument::Plain("--demo".to_string());
    assert_eq!(plain.iter_strings(&c), vec!["--demo".to_string()]);
    let gated = Argument::RuleSpecific {
        value: ArgumentValue::Many(vec!["-Xss1M".to_string(), "-Xmx2G".to_string()]),
        rules: Rules(vec![os_rule(RuleAction::Allow, Some("linux"), None)]),
    };
    assert_eq!(gated.iter_strings(&c), vec!["-Xss1M".to_string(), "-Xmx2G".to_string()]);
    assert!(gated.iter_strings(&ctx("windows", "x86_64")).is_empty());
    let one = Argument::RuleSpecific {
        value: ArgumentValue::One("-XstartOnFirstThread".to_string()),
        rules: Rules(vec![os_rule(RuleAction::Allow, Some("osx"), None)]),
    };
    assert!(one.iter_strings(&c).is_empty());
    assert_eq!(one.iter_strings(&ctx("osx", "x86_64")), vec!["-XstartOnFirstThread".to_string()]);
}

#[test]
fn modern_and_legacy_argument_lists() {
    let c = ctx("linux", "x86_64");
    let modern = Arguments::Modern {
        game: vec![Argument::Plain("--username".to_string()), Argument::Plain("${auth_player_name}".to_string())],
        jvm: vec![
            Argument::RuleSpecific {
                value: ArgumentValue::One("-Dos.name=Windows 10".to_string()),
                rules: Rules(vec![os_rule(RuleAction::Allow, Some("windows"), None)]),
            },
            Argument::Plain("-cp".to_string()),
        ],
    };
    assert_eq!(modern.iter_jvm_args(&c), vec!["-cp".to_string()]);
    assert_eq!(
        modern.iter_game_args(&c),
        vec!["--username".to_string(), "${auth_player_name}".to_string()]
    );
    let legacy = Arguments::Legacy(vec!["--username".to_string(), "x".to_string()]);
    assert!(legacy.iter_jvm_args(&c).is_empty());
    assert_eq!(legacy.iter_game_args(&c), vec!["--username".to_string(), "x".to_string()]);
}

#[test]
fn native_classifier_per_platform() {
    assert_eq!(native_classifier(&ctx("linux", "x86_64")), Some("natives-linux".to_string()));
    assert_eq!(native_classifier(&ctx("windows", "x86_64")), Some("natives-windows".to_string()));
    assert_eq!(native_classifier(&ctx("macos", "x86_64")), Some("natives-macos".to_string()));
    assert_eq!(native_classifier(&ctx("macos", "aarch64")), Some("natives-macos-arm64".to_string()));
    assert_eq!(native_classifier(&ctx("freebsd", "x86_64")), None);
}

#[test]
fn native_artifact_lookup() {
    let res = |p: &str| LibraryResource {
        resource: Resource { sha1: "00".to_string(), size: 1, url: format!("http://x/{}", p) },
        path: p.to_string(),
    };
    let resources = LibraryResources {
        artifact: None,
        other: Some(vec![
            ("natives-windows".to_string(), res("w.jar")),
            ("natives-linux".to_string(), res("l.jar")),
            ("natives-linux".to_string(), res("second.jar")),
        ]),
    };
    assert_eq!(resources.get_native_for_os(&"natives-linux".to_string()).unwrap().path, "l.jar");
    assert!(resources.get_native_for_os(&"natives-macos".to_string()).is_none());
    let none = LibraryResources { artifact: None, other: None };
    assert!(none.get_native_for_os(&"natives-linux".to_string()).is_none());
}
