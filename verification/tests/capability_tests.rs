//! Capability resolution, catalog, builder, and suggestion behaviour.

use rappct::{
    AppContainerSid, AcError, Capability, CapabilityCatalog, CapabilityName, CapabilityResolver,
    KnownCapability, SE_GROUP_ENABLED, SecurityCapabilitiesBuilder, all_capability_names,
    derive_named_capability_sids, suggest_capability_name,
};

fn test_resolver() -> CapabilityResolver {
    let mut r = CapabilityResolver::new();
    let names = all_capability_names();
    for (i, n) in names.iter().enumerate() {
        let sddl = format!("S-1-15-3-{}", 1024 + i);
        r.register(n.as_str(), &sddl).expect("register");
    }
    r
}

fn sample_sid() -> AppContainerSid {
    AppContainerSid::from_sddl("S-1-15-2-1")
}

#[test]
fn suggests_known_capability_when_above_threshold() {
    let suggestion = suggest_capability_name("internetClientt");
    assert_eq!(suggestion, Some("internetClient"));
}

#[test]
fn suppresses_suggestion_below_threshold() {
    assert_eq!(
        suggest_capability_name("internetServer"),
        Some("internetClientServer")
    );
}

#[test]
fn prefers_highest_similarity_match() {
    let suggestion = suggest_capability_name("privateNetworkClientserve");
    assert_eq!(suggestion, Some("privateNetworkClientServer"));
}

#[test]
fn lpac_defaults_enable_flag_and_append_registry_and_lpaccom() {
    let sid = sample_sid();
    let builder = SecurityCapabilitiesBuilder::new(&sid).with_lpac_defaults();
    assert!(builder.lpac_enabled_for_test());
    let names: Vec<&str> = builder
        .named_caps_for_test()
        .iter()
        .map(|s| s.as_str())
        .collect();
    assert_eq!(names, vec!["registryRead", "lpacCom"]);
}

#[test]
fn known_capabilities_are_mapped_to_expected_names() {
    let sid = sample_sid();
    let builder = SecurityCapabilitiesBuilder::new(&sid)
        .with_known(&[
            KnownCapability::InternetClient,
            KnownCapability::InternetClientServer,
        ])
        .with_lpac_defaults();
    let names: Vec<&str> = builder
        .named_caps_for_test()
        .iter()
        .map(|s| s.as_str())
        .collect();
    assert_eq!(
        names,
        vec![
            "internetClient",
            "internetClientServer",
            "registryRead",
            "lpacCom"
        ]
    );
}

#[test]
fn empty_builder_builds_empty_capability_set() {
    let resolver = test_resolver();
    let sec = SecurityCapabilitiesBuilder::new(&sample_sid())
        .build(&resolver)
        .expect("build empty capability set");
    assert_eq!(sec.caps.len(), 0);
    assert!(!sec.lpac);
    assert_eq!(sec.package.as_string(), "S-1-15-2-1");
}

#[test]
fn build_is_all_or_nothing_on_unknown_name() {
    let resolver = test_resolver();
    let err = SecurityCapabilitiesBuilder::new(&sample_sid())
        .with_known(&[KnownCapability::InternetClient])
        .with_named(&["notACapability"])
        .build(&resolver)
        .expect_err("unknown name must abort the build");
    match err {
        AcError::UnknownCapability { name, .. } => assert_eq!(name, "notACapability"),
        other => panic!("expected unknown capability, got {:?}", other),
    }
}

#[test]
fn capability_try_from_str_handles_known_and_unknown() {
    let resolver = test_resolver();
    let cap = Capability::try_from_str(&resolver, "internetClient").expect("internetClient capability");
    assert_eq!(cap.name(), CapabilityName::InternetClient);
    match Capability::try_from_str(&resolver, "internetClientX") {
        Err(AcError::UnknownCapability { .. }) => {}
        other => panic!("expected unknown capability error, got {other:?}"),
    }
}

#[test]
fn capability_catalog_resolves_known_entries() {
    let resolver = test_resolver();
    let catalog = CapabilityCatalog::new(&resolver).expect("catalog");
    for name in all_capability_names() {
        let cap = catalog.capability(name);
        assert!(cap.is_some(), "missing capability {name:?}");
        assert!(catalog.lookup(name.as_str()).is_ok());
    }
}

#[test]
fn capability_catalog_lookup_sid_round_trips() {
    let resolver = test_resolver();
    let catalog = CapabilityCatalog::new(&resolver).expect("catalog");
    let cap = catalog.lookup("internetClient").expect("lookup");
    let back = catalog.lookup_sid(&cap.sid().sid_sddl);
    assert_eq!(back, Some(CapabilityName::InternetClient));
    assert_eq!(catalog.lookup_sid("S-1-0-0"), None);
}

#[test]
fn derive_known_capability_sids() {
    let resolver = test_resolver();
    let v = derive_named_capability_sids(&resolver, &["internetClient"]).expect("derive caps");
    assert!(!v.is_empty());
}

#[test]
fn capability_derivation_repeated_calls_are_successful() {
    let resolver = test_resolver();
    let a = derive_named_capability_sids(&resolver, &["internetClient"]).expect("derive caps");
    let b = derive_named_capability_sids(&resolver, &["internetClient"]).expect("derive caps");
    assert_eq!(a, b);
}

#[test]
fn resolution_is_deterministic_and_enabled() {
    let resolver = test_resolver();
    let a = resolver.resolve("internetClient").expect("resolved");
    let b = resolver.resolve("internetClient").expect("resolved");
    assert_eq!(a, b);
    assert_eq!(a.attributes & SE_GROUP_ENABLED, SE_GROUP_ENABLED);
}

#[test]
fn unknown_capability_lookup_carries_close_suggestion() {
    let resolver = test_resolver();
    let catalog = CapabilityCatalog::new(&resolver).expect("catalog");
    match catalog.lookup("internetClientt") {
        Err(AcError::UnknownCapability { name, suggestion }) => {
            assert_eq!(name, "internetClientt");
            assert_eq!(suggestion, Some("internetClient"));
        }
        other => panic!("expected unknown capability, got {other:?}"),
    }
}

#[test]
fn register_rejects_malformed_sddl() {
    let mut r = CapabilityResolver::new();
    match r.register("broken", "invalid-sddl") {
        Err(AcError::InvalidSid(d)) => assert_eq!(d, "invalid-sddl"),
        other => panic!("expected invalid SID, got {other:?}"),
    }
    assert!(r.resolve("broken").is_none());
}

#[test]
fn known_caps_map_to_friendly_strings() {
    let names = rappct::known_caps_to_named(&[
        CapabilityName::InternetClient,
        CapabilityName::RegistryRead,
        CapabilityName::LpacCom,
    ]);
    assert_eq!(names, vec!["internetClient", "registryRead", "lpacCom"]);
}

#[test]
fn builder_unwrap_is_identity() {
    let sid = sample_sid();
    let builder = SecurityCapabilitiesBuilder::new(&sid)
        .with_known(&[KnownCapability::Webcam])
        .unwrap()
        .lpac(true);
    assert!(builder.lpac_enabled_for_test());
    let names: Vec<&str> = builder
        .named_caps_for_test()
        .iter()
        .map(|s| s.as_str())
        .collect();
    assert_eq!(names, vec!["webcam"]);
}
