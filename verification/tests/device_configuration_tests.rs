use buttplug::device_configuration::{
    add_user_configs_to_protocol, create_test_dcm, get_internal_config_version,
    load_protocol_configs_from_json, BluetoothLESpecifier, DeviceUserConfig, ProtocolAttributes,
    ProtocolAttributesType, ProtocolCommunicationSpecifier, ProtocolConfiguration,
    ProtocolDefinition, ProtocolDeviceAttributes, ProtocolDeviceConfiguration,
    ServerDeviceIdentifier, USBSpecifier, UserConfigDefinition, INTERNAL_CONFIG_VERSION,
};
use buttplug::errors::{ButtplugDeviceError, ButtplugError, ConfigurationErrorDetail};

fn sample_definition() -> ProtocolDefinition {
    ProtocolDefinition {
        usb: Some(vec![USBSpecifier { vendor_id: 0x1234, product_id: 0x5678 }]),
        btle: Some(BluetoothLESpecifier {
            names: vec!["DG-LAB".to_owned()],
            services: vec!["180f".to_owned()],
        }),
        serial: None,
        hid: None,
        xinput: None,
        websocket: None,
        lovense_connect_service: None,
        defaults: Some(ProtocolAttributes {
            identifier: None,
            name: Some("Generic Device".to_owned()),
            messages: None,
        }),
        configurations: vec![ProtocolAttributes {
            identifier: Some(vec!["MODEL-A".to_owned()]),
            name: Some("Model A".to_owned()),
            messages: None,
        }],
    }
}

fn identifier(address: &str, protocol: &str, ident: Option<&str>) -> ServerDeviceIdentifier {
    ServerDeviceIdentifier::new(
        address.to_owned(),
        protocol.to_owned(),
        match ident {
            Some(s) => ProtocolAttributesType::Identifier(s.to_owned()),
            None => ProtocolAttributesType::Default,
        },
    )
}

fn loaded_config(user: Option<UserConfigDefinition>) -> buttplug::device_configuration::ExternalDeviceConfiguration {
    let main = ProtocolConfiguration {
        version: INTERNAL_CONFIG_VERSION,
        protocols: Some(vec![("sample".to_owned(), sample_definition())]),
        user_configs: None,
    };
    let user_config = user.map(|u| ProtocolConfiguration {
        version: INTERNAL_CONFIG_VERSION,
        protocols: None,
        user_configs: Some(u),
    });
    load_protocol_configs_from_json(main, user_config, false).expect("versions match")
}

#[test]
fn specifier_flattening_keeps_transport_order() {
    let pdc = ProtocolDeviceConfiguration::from_definition(sample_definition());
    let specs = pdc.specifiers();
    assert_eq!(specs.len(), 2);
    match &specs[0] {
        ProtocolCommunicationSpecifier::USB(u) => {
            assert_eq!(u.vendor_id, 0x1234);
            assert_eq!(u.product_id, 0x5678);
        }
        other => panic!("expected the USB specifier first, got {:?}", other),
    }
    match &specs[1] {
        ProtocolCommunicationSpecifier::BluetoothLE(b) => {
            assert_eq!(b.names, vec!["DG-LAB".to_owned()]);
        }
        other => panic!("expected the Bluetooth LE specifier, got {:?}", other),
    }
    // default attribute set first, then the identifier-keyed one
    let configs = pdc.configurations();
    assert_eq!(configs.len(), 2);
    assert!(matches!(configs[0].0, ProtocolAttributesType::Default));
    match &configs[1].0 {
        ProtocolAttributesType::Identifier(s) => assert_eq!(s, "MODEL-A"),
        other => panic!("expected an identifier key, got {:?}", other),
    }
    assert_eq!(configs[1].1.name, Some("Model A".to_owned()));
}

#[test]
fn outdated_document_is_rejected_unless_bypassed() {
    assert!(INTERNAL_CONFIG_VERSION > 0, "the version check needs an older version to exist");
    let old = ProtocolConfiguration {
        version: INTERNAL_CONFIG_VERSION - 1,
        protocols: Some(vec![]),
        user_configs: None,
    };
    let err = load_protocol_configs_from_json(old, None, false)
        .expect_err("an older document must be rejected");
    assert_eq!(
        err,
        ButtplugError::ButtplugDeviceError(ButtplugDeviceError::DeviceConfigurationError(
            ConfigurationErrorDetail::VersionOlderThanInternal {
                document: INTERNAL_CONFIG_VERSION - 1,
                internal: INTERNAL_CONFIG_VERSION,
            }
        ))
    );
    let old_again = ProtocolConfiguration {
        version: INTERNAL_CONFIG_VERSION - 1,
        protocols: Some(vec![]),
        user_configs: None,
    };
    load_protocol_configs_from_json(old_again, None, true)
        .expect("bypassing the version check accepts the document");
}

#[test]
fn outdated_user_document_is_rejected_too() {
    let main = ProtocolConfiguration {
        version: INTERNAL_CONFIG_VERSION,
        protocols: Some(vec![]),
        user_configs: None,
    };
    let user = ProtocolConfiguration {
        version: INTERNAL_CONFIG_VERSION - 1,
        protocols: None,
        user_configs: Some(UserConfigDefinition::default()),
    };
    let err = load_protocol_configs_from_json(main, Some(user), false)
        .expect_err("an older user document must be rejected");
    assert_eq!(
        err,
        ButtplugError::ButtplugDeviceError(ButtplugDeviceError::DeviceConfigurationError(
            ConfigurationErrorDetail::VersionOlderThanInternal {
                document: INTERNAL_CONFIG_VERSION - 1,
                internal: INTERNAL_CONFIG_VERSION,
            }
        ))
    );
}

#[test]
fn user_specifiers_extend_known_protocols_and_skip_unknown_ones() {
    let mut config = loaded_config(None);
    assert_eq!(config.protocol_specifiers()[0].1.len(), 2);
    let user = UserConfigDefinition {
        specifiers: vec![
            (
                "sample".to_owned(),
                ProtocolDefinition {
                    usb: Some(vec![USBSpecifier { vendor_id: 1, product_id: 2 }]),
                    ..ProtocolDefinition::default()
                },
            ),
            (
                "unknown".to_owned(),
                ProtocolDefinition {
                    usb: Some(vec![USBSpecifier { vendor_id: 9, product_id: 9 }]),
                    ..ProtocolDefinition::default()
                },
            ),
        ],
        user_configs: vec![],
    };
    add_user_configs_to_protocol(&mut config, user);
    // one table entry still, with the user specifier appended after built-ins
    assert_eq!(config.protocol_specifiers().len(), 1);
    let entry = &config.protocol_specifiers()[0];
    assert_eq!(entry.0, "sample");
    assert_eq!(entry.1.len(), 3);
    match &entry.1[2] {
        ProtocolCommunicationSpecifier::USB(u) => assert_eq!(u.vendor_id, 1),
        other => panic!("expected the appended USB specifier, got {:?}", other),
    }
}

#[test]
fn allow_deny_and_reserved_index_entries_are_recorded() {
    let ident = identifier("AA:BB", "sample", None);
    let mut cfg = DeviceUserConfig::default();
    cfg.set_allow(Some(true));
    cfg.set_index(Some(7));
    let mut cfg2 = DeviceUserConfig::default();
    cfg2.set_deny(Some(true));
    let user = UserConfigDefinition {
        specifiers: vec![],
        user_configs: vec![
            (ident, cfg),
            (identifier("CC:DD", "sample", None), cfg2),
        ],
    };
    let config = loaded_config(Some(user));
    assert_eq!(config.allow_list(), &vec!["AA:BB".to_owned()]);
    assert_eq!(config.deny_list(), &vec!["CC:DD".to_owned()]);
    assert_eq!(config.reserved_indexes().len(), 1);
    assert_eq!(config.reserved_indexes()[0].0, 7);
    assert_eq!(config.reserved_indexes()[0].1.address(), "AA:BB");
}

#[test]
fn attribute_resolution_falls_back_from_identifier_to_default() {
    let config = loaded_config(None);
    // known identifier resolves its own entry
    let known = identifier("AA:BB", "sample", Some("MODEL-A"));
    let attrs = config.resolve_attributes(&known).expect("identifier entry exists");
    assert_eq!(attrs.name, Some("Model A".to_owned()));
    // unknown identifier falls back to the default entry
    let unknown = identifier("AA:BB", "sample", Some("MODEL-B"));
    let attrs = config.resolve_attributes(&unknown).expect("default entry exists");
    assert_eq!(attrs.name, Some("Generic Device".to_owned()));
    // unknown protocol resolves nothing
    let other = identifier("AA:BB", "other", None);
    assert!(config.resolve_attributes(&other).is_none());
}

#[test]
fn user_entry_overrides_protocol_attributes() {
    let ident = identifier("AA:BB", "sample", Some("MODEL-A"));
    let mut cfg = DeviceUserConfig::default();
    cfg.display_name = Some("My Device".to_owned());
    let user = UserConfigDefinition {
        specifiers: vec![],
        user_configs: vec![(ident, cfg)],
    };
    let config = loaded_config(Some(user));
    let looked_up = identifier("AA:BB", "sample", Some("MODEL-A"));
    let attrs = config.resolve_attributes(&looked_up).expect("user entry exists");
    assert_eq!(attrs.display_name, Some("My Device".to_owned()));
    assert_eq!(attrs.name, None);
}

#[test]
fn deny_listed_address_never_resolves() {
    let ident = identifier("AA:BB", "sample", Some("MODEL-A"));
    let mut cfg = DeviceUserConfig::default();
    // even allow-listing the same address must not beat the deny list
    cfg.set_allow(Some(true));
    cfg.set_deny(Some(true));
    let user = UserConfigDefinition {
        specifiers: vec![],
        user_configs: vec![(ident, cfg)],
    };
    let config = loaded_config(Some(user));
    assert!(!config.address_allowed(&"AA:BB".to_owned()));
    let denied = identifier("AA:BB", "sample", Some("MODEL-A"));
    assert!(config.resolve_attributes(&denied).is_none());
}

#[test]
fn allow_list_admits_only_its_members() {
    let mut cfg = DeviceUserConfig::default();
    cfg.set_allow(Some(true));
    let user = UserConfigDefinition {
        specifiers: vec![],
        user_configs: vec![(identifier("AA:BB", "sample", None), cfg)],
    };
    let config = loaded_config(Some(user));
    assert!(config.address_allowed(&"AA:BB".to_owned()));
    assert!(!config.address_allowed(&"EE:FF".to_owned()));
    let outsider = identifier("EE:FF", "sample", Some("MODEL-A"));
    assert!(config.resolve_attributes(&outsider).is_none());
}

#[test]
fn later_user_entries_shadow_earlier_ones() {
    let mut first = DeviceUserConfig::default();
    first.display_name = Some("First".to_owned());
    let mut second = DeviceUserConfig::default();
    second.display_name = Some("Second".to_owned());
    let user = UserConfigDefinition {
        specifiers: vec![],
        user_configs: vec![
            (identifier("AA:BB", "sample", None), first),
            (identifier("AA:BB", "sample", None), second),
        ],
    };
    let config = loaded_config(Some(user));
    let looked_up = identifier("AA:BB", "sample", None);
    let attrs = config.resolve_attributes(&looked_up).expect("user entry exists");
    assert_eq!(attrs.display_name, Some("Second".to_owned()));
}

#[test]
fn new_builds_the_given_configuration() {
    let pdc = ProtocolDeviceConfiguration::new(
        vec![ProtocolCommunicationSpecifier::USB(USBSpecifier { vendor_id: 1, product_id: 2 })],
        vec![(
            ProtocolAttributesType::Default,
            ProtocolDeviceAttributes::new(ProtocolAttributesType::Default, None, None, vec![]),
        )],
    );
    assert_eq!(pdc.specifiers().len(), 1);
    assert_eq!(pdc.configurations().len(), 1);
}

#[test]
fn test_dcm_starts_from_the_empty_builtin_configuration() {
    let dcm = create_test_dcm(true);
    assert!(dcm.allow_raw_messages);
    assert!(dcm.protocol_specifiers.is_empty());
    assert!(dcm.protocol_attributes.is_empty());
    let dcm2 = create_test_dcm(false);
    assert!(!dcm2.allow_raw_messages);
}

#[test]
fn internal_version_is_exposed() {
    assert_eq!(get_internal_config_version(), INTERNAL_CONFIG_VERSION);
}
