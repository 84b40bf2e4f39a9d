use voyager_verifier::error::{ApiFailure, FailureKind};
use voyager_verifier::network::{get_network_api, CustomEndpoints, Network};

fn no_custom() -> CustomEndpoints {
    CustomEndpoints { internal_url: None, public_url: None }
}

#[test]
fn test_getting_default_voyager_endpoints() {
    let selected_network = Network::Sepolia;
    let actual_network_api = get_network_api(selected_network, &no_custom());

    // Assert that the internal api is correct
    assert_eq!(actual_network_api.0, "https://sepolia.voyager.online");
    // Assert that the public api is correct
    assert_eq!(actual_network_api.1, "https://sepolia-api.voyager.online/beta");
}

#[test]
fn test_getting_custom_endpoints() {
    let my_internal_api_url = "https://my-instance-internal-api.com";
    let my_public_api_url = "https://my-instance-public-api.com";
    let custom = CustomEndpoints {
        internal_url: Some(my_internal_api_url.to_string()),
        public_url: Some(my_public_api_url.to_string()),
    };

    let selected_network = Network::Custom;
    let actual_network_api = get_network_api(selected_network, &custom);

    // Assert that the internal api is correct
    assert_eq!(actual_network_api.0, my_internal_api_url);
    // Assert that the public api is correct
    assert_eq!(actual_network_api.1, my_public_api_url);
}

#[test]
fn fixed_networks_have_fixed_endpoints() {
    let custom = CustomEndpoints {
        internal_url: Some("https://elsewhere.example".to_string()),
        public_url: Some("https://elsewhere.example/api".to_string()),
    };
    for settings in [no_custom(), custom] {
        assert_eq!(
            get_network_api(Network::Mainnet, &settings),
            ("https://voyager.online".to_string(), "https://api.voyager.online/beta".to_string())
        );
        assert_eq!(
            get_network_api(Network::Sepolia, &settings),
            (
                "https://sepolia.voyager.online".to_string(),
                "https://sepolia-api.voyager.online/beta".to_string()
            )
        );
        assert_eq!(
            get_network_api(Network::Local, &settings),
            ("http://localhost:8899".to_string(), "http://localhost:30380".to_string())
        );
    }
}

#[test]
fn custom_network_without_settings_is_empty() {
    assert_eq!(get_network_api(Network::Custom, &no_custom()), (String::new(), String::new()));
}

#[test]
fn custom_network_with_one_setting() {
    let only_internal =
        CustomEndpoints { internal_url: Some("http://10.0.0.1:8899".to_string()), public_url: None };
    assert_eq!(
        get_network_api(Network::Custom, &only_internal),
        ("http://10.0.0.1:8899".to_string(), String::new())
    );
    let only_public =
        CustomEndpoints { internal_url: None, public_url: Some("http://10.0.0.1:30380".to_string()) };
    assert_eq!(
        get_network_api(Network::Custom, &only_public),
        (String::new(), "http://10.0.0.1:30380".to_string())
    );
}

#[test]
fn network_names() {
    assert_eq!(Network::Mainnet.to_string(), "mainnet");
    assert_eq!(Network::Sepolia.to_string(), "sepolia");
    assert_eq!(Network::Local.to_string(), "local");
    assert_eq!(Network::Custom.to_string(), "custom");
}

#[test]
fn network_from_its_own_name() {
    for network in [Network::Mainnet, Network::Sepolia, Network::Local, Network::Custom] {
        assert_eq!(Network::from_lowercase(&network.to_string()), Some(network));
        assert_eq!(Network::from_str(&network.to_string()), Ok(network));
    }
}

#[test]
fn network_from_str_ignores_case() {
    assert_eq!(Network::from_str("MAINNET"), Ok(Network::Mainnet));
    assert_eq!(Network::from_str("Sepolia"), Ok(Network::Sepolia));
    assert_eq!(Network::from_str("lOcAl"), Ok(Network::Local));
    assert_eq!(Network::from_str("custom"), Ok(Network::Custom));
}

#[test]
fn network_from_lowercase_is_exact() {
    assert_eq!(Network::from_lowercase("mainnet"), Some(Network::Mainnet));
    assert_eq!(Network::from_lowercase("MAINNET"), None);
    assert_eq!(Network::from_lowercase("mainnet "), None);
    assert_eq!(Network::from_lowercase(""), None);
}

#[test]
fn unknown_network_is_refused() {
    let failure = Network::from_str("Goerli").unwrap_err();
    assert_eq!(failure, ApiFailure::UnknownNetwork { name: "Goerli".to_string() });
    assert_eq!(failure.kind(), FailureKind::Usage);
    assert_eq!(failure.message(), "Unknown network: Goerli");
    assert!(Network::from_str("").is_err());
    assert!(Network::from_str("main net").is_err());
}
