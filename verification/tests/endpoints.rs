use voyager_verifier::endpoints::{api_url, ApiEndpoints};
use voyager_verifier::network::{CustomEndpoints, Network};

#[test]
fn endpoint_templates() {
    assert_eq!(ApiEndpoints::GetClass.as_str(), "/api/class/{class_hash}");
    assert_eq!(ApiEndpoints::GetJobStatus.as_str(), "/class-verify/job/{job_id}");
    assert_eq!(ApiEndpoints::VerifyClass.as_str(), "/class-verify/{class_hash}");
}

#[test]
fn endpoint_paths() {
    assert_eq!(ApiEndpoints::GetClass.to_api_path("0x123".to_string()), "/api/class/0x123");
    assert_eq!(ApiEndpoints::GetJobStatus.to_api_path("abc123".to_string()), "/class-verify/job/abc123");
    assert_eq!(ApiEndpoints::VerifyClass.to_api_path("0x123".to_string()), "/class-verify/0x123");
}

#[test]
fn endpoint_path_with_empty_parameter() {
    assert_eq!(ApiEndpoints::GetClass.to_api_path(String::new()), "/api/class/");
    assert_eq!(ApiEndpoints::GetJobStatus.to_api_path(String::new()), "/class-verify/job/");
    assert_eq!(ApiEndpoints::VerifyClass.to_api_path(String::new()), "/class-verify/");
}

#[test]
fn endpoint_path_is_the_template_with_the_parameter() {
    let params = ["0x123", "", "{class_hash}", "{job_id}", "a/b?c=d", "{class_hash}{job_id}"];
    for param in params {
        assert_eq!(
            ApiEndpoints::GetClass.to_api_path(param.to_string()),
            ApiEndpoints::GetClass.as_str().replace("{class_hash}", param)
        );
        assert_eq!(
            ApiEndpoints::GetJobStatus.to_api_path(param.to_string()),
            ApiEndpoints::GetJobStatus.as_str().replace("{job_id}", param)
        );
        assert_eq!(
            ApiEndpoints::VerifyClass.to_api_path(param.to_string()),
            ApiEndpoints::VerifyClass.as_str().replace("{class_hash}", param)
        );
    }
}

#[test]
fn request_addresses() {
    let custom = CustomEndpoints { internal_url: None, public_url: None };
    assert_eq!(
        api_url(ApiEndpoints::GetClass, Network::Mainnet, &custom, "0x1"),
        "https://voyager.online/api/class/0x1"
    );
    assert_eq!(
        api_url(ApiEndpoints::VerifyClass, Network::Mainnet, &custom, "0x1"),
        "https://api.voyager.online/beta/class-verify/0x1"
    );
    assert_eq!(
        api_url(ApiEndpoints::GetJobStatus, Network::Sepolia, &custom, "job-7"),
        "https://sepolia-api.voyager.online/beta/class-verify/job/job-7"
    );
    assert_eq!(
        api_url(ApiEndpoints::GetClass, Network::Local, &custom, "0x1"),
        "http://localhost:8899/api/class/0x1"
    );
    assert_eq!(
        api_url(ApiEndpoints::GetJobStatus, Network::Local, &custom, "job-7"),
        "http://localhost:30380/class-verify/job/job-7"
    );
}

#[test]
fn request_addresses_of_the_custom_network() {
    let custom = CustomEndpoints {
        internal_url: Some("https://internal.example".to_string()),
        public_url: Some("https://public.example".to_string()),
    };
    assert_eq!(
        api_url(ApiEndpoints::GetClass, Network::Custom, &custom, "0x1"),
        "https://internal.example/api/class/0x1"
    );
    assert_eq!(
        api_url(ApiEndpoints::VerifyClass, Network::Custom, &custom, "0x1"),
        "https://public.example/class-verify/0x1"
    );
    let unset = CustomEndpoints { internal_url: None, public_url: None };
    assert_eq!(api_url(ApiEndpoints::GetClass, Network::Custom, &unset, "0x1"), "/api/class/0x1");
}
