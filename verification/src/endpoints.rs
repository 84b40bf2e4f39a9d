//! The paths of the service's API.

use vstd::prelude::*;
use crate::network::{get_network_api, CustomEndpoints, Network};

verus! {

/// The requests that the client makes.
///
/// `GetJobStatus` and `VerifyClass` go to the public API; `GetClass` goes
/// to the internal one.
#[derive(Debug, Clone, Copy, PartialEq, Eq, Structural)]
pub enum ApiEndpoints {
    GetClass,
    GetJobStatus,
    VerifyClass,
}

impl ApiEndpoints {
    /// The part of the path that stands before the parameter.
    pub open spec fn path_prefix(self) -> Seq<char> {
        match self {
            ApiEndpoints::GetClass => "/api/class/"@,
            ApiEndpoints::GetJobStatus => "/class-verify/job/"@,
            ApiEndpoints::VerifyClass => "/class-verify/"@,
        }
    }

    /// The placeholder that the template holds for the parameter.
    pub open spec fn placeholder(self) -> Seq<char> {
        match self {
            ApiEndpoints::GetClass => "{class_hash}"@,
            ApiEndpoints::GetJobStatus => "{job_id}"@,
            ApiEndpoints::VerifyClass => "{class_hash}"@,
        }
    }

    /// The path template.
    pub open spec fn template(self) -> Seq<char> {
        match self {
            ApiEndpoints::GetClass => "/api/class/{class_hash}"@,
            ApiEndpoints::GetJobStatus => "/class-verify/job/{job_id}"@,
            ApiEndpoints::VerifyClass => "/class-verify/{class_hash}"@,
        }
    }

    /// The path for a given parameter.
    pub open spec fn path(self, param: Seq<char>) -> Seq<char> {
        self.path_prefix() + param
    }

    /// Whether requests to this endpoint go to the public API.
    pub open spec fn is_public(self) -> bool {
        self != ApiEndpoints::GetClass
    }

    /// The path template, with the placeholder in it.
    pub fn as_str(&self) -> (result: String)
        ensures
            result@ == self.template(),
    {
        match self {
            ApiEndpoints::GetClass => "/api/class/{class_hash}".to_owned(),
            ApiEndpoints::GetJobStatus => "/class-verify/job/{job_id}".to_owned(),
            ApiEndpoints::VerifyClass => "/class-verify/{class_hash}".to_owned(),
        }
    }

    /// Puts `param` in the place of the template's placeholder.
    pub fn to_api_path(&self, param: String) -> (result: String)
        ensures
            result@ == self.path(param@),
    {
        let prefix = match self {
            ApiEndpoints::GetClass => "/api/class/",
            ApiEndpoints::GetJobStatus => "/class-verify/job/",
            ApiEndpoints::VerifyClass => "/class-verify/",
        };
        String::from_str(prefix).concat(param.as_str())
    }
}

/// The address that a request goes to.
pub open spec fn request_url(
    endpoint: ApiEndpoints,
    network: Network,
    custom: CustomEndpoints,
    param: Seq<char>,
) -> Seq<char> {
    if endpoint.is_public() {
        network.public_url(custom) + endpoint.path(param)
    } else {
        network.internal_url(custom) + endpoint.path(param)
    }
}

/// The address of `endpoint` on `network` for the given parameter.
pub fn api_url(
    endpoint: ApiEndpoints,
    network: Network,
    custom: &CustomEndpoints,
    param: &str,
) -> (result: String)
    ensures
        result@ == request_url(endpoint, network, *custom, param@),
{
    let (url, public_url) = get_network_api(network, custom);
    let path = endpoint.to_api_path(param.to_owned());
    match endpoint {
        ApiEndpoints::GetClass => url.concat(path.as_str()),
        ApiEndpoints::GetJobStatus => public_url.concat(path.as_str()),
        ApiEndpoints::VerifyClass => public_url.concat(path.as_str()),
    }
}

/// Every template is its path prefix followed by its placeholder, and no
/// opening brace stands before the placeholder: the path for a parameter
/// is the template with the parameter in the placeholder's place.
pub proof fn lemma_template_is_prefix_and_placeholder(endpoint: ApiEndpoints)
    ensures
        endpoint.template() == endpoint.path_prefix() + endpoint.placeholder(),
        !endpoint.path_prefix().contains('{'),
        endpoint.path(endpoint.placeholder()) == endpoint.template(),
{
    reveal_strlit("/api/class/");
    reveal_strlit("/class-verify/job/");
    reveal_strlit("/class-verify/");
    reveal_strlit("{class_hash}");
    reveal_strlit("{job_id}");
    reveal_strlit("/api/class/{class_hash}");
    reveal_strlit("/class-verify/job/{job_id}");
    reveal_strlit("/class-verify/{class_hash}");
    assert(endpoint.template() =~= endpoint.path_prefix() + endpoint.placeholder());
}

} // verus!
