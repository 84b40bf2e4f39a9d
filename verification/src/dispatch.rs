//! Submitting a class for verification: what is sent, and what the answer
//! means.

use vstd::prelude::*;
use crate::compiler::{SupportedCairoVersions, SupportedScarbVersions};
use crate::endpoints::{api_url, request_url, ApiEndpoints};
use crate::error::{ApiFailure, FailureKind};
use crate::form::{add_text, form_is_raw, form_parts, new_form, raw_form};
use crate::http::HttpStatus;
use crate::job::{ApiError, VerificationJobDispatch};
use crate::network::{CustomEndpoints, Network};

verus! {

/// `std::path::PathBuf`. The library hands such paths on and never looks
/// inside one.
#[verifier::external_type_specification]
#[verifier::external_body]
pub struct ExPathBuf(std::path::PathBuf);

/// A source file of the project: the name that the service knows it by,
/// and where it lies on disk.
#[derive(Debug)]
pub struct FileInfo {
    pub name: String,
    pub path: std::path::PathBuf,
}

/// What the service is told of the project.
#[derive(Debug, Clone)]
pub struct ProjectMetadataInfo {
    pub cairo_version: SupportedCairoVersions,
    pub scarb_version: SupportedScarbVersions,
    pub project_dir_path: String,
    pub contract_file: String,
}

/// A source file and the text that was read from it.
#[derive(Debug)]
pub struct LoadedFile {
    pub info: FileInfo,
    pub content: String,
}

/// One text field of the multi-part body.
#[derive(Debug, Clone, PartialEq, Eq)]
pub struct FormField {
    pub name: String,
    pub value: String,
}

impl View for FormField {
    type V = (Seq<char>, Seq<char>);

    open spec fn view(&self) -> (Seq<char>, Seq<char>) {
        (self.name@, self.value@)
    }
}

/// A submission, ready to be posted: the address, and the multi-part body.
#[derive(Debug)]
pub struct DispatchRequest {
    pub url: String,
    pub body: reqwest::blocking::multipart::Form,
}

/// The answer to a submission: the status, the body as text, and the body
/// decoded as an acknowledgement and as a refusal, each where it decodes
/// as one.
#[derive(Debug)]
pub struct DispatchResponse {
    pub status: HttpStatus,
    pub body: String,
    pub job: Option<VerificationJobDispatch>,
    pub error: Option<ApiError>,
}

/// The name and value of each field, in order.
pub open spec fn fields_view(fields: Seq<FormField>) -> Seq<(Seq<char>, Seq<char>)> {
    fields.map_values(|field: FormField| field@)
}

/// The fields that describe the project.
pub open spec fn project_fields(
    license: Seq<char>,
    name: Seq<char>,
    metadata: ProjectMetadataInfo,
) -> Seq<(Seq<char>, Seq<char>)> {
    seq![
        ("compiler_version"@, metadata.cairo_version.text()),
        ("scarb_version"@, metadata.scarb_version.text()),
        ("license"@, license),
        ("name"@, name),
        ("contract_file"@, metadata.contract_file@),
        ("project_dir_path"@, metadata.project_dir_path@),
    ]
}

/// The field that carries a source file.
pub open spec fn file_field(file: LoadedFile) -> (Seq<char>, Seq<char>) {
    ("files__"@ + file.info.name@, file.content@)
}

/// The fields of a submission: those of the project, then one for each
/// file, in the order of the files.
pub open spec fn form_fields(
    license: Seq<char>,
    name: Seq<char>,
    metadata: ProjectMetadataInfo,
    files: Seq<LoadedFile>,
) -> Seq<(Seq<char>, Seq<char>)> {
    project_fields(license, name, metadata) + files.map_values(|file: LoadedFile| file_field(file))
}

/// What the answer to a submission means.
pub open spec fn dispatch_result(response: DispatchResponse) -> Result<String, ApiFailure> {
    if response.status@ == 200 {
        match response.job {
            Some(job) => Ok(job.job_id),
            None => Err(ApiFailure::UnexpectedBody { status: response.status, body: response.body }),
        }
    } else if response.status@ == 404 {
        Err(ApiFailure::NotFound)
    } else if response.status@ == 400 {
        match response.error {
            Some(refusal) => Err(ApiFailure::BadRequest { message: refusal.error }),
            None => Err(ApiFailure::UnexpectedBody { status: response.status, body: response.body }),
        }
    } else {
        Err(
            ApiFailure::UnexpectedStatus {
                endpoint: ApiEndpoints::VerifyClass,
                status: response.status,
                body: response.body,
            },
        )
    }
}

fn text_field(name: &str, value: String) -> (result: FormField)
    ensures
        result@ == (name@, value@),
{
    FormField { name: name.to_owned(), value }
}

/// The text fields of the body that submits a project.
pub fn dispatch_form(
    license: &str,
    name: &str,
    project_metadata: ProjectMetadataInfo,
    files: &Vec<LoadedFile>,
) -> (fields: Vec<FormField>)
    ensures
        fields_view(fields@) == form_fields(license@, name@, project_metadata, files@),
{
    let mut fields: Vec<FormField> = Vec::new();
    fields.push(text_field("compiler_version", project_metadata.cairo_version.to_string()));
    fields.push(text_field("scarb_version", project_metadata.scarb_version.to_string()));
    fields.push(text_field("license", license.to_owned()));
    fields.push(text_field("name", name.to_owned()));
    fields.push(text_field("contract_file", project_metadata.contract_file));
    fields.push(text_field("project_dir_path", project_metadata.project_dir_path));
    assert(fields_view(fields@) =~= project_fields(license@, name@, project_metadata));
    let mut i: usize = 0;
    while i < files.len()
        invariant
            i <= files.len(),
            fields_view(fields@) == form_fields(
                license@,
                name@,
                project_metadata,
                files@.take(i as int),
            ),
        decreases files.len() - i,
    {
        let ghost before = fields@;
        let file = &files[i];
        let field_name = String::from_str("files__").concat(file.info.name.as_str());
        fields.push(FormField { name: field_name, value: file.content.clone() });
        proof {
            let taken = files@.take(i as int);
            let next = files@.take(i + 1);
            assert(next =~= taken.push(files@[i as int]));
            assert(fields@ =~= before.push(fields@[fields@.len() - 1]));
            assert(fields_view(fields@) =~= fields_view(before).push(file_field(files@[i as int])));
            assert(next.map_values(|file: LoadedFile| file_field(file)) =~= taken.map_values(
                |file: LoadedFile| file_field(file),
            ).push(file_field(files@[i as int])));
            assert(fields_view(fields@) =~= form_fields(license@, name@, project_metadata, next));
        }
        i += 1;
    }
    assert(files@.take(i as int) =~= files@);
    fields
}

/// The multi-part body with the given text fields, in their order, each
/// written as it stands.
pub fn multipart_body(fields: &Vec<FormField>) -> (body: reqwest::blocking::multipart::Form)
    ensures
        form_parts(body) == fields_view(fields@),
        form_is_raw(body),
{
    let mut body = raw_form(new_form());
    let mut i: usize = 0;
    while i < fields.len()
        invariant
            i <= fields.len(),
            form_parts(body) == fields_view(fields@.take(i as int)),
            form_is_raw(body),
        decreases fields.len() - i,
    {
        let field = &fields[i];
        body = add_text(body, field.name.clone(), field.value.clone());
        proof {
            assert(fields@.take(i + 1) =~= fields@.take(i as int).push(fields@[i as int]));
            assert(fields_view(fields@.take(i + 1)) =~= fields_view(fields@.take(i as int)).push(
                fields@[i as int]@,
            ));
        }
        i += 1;
    }
    assert(fields@.take(i as int) =~= fields@);
    body
}

/// The submission of a project for the class at `address`: a POST to the
/// public API of `network`, whose body holds the fields of the project
/// and of its files, none of them percent-encoded.
pub fn dispatch_request(
    network: Network,
    custom: &CustomEndpoints,
    address: &str,
    license: &str,
    name: &str,
    project_metadata: ProjectMetadataInfo,
    files: &Vec<LoadedFile>,
) -> (request: DispatchRequest)
    ensures
        request.url@ == network.public_url(*custom) + "/class-verify/"@ + address@,
        request.url@ == request_url(ApiEndpoints::VerifyClass, network, *custom, address@),
        form_parts(request.body) == form_fields(license@, name@, project_metadata, files@),
        form_is_raw(request.body),
{
    let fields = dispatch_form(license, name, project_metadata, files);
    let body = multipart_body(&fields);
    let url = api_url(ApiEndpoints::VerifyClass, network, custom, address);
    assert(url@ =~= network.public_url(*custom) + "/class-verify/"@ + address@);
    DispatchRequest { url, body }
}

/// Reads the answer to a submission: the job's identifier where the
/// service acknowledged it, and else why it did not.
pub fn dispatch_outcome(response: DispatchResponse) -> (result: Result<String, ApiFailure>)
    ensures
        result == dispatch_result(response),
{
    let code = response.status.code();
    if code == 200 {
        match response.job {
            Some(job) => Ok(job.job_id),
            None => Err(ApiFailure::UnexpectedBody { status: response.status, body: response.body }),
        }
    } else if code == 404 {
        Err(ApiFailure::NotFound)
    } else if code == 400 {
        match response.error {
            Some(refusal) => Err(ApiFailure::BadRequest { message: refusal.error }),
            None => Err(ApiFailure::UnexpectedBody { status: response.status, body: response.body }),
        }
    } else {
        Err(
            ApiFailure::UnexpectedStatus {
                endpoint: ApiEndpoints::VerifyClass,
                status: response.status,
                body: response.body,
            },
        )
    }
}

/// The decision table of a submission: it succeeds exactly on a 200 whose
/// body is an acknowledgement, and then with the identifier in that body;
/// a 404 means that the service does not know the class; a 400 carries the
/// service's reason; a body of another shape, on 200 or 400, and every
/// other status are failures of the protocol.
pub proof fn lemma_dispatch_table(response: DispatchResponse)
    ensures
        dispatch_result(response) is Ok <==> response.status@ == 200 && response.job is Some,
        dispatch_result(response) matches Ok(id) ==> response.job matches Some(job)
            && id == job.job_id,
        dispatch_result(response) == Err::<String, ApiFailure>(ApiFailure::NotFound)
            <==> response.status@ == 404,
        dispatch_result(response) matches Err(ApiFailure::BadRequest { .. })
            <==> response.status@ == 400 && response.error is Some,
        dispatch_result(response) matches Err(ApiFailure::BadRequest { message })
            ==> response.error matches Some(refusal) && message == refusal.error,
        dispatch_result(response) matches Err(ApiFailure::UnexpectedBody { .. })
            <==> (response.status@ == 200 && response.job is None)
                || (response.status@ == 400 && response.error is None),
        dispatch_result(response) matches Err(ApiFailure::UnexpectedStatus { .. })
            <==> response.status@ != 200 && response.status@ != 404 && response.status@ != 400,
        dispatch_result(response) matches Err(failure)
            ==> failure.spec_kind() != FailureKind::JobFailure
                && failure.spec_kind() != FailureKind::Timeout,
{
}

} // verus!
