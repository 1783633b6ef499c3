//! The fetcher: one HTTP GET per archive, streamed into memory.
//!
//! The HTTP work itself is done by the `isahc` client behind the trusted
//! declarations below; everything decided about what came back — which
//! statuses succeed, the exact error text, the destination file name — is
//! verified here on plain values. Nothing is written to disk in this
//! module: the caller receives the bytes and the computed destination path.

use vstd::prelude::*;

use isahc::config::Configurable;

use crate::cmd::join_path;
use crate::cmd::join_path_chars;
use crate::decimal::dec_chars;
use crate::decimal::u32_to_string;
use crate::gcc::gcc_archive_name;
use crate::gcc::gcc_archive_name_chars;
use crate::gcc::GCCBuild;
use crate::llvm::llvm_archive_name;
use crate::llvm::llvm_archive_name_chars;
use crate::llvm::LLVMBuild;
use vstd::string::StringExecFns;

verus! {

#[verifier::external_type_specification]
#[verifier::external_body]
pub struct ExHttpClient(isahc::HttpClient);

#[verifier::external_type_specification]
#[verifier::external_body]
pub struct ExBody(isahc::Body);

#[verifier::external_type_specification]
#[verifier::external_body]
#[verifier::reject_recursive_types(T)]
pub struct ExResponse<T>(isahc::http::Response<T>);

/// Relies on isahc::HttpClientBuilder::build, after
/// HttpClientBuilder::redirect_policy(RedirectPolicy::Follow): constructs a
/// client that follows redirects. Construction may fail for
/// machine-dependent reasons; nothing is promised of the outcome.
#[verifier::external_body]
fn http_client_follow_redirects() -> (r: Result<isahc::HttpClient, String>) {
    isahc::HttpClient::builder().redirect_policy(isahc::config::RedirectPolicy::Follow).build()
        .map_err(|e| format!("Failed to create HTTP client: {}", e))
}

/// Relies on isahc::HttpClient::get: one blocking HTTP GET of the URL. The
/// response depends on the network; nothing is promised of the outcome.
#[verifier::external_body]
fn http_get(client: &isahc::HttpClient, url: &str) -> (r: Result<
    isahc::http::Response<isahc::Body>,
    String,
>) {
    client.get(url).map_err(|e| format!("Failed to download {}: {}", url, e))
}

/// Relies on http::Response::status and http::StatusCode::as_u16: the
/// numeric status code of the response.
#[verifier::external_body]
fn response_status(response: &isahc::http::Response<isahc::Body>) -> (r: u16) {
    response.status().as_u16()
}

/// Relies on isahc::ReadResponseExt::bytes: reads the whole response body
/// into memory, consuming the body stream.
#[verifier::external_body]
fn response_bytes(response: &mut isahc::http::Response<isahc::Body>, url: &str) -> (r: Result<
    Vec<u8>,
    String,
>) {
    isahc::ReadResponseExt::bytes(response)
        .map_err(|e| format!("Failed to read response for {}: {}", url, e))
}

/// The success statuses: the 2xx range.
pub open spec fn http_success(status: u16) -> bool {
    200 <= status < 300
}

/// The error reported for a response outside the success range: it names
/// the requested URL and the numeric status code.
pub open spec fn download_failure_chars(url: Seq<char>, status: u16) -> Seq<char> {
    "Failed to download "@ + url + ": HTTP "@ + dec_chars(status as nat)
}

/// Judges one HTTP response status: any status outside the 2xx range is a
/// terminal error carrying the URL and the status code, and nothing else
/// succeeds or fails here.
pub fn assess_http_status(url: &str, status: u16) -> (r: Result<(), String>)
    ensures
        r is Ok <==> http_success(status),
        !http_success(status) ==> (r matches Err(e) && e@ == download_failure_chars(url@, status)),
{
    if 200 <= status && status < 300 {
        Ok(())
    } else {
        let mut msg = "Failed to download ".to_owned();
        msg.append(url);
        msg.append(": HTTP ");
        let code = u32_to_string(status as u32);
        msg.append(code.as_str());
        proof {
            assert(msg@ =~= download_failure_chars(url@, status));
        }
        Err(msg)
    }
}

/// Downloads the LLVM-family archive: a single GET of the spec's URL with
/// redirects followed. A non-success status is a terminal error naming the
/// URL and the status; on success the archive bytes come back with the
/// scratch-directory destination they belong at — derived from the same
/// version fields as the URL — and nothing has touched the disk.
pub fn download_llvm(llvm_build: &LLVMBuild, scratch_dir: &str) -> (r: Result<
    (String, Vec<u8>),
    String,
>)
    ensures
        r matches Ok(p) ==> p.0@ == join_path_chars(
            scratch_dir@,
            llvm_archive_name_chars(llvm_build.major, llvm_build.minor, llvm_build.patch),
        ),
{
    let client = match http_client_follow_redirects() {
        Ok(c) => c,
        Err(e) => { return Err(e) },
    };
    let name = llvm_archive_name(llvm_build);
    let full_path = join_path(scratch_dir, name.as_str());
    let mut response = match http_get(&client, llvm_build.url()) {
        Ok(resp) => resp,
        Err(e) => { return Err(e) },
    };
    let status = response_status(&response);
    match assess_http_status(llvm_build.url(), status) {
        Ok(_) => {},
        Err(e) => { return Err(e) },
    }
    let bytes = match response_bytes(&mut response, llvm_build.url()) {
        Ok(b) => b,
        Err(e) => { return Err(e) },
    };
    Ok((full_path, bytes))
}

/// Downloads the GCC-family archive, exactly as `download_llvm` does for
/// the primary backend.
pub fn download_gcc(gcc_build: &GCCBuild, scratch_dir: &str) -> (r: Result<
    (String, Vec<u8>),
    String,
>)
    ensures
        r matches Ok(p) ==> p.0@ == join_path_chars(
            scratch_dir@,
            gcc_archive_name_chars(gcc_build.major, gcc_build.minor, gcc_build.patch),
        ),
{
    let client = match http_client_follow_redirects() {
        Ok(c) => c,
        Err(e) => { return Err(e) },
    };
    let name = gcc_archive_name(gcc_build);
    let full_path = join_path(scratch_dir, name.as_str());
    let mut response = match http_get(&client, gcc_build.url()) {
        Ok(resp) => resp,
        Err(e) => { return Err(e) },
    };
    let status = response_status(&response);
    match assess_http_status(gcc_build.url(), status) {
        Ok(_) => {},
        Err(e) => { return Err(e) },
    }
    let bytes = match response_bytes(&mut response, gcc_build.url()) {
        Ok(b) => b,
        Err(e) => { return Err(e) },
    };
    Ok((full_path, bytes))
}

} // verus!
