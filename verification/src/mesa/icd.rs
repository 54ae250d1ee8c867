//! The Vulkan loader's ICD discovery document (the `nvidia_icd.json` shape).

use vstd::prelude::*;
use vstd::string::*;

verus! {

/// File name of the classic NVIDIA ICD document under `/etc/vulkan/icd.d/`.
pub const NVIDIA_ICD_JSON_NAME: &'static str = "nvidia_icd.json";

/// File name of the Hermes ICD document, which coexists with the classic one.
pub const HERMES_ICD_JSON_NAME: &'static str = "hermes_icd.json";

/// Basename of the shared library that implements the ICD.
pub const ICD_LIBRARY_BASENAME: &'static str = "libhermes_mesa.so";

/// Soname operators may link to the library for loaders that expect NVIDIA's.
pub const NVIDIA_VULKAN_SONAME: &'static str = "libGLX_nvidia.so.0";

/// The ICD document naming `library_path` and `api_version`.
pub open spec fn spec_vulkan_icd_json(library_path: Seq<char>, api_version: Seq<char>) -> Seq<char> {
    "{\n    \"file_format_version\": \"1.0.0\",\n    \"ICD\": {\n        \"library_path\": \""@
        + library_path + "\",\n        \"api_version\": \""@ + api_version + "\"\n    }\n}\n"@
}

/// Produces the loader's ICD document for a library and an API version.
pub fn vulkan_icd_json(library_path: &str, api_version: &str) -> (json: String)
    ensures
        json@ == spec_vulkan_icd_json(library_path@, api_version@),
{
    let mut json = String::from_str(
        "{\n    \"file_format_version\": \"1.0.0\",\n    \"ICD\": {\n        \"library_path\": \"",
    );
    json.append(library_path);
    json.append("\",\n        \"api_version\": \"");
    json.append(api_version);
    json.append("\"\n    }\n}\n");
    json
}

/// The document for this library at Vulkan 1.3.0.
pub fn default_icd_json() -> (json: String)
    ensures
        json@ == spec_vulkan_icd_json(ICD_LIBRARY_BASENAME@, "1.3.0"@),
{
    vulkan_icd_json(ICD_LIBRARY_BASENAME, "1.3.0")
}

/// Directories the loader searches for ICD documents, in the order installers
/// use them.
pub fn icd_search_paths() -> (paths: Vec<&'static str>)
    ensures
        paths@.len() == 3,
        paths@[0]@ == "/usr/share/vulkan/icd.d"@,
        paths@[1]@ == "/etc/vulkan/icd.d"@,
        paths@[2]@ == "/usr/local/share/vulkan/icd.d"@,
{
    let mut paths: Vec<&'static str> = Vec::new();
    paths.push("/usr/share/vulkan/icd.d");
    paths.push("/etc/vulkan/icd.d");
    paths.push("/usr/local/share/vulkan/icd.d");
    paths
}

} // verus!
