//! Support for communicating with cargo: target triple parsing, the
//! directive lines a build script emits, and what a packaged crate records
//! about the repository it was built from.
//!
//! Reading environment variables and printing to cargo stay with the caller;
//! everything here works on plain values.

use vstd::prelude::*;
use vstd::string::*;

use crate::strutil::{spec_split, split_str, str_eq};

verus! {

/// A build target, parsed from a target triple such as
/// `x86_64-unknown-linux-gnu`.
#[derive(Clone, Debug)]
pub struct Target {
    pub architecture: String,
    pub vendor: String,
    pub system: String,
    pub abi: Option<String>,
}

impl Target {
    /// The components of the target as borrowed strings.
    pub fn as_strs(&self) -> (r: (&str, &str, &str, Option<&str>))
        ensures
            r.0@ == self.architecture@,
            r.1@ == self.vendor@,
            r.2@ == self.system@,
            r.3.deep_view() == self.abi.deep_view(),
    {
        let abi = match &self.abi {
            Some(a) => Some(a.as_str()),
            None => None,
        };
        (
            self.architecture.as_str(),
            self.vendor.as_str(),
            self.system.as_str(),
            abi,
        )
    }

    /// Whether the target system is Windows.
    pub fn is_windows(&self) -> (r: bool)
        ensures
            r == (self.system@ == "windows"@),
    {
        str_eq(self.system.as_str(), "windows")
    }
}

/// Parses a target triple of at least three `-`-separated components into
/// architecture, vendor and system, with the fourth component, if any, as
/// the ABI.
pub fn parse_target(target_str: &str) -> (r: Target)
    requires
        spec_split(target_str@, '-').len() >= 3,
    ensures
        r.architecture@ == spec_split(target_str@, '-')[0],
        r.vendor@ == spec_split(target_str@, '-')[1],
        r.system@ == spec_split(target_str@, '-')[2],
        r.abi.deep_view() == if spec_split(target_str@, '-').len() > 3 {
            Some(spec_split(target_str@, '-')[3])
        } else {
            None::<Seq<char>>
        },
{
    let parts = split_str(target_str, '-');
    proof {
        assert(parts@.len() == parts.deep_view().len());
    }
    let abi = if parts.len() > 3 {
        Some(parts[3].clone())
    } else {
        None
    };
    Target {
        architecture: parts[0].clone(),
        vendor: parts[1].clone(),
        system: parts[2].clone(),
        abi,
    }
}

/// Whether a build profile name asks for a release build. Only the two
/// profiles cargo hands a build script are meaningful.
pub fn build_release(profile: &str) -> (r: bool)
    requires
        profile@ == "release"@ || profile@ == "debug"@,
    ensures
        r == (profile@ == "release"@),
{
    str_eq(profile, "release")
}

/// The directive that makes cargo link `lib`.
pub open spec fn spec_link_lib_directive(lib: Seq<char>) -> Seq<char> {
    "cargo:rustc-link-lib="@ + lib
}

/// The directive line that asks cargo to link `lib`. The caller prints it.
pub fn add_link_lib(lib: &str) -> (r: String)
    ensures
        r@ == spec_link_lib_directive(lib@),
{
    let mut s = String::from_str("cargo:rustc-link-lib=");
    s.append(lib);
    s
}

/// One link directive line for each library, in order.
pub fn add_link_libs(libs: &Vec<String>) -> (r: Vec<String>)
    ensures
        r.deep_view() == libs.deep_view().map_values(|l: Seq<char>| spec_link_lib_directive(l)),
{
    let mut out: Vec<String> = Vec::new();
    let mut i: usize = 0;
    while i < libs.len()
        invariant
            i <= libs@.len(),
            out.deep_view() == libs.deep_view().take(i as int).map_values(
                |l: Seq<char>| spec_link_lib_directive(l),
            ),
        decreases libs@.len() - i,
    {
        let ghost old_out = out.deep_view();
        out.push(add_link_lib(libs[i].as_str()));
        proof {
            assert(out.deep_view() =~= old_out.push(spec_link_lib_directive(
                libs.deep_view()[i as int],
            )));
            assert(libs.deep_view().take(i + 1).map_values(
                |l: Seq<char>| spec_link_lib_directive(l),
            ) =~= libs.deep_view().take(i as int).map_values(
                |l: Seq<char>| spec_link_lib_directive(l),
            ).push(spec_link_lib_directive(libs.deep_view()[i as int])));
        }
        i = i + 1;
    }
    proof {
        assert(libs.deep_view().take(libs.deep_view().len() as int) =~= libs.deep_view());
    }
    out
}

/// The directive that makes cargo re-run the build script when `path`
/// changes. The caller prints it.
pub fn add_dependent_path(path: &str) -> (r: String)
    ensures
        r@ == "cargo:rerun-if-changed="@ + path@,
{
    let mut s = String::from_str("cargo:rerun-if-changed=");
    s.append(path);
    s
}

/// The commit hash recorded under the `git`/`sha1` keys of a packaged
/// crate's VCS info document, if the document is valid JSON and carries
/// them as a string.
pub uninterp spec fn vcs_info_sha1(s: Seq<char>) -> Option<Seq<char>>;

/// Relies on serde_json's parser (`serde_json::from_str`,
/// `Value::get`, `Value::as_str`): the hash found under `git`/`sha1`
/// is a function of the document text alone.
#[verifier::external_body]
fn read_vcs_sha1(vcs_info: &str) -> (r: Option<String>)
    ensures
        match r {
            Some(h) => vcs_info_sha1(vcs_info@) == Some(h@),
            None => vcs_info_sha1(vcs_info@) is None,
        },
{
    let value: serde_json::Value = match serde_json::from_str(vcs_info) {
        Ok(v) => v,
        Err(_) => return None,
    };
    let sha1 = value.get("git")?.get("sha1")?;
    Some(sha1.as_str()?.to_string())
}

/// The full commit hash of the repository this crate was packaged from,
/// read out of the contents of the package's VCS info document.
pub fn package_repository_hash(vcs_info: &str) -> (r: Option<String>)
    ensures
        match r {
            Some(h) => vcs_info_sha1(vcs_info@) == Some(h@),
            None => vcs_info_sha1(vcs_info@) is None,
        },
{
    read_vcs_sha1(vcs_info)
}

/// Whether we are building inside a packaged crate: true exactly when a
/// VCS info document is present and records a commit hash.
pub fn is_crate(vcs_info: &Option<String>) -> (r: bool)
    ensures
        r == match *vcs_info {
            Some(ref s) => vcs_info_sha1(s@) is Some,
            None => false,
        },
{
    match vcs_info {
        Some(s) => package_repository_hash(s.as_str()).is_some(),
        None => false,
    }
}

/// The `[package.metadata]` entries of a manifest, each value rendered in
/// its serialized form, in the order the parser's table keeps them; `None`
/// when the manifest does not parse or has no such section.
pub uninterp spec fn manifest_metadata(s: Seq<char>) -> Option<Seq<(Seq<char>, Seq<char>)>>;

/// Relies on the toml parser (`toml::from_str`, `Value::get`,
/// `Value::as_table`, `Map::iter`, and `Value`'s `Display`): the
/// `[package.metadata]` entries are a function of the manifest text alone.
#[verifier::external_body]
fn read_package_metadata(manifest: &str) -> (r: Option<Vec<(String, String)>>)
    ensures
        match r {
            Some(ref m) => manifest_metadata(manifest@) == Some(m.deep_view()),
            None => manifest_metadata(manifest@) is None,
        },
{
    let root: toml::Table = match toml::from_str(manifest) {
        Ok(t) => t,
        Err(_) => return None,
    };
    let table = root.get("package")?.get("metadata")?.as_table()?;
    Some(table.iter().map(|(a, b)| (a.clone(), b.to_string())).collect())
}

/// The metadata specified in the `[package.metadata]` section of the given
/// manifest text, as name/value pairs.
pub fn get_metadata(manifest: &str) -> (r: Option<Vec<(String, String)>>)
    ensures
        match r {
            Some(ref m) => manifest_metadata(manifest@) == Some(m.deep_view()),
            None => manifest_metadata(manifest@) is None,
        },
{
    read_package_metadata(manifest)
}

} // verus!
