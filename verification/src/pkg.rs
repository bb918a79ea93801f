//! Package coordinates and the acquisition error surface.

use crate::version::{version_chars, PackageVersion};
use vstd::prelude::*;
use vstd::string::StringExecFns;

verus! {

/// An exact installable package: namespace, name and version.
pub struct PackageSpec {
    pub namespace: String,
    pub name: String,
    pub version: PackageVersion,
}

/// A package without a version, used for latest-version queries.
pub struct VersionlessPackageSpec {
    pub namespace: String,
    pub name: String,
}

/// The closed error surface of package acquisition.
pub enum PackageError {
    /// The package or version does not exist at any known location.
    NotFound(PackageSpec),
    /// A transport-level failure other than a clean 404.
    NetworkFailed(Option<String>),
    /// The archive was downloaded but could not be decompressed or
    /// unpacked; the target directory was rolled back.
    MalformedArchive(Option<String>),
}

impl Clone for PackageSpec {
    fn clone(&self) -> (r: Self)
        ensures
            r == *self,
    {
        PackageSpec {
            namespace: self.namespace.clone(),
            name: self.name.clone(),
            version: self.version,
        }
    }
}

impl Clone for VersionlessPackageSpec {
    fn clone(&self) -> (r: Self)
        ensures
            r == *self,
    {
        VersionlessPackageSpec { namespace: self.namespace.clone(), name: self.name.clone() }
    }
}

/// The display form `@namespace/name:version`.
pub open spec fn spec_display(s: PackageSpec) -> Seq<char> {
    "@"@ + s.namespace@ + "/"@ + s.name@ + ":"@ + version_chars(s.version)
}

/// The display form `@namespace/name`.
pub open spec fn versionless_display(s: VersionlessPackageSpec) -> Seq<char> {
    "@"@ + s.namespace@ + "/"@ + s.name@
}

impl PackageSpec {
    /// Renders the coordinate as `@namespace/name:version`.
    pub fn display(&self) -> (r: String)
        ensures
            r@ == spec_display(*self),
    {
        let mut out = String::from_str("@");
        out.append(self.namespace.as_str());
        out.append("/");
        out.append(self.name.as_str());
        out.append(":");
        let v = self.version.to_version_string();
        out.append(v.as_str());
        proof {
            assert(out@ =~= spec_display(*self));
        }
        out
    }
}

impl VersionlessPackageSpec {
    /// Renders the coordinate as `@namespace/name`.
    pub fn display(&self) -> (r: String)
        ensures
            r@ == versionless_display(*self),
    {
        let mut out = String::from_str("@");
        out.append(self.namespace.as_str());
        out.append("/");
        out.append(self.name.as_str());
        proof {
            assert(out@ =~= versionless_display(*self));
        }
        out
    }
}

/// The directory of one package below a root:
/// `typst/packages/<namespace>/<name>/<version>`.
pub open spec fn spec_subdir(s: PackageSpec) -> Seq<char> {
    "typst/packages/"@ + s.namespace@ + "/"@ + s.name@ + "/"@ + version_chars(s.version)
}

/// Computes the root-relative package directory.
pub fn package_subdir(spec: &PackageSpec) -> (r: String)
    ensures
        r@ == spec_subdir(*spec),
{
    let mut out = String::from_str("typst/packages/");
    out.append(spec.namespace.as_str());
    out.append("/");
    out.append(spec.name.as_str());
    out.append("/");
    let v = spec.version.to_version_string();
    out.append(v.as_str());
    proof {
        assert(out@ =~= spec_subdir(*spec));
    }
    out
}

/// `<root>/<subdir>` with a literal separator.
pub open spec fn spec_join(root: Seq<char>, rest: Seq<char>) -> Seq<char> {
    root + "/"@ + rest
}

/// Joins a platform root and a root-relative directory.
pub fn join_path(root: &str, rest: &str) -> (r: String)
    ensures
        r@ == spec_join(root@, rest@),
{
    let mut out = String::from_str(root);
    out.append("/");
    out.append(rest);
    proof {
        assert(out@ =~= spec_join(root@, rest@));
    }
    out
}

} // verus!
