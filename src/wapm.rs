//! Picking the package download out of a registry query's answer.

use vstd::prelude::*;

verus! {

/// Where one version of a package can be downloaded.
#[derive(Debug)]
pub struct WapmWebQueryGetPackageLastVersionDistribution {
    pub pirita_download_url: Option<String>,
}

/// One version of a package.
#[derive(Debug)]
pub struct WapmWebQueryGetPackageVersion {
    pub version: String,
    pub distribution: WapmWebQueryGetPackageLastVersionDistribution,
}

/// A package and its latest version.
#[derive(Debug)]
pub struct WapmWebQueryGetPackage {
    pub last_version: WapmWebQueryGetPackageVersion,
}

/// What the registry answered: a specific version, or the package.
#[derive(Debug)]
pub struct WapmWebQueryData {
    pub get_package: Option<WapmWebQueryGetPackage>,
    pub get_package_version: Option<WapmWebQueryGetPackageVersion>,
}

#[derive(Debug)]
pub struct WapmWebQuery {
    pub data: WapmWebQueryData,
}

/// A download address and the version it holds.
#[derive(Debug)]
pub struct PiritaVersionedDownload {
    pub url: String,
    pub version: String,
}

/// The version the answer points at: the specific version if the answer
/// holds one, else the package's latest version.
pub open spec fn chosen_version(data: WapmWebQuery) -> Option<WapmWebQueryGetPackageVersion> {
    match data.data.get_package_version {
        Some(v) => Some(v),
        None => match data.data.get_package {
            Some(p) => Some(p.last_version),
            None => None,
        },
    }
}

fn versioned_download(v: &WapmWebQueryGetPackageVersion) -> (r: Option<PiritaVersionedDownload>)
    ensures
        v.distribution.pirita_download_url is None ==> r is None,
        v.distribution.pirita_download_url matches Some(u) ==> r matches Some(d) && d.url@ == u@
            && d.version@ == v.version@,
{
    match &v.distribution.pirita_download_url {
        Some(u) => Some(PiritaVersionedDownload { url: u.clone(), version: v.version.clone() }),
        None => None,
    }
}

/// The download of the version the answer points at (see
/// `chosen_version`); `None` if it points at none, or that version has no
/// download address.
pub fn wapm_extract_version(data: &WapmWebQuery) -> (r: Option<PiritaVersionedDownload>)
    ensures
        match chosen_version(*data) {
            None => r is None,
            Some(v) => match v.distribution.pirita_download_url {
                None => r is None,
                Some(u) => r matches Some(d) && d.url@ == u@ && d.version@ == v.version@,
            },
        },
{
    if let Some(package) = &data.data.get_package_version {
        versioned_download(package)
    } else if let Some(package) = &data.data.get_package {
        versioned_download(&package.last_version)
    } else {
        None
    }
}

} // verus!
