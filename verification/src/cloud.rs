//! Decision logic of the cloud administration command line: parsing a
//! deployment size name and choosing the version to deploy. The
//! surrounding argument handling and network calls live outside the
//! library and hand these functions plain values.

use vstd::prelude::*;

use crate::text::str_eq;

verus! {

/// The size of a deployment.
#[derive(Clone, Copy, Debug, PartialEq, Eq, Structural)]
pub enum DeploymentSize {
    /// Extra small.
    XS,
    /// Small.
    S,
    /// Medium.
    M,
    /// Large.
    L,
    /// Extra large.
    XL,
}

/// The size a name denotes, if any.
pub open spec fn size_of_name(s: Seq<char>) -> Option<DeploymentSize> {
    if s == "XS"@ {
        Some(DeploymentSize::XS)
    } else if s == "S"@ {
        Some(DeploymentSize::S)
    } else if s == "M"@ {
        Some(DeploymentSize::M)
    } else if s == "L"@ {
        Some(DeploymentSize::L)
    } else if s == "XL"@ {
        Some(DeploymentSize::XL)
    } else {
        None
    }
}

/// Parse a deployment size name: exactly the five size names are
/// accepted, anything else is rejected with a fixed message.
pub fn parse_size(s: &str) -> (r: Result<DeploymentSize, String>)
    ensures
        match r {
            Ok(size) => size_of_name(s@) == Some(size),
            Err(e) => size_of_name(s@) is None && e@ == "Invalid size."@,
        },
{
    if str_eq(s, "XS") {
        Ok(DeploymentSize::XS)
    } else if str_eq(s, "S") {
        Ok(DeploymentSize::S)
    } else if str_eq(s, "M") {
        Ok(DeploymentSize::M)
    } else if str_eq(s, "L") {
        Ok(DeploymentSize::L)
    } else if str_eq(s, "XL") {
        Ok(DeploymentSize::XL)
    } else {
        Err(String::from_str("Invalid size."))
    }
}

/// Choose the version to deploy: the explicitly requested version wins,
/// otherwise the last of the versions the server supports. The caller
/// must have checked that at least one version is available when none is
/// requested.
pub fn mz_version_or_latest(mz_version: Option<String>, available: &Vec<String>) -> (r: String)
    requires
        mz_version is None ==> available@.len() > 0,
    ensures
        mz_version matches Some(v) ==> r == v,
        mz_version is None ==> r@ == available@.last()@,
{
    match mz_version {
        Some(v) => v,
        None => available[available.len() - 1].clone(),
    }
}

} // verus!
