//! The ways in which providing `harper-ls` can fail.

use vstd::prelude::*;

verus! {

/// Why no binary was provided. A cause is the collaborator's own message.
#[derive(Clone, Debug, PartialEq, Eq)]
pub enum ProvisionError {
    /// The release service could not be reached, or has no release to offer.
    Fetch { cause: String },
    /// The host runs on 32-bit x86.
    UnsupportedArchitecture,
    /// The release has no asset for the platform; `target` names the platform.
    NoCompatibleAsset { target: String },
    /// The asset could not be downloaded.
    Download { cause: String },
    /// The downloaded archive could not be unpacked.
    Extraction { cause: String },
    /// The unpacked binary could not be marked executable.
    Permission { cause: String },
    /// The path of the binary is not text.
    PathEncoding,
}

pub enum ProvisionErrorView {
    Fetch { cause: Seq<char> },
    UnsupportedArchitecture,
    NoCompatibleAsset { target: Seq<char> },
    Download { cause: Seq<char> },
    Extraction { cause: Seq<char> },
    Permission { cause: Seq<char> },
    PathEncoding,
}

impl View for ProvisionError {
    type V = ProvisionErrorView;

    open spec fn view(&self) -> ProvisionErrorView {
        match self {
            ProvisionError::Fetch { cause } => ProvisionErrorView::Fetch { cause: cause@ },
            ProvisionError::UnsupportedArchitecture => ProvisionErrorView::UnsupportedArchitecture,
            ProvisionError::NoCompatibleAsset { target } => ProvisionErrorView::NoCompatibleAsset {
                target: target@,
            },
            ProvisionError::Download { cause } => ProvisionErrorView::Download { cause: cause@ },
            ProvisionError::Extraction { cause } => ProvisionErrorView::Extraction {
                cause: cause@,
            },
            ProvisionError::Permission { cause } => ProvisionErrorView::Permission {
                cause: cause@,
            },
            ProvisionError::PathEncoding => ProvisionErrorView::PathEncoding,
        }
    }
}

impl ProvisionErrorView {
    /// The failure in words, as the user is to read it.
    pub open spec fn message(self) -> Seq<char> {
        match self {
            ProvisionErrorView::Fetch { cause } => "Failed to fetch latest release: "@ + cause,
            ProvisionErrorView::UnsupportedArchitecture => "x86 architecture is not supported"@,
            ProvisionErrorView::NoCompatibleAsset { target } =>
                "No compatible Harper binary found for "@ + target,
            ProvisionErrorView::Download { cause } => "Failed to download Harper binary: "@ + cause,
            ProvisionErrorView::Extraction { cause } => "Failed to extract Harper binary: "@
                + cause,
            ProvisionErrorView::Permission { cause } => "Failed to make binary executable: "@
                + cause,
            ProvisionErrorView::PathEncoding => "Failed to convert binary path to string"@,
        }
    }
}

impl ProvisionError {
    /// The failure in words, as the user is to read it.
    pub fn message(&self) -> (text: String)
        ensures
            text@ == self@.message(),
    {
        match self {
            ProvisionError::Fetch { cause } => prefixed(
                "Failed to fetch latest release: ",
                cause,
            ),
            ProvisionError::UnsupportedArchitecture => String::from_str(
                "x86 architecture is not supported",
            ),
            ProvisionError::NoCompatibleAsset { target } => prefixed(
                "No compatible Harper binary found for ",
                target,
            ),
            ProvisionError::Download { cause } => prefixed(
                "Failed to download Harper binary: ",
                cause,
            ),
            ProvisionError::Extraction { cause } => prefixed(
                "Failed to extract Harper binary: ",
                cause,
            ),
            ProvisionError::Permission { cause } => prefixed(
                "Failed to make binary executable: ",
                cause,
            ),
            ProvisionError::PathEncoding => String::from_str(
                "Failed to convert binary path to string",
            ),
        }
    }
}

fn prefixed(prefix: &str, rest: &String) -> (text: String)
    ensures
        text@ == prefix@ + rest@,
{
    let mut text = String::from_str(prefix);
    text.append(rest.as_str());
    text
}

} // verus!
