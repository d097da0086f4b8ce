use vstd::prelude::*;

verus! {

/// An OAuth2 authorization scope of the Chrome Management API.
#[derive(PartialEq, Eq, Structural, Hash, Clone, Copy, Debug)]
pub enum Scope {
    /// See detailed information about apps installed on Chrome browsers and devices.
    ChromeManagementAppdetailReadonly,
    /// See reports about devices and Chrome browsers.
    ChromeManagementReportReadonly,
    /// See basic device and telemetry information collected from ChromeOS devices or users.
    ChromeManagementTelemetryReadonly,
}

pub open spec fn scope_url(s: Scope) -> Seq<char> {
    match s {
        Scope::ChromeManagementAppdetailReadonly => "https://www.googleapis.com/auth/chrome.management.appdetails.readonly"@,
        Scope::ChromeManagementReportReadonly => "https://www.googleapis.com/auth/chrome.management.reports.readonly"@,
        Scope::ChromeManagementTelemetryReadonly => "https://www.googleapis.com/auth/chrome.management.telemetry.readonly"@,
    }
}

impl Scope {
    /// The scope's URL, as sent when asking for a token.
    pub fn as_ref(&self) -> (r: &'static str)
        ensures
            r@ == scope_url(*self),
    {
        match *self {
            Scope::ChromeManagementAppdetailReadonly => "https://www.googleapis.com/auth/chrome.management.appdetails.readonly",
            Scope::ChromeManagementReportReadonly => "https://www.googleapis.com/auth/chrome.management.reports.readonly",
            Scope::ChromeManagementTelemetryReadonly => "https://www.googleapis.com/auth/chrome.management.telemetry.readonly",
        }
    }
}

impl Default for Scope {
    fn default() -> (r: Scope)
        ensures
            r == Scope::ChromeManagementAppdetailReadonly,
    {
        Scope::ChromeManagementAppdetailReadonly
    }
}

} // verus!
