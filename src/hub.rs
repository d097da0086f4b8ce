use vstd::prelude::*;
use crate::calls::CustomerMethods;

verus! {

/// The user agent sent with every request unless another is set.
pub open spec fn default_user_agent() -> Seq<char> {
    "google-api-rust-client/5.0.2"@
}

/// The base URL of the Chrome Management API.
pub open spec fn default_base_url() -> Seq<char> {
    "https://chromemanagement.googleapis.com/"@
}

/// The settings shared by every call to the Chrome Management API: the user agent, and the base
/// and root URLs that calls are made under.
#[derive(Clone, Debug)]
pub struct ChromeManagement {
    pub user_agent: String,
    pub base_url: String,
    pub root_url: String,
}

impl ChromeManagement {
    /// The default settings.
    pub fn new() -> (r: ChromeManagement)
        ensures
            r.user_agent@ == default_user_agent(),
            r.base_url@ == default_base_url(),
            r.root_url@ == default_base_url(),
    {
        ChromeManagement {
            user_agent: "google-api-rust-client/5.0.2".to_owned(),
            base_url: "https://chromemanagement.googleapis.com/".to_owned(),
            root_url: "https://chromemanagement.googleapis.com/".to_owned(),
        }
    }

    /// The operations on `customers` resources.
    pub fn customers(&self) -> (r: CustomerMethods) {
        CustomerMethods
    }

    /// Sets the user agent sent with every request and returns the one it replaces.
    pub fn user_agent(&mut self, agent_name: String) -> (r: String)
        ensures
            r == old(self).user_agent,
            final(self).user_agent == agent_name,
            final(self).base_url == old(self).base_url,
            final(self).root_url == old(self).root_url,
    {
        let mut v = agent_name;
        core::mem::swap(&mut self.user_agent, &mut v);
        v
    }

    /// Sets the base URL that calls are made under and returns the one it replaces.
    pub fn base_url(&mut self, new_base_url: String) -> (r: String)
        ensures
            r == old(self).base_url,
            final(self).base_url == new_base_url,
            final(self).user_agent == old(self).user_agent,
            final(self).root_url == old(self).root_url,
    {
        let mut v = new_base_url;
        core::mem::swap(&mut self.base_url, &mut v);
        v
    }

    /// Sets the root URL and returns the one it replaces.
    pub fn root_url(&mut self, new_root_url: String) -> (r: String)
        ensures
            r == old(self).root_url,
            final(self).root_url == new_root_url,
            final(self).user_agent == old(self).user_agent,
            final(self).base_url == old(self).base_url,
    {
        let mut v = new_root_url;
        core::mem::swap(&mut self.root_url, &mut v);
        v
    }
}

} // verus!
