use vstd::prelude::*;
use vstd::string::*;
use crate::params::{ParamView, Params, set_value};
use crate::request::{HttpMethod, RequestSpec, strings_view};
use crate::scope::Scope;
use crate::values::{FieldMask, decimal, decimal_text, join_paths};

verus! {

/// The pair `(name, v)` where `v` is set; nothing where it is not.
pub open spec fn opt_text(name: Seq<char>, v: Option<String>) -> Seq<ParamView> {
    match v {
        Some(s) => seq![(name, s@)],
        None => Seq::empty(),
    }
}

/// The pair `(name, decimal text of v)` where `v` is set; nothing where it is not.
pub open spec fn opt_int(name: Seq<char>, v: Option<i32>) -> Seq<ParamView> {
    match v {
        Some(n) => seq![(name, decimal(n as int))],
        None => Seq::empty(),
    }
}

/// The pair `(name, paths of v joined by commas)` where `v` is set; nothing where it is not.
pub open spec fn opt_mask(name: Seq<char>, v: Option<FieldMask>) -> Seq<ParamView> {
    match v {
        Some(m) => seq![(name, join_paths(m.paths_view()))],
        None => Seq::empty(),
    }
}

/// The scopes `ss` with `s` added where it is not there yet.
pub open spec fn with_scope(ss: Seq<Seq<char>>, s: Seq<char>) -> Seq<Seq<char>> {
    if ss.contains(s) {
        ss
    } else {
        ss.push(s)
    }
}

/// The scopes `ss` with each of `more` added in turn.
pub open spec fn with_scopes(ss: Seq<Seq<char>>, more: Seq<Seq<char>>) -> Seq<Seq<char>>
    decreases more.len(),
{
    if more.len() == 0 {
        ss
    } else {
        with_scope(with_scopes(ss, more.drop_last()), more.last())
    }
}

fn push_opt_text(ps: &mut Params, name: &str, v: &Option<String>)
    ensures
        final(ps)@ == old(ps)@ + opt_text(name@, *v),
{
    match v {
        Some(s) => ps.push(name.to_owned(), s.clone()),
        None => {},
    }
    assert(final(ps)@ =~= old(ps)@ + opt_text(name@, *v));
}

fn push_opt_int(ps: &mut Params, name: &str, v: &Option<i32>)
    ensures
        final(ps)@ == old(ps)@ + opt_int(name@, *v),
{
    match v {
        Some(n) => ps.push(name.to_owned(), decimal_text(*n)),
        None => {},
    }
    assert(final(ps)@ =~= old(ps)@ + opt_int(name@, *v));
}

fn push_opt_mask(ps: &mut Params, name: &str, v: &Option<FieldMask>)
    ensures
        final(ps)@ == old(ps)@ + opt_mask(name@, *v),
{
    match v {
        Some(m) => ps.push(name.to_owned(), m.to_query_value()),
        None => {},
    }
    assert(final(ps)@ =~= old(ps)@ + opt_mask(name@, *v));
}

/// Strings made of the given literals, in order.
fn strings_of(v: Vec<&str>) -> (r: Vec<String>)
    ensures
        strings_view(r@) == v@.map_values(|s: &str| s@),
{
    let mut r: Vec<String> = Vec::new();
    let mut i: usize = 0;
    while i < v.len()
        invariant
            i <= v@.len(),
            strings_view(r@) == v@.subrange(0, i as int).map_values(|s: &str| s@),
        decreases v@.len() - i,
    {
        let t = String::from_str(v[i]);
        assert(t@ == v@[i as int]@);
        let ghost before = r@;
        r.push(t);
        assert(r@ == before.push(t));
        assert(strings_view(r@) =~= strings_view(before).push(t@));
        assert(v@.subrange(0, i + 1).map_values(|s: &str| s@) =~= v@.subrange(0, i as int).map_values(|s: &str| s@).push(v@[i as int]@));
        i = i + 1;
    }
    assert(v@.subrange(0, v@.len() as int) =~= v@);
    r
}

/// Adds `s` to the scopes where it is not there yet.
fn add_scope_to(ss: &mut Vec<String>, s: String)
    ensures
        strings_view(final(ss)@) == with_scope(strings_view(old(ss)@), s@),
{
    let mut i: usize = 0;
    while i < ss.len()
        invariant
            i <= ss@.len(),
            *ss == *old(ss),
            forall|j: int| 0 <= j < i ==> #[trigger] ss@[j]@ != s@,
        decreases ss@.len() - i,
    {
        if ss[i] == s {
            assert(strings_view(ss@)[i as int] == s@);
            return;
        }
        i = i + 1;
    }
    assert(!strings_view(ss@).contains(s@)) by {
        if strings_view(ss@).contains(s@) {
            let j = choose|j: int| 0 <= j < strings_view(ss@).len() && strings_view(ss@)[j] == s@;
            assert(ss@[j]@ == s@);
        }
    }
    let ghost n = s@;
    ss.push(s);
    assert(strings_view(ss@) =~= strings_view(old(ss)@).push(n));
}

/// Adds each of `more` to the scopes in turn.
fn add_scopes_to(ss: &mut Vec<String>, more: &Vec<String>)
    ensures
        strings_view(final(ss)@) == with_scopes(strings_view(old(ss)@), strings_view(more@)),
{
    let mut i: usize = 0;
    while i < more.len()
        invariant
            i <= more@.len(),
            strings_view(ss@) == with_scopes(strings_view(old(ss)@), strings_view(more@.subrange(0, i as int))),
        decreases more@.len() - i,
    {
        assert(strings_view(more@.subrange(0, i + 1)).drop_last() =~= strings_view(more@.subrange(0, i as int)));
        add_scope_to(ss, more[i].clone());
        i = i + 1;
    }
    assert(more@.subrange(0, more@.len() as int) =~= more@);
}


/// Get a specific app for a customer by its resource name: `apps.android.get`.
#[derive(Clone, Debug)]
pub struct CustomerAppAndroidGetCall {
    /// Required. The app for which details are being queried. Examples: "customers/my_customer/apps/chrome/gmbmikajjgmnabiglmofipeabaddhgne@2.1.2" for the Save to Google Drive Chrome extension version 2.1.2, "customers/my_customer/apps/android/com.google.android.apps.docs" for the Google Drive Android app's latest version.
    pub name: String,
    /// Parameters set by name.
    pub additional_params: Params,
    /// Scopes that the token is to carry, in place of the default one.
    pub scopes: Vec<String>,
    /// Whether the call goes without a token where it has no scope.
    pub unscoped: bool,
}

impl CustomerAppAndroidGetCall {
    /// The parameters that the operation sets itself, in order.
    pub open spec fn own_params(&self) -> Seq<ParamView> {
        seq![("name"@, self.name@)]
    }

    /// Required. The app for which details are being queried. Examples: "customers/my_customer/apps/chrome/gmbmikajjgmnabiglmofipeabaddhgne@2.1.2" for the Save to Google Drive Chrome extension version 2.1.2, "customers/my_customer/apps/android/com.google.android.apps.docs" for the Google Drive Android app's latest version.
    pub fn name(self, new_value: &str) -> (r: Self)
        ensures
            r.name@ == new_value@,
            r.additional_params == self.additional_params,
            r.scopes == self.scopes,
            r.unscoped == self.unscoped,
    {
        CustomerAppAndroidGetCall { name: new_value.to_owned(), ..self }
    }

    /// Sets a parameter by name, such as `fields`, `key` or `quotaUser`. A parameter that the
    /// operation sets itself makes the call fail with `FieldClash` when it is prepared.
    pub fn param(self, name: &str, value: &str) -> (r: Self)
        ensures
            r.additional_params@ == set_value(self.additional_params@, name@, value@),
            r.name == self.name,
            r.scopes == self.scopes,
            r.unscoped == self.unscoped,
    {
        let mut c = self;
        c.additional_params.set(name.to_owned(), value.to_owned());
        c
    }

    /// Adds a scope that the token is to carry, in place of the default one.
    pub fn add_scope(self, scope: &str) -> (r: Self)
        ensures
            strings_view(r.scopes@) == with_scope(strings_view(self.scopes@), scope@),
            r.name == self.name,
            r.additional_params == self.additional_params,
            r.unscoped == self.unscoped,
    {
        let mut c = self;
        add_scope_to(&mut c.scopes, scope.to_owned());
        c
    }

    /// Adds each of `scopes` in turn.
    pub fn add_scopes(self, scopes: &Vec<String>) -> (r: Self)
        ensures
            strings_view(r.scopes@) == with_scopes(strings_view(self.scopes@), strings_view(scopes@)),
            r.name == self.name,
            r.additional_params == self.additional_params,
            r.unscoped == self.unscoped,
    {
        let mut c = self;
        add_scopes_to(&mut c.scopes, scopes);
        c
    }

    /// Removes every scope; the call then goes without a token, and the `key` parameter is to
    /// carry an API key.
    pub fn clear_scopes(self) -> (r: Self)
        ensures
            r.scopes@.len() == 0,
            r.unscoped,
            r.name == self.name,
            r.additional_params == self.additional_params,
    {
        CustomerAppAndroidGetCall { scopes: Vec::new(), unscoped: true, ..self }
    }

    /// The request that this call stands for.
    pub fn into_request(self) -> (r: RequestSpec)
        ensures
            r.id@ == "chromemanagement.customers.apps.android.get"@,
            r.method == HttpMethod::Get,
            r.template@ == "v1/{+name}"@,
            strings_view(r.path_params@) == seq!["name"@],
            strings_view(r.known@) == seq!["alt"@, "name"@],
            r.params@ == self.own_params(),
            r.additional == self.additional_params,
            r.scopes == self.scopes,
            r.default_scope == Scope::ChromeManagementAppdetailReadonly,
            r.unscoped == self.unscoped,
    {
        let ghost own = self.own_params();
        let mut params = Params::new();
        params.push("name".to_owned(), self.name);
        assert(params@ =~= own);
        let path_params = strings_of(vec!["name"]);
        let known = strings_of(vec!["alt", "name"]);
        RequestSpec {
            id: "chromemanagement.customers.apps.android.get".to_owned(),
            method: HttpMethod::Get,
            template: "v1/{+name}".to_owned(),
            path_params,
            known,
            params,
            additional: self.additional_params,
            scopes: self.scopes,
            default_scope: Scope::ChromeManagementAppdetailReadonly,
            unscoped: self.unscoped,
        }
    }
}

/// Get a specific app for a customer by its resource name: `apps.chrome.get`.
#[derive(Clone, Debug)]
pub struct CustomerAppChromeGetCall {
    /// Required. The app for which details are being queried. Examples: "customers/my_customer/apps/chrome/gmbmikajjgmnabiglmofipeabaddhgne@2.1.2" for the Save to Google Drive Chrome extension version 2.1.2, "customers/my_customer/apps/android/com.google.android.apps.docs" for the Google Drive Android app's latest version.
    pub name: String,
    /// Parameters set by name.
    pub additional_params: Params,
    /// Scopes that the token is to carry, in place of the default one.
    pub scopes: Vec<String>,
    /// Whether the call goes without a token where it has no scope.
    pub unscoped: bool,
}

impl CustomerAppChromeGetCall {
    /// The parameters that the operation sets itself, in order.
    pub open spec fn own_params(&self) -> Seq<ParamView> {
        seq![("name"@, self.name@)]
    }

    /// Required. The app for which details are being queried. Examples: "customers/my_customer/apps/chrome/gmbmikajjgmnabiglmofipeabaddhgne@2.1.2" for the Save to Google Drive Chrome extension version 2.1.2, "customers/my_customer/apps/android/com.google.android.apps.docs" for the Google Drive Android app's latest version.
    pub fn name(self, new_value: &str) -> (r: Self)
        ensures
            r.name@ == new_value@,
            r.additional_params == self.additional_params,
            r.scopes == self.scopes,
            r.unscoped == self.unscoped,
    {
        CustomerAppChromeGetCall { name: new_value.to_owned(), ..self }
    }

    /// Sets a parameter by name, such as `fields`, `key` or `quotaUser`. A parameter that the
    /// operation sets itself makes the call fail with `FieldClash` when it is prepared.
    pub fn param(self, name: &str, value: &str) -> (r: Self)
        ensures
            r.additional_params@ == set_value(self.additional_params@, name@, value@),
            r.name == self.name,
            r.scopes == self.scopes,
            r.unscoped == self.unscoped,
    {
        let mut c = self;
        c.additional_params.set(name.to_owned(), value.to_owned());
        c
    }

    /// Adds a scope that the token is to carry, in place of the default one.
    pub fn add_scope(self, scope: &str) -> (r: Self)
        ensures
            strings_view(r.scopes@) == with_scope(strings_view(self.scopes@), scope@),
            r.name == self.name,
            r.additional_params == self.additional_params,
            r.unscoped == self.unscoped,
    {
        let mut c = self;
        add_scope_to(&mut c.scopes, scope.to_owned());
        c
    }

    /// Adds each of `scopes` in turn.
    pub fn add_scopes(self, scopes: &Vec<String>) -> (r: Self)
        ensures
            strings_view(r.scopes@) == with_scopes(strings_view(self.scopes@), strings_view(scopes@)),
            r.name == self.name,
            r.additional_params == self.additional_params,
            r.unscoped == self.unscoped,
    {
        let mut c = self;
        add_scopes_to(&mut c.scopes, scopes);
        c
    }

    /// Removes every scope; the call then goes without a token, and the `key` parameter is to
    /// carry an API key.
    pub fn clear_scopes(self) -> (r: Self)
        ensures
            r.scopes@.len() == 0,
            r.unscoped,
            r.name == self.name,
            r.additional_params == self.additional_params,
    {
        CustomerAppChromeGetCall { scopes: Vec::new(), unscoped: true, ..self }
    }

    /// The request that this call stands for.
    pub fn into_request(self) -> (r: RequestSpec)
        ensures
            r.id@ == "chromemanagement.customers.apps.chrome.get"@,
            r.method == HttpMethod::Get,
            r.template@ == "v1/{+name}"@,
            strings_view(r.path_params@) == seq!["name"@],
            strings_view(r.known@) == seq!["alt"@, "name"@],
            r.params@ == self.own_params(),
            r.additional == self.additional_params,
            r.scopes == self.scopes,
            r.default_scope == Scope::ChromeManagementAppdetailReadonly,
            r.unscoped == self.unscoped,
    {
        let ghost own = self.own_params();
        let mut params = Params::new();
        params.push("name".to_owned(), self.name);
        assert(params@ =~= own);
        let path_params = strings_of(vec!["name"]);
        let known = strings_of(vec!["alt", "name"]);
        RequestSpec {
            id: "chromemanagement.customers.apps.chrome.get".to_owned(),
            method: HttpMethod::Get,
            template: "v1/{+name}".to_owned(),
            path_params,
            known,
            params,
            additional: self.additional_params,
            scopes: self.scopes,
            default_scope: Scope::ChromeManagementAppdetailReadonly,
            unscoped: self.unscoped,
        }
    }
}

/// Get a specific app for a customer by its resource name: `apps.web.get`.
#[derive(Clone, Debug)]
pub struct CustomerAppWebGetCall {
    /// Required. The app for which details are being queried. Examples: "customers/my_customer/apps/chrome/gmbmikajjgmnabiglmofipeabaddhgne@2.1.2" for the Save to Google Drive Chrome extension version 2.1.2, "customers/my_customer/apps/android/com.google.android.apps.docs" for the Google Drive Android app's latest version.
    pub name: String,
    /// Parameters set by name.
    pub additional_params: Params,
    /// Scopes that the token is to carry, in place of the default one.
    pub scopes: Vec<String>,
    /// Whether the call goes without a token where it has no scope.
    pub unscoped: bool,
}

impl CustomerAppWebGetCall {
    /// The parameters that the operation sets itself, in order.
    pub open spec fn own_params(&self) -> Seq<ParamView> {
        seq![("name"@, self.name@)]
    }

    /// Required. The app for which details are being queried. Examples: "customers/my_customer/apps/chrome/gmbmikajjgmnabiglmofipeabaddhgne@2.1.2" for the Save to Google Drive Chrome extension version 2.1.2, "customers/my_customer/apps/android/com.google.android.apps.docs" for the Google Drive Android app's latest version.
    pub fn name(self, new_value: &str) -> (r: Self)
        ensures
            r.name@ == new_value@,
            r.additional_params == self.additional_params,
            r.scopes == self.scopes,
            r.unscoped == self.unscoped,
    {
        CustomerAppWebGetCall { name: new_value.to_owned(), ..self }
    }

    /// Sets a parameter by name, such as `fields`, `key` or `quotaUser`. A parameter that the
    /// operation sets itself makes the call fail with `FieldClash` when it is prepared.
    pub fn param(self, name: &str, value: &str) -> (r: Self)
        ensures
            r.additional_params@ == set_value(self.additional_params@, name@, value@),
            r.name == self.name,
            r.scopes == self.scopes,
            r.unscoped == self.unscoped,
    {
        let mut c = self;
        c.additional_params.set(name.to_owned(), value.to_owned());
        c
    }

    /// Adds a scope that the token is to carry, in place of the default one.
    pub fn add_scope(self, scope: &str) -> (r: Self)
        ensures
            strings_view(r.scopes@) == with_scope(strings_view(self.scopes@), scope@),
            r.name == self.name,
            r.additional_params == self.additional_params,
            r.unscoped == self.unscoped,
    {
        let mut c = self;
        add_scope_to(&mut c.scopes, scope.to_owned());
        c
    }

    /// Adds each of `scopes` in turn.
    pub fn add_scopes(self, scopes: &Vec<String>) -> (r: Self)
        ensures
            strings_view(r.scopes@) == with_scopes(strings_view(self.scopes@), strings_view(scopes@)),
            r.name == self.name,
            r.additional_params == self.additional_params,
            r.unscoped == self.unscoped,
    {
        let mut c = self;
        add_scopes_to(&mut c.scopes, scopes);
        c
    }

    /// Removes every scope; the call then goes without a token, and the `key` parameter is to
    /// carry an API key.
    pub fn clear_scopes(self) -> (r: Self)
        ensures
            r.scopes@.len() == 0,
            r.unscoped,
            r.name == self.name,
            r.additional_params == self.additional_params,
    {
        CustomerAppWebGetCall { scopes: Vec::new(), unscoped: true, ..self }
    }

    /// The request that this call stands for.
    pub fn into_request(self) -> (r: RequestSpec)
        ensures
            r.id@ == "chromemanagement.customers.apps.web.get"@,
            r.method == HttpMethod::Get,
            r.template@ == "v1/{+name}"@,
            strings_view(r.path_params@) == seq!["name"@],
            strings_view(r.known@) == seq!["alt"@, "name"@],
            r.params@ == self.own_params(),
            r.additional == self.additional_params,
            r.scopes == self.scopes,
            r.default_scope == Scope::ChromeManagementAppdetailReadonly,
            r.unscoped == self.unscoped,
    {
        let ghost own = self.own_params();
        let mut params = Params::new();
        params.push("name".to_owned(), self.name);
        assert(params@ =~= own);
        let path_params = strings_of(vec!["name"]);
        let known = strings_of(vec!["alt", "name"]);
        RequestSpec {
            id: "chromemanagement.customers.apps.web.get".to_owned(),
            method: HttpMethod::Get,
            template: "v1/{+name}".to_owned(),
            path_params,
            known,
            params,
            additional: self.additional_params,
            scopes: self.scopes,
            default_scope: Scope::ChromeManagementAppdetailReadonly,
            unscoped: self.unscoped,
        }
    }
}

/// Generate summary of app installation requests: `apps.countChromeAppRequests`.
#[derive(Clone, Debug)]
pub struct CustomerAppCountChromeAppRequestCall {
    /// Required. Customer id or "my_customer" to use the customer associated to the account making the request.
    pub customer: String,
    /// Token to specify the page of the request to be returned.
    pub page_token: Option<String>,
    /// Maximum number of results to return. Maximum and default are 50, anything above will be coerced to 50.
    pub page_size: Option<i32>,
    /// The ID of the organizational unit.
    pub org_unit_id: Option<String>,
    /// Field used to order results. Supported fields: * request_count * latest_request_time
    pub order_by: Option<String>,
    /// Parameters set by name.
    pub additional_params: Params,
    /// Scopes that the token is to carry, in place of the default one.
    pub scopes: Vec<String>,
    /// Whether the call goes without a token where it has no scope.
    pub unscoped: bool,
}

impl CustomerAppCountChromeAppRequestCall {
    /// The parameters that the operation sets itself, in order.
    pub open spec fn own_params(&self) -> Seq<ParamView> {
        seq![("customer"@, self.customer@)]
            + opt_text("pageToken"@, self.page_token)
            + opt_int("pageSize"@, self.page_size)
            + opt_text("orgUnitId"@, self.org_unit_id)
            + opt_text("orderBy"@, self.order_by)
    }

    /// Required. Customer id or "my_customer" to use the customer associated to the account making the request.
    pub fn customer(self, new_value: &str) -> (r: Self)
        ensures
            r.customer@ == new_value@,
            r.page_token == self.page_token,
            r.page_size == self.page_size,
            r.org_unit_id == self.org_unit_id,
            r.order_by == self.order_by,
            r.additional_params == self.additional_params,
            r.scopes == self.scopes,
            r.unscoped == self.unscoped,
    {
        CustomerAppCountChromeAppRequestCall { customer: new_value.to_owned(), ..self }
    }

    /// Token to specify the page of the request to be returned.
    pub fn page_token(self, new_value: &str) -> (r: Self)
        ensures
            r.page_token matches Some(v) && v@ == new_value@,
            r.customer == self.customer,
            r.page_size == self.page_size,
            r.org_unit_id == self.org_unit_id,
            r.order_by == self.order_by,
            r.additional_params == self.additional_params,
            r.scopes == self.scopes,
            r.unscoped == self.unscoped,
    {
        CustomerAppCountChromeAppRequestCall { page_token: Some(new_value.to_owned()), ..self }
    }

    /// Maximum number of results to return. Maximum and default are 50, anything above will be coerced to 50.
    pub fn page_size(self, new_value: i32) -> (r: Self)
        ensures
            r.page_size == Some(new_value),
            r.customer == self.customer,
            r.page_token == self.page_token,
            r.org_unit_id == self.org_unit_id,
            r.order_by == self.order_by,
            r.additional_params == self.additional_params,
            r.scopes == self.scopes,
            r.unscoped == self.unscoped,
    {
        CustomerAppCountChromeAppRequestCall { page_size: Some(new_value), ..self }
    }

    /// The ID of the organizational unit.
    pub fn org_unit_id(self, new_value: &str) -> (r: Self)
        ensures
            r.org_unit_id matches Some(v) && v@ == new_value@,
            r.customer == self.customer,
            r.page_token == self.page_token,
            r.page_size == self.page_size,
            r.order_by == self.order_by,
            r.additional_params == self.additional_params,
            r.scopes == self.scopes,
            r.unscoped == self.unscoped,
    {
        CustomerAppCountChromeAppRequestCall { org_unit_id: Some(new_value.to_owned()), ..self }
    }

    /// Field used to order results. Supported fields: * request_count * latest_request_time
    pub fn order_by(self, new_value: &str) -> (r: Self)
        ensures
            r.order_by matches Some(v) && v@ == new_value@,
            r.customer == self.customer,
            r.page_token == self.page_token,
            r.page_size == self.page_size,
            r.org_unit_id == self.org_unit_id,
            r.additional_params == self.additional_params,
            r.scopes == self.scopes,
            r.unscoped == self.unscoped,
    {
        CustomerAppCountChromeAppRequestCall { order_by: Some(new_value.to_owned()), ..self }
    }

    /// Sets a parameter by name, such as `fields`, `key` or `quotaUser`. A parameter that the
    /// operation sets itself makes the call fail with `FieldClash` when it is prepared.
    pub fn param(self, name: &str, value: &str) -> (r: Self)
        ensures
            r.additional_params@ == set_value(self.additional_params@, name@, value@),
            r.customer == self.customer,
            r.page_token == self.page_token,
            r.page_size == self.page_size,
            r.org_unit_id == self.org_unit_id,
            r.order_by == self.order_by,
            r.scopes == self.scopes,
            r.unscoped == self.unscoped,
    {
        let mut c = self;
        c.additional_params.set(name.to_owned(), value.to_owned());
        c
    }

    /// Adds a scope that the token is to carry, in place of the default one.
    pub fn add_scope(self, scope: &str) -> (r: Self)
        ensures
            strings_view(r.scopes@) == with_scope(strings_view(self.scopes@), scope@),
            r.customer == self.customer,
            r.page_token == self.page_token,
            r.page_size == self.page_size,
            r.org_unit_id == self.org_unit_id,
            r.order_by == self.order_by,
            r.additional_params == self.additional_params,
            r.unscoped == self.unscoped,
    {
        let mut c = self;
        add_scope_to(&mut c.scopes, scope.to_owned());
        c
    }

    /// Adds each of `scopes` in turn.
    pub fn add_scopes(self, scopes: &Vec<String>) -> (r: Self)
        ensures
            strings_view(r.scopes@) == with_scopes(strings_view(self.scopes@), strings_view(scopes@)),
            r.customer == self.customer,
            r.page_token == self.page_token,
            r.page_size == self.page_size,
            r.org_unit_id == self.org_unit_id,
            r.order_by == self.order_by,
            r.additional_params == self.additional_params,
            r.unscoped == self.unscoped,
    {
        let mut c = self;
        add_scopes_to(&mut c.scopes, scopes);
        c
    }

    /// Removes every scope; the call then goes without a token, and the `key` parameter is to
    /// carry an API key.
    pub fn clear_scopes(self) -> (r: Self)
        ensures
            r.scopes@.len() == 0,
            r.unscoped,
            r.customer == self.customer,
            r.page_token == self.page_token,
            r.page_size == self.page_size,
            r.org_unit_id == self.org_unit_id,
            r.order_by == self.order_by,
            r.additional_params == self.additional_params,
    {
        CustomerAppCountChromeAppRequestCall { scopes: Vec::new(), unscoped: true, ..self }
    }

    /// The request that this call stands for.
    pub fn into_request(self) -> (r: RequestSpec)
        ensures
            r.id@ == "chromemanagement.customers.apps.countChromeAppRequests"@,
            r.method == HttpMethod::Get,
            r.template@ == "v1/{+customer}/apps:countChromeAppRequests"@,
            strings_view(r.path_params@) == seq!["customer"@],
            strings_view(r.known@) == seq!["alt"@, "customer"@, "pageToken"@, "pageSize"@, "orgUnitId"@, "orderBy"@],
            r.params@ == self.own_params(),
            r.additional == self.additional_params,
            r.scopes == self.scopes,
            r.default_scope == Scope::ChromeManagementAppdetailReadonly,
            r.unscoped == self.unscoped,
    {
        let ghost own = self.own_params();
        let mut params = Params::new();
        params.push("customer".to_owned(), self.customer);
        push_opt_text(&mut params, "pageToken", &self.page_token);
        push_opt_int(&mut params, "pageSize", &self.page_size);
        push_opt_text(&mut params, "orgUnitId", &self.org_unit_id);
        push_opt_text(&mut params, "orderBy", &self.order_by);
        assert(params@ =~= own);
        let path_params = strings_of(vec!["customer"]);
        let known = strings_of(vec!["alt", "customer", "pageToken", "pageSize", "orgUnitId", "orderBy"]);
        RequestSpec {
            id: "chromemanagement.customers.apps.countChromeAppRequests".to_owned(),
            method: HttpMethod::Get,
            template: "v1/{+customer}/apps:countChromeAppRequests".to_owned(),
            path_params,
            known,
            params,
            additional: self.additional_params,
            scopes: self.scopes,
            default_scope: Scope::ChromeManagementAppdetailReadonly,
            unscoped: self.unscoped,
        }
    }
}

/// Generate report of the number of devices expiring in each month of the selected time frame. Devices are grouped by auto update expiration date and model. Further information can be found [here](https://support.google.com/chrome/a/answer/10564947): `reports.countChromeDevicesReachingAutoExpirationDate`.
#[derive(Clone, Debug)]
pub struct CustomerReportCountChromeDevicesReachingAutoExpirationDateCall {
    /// Required. The customer ID or "my_customer" prefixed with "customers/".
    pub customer: String,
    /// Optional. The organizational unit ID, if omitted, will return data for all organizational units.
    pub org_unit_id: Option<String>,
    /// Optional. Maximum expiration date in format yyyy-mm-dd in UTC timezone. If included returns all devices that have already expired and devices with auto expiration date equal to or later than the minimum date.
    pub min_aue_date: Option<String>,
    /// Optional. Maximum expiration date in format yyyy-mm-dd in UTC timezone. If included returns all devices that have already expired and devices with auto expiration date equal to or earlier than the maximum date.
    pub max_aue_date: Option<String>,
    /// Parameters set by name.
    pub additional_params: Params,
    /// Scopes that the token is to carry, in place of the default one.
    pub scopes: Vec<String>,
    /// Whether the call goes without a token where it has no scope.
    pub unscoped: bool,
}

impl CustomerReportCountChromeDevicesReachingAutoExpirationDateCall {
    /// The parameters that the operation sets itself, in order.
    pub open spec fn own_params(&self) -> Seq<ParamView> {
        seq![("customer"@, self.customer@)]
            + opt_text("orgUnitId"@, self.org_unit_id)
            + opt_text("minAueDate"@, self.min_aue_date)
            + opt_text("maxAueDate"@, self.max_aue_date)
    }

    /// Required. The customer ID or "my_customer" prefixed with "customers/".
    pub fn customer(self, new_value: &str) -> (r: Self)
        ensures
            r.customer@ == new_value@,
            r.org_unit_id == self.org_unit_id,
            r.min_aue_date == self.min_aue_date,
            r.max_aue_date == self.max_aue_date,
            r.additional_params == self.additional_params,
            r.scopes == self.scopes,
            r.unscoped == self.unscoped,
    {
        CustomerReportCountChromeDevicesReachingAutoExpirationDateCall { customer: new_value.to_owned(), ..self }
    }

    /// Optional. The organizational unit ID, if omitted, will return data for all organizational units.
    pub fn org_unit_id(self, new_value: &str) -> (r: Self)
        ensures
            r.org_unit_id matches Some(v) && v@ == new_value@,
            r.customer == self.customer,
            r.min_aue_date == self.min_aue_date,
            r.max_aue_date == self.max_aue_date,
            r.additional_params == self.additional_params,
            r.scopes == self.scopes,
            r.unscoped == self.unscoped,
    {
        CustomerReportCountChromeDevicesReachingAutoExpirationDateCall { org_unit_id: Some(new_value.to_owned()), ..self }
    }

    /// Optional. Maximum expiration date in format yyyy-mm-dd in UTC timezone. If included returns all devices that have already expired and devices with auto expiration date equal to or later than the minimum date.
    pub fn min_aue_date(self, new_value: &str) -> (r: Self)
        ensures
            r.min_aue_date matches Some(v) && v@ == new_value@,
            r.customer == self.customer,
            r.org_unit_id == self.org_unit_id,
            r.max_aue_date == self.max_aue_date,
            r.additional_params == self.additional_params,
            r.scopes == self.scopes,
            r.unscoped == self.unscoped,
    {
        CustomerReportCountChromeDevicesReachingAutoExpirationDateCall { min_aue_date: Some(new_value.to_owned()), ..self }
    }

    /// Optional. Maximum expiration date in format yyyy-mm-dd in UTC timezone. If included returns all devices that have already expired and devices with auto expiration date equal to or earlier than the maximum date.
    pub fn max_aue_date(self, new_value: &str) -> (r: Self)
        ensures
            r.max_aue_date matches Some(v) && v@ == new_value@,
            r.customer == self.customer,
            r.org_unit_id == self.org_unit_id,
            r.min_aue_date == self.min_aue_date,
            r.additional_params == self.additional_params,
            r.scopes == self.scopes,
            r.unscoped == self.unscoped,
    {
        CustomerReportCountChromeDevicesReachingAutoExpirationDateCall { max_aue_date: Some(new_value.to_owned()), ..self }
    }

    /// Sets a parameter by name, such as `fields`, `key` or `quotaUser`. A parameter that the
    /// operation sets itself makes the call fail with `FieldClash` when it is prepared.
    pub fn param(self, name: &str, value: &str) -> (r: Self)
        ensures
            r.additional_params@ == set_value(self.additional_params@, name@, value@),
            r.customer == self.customer,
            r.org_unit_id == self.org_unit_id,
            r.min_aue_date == self.min_aue_date,
            r.max_aue_date == self.max_aue_date,
            r.scopes == self.scopes,
            r.unscoped == self.unscoped,
    {
        let mut c = self;
        c.additional_params.set(name.to_owned(), value.to_owned());
        c
    }

    /// Adds a scope that the token is to carry, in place of the default one.
    pub fn add_scope(self, scope: &str) -> (r: Self)
        ensures
            strings_view(r.scopes@) == with_scope(strings_view(self.scopes@), scope@),
            r.customer == self.customer,
            r.org_unit_id == self.org_unit_id,
            r.min_aue_date == self.min_aue_date,
            r.max_aue_date == self.max_aue_date,
            r.additional_params == self.additional_params,
            r.unscoped == self.unscoped,
    {
        let mut c = self;
        add_scope_to(&mut c.scopes, scope.to_owned());
        c
    }

    /// Adds each of `scopes` in turn.
    pub fn add_scopes(self, scopes: &Vec<String>) -> (r: Self)
        ensures
            strings_view(r.scopes@) == with_scopes(strings_view(self.scopes@), strings_view(scopes@)),
            r.customer == self.customer,
            r.org_unit_id == self.org_unit_id,
            r.min_aue_date == self.min_aue_date,
            r.max_aue_date == self.max_aue_date,
            r.additional_params == self.additional_params,
            r.unscoped == self.unscoped,
    {
        let mut c = self;
        add_scopes_to(&mut c.scopes, scopes);
        c
    }

    /// Removes every scope; the call then goes without a token, and the `key` parameter is to
    /// carry an API key.
    pub fn clear_scopes(self) -> (r: Self)
        ensures
            r.scopes@.len() == 0,
            r.unscoped,
            r.customer == self.customer,
            r.org_unit_id == self.org_unit_id,
            r.min_aue_date == self.min_aue_date,
            r.max_aue_date == self.max_aue_date,
            r.additional_params == self.additional_params,
    {
        CustomerReportCountChromeDevicesReachingAutoExpirationDateCall { scopes: Vec::new(), unscoped: true, ..self }
    }

    /// The request that this call stands for.
    pub fn into_request(self) -> (r: RequestSpec)
        ensures
            r.id@ == "chromemanagement.customers.reports.countChromeDevicesReachingAutoExpirationDate"@,
            r.method == HttpMethod::Get,
            r.template@ == "v1/{+customer}/reports:countChromeDevicesReachingAutoExpirationDate"@,
            strings_view(r.path_params@) == seq!["customer"@],
            strings_view(r.known@) == seq!["alt"@, "customer"@, "orgUnitId"@, "minAueDate"@, "maxAueDate"@],
            r.params@ == self.own_params(),
            r.additional == self.additional_params,
            r.scopes == self.scopes,
            r.default_scope == Scope::ChromeManagementReportReadonly,
            r.unscoped == self.unscoped,
    {
        let ghost own = self.own_params();
        let mut params = Params::new();
        params.push("customer".to_owned(), self.customer);
        push_opt_text(&mut params, "orgUnitId", &self.org_unit_id);
        push_opt_text(&mut params, "minAueDate", &self.min_aue_date);
        push_opt_text(&mut params, "maxAueDate", &self.max_aue_date);
        assert(params@ =~= own);
        let path_params = strings_of(vec!["customer"]);
        let known = strings_of(vec!["alt", "customer", "orgUnitId", "minAueDate", "maxAueDate"]);
        RequestSpec {
            id: "chromemanagement.customers.reports.countChromeDevicesReachingAutoExpirationDate".to_owned(),
            method: HttpMethod::Get,
            template: "v1/{+customer}/reports:countChromeDevicesReachingAutoExpirationDate".to_owned(),
            path_params,
            known,
            params,
            additional: self.additional_params,
            scopes: self.scopes,
            default_scope: Scope::ChromeManagementReportReadonly,
            unscoped: self.unscoped,
        }
    }
}

/// Counts of ChromeOS devices that have not synced policies or have lacked user activity in the past 28 days, are out of date, or are not complaint. Further information can be found here https://support.google.com/chrome/a/answer/10564947: `reports.countChromeDevicesThatNeedAttention`.
#[derive(Clone, Debug)]
pub struct CustomerReportCountChromeDevicesThatNeedAttentionCall {
    /// Required. The customer ID or "my_customer" prefixed with "customers/".
    pub customer: String,
    /// Required. Mask of the fields that should be populated in the returned report.
    pub read_mask: Option<FieldMask>,
    /// Optional. The ID of the organizational unit. If omitted, all data will be returned.
    pub org_unit_id: Option<String>,
    /// Parameters set by name.
    pub additional_params: Params,
    /// Scopes that the token is to carry, in place of the default one.
    pub scopes: Vec<String>,
    /// Whether the call goes without a token where it has no scope.
    pub unscoped: bool,
}

impl CustomerReportCountChromeDevicesThatNeedAttentionCall {
    /// The parameters that the operation sets itself, in order.
    pub open spec fn own_params(&self) -> Seq<ParamView> {
        seq![("customer"@, self.customer@)]
            + opt_mask("readMask"@, self.read_mask)
            + opt_text("orgUnitId"@, self.org_unit_id)
    }

    /// Required. The customer ID or "my_customer" prefixed with "customers/".
    pub fn customer(self, new_value: &str) -> (r: Self)
        ensures
            r.customer@ == new_value@,
            r.read_mask == self.read_mask,
            r.org_unit_id == self.org_unit_id,
            r.additional_params == self.additional_params,
            r.scopes == self.scopes,
            r.unscoped == self.unscoped,
    {
        CustomerReportCountChromeDevicesThatNeedAttentionCall { customer: new_value.to_owned(), ..self }
    }

    /// Required. Mask of the fields that should be populated in the returned report.
    pub fn read_mask(self, new_value: FieldMask) -> (r: Self)
        ensures
            r.read_mask == Some(new_value),
            r.customer == self.customer,
            r.org_unit_id == self.org_unit_id,
            r.additional_params == self.additional_params,
            r.scopes == self.scopes,
            r.unscoped == self.unscoped,
    {
        CustomerReportCountChromeDevicesThatNeedAttentionCall { read_mask: Some(new_value), ..self }
    }

    /// Optional. The ID of the organizational unit. If omitted, all data will be returned.
    pub fn org_unit_id(self, new_value: &str) -> (r: Self)
        ensures
            r.org_unit_id matches Some(v) && v@ == new_value@,
            r.customer == self.customer,
            r.read_mask == self.read_mask,
            r.additional_params == self.additional_params,
            r.scopes == self.scopes,
            r.unscoped == self.unscoped,
    {
        CustomerReportCountChromeDevicesThatNeedAttentionCall { org_unit_id: Some(new_value.to_owned()), ..self }
    }

    /// Sets a parameter by name, such as `fields`, `key` or `quotaUser`. A parameter that the
    /// operation sets itself makes the call fail with `FieldClash` when it is prepared.
    pub fn param(self, name: &str, value: &str) -> (r: Self)
        ensures
            r.additional_params@ == set_value(self.additional_params@, name@, value@),
            r.customer == self.customer,
            r.read_mask == self.read_mask,
            r.org_unit_id == self.org_unit_id,
            r.scopes == self.scopes,
            r.unscoped == self.unscoped,
    {
        let mut c = self;
        c.additional_params.set(name.to_owned(), value.to_owned());
        c
    }

    /// Adds a scope that the token is to carry, in place of the default one.
    pub fn add_scope(self, scope: &str) -> (r: Self)
        ensures
            strings_view(r.scopes@) == with_scope(strings_view(self.scopes@), scope@),
            r.customer == self.customer,
            r.read_mask == self.read_mask,
            r.org_unit_id == self.org_unit_id,
            r.additional_params == self.additional_params,
            r.unscoped == self.unscoped,
    {
        let mut c = self;
        add_scope_to(&mut c.scopes, scope.to_owned());
        c
    }

    /// Adds each of `scopes` in turn.
    pub fn add_scopes(self, scopes: &Vec<String>) -> (r: Self)
        ensures
            strings_view(r.scopes@) == with_scopes(strings_view(self.scopes@), strings_view(scopes@)),
            r.customer == self.customer,
            r.read_mask == self.read_mask,
            r.org_unit_id == self.org_unit_id,
            r.additional_params == self.additional_params,
            r.unscoped == self.unscoped,
    {
        let mut c = self;
        add_scopes_to(&mut c.scopes, scopes);
        c
    }

    /// Removes every scope; the call then goes without a token, and the `key` parameter is to
    /// carry an API key.
    pub fn clear_scopes(self) -> (r: Self)
        ensures
            r.scopes@.len() == 0,
            r.unscoped,
            r.customer == self.customer,
            r.read_mask == self.read_mask,
            r.org_unit_id == self.org_unit_id,
            r.additional_params == self.additional_params,
    {
        CustomerReportCountChromeDevicesThatNeedAttentionCall { scopes: Vec::new(), unscoped: true, ..self }
    }

    /// The request that this call stands for.
    pub fn into_request(self) -> (r: RequestSpec)
        ensures
            r.id@ == "chromemanagement.customers.reports.countChromeDevicesThatNeedAttention"@,
            r.method == HttpMethod::Get,
            r.template@ == "v1/{+customer}/reports:countChromeDevicesThatNeedAttention"@,
            strings_view(r.path_params@) == seq!["customer"@],
            strings_view(r.known@) == seq!["alt"@, "customer"@, "readMask"@, "orgUnitId"@],
            r.params@ == self.own_params(),
            r.additional == self.additional_params,
            r.scopes == self.scopes,
            r.default_scope == Scope::ChromeManagementReportReadonly,
            r.unscoped == self.unscoped,
    {
        let ghost own = self.own_params();
        let mut params = Params::new();
        params.push("customer".to_owned(), self.customer);
        push_opt_mask(&mut params, "readMask", &self.read_mask);
        push_opt_text(&mut params, "orgUnitId", &self.org_unit_id);
        assert(params@ =~= own);
        let path_params = strings_of(vec!["customer"]);
        let known = strings_of(vec!["alt", "customer", "readMask", "orgUnitId"]);
        RequestSpec {
            id: "chromemanagement.customers.reports.countChromeDevicesThatNeedAttention".to_owned(),
            method: HttpMethod::Get,
            template: "v1/{+customer}/reports:countChromeDevicesThatNeedAttention".to_owned(),
            path_params,
            known,
            params,
            additional: self.additional_params,
            scopes: self.scopes,
            default_scope: Scope::ChromeManagementReportReadonly,
            unscoped: self.unscoped,
        }
    }
}

/// Counts of devices with a specific hardware specification from the requested hardware type (for example model name, processor type). Further information can be found here https://support.google.com/chrome/a/answer/10564947: `reports.countChromeHardwareFleetDevices`.
#[derive(Clone, Debug)]
pub struct CustomerReportCountChromeHardwareFleetDeviceCall {
    /// Required. The customer ID or "my_customer".
    pub customer: String,
    /// Required. Mask of the fields that should be populated in the returned report.
    pub read_mask: Option<FieldMask>,
    /// Optional. The ID of the organizational unit. If omitted, all data will be returned.
    pub org_unit_id: Option<String>,
    /// Parameters set by name.
    pub additional_params: Params,
    /// Scopes that the token is to carry, in place of the default one.
    pub scopes: Vec<String>,
    /// Whether the call goes without a token where it has no scope.
    pub unscoped: bool,
}

impl CustomerReportCountChromeHardwareFleetDeviceCall {
    /// The parameters that the operation sets itself, in order.
    pub open spec fn own_params(&self) -> Seq<ParamView> {
        seq![("customer"@, self.customer@)]
            + opt_mask("readMask"@, self.read_mask)
            + opt_text("orgUnitId"@, self.org_unit_id)
    }

    /// Required. The customer ID or "my_customer".
    pub fn customer(self, new_value: &str) -> (r: Self)
        ensures
            r.customer@ == new_value@,
            r.read_mask == self.read_mask,
            r.org_unit_id == self.org_unit_id,
            r.additional_params == self.additional_params,
            r.scopes == self.scopes,
            r.unscoped == self.unscoped,
    {
        CustomerReportCountChromeHardwareFleetDeviceCall { customer: new_value.to_owned(), ..self }
    }

    /// Required. Mask of the fields that should be populated in the returned report.
    pub fn read_mask(self, new_value: FieldMask) -> (r: Self)
        ensures
            r.read_mask == Some(new_value),
            r.customer == self.customer,
            r.org_unit_id == self.org_unit_id,
            r.additional_params == self.additional_params,
            r.scopes == self.scopes,
            r.unscoped == self.unscoped,
    {
        CustomerReportCountChromeHardwareFleetDeviceCall { read_mask: Some(new_value), ..self }
    }

    /// Optional. The ID of the organizational unit. If omitted, all data will be returned.
    pub fn org_unit_id(self, new_value: &str) -> (r: Self)
        ensures
            r.org_unit_id matches Some(v) && v@ == new_value@,
            r.customer == self.customer,
            r.read_mask == self.read_mask,
            r.additional_params == self.additional_params,
            r.scopes == self.scopes,
            r.unscoped == self.unscoped,
    {
        CustomerReportCountChromeHardwareFleetDeviceCall { org_unit_id: Some(new_value.to_owned()), ..self }
    }

    /// Sets a parameter by name, such as `fields`, `key` or `quotaUser`. A parameter that the
    /// operation sets itself makes the call fail with `FieldClash` when it is prepared.
    pub fn param(self, name: &str, value: &str) -> (r: Self)
        ensures
            r.additional_params@ == set_value(self.additional_params@, name@, value@),
            r.customer == self.customer,
            r.read_mask == self.read_mask,
            r.org_unit_id == self.org_unit_id,
            r.scopes == self.scopes,
            r.unscoped == self.unscoped,
    {
        let mut c = self;
        c.additional_params.set(name.to_owned(), value.to_owned());
        c
    }

    /// Adds a scope that the token is to carry, in place of the default one.
    pub fn add_scope(self, scope: &str) -> (r: Self)
        ensures
            strings_view(r.scopes@) == with_scope(strings_view(self.scopes@), scope@),
            r.customer == self.customer,
            r.read_mask == self.read_mask,
            r.org_unit_id == self.org_unit_id,
            r.additional_params == self.additional_params,
            r.unscoped == self.unscoped,
    {
        let mut c = self;
        add_scope_to(&mut c.scopes, scope.to_owned());
        c
    }

    /// Adds each of `scopes` in turn.
    pub fn add_scopes(self, scopes: &Vec<String>) -> (r: Self)
        ensures
            strings_view(r.scopes@) == with_scopes(strings_view(self.scopes@), strings_view(scopes@)),
            r.customer == self.customer,
            r.read_mask == self.read_mask,
            r.org_unit_id == self.org_unit_id,
            r.additional_params == self.additional_params,
            r.unscoped == self.unscoped,
    {
        let mut c = self;
        add_scopes_to(&mut c.scopes, scopes);
        c
    }

    /// Removes every scope; the call then goes without a token, and the `key` parameter is to
    /// carry an API key.
    pub fn clear_scopes(self) -> (r: Self)
        ensures
            r.scopes@.len() == 0,
            r.unscoped,
            r.customer == self.customer,
            r.read_mask == self.read_mask,
            r.org_unit_id == self.org_unit_id,
            r.additional_params == self.additional_params,
    {
        CustomerReportCountChromeHardwareFleetDeviceCall { scopes: Vec::new(), unscoped: true, ..self }
    }

    /// The request that this call stands for.
    pub fn into_request(self) -> (r: RequestSpec)
        ensures
            r.id@ == "chromemanagement.customers.reports.countChromeHardwareFleetDevices"@,
            r.method == HttpMethod::Get,
            r.template@ == "v1/{+customer}/reports:countChromeHardwareFleetDevices"@,
            strings_view(r.path_params@) == seq!["customer"@],
            strings_view(r.known@) == seq!["alt"@, "customer"@, "readMask"@, "orgUnitId"@],
            r.params@ == self.own_params(),
            r.additional == self.additional_params,
            r.scopes == self.scopes,
            r.default_scope == Scope::ChromeManagementReportReadonly,
            r.unscoped == self.unscoped,
    {
        let ghost own = self.own_params();
        let mut params = Params::new();
        params.push("customer".to_owned(), self.customer);
        push_opt_mask(&mut params, "readMask", &self.read_mask);
        push_opt_text(&mut params, "orgUnitId", &self.org_unit_id);
        assert(params@ =~= own);
        let path_params = strings_of(vec!["customer"]);
        let known = strings_of(vec!["alt", "customer", "readMask", "orgUnitId"]);
        RequestSpec {
            id: "chromemanagement.customers.reports.countChromeHardwareFleetDevices".to_owned(),
            method: HttpMethod::Get,
            template: "v1/{+customer}/reports:countChromeHardwareFleetDevices".to_owned(),
            path_params,
            known,
            params,
            additional: self.additional_params,
            scopes: self.scopes,
            default_scope: Scope::ChromeManagementReportReadonly,
            unscoped: self.unscoped,
        }
    }
}

/// Generate report of installed Chrome versions: `reports.countChromeVersions`.
#[derive(Clone, Debug)]
pub struct CustomerReportCountChromeVersionCall {
    /// Required. Customer id or "my_customer" to use the customer associated to the account making the request.
    pub customer: String,
    /// Token to specify the page of the request to be returned.
    pub page_token: Option<String>,
    /// Maximum number of results to return. Maximum and default are 100.
    pub page_size: Option<i32>,
    /// The ID of the organizational unit.
    pub org_unit_id: Option<String>,
    /// Query string to filter results, AND-separated fields in EBNF syntax. Note: OR operations are not supported in this filter. Supported filter fields: * last_active_date
    pub filter: Option<String>,
    /// Parameters set by name.
    pub additional_params: Params,
    /// Scopes that the token is to carry, in place of the default one.
    pub scopes: Vec<String>,
    /// Whether the call goes without a token where it has no scope.
    pub unscoped: bool,
}

impl CustomerReportCountChromeVersionCall {
    /// The parameters that the operation sets itself, in order.
    pub open spec fn own_params(&self) -> Seq<ParamView> {
        seq![("customer"@, self.customer@)]
            + opt_text("pageToken"@, self.page_token)
            + opt_int("pageSize"@, self.page_size)
            + opt_text("orgUnitId"@, self.org_unit_id)
            + opt_text("filter"@, self.filter)
    }

    /// Required. Customer id or "my_customer" to use the customer associated to the account making the request.
    pub fn customer(self, new_value: &str) -> (r: Self)
        ensures
            r.customer@ == new_value@,
            r.page_token == self.page_token,
            r.page_size == self.page_size,
            r.org_unit_id == self.org_unit_id,
            r.filter == self.filter,
            r.additional_params == self.additional_params,
            r.scopes == self.scopes,
            r.unscoped == self.unscoped,
    {
        CustomerReportCountChromeVersionCall { customer: new_value.to_owned(), ..self }
    }

    /// Token to specify the page of the request to be returned.
    pub fn page_token(self, new_value: &str) -> (r: Self)
        ensures
            r.page_token matches Some(v) && v@ == new_value@,
            r.customer == self.customer,
            r.page_size == self.page_size,
            r.org_unit_id == self.org_unit_id,
            r.filter == self.filter,
            r.additional_params == self.additional_params,
            r.scopes == self.scopes,
            r.unscoped == self.unscoped,
    {
        CustomerReportCountChromeVersionCall { page_token: Some(new_value.to_owned()), ..self }
    }

    /// Maximum number of results to return. Maximum and default are 100.
    pub fn page_size(self, new_value: i32) -> (r: Self)
        ensures
            r.page_size == Some(new_value),
            r.customer == self.customer,
            r.page_token == self.page_token,
            r.org_unit_id == self.org_unit_id,
            r.filter == self.filter,
            r.additional_params == self.additional_params,
            r.scopes == self.scopes,
            r.unscoped == self.unscoped,
    {
        CustomerReportCountChromeVersionCall { page_size: Some(new_value), ..self }
    }

    /// The ID of the organizational unit.
    pub fn org_unit_id(self, new_value: &str) -> (r: Self)
        ensures
            r.org_unit_id matches Some(v) && v@ == new_value@,
            r.customer == self.customer,
            r.page_token == self.page_token,
            r.page_size == self.page_size,
            r.filter == self.filter,
            r.additional_params == self.additional_params,
            r.scopes == self.scopes,
            r.unscoped == self.unscoped,
    {
        CustomerReportCountChromeVersionCall { org_unit_id: Some(new_value.to_owned()), ..self }
    }

    /// Query string to filter results, AND-separated fields in EBNF syntax. Note: OR operations are not supported in this filter. Supported filter fields: * last_active_date
    pub fn filter(self, new_value: &str) -> (r: Self)
        ensures
            r.filter matches Some(v) && v@ == new_value@,
            r.customer == self.customer,
            r.page_token == self.page_token,
            r.page_size == self.page_size,
            r.org_unit_id == self.org_unit_id,
            r.additional_params == self.additional_params,
            r.scopes == self.scopes,
            r.unscoped == self.unscoped,
    {
        CustomerReportCountChromeVersionCall { filter: Some(new_value.to_owned()), ..self }
    }

    /// Sets a parameter by name, such as `fields`, `key` or `quotaUser`. A parameter that the
    /// operation sets itself makes the call fail with `FieldClash` when it is prepared.
    pub fn param(self, name: &str, value: &str) -> (r: Self)
        ensures
            r.additional_params@ == set_value(self.additional_params@, name@, value@),
            r.customer == self.customer,
            r.page_token == self.page_token,
            r.page_size == self.page_size,
            r.org_unit_id == self.org_unit_id,
            r.filter == self.filter,
            r.scopes == self.scopes,
            r.unscoped == self.unscoped,
    {
        let mut c = self;
        c.additional_params.set(name.to_owned(), value.to_owned());
        c
    }

    /// Adds a scope that the token is to carry, in place of the default one.
    pub fn add_scope(self, scope: &str) -> (r: Self)
        ensures
            strings_view(r.scopes@) == with_scope(strings_view(self.scopes@), scope@),
            r.customer == self.customer,
            r.page_token == self.page_token,
            r.page_size == self.page_size,
            r.org_unit_id == self.org_unit_id,
            r.filter == self.filter,
            r.additional_params == self.additional_params,
            r.unscoped == self.unscoped,
    {
        let mut c = self;
        add_scope_to(&mut c.scopes, scope.to_owned());
        c
    }

    /// Adds each of `scopes` in turn.
    pub fn add_scopes(self, scopes: &Vec<String>) -> (r: Self)
        ensures
            strings_view(r.scopes@) == with_scopes(strings_view(self.scopes@), strings_view(scopes@)),
            r.customer == self.customer,
            r.page_token == self.page_token,
            r.page_size == self.page_size,
            r.org_unit_id == self.org_unit_id,
            r.filter == self.filter,
            r.additional_params == self.additional_params,
            r.unscoped == self.unscoped,
    {
        let mut c = self;
        add_scopes_to(&mut c.scopes, scopes);
        c
    }

    /// Removes every scope; the call then goes without a token, and the `key` parameter is to
    /// carry an API key.
    pub fn clear_scopes(self) -> (r: Self)
        ensures
            r.scopes@.len() == 0,
            r.unscoped,
            r.customer == self.customer,
            r.page_token == self.page_token,
            r.page_size == self.page_size,
            r.org_unit_id == self.org_unit_id,
            r.filter == self.filter,
            r.additional_params == self.additional_params,
    {
        CustomerReportCountChromeVersionCall { scopes: Vec::new(), unscoped: true, ..self }
    }

    /// The request that this call stands for.
    pub fn into_request(self) -> (r: RequestSpec)
        ensures
            r.id@ == "chromemanagement.customers.reports.countChromeVersions"@,
            r.method == HttpMethod::Get,
            r.template@ == "v1/{+customer}/reports:countChromeVersions"@,
            strings_view(r.path_params@) == seq!["customer"@],
            strings_view(r.known@) == seq!["alt"@, "customer"@, "pageToken"@, "pageSize"@, "orgUnitId"@, "filter"@],
            r.params@ == self.own_params(),
            r.additional == self.additional_params,
            r.scopes == self.scopes,
            r.default_scope == Scope::ChromeManagementReportReadonly,
            r.unscoped == self.unscoped,
    {
        let ghost own = self.own_params();
        let mut params = Params::new();
        params.push("customer".to_owned(), self.customer);
        push_opt_text(&mut params, "pageToken", &self.page_token);
        push_opt_int(&mut params, "pageSize", &self.page_size);
        push_opt_text(&mut params, "orgUnitId", &self.org_unit_id);
        push_opt_text(&mut params, "filter", &self.filter);
        assert(params@ =~= own);
        let path_params = strings_of(vec!["customer"]);
        let known = strings_of(vec!["alt", "customer", "pageToken", "pageSize", "orgUnitId", "filter"]);
        RequestSpec {
            id: "chromemanagement.customers.reports.countChromeVersions".to_owned(),
            method: HttpMethod::Get,
            template: "v1/{+customer}/reports:countChromeVersions".to_owned(),
            path_params,
            known,
            params,
            additional: self.additional_params,
            scopes: self.scopes,
            default_scope: Scope::ChromeManagementReportReadonly,
            unscoped: self.unscoped,
        }
    }
}

/// Generate report of app installations: `reports.countInstalledApps`.
#[derive(Clone, Debug)]
pub struct CustomerReportCountInstalledAppCall {
    /// Required. Customer id or "my_customer" to use the customer associated to the account making the request.
    pub customer: String,
    /// Token to specify the page of the request to be returned.
    pub page_token: Option<String>,
    /// Maximum number of results to return. Maximum and default are 100.
    pub page_size: Option<i32>,
    /// The ID of the organizational unit.
    pub org_unit_id: Option<String>,
    /// Field used to order results. Supported order by fields: * app_name * app_type * install_type * number_of_permissions * total_install_count
    pub order_by: Option<String>,
    /// Query string to filter results, AND-separated fields in EBNF syntax. Note: OR operations are not supported in this filter. Supported filter fields: * app_name * app_type * install_type * number_of_permissions * total_install_count * latest_profile_active_date * permission_name
    pub filter: Option<String>,
    /// Parameters set by name.
    pub additional_params: Params,
    /// Scopes that the token is to carry, in place of the default one.
    pub scopes: Vec<String>,
    /// Whether the call goes without a token where it has no scope.
    pub unscoped: bool,
}

impl CustomerReportCountInstalledAppCall {
    /// The parameters that the operation sets itself, in order.
    pub open spec fn own_params(&self) -> Seq<ParamView> {
        seq![("customer"@, self.customer@)]
            + opt_text("pageToken"@, self.page_token)
            + opt_int("pageSize"@, self.page_size)
            + opt_text("orgUnitId"@, self.org_unit_id)
            + opt_text("orderBy"@, self.order_by)
            + opt_text("filter"@, self.filter)
    }

    /// Required. Customer id or "my_customer" to use the customer associated to the account making the request.
    pub fn customer(self, new_value: &str) -> (r: Self)
        ensures
            r.customer@ == new_value@,
            r.page_token == self.page_token,
            r.page_size == self.page_size,
            r.org_unit_id == self.org_unit_id,
            r.order_by == self.order_by,
            r.filter == self.filter,
            r.additional_params == self.additional_params,
            r.scopes == self.scopes,
            r.unscoped == self.unscoped,
    {
        CustomerReportCountInstalledAppCall { customer: new_value.to_owned(), ..self }
    }

    /// Token to specify the page of the request to be returned.
    pub fn page_token(self, new_value: &str) -> (r: Self)
        ensures
            r.page_token matches Some(v) && v@ == new_value@,
            r.customer == self.customer,
            r.page_size == self.page_size,
            r.org_unit_id == self.org_unit_id,
            r.order_by == self.order_by,
            r.filter == self.filter,
            r.additional_params == self.additional_params,
            r.scopes == self.scopes,
            r.unscoped == self.unscoped,
    {
        CustomerReportCountInstalledAppCall { page_token: Some(new_value.to_owned()), ..self }
    }

    /// Maximum number of results to return. Maximum and default are 100.
    pub fn page_size(self, new_value: i32) -> (r: Self)
        ensures
            r.page_size == Some(new_value),
            r.customer == self.customer,
            r.page_token == self.page_token,
            r.org_unit_id == self.org_unit_id,
            r.order_by == self.order_by,
            r.filter == self.filter,
            r.additional_params == self.additional_params,
            r.scopes == self.scopes,
            r.unscoped == self.unscoped,
    {
        CustomerReportCountInstalledAppCall { page_size: Some(new_value), ..self }
    }

    /// The ID of the organizational unit.
    pub fn org_unit_id(self, new_value: &str) -> (r: Self)
        ensures
            r.org_unit_id matches Some(v) && v@ == new_value@,
            r.customer == self.customer,
            r.page_token == self.page_token,
            r.page_size == self.page_size,
            r.order_by == self.order_by,
            r.filter == self.filter,
            r.additional_params == self.additional_params,
            r.scopes == self.scopes,
            r.unscoped == self.unscoped,
    {
        CustomerReportCountInstalledAppCall { org_unit_id: Some(new_value.to_owned()), ..self }
    }

    /// Field used to order results. Supported order by fields: * app_name * app_type * install_type * number_of_permissions * total_install_count
    pub fn order_by(self, new_value: &str) -> (r: Self)
        ensures
            r.order_by matches Some(v) && v@ == new_value@,
            r.customer == self.customer,
            r.page_token == self.page_token,
            r.page_size == self.page_size,
            r.org_unit_id == self.org_unit_id,
            r.filter == self.filter,
            r.additional_params == self.additional_params,
            r.scopes == self.scopes,
            r.unscoped == self.unscoped,
    {
        CustomerReportCountInstalledAppCall { order_by: Some(new_value.to_owned()), ..self }
    }

    /// Query string to filter results, AND-separated fields in EBNF syntax. Note: OR operations are not supported in this filter. Supported filter fields: * app_name * app_type * install_type * number_of_permissions * total_install_count * latest_profile_active_date * permission_name
    pub fn filter(self, new_value: &str) -> (r: Self)
        ensures
            r.filter matches Some(v) && v@ == new_value@,
            r.customer == self.customer,
            r.page_token == self.page_token,
            r.page_size == self.page_size,
            r.org_unit_id == self.org_unit_id,
            r.order_by == self.order_by,
            r.additional_params == self.additional_params,
            r.scopes == self.scopes,
            r.unscoped == self.unscoped,
    {
        CustomerReportCountInstalledAppCall { filter: Some(new_value.to_owned()), ..self }
    }

    /// Sets a parameter by name, such as `fields`, `key` or `quotaUser`. A parameter that the
    /// operation sets itself makes the call fail with `FieldClash` when it is prepared.
    pub fn param(self, name: &str, value: &str) -> (r: Self)
        ensures
            r.additional_params@ == set_value(self.additional_params@, name@, value@),
            r.customer == self.customer,
            r.page_token == self.page_token,
            r.page_size == self.page_size,
            r.org_unit_id == self.org_unit_id,
            r.order_by == self.order_by,
            r.filter == self.filter,
            r.scopes == self.scopes,
            r.unscoped == self.unscoped,
    {
        let mut c = self;
        c.additional_params.set(name.to_owned(), value.to_owned());
        c
    }

    /// Adds a scope that the token is to carry, in place of the default one.
    pub fn add_scope(self, scope: &str) -> (r: Self)
        ensures
            strings_view(r.scopes@) == with_scope(strings_view(self.scopes@), scope@),
            r.customer == self.customer,
            r.page_token == self.page_token,
            r.page_size == self.page_size,
            r.org_unit_id == self.org_unit_id,
            r.order_by == self.order_by,
            r.filter == self.filter,
            r.additional_params == self.additional_params,
            r.unscoped == self.unscoped,
    {
        let mut c = self;
        add_scope_to(&mut c.scopes, scope.to_owned());
        c
    }

    /// Adds each of `scopes` in turn.
    pub fn add_scopes(self, scopes: &Vec<String>) -> (r: Self)
        ensures
            strings_view(r.scopes@) == with_scopes(strings_view(self.scopes@), strings_view(scopes@)),
            r.customer == self.customer,
            r.page_token == self.page_token,
            r.page_size == self.page_size,
            r.org_unit_id == self.org_unit_id,
            r.order_by == self.order_by,
            r.filter == self.filter,
            r.additional_params == self.additional_params,
            r.unscoped == self.unscoped,
    {
        let mut c = self;
        add_scopes_to(&mut c.scopes, scopes);
        c
    }

    /// Removes every scope; the call then goes without a token, and the `key` parameter is to
    /// carry an API key.
    pub fn clear_scopes(self) -> (r: Self)
        ensures
            r.scopes@.len() == 0,
            r.unscoped,
            r.customer == self.customer,
            r.page_token == self.page_token,
            r.page_size == self.page_size,
            r.org_unit_id == self.org_unit_id,
            r.order_by == self.order_by,
            r.filter == self.filter,
            r.additional_params == self.additional_params,
    {
        CustomerReportCountInstalledAppCall { scopes: Vec::new(), unscoped: true, ..self }
    }

    /// The request that this call stands for.
    pub fn into_request(self) -> (r: RequestSpec)
        ensures
            r.id@ == "chromemanagement.customers.reports.countInstalledApps"@,
            r.method == HttpMethod::Get,
            r.template@ == "v1/{+customer}/reports:countInstalledApps"@,
            strings_view(r.path_params@) == seq!["customer"@],
            strings_view(r.known@) == seq!["alt"@, "customer"@, "pageToken"@, "pageSize"@, "orgUnitId"@, "orderBy"@, "filter"@],
            r.params@ == self.own_params(),
            r.additional == self.additional_params,
            r.scopes == self.scopes,
            r.default_scope == Scope::ChromeManagementReportReadonly,
            r.unscoped == self.unscoped,
    {
        let ghost own = self.own_params();
        let mut params = Params::new();
        params.push("customer".to_owned(), self.customer);
        push_opt_text(&mut params, "pageToken", &self.page_token);
        push_opt_int(&mut params, "pageSize", &self.page_size);
        push_opt_text(&mut params, "orgUnitId", &self.org_unit_id);
        push_opt_text(&mut params, "orderBy", &self.order_by);
        push_opt_text(&mut params, "filter", &self.filter);
        assert(params@ =~= own);
        let path_params = strings_of(vec!["customer"]);
        let known = strings_of(vec!["alt", "customer", "pageToken", "pageSize", "orgUnitId", "orderBy", "filter"]);
        RequestSpec {
            id: "chromemanagement.customers.reports.countInstalledApps".to_owned(),
            method: HttpMethod::Get,
            template: "v1/{+customer}/reports:countInstalledApps".to_owned(),
            path_params,
            known,
            params,
            additional: self.additional_params,
            scopes: self.scopes,
            default_scope: Scope::ChromeManagementReportReadonly,
            unscoped: self.unscoped,
        }
    }
}

/// Generate report of devices that have a specified app installed: `reports.findInstalledAppDevices`.
#[derive(Clone, Debug)]
pub struct CustomerReportFindInstalledAppDeviceCall {
    /// Required. Customer id or "my_customer" to use the customer associated to the account making the request.
    pub customer: String,
    /// Token to specify the page of the request to be returned.
    pub page_token: Option<String>,
    /// Maximum number of results to return. Maximum and default are 100.
    pub page_size: Option<i32>,
    /// The ID of the organizational unit.
    pub org_unit_id: Option<String>,
    /// Field used to order results. Supported order by fields: * machine * device_id
    pub order_by: Option<String>,
    /// Query string to filter results, AND-separated fields in EBNF syntax. Note: OR operations are not supported in this filter. Supported filter fields: * last_active_date
    pub filter: Option<String>,
    /// Type of the app.
    pub app_type: Option<String>,
    /// Unique identifier of the app. For Chrome apps and extensions, the 32-character id (e.g. ehoadneljpdggcbbknedodolkkjodefl). For Android apps, the package name (e.g. com.evernote).
    pub app_id: Option<String>,
    /// Parameters set by name.
    pub additional_params: Params,
    /// Scopes that the token is to carry, in place of the default one.
    pub scopes: Vec<String>,
    /// Whether the call goes without a token where it has no scope.
    pub unscoped: bool,
}

impl CustomerReportFindInstalledAppDeviceCall {
    /// The parameters that the operation sets itself, in order.
    pub open spec fn own_params(&self) -> Seq<ParamView> {
        seq![("customer"@, self.customer@)]
            + opt_text("pageToken"@, self.page_token)
            + opt_int("pageSize"@, self.page_size)
            + opt_text("orgUnitId"@, self.org_unit_id)
            + opt_text("orderBy"@, self.order_by)
            + opt_text("filter"@, self.filter)
            + opt_text("appType"@, self.app_type)
            + opt_text("appId"@, self.app_id)
    }

    /// Required. Customer id or "my_customer" to use the customer associated to the account making the request.
    pub fn customer(self, new_value: &str) -> (r: Self)
        ensures
            r.customer@ == new_value@,
            r.page_token == self.page_token,
            r.page_size == self.page_size,
            r.org_unit_id == self.org_unit_id,
            r.order_by == self.order_by,
            r.filter == self.filter,
            r.app_type == self.app_type,
            r.app_id == self.app_id,
            r.additional_params == self.additional_params,
            r.scopes == self.scopes,
            r.unscoped == self.unscoped,
    {
        CustomerReportFindInstalledAppDeviceCall { customer: new_value.to_owned(), ..self }
    }

    /// Token to specify the page of the request to be returned.
    pub fn page_token(self, new_value: &str) -> (r: Self)
        ensures
            r.page_token matches Some(v) && v@ == new_value@,
            r.customer == self.customer,
            r.page_size == self.page_size,
            r.org_unit_id == self.org_unit_id,
            r.order_by == self.order_by,
            r.filter == self.filter,
            r.app_type == self.app_type,
            r.app_id == self.app_id,
            r.additional_params == self.additional_params,
            r.scopes == self.scopes,
            r.unscoped == self.unscoped,
    {
        CustomerReportFindInstalledAppDeviceCall { page_token: Some(new_value.to_owned()), ..self }
    }

    /// Maximum number of results to return. Maximum and default are 100.
    pub fn page_size(self, new_value: i32) -> (r: Self)
        ensures
            r.page_size == Some(new_value),
            r.customer == self.customer,
            r.page_token == self.page_token,
            r.org_unit_id == self.org_unit_id,
            r.order_by == self.order_by,
            r.filter == self.filter,
            r.app_type == self.app_type,
            r.app_id == self.app_id,
            r.additional_params == self.additional_params,
            r.scopes == self.scopes,
            r.unscoped == self.unscoped,
    {
        CustomerReportFindInstalledAppDeviceCall { page_size: Some(new_value), ..self }
    }

    /// The ID of the organizational unit.
    pub fn org_unit_id(self, new_value: &str) -> (r: Self)
        ensures
            r.org_unit_id matches Some(v) && v@ == new_value@,
            r.customer == self.customer,
            r.page_token == self.page_token,
            r.page_size == self.page_size,
            r.order_by == self.order_by,
            r.filter == self.filter,
            r.app_type == self.app_type,
            r.app_id == self.app_id,
            r.additional_params == self.additional_params,
            r.scopes == self.scopes,
            r.unscoped == self.unscoped,
    {
        CustomerReportFindInstalledAppDeviceCall { org_unit_id: Some(new_value.to_owned()), ..self }
    }

    /// Field used to order results. Supported order by fields: * machine * device_id
    pub fn order_by(self, new_value: &str) -> (r: Self)
        ensures
            r.order_by matches Some(v) && v@ == new_value@,
            r.customer == self.customer,
            r.page_token == self.page_token,
            r.page_size == self.page_size,
            r.org_unit_id == self.org_unit_id,
            r.filter == self.filter,
            r.app_type == self.app_type,
            r.app_id == self.app_id,
            r.additional_params == self.additional_params,
            r.scopes == self.scopes,
            r.unscoped == self.unscoped,
    {
        CustomerReportFindInstalledAppDeviceCall { order_by: Some(new_value.to_owned()), ..self }
    }

    /// Query string to filter results, AND-separated fields in EBNF syntax. Note: OR operations are not supported in this filter. Supported filter fields: * last_active_date
    pub fn filter(self, new_value: &str) -> (r: Self)
        ensures
            r.filter matches Some(v) && v@ == new_value@,
            r.customer == self.customer,
            r.page_token == self.page_token,
            r.page_size == self.page_size,
            r.org_unit_id == self.org_unit_id,
            r.order_by == self.order_by,
            r.app_type == self.app_type,
            r.app_id == self.app_id,
            r.additional_params == self.additional_params,
            r.scopes == self.scopes,
            r.unscoped == self.unscoped,
    {
        CustomerReportFindInstalledAppDeviceCall { filter: Some(new_value.to_owned()), ..self }
    }

    /// Type of the app.
    pub fn app_type(self, new_value: &str) -> (r: Self)
        ensures
            r.app_type matches Some(v) && v@ == new_value@,
            r.customer == self.customer,
            r.page_token == self.page_token,
            r.page_size == self.page_size,
            r.org_unit_id == self.org_unit_id,
            r.order_by == self.order_by,
            r.filter == self.filter,
            r.app_id == self.app_id,
            r.additional_params == self.additional_params,
            r.scopes == self.scopes,
            r.unscoped == self.unscoped,
    {
        CustomerReportFindInstalledAppDeviceCall { app_type: Some(new_value.to_owned()), ..self }
    }

    /// Unique identifier of the app. For Chrome apps and extensions, the 32-character id (e.g. ehoadneljpdggcbbknedodolkkjodefl). For Android apps, the package name (e.g. com.evernote).
    pub fn app_id(self, new_value: &str) -> (r: Self)
        ensures
            r.app_id matches Some(v) && v@ == new_value@,
            r.customer == self.customer,
            r.page_token == self.page_token,
            r.page_size == self.page_size,
            r.org_unit_id == self.org_unit_id,
            r.order_by == self.order_by,
            r.filter == self.filter,
            r.app_type == self.app_type,
            r.additional_params == self.additional_params,
            r.scopes == self.scopes,
            r.unscoped == self.unscoped,
    {
        CustomerReportFindInstalledAppDeviceCall { app_id: Some(new_value.to_owned()), ..self }
    }

    /// Sets a parameter by name, such as `fields`, `key` or `quotaUser`. A parameter that the
    /// operation sets itself makes the call fail with `FieldClash` when it is prepared.
    pub fn param(self, name: &str, value: &str) -> (r: Self)
        ensures
            r.additional_params@ == set_value(self.additional_params@, name@, value@),
            r.customer == self.customer,
            r.page_token == self.page_token,
            r.page_size == self.page_size,
            r.org_unit_id == self.org_unit_id,
            r.order_by == self.order_by,
            r.filter == self.filter,
            r.app_type == self.app_type,
            r.app_id == self.app_id,
            r.scopes == self.scopes,
            r.unscoped == self.unscoped,
    {
        let mut c = self;
        c.additional_params.set(name.to_owned(), value.to_owned());
        c
    }

    /// Adds a scope that the token is to carry, in place of the default one.
    pub fn add_scope(self, scope: &str) -> (r: Self)
        ensures
            strings_view(r.scopes@) == with_scope(strings_view(self.scopes@), scope@),
            r.customer == self.customer,
            r.page_token == self.page_token,
            r.page_size == self.page_size,
            r.org_unit_id == self.org_unit_id,
            r.order_by == self.order_by,
            r.filter == self.filter,
            r.app_type == self.app_type,
            r.app_id == self.app_id,
            r.additional_params == self.additional_params,
            r.unscoped == self.unscoped,
    {
        let mut c = self;
        add_scope_to(&mut c.scopes, scope.to_owned());
        c
    }

    /// Adds each of `scopes` in turn.
    pub fn add_scopes(self, scopes: &Vec<String>) -> (r: Self)
        ensures
            strings_view(r.scopes@) == with_scopes(strings_view(self.scopes@), strings_view(scopes@)),
            r.customer == self.customer,
            r.page_token == self.page_token,
            r.page_size == self.page_size,
            r.org_unit_id == self.org_unit_id,
            r.order_by == self.order_by,
            r.filter == self.filter,
            r.app_type == self.app_type,
            r.app_id == self.app_id,
            r.additional_params == self.additional_params,
            r.unscoped == self.unscoped,
    {
        let mut c = self;
        add_scopes_to(&mut c.scopes, scopes);
        c
    }

    /// Removes every scope; the call then goes without a token, and the `key` parameter is to
    /// carry an API key.
    pub fn clear_scopes(self) -> (r: Self)
        ensures
            r.scopes@.len() == 0,
            r.unscoped,
            r.customer == self.customer,
            r.page_token == self.page_token,
            r.page_size == self.page_size,
            r.org_unit_id == self.org_unit_id,
            r.order_by == self.order_by,
            r.filter == self.filter,
            r.app_type == self.app_type,
            r.app_id == self.app_id,
            r.additional_params == self.additional_params,
    {
        CustomerReportFindInstalledAppDeviceCall { scopes: Vec::new(), unscoped: true, ..self }
    }

    /// The request that this call stands for.
    pub fn into_request(self) -> (r: RequestSpec)
        ensures
            r.id@ == "chromemanagement.customers.reports.findInstalledAppDevices"@,
            r.method == HttpMethod::Get,
            r.template@ == "v1/{+customer}/reports:findInstalledAppDevices"@,
            strings_view(r.path_params@) == seq!["customer"@],
            strings_view(r.known@) == seq!["alt"@, "customer"@, "pageToken"@, "pageSize"@, "orgUnitId"@, "orderBy"@, "filter"@, "appType"@, "appId"@],
            r.params@ == self.own_params(),
            r.additional == self.additional_params,
            r.scopes == self.scopes,
            r.default_scope == Scope::ChromeManagementReportReadonly,
            r.unscoped == self.unscoped,
    {
        let ghost own = self.own_params();
        let mut params = Params::new();
        params.push("customer".to_owned(), self.customer);
        push_opt_text(&mut params, "pageToken", &self.page_token);
        push_opt_int(&mut params, "pageSize", &self.page_size);
        push_opt_text(&mut params, "orgUnitId", &self.org_unit_id);
        push_opt_text(&mut params, "orderBy", &self.order_by);
        push_opt_text(&mut params, "filter", &self.filter);
        push_opt_text(&mut params, "appType", &self.app_type);
        push_opt_text(&mut params, "appId", &self.app_id);
        assert(params@ =~= own);
        let path_params = strings_of(vec!["customer"]);
        let known = strings_of(vec!["alt", "customer", "pageToken", "pageSize", "orgUnitId", "orderBy", "filter", "appType", "appId"]);
        RequestSpec {
            id: "chromemanagement.customers.reports.findInstalledAppDevices".to_owned(),
            method: HttpMethod::Get,
            template: "v1/{+customer}/reports:findInstalledAppDevices".to_owned(),
            path_params,
            known,
            params,
            additional: self.additional_params,
            scopes: self.scopes,
            default_scope: Scope::ChromeManagementReportReadonly,
            unscoped: self.unscoped,
        }
    }
}

/// Get telemetry device: `telemetry.devices.get`.
#[derive(Clone, Debug)]
pub struct CustomerTelemetryDeviceGetCall {
    /// Required. Name of the `TelemetryDevice` to return.
    pub name: String,
    /// Required. Read mask to specify which fields to return.
    pub read_mask: Option<FieldMask>,
    /// Parameters set by name.
    pub additional_params: Params,
    /// Scopes that the token is to carry, in place of the default one.
    pub scopes: Vec<String>,
    /// Whether the call goes without a token where it has no scope.
    pub unscoped: bool,
}

impl CustomerTelemetryDeviceGetCall {
    /// The parameters that the operation sets itself, in order.
    pub open spec fn own_params(&self) -> Seq<ParamView> {
        seq![("name"@, self.name@)]
            + opt_mask("readMask"@, self.read_mask)
    }

    /// Required. Name of the `TelemetryDevice` to return.
    pub fn name(self, new_value: &str) -> (r: Self)
        ensures
            r.name@ == new_value@,
            r.read_mask == self.read_mask,
            r.additional_params == self.additional_params,
            r.scopes == self.scopes,
            r.unscoped == self.unscoped,
    {
        CustomerTelemetryDeviceGetCall { name: new_value.to_owned(), ..self }
    }

    /// Required. Read mask to specify which fields to return.
    pub fn read_mask(self, new_value: FieldMask) -> (r: Self)
        ensures
            r.read_mask == Some(new_value),
            r.name == self.name,
            r.additional_params == self.additional_params,
            r.scopes == self.scopes,
            r.unscoped == self.unscoped,
    {
        CustomerTelemetryDeviceGetCall { read_mask: Some(new_value), ..self }
    }

    /// Sets a parameter by name, such as `fields`, `key` or `quotaUser`. A parameter that the
    /// operation sets itself makes the call fail with `FieldClash` when it is prepared.
    pub fn param(self, name: &str, value: &str) -> (r: Self)
        ensures
            r.additional_params@ == set_value(self.additional_params@, name@, value@),
            r.name == self.name,
            r.read_mask == self.read_mask,
            r.scopes == self.scopes,
            r.unscoped == self.unscoped,
    {
        let mut c = self;
        c.additional_params.set(name.to_owned(), value.to_owned());
        c
    }

    /// Adds a scope that the token is to carry, in place of the default one.
    pub fn add_scope(self, scope: &str) -> (r: Self)
        ensures
            strings_view(r.scopes@) == with_scope(strings_view(self.scopes@), scope@),
            r.name == self.name,
            r.read_mask == self.read_mask,
            r.additional_params == self.additional_params,
            r.unscoped == self.unscoped,
    {
        let mut c = self;
        add_scope_to(&mut c.scopes, scope.to_owned());
        c
    }

    /// Adds each of `scopes` in turn.
    pub fn add_scopes(self, scopes: &Vec<String>) -> (r: Self)
        ensures
            strings_view(r.scopes@) == with_scopes(strings_view(self.scopes@), strings_view(scopes@)),
            r.name == self.name,
            r.read_mask == self.read_mask,
            r.additional_params == self.additional_params,
            r.unscoped == self.unscoped,
    {
        let mut c = self;
        add_scopes_to(&mut c.scopes, scopes);
        c
    }

    /// Removes every scope; the call then goes without a token, and the `key` parameter is to
    /// carry an API key.
    pub fn clear_scopes(self) -> (r: Self)
        ensures
            r.scopes@.len() == 0,
            r.unscoped,
            r.name == self.name,
            r.read_mask == self.read_mask,
            r.additional_params == self.additional_params,
    {
        CustomerTelemetryDeviceGetCall { scopes: Vec::new(), unscoped: true, ..self }
    }

    /// The request that this call stands for.
    pub fn into_request(self) -> (r: RequestSpec)
        ensures
            r.id@ == "chromemanagement.customers.telemetry.devices.get"@,
            r.method == HttpMethod::Get,
            r.template@ == "v1/{+name}"@,
            strings_view(r.path_params@) == seq!["name"@],
            strings_view(r.known@) == seq!["alt"@, "name"@, "readMask"@],
            r.params@ == self.own_params(),
            r.additional == self.additional_params,
            r.scopes == self.scopes,
            r.default_scope == Scope::ChromeManagementTelemetryReadonly,
            r.unscoped == self.unscoped,
    {
        let ghost own = self.own_params();
        let mut params = Params::new();
        params.push("name".to_owned(), self.name);
        push_opt_mask(&mut params, "readMask", &self.read_mask);
        assert(params@ =~= own);
        let path_params = strings_of(vec!["name"]);
        let known = strings_of(vec!["alt", "name", "readMask"]);
        RequestSpec {
            id: "chromemanagement.customers.telemetry.devices.get".to_owned(),
            method: HttpMethod::Get,
            template: "v1/{+name}".to_owned(),
            path_params,
            known,
            params,
            additional: self.additional_params,
            scopes: self.scopes,
            default_scope: Scope::ChromeManagementTelemetryReadonly,
            unscoped: self.unscoped,
        }
    }
}

/// List all telemetry devices: `telemetry.devices.list`.
#[derive(Clone, Debug)]
pub struct CustomerTelemetryDeviceListCall {
    /// Required. Customer id or "my_customer" to use the customer associated to the account making the request.
    pub parent: String,
    /// Required. Read mask to specify which fields to return.
    pub read_mask: Option<FieldMask>,
    /// Token to specify next page in the list.
    pub page_token: Option<String>,
    /// Maximum number of results to return. Default value is 100. Maximum value is 1000.
    pub page_size: Option<i32>,
    /// Optional. Only include resources that match the filter. Supported filter fields: - org_unit_id - serial_number - device_id
    pub filter: Option<String>,
    /// Parameters set by name.
    pub additional_params: Params,
    /// Scopes that the token is to carry, in place of the default one.
    pub scopes: Vec<String>,
    /// Whether the call goes without a token where it has no scope.
    pub unscoped: bool,
}

impl CustomerTelemetryDeviceListCall {
    /// The parameters that the operation sets itself, in order.
    pub open spec fn own_params(&self) -> Seq<ParamView> {
        seq![("parent"@, self.parent@)]
            + opt_mask("readMask"@, self.read_mask)
            + opt_text("pageToken"@, self.page_token)
            + opt_int("pageSize"@, self.page_size)
            + opt_text("filter"@, self.filter)
    }

    /// Required. Customer id or "my_customer" to use the customer associated to the account making the request.
    pub fn parent(self, new_value: &str) -> (r: Self)
        ensures
            r.parent@ == new_value@,
            r.read_mask == self.read_mask,
            r.page_token == self.page_token,
            r.page_size == self.page_size,
            r.filter == self.filter,
            r.additional_params == self.additional_params,
            r.scopes == self.scopes,
            r.unscoped == self.unscoped,
    {
        CustomerTelemetryDeviceListCall { parent: new_value.to_owned(), ..self }
    }

    /// Required. Read mask to specify which fields to return.
    pub fn read_mask(self, new_value: FieldMask) -> (r: Self)
        ensures
            r.read_mask == Some(new_value),
            r.parent == self.parent,
            r.page_token == self.page_token,
            r.page_size == self.page_size,
            r.filter == self.filter,
            r.additional_params == self.additional_params,
            r.scopes == self.scopes,
            r.unscoped == self.unscoped,
    {
        CustomerTelemetryDeviceListCall { read_mask: Some(new_value), ..self }
    }

    /// Token to specify next page in the list.
    pub fn page_token(self, new_value: &str) -> (r: Self)
        ensures
            r.page_token matches Some(v) && v@ == new_value@,
            r.parent == self.parent,
            r.read_mask == self.read_mask,
            r.page_size == self.page_size,
            r.filter == self.filter,
            r.additional_params == self.additional_params,
            r.scopes == self.scopes,
            r.unscoped == self.unscoped,
    {
        CustomerTelemetryDeviceListCall { page_token: Some(new_value.to_owned()), ..self }
    }

    /// Maximum number of results to return. Default value is 100. Maximum value is 1000.
    pub fn page_size(self, new_value: i32) -> (r: Self)
        ensures
            r.page_size == Some(new_value),
            r.parent == self.parent,
            r.read_mask == self.read_mask,
            r.page_token == self.page_token,
            r.filter == self.filter,
            r.additional_params == self.additional_params,
            r.scopes == self.scopes,
            r.unscoped == self.unscoped,
    {
        CustomerTelemetryDeviceListCall { page_size: Some(new_value), ..self }
    }

    /// Optional. Only include resources that match the filter. Supported filter fields: - org_unit_id - serial_number - device_id
    pub fn filter(self, new_value: &str) -> (r: Self)
        ensures
            r.filter matches Some(v) && v@ == new_value@,
            r.parent == self.parent,
            r.read_mask == self.read_mask,
            r.page_token == self.page_token,
            r.page_size == self.page_size,
            r.additional_params == self.additional_params,
            r.scopes == self.scopes,
            r.unscoped == self.unscoped,
    {
        CustomerTelemetryDeviceListCall { filter: Some(new_value.to_owned()), ..self }
    }

    /// Sets a parameter by name, such as `fields`, `key` or `quotaUser`. A parameter that the
    /// operation sets itself makes the call fail with `FieldClash` when it is prepared.
    pub fn param(self, name: &str, value: &str) -> (r: Self)
        ensures
            r.additional_params@ == set_value(self.additional_params@, name@, value@),
            r.parent == self.parent,
            r.read_mask == self.read_mask,
            r.page_token == self.page_token,
            r.page_size == self.page_size,
            r.filter == self.filter,
            r.scopes == self.scopes,
            r.unscoped == self.unscoped,
    {
        let mut c = self;
        c.additional_params.set(name.to_owned(), value.to_owned());
        c
    }

    /// Adds a scope that the token is to carry, in place of the default one.
    pub fn add_scope(self, scope: &str) -> (r: Self)
        ensures
            strings_view(r.scopes@) == with_scope(strings_view(self.scopes@), scope@),
            r.parent == self.parent,
            r.read_mask == self.read_mask,
            r.page_token == self.page_token,
            r.page_size == self.page_size,
            r.filter == self.filter,
            r.additional_params == self.additional_params,
            r.unscoped == self.unscoped,
    {
        let mut c = self;
        add_scope_to(&mut c.scopes, scope.to_owned());
        c
    }

    /// Adds each of `scopes` in turn.
    pub fn add_scopes(self, scopes: &Vec<String>) -> (r: Self)
        ensures
            strings_view(r.scopes@) == with_scopes(strings_view(self.scopes@), strings_view(scopes@)),
            r.parent == self.parent,
            r.read_mask == self.read_mask,
            r.page_token == self.page_token,
            r.page_size == self.page_size,
            r.filter == self.filter,
            r.additional_params == self.additional_params,
            r.unscoped == self.unscoped,
    {
        let mut c = self;
        add_scopes_to(&mut c.scopes, scopes);
        c
    }

    /// Removes every scope; the call then goes without a token, and the `key` parameter is to
    /// carry an API key.
    pub fn clear_scopes(self) -> (r: Self)
        ensures
            r.scopes@.len() == 0,
            r.unscoped,
            r.parent == self.parent,
            r.read_mask == self.read_mask,
            r.page_token == self.page_token,
            r.page_size == self.page_size,
            r.filter == self.filter,
            r.additional_params == self.additional_params,
    {
        CustomerTelemetryDeviceListCall { scopes: Vec::new(), unscoped: true, ..self }
    }

    /// The request that this call stands for.
    pub fn into_request(self) -> (r: RequestSpec)
        ensures
            r.id@ == "chromemanagement.customers.telemetry.devices.list"@,
            r.method == HttpMethod::Get,
            r.template@ == "v1/{+parent}/telemetry/devices"@,
            strings_view(r.path_params@) == seq!["parent"@],
            strings_view(r.known@) == seq!["alt"@, "parent"@, "readMask"@, "pageToken"@, "pageSize"@, "filter"@],
            r.params@ == self.own_params(),
            r.additional == self.additional_params,
            r.scopes == self.scopes,
            r.default_scope == Scope::ChromeManagementTelemetryReadonly,
            r.unscoped == self.unscoped,
    {
        let ghost own = self.own_params();
        let mut params = Params::new();
        params.push("parent".to_owned(), self.parent);
        push_opt_mask(&mut params, "readMask", &self.read_mask);
        push_opt_text(&mut params, "pageToken", &self.page_token);
        push_opt_int(&mut params, "pageSize", &self.page_size);
        push_opt_text(&mut params, "filter", &self.filter);
        assert(params@ =~= own);
        let path_params = strings_of(vec!["parent"]);
        let known = strings_of(vec!["alt", "parent", "readMask", "pageToken", "pageSize", "filter"]);
        RequestSpec {
            id: "chromemanagement.customers.telemetry.devices.list".to_owned(),
            method: HttpMethod::Get,
            template: "v1/{+parent}/telemetry/devices".to_owned(),
            path_params,
            known,
            params,
            additional: self.additional_params,
            scopes: self.scopes,
            default_scope: Scope::ChromeManagementTelemetryReadonly,
            unscoped: self.unscoped,
        }
    }
}

/// List telemetry events: `telemetry.events.list`.
#[derive(Clone, Debug)]
pub struct CustomerTelemetryEventListCall {
    /// Required. Customer id or "my_customer" to use the customer associated to the account making the request.
    pub parent: String,
    /// Required. Read mask to specify which fields to return.
    pub read_mask: Option<FieldMask>,
    /// Optional. Token to specify next page in the list.
    pub page_token: Option<String>,
    /// Optional. Maximum number of results to return. Default value is 100. Maximum value is 1000.
    pub page_size: Option<i32>,
    /// Optional. Only include resources that match the filter. Supported filter fields: * device_id * user_id * device_org_unit_id * user_org_unit_id * timestamp * event_type
    pub filter: Option<String>,
    /// Parameters set by name.
    pub additional_params: Params,
    /// Scopes that the token is to carry, in place of the default one.
    pub scopes: Vec<String>,
    /// Whether the call goes without a token where it has no scope.
    pub unscoped: bool,
}

impl CustomerTelemetryEventListCall {
    /// The parameters that the operation sets itself, in order.
    pub open spec fn own_params(&self) -> Seq<ParamView> {
        seq![("parent"@, self.parent@)]
            + opt_mask("readMask"@, self.read_mask)
            + opt_text("pageToken"@, self.page_token)
            + opt_int("pageSize"@, self.page_size)
            + opt_text("filter"@, self.filter)
    }

    /// Required. Customer id or "my_customer" to use the customer associated to the account making the request.
    pub fn parent(self, new_value: &str) -> (r: Self)
        ensures
            r.parent@ == new_value@,
            r.read_mask == self.read_mask,
            r.page_token == self.page_token,
            r.page_size == self.page_size,
            r.filter == self.filter,
            r.additional_params == self.additional_params,
            r.scopes == self.scopes,
            r.unscoped == self.unscoped,
    {
        CustomerTelemetryEventListCall { parent: new_value.to_owned(), ..self }
    }

    /// Required. Read mask to specify which fields to return.
    pub fn read_mask(self, new_value: FieldMask) -> (r: Self)
        ensures
            r.read_mask == Some(new_value),
            r.parent == self.parent,
            r.page_token == self.page_token,
            r.page_size == self.page_size,
            r.filter == self.filter,
            r.additional_params == self.additional_params,
            r.scopes == self.scopes,
            r.unscoped == self.unscoped,
    {
        CustomerTelemetryEventListCall { read_mask: Some(new_value), ..self }
    }

    /// Optional. Token to specify next page in the list.
    pub fn page_token(self, new_value: &str) -> (r: Self)
        ensures
            r.page_token matches Some(v) && v@ == new_value@,
            r.parent == self.parent,
            r.read_mask == self.read_mask,
            r.page_size == self.page_size,
            r.filter == self.filter,
            r.additional_params == self.additional_params,
            r.scopes == self.scopes,
            r.unscoped == self.unscoped,
    {
        CustomerTelemetryEventListCall { page_token: Some(new_value.to_owned()), ..self }
    }

    /// Optional. Maximum number of results to return. Default value is 100. Maximum value is 1000.
    pub fn page_size(self, new_value: i32) -> (r: Self)
        ensures
            r.page_size == Some(new_value),
            r.parent == self.parent,
            r.read_mask == self.read_mask,
            r.page_token == self.page_token,
            r.filter == self.filter,
            r.additional_params == self.additional_params,
            r.scopes == self.scopes,
            r.unscoped == self.unscoped,
    {
        CustomerTelemetryEventListCall { page_size: Some(new_value), ..self }
    }

    /// Optional. Only include resources that match the filter. Supported filter fields: * device_id * user_id * device_org_unit_id * user_org_unit_id * timestamp * event_type
    pub fn filter(self, new_value: &str) -> (r: Self)
        ensures
            r.filter matches Some(v) && v@ == new_value@,
            r.parent == self.parent,
            r.read_mask == self.read_mask,
            r.page_token == self.page_token,
            r.page_size == self.page_size,
            r.additional_params == self.additional_params,
            r.scopes == self.scopes,
            r.unscoped == self.unscoped,
    {
        CustomerTelemetryEventListCall { filter: Some(new_value.to_owned()), ..self }
    }

    /// Sets a parameter by name, such as `fields`, `key` or `quotaUser`. A parameter that the
    /// operation sets itself makes the call fail with `FieldClash` when it is prepared.
    pub fn param(self, name: &str, value: &str) -> (r: Self)
        ensures
            r.additional_params@ == set_value(self.additional_params@, name@, value@),
            r.parent == self.parent,
            r.read_mask == self.read_mask,
            r.page_token == self.page_token,
            r.page_size == self.page_size,
            r.filter == self.filter,
            r.scopes == self.scopes,
            r.unscoped == self.unscoped,
    {
        let mut c = self;
        c.additional_params.set(name.to_owned(), value.to_owned());
        c
    }

    /// Adds a scope that the token is to carry, in place of the default one.
    pub fn add_scope(self, scope: &str) -> (r: Self)
        ensures
            strings_view(r.scopes@) == with_scope(strings_view(self.scopes@), scope@),
            r.parent == self.parent,
            r.read_mask == self.read_mask,
            r.page_token == self.page_token,
            r.page_size == self.page_size,
            r.filter == self.filter,
            r.additional_params == self.additional_params,
            r.unscoped == self.unscoped,
    {
        let mut c = self;
        add_scope_to(&mut c.scopes, scope.to_owned());
        c
    }

    /// Adds each of `scopes` in turn.
    pub fn add_scopes(self, scopes: &Vec<String>) -> (r: Self)
        ensures
            strings_view(r.scopes@) == with_scopes(strings_view(self.scopes@), strings_view(scopes@)),
            r.parent == self.parent,
            r.read_mask == self.read_mask,
            r.page_token == self.page_token,
            r.page_size == self.page_size,
            r.filter == self.filter,
            r.additional_params == self.additional_params,
            r.unscoped == self.unscoped,
    {
        let mut c = self;
        add_scopes_to(&mut c.scopes, scopes);
        c
    }

    /// Removes every scope; the call then goes without a token, and the `key` parameter is to
    /// carry an API key.
    pub fn clear_scopes(self) -> (r: Self)
        ensures
            r.scopes@.len() == 0,
            r.unscoped,
            r.parent == self.parent,
            r.read_mask == self.read_mask,
            r.page_token == self.page_token,
            r.page_size == self.page_size,
            r.filter == self.filter,
            r.additional_params == self.additional_params,
    {
        CustomerTelemetryEventListCall { scopes: Vec::new(), unscoped: true, ..self }
    }

    /// The request that this call stands for.
    pub fn into_request(self) -> (r: RequestSpec)
        ensures
            r.id@ == "chromemanagement.customers.telemetry.events.list"@,
            r.method == HttpMethod::Get,
            r.template@ == "v1/{+parent}/telemetry/events"@,
            strings_view(r.path_params@) == seq!["parent"@],
            strings_view(r.known@) == seq!["alt"@, "parent"@, "readMask"@, "pageToken"@, "pageSize"@, "filter"@],
            r.params@ == self.own_params(),
            r.additional == self.additional_params,
            r.scopes == self.scopes,
            r.default_scope == Scope::ChromeManagementTelemetryReadonly,
            r.unscoped == self.unscoped,
    {
        let ghost own = self.own_params();
        let mut params = Params::new();
        params.push("parent".to_owned(), self.parent);
        push_opt_mask(&mut params, "readMask", &self.read_mask);
        push_opt_text(&mut params, "pageToken", &self.page_token);
        push_opt_int(&mut params, "pageSize", &self.page_size);
        push_opt_text(&mut params, "filter", &self.filter);
        assert(params@ =~= own);
        let path_params = strings_of(vec!["parent"]);
        let known = strings_of(vec!["alt", "parent", "readMask", "pageToken", "pageSize", "filter"]);
        RequestSpec {
            id: "chromemanagement.customers.telemetry.events.list".to_owned(),
            method: HttpMethod::Get,
            template: "v1/{+parent}/telemetry/events".to_owned(),
            path_params,
            known,
            params,
            additional: self.additional_params,
            scopes: self.scopes,
            default_scope: Scope::ChromeManagementTelemetryReadonly,
            unscoped: self.unscoped,
        }
    }
}

/// The operations on `customers` resources.
#[derive(Clone, Copy, Debug)]
pub struct CustomerMethods;

impl CustomerMethods {
    /// Get a specific app for a customer by its resource name.
    pub fn apps_android_get(&self, name: &str) -> (r: CustomerAppAndroidGetCall)
        ensures
            r.name@ == name@,
            r.additional_params@.len() == 0,
            r.scopes@.len() == 0,
            !r.unscoped,
    {
        CustomerAppAndroidGetCall { name: name.to_owned(), additional_params: Params::new(), scopes: Vec::new(), unscoped: false }
    }

    /// Get a specific app for a customer by its resource name.
    pub fn apps_chrome_get(&self, name: &str) -> (r: CustomerAppChromeGetCall)
        ensures
            r.name@ == name@,
            r.additional_params@.len() == 0,
            r.scopes@.len() == 0,
            !r.unscoped,
    {
        CustomerAppChromeGetCall { name: name.to_owned(), additional_params: Params::new(), scopes: Vec::new(), unscoped: false }
    }

    /// Get a specific app for a customer by its resource name.
    pub fn apps_web_get(&self, name: &str) -> (r: CustomerAppWebGetCall)
        ensures
            r.name@ == name@,
            r.additional_params@.len() == 0,
            r.scopes@.len() == 0,
            !r.unscoped,
    {
        CustomerAppWebGetCall { name: name.to_owned(), additional_params: Params::new(), scopes: Vec::new(), unscoped: false }
    }

    /// Generate summary of app installation requests.
    pub fn apps_count_chrome_app_requests(&self, customer: &str) -> (r: CustomerAppCountChromeAppRequestCall)
        ensures
            r.customer@ == customer@,
            r.page_token is None,
            r.page_size is None,
            r.org_unit_id is None,
            r.order_by is None,
            r.additional_params@.len() == 0,
            r.scopes@.len() == 0,
            !r.unscoped,
    {
        CustomerAppCountChromeAppRequestCall { customer: customer.to_owned(), page_token: None, page_size: None, org_unit_id: None, order_by: None, additional_params: Params::new(), scopes: Vec::new(), unscoped: false }
    }

    /// Generate report of the number of devices expiring in each month of the selected time frame. Devices are grouped by auto update expiration date and model. Further information can be found [here](https://support.google.com/chrome/a/answer/10564947).
    pub fn reports_count_chrome_devices_reaching_auto_expiration_date(&self, customer: &str) -> (r: CustomerReportCountChromeDevicesReachingAutoExpirationDateCall)
        ensures
            r.customer@ == customer@,
            r.org_unit_id is None,
            r.min_aue_date is None,
            r.max_aue_date is None,
            r.additional_params@.len() == 0,
            r.scopes@.len() == 0,
            !r.unscoped,
    {
        CustomerReportCountChromeDevicesReachingAutoExpirationDateCall { customer: customer.to_owned(), org_unit_id: None, min_aue_date: None, max_aue_date: None, additional_params: Params::new(), scopes: Vec::new(), unscoped: false }
    }

    /// Counts of ChromeOS devices that have not synced policies or have lacked user activity in the past 28 days, are out of date, or are not complaint. Further information can be found here https://support.google.com/chrome/a/answer/10564947
    pub fn reports_count_chrome_devices_that_need_attention(&self, customer: &str) -> (r: CustomerReportCountChromeDevicesThatNeedAttentionCall)
        ensures
            r.customer@ == customer@,
            r.read_mask is None,
            r.org_unit_id is None,
            r.additional_params@.len() == 0,
            r.scopes@.len() == 0,
            !r.unscoped,
    {
        CustomerReportCountChromeDevicesThatNeedAttentionCall { customer: customer.to_owned(), read_mask: None, org_unit_id: None, additional_params: Params::new(), scopes: Vec::new(), unscoped: false }
    }

    /// Counts of devices with a specific hardware specification from the requested hardware type (for example model name, processor type). Further information can be found here https://support.google.com/chrome/a/answer/10564947
    pub fn reports_count_chrome_hardware_fleet_devices(&self, customer: &str) -> (r: CustomerReportCountChromeHardwareFleetDeviceCall)
        ensures
            r.customer@ == customer@,
            r.read_mask is None,
            r.org_unit_id is None,
            r.additional_params@.len() == 0,
            r.scopes@.len() == 0,
            !r.unscoped,
    {
        CustomerReportCountChromeHardwareFleetDeviceCall { customer: customer.to_owned(), read_mask: None, org_unit_id: None, additional_params: Params::new(), scopes: Vec::new(), unscoped: false }
    }

    /// Generate report of installed Chrome versions.
    pub fn reports_count_chrome_versions(&self, customer: &str) -> (r: CustomerReportCountChromeVersionCall)
        ensures
            r.customer@ == customer@,
            r.page_token is None,
            r.page_size is None,
            r.org_unit_id is None,
            r.filter is None,
            r.additional_params@.len() == 0,
            r.scopes@.len() == 0,
            !r.unscoped,
    {
        CustomerReportCountChromeVersionCall { customer: customer.to_owned(), page_token: None, page_size: None, org_unit_id: None, filter: None, additional_params: Params::new(), scopes: Vec::new(), unscoped: false }
    }

    /// Generate report of app installations.
    pub fn reports_count_installed_apps(&self, customer: &str) -> (r: CustomerReportCountInstalledAppCall)
        ensures
            r.customer@ == customer@,
            r.page_token is None,
            r.page_size is None,
            r.org_unit_id is None,
            r.order_by is None,
            r.filter is None,
            r.additional_params@.len() == 0,
            r.scopes@.len() == 0,
            !r.unscoped,
    {
        CustomerReportCountInstalledAppCall { customer: customer.to_owned(), page_token: None, page_size: None, org_unit_id: None, order_by: None, filter: None, additional_params: Params::new(), scopes: Vec::new(), unscoped: false }
    }

    /// Generate report of devices that have a specified app installed.
    pub fn reports_find_installed_app_devices(&self, customer: &str) -> (r: CustomerReportFindInstalledAppDeviceCall)
        ensures
            r.customer@ == customer@,
            r.page_token is None,
            r.page_size is None,
            r.org_unit_id is None,
            r.order_by is None,
            r.filter is None,
            r.app_type is None,
            r.app_id is None,
            r.additional_params@.len() == 0,
            r.scopes@.len() == 0,
            !r.unscoped,
    {
        CustomerReportFindInstalledAppDeviceCall { customer: customer.to_owned(), page_token: None, page_size: None, org_unit_id: None, order_by: None, filter: None, app_type: None, app_id: None, additional_params: Params::new(), scopes: Vec::new(), unscoped: false }
    }

    /// Get telemetry device.
    pub fn telemetry_devices_get(&self, name: &str) -> (r: CustomerTelemetryDeviceGetCall)
        ensures
            r.name@ == name@,
            r.read_mask is None,
            r.additional_params@.len() == 0,
            r.scopes@.len() == 0,
            !r.unscoped,
    {
        CustomerTelemetryDeviceGetCall { name: name.to_owned(), read_mask: None, additional_params: Params::new(), scopes: Vec::new(), unscoped: false }
    }

    /// List all telemetry devices.
    pub fn telemetry_devices_list(&self, parent: &str) -> (r: CustomerTelemetryDeviceListCall)
        ensures
            r.parent@ == parent@,
            r.read_mask is None,
            r.page_token is None,
            r.page_size is None,
            r.filter is None,
            r.additional_params@.len() == 0,
            r.scopes@.len() == 0,
            !r.unscoped,
    {
        CustomerTelemetryDeviceListCall { parent: parent.to_owned(), read_mask: None, page_token: None, page_size: None, filter: None, additional_params: Params::new(), scopes: Vec::new(), unscoped: false }
    }

    /// List telemetry events.
    pub fn telemetry_events_list(&self, parent: &str) -> (r: CustomerTelemetryEventListCall)
        ensures
            r.parent@ == parent@,
            r.read_mask is None,
            r.page_token is None,
            r.page_size is None,
            r.filter is None,
            r.additional_params@.len() == 0,
            r.scopes@.len() == 0,
            !r.unscoped,
    {
        CustomerTelemetryEventListCall { parent: parent.to_owned(), read_mask: None, page_token: None, page_size: None, filter: None, additional_params: Params::new(), scopes: Vec::new(), unscoped: false }
    }
}

} // verus!
