use chromemanagement1::calls::CustomerMethods;
use chromemanagement1::error::Error;
use chromemanagement1::hub::ChromeManagement;
use chromemanagement1::pct::{percent_decode, percent_encode};
use chromemanagement1::request::{prepare, HttpMethod, PreparedRequest};
use chromemanagement1::scope::Scope;
use chromemanagement1::template::replace_all_exec;
use chromemanagement1::values::{decimal_text, FieldMask};

const BASE: &str = "https://chromemanagement.googleapis.com/";

fn prepared(r: Result<PreparedRequest, Error>) -> PreparedRequest {
    match r {
        Ok(p) => p,
        Err(e) => panic!("unexpected error: {:?}", e),
    }
}

#[test]
fn reserved_expansion_keeps_slash() {
    assert_eq!(percent_encode("a b/c", true), "a%20b/c");
    assert_eq!(percent_encode("a b/c", false), "a%20b%2Fc");
}

#[test]
fn unreserved_bytes_stay() {
    assert_eq!(percent_encode("AZaz09-._~", false), "AZaz09-._~");
    assert_eq!(percent_encode("", true), "");
}

#[test]
fn reserved_characters_are_encoded() {
    assert_eq!(percent_encode("?#[]@!$&'()*+,;=%", true), "%3F%23%5B%5D%40%21%24%26%27%28%29%2A%2B%2C%3B%3D%25");
}

#[test]
fn non_ascii_is_encoded_as_utf8() {
    assert_eq!(percent_encode("é", true), "%C3%A9");
    assert_eq!(percent_encode("日本", false), "%E6%97%A5%E6%9C%AC");
}

#[test]
fn decoding_recovers_encoded_values() {
    for v in ["customers/my customer/apps?x=1", "a%b", "é/ü#frag", "", "plain"] {
        for reserved in [true, false] {
            let enc = percent_encode(v, reserved);
            let dec = percent_decode(&enc).expect("encoded text decodes");
            assert_eq!(String::from_utf8(dec).unwrap(), v);
        }
    }
}

#[test]
fn decoding_accepts_lower_case_hex() {
    assert_eq!(percent_decode("%2f%2F"), Some(b"//".to_vec()));
}

#[test]
fn decoding_refuses_malformed_text() {
    assert_eq!(percent_decode("%zz"), None);
    assert_eq!(percent_decode("abc%4"), None);
    assert_eq!(percent_decode("%"), None);
    assert_eq!(percent_decode("é"), None);
}

#[test]
fn replace_all_replaces_every_occurrence() {
    assert_eq!(replace_all_exec("{a}/{a}/{b}", "{a}", "x"), "x/x/{b}");
    assert_eq!(replace_all_exec("abc", "", "x"), "abc");
    assert_eq!(replace_all_exec("aaa", "aa", "b"), "ba");
}

#[test]
fn get_operation_url_and_scope() {
    let hub = ChromeManagement::new();
    let call = hub.customers().apps_android_get("customers/my_customer/apps/android/com.foo");
    let p = prepared(prepare(call.into_request(), &hub.base_url));
    assert_eq!(p.url, "https://chromemanagement.googleapis.com/v1/customers/my_customer/apps/android/com.foo?alt=json");
    assert_eq!(p.scopes, vec![Scope::ChromeManagementAppdetailReadonly.as_ref().to_string()]);
    assert_eq!(p.info.id, "chromemanagement.customers.apps.android.get");
    assert_eq!(p.info.http_method, HttpMethod::Get);
}

#[test]
fn path_value_with_reserved_characters_is_encoded() {
    let hub = ChromeManagement::new();
    let call = hub.customers().apps_web_get("customers/my customer/apps?x#y");
    let p = prepared(prepare(call.into_request(), BASE));
    assert_eq!(p.url, "https://chromemanagement.googleapis.com/v1/customers/my%20customer/apps%3Fx%23y?alt=json");
    let start = BASE.len() + "v1/".len();
    let end = p.url.find("?alt").unwrap();
    let back = percent_decode(&p.url[start..end]).unwrap();
    assert_eq!(String::from_utf8(back).unwrap(), "customers/my customer/apps?x#y");
}

#[test]
fn query_parameters_in_order() {
    let call = CustomerMethods
        .reports_find_installed_app_devices("customers/my_customer")
        .page_size(50)
        .filter("a=b")
        .app_id("com.foo")
        .param("quotaUser", "u 1");
    let p = prepared(prepare(call.into_request(), BASE));
    assert_eq!(
        p.url,
        "https://chromemanagement.googleapis.com/v1/customers/my_customer/reports:findInstalledAppDevices?pageSize=50&filter=a%3Db&appId=com.foo&quotaUser=u%201&alt=json"
    );
    assert_eq!(p.scopes, vec![Scope::ChromeManagementReportReadonly.as_ref().to_string()]);
}

#[test]
fn read_mask_joins_paths() {
    let mask = FieldMask { paths: vec!["cpuInfo".to_string(), "memoryInfo".to_string()] };
    let call = CustomerMethods.telemetry_devices_get("customers/c/telemetry/devices/d").read_mask(mask);
    let p = prepared(prepare(call.into_request(), BASE));
    assert_eq!(p.url, "https://chromemanagement.googleapis.com/v1/customers/c/telemetry/devices/d?readMask=cpuInfo%2CmemoryInfo&alt=json");
    assert_eq!(p.scopes, vec![Scope::ChromeManagementTelemetryReadonly.as_ref().to_string()]);
}

#[test]
fn negative_page_size_is_written_in_decimal() {
    let call = CustomerMethods.telemetry_events_list("customers/c").page_size(-7).page_token("t");
    let p = prepared(prepare(call.into_request(), BASE));
    assert_eq!(p.url, "https://chromemanagement.googleapis.com/v1/customers/c/telemetry/events?pageToken=t&pageSize=-7&alt=json");
}

#[test]
fn decimal_text_of_extremes() {
    assert_eq!(decimal_text(0), "0");
    assert_eq!(decimal_text(100), "100");
    assert_eq!(decimal_text(i32::MAX), "2147483647");
    assert_eq!(decimal_text(i32::MIN), "-2147483648");
}

#[test]
fn param_set_twice_keeps_last_value() {
    let call = CustomerMethods.apps_chrome_get("n").param("fields", "a").param("key", "k").param("fields", "b");
    let p = prepared(prepare(call.into_request(), BASE));
    assert_eq!(p.url, "https://chromemanagement.googleapis.com/v1/n?fields=b&key=k&alt=json");
}

#[test]
fn field_clash_names_the_parameter() {
    let call = CustomerMethods.apps_android_get("n").param("name", "other");
    match prepare(call.into_request(), BASE) {
        Err(Error::FieldClash(f)) => assert_eq!(f, "name"),
        other => panic!("expected a field clash, got {:?}", other),
    }
}

#[test]
fn field_clash_reports_first_known_name() {
    let call = CustomerMethods
        .reports_count_installed_apps("customers/c")
        .param("filter", "x")
        .param("alt", "xml");
    match prepare(call.into_request(), BASE) {
        Err(Error::FieldClash(f)) => assert_eq!(f, "alt"),
        other => panic!("expected a field clash, got {:?}", other),
    }
}

#[test]
fn field_clash_sends_nothing() {
    let mut sent = 0;
    let call = CustomerMethods.reports_count_chrome_versions("customers/c").param("pageSize", "3");
    match prepare(call.into_request(), BASE) {
        Ok(_) => sent += 1,
        Err(Error::FieldClash(f)) => assert_eq!(f, "pageSize"),
        Err(e) => panic!("unexpected error: {:?}", e),
    }
    assert_eq!(sent, 0);
}

#[test]
fn added_scopes_replace_default_once_each() {
    let call = CustomerMethods
        .apps_android_get("n")
        .add_scope("s1")
        .add_scopes(&vec!["s2".to_string(), "s1".to_string()]);
    let p = prepared(prepare(call.into_request(), BASE));
    assert_eq!(p.scopes, vec!["s1".to_string(), "s2".to_string()]);
}

#[test]
fn cleared_scopes_send_no_token() {
    let call = CustomerMethods.apps_android_get("n").add_scope("s").clear_scopes().param("key", "k");
    let p = prepared(prepare(call.into_request(), BASE));
    assert!(p.scopes.is_empty());
    assert_eq!(p.url, "https://chromemanagement.googleapis.com/v1/n?key=k&alt=json");
}

#[test]
fn hub_setters_return_previous_values() {
    let mut hub = ChromeManagement::new();
    assert_eq!(hub.user_agent("agent/1".to_string()), "google-api-rust-client/5.0.2");
    assert_eq!(hub.base_url("http://localhost:8080/".to_string()), BASE);
    assert_eq!(hub.root_url("http://localhost/".to_string()), BASE);
    assert_eq!(hub.user_agent, "agent/1");
    let p = prepared(prepare(hub.customers().apps_android_get("x").into_request(), &hub.base_url));
    assert_eq!(p.url, "http://localhost:8080/v1/x?alt=json");
}

#[test]
fn scope_urls_and_default() {
    assert_eq!(Scope::ChromeManagementAppdetailReadonly.as_ref(), "https://www.googleapis.com/auth/chrome.management.appdetails.readonly");
    assert_eq!(Scope::ChromeManagementReportReadonly.as_ref(), "https://www.googleapis.com/auth/chrome.management.reports.readonly");
    assert_eq!(Scope::ChromeManagementTelemetryReadonly.as_ref(), "https://www.googleapis.com/auth/chrome.management.telemetry.readonly");
    assert_eq!(Scope::default(), Scope::ChromeManagementAppdetailReadonly);
}

#[test]
fn bearer_header_value() {
    assert_eq!(chromemanagement1::request::bearer("ya29.abc"), "Bearer ya29.abc");
    assert_eq!(chromemanagement1::request::bearer(""), "Bearer ");
}
