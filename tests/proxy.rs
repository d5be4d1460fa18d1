use gallery_downloader::proxy::{proxy_endpoint, request_host, ProxyEnv, ProxyPlan};

fn env() -> ProxyEnv {
    ProxyEnv {
        all_upper: None,
        all_lower: None,
        http_upper: None,
        http_lower: None,
        https_upper: None,
        https_lower: None,
    }
}

#[test]
fn host_of_a_target() {
    assert_eq!(request_host("https://e-hentai.org/g/1/abc/"), "e-hentai.org");
    assert_eq!(request_host("http://10.0.0.1:8080/a.jpg"), "10.0.0.1");
    assert_eq!(request_host("not a url"), "");
    assert_eq!(request_host(""), "");
}

#[test]
fn proxy_endpoints() {
    assert_eq!(proxy_endpoint("http://127.0.0.1:7890"), Some((String::from("127.0.0.1"), 7890)));
    assert_eq!(proxy_endpoint("http://proxy.local"), Some((String::from("proxy.local"), 80)));
    assert_eq!(proxy_endpoint("https://proxy.local"), Some((String::from("proxy.local"), 443)));
    assert_eq!(proxy_endpoint("127.0.0.1:7890"), None);
    assert_eq!(proxy_endpoint("garbage"), None);
}

#[test]
fn no_variables_means_direct() {
    let e = env();
    assert!(!e.has_proxy());
    assert!(e.probe_order().is_empty());
    assert!(matches!(e.plan(true), ProxyPlan::Direct));
}

#[test]
fn unreachable_proxies_fall_back_to_direct() {
    let mut e = env();
    e.http_upper = Some(String::from("http://127.0.0.1:1"));
    assert!(e.has_proxy());
    assert!(matches!(e.plan(false), ProxyPlan::Direct));
}

#[test]
fn rules_prefer_lower_case_and_probe_in_order() {
    let mut e = env();
    e.all_upper = Some(String::from("socks5://A:1"));
    e.https_upper = Some(String::from("http://S:2"));
    e.https_lower = Some(String::from("http://s:3"));
    e.http_upper = Some(String::from("http://H:4"));
    assert_eq!(e.probe_order(), vec!["socks5://A:1", "http://H:4", "http://S:2", "http://s:3"]);
    match e.plan(true) {
        ProxyPlan::Proxied { https, http, all } => {
            assert_eq!(https.as_deref(), Some("http://s:3"));
            assert_eq!(http.as_deref(), Some("http://H:4"));
            assert_eq!(all.as_deref(), Some("socks5://A:1"));
        }
        ProxyPlan::Direct => panic!("expected proxies"),
    }
}
