use douyin_core::firefox_cookie::{
    cookie_profile, get_cookies_by_domain, get_douyin_cookie, get_douyin_cookie_string, get_firefox_profiles,
    Cookie, FirefoxProfile,
};

const INI: &str = "[Install4F96D1932A9F858E]\nDefault=Profiles/abc.default-release\nLocked=1\n\n[Profile1]\nName=default\nIsRelative=1\nPath=Profiles/xyz.default\nDefault=1\n\n[Profile0]\nName=default-release\nIsRelative=1\nPath=Profiles/abc.default-release\n\n[Profile2]\nName=elsewhere\nIsRelative=0\nPath=/opt/ff/profile\n\n[General]\nStartWithLastProfile=1\nVersion=2\n";

fn cookie(host: &str, name: &str, value: &str) -> Cookie {
    Cookie {
        host: host.to_string(),
        name: name.to_string(),
        value: value.to_string(),
        path: "/".to_string(),
        expiry: 0,
    }
}

#[test]
fn test_get_firefox_profiles() {
    let profiles = get_firefox_profiles("/home/u/.mozilla/firefox", INI);
    println!("Firefox profiles: {:?}", profiles);
    assert_eq!(profiles.len(), 3);
}

#[test]
fn test_get_douyin_cookie() {
    let result = get_douyin_cookie(&vec![cookie(".douyin.com", "sid", "1")]);
    println!("Douyin cookie result: {:?}", result);
}

#[test]
fn profiles_are_read_with_paths_and_default() {
    let profiles = get_firefox_profiles("/home/u/.mozilla/firefox", INI);
    assert_eq!(profiles[0].name, "default");
    assert_eq!(profiles[0].path, "/home/u/.mozilla/firefox/Profiles/xyz.default");
    assert!(!profiles[0].is_default);
    assert_eq!(profiles[1].name, "default-release");
    assert!(profiles[1].is_default);
    assert_eq!(profiles[2].path, "/opt/ff/profile");
    assert!(!profiles[2].is_default);
    assert!(profiles.iter().all(|p| !p.has_cookies));
}

#[test]
fn first_profile_is_default_without_install_section() {
    let ini = "[Profile0]\nName=a\nPath=p/a\n[Profile1]\nName=b\nPath=p/b\n[Profile2]\nPath=only-path\n";
    let profiles = get_firefox_profiles("/d", ini);
    assert_eq!(profiles.len(), 2);
    assert!(profiles[0].is_default);
    assert!(!profiles[1].is_default);
    assert!(get_firefox_profiles("/d", "").is_empty());
}

#[test]
fn domain_matching_rules() {
    let rows = vec![
        cookie(".douyin.com", "a", "1"),
        cookie("www.douyin.com", "b", "2"),
        cookie("douyin.com", "c", "3"),
        cookie("evil.com", "d", "4"),
        cookie(".douyin.com", "a", "5"),
    ];
    let dotted = get_cookies_by_domain(&rows, ".douyin.com");
    assert_eq!(
        dotted,
        vec![("a".to_string(), "5".to_string()), ("b".to_string(), "2".to_string())]
    );
    let exact = get_cookies_by_domain(&rows, "douyin.com");
    assert_eq!(
        exact,
        vec![
            ("a".to_string(), "5".to_string()),
            ("c".to_string(), "3".to_string())
        ]
    );
}

#[test]
fn douyin_cookie_string_joins_domains() {
    let rows = vec![
        cookie(".douyin.com", "sid", "1"),
        cookie("login.douyin.com", "ttwid", "2"),
        cookie(".iesdouyin.com", "x", "3"),
        cookie("other.com", "y", "4"),
    ];
    assert_eq!(get_douyin_cookie_string(&rows).unwrap(), "sid=1; ttwid=2; x=3");
    let (s, pairs) = get_douyin_cookie(&rows);
    assert_eq!(s, "sid=1; ttwid=2; x=3");
    assert_eq!(pairs.len(), 3);
    assert_eq!(
        get_douyin_cookie_string(&vec![cookie("other.com", "y", "4")]).unwrap_err(),
        "未找到抖音的 cookies"
    );
}

#[test]
fn cookie_profile_prefers_default_with_cookies() {
    let p = |d: bool, c: bool| FirefoxProfile {
        name: "p".to_string(),
        path: "/p".to_string(),
        is_default: d,
        has_cookies: c,
    };
    assert_eq!(cookie_profile(&vec![p(false, true), p(true, true)]), Ok(1));
    assert_eq!(cookie_profile(&vec![p(true, false), p(false, true)]), Ok(1));
    assert_eq!(cookie_profile(&vec![p(false, true), p(true, false)]), Ok(0));
    assert_eq!(
        cookie_profile(&vec![p(true, false)]),
        Err("未找到有 cookies 的 Firefox 配置文件".to_string())
    );
}
