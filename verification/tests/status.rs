use ultivm::crash::crash_report;
use ultivm::status::{auth, bind_address, greet, routes, Route, GREETING};

#[test]
fn root_route_greets() {
    let reply = greet();
    assert_eq!(reply.status, 200);
    assert_eq!(reply.content_type, "text/html; charset=utf-8");
    assert_eq!(reply.body, GREETING);
    assert!(reply.body.contains("<h1>It looks like your UltiVM instance is running correctly!</h1>"));
    assert!(reply.body.contains("<b>localhost:5901</b>"));
    assert!(reply.body.contains("<i>(config.ini)</i>"));
    assert!(reply.body.starts_with("\n            <h1>"));
    assert!(reply.body.ends_with("</p>\n        "));
    assert_eq!(reply.body.lines().count(), 5);
}

#[test]
fn auth_route_is_a_stub() {
    let reply = auth();
    assert_eq!(reply.status, 501);
    assert_eq!(reply.content_type, "text/plain; charset=utf-8");
    assert_eq!(reply.body, "400");
}

#[test]
fn auth_route_is_served_only_when_switched_on() {
    assert_eq!(routes(false), vec![Route { path: "/".to_string(), reply: greet() }]);
    assert_eq!(
        routes(true),
        vec![
            Route { path: "/".to_string(), reply: greet() },
            Route { path: "/auth".to_string(), reply: auth() },
        ]
    );
}

#[test]
fn server_binds_to_the_loopback_address() {
    assert_eq!(bind_address(8080), "127.0.0.1:8080");
    assert_eq!(bind_address(0), "127.0.0.1:0");
    assert_eq!(bind_address(65535), "127.0.0.1:65535");
    for port in [1u16, 80, 443, 5901, 10000] {
        assert_eq!(bind_address(port), format!("127.0.0.1:{}", port));
    }
}

#[test]
fn crash_report_names_place_and_message() {
    assert_eq!(
        crash_report(Some(("src/main.rs", 42)), Some("This is a test panic!")),
        vec![
            "Application crashed!".to_string(),
            "Crash occurred at file 'src/main.rs' line 42".to_string(),
            "Oops! UltiVM has run into an unknown error and can't show an error window!\r\nThis is a test panic!".to_string(),
        ]
    );
}

#[test]
fn crash_report_without_place_or_message() {
    assert_eq!(
        crash_report(None, None),
        vec![
            "Application crashed!".to_string(),
            "Oops! UltiVM has run into an unknown error and can't show an error window!".to_string(),
        ]
    );
    assert_eq!(crash_report(Some(("a.rs", 0)), None).len(), 3);
    assert_eq!(crash_report(None, Some("boom")).len(), 2);
}

#[test]
fn crash_report_agrees_with_interpolation() {
    for (file, line) in [("", 0u32), ("src/lib.rs", 7), ("é.rs", 4294967295)] {
        let lines = crash_report(Some((file, line)), Some("m"));
        assert_eq!(lines[1], format!("Crash occurred at file '{}' line {}", file, line));
        assert_eq!(lines[2], format!("Oops! UltiVM has run into an unknown error and can't show an error window!\r\n{}", "m"));
    }
}
