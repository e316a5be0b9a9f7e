use mydns_adapter::logging::{LogEntry, LogLevel};
use mydns_adapter::notify::{
    dispatch_pass, failure_line, notification_log, notify, notify_now_mode, outcome_log, perform_notification,
    planned_requests, rejection, status_text, success_line, Endpoints, HttpReply, NotifyRequest,
    Outcome, Protocol,
};
use mydns_adapter::registry::Config;

const V4: &str = "https://ipv4.mydns.jp/login.html";
const V6: &str = "https://ipv6.mydns.jp/login.html";

fn config(id: &str, password: &str, v4: bool, v6: bool) -> Config {
    Config {
        master_id: id.to_string(),
        password: password.to_string(),
        ipv4_notify: v4,
        ipv6_notify: v6,
    }
}

fn request(protocol: Protocol, url: &str, user: &str, password: &str) -> NotifyRequest {
    NotifyRequest {
        protocol,
        url: url.to_string(),
        username: user.to_string(),
        password: password.to_string(),
    }
}

fn failed(reason: &str) -> HttpReply {
    HttpReply::Failed { reason: reason.to_string() }
}

#[test]
fn the_provider_has_one_endpoint_for_each_protocol() {
    let endpoints = Endpoints::mydns();
    assert_eq!(endpoints.ipv4, V4);
    assert_eq!(endpoints.ipv6, V6);
}

#[test]
fn a_profile_calls_for_one_request_for_each_protocol_switched_on() {
    let endpoints = Endpoints::mydns();
    assert_eq!(planned_requests(&endpoints, &config("mydns1", "pw", false, false)), Vec::new());
    assert_eq!(
        planned_requests(&endpoints, &config("mydns1", "pw", true, false)),
        vec![request(Protocol::Ipv4, V4, "mydns1", "pw")]
    );
    assert_eq!(
        planned_requests(&endpoints, &config("mydns1", "pw", false, true)),
        vec![request(Protocol::Ipv6, V6, "mydns1", "pw")]
    );
    assert_eq!(
        planned_requests(&endpoints, &config("mydns1", "pw", true, true)),
        vec![request(Protocol::Ipv4, V4, "mydns1", "pw"), request(Protocol::Ipv6, V6, "mydns1", "pw")]
    );
}

#[test]
fn requests_go_to_the_endpoints_that_were_given() {
    let endpoints = Endpoints {
        ipv4: "http://127.0.0.1:8080/v4".to_string(),
        ipv6: "http://[::1]:8080/v6".to_string(),
    };
    let requests = planned_requests(&endpoints, &config("mydns1", "", true, true));
    assert_eq!(requests[0].url, "http://127.0.0.1:8080/v4");
    assert_eq!(requests[1].url, "http://[::1]:8080/v6");
    assert_eq!(requests[0].password, "");
}

#[test]
fn a_status_in_the_success_range_is_a_success() {
    let request = request(Protocol::Ipv4, V4, "mydns1", "pw");
    for code in [200u16, 201, 204, 299] {
        assert_eq!(
            notify(&request, &HttpReply::Status { code }),
            Outcome::Success { endpoint: V4.to_string(), status_code: code }
        );
    }
}

#[test]
fn every_other_status_is_a_failure_with_a_reason() {
    let request = request(Protocol::Ipv4, V4, "mydns1", "pw");
    assert_eq!(
        notify(&request, &HttpReply::Status { code: 401 }),
        Outcome::Failure {
            endpoint: V4.to_string(),
            reason: format!("HTTP status client error (401 Unauthorized) for url ({})", V4),
        }
    );
    assert_eq!(
        notify(&request, &HttpReply::Status { code: 500 }),
        Outcome::Failure {
            endpoint: V4.to_string(),
            reason: format!("HTTP status server error (500 Internal Server Error) for url ({})", V4),
        }
    );
    assert_eq!(
        notify(&request, &HttpReply::Status { code: 304 }),
        Outcome::Failure {
            endpoint: V4.to_string(),
            reason: format!("HTTP status (304 Not Modified) for url ({})", V4),
        }
    );
    for code in [0u16, 99, 100, 199, 300, 399, 400, 499, 599, 600, 999, 1000, u16::MAX] {
        match notify(&request, &HttpReply::Status { code }) {
            Outcome::Failure { endpoint, reason } => {
                assert_eq!(endpoint, V4);
                assert!(!reason.is_empty());
            },
            Outcome::Success { .. } => panic!("status {} is no success", code),
        }
    }
}

#[test]
fn a_failure_to_get_a_response_is_a_failure_with_its_reason() {
    let request = request(Protocol::Ipv6, V6, "mydns1", "pw");
    assert_eq!(
        notify(&request, &failed("error sending request")),
        Outcome::Failure { endpoint: V6.to_string(), reason: "error sending request".to_string() }
    );
}

#[test]
fn status_texts_are_those_of_the_status_code() {
    assert_eq!(status_text(200), "200 OK");
    assert_eq!(status_text(404), "404 Not Found");
    assert_eq!(status_text(299), "299 <unknown status code>");
    assert_eq!(status_text(99), "invalid status code");
    assert_eq!(status_text(1000), "invalid status code");
}

#[test]
fn rejections_name_the_class_the_status_and_the_url() {
    assert_eq!(rejection(404, "404 Not Found", "u"), "HTTP status client error (404 Not Found) for url (u)");
    assert_eq!(rejection(503, "x", "u"), "HTTP status server error (x) for url (u)");
    assert_eq!(rejection(399, "x", "u"), "HTTP status (x) for url (u)");
    assert_eq!(rejection(600, "x", ""), "HTTP status (x) for url ()");
}

#[test]
fn only_ipv4_switched_on_gives_exactly_one_outcome_for_the_ipv4_endpoint() {
    let endpoints = Endpoints::mydns();
    let profile = config("mydns1", "pw", true, false);
    let replies = vec![HttpReply::Status { code: 200 }, HttpReply::Status { code: 200 }];
    assert_eq!(
        perform_notification(&endpoints, &profile, &replies),
        vec![Outcome::Success { endpoint: V4.to_string(), status_code: 200 }]
    );
}

#[test]
fn a_failure_for_ipv4_and_a_success_for_ipv6_give_both() {
    let endpoints = Endpoints::mydns();
    let profile = config("mydns1", "pw", true, true);
    let replies = vec![failed("connection refused"), HttpReply::Status { code: 200 }];
    assert_eq!(
        perform_notification(&endpoints, &profile, &replies),
        vec![
            Outcome::Failure { endpoint: V4.to_string(), reason: "connection refused".to_string() },
            Outcome::Success { endpoint: V6.to_string(), status_code: 200 },
        ]
    );
}

#[test]
fn a_success_for_ipv4_and_a_failure_for_ipv6_give_both() {
    let endpoints = Endpoints::mydns();
    let profile = config("mydns1", "pw", true, true);
    let replies = vec![HttpReply::Status { code: 204 }, failed("timed out")];
    assert_eq!(
        perform_notification(&endpoints, &profile, &replies),
        vec![
            Outcome::Success { endpoint: V4.to_string(), status_code: 204 },
            Outcome::Failure { endpoint: V6.to_string(), reason: "timed out".to_string() },
        ]
    );
}

#[test]
fn a_profile_with_nothing_switched_on_has_no_outcome() {
    let endpoints = Endpoints::mydns();
    let profile = config("mydns1", "pw", false, false);
    let replies = vec![HttpReply::Status { code: 200 }];
    assert_eq!(perform_notification(&endpoints, &profile, &replies), Vec::new());
}

#[test]
fn a_request_without_a_reply_has_no_outcome() {
    let endpoints = Endpoints::mydns();
    let profile = config("mydns1", "pw", true, true);
    assert_eq!(perform_notification(&endpoints, &profile, &Vec::new()), Vec::new());
    let one = vec![HttpReply::Status { code: 200 }];
    assert_eq!(perform_notification(&endpoints, &profile, &one).len(), 1);
}

#[test]
fn notifying_on_demand_needs_profiles() {
    assert_eq!(notify_now_mode(&Vec::new(), true, true), None);
}

#[test]
fn notifying_on_demand_switches_on_what_both_ask_for() {
    let configs = vec![
        config("mydns1", "a", true, true),
        config("mydns2", "b", true, false),
        config("mydns3", "c", false, false),
    ];
    assert_eq!(notify_now_mode(&configs, true, true), Some(configs.clone()));
    assert_eq!(
        notify_now_mode(&configs, true, false),
        Some(vec![
            config("mydns1", "a", true, false),
            config("mydns2", "b", true, false),
            config("mydns3", "c", false, false),
        ])
    );
    assert_eq!(
        notify_now_mode(&configs, false, true),
        Some(vec![
            config("mydns1", "a", false, true),
            config("mydns2", "b", false, false),
            config("mydns3", "c", false, false),
        ])
    );
}

#[test]
fn a_success_is_recorded_with_endpoint_and_status() {
    assert_eq!(
        success_line("mydns1", V4, "200 OK"),
        format!("[mydns1] Notified {}: Status 200 OK", V4)
    );
    let outcome = Outcome::Success { endpoint: V6.to_string(), status_code: 200 };
    assert_eq!(
        outcome_log("mydns1", Protocol::Ipv6, &outcome),
        LogEntry { level: LogLevel::Info, text: format!("[mydns1] Notified {}: Status 200 OK", V6) }
    );
}

#[test]
fn a_failure_is_recorded_with_protocol_and_reason() {
    assert_eq!(failure_line("mydns1", Protocol::Ipv4, "boom"), "[mydns1] IPv4 Notification failed: boom");
    assert_eq!(failure_line("mydns1", Protocol::Ipv6, "boom"), "[mydns1] IPv6 Notification failed: boom");
    let outcome = Outcome::Failure { endpoint: V4.to_string(), reason: "no route".to_string() };
    assert_eq!(
        outcome_log("id", Protocol::Ipv4, &outcome),
        LogEntry { level: LogLevel::Error, text: "[id] IPv4 Notification failed: no route".to_string() }
    );
}

#[test]
fn the_log_of_a_notification_has_one_entry_for_each_outcome() {
    let endpoints = Endpoints::mydns();
    let profile = config("mydns1", "pw", true, true);
    let replies = vec![failed("connection refused"), HttpReply::Status { code: 200 }];
    let outcomes = perform_notification(&endpoints, &profile, &replies);
    assert_eq!(
        notification_log(&endpoints, &profile, &outcomes),
        vec![
            LogEntry {
                level: LogLevel::Error,
                text: "[mydns1] IPv4 Notification failed: connection refused".to_string(),
            },
            LogEntry {
                level: LogLevel::Info,
                text: format!("[mydns1] Notified {}: Status 200 OK", V6),
            },
        ]
    );
    let only_v6 = config("mydns1", "pw", false, true);
    let outcomes = perform_notification(&endpoints, &only_v6, &vec![failed("x")]);
    assert_eq!(
        notification_log(&endpoints, &only_v6, &outcomes),
        vec![LogEntry { level: LogLevel::Error, text: "[mydns1] IPv6 Notification failed: x".to_string() }]
    );
}

#[test]
fn a_pass_takes_the_profiles_in_order_and_ipv4_first() {
    let endpoints = Endpoints::mydns();
    let configs = vec![
        config("mydns1", "a", true, true),
        config("mydns2", "b", false, false),
        config("mydns3", "c", false, true),
        config("mydns4", "d", true, false),
    ];
    assert_eq!(
        dispatch_pass(&endpoints, &configs),
        vec![
            request(Protocol::Ipv4, V4, "mydns1", "a"),
            request(Protocol::Ipv6, V6, "mydns1", "a"),
            request(Protocol::Ipv6, V6, "mydns3", "c"),
            request(Protocol::Ipv4, V4, "mydns4", "d"),
        ]
    );
    assert_eq!(dispatch_pass(&endpoints, &Vec::new()), Vec::new());
}
