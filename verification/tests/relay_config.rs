use jobcan_punch::config::Configuration;
use jobcan_punch::relay::channel_has_marker;
use jobcan_punch::relay::choose_notification_text;
use jobcan_punch::relay::find_icon_resolution;
use jobcan_punch::relay::find_member;

#[test]
fn configuration_is_ok_needs_both_credentials() {
    let c = Configuration::new("a".to_owned(), "b".to_owned(), "".to_owned(), "".to_owned());
    assert!(c.is_ok());
    let c = Configuration::new("a".to_owned(), "".to_owned(), "".to_owned(), "".to_owned());
    assert!(!c.is_ok());
    let c = Configuration::new("".to_owned(), "b".to_owned(), "".to_owned(), "".to_owned());
    assert!(!c.is_ok());
}

#[test]
fn configuration_can_post_needs_both_relay_values() {
    let c = Configuration::new("a".to_owned(), "b".to_owned(), "t".to_owned(), "n".to_owned());
    assert!(c.can_post_to_slack());
    let c = Configuration::new("a".to_owned(), "b".to_owned(), "t".to_owned(), "".to_owned());
    assert!(!c.can_post_to_slack());
    let c = Configuration::new("a".to_owned(), "b".to_owned(), "".to_owned(), "n".to_owned());
    assert!(!c.can_post_to_slack());
}

#[test]
fn configuration_debug_masks_the_password() {
    let c = Configuration::new(
        "user@example.com".to_owned(),
        "hunter2".to_owned(),
        "".to_owned(),
        "".to_owned(),
    );
    let s = c.debug_string();
    assert_eq!(
        "Configuration { login: \"user@example.com\", password: \"******\" }",
        s.as_str()
    );
}

#[test]
fn channel_marker_is_required() {
    assert!(channel_has_marker("#standup"));
    assert!(!channel_has_marker("standup"));
    assert!(!channel_has_marker(""));
    // The marker must lead; one in the middle does not count.
    assert!(!channel_has_marker("a#b"));
}

#[test]
fn notification_text_prefers_the_dedicated_message() {
    assert_eq!("work start", choose_notification_text("work start", "").as_str());
    assert_eq!("hello", choose_notification_text("work start", "hello").as_str());
}

#[test]
fn member_lookup_finds_the_first_match() {
    let names = vec!["alice".to_owned(), "bob".to_owned(), "bob".to_owned()];
    assert_eq!(Some(1), find_member(&names, &"bob".to_owned()));
    assert_eq!(None, find_member(&names, &"carol".to_owned()));
    assert_eq!(None, find_member(&Vec::new(), &"bob".to_owned()));
}

#[test]
fn icon_lookup_picks_the_wanted_resolution() {
    let sizes = vec![24, 48, 72];
    assert_eq!(Some(1), find_icon_resolution(&sizes, 48));
    assert_eq!(None, find_icon_resolution(&sizes, 96));
}
