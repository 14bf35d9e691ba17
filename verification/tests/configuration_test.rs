use mp::{AppConfig, DefaultBehavior, MicroblogService};

#[test]
fn service_is_refused_where_a_value_is_empty() {
    for (url, token) in [("", ""), ("", "token"), ("https://test.com", "")] {
        let error = match MicroblogService::from_args(url.to_string(), token.to_string()) {
            Ok(_) => panic!("{:?} and {:?} were accepted", url, token),
            Err(error) => error,
        };
        assert_eq!(error.kind(), std::io::ErrorKind::InvalidInput);
        assert_eq!(error.to_string(), "API URL and authentication token must not be empty");
    }
}

#[test]
fn service_keeps_values_as_they_are() {
    let service = MicroblogService::from_args(" ".to_string(), "\n".to_string()).expect("a service");
    assert_eq!(service.api_url, " ");
    assert_eq!(service.auth_token, "\n");
    let service = MicroblogService::new(String::new(), String::new());
    assert_eq!(service.api_url, "");
    assert_eq!(service.auth_token, "");
}

#[test]
fn behavior_from_answers() {
    let cases = [
        ("y", "y", true, true),
        ("Y", "n", true, false),
        ("", "", false, false),
        ("n", " Y ", false, true),
        ("yes", "y\n", false, true),
    ];
    for (quiet, extract, expect_quiet, expect_extract) in cases {
        let behavior =
            DefaultBehavior::from_args(quiet.to_string(), extract.to_string()).expect("a behavior");
        assert_eq!(behavior, DefaultBehavior::new(expect_quiet, expect_extract));
    }
}

#[test]
fn flags_switch_options_on() {
    for default_quiet in [false, true] {
        for default_extract in [false, true] {
            for quiet in [false, true] {
                for extract in [false, true] {
                    let behavior =
                        DefaultBehavior::new(default_quiet, default_extract).with_flags(quiet, extract);
                    assert_eq!(behavior.quiet, default_quiet || quiet);
                    assert_eq!(behavior.extract_title, default_extract || extract);
                }
            }
        }
    }
}

#[test]
fn config_holds_what_it_is_given() {
    let service = MicroblogService::new("https://example.com".to_string(), "t".to_string());
    let config = AppConfig::new(service, DefaultBehavior::new(true, false));
    assert_eq!(config.service.api_url, "https://example.com");
    assert_eq!(config.service.auth_token, "t");
    assert_eq!(config.default_behavior, DefaultBehavior::new(true, false));
}
