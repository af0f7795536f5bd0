use modkit::protocol::{InvalidMethod, InvalidStatusCode, Method, StatusCode};

#[test]
fn methods_have_names() {
    for name in ["GET", "POST", "PUT", "DELETE", "PATCH", "HEAD", "M-SEARCH", "get"] {
        let method = Method::from_name(name).unwrap();
        assert_eq!(method.as_str(), name);
        assert_eq!(method.clone(), method);
    }
    assert_eq!(Method::from_name("GET").unwrap(), Method::GET);
    assert_ne!(Method::from_name("get").unwrap(), Method::GET);
    assert_ne!(Method::GET, Method::POST);
}

#[test]
fn method_names_are_tokens() {
    for name in ["", "GE T", "GET\n", "a/b", "{id}", "größe", "a:b", "(x)"] {
        assert_eq!(Method::from_name(name).unwrap_err(), InvalidMethod);
        assert!(http::Method::from_bytes(name.as_bytes()).is_err());
    }
    for c in '\0'..='\u{ff}' {
        let name = c.to_string();
        assert_eq!(
            Method::from_name(&name).is_ok(),
            http::Method::from_bytes(name.as_bytes()).is_ok(),
            "{name:?}"
        );
    }
}

#[test]
fn method_names_in_lower_case() {
    assert_eq!(Method::DELETE.lowercase_name(), "delete");
    let method = Method::from_name("M-Search_1").unwrap();
    assert_eq!(method.lowercase_name(), "m-search_1");
}

#[test]
fn status_codes_have_numbers() {
    for code in 0..=u16::MAX {
        match StatusCode::from_u16(code) {
            Ok(status) => {
                assert!((100..=999).contains(&code));
                assert_eq!(status.as_u16(), code);
            }
            Err(error) => {
                assert!(!(100..=999).contains(&code));
                assert_eq!(error, InvalidStatusCode);
            }
        }
    }
    assert_eq!(StatusCode::OK.as_u16(), http::StatusCode::OK.as_u16());
    assert_eq!(
        StatusCode::UNSUPPORTED_MEDIA_TYPE.as_u16(),
        http::StatusCode::UNSUPPORTED_MEDIA_TYPE.as_u16()
    );
}
