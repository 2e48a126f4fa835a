use wapc::http::{HttpMethod, HttpScheme, HttpVersion, StatusCode};

#[test]
fn status_code_values() {
    assert_eq!(StatusCode::OkStatus.value(), Some("200"));
    assert_eq!(StatusCode::TemporaryRedirect.value(), Some("307"));
    assert_eq!(StatusCode::ImATeapot.value(), Some("418"));
    assert_eq!(StatusCode::Unknown.value(), Some("-1"));
}

#[test]
fn status_code_display_names() {
    assert_eq!(StatusCode::OkStatus.to_string(), "OK");
    assert_eq!(StatusCode::UriTooLong.to_string(), "URITooLong");
    assert_eq!(StatusCode::HttpVersionNotSupported.to_string(), "HTTPVersionNotSupported");
    assert_eq!(StatusCode::NotFound.to_string(), "NotFound");
}

#[test]
fn status_code_parses_values() {
    assert_eq!(StatusCode::from_str("307"), Ok(StatusCode::TemporaryRedirect));
    assert_eq!(StatusCode::from_str("-1"), Ok(StatusCode::Unknown));
    assert_eq!(StatusCode::from_str("999"), Err("999".to_owned()));
    assert_eq!(StatusCode::from_str("OK"), Err("OK".to_owned()));
}

#[test]
fn status_code_round_trips_every_variant() {
    let all = [
        StatusCode::Continue, StatusCode::SwitchingProtocols, StatusCode::OkStatus, StatusCode::Created,
        StatusCode::Accepted, StatusCode::NonAuthoritativeInformation, StatusCode::NoContent,
        StatusCode::ResetContent, StatusCode::PartialContent, StatusCode::MultipleChoices,
        StatusCode::MovedPermanently, StatusCode::Found, StatusCode::SeeOther, StatusCode::NotModified,
        StatusCode::TemporaryRedirect, StatusCode::PermanentRedirect, StatusCode::BadRequest,
        StatusCode::Unauthorized, StatusCode::PaymentRequired, StatusCode::Forbidden, StatusCode::NotFound,
        StatusCode::MethodNotAllowed, StatusCode::NotAcceptable, StatusCode::ProxyAuthenticationRequired,
        StatusCode::RequestTimeout, StatusCode::Conflict, StatusCode::Gone, StatusCode::LengthRequired,
        StatusCode::PreconditionFailed, StatusCode::PayloadTooLarge, StatusCode::UriTooLong,
        StatusCode::UnsupportedMediaType, StatusCode::RangeNotSatisfiable, StatusCode::ExpectationFailed,
        StatusCode::ImATeapot, StatusCode::UnprocessableEntity, StatusCode::Locked, StatusCode::FailedDependency,
        StatusCode::TooManyRequests, StatusCode::InternalServerError, StatusCode::NotImplemented,
        StatusCode::BadGateway, StatusCode::ServiceUnavailable, StatusCode::GatewayTimeout,
        StatusCode::HttpVersionNotSupported, StatusCode::Unknown,
    ];
    for c in all {
        assert_eq!(StatusCode::from_str(c.value().unwrap()), Ok(c));
    }
}

#[test]
fn http_version_values_and_parse() {
    assert_eq!(HttpVersion::Http11.value(), Some("1.1"));
    assert_eq!(HttpVersion::Http11.to_string(), "HTTP_1_1");
    for v in [HttpVersion::Http10, HttpVersion::Http11, HttpVersion::Http20] {
        assert_eq!(HttpVersion::from_str(v.value().unwrap()), Ok(v));
    }
    assert_eq!(HttpVersion::from_str("3.0"), Err("3.0".to_owned()));
}

#[test]
fn method_and_scheme_have_no_values() {
    assert_eq!(HttpMethod::Get.value(), None);
    assert_eq!(HttpMethod::Options.to_string(), "OPTIONS");
    assert_eq!(HttpMethod::from_str("GET"), Err("GET".to_owned()));
    assert_eq!(HttpScheme::Https.value(), None);
    assert_eq!(HttpScheme::Https.to_string(), "HTTPS");
    assert_eq!(HttpScheme::from_str("Http"), Err("Http".to_owned()));
}

#[test]
fn no_integer_converts() {
    assert_eq!(StatusCode::try_from(200), Err(200));
    assert_eq!(HttpMethod::try_from(0), Err(0));
    assert_eq!(HttpScheme::try_from(1), Err(1));
    assert_eq!(HttpVersion::try_from(11), Err(11));
}
