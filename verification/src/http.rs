use vstd::prelude::*;
use vstd::string::StringExecFns;

use crate::text::{decimal, lemma_decimal_injective, lemma_decimal_three_digits, str_eq};

verus! {

/// An optional static string seen as its characters.
pub open spec fn opt_str_view(o: Option<&str>) -> Option<Seq<char>> {
    match o {
        Some(s) => Some(s@),
        None => None,
    }
}

/// The method of an HTTP request.
#[derive(PartialEq, Eq, Structural, Clone, Copy, Debug)]
pub enum HttpMethod {
    Get,
    Post,
    Put,
    Delete,
    Patch,
    Head,
    Options,
    Trace,
}

impl HttpMethod {
    /// The wire value of the variant, where it has one.
    pub open spec fn spec_value(&self) -> Option<Seq<char>> {
        None
    }

    /// The wire value of the variant, where it has one.
    pub fn value(&self) -> (r: Option<&'static str>)
        ensures
            opt_str_view(r) == self.spec_value(),
    {
        match self {
            HttpMethod::Get => None,
            HttpMethod::Post => None,
            HttpMethod::Put => None,
            HttpMethod::Delete => None,
            HttpMethod::Patch => None,
            HttpMethod::Head => None,
            HttpMethod::Options => None,
            HttpMethod::Trace => None,
        }
    }

    /// The name under which the variant is displayed.
    pub open spec fn spec_display(&self) -> Seq<char> {
        match self {
            HttpMethod::Get => "GET"@,
            HttpMethod::Post => "POST"@,
            HttpMethod::Put => "PUT"@,
            HttpMethod::Delete => "DELETE"@,
            HttpMethod::Patch => "PATCH"@,
            HttpMethod::Head => "HEAD"@,
            HttpMethod::Options => "OPTIONS"@,
            HttpMethod::Trace => "TRACE"@,
        }
    }

    /// The name under which the variant is displayed.
    pub fn to_string(&self) -> (s: String)
        ensures
            s@ == self.spec_display(),
    {
        let lit: &str = match self {
            HttpMethod::Get => "GET",
            HttpMethod::Post => "POST",
            HttpMethod::Put => "PUT",
            HttpMethod::Delete => "DELETE",
            HttpMethod::Patch => "PATCH",
            HttpMethod::Head => "HEAD",
            HttpMethod::Options => "OPTIONS",
            HttpMethod::Trace => "TRACE",
        };
        String::from_str(lit)
    }

    /// The variant whose wire value is `s`, if any.
    pub open spec fn spec_from_str(s: Seq<char>) -> Option<HttpMethod> {
        None
    }

    /// Parses a wire value; any other string is returned as the error.
    pub fn from_str(s: &str) -> (r: Result<HttpMethod, String>)
        ensures
            match Self::spec_from_str(s@) {
                Some(c) => r == Ok::<HttpMethod, String>(c),
                None => r matches Err(e) && e@ == s@,
            },
    {
        Err(String::from_str(s))
    }

    /// No integer converts to a variant: the integer is returned as the error.
    pub fn try_from(i: u32) -> (r: Result<HttpMethod, u32>)
        ensures
            r == Err::<HttpMethod, u32>(i),
    {
        Err(i)
    }
}

/// The scheme of an HTTP request.
#[derive(PartialEq, Eq, Structural, Clone, Copy, Debug)]
pub enum HttpScheme {
    Http,
    Https,
}

impl HttpScheme {
    /// The wire value of the variant, where it has one.
    pub open spec fn spec_value(&self) -> Option<Seq<char>> {
        None
    }

    /// The wire value of the variant, where it has one.
    pub fn value(&self) -> (r: Option<&'static str>)
        ensures
            opt_str_view(r) == self.spec_value(),
    {
        match self {
            HttpScheme::Http => None,
            HttpScheme::Https => None,
        }
    }

    /// The name under which the variant is displayed.
    pub open spec fn spec_display(&self) -> Seq<char> {
        match self {
            HttpScheme::Http => "HTTP"@,
            HttpScheme::Https => "HTTPS"@,
        }
    }

    /// The name under which the variant is displayed.
    pub fn to_string(&self) -> (s: String)
        ensures
            s@ == self.spec_display(),
    {
        let lit: &str = match self {
            HttpScheme::Http => "HTTP",
            HttpScheme::Https => "HTTPS",
        };
        String::from_str(lit)
    }

    /// The variant whose wire value is `s`, if any.
    pub open spec fn spec_from_str(s: Seq<char>) -> Option<HttpScheme> {
        None
    }

    /// Parses a wire value; any other string is returned as the error.
    pub fn from_str(s: &str) -> (r: Result<HttpScheme, String>)
        ensures
            match Self::spec_from_str(s@) {
                Some(c) => r == Ok::<HttpScheme, String>(c),
                None => r matches Err(e) && e@ == s@,
            },
    {
        Err(String::from_str(s))
    }

    /// No integer converts to a variant: the integer is returned as the error.
    pub fn try_from(i: u32) -> (r: Result<HttpScheme, u32>)
        ensures
            r == Err::<HttpScheme, u32>(i),
    {
        Err(i)
    }
}

/// The HTTP protocol version.
#[derive(PartialEq, Eq, Structural, Clone, Copy, Debug)]
pub enum HttpVersion {
    Http10,
    Http11,
    Http20,
}

impl HttpVersion {
    /// The wire value of the variant, where it has one.
    pub open spec fn spec_value(&self) -> Option<Seq<char>> {
        match self {
            HttpVersion::Http10 => Some("1.0"@),
            HttpVersion::Http11 => Some("1.1"@),
            HttpVersion::Http20 => Some("2.0"@),
        }
    }

    /// The wire value of the variant, where it has one.
    pub fn value(&self) -> (r: Option<&'static str>)
        ensures
            opt_str_view(r) == self.spec_value(),
    {
        match self {
            HttpVersion::Http10 => Some("1.0"),
            HttpVersion::Http11 => Some("1.1"),
            HttpVersion::Http20 => Some("2.0"),
        }
    }

    /// The name under which the variant is displayed.
    pub open spec fn spec_display(&self) -> Seq<char> {
        match self {
            HttpVersion::Http10 => "HTTP_1_0"@,
            HttpVersion::Http11 => "HTTP_1_1"@,
            HttpVersion::Http20 => "HTTP_2_0"@,
        }
    }

    /// The name under which the variant is displayed.
    pub fn to_string(&self) -> (s: String)
        ensures
            s@ == self.spec_display(),
    {
        let lit: &str = match self {
            HttpVersion::Http10 => "HTTP_1_0",
            HttpVersion::Http11 => "HTTP_1_1",
            HttpVersion::Http20 => "HTTP_2_0",
        };
        String::from_str(lit)
    }

    /// The variant whose wire value is `s`, if any.
    pub open spec fn spec_from_str(s: Seq<char>) -> Option<HttpVersion> {
        if s == "1.0"@ {
            Some(HttpVersion::Http10)
        } else if s == "1.1"@ {
            Some(HttpVersion::Http11)
        } else if s == "2.0"@ {
            Some(HttpVersion::Http20)
        } else {
            None
        }
    }

    /// Parses a wire value; any other string is returned as the error.
    pub fn from_str(s: &str) -> (r: Result<HttpVersion, String>)
        ensures
            match Self::spec_from_str(s@) {
                Some(c) => r == Ok::<HttpVersion, String>(c),
                None => r matches Err(e) && e@ == s@,
            },
    {
        if str_eq(s, "1.0") {
            Ok(HttpVersion::Http10)
        } else if str_eq(s, "1.1") {
            Ok(HttpVersion::Http11)
        } else if str_eq(s, "2.0") {
            Ok(HttpVersion::Http20)
        } else {
            Err(String::from_str(s))
        }
    }

    /// No integer converts to a variant: the integer is returned as the error.
    pub fn try_from(i: u32) -> (r: Result<HttpVersion, u32>)
        ensures
            r == Err::<HttpVersion, u32>(i),
    {
        Err(i)
    }
}

/// The status of an HTTP response.
#[derive(PartialEq, Eq, Structural, Clone, Copy, Debug)]
pub enum StatusCode {
    Continue,
    SwitchingProtocols,
    OkStatus,
    Created,
    Accepted,
    NonAuthoritativeInformation,
    NoContent,
    ResetContent,
    PartialContent,
    MultipleChoices,
    MovedPermanently,
    Found,
    SeeOther,
    NotModified,
    TemporaryRedirect,
    PermanentRedirect,
    BadRequest,
    Unauthorized,
    PaymentRequired,
    Forbidden,
    NotFound,
    MethodNotAllowed,
    NotAcceptable,
    ProxyAuthenticationRequired,
    RequestTimeout,
    Conflict,
    Gone,
    LengthRequired,
    PreconditionFailed,
    PayloadTooLarge,
    UriTooLong,
    UnsupportedMediaType,
    RangeNotSatisfiable,
    ExpectationFailed,
    ImATeapot,
    UnprocessableEntity,
    Locked,
    FailedDependency,
    TooManyRequests,
    InternalServerError,
    NotImplemented,
    BadGateway,
    ServiceUnavailable,
    GatewayTimeout,
    HttpVersionNotSupported,
    Unknown,
}

impl StatusCode {
    /// The wire value of the variant, where it has one.
    pub open spec fn spec_value(&self) -> Option<Seq<char>> {
        match self {
            StatusCode::Continue => Some("100"@),
            StatusCode::SwitchingProtocols => Some("101"@),
            StatusCode::OkStatus => Some("200"@),
            StatusCode::Created => Some("201"@),
            StatusCode::Accepted => Some("202"@),
            StatusCode::NonAuthoritativeInformation => Some("203"@),
            StatusCode::NoContent => Some("204"@),
            StatusCode::ResetContent => Some("205"@),
            StatusCode::PartialContent => Some("206"@),
            StatusCode::MultipleChoices => Some("300"@),
            StatusCode::MovedPermanently => Some("301"@),
            StatusCode::Found => Some("302"@),
            StatusCode::SeeOther => Some("303"@),
            StatusCode::NotModified => Some("304"@),
            StatusCode::TemporaryRedirect => Some("307"@),
            StatusCode::PermanentRedirect => Some("308"@),
            StatusCode::BadRequest => Some("400"@),
            StatusCode::Unauthorized => Some("401"@),
            StatusCode::PaymentRequired => Some("402"@),
            StatusCode::Forbidden => Some("403"@),
            StatusCode::NotFound => Some("404"@),
            StatusCode::MethodNotAllowed => Some("405"@),
            StatusCode::NotAcceptable => Some("406"@),
            StatusCode::ProxyAuthenticationRequired => Some("407"@),
            StatusCode::RequestTimeout => Some("408"@),
            StatusCode::Conflict => Some("409"@),
            StatusCode::Gone => Some("410"@),
            StatusCode::LengthRequired => Some("411"@),
            StatusCode::PreconditionFailed => Some("412"@),
            StatusCode::PayloadTooLarge => Some("413"@),
            StatusCode::UriTooLong => Some("414"@),
            StatusCode::UnsupportedMediaType => Some("415"@),
            StatusCode::RangeNotSatisfiable => Some("416"@),
            StatusCode::ExpectationFailed => Some("417"@),
            StatusCode::ImATeapot => Some("418"@),
            StatusCode::UnprocessableEntity => Some("422"@),
            StatusCode::Locked => Some("423"@),
            StatusCode::FailedDependency => Some("424"@),
            StatusCode::TooManyRequests => Some("429"@),
            StatusCode::InternalServerError => Some("500"@),
            StatusCode::NotImplemented => Some("501"@),
            StatusCode::BadGateway => Some("502"@),
            StatusCode::ServiceUnavailable => Some("503"@),
            StatusCode::GatewayTimeout => Some("504"@),
            StatusCode::HttpVersionNotSupported => Some("505"@),
            StatusCode::Unknown => Some("-1"@),
        }
    }

    /// The wire value of the variant, where it has one.
    pub fn value(&self) -> (r: Option<&'static str>)
        ensures
            opt_str_view(r) == self.spec_value(),
    {
        match self {
            StatusCode::Continue => Some("100"),
            StatusCode::SwitchingProtocols => Some("101"),
            StatusCode::OkStatus => Some("200"),
            StatusCode::Created => Some("201"),
            StatusCode::Accepted => Some("202"),
            StatusCode::NonAuthoritativeInformation => Some("203"),
            StatusCode::NoContent => Some("204"),
            StatusCode::ResetContent => Some("205"),
            StatusCode::PartialContent => Some("206"),
            StatusCode::MultipleChoices => Some("300"),
            StatusCode::MovedPermanently => Some("301"),
            StatusCode::Found => Some("302"),
            StatusCode::SeeOther => Some("303"),
            StatusCode::NotModified => Some("304"),
            StatusCode::TemporaryRedirect => Some("307"),
            StatusCode::PermanentRedirect => Some("308"),
            StatusCode::BadRequest => Some("400"),
            StatusCode::Unauthorized => Some("401"),
            StatusCode::PaymentRequired => Some("402"),
            StatusCode::Forbidden => Some("403"),
            StatusCode::NotFound => Some("404"),
            StatusCode::MethodNotAllowed => Some("405"),
            StatusCode::NotAcceptable => Some("406"),
            StatusCode::ProxyAuthenticationRequired => Some("407"),
            StatusCode::RequestTimeout => Some("408"),
            StatusCode::Conflict => Some("409"),
            StatusCode::Gone => Some("410"),
            StatusCode::LengthRequired => Some("411"),
            StatusCode::PreconditionFailed => Some("412"),
            StatusCode::PayloadTooLarge => Some("413"),
            StatusCode::UriTooLong => Some("414"),
            StatusCode::UnsupportedMediaType => Some("415"),
            StatusCode::RangeNotSatisfiable => Some("416"),
            StatusCode::ExpectationFailed => Some("417"),
            StatusCode::ImATeapot => Some("418"),
            StatusCode::UnprocessableEntity => Some("422"),
            StatusCode::Locked => Some("423"),
            StatusCode::FailedDependency => Some("424"),
            StatusCode::TooManyRequests => Some("429"),
            StatusCode::InternalServerError => Some("500"),
            StatusCode::NotImplemented => Some("501"),
            StatusCode::BadGateway => Some("502"),
            StatusCode::ServiceUnavailable => Some("503"),
            StatusCode::GatewayTimeout => Some("504"),
            StatusCode::HttpVersionNotSupported => Some("505"),
            StatusCode::Unknown => Some("-1"),
        }
    }

    /// The name under which the variant is displayed.
    pub open spec fn spec_display(&self) -> Seq<char> {
        match self {
            StatusCode::Continue => "Continue"@,
            StatusCode::SwitchingProtocols => "SwitchingProtocols"@,
            StatusCode::OkStatus => "OK"@,
            StatusCode::Created => "Created"@,
            StatusCode::Accepted => "Accepted"@,
            StatusCode::NonAuthoritativeInformation => "NonAuthoritativeInformation"@,
            StatusCode::NoContent => "NoContent"@,
            StatusCode::ResetContent => "ResetContent"@,
            StatusCode::PartialContent => "PartialContent"@,
            StatusCode::MultipleChoices => "MultipleChoices"@,
            StatusCode::MovedPermanently => "MovedPermanently"@,
            StatusCode::Found => "Found"@,
            StatusCode::SeeOther => "SeeOther"@,
            StatusCode::NotModified => "NotModified"@,
            StatusCode::TemporaryRedirect => "TemporaryRedirect"@,
            StatusCode::PermanentRedirect => "PermanentRedirect"@,
            StatusCode::BadRequest => "BadRequest"@,
            StatusCode::Unauthorized => "Unauthorized"@,
            StatusCode::PaymentRequired => "PaymentRequired"@,
            StatusCode::Forbidden => "Forbidden"@,
            StatusCode::NotFound => "NotFound"@,
            StatusCode::MethodNotAllowed => "MethodNotAllowed"@,
            StatusCode::NotAcceptable => "NotAcceptable"@,
            StatusCode::ProxyAuthenticationRequired => "ProxyAuthenticationRequired"@,
            StatusCode::RequestTimeout => "RequestTimeout"@,
            StatusCode::Conflict => "Conflict"@,
            StatusCode::Gone => "Gone"@,
            StatusCode::LengthRequired => "LengthRequired"@,
            StatusCode::PreconditionFailed => "PreconditionFailed"@,
            StatusCode::PayloadTooLarge => "PayloadTooLarge"@,
            StatusCode::UriTooLong => "URITooLong"@,
            StatusCode::UnsupportedMediaType => "UnsupportedMediaType"@,
            StatusCode::RangeNotSatisfiable => "RangeNotSatisfiable"@,
            StatusCode::ExpectationFailed => "ExpectationFailed"@,
            StatusCode::ImATeapot => "ImATeapot"@,
            StatusCode::UnprocessableEntity => "UnprocessableEntity"@,
            StatusCode::Locked => "Locked"@,
            StatusCode::FailedDependency => "FailedDependency"@,
            StatusCode::TooManyRequests => "TooManyRequests"@,
            StatusCode::InternalServerError => "InternalServerError"@,
            StatusCode::NotImplemented => "NotImplemented"@,
            StatusCode::BadGateway => "BadGateway"@,
            StatusCode::ServiceUnavailable => "ServiceUnavailable"@,
            StatusCode::GatewayTimeout => "GatewayTimeout"@,
            StatusCode::HttpVersionNotSupported => "HTTPVersionNotSupported"@,
            StatusCode::Unknown => "Unknown"@,
        }
    }

    /// The name under which the variant is displayed.
    pub fn to_string(&self) -> (s: String)
        ensures
            s@ == self.spec_display(),
    {
        let lit: &str = match self {
            StatusCode::Continue => "Continue",
            StatusCode::SwitchingProtocols => "SwitchingProtocols",
            StatusCode::OkStatus => "OK",
            StatusCode::Created => "Created",
            StatusCode::Accepted => "Accepted",
            StatusCode::NonAuthoritativeInformation => "NonAuthoritativeInformation",
            StatusCode::NoContent => "NoContent",
            StatusCode::ResetContent => "ResetContent",
            StatusCode::PartialContent => "PartialContent",
            StatusCode::MultipleChoices => "MultipleChoices",
            StatusCode::MovedPermanently => "MovedPermanently",
            StatusCode::Found => "Found",
            StatusCode::SeeOther => "SeeOther",
            StatusCode::NotModified => "NotModified",
            StatusCode::TemporaryRedirect => "TemporaryRedirect",
            StatusCode::PermanentRedirect => "PermanentRedirect",
            StatusCode::BadRequest => "BadRequest",
            StatusCode::Unauthorized => "Unauthorized",
            StatusCode::PaymentRequired => "PaymentRequired",
            StatusCode::Forbidden => "Forbidden",
            StatusCode::NotFound => "NotFound",
            StatusCode::MethodNotAllowed => "MethodNotAllowed",
            StatusCode::NotAcceptable => "NotAcceptable",
            StatusCode::ProxyAuthenticationRequired => "ProxyAuthenticationRequired",
            StatusCode::RequestTimeout => "RequestTimeout",
            StatusCode::Conflict => "Conflict",
            StatusCode::Gone => "Gone",
            StatusCode::LengthRequired => "LengthRequired",
            StatusCode::PreconditionFailed => "PreconditionFailed",
            StatusCode::PayloadTooLarge => "PayloadTooLarge",
            StatusCode::UriTooLong => "URITooLong",
            StatusCode::UnsupportedMediaType => "UnsupportedMediaType",
            StatusCode::RangeNotSatisfiable => "RangeNotSatisfiable",
            StatusCode::ExpectationFailed => "ExpectationFailed",
            StatusCode::ImATeapot => "ImATeapot",
            StatusCode::UnprocessableEntity => "UnprocessableEntity",
            StatusCode::Locked => "Locked",
            StatusCode::FailedDependency => "FailedDependency",
            StatusCode::TooManyRequests => "TooManyRequests",
            StatusCode::InternalServerError => "InternalServerError",
            StatusCode::NotImplemented => "NotImplemented",
            StatusCode::BadGateway => "BadGateway",
            StatusCode::ServiceUnavailable => "ServiceUnavailable",
            StatusCode::GatewayTimeout => "GatewayTimeout",
            StatusCode::HttpVersionNotSupported => "HTTPVersionNotSupported",
            StatusCode::Unknown => "Unknown",
        };
        String::from_str(lit)
    }

    /// The variant whose wire value is `s`, if any.
    pub open spec fn spec_from_str(s: Seq<char>) -> Option<StatusCode> {
        if s == "100"@ {
            Some(StatusCode::Continue)
        } else if s == "101"@ {
            Some(StatusCode::SwitchingProtocols)
        } else if s == "200"@ {
            Some(StatusCode::OkStatus)
        } else if s == "201"@ {
            Some(StatusCode::Created)
        } else if s == "202"@ {
            Some(StatusCode::Accepted)
        } else if s == "203"@ {
            Some(StatusCode::NonAuthoritativeInformation)
        } else if s == "204"@ {
            Some(StatusCode::NoContent)
        } else if s == "205"@ {
            Some(StatusCode::ResetContent)
        } else if s == "206"@ {
            Some(StatusCode::PartialContent)
        } else if s == "300"@ {
            Some(StatusCode::MultipleChoices)
        } else if s == "301"@ {
            Some(StatusCode::MovedPermanently)
        } else if s == "302"@ {
            Some(StatusCode::Found)
        } else if s == "303"@ {
            Some(StatusCode::SeeOther)
        } else if s == "304"@ {
            Some(StatusCode::NotModified)
        } else if s == "307"@ {
            Some(StatusCode::TemporaryRedirect)
        } else if s == "308"@ {
            Some(StatusCode::PermanentRedirect)
        } else if s == "400"@ {
            Some(StatusCode::BadRequest)
        } else if s == "401"@ {
            Some(StatusCode::Unauthorized)
        } else if s == "402"@ {
            Some(StatusCode::PaymentRequired)
        } else if s == "403"@ {
            Some(StatusCode::Forbidden)
        } else if s == "404"@ {
            Some(StatusCode::NotFound)
        } else if s == "405"@ {
            Some(StatusCode::MethodNotAllowed)
        } else if s == "406"@ {
            Some(StatusCode::NotAcceptable)
        } else if s == "407"@ {
            Some(StatusCode::ProxyAuthenticationRequired)
        } else if s == "408"@ {
            Some(StatusCode::RequestTimeout)
        } else if s == "409"@ {
            Some(StatusCode::Conflict)
        } else if s == "410"@ {
            Some(StatusCode::Gone)
        } else if s == "411"@ {
            Some(StatusCode::LengthRequired)
        } else if s == "412"@ {
            Some(StatusCode::PreconditionFailed)
        } else if s == "413"@ {
            Some(StatusCode::PayloadTooLarge)
        } else if s == "414"@ {
            Some(StatusCode::UriTooLong)
        } else if s == "415"@ {
            Some(StatusCode::UnsupportedMediaType)
        } else if s == "416"@ {
            Some(StatusCode::RangeNotSatisfiable)
        } else if s == "417"@ {
            Some(StatusCode::ExpectationFailed)
        } else if s == "418"@ {
            Some(StatusCode::ImATeapot)
        } else if s == "422"@ {
            Some(StatusCode::UnprocessableEntity)
        } else if s == "423"@ {
            Some(StatusCode::Locked)
        } else if s == "424"@ {
            Some(StatusCode::FailedDependency)
        } else if s == "429"@ {
            Some(StatusCode::TooManyRequests)
        } else if s == "500"@ {
            Some(StatusCode::InternalServerError)
        } else if s == "501"@ {
            Some(StatusCode::NotImplemented)
        } else if s == "502"@ {
            Some(StatusCode::BadGateway)
        } else if s == "503"@ {
            Some(StatusCode::ServiceUnavailable)
        } else if s == "504"@ {
            Some(StatusCode::GatewayTimeout)
        } else if s == "505"@ {
            Some(StatusCode::HttpVersionNotSupported)
        } else if s == "-1"@ {
            Some(StatusCode::Unknown)
        } else {
            None
        }
    }

    /// Parses a wire value; any other string is returned as the error.
    pub fn from_str(s: &str) -> (r: Result<StatusCode, String>)
        ensures
            match Self::spec_from_str(s@) {
                Some(c) => r == Ok::<StatusCode, String>(c),
                None => r matches Err(e) && e@ == s@,
            },
    {
        if str_eq(s, "100") {
            Ok(StatusCode::Continue)
        } else if str_eq(s, "101") {
            Ok(StatusCode::SwitchingProtocols)
        } else if str_eq(s, "200") {
            Ok(StatusCode::OkStatus)
        } else if str_eq(s, "201") {
            Ok(StatusCode::Created)
        } else if str_eq(s, "202") {
            Ok(StatusCode::Accepted)
        } else if str_eq(s, "203") {
            Ok(StatusCode::NonAuthoritativeInformation)
        } else if str_eq(s, "204") {
            Ok(StatusCode::NoContent)
        } else if str_eq(s, "205") {
            Ok(StatusCode::ResetContent)
        } else if str_eq(s, "206") {
            Ok(StatusCode::PartialContent)
        } else if str_eq(s, "300") {
            Ok(StatusCode::MultipleChoices)
        } else if str_eq(s, "301") {
            Ok(StatusCode::MovedPermanently)
        } else if str_eq(s, "302") {
            Ok(StatusCode::Found)
        } else if str_eq(s, "303") {
            Ok(StatusCode::SeeOther)
        } else if str_eq(s, "304") {
            Ok(StatusCode::NotModified)
        } else if str_eq(s, "307") {
            Ok(StatusCode::TemporaryRedirect)
        } else if str_eq(s, "308") {
            Ok(StatusCode::PermanentRedirect)
        } else if str_eq(s, "400") {
            Ok(StatusCode::BadRequest)
        } else if str_eq(s, "401") {
            Ok(StatusCode::Unauthorized)
        } else if str_eq(s, "402") {
            Ok(StatusCode::PaymentRequired)
        } else if str_eq(s, "403") {
            Ok(StatusCode::Forbidden)
        } else if str_eq(s, "404") {
            Ok(StatusCode::NotFound)
        } else if str_eq(s, "405") {
            Ok(StatusCode::MethodNotAllowed)
        } else if str_eq(s, "406") {
            Ok(StatusCode::NotAcceptable)
        } else if str_eq(s, "407") {
            Ok(StatusCode::ProxyAuthenticationRequired)
        } else if str_eq(s, "408") {
            Ok(StatusCode::RequestTimeout)
        } else if str_eq(s, "409") {
            Ok(StatusCode::Conflict)
        } else if str_eq(s, "410") {
            Ok(StatusCode::Gone)
        } else if str_eq(s, "411") {
            Ok(StatusCode::LengthRequired)
        } else if str_eq(s, "412") {
            Ok(StatusCode::PreconditionFailed)
        } else if str_eq(s, "413") {
            Ok(StatusCode::PayloadTooLarge)
        } else if str_eq(s, "414") {
            Ok(StatusCode::UriTooLong)
        } else if str_eq(s, "415") {
            Ok(StatusCode::UnsupportedMediaType)
        } else if str_eq(s, "416") {
            Ok(StatusCode::RangeNotSatisfiable)
        } else if str_eq(s, "417") {
            Ok(StatusCode::ExpectationFailed)
        } else if str_eq(s, "418") {
            Ok(StatusCode::ImATeapot)
        } else if str_eq(s, "422") {
            Ok(StatusCode::UnprocessableEntity)
        } else if str_eq(s, "423") {
            Ok(StatusCode::Locked)
        } else if str_eq(s, "424") {
            Ok(StatusCode::FailedDependency)
        } else if str_eq(s, "429") {
            Ok(StatusCode::TooManyRequests)
        } else if str_eq(s, "500") {
            Ok(StatusCode::InternalServerError)
        } else if str_eq(s, "501") {
            Ok(StatusCode::NotImplemented)
        } else if str_eq(s, "502") {
            Ok(StatusCode::BadGateway)
        } else if str_eq(s, "503") {
            Ok(StatusCode::ServiceUnavailable)
        } else if str_eq(s, "504") {
            Ok(StatusCode::GatewayTimeout)
        } else if str_eq(s, "505") {
            Ok(StatusCode::HttpVersionNotSupported)
        } else if str_eq(s, "-1") {
            Ok(StatusCode::Unknown)
        } else {
            Err(String::from_str(s))
        }
    }

    /// No integer converts to a variant: the integer is returned as the error.
    pub fn try_from(i: u32) -> (r: Result<StatusCode, u32>)
        ensures
            r == Err::<StatusCode, u32>(i),
    {
        Err(i)
    }
}

/// The wire values of the numbered status codes are their decimal representations.
proof fn lemma_status_literals()
    ensures
        "100"@ == decimal(100),
        "101"@ == decimal(101),
        "200"@ == decimal(200),
        "201"@ == decimal(201),
        "202"@ == decimal(202),
        "203"@ == decimal(203),
        "204"@ == decimal(204),
        "205"@ == decimal(205),
        "206"@ == decimal(206),
        "300"@ == decimal(300),
        "301"@ == decimal(301),
        "302"@ == decimal(302),
        "303"@ == decimal(303),
        "304"@ == decimal(304),
        "307"@ == decimal(307),
        "308"@ == decimal(308),
        "400"@ == decimal(400),
        "401"@ == decimal(401),
        "402"@ == decimal(402),
        "403"@ == decimal(403),
        "404"@ == decimal(404),
        "405"@ == decimal(405),
        "406"@ == decimal(406),
        "407"@ == decimal(407),
        "408"@ == decimal(408),
        "409"@ == decimal(409),
        "410"@ == decimal(410),
        "411"@ == decimal(411),
        "412"@ == decimal(412),
        "413"@ == decimal(413),
        "414"@ == decimal(414),
        "415"@ == decimal(415),
        "416"@ == decimal(416),
        "417"@ == decimal(417),
        "418"@ == decimal(418),
        "422"@ == decimal(422),
        "423"@ == decimal(423),
        "424"@ == decimal(424),
        "429"@ == decimal(429),
        "500"@ == decimal(500),
        "501"@ == decimal(501),
        "502"@ == decimal(502),
        "503"@ == decimal(503),
        "504"@ == decimal(504),
        "505"@ == decimal(505),
        "-1"@.len() == 2,
{
    reveal_strlit("100");
    reveal_strlit("101");
    reveal_strlit("200");
    reveal_strlit("201");
    reveal_strlit("202");
    reveal_strlit("203");
    reveal_strlit("204");
    reveal_strlit("205");
    reveal_strlit("206");
    reveal_strlit("300");
    reveal_strlit("301");
    reveal_strlit("302");
    reveal_strlit("303");
    reveal_strlit("304");
    reveal_strlit("307");
    reveal_strlit("308");
    reveal_strlit("400");
    reveal_strlit("401");
    reveal_strlit("402");
    reveal_strlit("403");
    reveal_strlit("404");
    reveal_strlit("405");
    reveal_strlit("406");
    reveal_strlit("407");
    reveal_strlit("408");
    reveal_strlit("409");
    reveal_strlit("410");
    reveal_strlit("411");
    reveal_strlit("412");
    reveal_strlit("413");
    reveal_strlit("414");
    reveal_strlit("415");
    reveal_strlit("416");
    reveal_strlit("417");
    reveal_strlit("418");
    reveal_strlit("422");
    reveal_strlit("423");
    reveal_strlit("424");
    reveal_strlit("429");
    reveal_strlit("500");
    reveal_strlit("501");
    reveal_strlit("502");
    reveal_strlit("503");
    reveal_strlit("504");
    reveal_strlit("505");
    reveal_strlit("-1");
    reveal_with_fuel(decimal, 3);
}

/// The wire value of every status code is its HTTP number written in
/// decimal (and "-1" for an unknown status).
#[verifier::rlimit(50)]
pub proof fn lemma_status_values_are_numbers(c: StatusCode)
    ensures
        c.spec_value() == Some(match c {
            StatusCode::Continue => decimal(100),
            StatusCode::SwitchingProtocols => decimal(101),
            StatusCode::OkStatus => decimal(200),
            StatusCode::Created => decimal(201),
            StatusCode::Accepted => decimal(202),
            StatusCode::NonAuthoritativeInformation => decimal(203),
            StatusCode::NoContent => decimal(204),
            StatusCode::ResetContent => decimal(205),
            StatusCode::PartialContent => decimal(206),
            StatusCode::MultipleChoices => decimal(300),
            StatusCode::MovedPermanently => decimal(301),
            StatusCode::Found => decimal(302),
            StatusCode::SeeOther => decimal(303),
            StatusCode::NotModified => decimal(304),
            StatusCode::TemporaryRedirect => decimal(307),
            StatusCode::PermanentRedirect => decimal(308),
            StatusCode::BadRequest => decimal(400),
            StatusCode::Unauthorized => decimal(401),
            StatusCode::PaymentRequired => decimal(402),
            StatusCode::Forbidden => decimal(403),
            StatusCode::NotFound => decimal(404),
            StatusCode::MethodNotAllowed => decimal(405),
            StatusCode::NotAcceptable => decimal(406),
            StatusCode::ProxyAuthenticationRequired => decimal(407),
            StatusCode::RequestTimeout => decimal(408),
            StatusCode::Conflict => decimal(409),
            StatusCode::Gone => decimal(410),
            StatusCode::LengthRequired => decimal(411),
            StatusCode::PreconditionFailed => decimal(412),
            StatusCode::PayloadTooLarge => decimal(413),
            StatusCode::UriTooLong => decimal(414),
            StatusCode::UnsupportedMediaType => decimal(415),
            StatusCode::RangeNotSatisfiable => decimal(416),
            StatusCode::ExpectationFailed => decimal(417),
            StatusCode::ImATeapot => decimal(418),
            StatusCode::UnprocessableEntity => decimal(422),
            StatusCode::Locked => decimal(423),
            StatusCode::FailedDependency => decimal(424),
            StatusCode::TooManyRequests => decimal(429),
            StatusCode::InternalServerError => decimal(500),
            StatusCode::NotImplemented => decimal(501),
            StatusCode::BadGateway => decimal(502),
            StatusCode::ServiceUnavailable => decimal(503),
            StatusCode::GatewayTimeout => decimal(504),
            StatusCode::HttpVersionNotSupported => decimal(505),
            StatusCode::Unknown => "-1"@,
        }),
{
    lemma_status_literals();
}

/// Parsing the wire value of a StatusCode gives that StatusCode back.
#[verifier::rlimit(100)]
pub proof fn lemma_statuscode_value_roundtrip(c: StatusCode)
    ensures
        c.spec_value() is Some,
        StatusCode::spec_from_str(c.spec_value()->0) == Some(c),
{
    lemma_status_literals();
    assert forall|a: nat, b: nat| decimal(a) == decimal(b) implies a == b by {
        lemma_decimal_injective(a, b);
    }
    assert forall|n: nat| 100 <= n < 1000 implies #[trigger] decimal(n).len() == 3 by {
        lemma_decimal_three_digits(n);
    }
}

/// Whatever parses as a StatusCode is the wire value of the result.
pub proof fn lemma_statuscode_parse_is_value(s: Seq<char>)
    ensures
        StatusCode::spec_from_str(s) matches Some(c) ==> c.spec_value() == Some(s),
{
}

/// The wire value of every HTTP version is its major and minor number in
/// decimal, joined by a dot.
pub proof fn lemma_version_values_are_numbers(v: HttpVersion)
    ensures
        v.spec_value() == Some(match v {
            HttpVersion::Http10 => decimal(1) + "."@ + decimal(0),
            HttpVersion::Http11 => decimal(1) + "."@ + decimal(1),
            HttpVersion::Http20 => decimal(2) + "."@ + decimal(0),
        }),
{
    reveal_strlit("1.0");
    reveal_strlit("1.1");
    reveal_strlit("2.0");
    reveal_strlit(".");
    assert("1.0"@ =~= decimal(1) + "."@ + decimal(0));
    assert("1.1"@ =~= decimal(1) + "."@ + decimal(1));
    assert("2.0"@ =~= decimal(2) + "."@ + decimal(0));
}

/// Parsing the wire value of a HttpVersion gives that HttpVersion back.
#[verifier::rlimit(100)]
pub proof fn lemma_httpversion_value_roundtrip(c: HttpVersion)
    ensures
        c.spec_value() is Some,
        HttpVersion::spec_from_str(c.spec_value()->0) == Some(c),
{
    reveal_strlit("1.0");
    reveal_strlit("1.1");
    reveal_strlit("2.0");
    match c {
        HttpVersion::Http10 => {},
        HttpVersion::Http11 => {
            assert("1.1"@[2] != "1.0"@[2]);
        },
        HttpVersion::Http20 => {
            assert("2.0"@[0] != "1.0"@[0]);
            assert("2.0"@[0] != "1.1"@[0]);
        },
    }
}

/// Whatever parses as a HttpVersion is the wire value of the result.
pub proof fn lemma_httpversion_parse_is_value(s: Seq<char>)
    ensures
        HttpVersion::spec_from_str(s) matches Some(c) ==> c.spec_value() == Some(s),
{
}

/// A list of named values, as HTTP headers and query parameters are kept.
pub type ValueMap = Vec<(String, Vec<String>)>;

/// A list of named values seen as plain values.
pub open spec fn value_map_view(m: ValueMap) -> Seq<(Seq<char>, Seq<Seq<char>>)> {
    m@.map_values(|e: (String, Vec<String>)| (e.0@, e.1@.map_values(|v: String| v@)))
}

/// An HTTP response.
pub struct HttpResponse {
    pub version: HttpVersion,
    pub status: StatusCode,
    pub headers: ValueMap,
}

/// An HTTP request.
pub struct HttpRequest {
    pub method: HttpMethod,
    pub scheme: HttpScheme,
    pub authority: String,
    pub query_parameters: ValueMap,
    pub path: String,
    pub uri: String,
    pub version: HttpVersion,
    pub headers: ValueMap,
}

/// The configuration of the HTTP handler operation, which has no settings.
pub struct OpHttpHandlerConfig {}

} // verus!
