use vstd::prelude::*;
use vstd::string::*;

verus! {

/// The error vocabulary, one to one with the other RudeAuth SDKs. A rejected
/// licence is a specific variant, never a bool.
#[derive(Debug, Clone, PartialEq, Eq)]
pub enum Error {
    /// The server could not be reached.
    Network,
    /// The response was malformed or its envelope did not decode.
    BadResponse,
    /// The responder is not holding this application's key.
    SignatureInvalid,
    /// The response was replayed from an earlier request.
    NonceMismatch,
    /// This machine's clock is too far from the server's.
    ClockSkew,
    LicenseInvalid,
    LicenseExpired,
    DeviceLimit,
    DeviceBlacklisted,
    RateLimited,
    SessionExpired,
    EndpointDisabled,
    AppDisabled,
    ResetUnavailable,
    FileNotFound,
    /// The server returned an error this SDK does not recognise. An unknown code
    /// is a reason to stop, not to continue.
    ServerError,
    /// A local misconfiguration: a bad public key, or too weak a fingerprint.
    Config(String),
    /// The requested variable or file does not exist for this application.
    NotFound(String),
}

/// The variant that the server's coarse error code `code` stands for.
pub open spec fn wire_error(code: Seq<char>) -> Error {
    if code == "LICENSE_INVALID"@ {
        Error::LicenseInvalid
    } else if code == "LICENSE_EXPIRED"@ {
        Error::LicenseExpired
    } else if code == "DEVICE_LIMIT"@ {
        Error::DeviceLimit
    } else if code == "DEVICE_BLACKLISTED"@ {
        Error::DeviceBlacklisted
    } else if code == "RATE_LIMITED"@ {
        Error::RateLimited
    } else if code == "SESSION_EXPIRED"@ {
        Error::SessionExpired
    } else if code == "ENDPOINT_DISABLED"@ {
        Error::EndpointDisabled
    } else if code == "APP_DISABLED"@ {
        Error::AppDisabled
    } else if code == "CLOCK_SKEW"@ {
        Error::ClockSkew
    } else if code == "RESET_UNAVAILABLE"@ {
        Error::ResetUnavailable
    } else if code == "FILE_NOT_FOUND"@ {
        Error::FileNotFound
    } else {
        Error::ServerError
    }
}

/// The text of each variant, behind the common "rudeauth: " prefix.
pub open spec fn error_text(e: Error) -> Seq<char> {
    match e {
        Error::Network => "network unreachable"@,
        Error::BadResponse => "malformed response"@,
        Error::SignatureInvalid => "signature invalid, the server is not authentic"@,
        Error::NonceMismatch => "nonce mismatch, replayed response"@,
        Error::ClockSkew => "system clock is too far from the server's"@,
        Error::LicenseInvalid => "licence invalid"@,
        Error::LicenseExpired => "licence expired"@,
        Error::DeviceLimit => "device limit reached"@,
        Error::DeviceBlacklisted => "device blacklisted"@,
        Error::RateLimited => "rate limited"@,
        Error::SessionExpired => "session expired"@,
        Error::EndpointDisabled => "endpoint disabled"@,
        Error::AppDisabled => "application unavailable"@,
        Error::ResetUnavailable => "device reset unavailable"@,
        Error::FileNotFound => "no such file for this application"@,
        Error::ServerError => "server error"@,
        Error::Config(m) => m@,
        Error::NotFound(m) => m@,
    }
}

/// Whether `e` carries its own message (`Config`, `NotFound`).
pub open spec fn carries_message(e: Error) -> bool {
    e is Config || e is NotFound
}

/// The sixteen kinds of error that carry no message of their own are told
/// apart by their text: no two of them display the same message.
pub proof fn error_messages_are_distinct(a: Error, b: Error)
    requires
        !carries_message(a),
        !carries_message(b),
        a != b,
    ensures
        error_text(a) != error_text(b),
        "rudeauth: "@ + error_text(a) != "rudeauth: "@ + error_text(b),
{
    reveal_strlit("network unreachable");
    reveal_strlit("malformed response");
    reveal_strlit("signature invalid, the server is not authentic");
    reveal_strlit("nonce mismatch, replayed response");
    reveal_strlit("system clock is too far from the server's");
    reveal_strlit("licence invalid");
    reveal_strlit("licence expired");
    reveal_strlit("device limit reached");
    reveal_strlit("device blacklisted");
    reveal_strlit("rate limited");
    reveal_strlit("session expired");
    reveal_strlit("endpoint disabled");
    reveal_strlit("application unavailable");
    reveal_strlit("device reset unavailable");
    reveal_strlit("no such file for this application");
    reveal_strlit("server error");
    assert("network unreachable"@.len() == 19);
    assert("malformed response"@.len() == 18);
    assert("signature invalid, the server is not authentic"@.len() == 46);
    assert("nonce mismatch, replayed response"@.len() == 33);
    assert("system clock is too far from the server's"@.len() == 41);
    assert("licence invalid"@.len() == 15);
    assert("licence expired"@.len() == 15);
    assert("device limit reached"@.len() == 20);
    assert("device blacklisted"@.len() == 18);
    assert("rate limited"@.len() == 12);
    assert("session expired"@.len() == 15);
    assert("endpoint disabled"@.len() == 17);
    assert("application unavailable"@.len() == 23);
    assert("device reset unavailable"@.len() == 24);
    assert("no such file for this application"@.len() == 33);
    assert("server error"@.len() == 12);
    // The texts of equal length differ here.
    assert("malformed response"@[0] != "device blacklisted"@[0]);
    assert("licence invalid"@[8] != "licence expired"@[8]);
    assert("licence invalid"@[0] != "session expired"@[0]);
    assert("licence expired"@[0] != "session expired"@[0]);
    assert("nonce mismatch, replayed response"@[2] != "no such file for this application"@[2]);
    assert("rate limited"@[0] != "server error"@[0]);
    assert(error_text(a) != error_text(b));
    let p = "rudeauth: "@;
    if p + error_text(a) == p + error_text(b) {
        assert(error_text(a) =~= (p + error_text(a)).subrange(p.len() as int, (p + error_text(a)).len() as int));
        assert(error_text(b) =~= (p + error_text(b)).subrange(p.len() as int, (p + error_text(b)).len() as int));
    }
}

/// True when `a` and `b` hold the same characters.
pub fn str_eq(a: &str, b: &str) -> (r: bool)
    ensures
        r == (a@ == b@),
{
    a.to_owned() == b.to_owned()
}

impl Error {
    /// Map the server's coarse error codes onto the variants above. Any code
    /// this SDK does not know becomes `ServerError`.
    pub fn from_wire(code: &str) -> (e: Error)
        ensures
            e == wire_error(code@),
    {
        if str_eq(code, "LICENSE_INVALID") {
            Error::LicenseInvalid
        } else if str_eq(code, "LICENSE_EXPIRED") {
            Error::LicenseExpired
        } else if str_eq(code, "DEVICE_LIMIT") {
            Error::DeviceLimit
        } else if str_eq(code, "DEVICE_BLACKLISTED") {
            Error::DeviceBlacklisted
        } else if str_eq(code, "RATE_LIMITED") {
            Error::RateLimited
        } else if str_eq(code, "SESSION_EXPIRED") {
            Error::SessionExpired
        } else if str_eq(code, "ENDPOINT_DISABLED") {
            Error::EndpointDisabled
        } else if str_eq(code, "APP_DISABLED") {
            Error::AppDisabled
        } else if str_eq(code, "CLOCK_SKEW") {
            Error::ClockSkew
        } else if str_eq(code, "RESET_UNAVAILABLE") {
            Error::ResetUnavailable
        } else if str_eq(code, "FILE_NOT_FOUND") {
            Error::FileNotFound
        } else {
            Error::ServerError
        }
    }

    /// The human-readable message: "rudeauth: " followed by the variant's text.
    pub fn message(&self) -> (m: String)
        ensures
            m@ == "rudeauth: "@ + error_text(*self),
    {
        let text: &str = match self {
            Error::Network => "network unreachable",
            Error::BadResponse => "malformed response",
            Error::SignatureInvalid => "signature invalid, the server is not authentic",
            Error::NonceMismatch => "nonce mismatch, replayed response",
            Error::ClockSkew => "system clock is too far from the server's",
            Error::LicenseInvalid => "licence invalid",
            Error::LicenseExpired => "licence expired",
            Error::DeviceLimit => "device limit reached",
            Error::DeviceBlacklisted => "device blacklisted",
            Error::RateLimited => "rate limited",
            Error::SessionExpired => "session expired",
            Error::EndpointDisabled => "endpoint disabled",
            Error::AppDisabled => "application unavailable",
            Error::ResetUnavailable => "device reset unavailable",
            Error::FileNotFound => "no such file for this application",
            Error::ServerError => "server error",
            Error::Config(m) => m.as_str(),
            Error::NotFound(m) => m.as_str(),
        };
        let mut out = "rudeauth: ".to_owned();
        out.append(text);
        out
    }
}

} // verus!
