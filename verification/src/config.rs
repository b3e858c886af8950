use vstd::prelude::*;
use crate::text::owned;

verus! {

/// The fixed identity of this client: where it sends its requests and how it
/// presents itself. One value is made at start and handed to every request
/// builder.
#[derive(Debug, Clone, PartialEq, Eq)]
pub struct Config {
    /// Origin of the account backend.
    pub base_url: String,
    /// Origin of the upstream platform.
    pub upstream_origin: String,
    /// User agent for the challenge, status and account calls.
    pub browser_agent: String,
    /// User agent for the token exchange.
    pub login_agent: String,
    /// Device fingerprint sent with the token exchange.
    pub device_fingerprint: String,
    /// Security fingerprint sent with the token exchange.
    pub security_fingerprint: String,
    /// Anti-abuse token header of the token exchange.
    pub anti_abuse_token: String,
    /// Name under which this application is known to the backend.
    pub app_identifier: String,
}

/// A `Config` as mathematical data.
pub ghost struct ConfigModel {
    pub base_url: Seq<char>,
    pub upstream_origin: Seq<char>,
    pub browser_agent: Seq<char>,
    pub login_agent: Seq<char>,
    pub device_fingerprint: Seq<char>,
    pub security_fingerprint: Seq<char>,
    pub anti_abuse_token: Seq<char>,
    pub app_identifier: Seq<char>,
}

impl View for Config {
    type V = ConfigModel;

    open spec fn view(&self) -> ConfigModel {
        ConfigModel {
            base_url: self.base_url@,
            upstream_origin: self.upstream_origin@,
            browser_agent: self.browser_agent@,
            login_agent: self.login_agent@,
            device_fingerprint: self.device_fingerprint@,
            security_fingerprint: self.security_fingerprint@,
            anti_abuse_token: self.anti_abuse_token@,
            app_identifier: self.app_identifier@,
        }
    }
}

/// The configuration that the application runs with.
pub open spec fn standard_config() -> ConfigModel {
    ConfigModel {
        base_url: "https://livekenceng.com"@,
        upstream_origin: "https://shopee.co.id"@,
        browser_agent: "Mozilla/5.0 (Windows NT 10.0; Win64; x64) AppleWebKit/537.36 (KHTML, like Gecko) Chrome/123.0.0.0 Safari/537.36"@,
        login_agent: "Mozilla/5.0 (Macintosh; Intel Mac OS X 10_15_7) AppleWebKit/537.36 (KHTML, like Gecko) Chrome/119.0.0.0 Safari/537.36"@,
        device_fingerprint: "Eci2goR2Eb+MxmnU3gKNBQ==|U4oBUb+lXscV+6i8liMV/0lL2YjLYCw6ZgvAg3AVpmc=|WYw++VlzfflxOp1j|08|3"@,
        security_fingerprint: "vRr1CLNxsx/YWsLqNCAeGQ==|3UI1dXTNSZRQkHYpKyn3MGV94+BUZv/37sidjlGODXY=|77wWZwahX4xYgzK9BHP57A=="@,
        anti_abuse_token: "LKhci5u+IZWG5pLadxISkw==|KnTeDESKZrvJIH7v/k87MkjZgllq1OIb4WNTbBMjqiX47UKmLiYT/5gQveB5AcnnWrX7QOH0K22Cyg==|WYw++VlzfflxOp1j|08|3"@,
        app_identifier: "botgacor"@,
    }
}

impl Config {
    /// The configuration that the application runs with.
    pub fn standard() -> (config: Config)
        ensures
            config@ == standard_config(),
    {
        Config {
            base_url: owned("https://livekenceng.com"),
            upstream_origin: owned("https://shopee.co.id"),
            browser_agent: owned(
                "Mozilla/5.0 (Windows NT 10.0; Win64; x64) AppleWebKit/537.36 (KHTML, like Gecko) Chrome/123.0.0.0 Safari/537.36",
            ),
            login_agent: owned(
                "Mozilla/5.0 (Macintosh; Intel Mac OS X 10_15_7) AppleWebKit/537.36 (KHTML, like Gecko) Chrome/119.0.0.0 Safari/537.36",
            ),
            device_fingerprint: owned(
                "Eci2goR2Eb+MxmnU3gKNBQ==|U4oBUb+lXscV+6i8liMV/0lL2YjLYCw6ZgvAg3AVpmc=|WYw++VlzfflxOp1j|08|3",
            ),
            security_fingerprint: owned(
                "vRr1CLNxsx/YWsLqNCAeGQ==|3UI1dXTNSZRQkHYpKyn3MGV94+BUZv/37sidjlGODXY=|77wWZwahX4xYgzK9BHP57A==",
            ),
            anti_abuse_token: owned(
                "LKhci5u+IZWG5pLadxISkw==|KnTeDESKZrvJIH7v/k87MkjZgllq1OIb4WNTbBMjqiX47UKmLiYT/5gQveB5AcnnWrX7QOH0K22Cyg==|WYw++VlzfflxOp1j|08|3",
            ),
            app_identifier: owned("botgacor"),
        }
    }
}

} // verus!
