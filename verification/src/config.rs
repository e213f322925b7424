//! How a client is configured.

use vstd::prelude::*;
use vstd::string::*;
use crate::error::Error;
use crate::text::chars_of;

verus! {

/// Default API base URL
pub const DEFAULT_BASE_URL: &'static str = "https://api.prd.realitydefender.xyz";

/// Seconds an HTTP request may take where the configuration sets no timeout.
pub const DEFAULT_TIMEOUT_SECONDS: u64 = 30;

/// Whether `c` is white space: the characters that Unicode gives the
/// property `White_Space`.
pub open spec fn is_white_space(c: char) -> bool {
    let u = c as u32;
    ||| 0x09 <= u <= 0x0d
    ||| u == 0x20
    ||| u == 0x85
    ||| u == 0xa0
    ||| u == 0x1680
    ||| 0x2000 <= u <= 0x200a
    ||| u == 0x2028
    ||| u == 0x2029
    ||| u == 0x202f
    ||| u == 0x205f
    ||| u == 0x3000
}

/// Whether a text holds nothing but white space, so that nothing is left of
/// it once it is trimmed.
pub open spec fn is_blank(text: Seq<char>) -> bool {
    forall|i: int| 0 <= i < text.len() ==> is_white_space(#[trigger] text[i])
}

/// Whether a text holds nothing but white space.
pub fn blank(text: &str) -> (r: bool)
    ensures
        r == is_blank(text@),
{
    let cs = chars_of(text);
    let mut i: usize = 0;
    while i < cs.len()
        invariant
            0 <= i <= cs.len(),
            cs@ == text@,
            forall|j: int| 0 <= j < i ==> is_white_space(#[trigger] cs@[j]),
        decreases cs.len() - i,
    {
        let u = cs[i] as u32;
        let white = (0x09 <= u && u <= 0x0d) || u == 0x20 || u == 0x85 || u == 0xa0 || u == 0x1680
            || (0x2000 <= u && u <= 0x200a) || u == 0x2028 || u == 0x2029 || u == 0x202f || u
            == 0x205f || u == 0x3000;
        if !white {
            return false;
        }
        i = i + 1;
    }
    true
}

/// Configuration for the client
#[derive(Debug, Clone)]
pub struct Config {
    /// API key for authentication
    pub api_key: String,
    /// Base URL for the API
    pub base_url: Option<String>,
    /// Timeout in seconds for HTTP requests
    pub timeout_seconds: Option<u64>,
}

impl Default for Config {
    fn default() -> (r: Config)
        ensures
            r.api_key@.len() == 0,
            r.base_url is None,
            r.timeout_seconds is None,
    {
        Config { api_key: String::new(), base_url: None, timeout_seconds: None }
    }
}

impl Config {
    /// What is wrong with the configuration, in words, if anything is: the
    /// API key is checked first, then the base URL.
    pub open spec fn fault(self) -> Option<Seq<char>> {
        if is_blank(self.api_key@) {
            Some("API key is required"@)
        } else if self.base_url matches Some(url) && is_blank(url@) {
            Some("Base URL cannot be empty"@)
        } else {
            None
        }
    }

    /// The base URL in use: the configured one, else the default.
    pub open spec fn spec_base_url(self) -> Seq<char> {
        match self.base_url {
            Some(url) => url@,
            None => DEFAULT_BASE_URL@,
        }
    }

    /// The timeout in use: the configured one, else the default.
    pub open spec fn spec_timeout_seconds(self) -> u64 {
        match self.timeout_seconds {
            Some(seconds) => seconds,
            None => DEFAULT_TIMEOUT_SECONDS,
        }
    }

    /// Validate the configuration
    pub fn validate(&self) -> (r: Result<(), Error>)
        ensures
            match r {
                Ok(_) => self.fault() is None,
                Err(e) => e matches Error::InvalidConfig(message) && self.fault() == Some(
                    message@,
                ),
            },
    {
        if blank(self.api_key.as_str()) {
            return Err(Error::InvalidConfig("API key is required".to_owned()));
        }
        if let Some(url) = &self.base_url {
            if blank(url.as_str()) {
                return Err(Error::InvalidConfig("Base URL cannot be empty".to_owned()));
            }
        }
        Ok(())
    }

    /// Get the base URL, falling back to the default if not set
    pub fn get_base_url(&self) -> (r: String)
        ensures
            r@ == self.spec_base_url(),
    {
        match &self.base_url {
            Some(url) => url.clone(),
            None => DEFAULT_BASE_URL.to_owned(),
        }
    }

    /// Get the timeout in seconds, falling back to the default if not set
    pub fn get_timeout_seconds(&self) -> (r: u64)
        ensures
            r == self.spec_timeout_seconds(),
    {
        match self.timeout_seconds {
            Some(seconds) => seconds,
            None => DEFAULT_TIMEOUT_SECONDS,
        }
    }
}

} // verus!
