use vstd::prelude::*;

verus! {

/// Credentials for joining an access point in station mode.
///
/// Both fields are opaque strings, supplied once and never changed. The
/// connection logic performs no validation on them: whether a network name
/// or passphrase is acceptable is the radio driver's decision alone.
#[derive(Clone, Copy, Debug)]
pub struct Config {
    pub wifi_ssid: &'static str,
    pub wifi_psk: &'static str,
}

impl Default for Config {
    /// An absent build-time configuration: both fields empty.
    fn default() -> (c: Config)
        ensures
            c.wifi_ssid@.len() == 0,
            c.wifi_psk@.len() == 0,
    {
        proof {
            reveal_strlit("");
        }
        Config { wifi_ssid: "", wifi_psk: "" }
    }
}

} // verus!
