use vstd::prelude::*;

verus! {

/// anyhow's error type, carried opaque in the command's result.
#[verifier::external_type_specification]
#[verifier::external_body]
pub struct ExAnyhowError(anyhow::Error);

/// The port of the broker when none is given.
pub const DEFAULT_PORT: u16 = 7777;

/// Where the bridge sends its messages: the broker's host and port.
pub struct FrcGrafanaCli {
    pub host: String,
    pub port: u16,
}

impl FrcGrafanaCli {
    /// The settings for `host`, on the given port or else the default one.
    pub fn new(host: String, port: Option<u16>) -> (r: FrcGrafanaCli)
        ensures
            r.host == host,
            r.port == match port {
                Some(p) => p,
                None => DEFAULT_PORT,
            },
    {
        let port = match port {
            Some(p) => p,
            None => DEFAULT_PORT,
        };
        FrcGrafanaCli { host, port }
    }

    /// Runs the command; it has no work of its own and always succeeds.
    pub fn run(self) -> (r: Result<(), anyhow::Error>)
        ensures
            r is Ok,
    {
        Ok(())
    }
}

} // verus!
