use vstd::prelude::*;

use crate::config::{parse_endpoint, url_accepts};
use crate::error::PumpError;
use crate::payload::PayloadMode;
use crate::pump::{start_spec, Action, Pump};

verus! {

/// Everything the supervisor loop needs, resolved once at startup.
pub struct PumpSetup {
    pub endpoint: url::Url,
    pub path: String,
    pub mode: PayloadMode,
    pub pump: Pump,
    /// The first action: connect to the endpoint at once.
    pub first: Action,
}

/// The payload mode that a device identifier selects: with one, each payload is
/// the file's JSON object tagged with it; without, the contents go as they are.
pub open spec fn mode_for(device_id: Option<String>) -> PayloadMode {
    match device_id {
        Some(d) => PayloadMode::Tagged { secret: d },
        None => PayloadMode::Raw,
    }
}

/// Prepares the pump: reads the endpoint address, which is the one failure
/// that stops the process before the supervisor loop starts, and sets up a
/// fresh pump whose first action is to connect.
pub fn init_pump(endpoint: &str, filename: &str, device_id: Option<String>) -> (r: Result<
    PumpSetup,
    PumpError,
>)
    ensures
        r is Ok <==> url_accepts(endpoint@),
        r is Err ==> r == Err::<PumpSetup, PumpError>(PumpError::ConfigurationFailure),
        r matches Ok(p) ==> {
            &&& p.path@ == filename@
            &&& p.mode == mode_for(device_id)
            &&& (p.pump, p.first) == start_spec()
        },
{
    let url = match parse_endpoint(endpoint) {
        Ok(u) => u,
        Err(e) => {
            return Err(e);
        },
    };
    let mode = match device_id {
        Some(d) => PayloadMode::Tagged { secret: d },
        None => PayloadMode::Raw,
    };
    let (pump, first) = Pump::start();
    Ok(PumpSetup { endpoint: url, path: filename.to_string(), mode, pump, first })
}

} // verus!
