//! Device lifecycle state and the fixed answers to host HID requests.

use vstd::prelude::*;

verus! {

/// Identifies the report a host request is about.
#[derive(Clone, Copy, PartialEq, Eq, Structural, Debug)]
pub enum ReportId {
    In(u8),
    Out(u8),
    Feature(u8),
}

/// The answer to a host SET_REPORT request.
#[derive(Clone, Copy, PartialEq, Eq, Structural, Debug)]
pub enum SetReportResponse {
    Accepted,
    Rejected,
}

/// Device lifecycle handler: tracks the single process-wide "configured"
/// flag.  It starts false and every lifecycle callback but `configured`
/// clears it; nothing else writes it.
pub struct Dh {
    pub configured: bool,
}

impl Dh {
    pub fn new() -> (d: Dh)
        ensures
            !d.configured,
    {
        Dh { configured: false }
    }

    /// The bus enabled or disabled the device; either way it is no longer
    /// configured.
    pub fn enabled(&mut self, device_enabled: bool)
        ensures
            !final(self).configured,
    {
        let _ = device_enabled;
        self.configured = false;
    }

    /// Bus reset: the device is no longer configured.
    pub fn reset(&mut self)
        ensures
            !final(self).configured,
    {
        self.configured = false;
    }

    /// The host assigned an address; the device is not yet configured.
    pub fn addressed(&mut self, addr: u8)
        ensures
            !final(self).configured,
    {
        let _ = addr;
        self.configured = false;
    }

    /// The host configured or deconfigured the device.
    pub fn configured(&mut self, device_configured: bool)
        ensures
            final(self).configured == device_configured,
    {
        self.configured = device_configured;
    }
}

/// Request handler: answers every host-originated report and idle-rate
/// request with the fixed, no-op reply.  GET requests answer "no data
/// available"; SET requests are acknowledged without applying any state.
pub struct Rh {}

impl Rh {
    pub fn new() -> (r: Rh) {
        Rh {  }
    }

    /// GET_REPORT: no data is ever available, whatever the id; any report
    /// buffer the transport offers is left untouched.
    pub fn get_report(&mut self, id: ReportId) -> (r: Option<usize>)
        ensures
            r is None,
    {
        let _ = id;
        None
    }

    /// SET_REPORT: acknowledged without applying the data, whatever the id.
    pub fn set_report(&mut self, id: ReportId, data: &[u8]) -> (r: SetReportResponse)
        ensures
            r is Accepted,
    {
        let _ = id;
        let _ = data;
        SetReportResponse::Accepted
    }

    /// GET_IDLE: no idle rate is ever reported.
    pub fn get_idle_ms(&mut self, id: Option<ReportId>) -> (r: Option<u32>)
        ensures
            r is None,
    {
        let _ = id;
        None
    }

    /// SET_IDLE: acknowledged silently; the requested rate is never applied.
    pub fn set_idle_ms(&mut self, id: Option<ReportId>, duration_ms: u32)
        ensures
            *final(self) == *old(self),
    {
        let _ = id;
        let _ = duration_ms;
    }
}

} // verus!
