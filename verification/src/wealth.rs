//! The wealth bridge's decision logic: connection state, mode selection and
//! status accounting.  The signed HTTP exchanges themselves live outside the
//! library, which only decides and reports over plain values; amounts are
//! held in integer cents.

use vstd::prelude::*;

use crate::text::{contains_pattern, contains_seq, str_eq};

verus! {

/// One asset balance reported by the exchange, as decimal strings.
#[derive(Clone, Debug)]
pub struct CryptoAsset {
    pub asset: String,
    pub free: String,
    pub locked: String,
}

/// The monthly price, in euro cents, attributed to each packaged asset when
/// reporting recurring revenue.
pub const ASSET_MONTHLY_CENTS: u128 = 4999;

/// The transaction layer's state: whether the financial gateway link has
/// been established.
pub struct WealthBridge {
    pub is_connected: bool,
}

impl WealthBridge {
    pub fn new() -> (r: Self)
        ensures
            !r.is_connected,
    {
        WealthBridge { is_connected: false }
    }

    /// A configured secret key selects real mode; an unset or placeholder
    /// key selects the sandbox.
    pub open spec fn real_mode_spec(key: Seq<char>) -> bool {
        key != "NONE"@ && !contains_seq(key, "PLACEHOLDER"@)
    }

    /// Establish the gateway link and report the selected mode.
    pub fn initialize_link(&mut self, stripe_key: &String) -> (msg: String)
        ensures
            final(self).is_connected,
            msg@ == "LINK_ESTABLISHED: AETERNA_PAYROLL_GATEWAY active. Mode: "@ + (
            if Self::real_mode_spec(stripe_key@) {
                "REAL_MODE (Direct Extraction)"@
            } else {
                "SANDBOX_MODE (Veritas Simulated)"@
            }) + ". Resonance: 0x4121."@,
    {
        let is_real = !str_eq(stripe_key.as_str(), "NONE") && !contains_pattern(
            stripe_key.as_str(),
            "PLACEHOLDER",
        );
        let mode = if is_real {
            "REAL_MODE (Direct Extraction)"
        } else {
            "SANDBOX_MODE (Veritas Simulated)"
        };
        self.is_connected = true;
        let mut msg = String::from_str("LINK_ESTABLISHED: AETERNA_PAYROLL_GATEWAY active. Mode: ");
        msg.append(mode);
        msg.append(". Resonance: 0x4121.");
        proof {
            assert(msg@ =~= "LINK_ESTABLISHED: AETERNA_PAYROLL_GATEWAY active. Mode: "@ + (
            if Self::real_mode_spec(stripe_key@) {
                "REAL_MODE (Direct Extraction)"@
            } else {
                "SANDBOX_MODE (Veritas Simulated)"@
            }) + ". Resonance: 0x4121."@);
        }
        msg
    }

    /// Report whether the gateway is online and the recurring revenue, in
    /// euro cents, for the given number of packaged assets; an offline
    /// gateway reports no revenue.  Counting the assets on disk happens
    /// outside the library.
    pub fn get_status(&self, asset_count: usize) -> (r: (bool, u128))
        ensures
            r.0 == self.is_connected,
            r.1 == (if self.is_connected {
                asset_count * 4999
            } else {
                0int
            }),
    {
        if self.is_connected {
            (true, (asset_count as u128) * ASSET_MONTHLY_CENTS)
        } else {
            (false, 0)
        }
    }
}

} // verus!
