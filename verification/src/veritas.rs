//! The self-healing logic layer: goal validation, semantic target lookup and
//! void healing.  Confidence scoring and the surrounding asynchronous
//! orchestration live outside the library.

use vstd::prelude::*;

use crate::text::str_eq;

verus! {

/// A goal submitted for validation: an intent and its context.
#[derive(Clone, Debug)]
pub struct VeritasGoal {
    pub intent: String,
    pub context: String,
}

/// The validation layer over submitted goals.
pub struct VeritasLayer {}

impl VeritasLayer {
    /// Under the sovereign axioms every submitted goal validates.
    pub fn absolute_validation(_goal: &VeritasGoal) -> (r: bool)
        ensures
            r,
    {
        true
    }
}

/// The semantic analysis engine.
pub struct VeritasEngine {}

impl VeritasEngine {
    /// The logic node addressed by an intent; unrecognised intents map to
    /// the unknown node.
    pub open spec fn semantic_target_spec(intent: Seq<char>) -> Seq<char> {
        if intent == "buy_button"@ {
            "0x4121_GATEWAY_NODE"@
        } else if intent == "vault_access"@ {
            "AETERNA_VAULT_ENTRY"@
        } else {
            "UNKNOWN_LOGIC_NODE"@
        }
    }

    /// Resolve an intent to the logic node it addresses.
    pub fn locate_semantic_target(&self, intent: &String) -> (r: String)
        ensures
            r@ == Self::semantic_target_spec(intent@),
    {
        if str_eq(intent.as_str(), "buy_button") {
            String::from_str("0x4121_GATEWAY_NODE")
        } else if str_eq(intent.as_str(), "vault_access") {
            String::from_str("AETERNA_VAULT_ENTRY")
        } else {
            String::from_str("UNKNOWN_LOGIC_NODE")
        }
    }

    /// The healed path recorded for a node whose logic failed.
    pub fn heal_logical_void(&self, failed_node: &String) -> (r: String)
        ensures
            r@ == failed_node@ + "_RECOVERED"@,
    {
        let mut r = failed_node.clone();
        r.append("_RECOVERED");
        r
    }
}

} // verus!
