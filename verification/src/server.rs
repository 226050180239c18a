//! Decision logic used by the serving layer: checkout-plan pricing and the
//! timing-safe comparison used when verifying webhook signatures.  The HTTP
//! plumbing itself lives outside the library.

use vstd::prelude::*;

use crate::text::str_eq;

verus! {

/// Query parameters for a payment checkout.
#[derive(Clone, Debug)]
pub struct CheckoutQuery {
    pub plan: Option<String>,
    pub email: Option<String>,
}

impl CheckoutQuery {
    /// The requested plan, or the default plan when none was given.
    pub fn plan_or_default(&self) -> (p: String)
        ensures
            p@ == (match self.plan {
                Some(s) => s@,
                None => "pro_monthly"@,
            }),
    {
        match &self.plan {
            Some(s) => s.clone(),
            None => String::from_str("pro_monthly"),
        }
    }

    /// The requesting customer, or the default address when none was given.
    pub fn email_or_default(&self) -> (e: String)
        ensures
            e@ == (match self.email {
                Some(s) => s@,
                None => "customer@aeterna.website"@,
            }),
    {
        match &self.email {
            Some(s) => s.clone(),
            None => String::from_str("customer@aeterna.website"),
        }
    }
}

/// The checkout amount, in euro cents, charged for each plan; unknown plan
/// names fall back to the monthly pro plan.
pub open spec fn plan_amount_cents_spec(plan: Seq<char>) -> int {
    if plan == "pro_monthly"@ {
        4900
    } else if plan == "pro_annual"@ {
        46800
    } else if plan == "enterprise_monthly"@ {
        19900
    } else if plan == "enterprise_annual"@ {
        190800
    } else if plan == "valuation_gate"@ {
        99900
    } else {
        4900
    }
}

/// The amount to charge for a checkout of the named plan, in euro cents.
pub fn plan_amount_cents(plan: &String) -> (c: u64)
    ensures
        c == plan_amount_cents_spec(plan@),
{
    if str_eq(plan.as_str(), "pro_monthly") {
        4900
    } else if str_eq(plan.as_str(), "pro_annual") {
        46800
    } else if str_eq(plan.as_str(), "enterprise_monthly") {
        19900
    } else if str_eq(plan.as_str(), "enterprise_annual") {
        190800
    } else if str_eq(plan.as_str(), "valuation_gate") {
        99900
    } else {
        4900
    }
}

/// Compare two strings without returning early on the first mismatch, so the
/// comparison's duration does not reveal where they differ.
pub fn constant_time_compare(a: &str, b: &str) -> (r: bool)
    ensures
        r == (a@ == b@),
{
    let n = a.unicode_len();
    if n != b.unicode_len() {
        return false;
    }
    let mut diff = false;
    let mut i: usize = 0;
    while i < n
        invariant
            i <= n,
            n == a@.len(),
            n == b@.len(),
            diff == exists|j: int| 0 <= j < i && a@[j] != b@[j],
        decreases n - i,
    {
        let ca = a.get_char(i);
        let cb = b.get_char(i);
        let ghost had = diff;
        if ca != cb {
            diff = true;
        }
        proof {
            if ca != cb {
                assert(a@[i as int] != b@[i as int]);
            }
            if diff {
                if had {
                    let j = choose|j: int| 0 <= j < i && a@[j] != b@[j];
                    assert(0 <= j < i + 1 && a@[j] != b@[j]);
                } else {
                    assert(0 <= i < i + 1 && a@[i as int] != b@[i as int]);
                }
            }
        }
        i += 1;
    }
    if diff {
        proof {
            let j = choose|j: int| 0 <= j < n && a@[j] != b@[j];
            assert(a@ != b@);
        }
        false
    } else {
        proof {
            assert(a@ =~= b@);
        }
        true
    }
}

} // verus!
