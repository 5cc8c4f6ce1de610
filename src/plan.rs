use vstd::prelude::*;
use crate::amount::{Amount, amount_at_least};
use crate::text::same_text;

verus! {

/// Storage ceiling of the free tier: 100 MiB.
pub const FREE_STORAGE_BYTES: i64 = 104_857_600;

/// Storage ceiling of the basic tier: 1 GiB.
pub const BASIC_STORAGE_BYTES: i64 = 1_073_741_824;

/// Storage ceiling of the premium tier: 5 GiB.
pub const PREMIUM_STORAGE_BYTES: i64 = 5_368_709_120;

/// Storage ceiling of the enterprise tier: 10 GiB.
pub const ENTERPRISE_STORAGE_BYTES: i64 = 10_737_418_240;

/// The sentinel storage limit that admits any upload.
pub const UNLIMITED_STORAGE: i64 = i64::MAX;

/// The sentinel document ceiling that admits any number of documents.
pub const UNLIMITED_DOCUMENTS: i32 = i32::MAX;

/// A subscription tier, ordered by entitlement: `Free < Basic < Premium < Enterprise`.
#[derive(PartialEq, Eq, Structural, Clone, Copy, Debug)]
pub enum Plan {
    Free,
    Basic,
    Premium,
    Enterprise,
}

/// The position of a plan in tier order.
pub open spec fn rank(p: Plan) -> nat {
    match p {
        Plan::Free => 0,
        Plan::Basic => 1,
        Plan::Premium => 2,
        Plan::Enterprise => 3,
    }
}

/// The storage ceiling, in bytes, that the quota policy gives a plan.
pub open spec fn storage_limit_of(p: Plan) -> i64 {
    match p {
        Plan::Free => FREE_STORAGE_BYTES,
        Plan::Basic => BASIC_STORAGE_BYTES,
        Plan::Premium => PREMIUM_STORAGE_BYTES,
        Plan::Enterprise => ENTERPRISE_STORAGE_BYTES,
    }
}

/// The document-count ceiling that the quota policy gives a plan. These
/// ceilings are this library's chosen values: 10 for the free tier, 100 for
/// basic, 1000 for premium, and no ceiling for enterprise.
pub open spec fn document_limit_of(p: Plan) -> i32 {
    match p {
        Plan::Free => 10,
        Plan::Basic => 100,
        Plan::Premium => 1000,
        Plan::Enterprise => UNLIMITED_DOCUMENTS,
    }
}

/// The stored name of a plan.
pub open spec fn plan_name(p: Plan) -> Seq<char> {
    match p {
        Plan::Free => "none"@,
        Plan::Basic => "basic"@,
        Plan::Premium => "premium"@,
        Plan::Enterprise => "enterprise"@,
    }
}

/// The plan that a stored name denotes, if any.
pub open spec fn plan_named(s: Seq<char>) -> Option<Plan> {
    if s == "none"@ {
        Some(Plan::Free)
    } else if s == "basic"@ {
        Some(Plan::Basic)
    } else if s == "premium"@ {
        Some(Plan::Premium)
    } else if s == "enterprise"@ {
        Some(Plan::Enterprise)
    } else {
        None
    }
}

/// The storage limit recorded against a paid plan name; any other name,
/// `none` included, grants no storage.
pub open spec fn paid_storage_limit_named(s: Seq<char>) -> i64 {
    if s == "basic"@ {
        BASIC_STORAGE_BYTES
    } else if s == "premium"@ {
        PREMIUM_STORAGE_BYTES
    } else if s == "enterprise"@ {
        ENTERPRISE_STORAGE_BYTES
    } else {
        0
    }
}

impl Plan {
    /// Storage ceiling of this plan, in bytes.
    pub fn storage_limit_bytes(&self) -> (r: i64)
        ensures
            r == storage_limit_of(*self),
    {
        match self {
            Plan::Free => FREE_STORAGE_BYTES,
            Plan::Basic => BASIC_STORAGE_BYTES,
            Plan::Premium => PREMIUM_STORAGE_BYTES,
            Plan::Enterprise => ENTERPRISE_STORAGE_BYTES,
        }
    }

    /// Document-count ceiling of this plan.
    pub fn document_limit(&self) -> (r: i32)
        ensures
            r == document_limit_of(*self),
    {
        match self {
            Plan::Free => 10,
            Plan::Basic => 100,
            Plan::Premium => 1000,
            Plan::Enterprise => UNLIMITED_DOCUMENTS,
        }
    }

    /// Position of this plan in tier order.
    pub fn tier(&self) -> (r: u8)
        ensures
            r as nat == rank(*self),
    {
        match self {
            Plan::Free => 0,
            Plan::Basic => 1,
            Plan::Premium => 2,
            Plan::Enterprise => 3,
        }
    }

    /// The stored name of this plan.
    pub fn name(&self) -> (r: &'static str)
        ensures
            r@ == plan_name(*self),
    {
        match self {
            Plan::Free => "none",
            Plan::Basic => "basic",
            Plan::Premium => "premium",
            Plan::Enterprise => "enterprise",
        }
    }

    /// Reads a stored plan name; unknown names give `None`.
    pub fn from_name(s: &str) -> (r: Option<Plan>)
        ensures
            r == plan_named(s@),
    {
        if same_text(s, "none") {
            Some(Plan::Free)
        } else if same_text(s, "basic") {
            Some(Plan::Basic)
        } else if same_text(s, "premium") {
            Some(Plan::Premium)
        } else if same_text(s, "enterprise") {
            Some(Plan::Enterprise)
        } else {
            None
        }
    }
}

/// Storage limit recorded when a payment names a plan: the paid tiers get
/// their ceiling and every other name gets zero bytes.
pub fn get_storage_limit_for_plan(plan: &str) -> (r: i64)
    ensures
        r == paid_storage_limit_named(plan@),
{
    if same_text(plan, "basic") {
        BASIC_STORAGE_BYTES
    } else if same_text(plan, "premium") {
        PREMIUM_STORAGE_BYTES
    } else if same_text(plan, "enterprise") {
        ENTERPRISE_STORAGE_BYTES
    } else {
        0
    }
}

/// Amount cutoffs, in whole currency units, at which a payment grants the
/// premium and the enterprise tier; below the first it grants basic.
#[derive(Debug)]
pub struct PlanThresholds {
    pub premium_min: u64,
    pub enterprise_min: u64,
}

impl PlanThresholds {
    /// The cutoffs ascend.
    pub open spec fn wf(&self) -> bool {
        self.premium_min <= self.enterprise_min
    }

    /// Builds ascending cutoffs; `None` when they are out of order.
    pub fn new(premium_min: u64, enterprise_min: u64) -> (r: Option<PlanThresholds>)
        ensures
            premium_min <= enterprise_min <==> r is Some,
            r matches Some(t) ==> t.wf() && t.premium_min == premium_min && t.enterprise_min
                == enterprise_min,
    {
        if premium_min <= enterprise_min {
            Some(PlanThresholds { premium_min, enterprise_min })
        } else {
            None
        }
    }

    /// The default cutoffs: premium from 500 units, enterprise from 1000.
    pub fn standard() -> (r: PlanThresholds)
        ensures
            r.wf(),
            r.premium_min == 500,
            r.enterprise_min == 1000,
    {
        PlanThresholds { premium_min: 500, enterprise_min: 1000 }
    }
}

/// The tier that a successful payment of `a` grants under cutoffs `t`.
pub open spec fn plan_for(t: PlanThresholds, a: Amount) -> Plan {
    if amount_at_least(a, t.enterprise_min as int) {
        Plan::Enterprise
    } else if amount_at_least(a, t.premium_min as int) {
        Plan::Premium
    } else {
        Plan::Basic
    }
}

/// The tier that a successful payment of `amount` grants.
pub fn plan_for_amount(thresholds: &PlanThresholds, amount: &Amount) -> (r: Plan)
    requires
        amount.wf(),
        amount.mantissa >= 0,
    ensures
        r == plan_for(*thresholds, *amount),
{
    if amount.at_least(thresholds.enterprise_min) {
        Plan::Enterprise
    } else if amount.at_least(thresholds.premium_min) {
        Plan::Premium
    } else {
        Plan::Basic
    }
}

/// A larger amount never grants a lower tier: for amounts with `a1 < a2`,
/// the plan of `a1` is at most the plan of `a2` in tier order.
pub proof fn lemma_plan_for_monotonic(t: PlanThresholds, a1: Amount, a2: Amount)
    requires
        a1.wf(),
        a2.wf(),
        a1.less_than(a2),
    ensures
        rank(plan_for(t, a1)) <= rank(plan_for(t, a2)),
{
    if amount_at_least(a1, t.enterprise_min as int) {
        a1.lemma_at_least_upward(a2, t.enterprise_min as int);
    } else if amount_at_least(a1, t.premium_min as int) {
        a1.lemma_at_least_upward(a2, t.premium_min as int);
    }
}

/// The mapping is total: every amount maps to one of the paid tiers, basic
/// being the lowest default.
pub proof fn lemma_plan_for_total(t: PlanThresholds, a: Amount)
    ensures
        rank(plan_for(t, a)) >= 1,
        plan_for(t, a) == Plan::Basic || plan_for(t, a) == Plan::Premium || plan_for(t, a)
            == Plan::Enterprise,
{
}

/// A higher tier never grants less storage, nor fewer documents.
pub proof fn lemma_storage_limit_monotonic(p: Plan, q: Plan)
    requires
        rank(p) <= rank(q),
    ensures
        storage_limit_of(p) <= storage_limit_of(q),
        document_limit_of(p) <= document_limit_of(q),
{
}

} // verus!
