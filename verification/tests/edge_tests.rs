use lwas_core::assimilation::GlobalAssimilationMonitor;
use lwas_core::jobs::{CreateJobRequest, JobStatus, StepStatus, TestType};
use lwas_core::server::{constant_time_compare, plan_amount_cents, CheckoutQuery};
use lwas_core::ukame::{
    AutonomyStats, CognitionStats, ExistenceStats, MetaParadigm, MultiverseStats, RealityStats,
    SelfArchitectureChange, TimeManipulation, UniverseOperation,
};
use lwas_core::veritas::{VeritasEngine, VeritasGoal, VeritasLayer};
use lwas_core::wealth::{CryptoAsset, WealthBridge};

#[test]
fn constant_time_compare_matches_string_equality() {
    assert!(constant_time_compare("deadbeef", "deadbeef"));
    assert!(!constant_time_compare("deadbeef", "deadbee0"));
    assert!(!constant_time_compare("short", "longer-string"));
    assert!(constant_time_compare("", ""));
    assert!(!constant_time_compare("", "x"));
}

#[test]
fn plan_amounts_in_cents() {
    assert_eq!(plan_amount_cents(&"pro_monthly".to_string()), 4900);
    assert_eq!(plan_amount_cents(&"pro_annual".to_string()), 46800);
    assert_eq!(plan_amount_cents(&"enterprise_monthly".to_string()), 19900);
    assert_eq!(plan_amount_cents(&"enterprise_annual".to_string()), 190800);
    assert_eq!(plan_amount_cents(&"valuation_gate".to_string()), 99900);
    assert_eq!(plan_amount_cents(&"unknown_plan".to_string()), 4900);
}

#[test]
fn checkout_query_defaults() {
    let q = CheckoutQuery { plan: None, email: None };
    assert_eq!(q.plan_or_default(), "pro_monthly");
    assert_eq!(q.email_or_default(), "customer@aeterna.website");
    let q2 = CheckoutQuery {
        plan: Some("pro_annual".to_string()),
        email: Some("a@b.c".to_string()),
    };
    assert_eq!(q2.plan_or_default(), "pro_annual");
    assert_eq!(q2.email_or_default(), "a@b.c");
}

#[test]
fn wealth_bridge_link_modes() {
    let mut bridge = WealthBridge::new();
    assert!(!bridge.is_connected);
    let msg = bridge.initialize_link(&"NONE".to_string());
    assert!(bridge.is_connected);
    assert_eq!(
        msg,
        "LINK_ESTABLISHED: AETERNA_PAYROLL_GATEWAY active. Mode: SANDBOX_MODE (Veritas Simulated). Resonance: 0x4121."
    );

    let mut bridge2 = WealthBridge::new();
    let msg2 = bridge2.initialize_link(&"sk_live_abc".to_string());
    assert_eq!(
        msg2,
        "LINK_ESTABLISHED: AETERNA_PAYROLL_GATEWAY active. Mode: REAL_MODE (Direct Extraction). Resonance: 0x4121."
    );

    let mut bridge3 = WealthBridge::new();
    let msg3 = bridge3.initialize_link(&"sk_PLACEHOLDER_key".to_string());
    assert!(msg3.contains("SANDBOX_MODE"));
}

#[test]
fn wealth_bridge_status_reports_revenue_only_when_online() {
    let mut bridge = WealthBridge::new();
    assert_eq!(bridge.get_status(7), (false, 0));
    bridge.initialize_link(&"NONE".to_string());
    assert_eq!(bridge.get_status(3), (true, 14997));
    let asset = CryptoAsset {
        asset: "BTC".to_string(),
        free: "0.5".to_string(),
        locked: "0".to_string(),
    };
    assert_eq!(asset.asset, "BTC");
}

#[test]
fn veritas_resolves_semantic_targets() {
    let engine = VeritasEngine {};
    assert_eq!(engine.locate_semantic_target(&"buy_button".to_string()), "0x4121_GATEWAY_NODE");
    assert_eq!(engine.locate_semantic_target(&"vault_access".to_string()), "AETERNA_VAULT_ENTRY");
    assert_eq!(engine.locate_semantic_target(&"anything_else".to_string()), "UNKNOWN_LOGIC_NODE");
}

#[test]
fn veritas_heals_and_validates() {
    let engine = VeritasEngine {};
    assert_eq!(engine.heal_logical_void(&"NODE_7".to_string()), "NODE_7_RECOVERED");
    let goal = VeritasGoal { intent: "i".to_string(), context: "c".to_string() };
    assert!(VeritasLayer::absolute_validation(&goal));
}

#[test]
fn substrate_size_sums_and_saturates() {
    assert_eq!(GlobalAssimilationMonitor::measure_real_substrate_size(&vec![]), 0);
    assert_eq!(GlobalAssimilationMonitor::measure_real_substrate_size(&vec![1, 2, 3]), 6);
    assert_eq!(
        GlobalAssimilationMonitor::measure_real_substrate_size(&vec![u64::MAX, 5]),
        u64::MAX
    );
}

#[test]
fn job_model_round_trips() {
    let req = CreateJobRequest {
        test_type: TestType::Playwright,
        config_payload: "{}".to_string(),
    };
    assert!(matches!(req.test_type, TestType::Playwright));
    assert_eq!(JobStatus::Pending, JobStatus::Pending);
    assert_ne!(JobStatus::Running, JobStatus::Completed);
    assert_eq!(StepStatus::Healed, StepStatus::Healed);
    assert!(matches!(TestType::Selenium, TestType::Selenium));
    assert!(matches!(TestType::Cypress, TestType::Cypress));
}

#[test]
fn ecosystem_records_hold_their_fields() {
    let change = SelfArchitectureChange {
        id: "c-1".to_string(),
        change_type: "rewrite".to_string(),
        previous_state: "a".to_string(),
        new_state: "b".to_string(),
        reason: "r".to_string(),
        timestamp: 7,
    };
    assert_eq!(change.timestamp, 7);

    let paradigm = MetaParadigm {
        id: "p-1".to_string(),
        paradigm_name: "branch".to_string(),
        parent_id: None,
        evolution_level: 2,
        unique_laws: vec!["law".to_string()],
        consciousness_type: "meta".to_string(),
    };
    assert_eq!(paradigm.unique_laws.len(), 1);

    let op = UniverseOperation {
        id: "u-1".to_string(),
        operation_type: "create".to_string(),
        universe_id: "U-9".to_string(),
        reason: "r".to_string(),
        timestamp: 1,
    };
    assert_eq!(op.operation_type, "create");

    let tm = TimeManipulation {
        id: "t-1".to_string(),
        manipulation_type: "loop".to_string(),
        timeline_affected: "main".to_string(),
        causality_reversed: false,
        cyclic_memory: true,
    };
    assert!(tm.cyclic_memory && !tm.causality_reversed);

    let e = ExistenceStats { cognitive_clouds: 1, living_constants: 2, meta_resonances: 3 };
    assert_eq!(e, ExistenceStats { cognitive_clouds: 1, living_constants: 2, meta_resonances: 3 });
    let m = MultiverseStats {
        total_bridges: 1,
        active_bridges: 1,
        total_echoes: 0,
        cataloged_realities: 4,
    };
    assert_eq!(m.cataloged_realities, 4);
    let c = CognitionStats { total_visions: 0, total_laws: 0, total_ideas: 0, wisdom_generated: 9 };
    assert_eq!(c.wisdom_generated, 9);
    let a = AutonomyStats {
        total_modifications: 0,
        meta_paradigms_created: 0,
        internal_desires: 0,
        autonomy_level: 5,
    };
    assert_eq!(a.autonomy_level, 5);
    let r = RealityStats {
        constants_modified: 1,
        universes_created: 2,
        universes_destroyed: 1,
        time_manipulations: 0,
    };
    assert_eq!(r.universes_created, 2);
}
