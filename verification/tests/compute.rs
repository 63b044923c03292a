use axiom_sdk::caller::SubqueryCaller;
use axiom_sdk::circuit::Context;
use axiom_sdk::compute::{
    hilo_outputs, to_hi_lo, virtual_assign_phase0, AxiomCompute, AxiomComputeFn,
    AxiomComputeInput, AxiomResult, CircuitParams, ConfigError, Pinning, Provider, ProvingKey,
};
use axiom_sdk::hilo::HiLo;
use axiom_sdk::receipt::get_receipt;
use axiom_sdk::receipt::ReceiptField;

#[derive(Clone)]
struct StatusQuery {
    block_number: u64,
    tx_idx: u64,
}

impl AxiomComputeInput for StatusQuery {
    fn flatten(&self) -> Vec<u64> {
        vec![self.block_number, self.tx_idx]
    }
}

impl AxiomComputeFn for StatusQuery {
    fn compute(
        ctx: &mut Context,
        caller: &mut SubqueryCaller,
        assigned_inputs: Vec<u64>,
    ) -> Vec<AxiomResult> {
        let receipt = get_receipt(assigned_inputs[0], assigned_inputs[1]);
        let status = receipt.call(ctx, caller, ReceiptField::Status);
        vec![AxiomResult::from(status), AxiomResult::from(7u64)]
    }
}

fn provider() -> Provider {
    Provider { endpoint: String::from("http://localhost:8545") }
}

fn params() -> CircuitParams {
    CircuitParams { k: 12, num_advice_per_phase: vec![4], num_fixed: 1, lookup_bits: Some(11) }
}

fn pinning() -> Pinning {
    Pinning { params: params(), break_points: vec![3, 5] }
}

fn input() -> StatusQuery {
    StatusQuery { block_number: 100, tx_idx: 3 }
}

#[test]
fn mock_without_provider_is_refused() {
    let compute: AxiomCompute<StatusQuery> = AxiomCompute::new();
    let plan = compute.mock();
    assert!(matches!(plan, Err(ConfigError::MissingProvider)));
}

#[test]
fn mock_without_params_is_refused() {
    let compute: AxiomCompute<StatusQuery> = AxiomCompute::new().use_provider(provider());
    let plan = compute.mock();
    assert!(matches!(plan, Err(ConfigError::MissingParams)));
}

#[test]
fn mock_gathers_provider_params_and_input() {
    let compute: AxiomCompute<StatusQuery> =
        AxiomCompute::new().use_provider(provider()).use_params(params()).use_inputs(input());
    let plan = compute.mock().unwrap();
    assert_eq!(plan.provider.endpoint, "http://localhost:8545");
    assert_eq!(plan.params.k, 12);
    assert_eq!(plan.input, Some(vec![100, 3]));
}

#[test]
fn mock_carries_no_input_when_none_was_set() {
    let compute: AxiomCompute<StatusQuery> =
        AxiomCompute::new().use_provider(provider()).use_params(params());
    let plan = compute.mock().unwrap();
    assert_eq!(plan.input, None);
}

#[test]
fn keygen_and_circuit_need_provider_and_params() {
    let mut compute: AxiomCompute<StatusQuery> = AxiomCompute::new();
    assert!(matches!(compute.keygen(), Err(ConfigError::MissingProvider)));
    assert!(matches!(compute.circuit(), Err(ConfigError::MissingProvider)));
    compute.set_provider(provider());
    assert!(matches!(compute.keygen(), Err(ConfigError::MissingParams)));
    compute.set_params(params());
    let plan = compute.keygen().unwrap();
    assert_eq!(plan.params.num_fixed, 1);
    assert!(compute.circuit().is_ok());
}

#[test]
fn prove_and_run_check_all_prerequisites_in_order() {
    let pk = || ProvingKey { bytes: vec![1, 2, 3] };
    let mut compute: AxiomCompute<StatusQuery> = AxiomCompute::new();
    assert!(matches!(compute.prove(pk()), Err(ConfigError::MissingProvider)));
    assert!(matches!(compute.run(pk()), Err(ConfigError::MissingProvider)));
    compute.set_provider(provider());
    assert!(matches!(compute.prove(pk()), Err(ConfigError::MissingPinning)));
    compute.set_pinning(pinning());
    assert!(matches!(compute.run(pk()), Err(ConfigError::MissingInput)));
    compute.set_inputs(input());
    let plan = compute.prove(pk()).unwrap();
    assert_eq!(plan.pk.bytes, vec![1, 2, 3]);
    assert_eq!(plan.input, vec![100, 3]);
    assert_eq!(plan.pinning.break_points, vec![3, 5]);
    let run_plan = compute.run(pk()).unwrap();
    assert_eq!(run_plan.input, vec![100, 3]);
}

#[test]
fn setters_and_users_agree() {
    let chained: AxiomCompute<StatusQuery> = AxiomCompute::new()
        .use_provider(provider())
        .use_params(params())
        .use_pinning(pinning())
        .use_inputs(input());
    let mut stepped: AxiomCompute<StatusQuery> = AxiomCompute::default();
    stepped.set_provider(provider());
    stepped.set_params(params());
    stepped.set_pinning(pinning());
    stepped.set_inputs(input());
    assert_eq!(
        chained.mock().unwrap().provider.endpoint,
        stepped.mock().unwrap().provider.endpoint
    );
    assert_eq!(chained.mock().unwrap().input, stepped.mock().unwrap().input);
}

#[test]
fn single_values_widen_with_a_zero_high_limb() {
    assert_eq!(to_hi_lo(9), HiLo::from_hi_lo(0, 9));
    let outputs = hilo_outputs(vec![
        AxiomResult::from(HiLo::from_hi_lo(5, 6)),
        AxiomResult::from(42u64),
    ]);
    assert_eq!(outputs, vec![HiLo::from_hi_lo(5, 6), HiLo::from_hi_lo(0, 42)]);
}

#[test]
fn phase0_appends_widened_results_after_existing_ones() {
    let mut ctx = Context::new();
    let mut caller = SubqueryCaller::with_responses(vec![HiLo::from_hi_lo(8, 9)]);
    let mut callback = vec![HiLo::from_hi_lo(1, 1)];
    virtual_assign_phase0::<StatusQuery>(&mut ctx, &mut caller, &mut callback, vec![100, 3]);
    assert_eq!(
        callback,
        vec![HiLo::from_hi_lo(1, 1), HiLo::from_hi_lo(8, 9), HiLo::from_hi_lo(0, 7)]
    );
    assert_eq!(caller.subqueries.len(), 1);
}
