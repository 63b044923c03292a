use vstd::prelude::*;
use crate::caller::SubqueryCaller;
use crate::circuit::Context;
use crate::hilo::HiLo;

verus! {

/// An input record a compute function can run on: it knows how to flatten
/// itself into the plain field values the circuit is assigned.
pub trait AxiomComputeInput: Sized {
    /// The circuit-facing encoding of the input, one field value per slot.
    fn flatten(&self) -> Vec<u64>;
}

/// A user-supplied compute function: given the proof context, the subquery
/// caller and its assigned inputs, it produces the sequence of results the
/// circuit exposes.
pub trait AxiomComputeFn: AxiomComputeInput {
    /// Runs the query logic and returns the results to expose.
    fn compute(ctx: &mut Context, caller: &mut SubqueryCaller, assigned_inputs: Vec<u64>) -> Vec<AxiomResult>;
}

/// One result of a compute function: either a two-limb value as is, or a
/// single constrained value that is widened to a pair on output.
#[derive(Clone, Copy, Debug, PartialEq, Eq, Structural)]
pub enum AxiomResult {
    HiLo(HiLo),
    AssignedValue(u64),
}

/// The pair a result is exposed as: a two-limb value as is, a single value
/// widened with a zero high limb.
pub open spec fn as_hi_lo(result: AxiomResult) -> HiLo {
    match result {
        AxiomResult::HiLo(h) => h,
        AxiomResult::AssignedValue(v) => HiLo { hi: 0, lo: v },
    }
}

/// Widens a single constrained value to a two-limb pair with a zero high
/// limb.
pub fn to_hi_lo(v: u64) -> (r: HiLo)
    ensures
        r == (HiLo { hi: 0, lo: v }),
{
    HiLo { hi: 0, lo: v }
}

/// Widens every result of a compute function to the two-limb form, keeping
/// the order.
pub fn hilo_outputs(results: Vec<AxiomResult>) -> (r: Vec<HiLo>)
    ensures
        r@.len() == results@.len(),
        forall|i: int| 0 <= i < results@.len() ==> r@[i] == as_hi_lo(results@[i]),
{
    let mut out: Vec<HiLo> = Vec::new();
    let mut i: usize = 0;
    while i < results.len()
        invariant
            i <= results@.len(),
            out@.len() == i,
            forall|j: int| 0 <= j < i ==> out@[j] == as_hi_lo(results@[j]),
        decreases results@.len() - i,
    {
        let next = match results[i] {
            AxiomResult::HiLo(h) => h,
            AxiomResult::AssignedValue(v) => to_hi_lo(v),
        };
        out.push(next);
        i = i + 1;
    }
    out
}

/// Runs a compute function against the given context and caller and appends
/// its widened results to the callback column: what was exposed before stays,
/// in place and in order.
pub fn virtual_assign_phase0<A: AxiomComputeFn>(
    ctx: &mut Context,
    caller: &mut SubqueryCaller,
    callback: &mut Vec<HiLo>,
    assigned_inputs: Vec<u64>,
)
    ensures
        final(callback)@.len() >= old(callback)@.len(),
        final(callback)@.subrange(0, old(callback)@.len() as int) == old(callback)@,
{
    let result = A::compute(ctx, caller, assigned_inputs);
    let mut hilo_output = hilo_outputs(result);
    callback.append(&mut hilo_output);
    proof {
        assert(callback@.subrange(0, old(callback)@.len() as int) =~= old(callback)@);
    }
}

/// An endpoint for the chain-data provider the external runtime fetches
/// witness data from.
pub struct Provider {
    pub endpoint: String,
}

/// The base circuit-shape parameters a circuit is built with.
pub struct CircuitParams {
    pub k: usize,
    pub num_advice_per_phase: Vec<usize>,
    pub num_fixed: usize,
    pub lookup_bits: Option<usize>,
}

/// The pinning of a compiled circuit instance: its parameters and the column
/// break points keygen settled on.
pub struct Pinning {
    pub params: CircuitParams,
    pub break_points: Vec<usize>,
}

/// A proving key, an opaque artifact of the external proving backend.
pub struct ProvingKey {
    pub bytes: Vec<u8>,
}

/// A prerequisite field that an operation needs but that was never set.
#[derive(Clone, Copy, Debug, PartialEq, Eq, Structural)]
pub enum ConfigError {
    MissingProvider,
    MissingParams,
    MissingPinning,
    MissingInput,
}

/// Everything a circuit-building operation (mock check or key generation)
/// hands to the external runtime.
pub struct CircuitPlan<'a> {
    pub provider: &'a Provider,
    pub params: &'a CircuitParams,
}

/// Everything a mock execution hands to the external runtime: the circuit
/// shape plus the flattened input, when one was set.
pub struct MockPlan<'a> {
    pub provider: &'a Provider,
    pub params: &'a CircuitParams,
    pub input: Option<Vec<u64>>,
}

/// Everything a proof-producing operation hands to the external runtime: the
/// pinned circuit, the flattened input and the proving key.
pub struct ProvePlan<'a> {
    pub provider: &'a Provider,
    pub pinning: &'a Pinning,
    pub input: Vec<u64>,
    pub pk: ProvingKey,
}

/// The configuration gate in front of the external run/keygen/prove/mock
/// operations. Each operation checks its prerequisite fields and either
/// returns the fully-gathered plan for the external runtime or says which
/// prerequisite is missing; a missing prerequisite is a misuse of the API,
/// never a runtime condition.
pub struct AxiomCompute<A: AxiomComputeFn> {
    pub provider: Option<Provider>,
    pub params: Option<CircuitParams>,
    pub pinning: Option<Pinning>,
    pub input: Option<A>,
}

impl<A: AxiomComputeFn> Default for AxiomCompute<A> {
    /// A gate with nothing configured.
    fn default() -> (r: Self)
        ensures
            r.provider is None,
            r.params is None,
            r.pinning is None,
            r.input is None,
    {
        AxiomCompute { provider: None, params: None, pinning: None, input: None }
    }
}

impl<A: AxiomComputeFn> AxiomCompute<A> {
    /// A gate with nothing configured.
    pub fn new() -> (r: Self)
        ensures
            r.provider is None,
            r.params is None,
            r.pinning is None,
            r.input is None,
    {
        AxiomCompute { provider: None, params: None, pinning: None, input: None }
    }

    /// Whether mock execution and key generation may proceed.
    pub open spec fn provider_and_params_set(self) -> bool {
        self.provider is Some && self.params is Some
    }

    /// Whether proof production may proceed.
    pub open spec fn all_set(self) -> bool {
        self.provider is Some && self.pinning is Some && self.input is Some
    }

    pub fn set_provider(&mut self, provider: Provider)
        ensures
            final(self).provider == Some(provider),
            final(self).params == old(self).params,
            final(self).pinning == old(self).pinning,
            final(self).input == old(self).input,
    {
        self.provider = Some(provider);
    }

    pub fn set_params(&mut self, params: CircuitParams)
        ensures
            final(self).params == Some(params),
            final(self).provider == old(self).provider,
            final(self).pinning == old(self).pinning,
            final(self).input == old(self).input,
    {
        self.params = Some(params);
    }

    pub fn set_inputs(&mut self, input: A)
        ensures
            final(self).input == Some(input),
            final(self).provider == old(self).provider,
            final(self).params == old(self).params,
            final(self).pinning == old(self).pinning,
    {
        self.input = Some(input);
    }

    pub fn set_pinning(&mut self, pinning: Pinning)
        ensures
            final(self).pinning == Some(pinning),
            final(self).provider == old(self).provider,
            final(self).params == old(self).params,
            final(self).input == old(self).input,
    {
        self.pinning = Some(pinning);
    }

    pub fn use_provider(self, provider: Provider) -> (r: Self)
        ensures
            r.provider == Some(provider),
            r.params == self.params,
            r.pinning == self.pinning,
            r.input == self.input,
    {
        let mut this = self;
        this.set_provider(provider);
        this
    }

    pub fn use_params(self, params: CircuitParams) -> (r: Self)
        ensures
            r.params == Some(params),
            r.provider == self.provider,
            r.pinning == self.pinning,
            r.input == self.input,
    {
        let mut this = self;
        this.set_params(params);
        this
    }

    pub fn use_inputs(self, input: A) -> (r: Self)
        ensures
            r.input == Some(input),
            r.provider == self.provider,
            r.params == self.params,
            r.pinning == self.pinning,
    {
        let mut this = self;
        this.set_inputs(input);
        this
    }

    pub fn use_pinning(self, pinning: Pinning) -> (r: Self)
        ensures
            r.pinning == Some(pinning),
            r.provider == self.provider,
            r.params == self.params,
            r.input == self.input,
    {
        let mut this = self;
        this.set_pinning(pinning);
        this
    }

    /// Gathers a mock execution: needs the provider and the circuit
    /// parameters; the input travels along when one was set.
    pub fn mock(&self) -> (r: Result<MockPlan<'_>, ConfigError>)
        ensures
            r is Ok <==> self.provider_and_params_set(),
            r matches Ok(p) ==> {
                &&& self.provider matches Some(pr) && *p.provider == pr
                &&& self.params matches Some(pa) && *p.params == pa
                &&& (p.input is Some <==> self.input is Some)
            },
            r matches Err(e) ==> e == (if self.provider is None {
                ConfigError::MissingProvider
            } else {
                ConfigError::MissingParams
            }),
    {
        match (&self.provider, &self.params) {
            (Some(provider), Some(params)) => {
                let input = match &self.input {
                    Some(a) => Some(a.flatten()),
                    None => None,
                };
                Ok(MockPlan { provider, params, input })
            },
            (None, _) => Err(ConfigError::MissingProvider),
            (Some(_), None) => Err(ConfigError::MissingParams),
        }
    }

    /// Gathers a key generation: needs the provider and the circuit
    /// parameters; no input takes part.
    pub fn keygen(&self) -> (r: Result<CircuitPlan<'_>, ConfigError>)
        ensures
            r is Ok <==> self.provider_and_params_set(),
            r matches Ok(p) ==> {
                &&& self.provider matches Some(pr) && *p.provider == pr
                &&& self.params matches Some(pa) && *p.params == pa
            },
            r matches Err(e) ==> e == (if self.provider is None {
                ConfigError::MissingProvider
            } else {
                ConfigError::MissingParams
            }),
    {
        match (&self.provider, &self.params) {
            (Some(provider), Some(params)) => Ok(CircuitPlan { provider, params }),
            (None, _) => Err(ConfigError::MissingProvider),
            (Some(_), None) => Err(ConfigError::MissingParams),
        }
    }

    /// Gathers a witness-and-proof generation around the given proving key:
    /// needs the provider, the pinning and the input.
    pub fn prove(&self, pk: ProvingKey) -> (r: Result<ProvePlan<'_>, ConfigError>)
        ensures
            r is Ok <==> self.all_set(),
            r matches Ok(p) ==> {
                &&& self.provider matches Some(pr) && *p.provider == pr
                &&& self.pinning matches Some(pi) && *p.pinning == pi
                &&& p.pk == pk
            },
            r matches Err(e) ==> e == (if self.provider is None {
                ConfigError::MissingProvider
            } else if self.pinning is None {
                ConfigError::MissingPinning
            } else {
                ConfigError::MissingInput
            }),
    {
        match (&self.provider, &self.pinning, &self.input) {
            (Some(provider), Some(pinning), Some(a)) => {
                let input = a.flatten();
                Ok(ProvePlan { provider, pinning, input, pk })
            },
            (None, _, _) => Err(ConfigError::MissingProvider),
            (Some(_), None, _) => Err(ConfigError::MissingPinning),
            (Some(_), Some(_), None) => Err(ConfigError::MissingInput),
        }
    }

    /// Gathers an end-to-end run around the given proving key: the same
    /// prerequisites and the same plan as `prove`; only the external
    /// operation performed on it differs.
    pub fn run(&self, pk: ProvingKey) -> (r: Result<ProvePlan<'_>, ConfigError>)
        ensures
            r is Ok <==> self.all_set(),
            r matches Ok(p) ==> {
                &&& self.provider matches Some(pr) && *p.provider == pr
                &&& self.pinning matches Some(pi) && *p.pinning == pi
                &&& p.pk == pk
            },
            r matches Err(e) ==> e == (if self.provider is None {
                ConfigError::MissingProvider
            } else if self.pinning is None {
                ConfigError::MissingPinning
            } else {
                ConfigError::MissingInput
            }),
    {
        match (&self.provider, &self.pinning, &self.input) {
            (Some(provider), Some(pinning), Some(a)) => {
                let input = a.flatten();
                Ok(ProvePlan { provider, pinning, input, pk })
            },
            (None, _, _) => Err(ConfigError::MissingProvider),
            (Some(_), None, _) => Err(ConfigError::MissingPinning),
            (Some(_), Some(_), None) => Err(ConfigError::MissingInput),
        }
    }

    /// Gathers a bare circuit instance: needs the provider and the circuit
    /// parameters.
    pub fn circuit(&self) -> (r: Result<CircuitPlan<'_>, ConfigError>)
        ensures
            r is Ok <==> self.provider_and_params_set(),
            r matches Ok(p) ==> {
                &&& self.provider matches Some(pr) && *p.provider == pr
                &&& self.params matches Some(pa) && *p.params == pa
            },
            r matches Err(e) ==> e == (if self.provider is None {
                ConfigError::MissingProvider
            } else {
                ConfigError::MissingParams
            }),
    {
        match (&self.provider, &self.params) {
            (Some(provider), Some(params)) => Ok(CircuitPlan { provider, params }),
            (None, _) => Err(ConfigError::MissingProvider),
            (Some(_), None) => Err(ConfigError::MissingParams),
        }
    }
}

impl From<HiLo> for AxiomResult {
    /// A two-limb value is exposed as is.
    fn from(result: HiLo) -> (r: Self) {
        AxiomResult::HiLo(result)
    }
}

impl vstd::std_specs::convert::FromSpecImpl<HiLo> for AxiomResult {
    open spec fn obeys_from_spec() -> bool {
        true
    }

    open spec fn from_spec(result: HiLo) -> Self {
        AxiomResult::HiLo(result)
    }
}

impl From<u64> for AxiomResult {
    /// A single constrained value is wrapped for later widening.
    fn from(result: u64) -> (r: Self) {
        AxiomResult::AssignedValue(result)
    }
}

impl vstd::std_specs::convert::FromSpecImpl<u64> for AxiomResult {
    open spec fn obeys_from_spec() -> bool {
        true
    }

    open spec fn from_spec(result: u64) -> Self {
        AxiomResult::AssignedValue(result)
    }
}

} // verus!
