//! The runner: it builds the code that calls a function of a compiled
//! program with its arguments, builtins and gas, reads the function's
//! result from the memory that the machine leaves, and tells in text how the
//! run ended.

pub mod entry_code;
pub mod result_log;
pub mod results;
pub mod short_string;

use vstd::prelude::*;
use vstd::string::*;
use crate::bigint::{decimal_digits, BigInt};
use crate::casm::instructions::{instructions_view, Instruction, InstructionBody};
use crate::compiler::{
    ap_changes_consistent,
    check_ap_changes,
    compilation_error_text,
    CairoProgram,
    CompilationError,
};
use crate::cost_token::CostTokenType;
use crate::felt::Felt252;
use crate::gas::core_libfunc_cost_expr::FutureCostVariables;
use crate::gas::solution::{calc_metadata, metadata_post, VariableValue};
use crate::metadata::{
    ap_change_error_text,
    ApChangeError,
    ApChangeInfo,
    CostError,
    GasInfo,
    Metadata,
    MetadataError,
};
use crate::runner::entry_code::{all_resolved, entry_code_post, first_unresolved_at, ret_view, type_infos};
use crate::runner::results::{
    is_outcome,
    main_return_outcome,
    no_explicit_return_post,
    panic_result_success_post,
    projection_post,
    results_data_post,
    TypedValues,
};
use crate::sierra::ids::ConcreteTypeId;
use crate::sierra::program::{Function, Program, TypeInfo};
use crate::sierra::registry::{registry_error_text, ProgramRegistry, ProgramRegistryError};
use crate::text::{ends_with, is_suffix};
use crate::token_map::TokenMap;

verus! {

/// The cost that the runner takes for one invocation of a builtin.
pub const DUMMY_BUILTIN_GAS_COST: usize = 10000;

/// Why a function could not be run.
#[derive(Clone, Debug, PartialEq, Eq)]
pub enum RunnerError {
    /// The gas at hand is less than the function needs.
    NotEnoughGasToCall,
    /// Gas was given to a function that takes no gas builtin.
    GasBuiltinRequired,
    /// The gas costs of the program could not be computed.
    FailedGasCalculation,
    /// No function of the program has a name that ends as asked.
    MissingFunction { suffix: String },
    /// The function takes another number of arguments than were given.
    ArgumentsSizeMismatch { expected: usize, actual: usize },
    ProgramRegistryError(ProgramRegistryError),
    SierraCompilationError(CompilationError),
    ApChangeError(ApChangeError),
    /// The machine failed; the text says how.
    VirtualMachineError(String),
    /// The arguments or the memory are not what a run of the function takes
    /// or leaves; the text says how.
    Other(String),
}

/// The texts of the runner's own errors.
pub open spec fn runner_error_text(error: RunnerError) -> Seq<char> {
    match error {
        RunnerError::NotEnoughGasToCall => "Not enough gas to call function."@,
        RunnerError::GasBuiltinRequired =>
            "GasBuiltin is required while `available_gas` value is provided."@,
        RunnerError::FailedGasCalculation =>
            "Failed calculating gas usage, it is likely a call for `gas::withdraw_gas` is missing."@,
        RunnerError::MissingFunction { suffix } => "Function with suffix `"@ + suffix@
            + "` to run not found."@,
        RunnerError::ArgumentsSizeMismatch { expected, actual } =>
            "Function expects arguments of size "@ + decimal_digits(expected as nat)
                + " and received "@ + decimal_digits(actual as nat) + " instead."@,
        RunnerError::ProgramRegistryError(error) => registry_error_text(error),
        RunnerError::SierraCompilationError(error) => compilation_error_text(error),
        RunnerError::ApChangeError(error) => ap_change_error_text(error),
        RunnerError::VirtualMachineError(text) => text@,
        RunnerError::Other(text) => text@,
    }
}

impl RunnerError {
    /// The text of the error.
    pub fn to_string(&self) -> (text: String)
        ensures
            text@ == runner_error_text(*self),
    {
        match self {
            RunnerError::NotEnoughGasToCall => String::from_str("Not enough gas to call function."),
            RunnerError::GasBuiltinRequired => String::from_str(
                "GasBuiltin is required while `available_gas` value is provided.",
            ),
            RunnerError::FailedGasCalculation => String::from_str(
                "Failed calculating gas usage, it is likely a call for `gas::withdraw_gas` is missing.",
            ),
            RunnerError::MissingFunction { suffix } => {
                let mut text = String::from_str("Function with suffix `");
                text.append(suffix.as_str());
                text.append("` to run not found.");
                text
            },
            RunnerError::ArgumentsSizeMismatch { expected, actual } => {
                let mut text = String::from_str("Function expects arguments of size ");
                text.append(BigInt::from_usize(*expected).to_string().as_str());
                text.append(" and received ");
                text.append(BigInt::from_usize(*actual).to_string().as_str());
                text.append(" instead.");
                text
            },
            RunnerError::ProgramRegistryError(error) => error.to_string(),
            RunnerError::SierraCompilationError(error) => error.to_string(),
            RunnerError::ApChangeError(error) => error.to_string(),
            RunnerError::VirtualMachineError(text) => text.clone(),
            RunnerError::Other(text) => text.clone(),
        }
    }
}

/// An argument to a run of a Sierra function.
#[derive(Clone, Debug, PartialEq, Eq)]
pub enum Arg {
    Value(Felt252),
    Array(Vec<Felt252>),
}

impl From<Felt252> for Arg {
    fn from(value: Felt252) -> (arg: Arg) {
        Arg::Value(value)
    }
}

impl vstd::std_specs::convert::FromSpecImpl<Felt252> for Arg {
    open spec fn obeys_from_spec() -> bool {
        true
    }

    open spec fn from_spec(value: Felt252) -> Arg {
        Arg::Value(value)
    }
}

/// The builtins of the machine, as the runner names them to it.
#[allow(non_camel_case_types)]
#[derive(Copy, Clone, Debug, Hash, PartialEq, Eq, Structural)]
pub enum BuiltinName {
    pedersen,
    range_check,
    bitwise,
    ec_op,
    poseidon,
}

/// The value that a run of a function returned.
#[derive(Clone, Debug, PartialEq, Eq)]
pub enum RunResultValue {
    /// The run ended successfully; these are the values that the function
    /// returned beside its builtins.
    Success(Vec<Felt252>),
    /// The run panicked; this is the data that the panic carried.
    Panic(Vec<Felt252>),
}

/// The weight of a token in gas: the constant cost counts once, an
/// invocation of a builtin costs `DUMMY_BUILTIN_GAS_COST`.
pub open spec fn token_weight(token: CostTokenType) -> int {
    if token == CostTokenType::Const {
        1
    } else {
        DUMMY_BUILTIN_GAS_COST as int
    }
}

/// The gas that one token of the costs of a function stands for.
pub open spec fn token_gas(costs: TokenMap<i64>, token: CostTokenType) -> int {
    match costs.spec_get(token) {
        Some(value) => value * token_weight(token),
        None => 0,
    }
}

/// The gas that a function needs before it is called.
pub open spec fn required_gas(costs: TokenMap<i64>) -> int {
    token_gas(costs, CostTokenType::Const) + token_gas(costs, CostTokenType::Step) + token_gas(
        costs,
        CostTokenType::Hole,
    ) + token_gas(costs, CostTokenType::RangeCheck) + token_gas(costs, CostTokenType::Pedersen)
        + token_gas(costs, CostTokenType::Bitwise) + token_gas(costs, CostTokenType::EcOp)
}

fn gas_of_token(costs: &TokenMap<i64>, token: CostTokenType) -> (gas: u128)
    requires
        crate::metadata::non_negative(*costs),
    ensures
        gas == token_gas(*costs, token),
        gas <= 0x7fff_ffff_ffff_ffff * 10000,
{
    match costs.get(token) {
        Some(value) => {
            let weight: u128 = match token {
                CostTokenType::Const => 1,
                _ => DUMMY_BUILTIN_GAS_COST as u128,
            };
            (*value as u128) * weight
        },
        None => 0,
    }
}

/// Whether the name of a function ends with the suffix. A function without
/// a name does not.
pub open spec fn name_ends_with(function: Function, suffix: Seq<char>) -> bool {
    function.id.debug_name matches Some(name) && is_suffix(suffix, name@)
}

/// The place `i` holds the first function whose name ends with the suffix.
pub open spec fn first_match_at(funcs: Seq<Function>, suffix: Seq<char>, i: int) -> bool {
    &&& 0 <= i < funcs.len()
    &&& name_ends_with(funcs[i], suffix)
    &&& forall|k: int| 0 <= k < i ==> !name_ends_with(#[trigger] funcs[k], suffix)
}

/// The data that a contract keeps between calls: the values of its storage.
#[derive(Clone, Debug, PartialEq, Eq)]
pub struct StarknetState {
    /// For each written cell of the storage, the contract, the address in
    /// its storage, and the value.
    pub storage: Vec<(Felt252, Felt252, Felt252)>,
}

/// The full result of a run.
#[derive(Debug, PartialEq, Eq)]
pub struct RunResult {
    pub gas_counter: Option<Felt252>,
    pub memory: Vec<Option<Felt252>>,
    pub value: RunResultValue,
    pub starknet_state: StarknetState,
}

/// Runner enabling running a Sierra program on the machine.
pub struct SierraCasmRunner {
    /// The registry of the Sierra program; it holds the program.
    sierra_program_registry: ProgramRegistry,
    /// The metadata of the Sierra program.
    metadata: Metadata,
    /// The CASM program that the Sierra program was lowered to.
    casm_program: CairoProgram,
}

/// What the metadata of a program of which gas is counted are computed
/// with: the values of the gas variables that the solver found for the two
/// passes of the gas analysis.
#[derive(Clone, Debug, PartialEq, Eq)]
pub struct MetadataComputationConfig {
    pub precost_solution: Vec<VariableValue>,
    pub postcost_solution: Vec<VariableValue>,
}

/// What `create_metadata` returns. With a configuration, the metadata are
/// those of the two solutions, which are checked against the registry's
/// program: an error of the changes of `ap` is handed on, an error of the
/// costs says that the gas calculation failed. Without one, the metadata hold
/// the changes of `ap` and no gas costs.
pub open spec fn create_metadata_post(
    ap_changes: Result<ApChangeInfo, ApChangeError>,
    metadata_config: Option<(&ProgramRegistry, MetadataComputationConfig)>,
    res: Result<Metadata, RunnerError>,
) -> bool {
    match metadata_config {
        Some((registry, config)) => match res {
            Ok(metadata) => metadata_post(
                registry,
                &FutureCostVariables {},
                ap_changes,
                config.precost_solution@,
                config.postcost_solution@,
                Ok(metadata),
            ),
            Err(RunnerError::ApChangeError(error)) => metadata_post(
                registry,
                &FutureCostVariables {},
                ap_changes,
                config.precost_solution@,
                config.postcost_solution@,
                Err(MetadataError::ApChangeError(error)),
            ),
            Err(RunnerError::FailedGasCalculation) => exists|error: CostError|
                #[trigger] metadata_post(
                    registry,
                    &FutureCostVariables {},
                    ap_changes,
                    config.precost_solution@,
                    config.postcost_solution@,
                    Err(MetadataError::CostError(error)),
                ),
            Err(_) => false,
        },
        None => match ap_changes {
            Ok(info) => res matches Ok(metadata) && metadata.ap_change_info == info
                && metadata.gas_info.spec_function_costs().len() == 0
                && metadata.gas_info.spec_variable_values().len() == 0,
            Err(error) => res == Err::<Metadata, RunnerError>(RunnerError::ApChangeError(error)),
        },
    }
}

/// Creates the metadata of a program from the changes of `ap` that were
/// found for it: with a configuration, with the gas costs of the solutions of
/// the gas analysis of the registry's program; without one, without gas
/// costs.
pub fn create_metadata(
    ap_changes: Result<ApChangeInfo, ApChangeError>,
    metadata_config: Option<(&ProgramRegistry, MetadataComputationConfig)>,
) -> (res: Result<Metadata, RunnerError>)
    ensures
        create_metadata_post(ap_changes, metadata_config, res),
{
    match metadata_config {
        Some((registry, config)) => {
            let future = FutureCostVariables {};
            match calc_metadata(
                registry,
                &future,
                ap_changes,
                config.precost_solution,
                config.postcost_solution,
            ) {
                Ok(metadata) => Ok(metadata),
                Err(MetadataError::ApChangeError(error)) => Err(RunnerError::ApChangeError(error)),
                Err(MetadataError::CostError(error)) => {
                    assert(metadata_post(
                        registry,
                        &FutureCostVariables {},
                        ap_changes,
                        config.precost_solution@,
                        config.postcost_solution@,
                        Err(MetadataError::CostError(error)),
                    ));
                    Err(RunnerError::FailedGasCalculation)
                },
            }
        },
        None => match ap_changes {
            Ok(info) => Ok(Metadata { ap_change_info: info, gas_info: GasInfo::empty() }),
            Err(error) => Err(RunnerError::ApChangeError(error)),
        },
    }
}

/// The cells of the segment of builtin costs that the runner fills before a
/// run: for each pre-cost token, its slot and the cost of one invocation.
pub fn builtin_cost_segment() -> (cells: Vec<(usize, usize)>)
    ensures
        cells@.len() == CostTokenType::precost_tokens().len(),
        forall|i: int|
            0 <= i < cells@.len() ==> (#[trigger] cells@[i]).0
                == CostTokenType::precost_tokens()[i].spec_offset_in_builtin_costs()
                && cells@[i].1 == DUMMY_BUILTIN_GAS_COST,
{
    let tokens = CostTokenType::iter_precost();
    let mut cells: Vec<(usize, usize)> = Vec::new();
    let mut i: usize = 0;
    while i < tokens.len()
        invariant
            i <= tokens.len(),
            tokens@ == CostTokenType::precost_tokens(),
            forall|t: CostTokenType| t.is_precost() <==> tokens@.contains(t),
            cells@.len() == i,
            forall|k: int|
                0 <= k < i ==> (#[trigger] cells@[k]).0
                    == CostTokenType::precost_tokens()[k].spec_offset_in_builtin_costs()
                    && cells@[k].1 == DUMMY_BUILTIN_GAS_COST,
        decreases tokens.len() - i,
    {
        let token = tokens[i];
        cells.push((token.offset_in_builtin_costs() as usize, DUMMY_BUILTIN_GAS_COST));
        i = i + 1;
    }
    cells
}

impl SierraCasmRunner {
    /// The code of every statement changes `ap` as the metadata say.
    #[verifier::type_invariant]
    spec fn consistent(self) -> bool {
        ap_changes_consistent(self.casm_program, self.metadata.ap_change_info)
    }

    /// The registry of the Sierra program.
    pub closed spec fn spec_registry(self) -> ProgramRegistry {
        self.sierra_program_registry
    }

    /// The metadata of the Sierra program.
    pub closed spec fn spec_metadata(self) -> Metadata {
        self.metadata
    }

    /// The CASM program that the Sierra program was lowered to.
    pub closed spec fn spec_casm_program(self) -> CairoProgram {
        self.casm_program
    }

    /// The Sierra program.
    pub open spec fn spec_program(self) -> Program {
        self.spec_registry().spec_program()
    }

    /// The registry of the Sierra program.
    pub fn registry(&self) -> (registry: &ProgramRegistry)
        ensures
            *registry == self.spec_registry(),
    {
        &self.sierra_program_registry
    }

    /// The metadata of the Sierra program, which the code agrees with: the
    /// code of every statement for which they give a change of `ap` changes `ap`
    /// by as much.
    pub fn metadata(&self) -> (metadata: &Metadata)
        ensures
            *metadata == self.spec_metadata(),
            ap_changes_consistent(self.spec_casm_program(), metadata.ap_change_info),
    {
        proof {
            use_type_invariant(self);
        }
        &self.metadata
    }

    /// The CASM program that the Sierra program was lowered to.
    pub fn casm_program(&self) -> (program: &CairoProgram)
        ensures
            *program == self.spec_casm_program(),
            ap_changes_consistent(*program, self.spec_metadata().ap_change_info),
    {
        proof {
            use_type_invariant(self);
        }
        &self.casm_program
    }

    /// A runner for a Sierra program, with the metadata that were computed for
    /// it and the CASM program that it was lowered to. The program has to
    /// declare each function, type and libfunc once, and the code has to change
    /// `ap` as the metadata say.
    pub fn new(sierra_program: Program, metadata: Metadata, casm_program: CairoProgram) -> (res:
        Result<SierraCasmRunner, RunnerError>)
        ensures
            res is Ok <==> ProgramRegistry::valid_program(sierra_program) && ap_changes_consistent(
                casm_program,
                metadata.ap_change_info,
            ),
            res matches Ok(runner) ==> runner.spec_program() == sierra_program && runner.spec_metadata()
                == metadata && runner.spec_casm_program() == casm_program,
            res matches Err(error) ==> if ProgramRegistry::valid_program(sierra_program) {
                error == RunnerError::SierraCompilationError(
                    CompilationError::CostValidationMismatch,
                )
            } else {
                error matches RunnerError::ProgramRegistryError(inner)
                    && ProgramRegistry::build_error(sierra_program, inner)
            },
    {
        match ProgramRegistry::new(sierra_program) {
            Ok(sierra_program_registry) => {
                if !check_ap_changes(&casm_program, &metadata.ap_change_info) {
                    return Err(
                        RunnerError::SierraCompilationError(
                            CompilationError::CostValidationMismatch,
                        ),
                    );
                }
                Ok(SierraCasmRunner { sierra_program_registry, metadata, casm_program })
            },
            Err(error) => Err(RunnerError::ProgramRegistryError(error)),
        }
    }

    /// Finds the first function whose name ends with `name_suffix`.
    pub fn find_function(&self, name_suffix: &str) -> (res: Result<&Function, RunnerError>)
        ensures
            match res {
                Ok(function) => exists|i: int|
                    #[trigger] first_match_at(self.spec_program().funcs@, name_suffix@, i)
                        && self.spec_program().funcs@[i] == *function,
                Err(error) => error matches RunnerError::MissingFunction { suffix } && suffix@
                    == name_suffix@ && forall|k: int|
                    0 <= k < self.spec_program().funcs@.len() ==> !name_ends_with(
                        #[trigger] self.spec_program().funcs@[k],
                        name_suffix@,
                    ),
            },
    {
        let funcs = &self.sierra_program_registry.program().funcs;
        let mut i: usize = 0;
        while i < funcs.len()
            invariant
                i <= funcs.len(),
                *funcs == self.spec_program().funcs,
                forall|k: int| 0 <= k < i ==> !name_ends_with(#[trigger] funcs@[k], name_suffix@),
            decreases funcs.len() - i,
        {
            let found = match &funcs[i].id.debug_name {
                Some(name) => ends_with(name.as_str(), name_suffix),
                None => false,
            };
            if found {
                assert(first_match_at(funcs@, name_suffix@, i as int));
                return Ok(&funcs[i]);
            }
            i = i + 1;
        }
        Err(RunnerError::MissingFunction { suffix: name_suffix.to_owned() })
    }

    /// What is declared of the type `ty`.
    pub fn get_info(&self, ty: &ConcreteTypeId) -> (res: Result<&TypeInfo, RunnerError>)
        ensures
            match res {
                Ok(info) => self.spec_registry().spec_get_type(ty.id) == Some(*info)
                    && info.size >= 0,
                Err(error) => self.spec_registry().spec_get_type(ty.id) is None && error
                    == RunnerError::ProgramRegistryError(ProgramRegistryError::MissingType(*ty)),
            },
    {
        match self.sierra_program_registry.get_type(ty) {
            Ok(info) => Ok(info),
            Err(error) => Err(RunnerError::ProgramRegistryError(error)),
        }
    }

    /// The offset of the code of a function in the code of the program, if
    /// the function's entry point is a statement of the program.
    pub open spec fn spec_entry_offset(self, func: Function) -> Option<usize> {
        let infos = self.spec_casm_program().debug_info.sierra_statement_info@;
        if func.entry_point.0 < infos.len() {
            Some(infos[func.entry_point.0 as int].code_offset)
        } else {
            None
        }
    }

    /// Returns the instructions to add to the beginning of the code to
    /// successfully call the function, as well as the builtins required to
    /// execute the program.
    pub fn create_entry_code(&self, func: &Function, args: &[Arg], initial_gas: usize) -> (res:
        Result<(Vec<Instruction>, Vec<BuiltinName>), RunnerError>)
        ensures
            entry_code_post(
                self.spec_registry(),
                func.signature.param_types@,
                args@,
                initial_gas,
                self.spec_entry_offset(*func),
                res,
            ),
    {
        let statement_info = &self.casm_program.debug_info.sierra_statement_info;
        let entry_offset = if func.entry_point.0 < statement_info.len() {
            Some(statement_info[func.entry_point.0].code_offset)
        } else {
            None
        };
        crate::runner::entry_code::create_entry_code(
            &self.sierra_program_registry,
            &func.signature.param_types,
            args,
            initial_gas,
            entry_offset,
        )
    }

    /// The initial value for the gas counter: what is left of the available
    /// gas once the function's cost is taken from it. It is zero where no gas
    /// costs were solved for the program, and where no gas is available. A
    /// function whose costs are not known is an error, and so is available gas
    /// below the gas that the function needs.
    pub open spec fn spec_initial_gas(self, func: Function, available_gas: Option<usize>) -> Result<
        usize,
        RunnerError,
    > {
        if self.spec_metadata().gas_info.spec_function_costs().len() == 0 {
            Ok(0usize)
        } else {
            match available_gas {
                None => Ok(0usize),
                Some(available) => match self.spec_metadata().gas_info.spec_costs_of(func.id.id) {
                    None => Err(
                        RunnerError::ProgramRegistryError(
                            ProgramRegistryError::MissingFunction(func.id),
                        ),
                    ),
                    Some(costs) => if required_gas(costs) <= available {
                        Ok((available - required_gas(costs)) as usize)
                    } else {
                        Err(RunnerError::NotEnoughGasToCall)
                    },
                },
            }
        }
    }

    /// Returns the initial value for the gas counter.
    pub fn get_initial_available_gas(&self, func: &Function, available_gas: Option<usize>) -> (res:
        Result<usize, RunnerError>)
        ensures
            res == self.spec_initial_gas(*func, available_gas),
    {
        if self.metadata.gas_info.has_no_function_costs() {
            return Ok(0);
        }
        let available_gas = match available_gas {
            Some(available_gas) => available_gas,
            None => {
                return Ok(0);
            },
        };
        let costs = match self.metadata.gas_info.costs_of(&func.id) {
            Some(costs) => costs,
            None => {
                return Err(
                    RunnerError::ProgramRegistryError(
                        ProgramRegistryError::MissingFunction(func.id.duplicate()),
                    ),
                );
            },
        };
        let required_gas: u128 = gas_of_token(costs, CostTokenType::Const) + gas_of_token(
            costs,
            CostTokenType::Step,
        ) + gas_of_token(costs, CostTokenType::Hole) + gas_of_token(
            costs,
            CostTokenType::RangeCheck,
        ) + gas_of_token(costs, CostTokenType::Pedersen) + gas_of_token(
            costs,
            CostTokenType::Bitwise,
        ) + gas_of_token(costs, CostTokenType::EcOp);
        if required_gas <= available_gas as u128 {
            Ok(available_gas - required_gas as usize)
        } else {
            Err(RunnerError::NotEnoughGasToCall)
        }
    }

    /// Creates a list of instructions that will be appended to the program's
    /// bytecode: a `ret`, for the libfuncs that read the registers `fp` and
    /// `pc`.
    pub fn create_code_footer(&self) -> (footer: Vec<Instruction>)
        ensures
            instructions_view(footer@) == seq![ret_view()],
    {
        let mut footer: Vec<Instruction> = Vec::new();
        footer.push(Instruction::new(InstructionBody::Ret, false));
        footer
    }

    /// Returns the final values and type of all `func`s returning variables.
    pub fn get_results_data(&self, func: &Function, cells: &[Option<Felt252>], ap: usize) -> (res:
        Result<Vec<TypedValues>, RunnerError>)
        ensures
            results_data_post(
                self.spec_registry(),
                func.signature.ret_types@,
                cells@,
                ap,
                res,
            ),
    {
        crate::runner::results::get_results_data(
            &self.sierra_program_registry,
            &func.signature.ret_types,
            cells,
            ap,
        )
    }
}

/// What the machine is to run: the entry code, the builtins, the footer, and
/// the initial gas that the entry code hands to the function.
#[derive(Debug, PartialEq, Eq)]
pub struct RunPlan {
    pub entry_code: Vec<Instruction>,
    pub builtins: Vec<BuiltinName>,
    pub footer: Vec<Instruction>,
    pub initial_gas: usize,
}

/// Whether one of the types is the gas builtin.
pub open spec fn has_gas_builtin(infos: Seq<TypeInfo>) -> bool {
    exists|i: int| 0 <= i < infos.len() && (#[trigger] infos[i]).long_id.generic_id.name@
        == "GasBuiltin"@
}

impl SierraCasmRunner {
    /// Handling the main return value to create a `RunResultValue`.
    pub fn handle_main_return_value(
        &self,
        ty: ConcreteTypeId,
        values: Vec<Felt252>,
        cells: &[Option<Felt252>],
    ) -> (res: Result<RunResultValue, RunnerError>)
        ensures
            match self.spec_registry().spec_get_type(ty.id) {
                None => res == Err::<RunResultValue, RunnerError>(
                    RunnerError::ProgramRegistryError(ProgramRegistryError::MissingType(ty)),
                ),
                Some(info) => is_outcome(
                    main_return_outcome(self.spec_registry(), info, values@, cells@),
                    res,
                ),
            },
    {
        match self.get_info(&ty) {
            Err(error) => Err(error),
            Ok(info) => crate::runner::results::handle_main_return_value(
                &self.sierra_program_registry,
                info,
                values,
                cells,
            ),
        }
    }

    /// Whether the function takes the gas builtin, if the types of its
    /// parameters are declared.
    fn takes_gas_builtin(&self, func: &Function) -> (res: Result<bool, RunnerError>)
        ensures
            match res {
                Ok(takes) => all_resolved(self.spec_registry(), func.signature.param_types@)
                    && takes == has_gas_builtin(
                    type_infos(self.spec_registry(), func.signature.param_types@),
                ),
                Err(error) => error matches RunnerError::ProgramRegistryError(
                    ProgramRegistryError::MissingType(id),
                ) && exists|j: int|
                    first_unresolved_at(
                        self.spec_registry(),
                        func.signature.param_types@,
                        j,
                    ) && #[trigger] func.signature.param_types@[j] == id,
            },
    {
        let types = &func.signature.param_types;
        let ghost infos = type_infos(self.spec_registry(), types@);
        let mut takes = false;
        let mut i: usize = 0;
        while i < types.len()
            invariant
                i <= types.len(),
                *types == func.signature.param_types,
                infos == type_infos(self.spec_registry(), types@),
                all_resolved(self.spec_registry(), types@.take(i as int)),
                takes == has_gas_builtin(infos.take(i as int)),
            decreases types.len() - i,
        {
            match self.sierra_program_registry.get_type(&types[i]) {
                Err(error) => {
                    return Err(RunnerError::ProgramRegistryError(error));
                },
                Ok(info) => {
                    if info.long_id.generic_id.is("GasBuiltin") {
                        takes = true;
                    }
                    proof {
                        let next = types@.take(i as int + 1);
                        let prev = types@.take(i as int);
                        let next_infos = infos.take(i as int + 1);
                        let prev_infos = infos.take(i as int);
                        if has_gas_builtin(prev_infos) {
                            let w = choose|k: int|
                                0 <= k < prev_infos.len() && (
                                #[trigger] prev_infos[k]).long_id.generic_id.name@ == "GasBuiltin"@;
                        }
                        if info.long_id.generic_id.name@ == "GasBuiltin"@ {
                            assert(next_infos[i as int] == *info);
                        }
                        if has_gas_builtin(next_infos) {
                            let w = choose|k: int|
                                0 <= k < next_infos.len() && (
                                #[trigger] next_infos[k]).long_id.generic_id.name@ == "GasBuiltin"@;
                        }
                    }
                },
            }
            i = i + 1;
        }
        proof {
            assert(types@.take(i as int) =~= types@);
            assert(infos.take(i as int) =~= infos);
        }
        Ok(takes)
    }

    /// What `prepare_run` returns. First the initial gas is computed; its
    /// errors are handed on. Then, where gas is available, a function with a
    /// parameter type that is not declared, and one that does not take the gas
    /// builtin, are errors. Then the entry code is built with the initial gas.
    pub open spec fn prepare_post(
        self,
        func: Function,
        args: Seq<Arg>,
        available_gas: Option<usize>,
        res: Result<RunPlan, RunnerError>,
    ) -> bool {
        let registry = self.spec_registry();
        let types = func.signature.param_types@;
        match self.spec_initial_gas(func, available_gas) {
            Err(error) => res == Err::<RunPlan, RunnerError>(error),
            Ok(initial_gas) => if available_gas is Some && !all_resolved(registry, types) {
                res matches Err(
                    RunnerError::ProgramRegistryError(ProgramRegistryError::MissingType(id)),
                ) && exists|j: int|
                    first_unresolved_at(registry, types, j) && #[trigger] types[j] == id
            } else if available_gas is Some && !has_gas_builtin(type_infos(registry, types)) {
                res == Err::<RunPlan, RunnerError>(RunnerError::GasBuiltinRequired)
            } else {
                match res {
                    Ok(plan) => plan.initial_gas == initial_gas && instructions_view(plan.footer@)
                        == seq![ret_view()] && entry_code_post(
                        registry,
                        types,
                        args,
                        initial_gas,
                        self.spec_entry_offset(func),
                        Ok((plan.entry_code, plan.builtins)),
                    ),
                    Err(error) => entry_code_post(
                        registry,
                        types,
                        args,
                        initial_gas,
                        self.spec_entry_offset(func),
                        Err(error),
                    ),
                }
            },
        }
    }

    /// The first part of a run of a function: what is to be run. The cost of
    /// the function is taken from the available gas before the run begins.
    pub fn prepare_run(&self, func: &Function, args: &[Arg], available_gas: Option<usize>) -> (res:
        Result<RunPlan, RunnerError>)
        ensures
            self.prepare_post(*func, args@, available_gas, res),
    {
        let initial_gas = match self.get_initial_available_gas(func, available_gas) {
            Ok(initial_gas) => initial_gas,
            Err(error) => {
                return Err(error);
            },
        };
        if available_gas.is_some() {
            match self.takes_gas_builtin(func) {
                Err(error) => {
                    return Err(error);
                },
                Ok(takes) => {
                    if !takes {
                        return Err(RunnerError::GasBuiltinRequired);
                    }
                },
            }
        }
        match self.create_entry_code(func, args, initial_gas) {
            Ok((entry_code, builtins)) => {
                let footer = self.create_code_footer();
                Ok(RunPlan { entry_code, builtins, footer, initial_gas })
            },
            Err(error) => Err(error),
        }
    }

    /// The second part of a run of a function: the result, read from the
    /// memory `cells` that the machine left, with the final `ap`.
    pub fn complete_run(
        &self,
        func: &Function,
        cells: Vec<Option<Felt252>>,
        ap: usize,
        starknet_state: StarknetState,
    ) -> (res: Result<RunResult, RunnerError>)
        ensures
            projection_post(
                self.spec_registry(),
                func.signature.ret_types@,
                cells@,
                ap,
                starknet_state,
                res,
            ),
            no_explicit_return_post(
                self.spec_registry(),
                func.signature.ret_types@,
                cells@,
                ap,
                res,
            ),
            panic_result_success_post(
                self.spec_registry(),
                func.signature.ret_types@,
                cells@,
                ap,
                res,
            ),
    {
        crate::runner::results::project_results(
            &self.sierra_program_registry,
            &func.signature.ret_types,
            cells,
            ap,
            starknet_state,
        )
    }
}

/// Whether a libfunc of the given generic name takes or gives back gas.
pub open spec fn is_gas_libfunc_name(name: Seq<char>) -> bool {
    name == "withdraw_gas"@ || name == "withdraw_gas_all"@ || name == "get_gas_all"@ || name
        == "redeposit_gas"@
}

/// Whether a program declares a libfunc that takes or gives back gas.
pub open spec fn uses_gas(program: Program) -> bool {
    exists|i: int|
        0 <= i < program.libfunc_declarations@.len() && is_gas_libfunc_name(
            (#[trigger] program.libfunc_declarations@[i]).long_id.generic_id.name@,
        )
}

/// The text of the error for a program that counts gas and is given none.
pub open spec fn gas_counter_text() -> Seq<char> {
    "Program requires gas counter, please provide `--available_gas` argument."@
}

/// Checks that a program that takes or gives back gas is given gas to run
/// with.
pub fn check_gas_counter(program: &Program, available_gas: Option<usize>) -> (res: Result<
    (),
    RunnerError,
>)
    ensures
        match res {
            Ok(_) => available_gas is Some || !uses_gas(*program),
            Err(error) => available_gas is None && uses_gas(*program) && (
            error matches RunnerError::Other(text) && text@ == gas_counter_text()),
        },
{
    if available_gas.is_some() {
        return Ok(());
    }
    let decls = &program.libfunc_declarations;
    let mut i: usize = 0;
    while i < decls.len()
        invariant
            i <= decls.len(),
            available_gas is None,
            *decls == program.libfunc_declarations,
            forall|k: int|
                0 <= k < i ==> !is_gas_libfunc_name(
                    (#[trigger] decls@[k]).long_id.generic_id.name@,
                ),
        decreases decls.len() - i,
    {
        let name = &decls[i].long_id.generic_id.name;
        if *name == "withdraw_gas".to_owned() || *name == "withdraw_gas_all".to_owned() || *name
            == "get_gas_all".to_owned() || *name == "redeposit_gas".to_owned() {
            return Err(
                RunnerError::Other(
                    String::from_str(
                        "Program requires gas counter, please provide `--available_gas` argument.",
                    ),
                ),
            );
        }
        i = i + 1;
    }
    Ok(())
}

} // verus!
