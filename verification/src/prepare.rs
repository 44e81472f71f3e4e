//! Building a transaction that is not signed yet: what it carries, from the
//! contract and the typed-in arguments, and what the chain has to say before
//! it is complete.

use crate::abi::{describe_params, param_list_text, AbiFunction, AbiParam, ValueKind};
use crate::codec::{
    abi_encode, abi_encoding, argument_models, arguments_ok, function_selector, kinds_of, models,
    parse_arguments, short_signature, ArgModel, ArgValue, CodecError,
};
use crate::contract::{
    contract_bytecode, parse_contract_json, ContractDescriptor, ContractDocument, ContractError,
    ContractModel,
};
use crate::descriptor::{FeeStrategy, UnsignedTransaction};
use crate::fees::{
    base_fee_of, dynamic_fees, gas_limit_or_default, max_fee, reported_base_fee, DEFAULT_GAS_LIMIT,
    PRIORITY_FEE,
};
use crate::hexcodec::{decode, encode, hex_bytes, hex_text, is_hex_text};
use crate::primitives::{
    address_digits, is_address_text, join_bytes, parse_address, Address,
};
use crate::text::{join_text, decimal, decimal_text};
use vstd::prelude::*;
use vstd::string::StringExecFns;

verus! {

/// What a preparation is asked to do.
#[derive(Debug, Clone, PartialEq, Eq)]
pub struct PrepareParams {
    pub contract: String,
    pub rpc_url: String,
    pub from: String,
    pub to: Option<String>,
    pub function_name: Option<String>,
    pub args: Option<String>,
    pub value: String,
    pub output: String,
    pub gas_limit: Option<u64>,
}

/// What a preparation hands back.
#[derive(Debug, Clone, PartialEq, Eq)]
pub struct PrepareResult {
    pub unsigned_tx: UnsignedTransaction,
    pub success: bool,
    pub message: String,
}

/// What a transaction is for: to deploy the contract, or to call a function
/// of a deployed one.
#[derive(Debug, Clone, PartialEq, Eq)]
pub enum Intent {
    Deploy { args: Option<String> },
    Call { to: String, function: String, args: Option<String> },
}

/// Why no transaction was prepared.
#[derive(Debug, Clone, PartialEq, Eq)]
pub enum PrepareError {
    /// The compiler's output describes no contract.
    Contract(ContractError),
    /// A contract's address was given without a function, or a function
    /// without an address.
    IncompleteTarget,
    /// The contract's address is no address; holds it as given.
    InvalidContractAddress { address: String },
    /// The interface has no function of this name.
    FunctionNotFound { name: String },
    /// The arguments do not fit the parameters of the function, or of the
    /// constructor where `function` is `None`.
    Arguments { function: Option<String>, error: CodecError },
    /// The function, or the constructor where `function` is `None`, takes
    /// parameters, and no arguments were given. `parameters` lists them.
    MissingArguments { function: Option<String>, count: usize, parameters: String },
    /// Arguments were given, and the contract has no constructor.
    NoConstructor,
    /// The bytecode is not written in hexadecimal.
    InvalidBytecode,
    /// The sender's address is no address.
    InvalidSender,
    /// The endpoint could not be reached.
    ConnectionFailed,
    /// The chain did not tell its id.
    ChainIdUnavailable,
    /// The chain did not tell the sender's transaction count.
    NonceUnavailable,
    /// The chain told neither its fee history nor a gas price.
    GasPriceUnavailable,
    /// Twice the base fee and the priority fee is more than 64 bits hold.
    FeeOverflow,
    /// The reply answers another question than the one that was asked.
    UnexpectedReply,
}

/// What a transaction carries: the contract it calls, or none for a
/// deployment, and its data.
#[derive(Debug, Clone, PartialEq, Eq)]
pub struct Payload {
    pub to: Option<Address>,
    pub data: Vec<u8>,
}

/// The intent that a contract's address and a function's name express: a
/// call where both are given, a deployment where neither is.
pub open spec fn intent_of(
    to: Option<String>,
    function_name: Option<String>,
    args: Option<String>,
) -> Option<Intent> {
    match (to, function_name) {
        (Some(to), Some(function)) => Some(Intent::Call { to, function, args }),
        (None, None) => Some(Intent::Deploy { args }),
        _ => None,
    }
}

impl PrepareParams {
    /// What the transaction is for. A contract's address and a function's
    /// name go together: one without the other is refused.
    pub fn intent(&self) -> (r: Result<Intent, PrepareError>)
        ensures
            match intent_of(self.to, self.function_name, self.args) {
                Some(intent) => r == Ok::<Intent, PrepareError>(intent),
                None => r == Err::<Intent, PrepareError>(PrepareError::IncompleteTarget),
            },
    {
        let args = copy_text(&self.args);
        match (&self.to, &self.function_name) {
            (Some(to), Some(function)) => Ok(
                Intent::Call { to: to.clone(), function: function.clone(), args },
            ),
            (None, None) => Ok(Intent::Deploy { args }),
            _ => Err(PrepareError::IncompleteTarget),
        }
    }
}

fn copy_text(text: &Option<String>) -> (r: Option<String>)
    ensures
        r == *text,
{
    match text {
        Some(t) => Some(t.clone()),
        None => None,
    }
}

/// The view of an optional text.
pub open spec fn text_of(text: Option<String>) -> Option<Seq<char>> {
    match text {
        Some(t) => Some(t@),
        None => None,
    }
}

/// The data of a call of `function` with the arguments `args`: the
/// function's selector, then the encoded arguments. Without arguments there
/// is such data only for a function without parameters.
pub open spec fn call_data(function: AbiFunction, args: Option<Seq<char>>) -> Option<Seq<u8>> {
    match args {
        Some(text) => if arguments_ok(function.inputs@, text) {
            Some(
                function_selector(function.name@, kinds_of(function.inputs@)) + abi_encoding(
                    argument_models(function.inputs@, text),
                ),
            )
        } else {
            None
        },
        None => if function.inputs@.len() == 0 {
            Some(
                function_selector(function.name@, Seq::<ValueKind>::empty())
                    + abi_encoding(Seq::<ArgModel>::empty()),
            )
        } else {
            None
        },
    }
}

/// The data of a deployment of `contract` with the arguments `args`: the
/// bytecode, then the encoded arguments where some were given. Arguments
/// need a constructor; without arguments the constructor, if there is one,
/// has no parameters.
pub open spec fn deployment_data(contract: ContractModel, args: Option<Seq<char>>) -> Option<
    Seq<u8>,
> {
    match args {
        Some(text) => match contract.abi.constructor {
            Some(inputs) => if arguments_ok(inputs@, text) && is_hex_text(contract.bytecode) {
                Some(hex_bytes(contract.bytecode) + abi_encoding(argument_models(inputs@, text)))
            } else {
                None
            },
            None => None,
        },
        None => if constructor_arity(contract) == 0 && is_hex_text(contract.bytecode) {
            Some(hex_bytes(contract.bytecode))
        } else {
            None
        },
    }
}

/// The number of parameters of the contract's constructor; none where it has
/// no constructor.
pub open spec fn constructor_arity(contract: ContractModel) -> nat {
    match contract.abi.constructor {
        Some(inputs) => inputs@.len(),
        None => 0,
    }
}

impl PrepareError {
    /// Whether this error says that the arguments `args` do not fit
    /// `params`, the parameters of `function` or, where that is `None`, of
    /// the constructor.
    pub open spec fn refuses_arguments(
        self,
        function: Option<Seq<char>>,
        params: Seq<AbiParam>,
        args: Option<Seq<char>>,
    ) -> bool {
        match args {
            Some(text) => self matches PrepareError::Arguments { function: of, error } && text_of(of)
                == function && error.explains(params, text),
            None => self matches PrepareError::MissingArguments { function: of, count, parameters }
                && text_of(of) == function && count == params.len() && parameters@ == param_list_text(
                params,
            ),
        }
    }
}

fn arguments_error(function: Option<&String>, params: &Vec<AbiParam>) -> (e: PrepareError)
    ensures
        e.refuses_arguments(
            match function {
                Some(name) => Some(name@),
                None => None,
            },
            params@,
            None,
        ),
{
    let of = match function {
        Some(name) => Some(name.clone()),
        None => None,
    };
    PrepareError::MissingArguments {
        function: of,
        count: params.len(),
        parameters: describe_params(params),
    }
}

/// The data of a call of `function` with the arguments `args`.
pub fn encode_call(function: &AbiFunction, args: &Option<String>) -> (r: Result<Vec<u8>, PrepareError>)
    ensures
        match call_data(*function, text_of(*args)) {
            Some(data) => r matches Ok(d) && d@ == data,
            None => r matches Err(e) && e.refuses_arguments(
                Some(function.name@),
                function.inputs@,
                text_of(*args),
            ),
        },
{
    match args {
        Some(text) => match parse_arguments(text.as_str(), &function.inputs) {
            Ok(read) => {
                let selector = short_signature(function.name.as_str(), &read.kinds);
                let encoded = abi_encode(&read.values);
                Ok(join_bytes(selector.as_slice(), encoded.as_slice()))
            },
            Err(error) => Err(
                PrepareError::Arguments { function: Some(function.name.clone()), error },
            ),
        },
        None => if function.inputs.len() == 0 {
            let kinds: Vec<ValueKind> = Vec::new();
            let values: Vec<ArgValue> = Vec::new();
            let selector = short_signature(function.name.as_str(), &kinds);
            let encoded = abi_encode(&values);
            proof {
                assert(models(values@) =~= Seq::<ArgModel>::empty());
            }
            Ok(join_bytes(selector.as_slice(), encoded.as_slice()))
        } else {
            Err(arguments_error(Some(&function.name), &function.inputs))
        },
    }
}

impl PrepareError {
    /// Whether this error says why `contract` cannot be deployed with the
    /// arguments `args`. Looked for in this order: arguments without a
    /// constructor, arguments that do not fit or are missing, bytecode that
    /// is not hexadecimal.
    pub open spec fn refuses_deployment(self, contract: ContractModel, args: Option<Seq<char>>) -> bool {
        match (args, contract.abi.constructor) {
            (Some(text), None) => self == PrepareError::NoConstructor,
            (Some(text), Some(inputs)) => if arguments_ok(inputs@, text) {
                self == PrepareError::InvalidBytecode
            } else {
                self.refuses_arguments(None, inputs@, args)
            },
            (None, Some(inputs)) => if inputs@.len() == 0 {
                self == PrepareError::InvalidBytecode
            } else {
                self.refuses_arguments(None, inputs@, args)
            },
            (None, None) => self == PrepareError::InvalidBytecode,
        }
    }
}

/// The data of a deployment of `contract` with the arguments `args`.
pub fn encode_deployment(contract: &ContractDescriptor, args: &Option<String>) -> (r: Result<
    Vec<u8>,
    PrepareError,
>)
    ensures
        match deployment_data(contract@, text_of(*args)) {
            Some(data) => r matches Ok(d) && d@ == data,
            None => r matches Err(e) && e.refuses_deployment(contract@, text_of(*args)),
        },
{
    match args {
        Some(text) => match &contract.abi.constructor {
            Some(inputs) => match parse_arguments(text.as_str(), inputs) {
                Ok(read) => match decode(contract.bytecode.as_str()) {
                    Some(code) => {
                        let encoded = abi_encode(&read.values);
                        Ok(join_bytes(code.as_slice(), encoded.as_slice()))
                    },
                    None => Err(PrepareError::InvalidBytecode),
                },
                Err(error) => Err(PrepareError::Arguments { function: None, error }),
            },
            None => Err(PrepareError::NoConstructor),
        },
        None => {
            match &contract.abi.constructor {
                Some(inputs) => {
                    if inputs.len() != 0 {
                        return Err(arguments_error(None, inputs));
                    }
                },
                None => {},
            }
            match decode(contract.bytecode.as_str()) {
                Some(code) => Ok(code),
                None => Err(PrepareError::InvalidBytecode),
            }
        },
    }
}

/// The data of the transaction that `intent` asks for from `contract`. A
/// call needs a contract's address and a function that the interface names.
pub open spec fn payload_data(contract: ContractModel, intent: Intent) -> Option<Seq<u8>> {
    match intent {
        Intent::Deploy { args } => deployment_data(contract, text_of(args)),
        Intent::Call { to, function, args } => if is_address_text(to@) && contract.abi.has_function(
            function@,
        ) {
            call_data(contract.abi.named(function@), text_of(args))
        } else {
            None
        },
    }
}

impl PrepareError {
    /// Whether this error says why `contract` has no transaction for
    /// `intent`. For a call the reasons are looked for in this order: the
    /// address, the function, the arguments.
    pub open spec fn refuses_payload(self, contract: ContractModel, intent: Intent) -> bool {
        match intent {
            Intent::Deploy { args } => self.refuses_deployment(contract, text_of(args)),
            Intent::Call { to, function, args } => if !is_address_text(to@) {
                self matches PrepareError::InvalidContractAddress { address } && address@ == to@
            } else if !contract.abi.has_function(function@) {
                self matches PrepareError::FunctionNotFound { name } && name@ == function@
            } else {
                self.refuses_arguments(
                    Some(function@),
                    contract.abi.named(function@).inputs@,
                    text_of(args),
                )
            },
        }
    }
}

impl Payload {
    /// Whether the payload is the one that `intent` asks for from
    /// `contract`: no target for a deployment, the given address for a call.
    pub open spec fn answers(self, contract: ContractModel, intent: Intent) -> bool {
        &&& Some(self.data@) == payload_data(contract, intent)
        &&& match intent {
            Intent::Deploy { .. } => self.to is None,
            Intent::Call { to, .. } => self.to matches Some(address) && address.bytes@ == hex_bytes(
                address_digits(to@),
            ),
        }
    }
}

/// What the transaction for `intent` carries.
pub fn build_payload(contract: &ContractDescriptor, intent: &Intent) -> (r: Result<Payload, PrepareError>)
    ensures
        r is Ok <==> payload_data(contract@, *intent) is Some,
        r matches Ok(payload) ==> payload.answers(contract@, *intent),
        r matches Err(e) ==> e.refuses_payload(contract@, *intent),
{
    match intent {
        Intent::Deploy { args } => match encode_deployment(contract, args) {
            Ok(data) => Ok(Payload { to: None, data }),
            Err(e) => Err(e),
        },
        Intent::Call { to, function, args } => {
            let target = match parse_address(to.as_str()) {
                Some(address) => address,
                None => {
                    return Err(PrepareError::InvalidContractAddress { address: to.clone() });
                },
            };
            let called = match contract.abi.function(function.as_str()) {
                Some(f) => f,
                None => {
                    return Err(PrepareError::FunctionNotFound { name: function.clone() });
                },
            };
            match encode_call(called, args) {
                Ok(data) => Ok(Payload { to: Some(target), data }),
                Err(e) => Err(e),
            }
        },
    }
}

/// All that a transaction needs before the chain is asked.
#[derive(Debug, Clone, PartialEq, Eq)]
pub struct Plan {
    pub payload: Payload,
    pub from: String,
    pub value: String,
    pub rpc_url: String,
    pub gas_limit: u64,
}

/// Lays out the transaction that `params` asks for from the contract that
/// `document` describes. The gas limit is the one asked for, or the default.
pub fn plan(document: ContractDocument, params: &PrepareParams) -> (r: Result<Plan, PrepareError>)
    ensures
        match contract_bytecode(document) {
            Err(e) => r == Err::<Plan, PrepareError>(PrepareError::Contract(e)),
            Ok(code) => match intent_of(params.to, params.function_name, params.args) {
                None => r == Err::<Plan, PrepareError>(PrepareError::IncompleteTarget),
                Some(intent) => {
                    let contract = ContractModel { bytecode: code, abi: document->abi->Described_0 };
                    &&& r is Ok <==> payload_data(contract, intent) is Some
                    &&& r matches Err(e) ==> e.refuses_payload(contract, intent)
                    &&& r matches Ok(p) ==> {
                        &&& p.payload.answers(contract, intent)
                        &&& p.from == params.from
                        &&& p.value == params.value
                        &&& p.rpc_url == params.rpc_url
                        &&& p.gas_limit == match params.gas_limit {
                            Some(limit) => limit,
                            None => DEFAULT_GAS_LIMIT,
                        }
                    }
                },
            },
        },
{
    let contract = match parse_contract_json(document) {
        Ok(contract) => contract,
        Err(e) => {
            return Err(PrepareError::Contract(e));
        },
    };
    let intent = match params.intent() {
        Ok(intent) => intent,
        Err(e) => {
            return Err(e);
        },
    };
    match build_payload(&contract, &intent) {
        Ok(payload) => Ok(
            Plan {
                payload,
                from: params.from.clone(),
                value: params.value.clone(),
                rpc_url: params.rpc_url.clone(),
                gas_limit: gas_limit_or_default(params.gas_limit),
            },
        ),
        Err(e) => Err(e),
    }
}

/// A question to the chain's endpoint.
#[derive(Debug, Clone, Copy, PartialEq, Eq)]
pub enum RpcRequest {
    /// Reach the endpoint.
    Connect,
    /// The chain's id.
    ChainId,
    /// The number of transactions that the address has sent.
    TransactionCount { address: Address },
    /// The base fees of the latest block.
    FeeHistory,
    /// The price of gas.
    GasPrice,
}

/// What the endpoint answered.
#[derive(Debug, Clone, PartialEq, Eq)]
pub enum RpcReply {
    Connected,
    ChainId(u64),
    TransactionCount(u64),
    /// The base fees that the history lists, the oldest first.
    FeeHistory(Vec<u64>),
    GasPrice(u64),
    /// The question went unanswered.
    Failure,
}

/// How far a preparation has come: what it waits for, and what it has
/// learned so far.
#[derive(Debug, Clone, Copy, PartialEq, Eq)]
pub enum Stage {
    Connecting,
    FetchingChainId { sender: Address },
    FetchingNonce { sender: Address, chain_id: u64 },
    FetchingFeeHistory { chain_id: u64, nonce: u64 },
    FetchingGasPrice { chain_id: u64, nonce: u64 },
}

/// Where a reply leads.
#[derive(Debug, Clone, PartialEq, Eq)]
pub enum Step {
    /// On to the next question.
    Next(Stage),
    /// The transaction is complete.
    Ready(UnsignedTransaction),
    /// The preparation has failed.
    Failed(PrepareError),
}

/// The question that is asked at `stage`. The chain is asked for its id, then
/// for the sender's transaction count, then for its fee history, and for a
/// gas price only where it has no fee history.
pub open spec fn request_at(stage: Stage) -> RpcRequest {
    match stage {
        Stage::Connecting => RpcRequest::Connect,
        Stage::FetchingChainId { .. } => RpcRequest::ChainId,
        Stage::FetchingNonce { sender, .. } => RpcRequest::TransactionCount { address: sender },
        Stage::FetchingFeeHistory { .. } => RpcRequest::FeeHistory,
        Stage::FetchingGasPrice { .. } => RpcRequest::GasPrice,
    }
}

/// The question to ask at `stage`.
pub fn request(stage: Stage) -> (r: RpcRequest)
    ensures
        r == request_at(stage),
{
    match stage {
        Stage::Connecting => RpcRequest::Connect,
        Stage::FetchingChainId { .. } => RpcRequest::ChainId,
        Stage::FetchingNonce { sender, .. } => RpcRequest::TransactionCount { address: sender },
        Stage::FetchingFeeHistory { .. } => RpcRequest::FeeHistory,
        Stage::FetchingGasPrice { .. } => RpcRequest::GasPrice,
    }
}

impl Plan {
    /// Whether `tx` is the transaction of this plan on the chain `chain_id`,
    /// with the transaction count `nonce` and the fees `fees`.
    pub open spec fn prepared(self, tx: UnsignedTransaction, chain_id: u64, nonce: u64, fees: FeeStrategy) -> bool {
        &&& text_of(tx.to) == match self.payload.to {
            Some(address) => Some(address.text()),
            None => None,
        }
        &&& tx.data@ == hex_text(self.payload.data@)
        &&& tx.nonce == nonce
        &&& tx.gas_limit == self.gas_limit
        &&& (tx.gas_price, tx.max_fee_per_gas, tx.max_priority_fee_per_gas) == fees.fields()
        &&& tx.chain_id == chain_id
        &&& tx.value == self.value
        &&& tx.rpc_url == self.rpc_url
    }

    /// The transaction of this plan.
    pub fn assemble(&self, chain_id: u64, nonce: u64, fees: FeeStrategy) -> (tx: UnsignedTransaction)
        ensures
            self.prepared(tx, chain_id, nonce, fees),
            tx.fees() == Some(fees),
    {
        let to = match &self.payload.to {
            Some(address) => Some(address.to_text()),
            None => None,
        };
        let (gas_price, max_fee_per_gas, max_priority_fee_per_gas) = match fees {
            FeeStrategy::Legacy { gas_price } => (Some(gas_price), None, None),
            FeeStrategy::Dynamic { max_fee_per_gas, max_priority_fee_per_gas } => (
                None,
                Some(max_fee_per_gas),
                Some(max_priority_fee_per_gas),
            ),
        };
        UnsignedTransaction {
            to,
            data: encode(self.payload.data.as_slice()),
            nonce,
            gas_limit: self.gas_limit,
            gas_price,
            max_fee_per_gas,
            max_priority_fee_per_gas,
            chain_id,
            value: self.value.clone(),
            rpc_url: self.rpc_url.clone(),
        }
    }

    /// Whether `step` is where `reply` leads from `stage`. Each question has
    /// its answer; an answer to another question fails the preparation. A
    /// fee history gives the fees of twice its base fee and the priority
    /// fee; without one the chain is asked for a gas price.
    pub open spec fn follows(self, stage: Stage, reply: RpcReply, step: Step) -> bool {
        match (stage, reply) {
            (Stage::Connecting, RpcReply::Connected) => if is_address_text(self.from@) {
                step matches Step::Next(Stage::FetchingChainId { sender }) && sender.bytes@
                    == hex_bytes(address_digits(self.from@))
            } else {
                step == Step::Failed(PrepareError::InvalidSender)
            },
            (Stage::Connecting, RpcReply::Failure) => step == Step::Failed(
                PrepareError::ConnectionFailed,
            ),
            (Stage::FetchingChainId { sender }, RpcReply::ChainId(chain_id)) => step == Step::Next(
                Stage::FetchingNonce { sender, chain_id },
            ),
            (Stage::FetchingChainId { .. }, RpcReply::Failure) => step == Step::Failed(
                PrepareError::ChainIdUnavailable,
            ),
            (Stage::FetchingNonce { chain_id, .. }, RpcReply::TransactionCount(nonce)) => step
                == Step::Next(Stage::FetchingFeeHistory { chain_id, nonce }),
            (Stage::FetchingNonce { .. }, RpcReply::Failure) => step == Step::Failed(
                PrepareError::NonceUnavailable,
            ),
            (Stage::FetchingFeeHistory { chain_id, nonce }, RpcReply::FeeHistory(history)) => {
                let offered = max_fee(reported_base_fee(history@) as nat);
                if offered <= u64::MAX {
                    step matches Step::Ready(tx) && self.prepared(
                        tx,
                        chain_id,
                        nonce,
                        FeeStrategy::Dynamic {
                            max_fee_per_gas: offered as u64,
                            max_priority_fee_per_gas: PRIORITY_FEE,
                        },
                    )
                } else {
                    step == Step::Failed(PrepareError::FeeOverflow)
                }
            },
            (Stage::FetchingFeeHistory { chain_id, nonce }, RpcReply::Failure) => step == Step::Next(
                Stage::FetchingGasPrice { chain_id, nonce },
            ),
            (Stage::FetchingGasPrice { chain_id, nonce }, RpcReply::GasPrice(gas_price)) => step matches Step::Ready(
                tx,
            ) && self.prepared(tx, chain_id, nonce, FeeStrategy::Legacy { gas_price }),
            (Stage::FetchingGasPrice { .. }, RpcReply::Failure) => step == Step::Failed(
                PrepareError::GasPriceUnavailable,
            ),
            _ => step == Step::Failed(PrepareError::UnexpectedReply),
        }
    }

    /// Takes the endpoint's reply to the question of `stage`.
    pub fn advance(&self, stage: Stage, reply: RpcReply) -> (step: Step)
        ensures
            self.follows(stage, reply, step),
    {
        match (stage, reply) {
            (Stage::Connecting, RpcReply::Connected) => match parse_address(self.from.as_str()) {
                Some(sender) => Step::Next(Stage::FetchingChainId { sender }),
                None => Step::Failed(PrepareError::InvalidSender),
            },
            (Stage::Connecting, RpcReply::Failure) => Step::Failed(PrepareError::ConnectionFailed),
            (Stage::FetchingChainId { sender }, RpcReply::ChainId(chain_id)) => Step::Next(
                Stage::FetchingNonce { sender, chain_id },
            ),
            (Stage::FetchingChainId { .. }, RpcReply::Failure) => Step::Failed(
                PrepareError::ChainIdUnavailable,
            ),
            (Stage::FetchingNonce { chain_id, .. }, RpcReply::TransactionCount(nonce)) => Step::Next(
                Stage::FetchingFeeHistory { chain_id, nonce },
            ),
            (Stage::FetchingNonce { .. }, RpcReply::Failure) => Step::Failed(
                PrepareError::NonceUnavailable,
            ),
            (Stage::FetchingFeeHistory { chain_id, nonce }, RpcReply::FeeHistory(history)) => {
                match dynamic_fees(base_fee_of(&history)) {
                    Some(fees) => Step::Ready(self.assemble(chain_id, nonce, fees)),
                    None => Step::Failed(PrepareError::FeeOverflow),
                }
            },
            (Stage::FetchingFeeHistory { chain_id, nonce }, RpcReply::Failure) => Step::Next(
                Stage::FetchingGasPrice { chain_id, nonce },
            ),
            (Stage::FetchingGasPrice { chain_id, nonce }, RpcReply::GasPrice(gas_price)) => Step::Ready(
                self.assemble(chain_id, nonce, FeeStrategy::Legacy { gas_price }),
            ),
            (Stage::FetchingGasPrice { .. }, RpcReply::Failure) => Step::Failed(
                PrepareError::GasPriceUnavailable,
            ),
            _ => Step::Failed(PrepareError::UnexpectedReply),
        }
    }
}

/// A transaction that a preparation completes names exactly one way to pay,
/// never a gas price beside a greatest fee, and names a target exactly where
/// the plan has one.
pub proof fn lemma_ready_is_well_formed(plan: Plan, stage: Stage, reply: RpcReply, tx: UnsignedTransaction)
    requires
        plan.follows(stage, reply, Step::Ready(tx)),
    ensures
        tx.wf(),
        tx.gas_price is Some != tx.max_fee_per_gas is Some,
        tx.to is Some <==> plan.payload.to is Some,
{
}

/// Over a base fee `B` the greatest fee of a prepared transaction is twice
/// `B` and the priority fee, and its greatest priority fee is the priority
/// fee.
pub proof fn lemma_fee_formula(plan: Plan, chain_id: u64, nonce: u64, history: Vec<u64>, tx: UnsignedTransaction)
    requires
        plan.follows(
            Stage::FetchingFeeHistory { chain_id, nonce },
            RpcReply::FeeHistory(history),
            Step::Ready(tx),
        ),
    ensures
        tx.max_fee_per_gas == Some((2 * reported_base_fee(history@) + 1_500_000_000) as u64),
        tx.max_priority_fee_per_gas == Some(1_500_000_000u64),
        tx.gas_price is None,
        2 * reported_base_fee(history@) + 1_500_000_000 <= u64::MAX,
{
}

/// The report of a preparation that has completed `tx`.
pub fn finish(tx: UnsignedTransaction) -> (r: PrepareResult)
    ensures
        r.unsigned_tx == tx,
        r.success,
        r.message@ == "Unsigned transaction prepared successfully!"@,
{
    PrepareResult {
        unsigned_tx: tx,
        success: true,
        message: String::from_str("Unsigned transaction prepared successfully!"),
    }
}

/// How a message names the function, or the constructor where there is no
/// function.
pub open spec fn target_text(function: Option<String>) -> Seq<char> {
    match function {
        Some(name) => "Function '"@ + name@ + "'"@,
        None => "Constructor"@,
    }
}

/// The word for a function, or for the constructor where there is no
/// function.
pub open spec fn role_text(function: Option<String>) -> Seq<char> {
    match function {
        Some(_) => "function"@,
        None => "constructor"@,
    }
}

fn target_name(function: &Option<String>) -> (r: String)
    ensures
        r@ == target_text(*function),
{
    match function {
        Some(name) => join_text("Function '", name.as_str()).concat("'"),
        None => String::from_str("Constructor"),
    }
}

fn role_name(function: &Option<String>) -> (r: &'static str)
    ensures
        r@ == role_text(*function),
{
    match function {
        Some(_) => "function",
        None => "constructor",
    }
}

impl PrepareError {
    /// The text of [`PrepareError::message`].
    pub open spec fn message_text(self) -> Seq<char> {
        match self {
            PrepareError::Contract(e) => e.message_text(),
            PrepareError::IncompleteTarget => "A contract address and a function name must be given together"@,
            PrepareError::InvalidContractAddress { address } => "Invalid contract address: "@ + address@,
            PrepareError::FunctionNotFound { name } => "Function '"@ + name@ + "' not found in ABI"@,
            PrepareError::Arguments { function, error } => if error is ArgumentCountMismatch {
                target_text(function) + " "@ + error.message_text()
            } else {
                "Failed to parse "@ + role_text(function) + " arguments: "@ + error.message_text()
            },
            PrepareError::MissingArguments { function, count, parameters } => target_text(function)
                + " requires "@ + decimal_text(count as nat) + " parameter(s) but none were provided: "@
                + parameters@ + "\nUse --args to supply "@ + role_text(function) + " arguments."@,
            PrepareError::NoConstructor => "Contract has no constructor but arguments were provided"@,
            PrepareError::InvalidBytecode => "Failed to decode bytecode hex"@,
            PrepareError::InvalidSender => "Invalid from address"@,
            PrepareError::ConnectionFailed => "Failed to create provider"@,
            PrepareError::ChainIdUnavailable => "Failed to fetch chain ID from RPC"@,
            PrepareError::NonceUnavailable => "Failed to fetch nonce"@,
            PrepareError::GasPriceUnavailable => "Failed to fetch gas price"@,
            PrepareError::FeeOverflow => "Fee per gas does not fit in 64 bits"@,
            PrepareError::UnexpectedReply => "Reply does not answer the request"@,
        }
    }

    /// What went wrong, in words.
    pub fn message(&self) -> (r: String)
        ensures
            r@ == self.message_text(),
    {
        match self {
            PrepareError::Contract(e) => e.message(),
            PrepareError::IncompleteTarget => String::from_str(
                "A contract address and a function name must be given together",
            ),
            PrepareError::InvalidContractAddress { address } => join_text(
                "Invalid contract address: ",
                address.as_str(),
            ),
            PrepareError::FunctionNotFound { name } => join_text("Function '", name.as_str()).concat(
                "' not found in ABI",
            ),
            PrepareError::Arguments { function, error } => match error {
                CodecError::ArgumentCountMismatch { .. } => target_name(function).concat(" ").concat(
                    error.message().as_str(),
                ),
                _ => join_text("Failed to parse ", role_name(function)).concat(" arguments: ").concat(
                    error.message().as_str(),
                ),
            },
            PrepareError::MissingArguments { function, count, parameters } => target_name(
                function,
            ).concat(" requires ").concat(decimal(*count as u64).as_str()).concat(
                " parameter(s) but none were provided: ",
            ).concat(parameters.as_str()).concat("\nUse --args to supply ").concat(
                role_name(function),
            ).concat(" arguments."),
            PrepareError::NoConstructor => String::from_str(
                "Contract has no constructor but arguments were provided",
            ),
            PrepareError::InvalidBytecode => String::from_str("Failed to decode bytecode hex"),
            PrepareError::InvalidSender => String::from_str("Invalid from address"),
            PrepareError::ConnectionFailed => String::from_str("Failed to create provider"),
            PrepareError::ChainIdUnavailable => String::from_str("Failed to fetch chain ID from RPC"),
            PrepareError::NonceUnavailable => String::from_str("Failed to fetch nonce"),
            PrepareError::GasPriceUnavailable => String::from_str("Failed to fetch gas price"),
            PrepareError::FeeOverflow => String::from_str("Fee per gas does not fit in 64 bits"),
            PrepareError::UnexpectedReply => String::from_str("Reply does not answer the request"),
        }
    }
}

} // verus!
