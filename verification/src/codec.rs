//! Arguments of a constructor or a function: read from typed-in text against
//! the parameters' types, and encoded as the contract ABI lays them out.

use crate::abi::{AbiParam, ParamKind, ValueKind};
use crate::hexcodec::{decode, hex_bytes, is_hex_text};
use crate::primitives::{
    address_digits, is_address_text, is_decimal_word_text, keccak256_digest, parse_address,
    parse_decimal_word, Address, Word256,
};
use crate::text::{
    decimal, decimal_text, decimal_value, join_text, joined, same_text, split_on, split_trimmed,
    strip_hex_prefix, trimmed, without_hex_prefix,
};
use ethers::abi::{ParamType, Token};
use ethers::types::{H160, U256};
use vstd::prelude::*;
use vstd::utf8::encode_utf8;
use vstd::string::StringExecFns;

verus! {

/// The value of one argument.
#[derive(Debug, Clone, PartialEq, Eq)]
pub enum ArgValue {
    Address(Address),
    Uint(Word256),
    Int(Word256),
    Bool(bool),
    Text(String),
    Bytes(Vec<u8>),
}

/// What an [`ArgValue`] stands for.
pub enum ArgModel {
    Address(Seq<u8>),
    Uint(nat),
    Int(nat),
    Bool(bool),
    Text(Seq<char>),
    Bytes(Seq<u8>),
}

impl View for ArgValue {
    type V = ArgModel;

    open spec fn view(&self) -> ArgModel {
        match self {
            ArgValue::Address(a) => ArgModel::Address(a.bytes@),
            ArgValue::Uint(w) => ArgModel::Uint(w.value()),
            ArgValue::Int(w) => ArgModel::Int(w.value()),
            ArgValue::Bool(b) => ArgModel::Bool(*b),
            ArgValue::Text(s) => ArgModel::Text(s@),
            ArgValue::Bytes(b) => ArgModel::Bytes(b@),
        }
    }
}

/// The arguments of one call in the order of the parameters: the type and
/// the value of each.
#[derive(Debug, Clone, PartialEq, Eq)]
pub struct Arguments {
    pub kinds: Vec<ValueKind>,
    pub values: Vec<ArgValue>,
}

/// What the values of `values` stand for.
pub open spec fn models(values: Seq<ArgValue>) -> Seq<ArgModel> {
    values.map_values(|v: ArgValue| v@)
}

/// Why typed-in arguments were refused.
#[derive(Debug, Clone, PartialEq, Eq)]
pub enum CodecError {
    /// The number of arguments is not the number of parameters.
    ArgumentCountMismatch { expected: usize, provided: usize },
    /// A parameter's type is none whose values can be read from text.
    UnsupportedParameterType { kind_name: String },
    /// The argument at `index`, counted from zero, is no value of its
    /// parameter's type.
    InvalidArgument { index: usize, kind_name: String, text: String },
}

/// The value that `text` writes for a parameter of type `kind`, if it writes
/// one: an address in hexadecimal, a number in decimal, `true` or `false`, a
/// text as it stands, bytes in hexadecimal with or without `0x`.
pub open spec fn argument_model(kind: ValueKind, text: Seq<char>) -> Option<ArgModel> {
    match kind {
        ValueKind::Address => if is_address_text(text) {
            Some(ArgModel::Address(hex_bytes(address_digits(text))))
        } else {
            None
        },
        ValueKind::Uint(_) => if is_decimal_word_text(text) {
            Some(ArgModel::Uint(decimal_value(text)))
        } else {
            None
        },
        ValueKind::Int(_) => if is_decimal_word_text(text) {
            Some(ArgModel::Int(decimal_value(text)))
        } else {
            None
        },
        ValueKind::Bool => if text == "true"@ {
            Some(ArgModel::Bool(true))
        } else if text == "false"@ {
            Some(ArgModel::Bool(false))
        } else {
            None
        },
        ValueKind::Text => Some(ArgModel::Text(text)),
        ValueKind::Bytes => if is_hex_text(without_hex_prefix(text)) {
            Some(ArgModel::Bytes(hex_bytes(without_hex_prefix(text))))
        } else {
            None
        },
    }
}

/// Reads `text` as a value of type `kind`.
pub fn parse_value(kind: ValueKind, text: &str) -> (r: Option<ArgValue>)
    ensures
        match argument_model(kind, text@) {
            Some(model) => r matches Some(v) && v@ == model,
            None => r is None,
        },
{
    match kind {
        ValueKind::Address => match parse_address(text) {
            Some(a) => Some(ArgValue::Address(a)),
            None => None,
        },
        ValueKind::Uint(_) => match parse_decimal_word(text) {
            Some(w) => Some(ArgValue::Uint(w)),
            None => None,
        },
        ValueKind::Int(_) => match parse_decimal_word(text) {
            Some(w) => Some(ArgValue::Int(w)),
            None => None,
        },
        ValueKind::Bool => if same_text(text, "true") {
            Some(ArgValue::Bool(true))
        } else if same_text(text, "false") {
            Some(ArgValue::Bool(false))
        } else {
            None
        },
        ValueKind::Text => Some(ArgValue::Text(String::from_str(text))),
        ValueKind::Bytes => match decode(strip_hex_prefix(text)) {
            Some(bytes) => Some(ArgValue::Bytes(bytes)),
            None => None,
        },
    }
}

/// Whether `text` writes a value for the parameter `param`.
pub open spec fn argument_ok(param: AbiParam, text: Seq<char>) -> bool {
    param.kind matches ParamKind::Value(kind) && argument_model(kind, text) is Some
}

impl CodecError {
    /// Whether this error says why `text`, the argument at `index`, writes no
    /// value for `param`.
    pub open spec fn refuses(self, param: AbiParam, text: Seq<char>, index: int) -> bool {
        match param.kind {
            ParamKind::Other(name) => self matches CodecError::UnsupportedParameterType { kind_name }
                && kind_name@ == name@,
            ParamKind::Value(kind) => self matches CodecError::InvalidArgument {
                index: at,
                kind_name,
                text: given,
            } && at == index && kind_name@ == kind.name_text() && given@ == text,
        }
    }
}

/// Reads `text`, the argument at `index`, as a value for `param`, and gives
/// the parameter's type with it.
pub fn parse_argument(text: &str, param: &AbiParam, index: usize) -> (r: Result<
    (ValueKind, ArgValue),
    CodecError,
>)
    ensures
        r is Ok <==> argument_ok(*param, text@),
        r matches Ok(read) ==> param.kind == ParamKind::Value(read.0) && Some(read.1@)
            == argument_model(read.0, text@),
        r matches Err(e) ==> e.refuses(*param, text@, index as int),
{
    match &param.kind {
        ParamKind::Other(name) => Err(CodecError::UnsupportedParameterType { kind_name: name.clone() }),
        ParamKind::Value(kind) => match parse_value(*kind, text) {
            Some(v) => Ok((*kind, v)),
            None => Err(
                CodecError::InvalidArgument {
                    index,
                    kind_name: kind.name(),
                    text: String::from_str(text),
                },
            ),
        },
    }
}

/// The arguments that `args` lists: its pieces between commas, each without
/// the whitespace at its ends.
pub open spec fn argument_texts(args: Seq<char>) -> Seq<Seq<char>> {
    split_on(args, ',').map_values(|piece: Seq<char>| trimmed(piece))
}

/// Whether `args` lists one value for each of `params`.
pub open spec fn arguments_ok(params: Seq<AbiParam>, args: Seq<char>) -> bool {
    &&& argument_texts(args).len() == params.len()
    &&& forall|i: int| 0 <= i < params.len() ==> argument_ok(#[trigger] params[i], argument_texts(args)[i])
}

/// The values that `args` lists for `params`, where it lists one for each.
pub open spec fn argument_models(params: Seq<AbiParam>, args: Seq<char>) -> Seq<ArgModel> {
    Seq::new(
        params.len(),
        |i: int| argument_model(params[i].kind->Value_0, argument_texts(args)[i])->0,
    )
}

/// The types of `params`, where each is one whose values can be read from
/// text.
pub open spec fn kinds_of(params: Seq<AbiParam>) -> Seq<ValueKind> {
    params.map_values(|p: AbiParam| p.kind->Value_0)
}

impl CodecError {
    /// Whether this error says why `args` does not list one value for each
    /// of `params`: the two numbers where they differ, else the first
    /// argument that writes no value for its parameter.
    pub open spec fn explains(self, params: Seq<AbiParam>, args: Seq<char>) -> bool {
        let texts = argument_texts(args);
        if texts.len() != params.len() {
            self matches CodecError::ArgumentCountMismatch { expected, provided } && expected
                == params.len() && provided == texts.len()
        } else {
            exists|i: int|
                0 <= i < params.len() && self.refuses(#[trigger] params[i], texts[i], i) && !argument_ok(
                    params[i],
                    texts[i],
                ) && (forall|j: int| 0 <= j < i ==> argument_ok(#[trigger] params[j], texts[j]))
        }
    }
}

/// Reads the comma-separated arguments `args` against the parameters
/// `params`. There must be as many arguments as parameters, and each must
/// write a value of its parameter's type; the first that does not is
/// reported.
pub fn parse_arguments(args: &str, params: &Vec<AbiParam>) -> (r: Result<Arguments, CodecError>)
    ensures
        r is Ok <==> arguments_ok(params@, args@),
        r matches Ok(read) ==> read.kinds@ == kinds_of(params@) && models(read.values@)
            == argument_models(params@, args@),
        r matches Err(e) ==> e.explains(params@, args@),
{
    let pieces = split_trimmed(args, ',');
    let ghost texts = argument_texts(args@);
    proof {
        assert(texts.len() == pieces@.len());
        assert forall|i: int| 0 <= i < pieces@.len() implies (#[trigger] pieces@[i])@ == texts[i] by {}
    }
    if pieces.len() != params.len() {
        return Err(
            CodecError::ArgumentCountMismatch { expected: params.len(), provided: pieces.len() },
        );
    }
    let mut kinds: Vec<ValueKind> = Vec::new();
    let mut values: Vec<ArgValue> = Vec::new();
    let mut i: usize = 0;
    while i < params.len()
        invariant
            i <= params.len(),
            pieces@.len() == params@.len(),
            texts == argument_texts(args@),
            texts.len() == pieces@.len(),
            forall|k: int| 0 <= k < pieces@.len() ==> (#[trigger] pieces@[k])@ == texts[k],
            values@.len() == i,
            kinds@.len() == i,
            forall|k: int| 0 <= k < i ==> argument_ok(#[trigger] params@[k], texts[k]),
            forall|k: int| 0 <= k < i ==> #[trigger] kinds@[k] == params@[k].kind->Value_0,
            forall|k: int|
                0 <= k < i ==> Some((#[trigger] values@[k])@) == argument_model(
                    params@[k].kind->Value_0,
                    texts[k],
                ),
        decreases params.len() - i,
    {
        match parse_argument(pieces[i], &params[i], i) {
            Ok((kind, v)) => {
                kinds.push(kind);
                values.push(v);
            },
            Err(e) => {
                proof {
                    assert(e.refuses(params@[i as int], texts[i as int], i as int));
                    assert(!argument_ok(params@[i as int], texts[i as int]));
                }
                return Err(e);
            },
        }
        i = i + 1;
    }
    proof {
        assert(models(values@) =~= argument_models(params@, args@));
        assert(kinds@ =~= kinds_of(params@));
    }
    Ok(Arguments { kinds, values })
}

/// The ABI encoding of a list of values: the bytes that a contract reads its
/// arguments from.
pub uninterp spec fn abi_encoding(values: Seq<ArgModel>) -> Seq<u8>;

/// The signature of the function `name` whose parameters have the types
/// `kinds`: the name, then in brackets the types' names with a comma between
/// two of them.
pub open spec fn signature_text(name: Seq<char>, kinds: Seq<ValueKind>) -> Seq<char> {
    name + "("@ + joined(kinds.map_values(|kind: ValueKind| kind.name_text()), ","@) + ")"@
}

/// The selector of the function `name` whose parameters have the types
/// `kinds`, the four bytes that a call's data begins with: the first four
/// bytes of the Keccak-256 digest of the signature as UTF-8.
pub open spec fn function_selector(name: Seq<char>, kinds: Seq<ValueKind>) -> Seq<u8> {
    keccak256_digest(encode_utf8(signature_text(name, kinds))).take(4)
}

/// Trusted: `ethers::abi::encode`, which lays the values out as the contract
/// ABI prescribes. The bytes depend on the values alone.
#[verifier::external_body]
pub(crate) fn abi_encode(values: &Vec<ArgValue>) -> (r: Vec<u8>)
    ensures
        r@ == abi_encoding(models(values@)),
{
    let tokens: Vec<Token> = values.iter().map(|v| match v {
        ArgValue::Address(a) => Token::Address(H160(a.bytes)),
        ArgValue::Uint(w) => Token::Uint(U256(w.limbs)),
        ArgValue::Int(w) => Token::Int(U256(w.limbs)),
        ArgValue::Bool(b) => Token::Bool(*b),
        ArgValue::Text(s) => Token::String(s.clone()),
        ArgValue::Bytes(b) => Token::Bytes(b.clone()),
    }).collect();
    ethers::abi::encode(&tokens)
}

/// Trusted: `ethers::abi::short_signature`, which writes the function's
/// signature, the name and in brackets the types' names with commas between
/// them, and gives the first four bytes of its Keccak-256 digest.
#[verifier::external_body]
pub(crate) fn short_signature(name: &str, kinds: &Vec<ValueKind>) -> (r: [u8; 4])
    ensures
        r@ == function_selector(name@, kinds@),
{
    let types: Vec<ParamType> = kinds.iter().map(|k| match k {
        ValueKind::Address => ParamType::Address,
        ValueKind::Bytes => ParamType::Bytes,
        ValueKind::Int(bits) => ParamType::Int(*bits),
        ValueKind::Uint(bits) => ParamType::Uint(*bits),
        ValueKind::Bool => ParamType::Bool,
        ValueKind::Text => ParamType::String,
    }).collect();
    ethers::abi::short_signature(name, &types)
}

impl CodecError {
    /// The text of [`CodecError::message`].
    pub open spec fn message_text(self) -> Seq<char> {
        match self {
            CodecError::ArgumentCountMismatch { expected, provided } => "expects "@ + decimal_text(
                expected as nat,
            ) + " argument(s) but "@ + decimal_text(provided as nat) + " were provided"@,
            CodecError::UnsupportedParameterType { kind_name } => "Unsupported parameter type: "@
                + kind_name@,
            CodecError::InvalidArgument { index, kind_name, text } => "Argument "@ + decimal_text(
                index as nat,
            ) + " is no valid "@ + kind_name@ + ": "@ + text@,
        }
    }

    /// What went wrong, in words.
    pub fn message(&self) -> (r: String)
        ensures
            r@ == self.message_text(),
    {
        match self {
            CodecError::ArgumentCountMismatch { expected, provided } => join_text(
                "expects ",
                decimal(*expected as u64).as_str(),
            ).concat(" argument(s) but ").concat(decimal(*provided as u64).as_str()).concat(
                " were provided",
            ),
            CodecError::UnsupportedParameterType { kind_name } => join_text(
                "Unsupported parameter type: ",
                kind_name.as_str(),
            ),
            CodecError::InvalidArgument { index, kind_name, text } => join_text(
                "Argument ",
                decimal(*index as u64).as_str(),
            ).concat(" is no valid ").concat(kind_name.as_str()).concat(": ").concat(text.as_str()),
        }
    }
}

} // verus!
