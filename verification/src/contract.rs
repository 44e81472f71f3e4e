//! A compiled contract as the compiler's output describes it: the bytecode
//! and the interface.

use crate::abi::ContractAbi;
use crate::text::{strip_hex_prefix, without_hex_prefix};
use vstd::prelude::*;
use vstd::string::StringExecFns;

verus! {

/// What a compiler's output holds under `bytecode`.
#[derive(Debug, Clone, PartialEq, Eq)]
pub enum BytecodeField {
    /// No such field.
    Missing,
    /// A text.
    Text(String),
    /// An object; holds the text under its key `object`, if it has one.
    Object(Option<String>),
    /// Anything else.
    Other,
}

/// What a compiler's output holds under `abi`.
#[derive(Debug, Clone, PartialEq, Eq)]
pub enum AbiField {
    /// No such field.
    Missing,
    /// A value that describes no interface.
    Unreadable,
    /// An interface.
    Described(ContractAbi),
}

/// A compiler's output, read as far as its two fields.
#[derive(Debug, Clone, PartialEq, Eq)]
pub enum ContractDocument {
    /// The text was no JSON document of the expected form.
    Malformed,
    /// The two fields of the document.
    Fields { bytecode: BytecodeField, abi: AbiField },
}

/// A compiled contract: its bytecode in hexadecimal digits, not empty, and
/// its interface.
#[derive(Debug, Clone, PartialEq, Eq)]
pub struct ContractDescriptor {
    pub bytecode: String,
    pub abi: ContractAbi,
}

/// Why a compiler's output describes no contract.
#[derive(Debug, Clone, Copy, PartialEq, Eq)]
pub enum ContractError {
    /// The document does not parse.
    MalformedContractJson,
    /// The document has no bytecode, or an empty one.
    MissingBytecode,
    /// The bytecode is an object without a text under `object`.
    BytecodeWithoutObject,
    /// The bytecode is neither a text nor an object.
    UnexpectedBytecode,
    /// The document has no interface.
    MissingAbi,
    /// The interface does not parse.
    InvalidAbi,
}

/// What a [`ContractDescriptor`] stands for.
pub struct ContractModel {
    pub bytecode: Seq<char>,
    pub abi: ContractAbi,
}

impl View for ContractDescriptor {
    type V = ContractModel;

    open spec fn view(&self) -> ContractModel {
        ContractModel { bytecode: self.bytecode@, abi: self.abi }
    }
}

impl ContractDescriptor {
    /// A descriptor's bytecode is not empty.
    pub open spec fn wf(self) -> bool {
        self.bytecode@.len() > 0
    }
}

/// The text that a document gives as bytecode, before a leading `0x` is
/// dropped.
pub open spec fn bytecode_text(field: BytecodeField) -> Result<Seq<char>, ContractError> {
    match field {
        BytecodeField::Missing => Err(ContractError::MissingBytecode),
        BytecodeField::Text(text) => Ok(text@),
        BytecodeField::Object(Some(text)) => Ok(text@),
        BytecodeField::Object(None) => Err(ContractError::BytecodeWithoutObject),
        BytecodeField::Other => Err(ContractError::UnexpectedBytecode),
    }
}

/// The bytecode of the contract that `document` describes, or the reason why
/// it describes none. The reasons are looked for in this order: the document,
/// the bytecode's form, the interface's presence, the bytecode's length, the
/// interface's form.
pub open spec fn contract_bytecode(document: ContractDocument) -> Result<Seq<char>, ContractError> {
    match document {
        ContractDocument::Malformed => Err(ContractError::MalformedContractJson),
        ContractDocument::Fields { bytecode, abi } => match bytecode_text(bytecode) {
            Err(e) => Err(e),
            Ok(text) => if abi is Missing {
                Err(ContractError::MissingAbi)
            } else if without_hex_prefix(text).len() == 0 {
                Err(ContractError::MissingBytecode)
            } else if abi is Unreadable {
                Err(ContractError::InvalidAbi)
            } else {
                Ok(without_hex_prefix(text))
            },
        },
    }
}

/// The contract that a compiler's output describes. The bytecode may be a
/// text or an object with the text under `object`; a leading `0x` is dropped.
pub fn parse_contract_json(document: ContractDocument) -> (r: Result<ContractDescriptor, ContractError>)
    ensures
        match contract_bytecode(document) {
            Ok(code) => r matches Ok(d) && d.bytecode@ == code && document->abi == AbiField::Described(
                d.abi,
            ) && d.wf(),
            Err(e) => r == Err::<ContractDescriptor, ContractError>(e),
        },
{
    match document {
        ContractDocument::Malformed => Err(ContractError::MalformedContractJson),
        ContractDocument::Fields { bytecode, abi } => {
            let text = match bytecode {
                BytecodeField::Missing => { return Err(ContractError::MissingBytecode); },
                BytecodeField::Text(text) => text,
                BytecodeField::Object(Some(text)) => text,
                BytecodeField::Object(None) => { return Err(ContractError::BytecodeWithoutObject); },
                BytecodeField::Other => { return Err(ContractError::UnexpectedBytecode); },
            };
            match abi {
                AbiField::Missing => Err(ContractError::MissingAbi),
                AbiField::Unreadable => {
                    let code = strip_hex_prefix(text.as_str());
                    if code.is_empty() {
                        Err(ContractError::MissingBytecode)
                    } else {
                        Err(ContractError::InvalidAbi)
                    }
                },
                AbiField::Described(described) => {
                    let code = strip_hex_prefix(text.as_str());
                    if code.is_empty() {
                        Err(ContractError::MissingBytecode)
                    } else {
                        Ok(ContractDescriptor { bytecode: String::from_str(code), abi: described })
                    }
                },
            }
        },
    }
}

impl ContractError {
    /// The text of [`ContractError::message`].
    pub open spec fn message_text(self) -> Seq<char> {
        match self {
            ContractError::MalformedContractJson => "Failed to parse contract JSON. Expected Solidity compiler output format"@,
            ContractError::MissingBytecode => "No bytecode found in contract JSON"@,
            ContractError::BytecodeWithoutObject => "bytecode object has no \"object\" string field"@,
            ContractError::UnexpectedBytecode => "Unexpected bytecode format in contract JSON"@,
            ContractError::MissingAbi => "No ABI found in contract JSON"@,
            ContractError::InvalidAbi => "Failed to parse ABI"@,
        }
    }

    /// What went wrong, in words.
    pub fn message(&self) -> (r: String)
        ensures
            r@ == self.message_text(),
    {
        match self {
            ContractError::MalformedContractJson => String::from_str(
                "Failed to parse contract JSON. Expected Solidity compiler output format",
            ),
            ContractError::MissingBytecode => String::from_str("No bytecode found in contract JSON"),
            ContractError::BytecodeWithoutObject => String::from_str(
                "bytecode object has no \"object\" string field",
            ),
            ContractError::UnexpectedBytecode => String::from_str(
                "Unexpected bytecode format in contract JSON",
            ),
            ContractError::MissingAbi => String::from_str("No ABI found in contract JSON"),
            ContractError::InvalidAbi => String::from_str("Failed to parse ABI"),
        }
    }
}

} // verus!
