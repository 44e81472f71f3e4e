use cold_deploy::abi::{AbiFunction, AbiParam, ContractAbi, ParamKind, ValueKind};
use cold_deploy::contract::{
    parse_contract_json, AbiField, BytecodeField, ContractDescriptor, ContractDocument, ContractError,
};

fn flag() -> AbiParam {
    AbiParam { name: "on".to_string(), kind: ParamKind::Value(ValueKind::Bool) }
}

fn abi() -> ContractAbi {
    ContractAbi {
        constructor: None,
        functions: vec![
            AbiFunction { name: "set".to_string(), inputs: vec![flag()] },
            AbiFunction { name: "get".to_string(), inputs: vec![] },
            AbiFunction { name: "set".to_string(), inputs: vec![flag(), flag()] },
        ],
    }
}

fn document(bytecode: BytecodeField) -> ContractDocument {
    ContractDocument::Fields { bytecode, abi: AbiField::Described(abi()) }
}

#[test]
fn bytecode_as_text_loses_its_prefix() {
    assert_eq!(
        parse_contract_json(document(BytecodeField::Text("0x6001".to_string()))),
        Ok(ContractDescriptor { bytecode: "6001".to_string(), abi: abi() })
    );
    assert_eq!(
        parse_contract_json(document(BytecodeField::Text("6001".to_string()))),
        Ok(ContractDescriptor { bytecode: "6001".to_string(), abi: abi() })
    );
}

#[test]
fn bytecode_as_object_is_read_from_its_object_key() {
    assert_eq!(
        parse_contract_json(document(BytecodeField::Object(Some("0x6001".to_string())))),
        Ok(ContractDescriptor { bytecode: "6001".to_string(), abi: abi() })
    );
    assert_eq!(
        parse_contract_json(document(BytecodeField::Object(None))),
        Err(ContractError::BytecodeWithoutObject)
    );
}

#[test]
fn missing_fields_are_reported() {
    assert_eq!(parse_contract_json(ContractDocument::Malformed), Err(ContractError::MalformedContractJson));
    assert_eq!(parse_contract_json(document(BytecodeField::Missing)), Err(ContractError::MissingBytecode));
    assert_eq!(parse_contract_json(document(BytecodeField::Other)), Err(ContractError::UnexpectedBytecode));
    assert_eq!(
        parse_contract_json(ContractDocument::Fields {
            bytecode: BytecodeField::Text("6001".to_string()),
            abi: AbiField::Missing,
        }),
        Err(ContractError::MissingAbi)
    );
    assert_eq!(
        parse_contract_json(ContractDocument::Fields {
            bytecode: BytecodeField::Text("6001".to_string()),
            abi: AbiField::Unreadable,
        }),
        Err(ContractError::InvalidAbi)
    );
    assert_eq!(
        parse_contract_json(ContractDocument::Fields { bytecode: BytecodeField::Missing, abi: AbiField::Missing }),
        Err(ContractError::MissingBytecode)
    );
}

#[test]
fn empty_bytecode_is_no_bytecode() {
    assert_eq!(parse_contract_json(document(BytecodeField::Text("0x".to_string()))), Err(ContractError::MissingBytecode));
    assert_eq!(parse_contract_json(document(BytecodeField::Text(String::new()))), Err(ContractError::MissingBytecode));
}

#[test]
fn contract_errors_have_messages() {
    assert_eq!(ContractError::MissingBytecode.message(), "No bytecode found in contract JSON");
    assert_eq!(ContractError::MissingAbi.message(), "No ABI found in contract JSON");
    assert_eq!(
        ContractError::MalformedContractJson.message(),
        "Failed to parse contract JSON. Expected Solidity compiler output format"
    );
    assert_eq!(ContractError::BytecodeWithoutObject.message(), "bytecode object has no \"object\" string field");
}

#[test]
fn the_first_function_of_a_name_is_found() {
    let abi = abi();
    assert_eq!(abi.function("set").map(|f| f.inputs.len()), Some(1));
    assert_eq!(abi.function("get").map(|f| f.inputs.len()), Some(0));
    assert_eq!(abi.function("reset"), None);
}
