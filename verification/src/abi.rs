//! A contract's interface: its constructor and its functions, each with the
//! names and types of its parameters.

use crate::text::{
    decimal, decimal_text, join_text, joined, lemma_decimal_text_reads_back, parse_decimal,
    same_text, strip_prefix,
};
use vstd::prelude::*;
use vstd::string::StringExecFns;

verus! {

/// A parameter type whose values can be read from text.
#[derive(Debug, Clone, Copy, PartialEq, Eq)]
pub enum ValueKind {
    /// `address`
    Address,
    /// `bytes`
    Bytes,
    /// `int` of the given number of bits
    Int(usize),
    /// `uint` of the given number of bits
    Uint(usize),
    /// `bool`
    Bool,
    /// `string`
    Text,
}

/// The type of a parameter.
#[derive(Debug, Clone, PartialEq, Eq)]
pub enum ParamKind {
    /// A type whose values can be read from text.
    Value(ValueKind),
    /// Any other type (a tuple, an array, bytes of a fixed size); holds the
    /// type's name as the interface writes it.
    Other(String),
}

/// One parameter of a constructor or a function.
#[derive(Debug, Clone, PartialEq, Eq)]
pub struct AbiParam {
    pub name: String,
    pub kind: ParamKind,
}

/// One function of a contract.
#[derive(Debug, Clone, PartialEq, Eq)]
pub struct AbiFunction {
    pub name: String,
    pub inputs: Vec<AbiParam>,
}

/// A contract's interface. `constructor` holds the constructor's parameters,
/// and is `None` where the interface declares no constructor.
#[derive(Debug, Clone, PartialEq, Eq)]
pub struct ContractAbi {
    pub constructor: Option<Vec<AbiParam>>,
    pub functions: Vec<AbiFunction>,
}

impl ValueKind {
    /// The type's name as a function's signature writes it.
    pub open spec fn name_text(self) -> Seq<char> {
        match self {
            ValueKind::Address => "address"@,
            ValueKind::Bytes => "bytes"@,
            ValueKind::Int(bits) => "int"@ + decimal_text(bits as nat),
            ValueKind::Uint(bits) => "uint"@ + decimal_text(bits as nat),
            ValueKind::Bool => "bool"@,
            ValueKind::Text => "string"@,
        }
    }

    /// Writes the type's name.
    pub fn name(&self) -> (r: String)
        ensures
            r@ == self.name_text(),
    {
        match self {
            ValueKind::Address => String::from_str("address"),
            ValueKind::Bytes => String::from_str("bytes"),
            ValueKind::Int(bits) => join_text("int", decimal(*bits as u64).as_str()),
            ValueKind::Uint(bits) => join_text("uint", decimal(*bits as u64).as_str()),
            ValueKind::Bool => String::from_str("bool"),
            ValueKind::Text => String::from_str("string"),
        }
    }
}

impl ParamKind {
    /// The type's name.
    pub open spec fn name_text(self) -> Seq<char> {
        match self {
            ParamKind::Value(kind) => kind.name_text(),
            ParamKind::Other(name) => name@,
        }
    }

    /// Writes the type's name.
    pub fn name(&self) -> (r: String)
        ensures
            r@ == self.name_text(),
    {
        match self {
            ParamKind::Value(kind) => kind.name(),
            ParamKind::Other(name) => name.clone(),
        }
    }
}

/// No two types whose values can be read from text have one name.
pub proof fn lemma_kind_names_differ(a: ValueKind, b: ValueKind)
    requires
        a.name_text() == b.name_text(),
    ensures
        a == b,
{
    reveal_strlit("address");
    reveal_strlit("bytes");
    reveal_strlit("bool");
    reveal_strlit("string");
    reveal_strlit("uint");
    reveal_strlit("int");
    let name = a.name_text();
    assert(name[0] == b.name_text()[0]);
    assert(name[1] == b.name_text()[1]);
    match (a, b) {
        (ValueKind::Uint(x), ValueKind::Uint(y)) => {
            assert(name.skip(4) =~= decimal_text(x as nat));
            assert(name.skip(4) =~= decimal_text(y as nat));
            lemma_decimal_text_reads_back(x as nat);
            lemma_decimal_text_reads_back(y as nat);
        },
        (ValueKind::Int(x), ValueKind::Int(y)) => {
            assert(name.skip(3) =~= decimal_text(x as nat));
            assert(name.skip(3) =~= decimal_text(y as nat));
            lemma_decimal_text_reads_back(x as nat);
            lemma_decimal_text_reads_back(y as nat);
        },
        _ => {},
    }
}

/// The number of bits that `digits` writes, where it writes one as a type's
/// name does.
fn bits_of(digits: &str) -> (r: Option<usize>)
    ensures
        match r {
            Some(bits) => digits@ == decimal_text(bits as nat),
            None => forall|bits: usize| digits@ != decimal_text(bits as nat),
        },
{
    match parse_decimal(digits) {
        Some(n) => {
            if n <= usize::MAX as u64 {
                Some(n as usize)
            } else {
                proof {
                    assert forall|bits: usize| digits@ != decimal_text(bits as nat) by {
                        lemma_decimal_text_reads_back(bits as nat);
                        lemma_decimal_text_reads_back(n as nat);
                    }
                }
                None
            }
        },
        None => {
            proof {
                assert forall|bits: usize| digits@ != decimal_text(bits as nat) by {
                    assert(digits@ != decimal_text((bits as u64) as nat));
                }
            }
            None
        },
    }
}

impl ParamKind {
    /// The type that is called `name`: the type whose values can be read
    /// from text that has this name, if there is one; else another type of
    /// this name.
    pub fn from_name(name: &str) -> (r: ParamKind)
        ensures
            r.name_text() == name@,
            r is Other ==> forall|kind: ValueKind| kind.name_text() != name@,
    {
        proof {
            reveal_strlit("address");
            reveal_strlit("bytes");
            reveal_strlit("bool");
            reveal_strlit("string");
            reveal_strlit("uint");
            reveal_strlit("int");
        }
        if same_text(name, "address") {
            return ParamKind::Value(ValueKind::Address);
        }
        if same_text(name, "bytes") {
            return ParamKind::Value(ValueKind::Bytes);
        }
        if same_text(name, "bool") {
            return ParamKind::Value(ValueKind::Bool);
        }
        if same_text(name, "string") {
            return ParamKind::Value(ValueKind::Text);
        }
        let unsigned = strip_prefix(name, "uint");
        let signed = strip_prefix(name, "int");
        let sized = match (unsigned, signed) {
            (Some(digits), _) => match bits_of(digits) {
                Some(bits) => Some(ValueKind::Uint(bits)),
                None => None,
            },
            (None, Some(digits)) => match bits_of(digits) {
                Some(bits) => Some(ValueKind::Int(bits)),
                None => None,
            },
            (None, None) => None,
        };
        match sized {
            Some(kind) => {
                proof {
                    assert("uint"@.is_prefix_of(name@) ==> "uint"@ + name@.skip(4) =~= name@);
                    assert("int"@.is_prefix_of(name@) ==> "int"@ + name@.skip(3) =~= name@);
                }
                ParamKind::Value(kind)
            },
            None => {
                proof {
                    assert forall|kind: ValueKind| kind.name_text() != name@ by {
                        match kind {
                            ValueKind::Uint(bits) => {
                                let written = "uint"@ + decimal_text(bits as nat);
                                if written == name@ {
                                    assert("uint"@ =~= name@.subrange(0, 4));
                                    assert(name@.skip(4) =~= decimal_text(bits as nat));
                                }
                            },
                            ValueKind::Int(bits) => {
                                let written = "int"@ + decimal_text(bits as nat);
                                if written == name@ {
                                    assert(name@[0] == 'i');
                                    assert("int"@ =~= name@.subrange(0, 3));
                                    assert(name@.skip(3) =~= decimal_text(bits as nat));
                                    if "uint"@.is_prefix_of(name@) {
                                        assert(name@.subrange(0, 4)[0] == 'u');
                                    }
                                }
                            },
                            _ => {},
                        }
                    }
                }
                ParamKind::Other(String::from_str(name))
            },
        }
    }
}

impl AbiParam {
    /// The parameter as a listing shows it: its name, a colon, its type.
    pub open spec fn entry_text(self) -> Seq<char> {
        self.name@ + ": "@ + self.kind.name_text()
    }
}

/// The listing of `params`: each as name, colon and type, with a comma and a
/// space between two of them.
pub open spec fn param_list_text(params: Seq<AbiParam>) -> Seq<char> {
    joined(params.map_values(|p: AbiParam| p.entry_text()), ", "@)
}

/// Writes the listing of `params`.
pub fn describe_params(params: &Vec<AbiParam>) -> (r: String)
    ensures
        r@ == param_list_text(params@),
{
    let ghost entries = params@.map_values(|p: AbiParam| p.entry_text());
    let mut out = String::from_str("");
    proof {
        reveal_strlit("");
        assert(entries.take(0) =~= Seq::<Seq<char>>::empty());
        assert(out@ =~= joined(entries.take(0), ", "@));
    }
    let mut i: usize = 0;
    while i < params.len()
        invariant
            i <= params.len(),
            entries == params@.map_values(|p: AbiParam| p.entry_text()),
            out@ == joined(entries.take(i as int), ", "@),
        decreases params.len() - i,
    {
        let p = &params[i];
        let entry = join_text(p.name.as_str(), ": ").concat(p.kind.name().as_str());
        proof {
            assert(entry@ == entries[i as int]);
            assert(entries.take(i + 1).drop_last() == entries.take(i as int));
            assert(entries.take(i + 1).last() == entry@);
        }
        if i == 0 {
            proof {
                assert(out@ =~= Seq::<char>::empty());
                assert(entries.take(1)[0] == entry@);
            }
            out = entry;
        } else {
            out = out.concat(", ").concat(entry.as_str());
        }
        i = i + 1;
    }
    proof {
        assert(entries.take(params.len() as int) == entries);
    }
    out
}

impl ContractAbi {
    /// Whether `i` is the place of the first function called `name`.
    pub open spec fn is_first_named(self, name: Seq<char>, i: int) -> bool {
        &&& 0 <= i < self.functions@.len()
        &&& self.functions@[i].name@ == name
        &&& forall|j: int| 0 <= j < i ==> (#[trigger] self.functions@[j]).name@ != name
    }

    /// Whether some function is called `name`.
    pub open spec fn has_function(self, name: Seq<char>) -> bool {
        exists|i: int| 0 <= i < self.functions@.len() && (#[trigger] self.functions@[i]).name@ == name
    }

    /// The first function called `name`, where there is one.
    pub open spec fn named(self, name: Seq<char>) -> AbiFunction {
        self.functions@[choose|i: int| self.is_first_named(name, i)]
    }

    /// The first function called `name`, if there is one.
    pub fn function(&self, name: &str) -> (r: Option<&AbiFunction>)
        ensures
            r is Some <==> self.has_function(name@),
            r matches Some(f) ==> *f == self.named(name@) && f.name@ == name@,
    {
        let mut i: usize = 0;
        while i < self.functions.len()
            invariant
                i <= self.functions.len(),
                forall|j: int| 0 <= j < i ==> (#[trigger] self.functions@[j]).name@ != name@,
            decreases self.functions.len() - i,
        {
            if same_text(self.functions[i].name.as_str(), name) {
                proof {
                    assert(self.is_first_named(name@, i as int));
                    lemma_first_named_is_one(*self, name@, i as int);
                }
                return Some(&self.functions[i]);
            }
            i = i + 1;
        }
        None
    }
}

/// Only one function is the first of its name, so the function that a name
/// stands for is that one.
pub proof fn lemma_first_named_is_one(abi: ContractAbi, name: Seq<char>, i: int)
    requires
        abi.is_first_named(name, i),
    ensures
        abi.named(name) == abi.functions@[i],
        abi.named(name).name@ == name,
        abi.has_function(name),
{
    let chosen = choose|k: int| abi.is_first_named(name, k);
    assert(abi.is_first_named(name, chosen));
    if chosen < i {
        assert(abi.functions@[chosen].name@ != name);
    }
    if i < chosen {
        assert(abi.functions@[i].name@ != name);
    }
}

} // verus!
