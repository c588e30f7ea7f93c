use crate::selector::{selector_of_signature, signature_selector};
use vstd::prelude::*;
use vstd::string::StringSliceAdditionalSpecFns;

verus! {

/// The type of a value that a method takes or returns.
#[derive(Clone, Copy, Debug, PartialEq, Eq, Structural)]
pub enum ParamType {
    /// An unsigned integer of 256 bits.
    Uint256,
    /// The address of an account.
    Address,
    /// A truth value.
    Bool,
}

impl ParamType {
    /// The name under which the type stands in a signature.
    pub open spec fn name(self) -> Seq<u8> {
        match self {
            ParamType::Uint256 => "uint256".spec_bytes(),
            ParamType::Address => "address".spec_bytes(),
            ParamType::Bool => "bool".spec_bytes(),
        }
    }

    /// Appends the name of the type to `out`.
    fn write_name(self, out: &mut Vec<u8>)
        ensures
            final(out)@ == old(out)@ + self.name(),
    {
        let name = match self {
            ParamType::Uint256 => "uint256",
            ParamType::Address => "address",
            ParamType::Bool => "bool",
        };
        write_bytes(out, name.as_bytes());
    }
}

/// Appends `bytes` to `out`.
fn write_bytes(out: &mut Vec<u8>, bytes: &[u8])
    ensures
        final(out)@ == old(out)@ + bytes@,
{
    let mut i: usize = 0;
    while i < bytes.len()
        invariant
            0 <= i <= bytes.len(),
            out@ == old(out)@ + bytes@.take(i as int),
        decreases bytes.len() - i,
    {
        out.push(bytes[i]);
        i = i + 1;
        assert(bytes@.take(i as int) == bytes@.take(i - 1).push(bytes@[i - 1]));
    }
    assert(bytes@.take(i as int) == bytes@);
}

/// The names of the first `n` of `inputs`, with a comma between each two.
pub open spec fn joined_names(inputs: Seq<ParamType>, n: int) -> Seq<u8>
    decreases n,
{
    if n <= 0 {
        Seq::empty()
    } else if n == 1 {
        inputs[0].name()
    } else {
        joined_names(inputs, n - 1) + ",".spec_bytes() + inputs[n - 1].name()
    }
}

/// The signature of the method `name` that takes `inputs`: the name, then in
/// round brackets the names of the input types with a comma between each two.
pub open spec fn signature_of(name: Seq<char>, inputs: Seq<ParamType>) -> Seq<u8> {
    vstd::utf8::encode_utf8(name) + "(".spec_bytes() + joined_names(inputs, inputs.len() as int)
        + ")".spec_bytes()
}

/// What a caller has to know of one method: its name, what it takes and what
/// it returns.
#[derive(Debug)]
pub struct MethodSig {
    pub name: String,
    pub inputs: Vec<ParamType>,
    pub output: ParamType,
}

impl MethodSig {
    /// The signature of the method, from which its selector is derived.
    pub open spec fn signature(&self) -> Seq<u8> {
        signature_of(self.name@, self.inputs@)
    }

    /// Describes the method `name` that takes `inputs` and returns `output`.
    pub fn new(name: &str, inputs: Vec<ParamType>, output: ParamType) -> (sig: MethodSig)
        ensures
            sig.name@ == name@,
            sig.inputs@ == inputs@,
            sig.output == output,
    {
        MethodSig { name: name.to_owned(), inputs, output }
    }

    /// Writes the signature out.
    pub fn signature_bytes(&self) -> (out: Vec<u8>)
        ensures
            out@ == self.signature(),
    {
        let mut out: Vec<u8> = Vec::new();
        write_bytes(&mut out, self.name.as_str().as_bytes());
        write_bytes(&mut out, "(".as_bytes());
        let ghost head = out@;
        let mut i: usize = 0;
        while i < self.inputs.len()
            invariant
                0 <= i <= self.inputs.len(),
                out@ == head + joined_names(self.inputs@, i as int),
            decreases self.inputs.len() - i,
        {
            if i > 0 {
                write_bytes(&mut out, ",".as_bytes());
            }
            self.inputs[i].write_name(&mut out);
            i = i + 1;
        }
        write_bytes(&mut out, ")".as_bytes());
        out
    }

    /// Computes the selector by which a call names the method.
    pub fn selector(&self) -> (selector: u32)
        ensures
            selector == signature_selector(self.signature()),
    {
        let signature = self.signature_bytes();
        selector_of_signature(&signature)
    }
}

/// A capability interface: a named set of method signatures that a root may
/// claim to implement. It holds no storage and no code.
#[derive(Debug)]
pub struct Interface {
    pub name: String,
    pub methods: Vec<MethodSig>,
}

impl Interface {
    /// Declares the interface `name` with the methods `methods`.
    pub fn new(name: &str, methods: Vec<MethodSig>) -> (interface: Interface)
        ensures
            interface.name@ == name@,
            interface.methods == methods,
    {
        Interface { name: name.to_owned(), methods }
    }
}

} // verus!
