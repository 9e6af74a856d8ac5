//! Structured-data (EIP-712) hashing, driven by a table of typed fields.
//!
//! Every signed message shape is described by its primary type name and an
//! ordered list of named, typed fields; one routine turns any such table
//! into its type string, struct hash and signing hash.
use crate::address::Address;
use crate::crypto::{keccak, keccak_of};
use crate::msgpack::{be_bytes, push_all, push_be};
use vstd::prelude::*;
use vstd::string::StringExecFns;

verus! {

/// The value of one field, with its structured-data type.
#[derive(Clone, Debug)]
pub enum FieldValue {
    Text(String),
    Uint64(u64),
    /// A `uint256` whose value fits in 64 bits.
    Uint256(u64),
    Bool(bool),
    Address(Address),
    /// Exactly 32 bytes.
    Bytes32(Vec<u8>),
}

/// The mathematical content of a [`FieldValue`].
pub enum FieldModel {
    Text(Seq<char>),
    Uint64(u64),
    Uint256(u64),
    Bool(bool),
    Address(Seq<u8>),
    Bytes32(Seq<u8>),
}

impl View for FieldValue {
    type V = FieldModel;

    open spec fn view(&self) -> FieldModel {
        match self {
            FieldValue::Text(s) => FieldModel::Text(s@),
            FieldValue::Uint64(n) => FieldModel::Uint64(*n),
            FieldValue::Uint256(n) => FieldModel::Uint256(*n),
            FieldValue::Bool(b) => FieldModel::Bool(*b),
            FieldValue::Address(a) => FieldModel::Address(a.bytes@),
            FieldValue::Bytes32(b) => FieldModel::Bytes32(b@),
        }
    }
}

/// A named field of a structured message.
#[derive(Clone, Debug)]
pub struct TypedField {
    pub name: &'static str,
    pub value: FieldValue,
}

impl View for TypedField {
    type V = (Seq<char>, FieldModel);

    open spec fn view(&self) -> (Seq<char>, FieldModel) {
        (self.name@, self.value@)
    }
}

pub open spec fn utf8(s: Seq<char>) -> Seq<u8> {
    vstd::utf8::encode_utf8(s)
}

pub open spec fn zeros(n: nat) -> Seq<u8> {
    Seq::new(n, |i: int| 0u8)
}

pub open spec fn solidity_type(v: FieldModel) -> Seq<char> {
    match v {
        FieldModel::Text(_) => "string"@,
        FieldModel::Uint64(_) => "uint64"@,
        FieldModel::Uint256(_) => "uint256"@,
        FieldModel::Bool(_) => "bool"@,
        FieldModel::Address(_) => "address"@,
        FieldModel::Bytes32(_) => "bytes32"@,
    }
}

/// `type name` for one field.
pub open spec fn member(f: (Seq<char>, FieldModel)) -> Seq<u8> {
    utf8(solidity_type(f.1)) + seq![32u8] + utf8(f.0)
}

/// The members joined by commas.
pub open spec fn members(fs: Seq<(Seq<char>, FieldModel)>) -> Seq<u8>
    decreases fs.len(),
{
    if fs.len() == 0 {
        Seq::empty()
    } else if fs.len() == 1 {
        member(fs[0])
    } else {
        members(fs.drop_last()) + seq![44u8] + member(fs.last())
    }
}

/// The type string `Name(type1 name1,type2 name2,...)`.
pub open spec fn type_string(primary: Seq<char>, fs: Seq<(Seq<char>, FieldModel)>) -> Seq<u8> {
    utf8(primary) + seq![40u8] + members(fs) + seq![41u8]
}

/// The 32-byte encoding of one value: strings by their hash, numbers
/// big-endian, booleans as 0 or 1, addresses left-padded with zeros.
pub open spec fn word(v: FieldModel) -> Seq<u8> {
    match v {
        FieldModel::Text(s) => keccak_of(utf8(s)),
        FieldModel::Uint64(n) => zeros(24) + be_bytes(n as nat, 8),
        FieldModel::Uint256(n) => zeros(24) + be_bytes(n as nat, 8),
        FieldModel::Bool(b) => zeros(31) + seq![if b { 1u8 } else { 0u8 }],
        FieldModel::Address(a) => zeros(12) + a,
        FieldModel::Bytes32(b) => b,
    }
}

pub open spec fn words(fs: Seq<(Seq<char>, FieldModel)>) -> Seq<u8>
    decreases fs.len(),
{
    if fs.len() == 0 {
        Seq::empty()
    } else {
        words(fs.drop_last()) + word(fs.last().1)
    }
}

/// The hash of the type string followed by the encoded values, hashed.
pub open spec fn struct_hash(primary: Seq<char>, fs: Seq<(Seq<char>, FieldModel)>) -> Seq<u8> {
    keccak_of(keccak_of(type_string(primary, fs)) + words(fs))
}

/// The fields of a signing domain: a name, version `1`, a chain id and the
/// zero verifying contract.
pub open spec fn domain_fields(name: Seq<char>, chain_id: u64) -> Seq<(Seq<char>, FieldModel)> {
    seq![
        ("name"@, FieldModel::Text(name)),
        ("version"@, FieldModel::Text("1"@)),
        ("chainId"@, FieldModel::Uint256(chain_id)),
        ("verifyingContract"@, FieldModel::Address(zeros(20))),
    ]
}

pub open spec fn domain_separator(name: Seq<char>, chain_id: u64) -> Seq<u8> {
    struct_hash("EIP712Domain"@, domain_fields(name, chain_id))
}

/// `hash(0x19 0x01 ‖ domain separator ‖ struct hash)`.
pub open spec fn signing_hash(
    domain_name: Seq<char>,
    chain_id: u64,
    primary: Seq<char>,
    fs: Seq<(Seq<char>, FieldModel)>,
) -> Seq<u8> {
    keccak_of(seq![0x19u8, 0x01u8] + domain_separator(domain_name, chain_id) + struct_hash(primary, fs))
}

pub open spec fn fields_view(fs: Seq<TypedField>) -> Seq<(Seq<char>, FieldModel)> {
    fs.map_values(|f: TypedField| f@)
}

/// Whether every `bytes32` field holds exactly 32 bytes.
pub open spec fn well_sized(fs: Seq<TypedField>) -> bool {
    forall|i: int|
        0 <= i < fs.len() ==> ((#[trigger] fs[i]).value matches FieldValue::Bytes32(b) ==> b@.len()
            == 32)
}

fn push_zeros(out: &mut Vec<u8>, n: usize)
    ensures
        final(out)@ == old(out)@ + zeros(n as nat),
{
    let ghost start = out@;
    let mut i: usize = 0;
    while i < n
        invariant
            i <= n,
            out@ == start + zeros(i as nat),
        decreases n - i,
    {
        out.push(0);
        i = i + 1;
        assert(out@ =~= start + zeros(i as nat));
    }
}

fn push_word(out: &mut Vec<u8>, v: &FieldValue)
    requires
        v matches FieldValue::Bytes32(b) ==> b@.len() == 32,
    ensures
        final(out)@ == old(out)@ + word(v@),
{
    let ghost start = out@;
    match v {
        FieldValue::Text(s) => {
            let h = keccak(s.as_str().as_bytes());
            push_all(out, h.as_slice());
        },
        FieldValue::Uint64(n) => {
            push_zeros(out, 24);
            push_be(out, *n, 8);
        },
        FieldValue::Uint256(n) => {
            push_zeros(out, 24);
            push_be(out, *n, 8);
        },
        FieldValue::Bool(b) => {
            push_zeros(out, 31);
            out.push(if *b { 1 } else { 0 });
        },
        FieldValue::Address(a) => {
            push_zeros(out, 12);
            push_all(out, a.bytes.as_slice());
        },
        FieldValue::Bytes32(b) => {
            push_all(out, b.as_slice());
        },
    }
    assert(out@ =~= start + word(v@));
}

fn push_solidity_type(out: &mut Vec<u8>, v: &FieldValue)
    ensures
        final(out)@ == old(out)@ + utf8(solidity_type(v@)),
{
    let name = match v {
        FieldValue::Text(_) => "string",
        FieldValue::Uint64(_) => "uint64",
        FieldValue::Uint256(_) => "uint256",
        FieldValue::Bool(_) => "bool",
        FieldValue::Address(_) => "address",
        FieldValue::Bytes32(_) => "bytes32",
    };
    push_all(out, name.as_bytes());
}

/// The type string of a message shape.
pub fn encode_type(primary: &str, fields: &Vec<TypedField>) -> (r: Vec<u8>)
    ensures
        r@ == type_string(primary@, fields_view(fields@)),
{
    let mut out: Vec<u8> = Vec::new();
    push_all(&mut out, primary.as_bytes());
    out.push(40);
    let ghost start = out@;
    let mut i: usize = 0;
    while i < fields.len()
        invariant
            i <= fields@.len(),
            out@ == start + members(fields_view(fields@.subrange(0, i as int))),
        decreases fields@.len() - i,
    {
        let ghost before = out@;
        if i > 0 {
            out.push(44);
        }
        push_solidity_type(&mut out, &fields[i].value);
        out.push(32);
        push_all(&mut out, fields[i].name.as_bytes());
        i = i + 1;
        let ghost fv = fields_view(fields@.subrange(0, i as int));
        assert(fv.drop_last() =~= fields_view(fields@.subrange(0, i - 1)));
        assert(fv.last() == fields@[i - 1]@);
        if i == 1 {
            assert(fields_view(fields@.subrange(0, 0)) =~= Seq::empty());
            assert(out@ =~= start + members(fv));
        } else {
            assert(out@ =~= start + members(fv));
        }
    }
    assert(fields@.subrange(0, i as int) =~= fields@);
    out.push(41);
    assert(out@ =~= type_string(primary@, fields_view(fields@)));
    out
}

/// Hashes a message given by its primary type name and field table.
pub fn hash_struct(primary: &str, fields: &Vec<TypedField>) -> (r: Vec<u8>)
    requires
        well_sized(fields@),
    ensures
        r@ == struct_hash(primary@, fields_view(fields@)),
        r@.len() == 32,
{
    let type_string = encode_type(primary, fields);
    let mut out = keccak(type_string.as_slice());
    let ghost start = out@;
    let mut i: usize = 0;
    while i < fields.len()
        invariant
            i <= fields@.len(),
            well_sized(fields@),
            out@ == start + words(fields_view(fields@.subrange(0, i as int))),
        decreases fields@.len() - i,
    {
        push_word(&mut out, &fields[i].value);
        i = i + 1;
        let ghost fv = fields_view(fields@.subrange(0, i as int));
        assert(fv.drop_last() =~= fields_view(fields@.subrange(0, i - 1)));
        assert(out@ =~= start + words(fv));
    }
    assert(fields@.subrange(0, i as int) =~= fields@);
    keccak(out.as_slice())
}

/// The domain separator for a domain name and chain id.
pub fn hash_domain(name: &str, chain_id: u64) -> (r: Vec<u8>)
    ensures
        r@ == domain_separator(name@, chain_id),
        r@.len() == 32,
{
    let zero: [u8; 20] = vstd::array::array_fill_for_copy_types(0u8);
    assert(zero@ =~= zeros(20));
    let mut fields: Vec<TypedField> = Vec::new();
    fields.push(TypedField { name: "name", value: FieldValue::Text(String::from_str(name)) });
    fields.push(TypedField { name: "version", value: FieldValue::Text(String::from_str("1")) });
    fields.push(TypedField { name: "chainId", value: FieldValue::Uint256(chain_id) });
    fields.push(
        TypedField {
            name: "verifyingContract",
            value: FieldValue::Address(Address { bytes: zero }),
        },
    );
    assert(fields_view(fields@) =~= domain_fields(name@, chain_id));
    hash_struct("EIP712Domain", &fields)
}

/// The signing hash of a message under a domain.
pub fn hash_typed_data(domain_name: &str, chain_id: u64, primary: &str, fields: &Vec<TypedField>) -> (r:
    Vec<u8>)
    requires
        well_sized(fields@),
    ensures
        r@ == signing_hash(domain_name@, chain_id, primary@, fields_view(fields@)),
        r@.len() == 32,
{
    let mut out: Vec<u8> = Vec::new();
    out.push(0x19);
    out.push(0x01);
    let d = hash_domain(domain_name, chain_id);
    push_all(&mut out, d.as_slice());
    let s = hash_struct(primary, fields);
    push_all(&mut out, s.as_slice());
    assert(out@ =~= seq![0x19u8, 0x01u8] + domain_separator(domain_name@, chain_id) + struct_hash(
        primary@,
        fields_view(fields@),
    ));
    keccak(out.as_slice())
}

} // verus!
