//! Runtime type descriptors and the canonical binary encoding of values:
//! length-prefixed, little-endian, field order stable by declaration.
//! Resources are persisted and event payloads emitted in this encoding.

use vstd::bytes::spec_u32_to_le_bytes;
use vstd::bytes::spec_u32_from_le_bytes;
use vstd::bytes::spec_u64_to_le_bytes;
use vstd::bytes::spec_u64_from_le_bytes;
use vstd::bytes::u32_from_le_bytes;
use vstd::bytes::u32_to_le_bytes;
use vstd::bytes::u64_from_le_bytes;
use vstd::bytes::u64_to_le_bytes;
use vstd::prelude::*;
use vstd::slice::slice_subrange;

use crate::types::ADDRESS_LENGTH;
use crate::types::AccountAddress;
use crate::values::Struct;
use crate::values::VMString;
use crate::values::Value;
use crate::values::ValueV;
use crate::values::lemma_views_of_values;
use crate::values::views_of_values;

verus! {

/// A runtime struct type: the types of its fields, in declaration order.
#[derive(Debug, PartialEq, Eq)]
pub struct StructDef {
    pub field_types: Vec<Type>,
}

/// A runtime value type, used to drive deserialization of stored resources.
#[derive(Debug, PartialEq, Eq)]
pub enum Type {
    Bool,
    U64,
    Str,
    ByteArray,
    Address,
    Struct(StructDef),
}

/// The mathematical value of a `Type`.
#[verifier::ext_equal]
pub enum TypeV {
    Bool,
    U64,
    Str,
    ByteArray,
    Address,
    Struct(Seq<TypeV>),
}

/// The views of a sequence of types, in order.
pub open spec fn views_of_types(s: Seq<Type>) -> Seq<TypeV>
    decreases s,
{
    if s.len() == 0 {
        Seq::empty()
    } else {
        seq![s[0]@] + views_of_types(s.drop_first())
    }
}

impl View for StructDef {
    type V = Seq<TypeV>;

    open spec fn view(&self) -> Seq<TypeV>
        decreases self,
    {
        views_of_types(self.field_types@)
    }
}

impl View for Type {
    type V = TypeV;

    open spec fn view(&self) -> TypeV
        decreases self,
    {
        match self {
            Type::Bool => TypeV::Bool,
            Type::U64 => TypeV::U64,
            Type::Str => TypeV::Str,
            Type::ByteArray => TypeV::ByteArray,
            Type::Address => TypeV::Address,
            Type::Struct(def) => TypeV::Struct(views_of_types(def.field_types@)),
        }
    }
}

/// `views_of_types` maps each type to its view, in place.
pub proof fn lemma_views_of_types(s: Seq<Type>)
    ensures
        views_of_types(s).len() == s.len(),
        forall|i: int| 0 <= i < s.len() ==> #[trigger] views_of_types(s)[i] == s[i]@,
    decreases s.len(),
{
    if s.len() > 0 {
        lemma_views_of_types(s.drop_first());
        assert(views_of_types(s) == seq![s[0]@] + views_of_types(s.drop_first()));
        assert forall|i: int| 0 <= i < s.len() implies #[trigger] views_of_types(s)[i]
            == s[i]@ by {
            if i > 0 {
                assert(s.drop_first()[i - 1] == s[i]);
                assert((seq![s[0]@] + views_of_types(s.drop_first()))[i] == views_of_types(
                    s.drop_first(),
                )[i - 1]);
            }
        }
    }
}

impl StructDef {
    /// A struct type over the given field types.
    pub fn new(field_types: Vec<Type>) -> (r: StructDef)
        ensures
            r@ == views_of_types(field_types@),
    {
        StructDef { field_types }
    }

    /// How many fields the struct type declares.
    pub fn field_count(&self) -> (r: usize)
        ensures
            r == self@.len(),
    {
        proof {
            lemma_views_of_types(self.field_types@);
        }
        self.field_types.len()
    }
}

impl Type {
    /// A structural copy of the type.
    pub fn clone_type(&self) -> (r: Type)
        ensures
            r@ == self@,
        decreases *self,
    {
        match self {
            Type::Bool => Type::Bool,
            Type::U64 => Type::U64,
            Type::Str => Type::Str,
            Type::ByteArray => Type::ByteArray,
            Type::Address => Type::Address,
            Type::Struct(def) => {
                let fields = &def.field_types;
                let mut out: Vec<Type> = Vec::new();
                let mut i: usize = 0;
                while i < fields.len()
                    invariant
                        i <= fields@.len(),
                        out@.len() == i,
                        forall|j: int| 0 <= j < i ==> out@[j]@ == fields@[j]@,
                        *self == Type::Struct(StructDef { field_types: *fields }),
                    decreases fields@.len() - i,
                {
                    proof {
                        assert(decreases_to!(*self => self->Struct_0));
                        assert(decreases_to!(self->Struct_0 => self->Struct_0.field_types));
                        assert(decreases_to!(
                            self->Struct_0.field_types => self->Struct_0.field_types[i as int]));
                    }
                    out.push(fields[i].clone_type());
                    i += 1;
                }
                let r = Type::Struct(StructDef { field_types: out });
                proof {
                    lemma_views_of_types(out@);
                    lemma_views_of_types(fields@);
                    assert(views_of_types(out@) =~= views_of_types(fields@));
                }
                r
            },
        }
    }
}

impl Clone for Type {
    /// A copy describing the same type.
    fn clone(&self) -> (r: Type)
        ensures
            r@ == self@,
    {
        self.clone_type()
    }
}

impl Clone for StructDef {
    /// A copy describing the same struct type.
    fn clone(&self) -> (r: StructDef)
        ensures
            r@ == self@,
    {
        let r = match Type::Struct(StructDef { field_types: clone_types(&self.field_types) }) {
            Type::Struct(def) => def,
            _ => StructDef { field_types: Vec::new() },
        };
        r
    }
}

/// Copy a vector of types.
pub fn clone_types(v: &Vec<Type>) -> (r: Vec<Type>)
    ensures
        views_of_types(r@) == views_of_types(v@),
{
    let mut out: Vec<Type> = Vec::new();
    let mut i: usize = 0;
    while i < v.len()
        invariant
            i <= v@.len(),
            out@.len() == i,
            forall|j: int| 0 <= j < i ==> out@[j]@ == v@[j]@,
        decreases v@.len() - i,
    {
        out.push(v[i].clone_type());
        i += 1;
    }
    proof {
        lemma_views_of_types(out@);
        lemma_views_of_types(v@);
        assert(views_of_types(out@) =~= views_of_types(v@));
    }
    out
}

/// The canonical encoding of a value: booleans as one byte, integers
/// little-endian, addresses raw, byte arrays and strings length-prefixed,
/// structs as the concatenation of their fields. References and oversized
/// contents have no encoding.
pub open spec fn spec_serialize(v: ValueV) -> Option<Seq<u8>>
    decreases v,
{
    match v {
        ValueV::Bool(b) => Some(seq![if b { 1u8 } else { 0u8 }]),
        ValueV::U64(x) => Some(spec_u64_to_le_bytes(x)),
        ValueV::Address(bytes) => if bytes.len() == ADDRESS_LENGTH {
            Some(bytes)
        } else {
            None
        },
        ValueV::ByteArray(bytes) => if bytes.len() <= u32::MAX {
            Some(spec_u32_to_le_bytes(bytes.len() as u32) + bytes)
        } else {
            None
        },
        ValueV::Str(bytes) => if bytes.len() <= u32::MAX {
            Some(spec_u32_to_le_bytes(bytes.len() as u32) + bytes)
        } else {
            None
        },
        ValueV::Struct(fs) => spec_serialize_fields(fs),
        ValueV::Reference(_) => None,
    }
}

/// The concatenated canonical encodings of a sequence of field values.
pub open spec fn spec_serialize_fields(fs: Seq<ValueV>) -> Option<Seq<u8>>
    decreases fs,
{
    if fs.len() == 0 {
        Some(Seq::empty())
    } else {
        match spec_serialize(fs[0]) {
            Option::Some(head) => match spec_serialize_fields(fs.drop_first()) {
                Option::Some(rest) => Some(head + rest),
                Option::None => None,
            },
            Option::None => None,
        }
    }
}

/// Append the canonical encoding of `v` to `out`. Returns whether the value
/// has an encoding; on failure `out` is unchanged.
pub fn serialize_into(v: &Value, out: &mut Vec<u8>) -> (r: bool)
    ensures
        r == (spec_serialize(v@) is Some),
        r ==> final(out)@ == old(out)@ + spec_serialize(v@)->0,
        !r ==> final(out)@ == old(out)@,
    decreases *v, 0int,
{
    match v {
        Value::Bool(b) => {
            out.push(if *b { 1u8 } else { 0u8 });
            proof {
                assert(final(out)@ =~= old(out)@ + spec_serialize(v@)->0);
            }
            true
        },
        Value::U64(x) => {
            let mut bytes = u64_to_le_bytes(*x);
            out.append(&mut bytes);
            true
        },
        Value::Address(a) => {
            let mut bytes = a.to_vec();
            if bytes.len() != ADDRESS_LENGTH {
                return false;
            }
            out.append(&mut bytes);
            true
        },
        Value::ByteArray(bytes) => serialize_bytes_into(bytes, out),
        Value::Str(s) => serialize_bytes_into(s.as_bytes(), out),
        Value::Struct(s) => {
            proof {
                assert(decreases_to!(*v => v->Struct_0));
                assert(decreases_to!(v->Struct_0 => v->Struct_0.fields));
                assert(views_of_values(s.fields@).skip(0) =~= views_of_values(s.fields@));
            }
            serialize_fields_into(&s.fields, 0, out)
        },
        Value::Reference(_) => false,
    }
}

/// Append a length-prefixed byte string to `out`.
fn serialize_bytes_into(bytes: &Vec<u8>, out: &mut Vec<u8>) -> (r: bool)
    ensures
        r == (bytes@.len() <= u32::MAX),
        r ==> final(out)@ == old(out)@ + spec_u32_to_le_bytes(bytes@.len() as u32) + bytes@,
        !r ==> final(out)@ == old(out)@,
{
    if bytes.len() > u32::MAX as usize {
        return false;
    }
    let mut prefix = u32_to_le_bytes(bytes.len() as u32);
    out.append(&mut prefix);
    let mut contents = crate::types::clone_bytes(bytes);
    out.append(&mut contents);
    true
}

/// Append the canonical encodings of the fields of a struct, from `from` on.
fn serialize_fields_into(fs: &Vec<Value>, from: usize, out: &mut Vec<u8>) -> (r: bool)
    requires
        from <= fs@.len(),
    ensures
        r == (spec_serialize_fields(views_of_values(fs@).skip(from as int)) is Some),
        r ==> final(out)@ == old(out)@ + spec_serialize_fields(
            views_of_values(fs@).skip(from as int),
        )->0,
        !r ==> final(out)@ == old(out)@,
    decreases *fs, fs@.len() - from,
{
    proof {
        lemma_views_of_values(fs@);
    }
    let ghost vfs = views_of_values(fs@).skip(from as int);
    if from == fs.len() {
        assert(vfs.len() == 0);
        proof {
            assert(final(out)@ =~= old(out)@ + spec_serialize_fields(vfs)->0);
        }
        return true;
    }
    proof {
        assert(decreases_to!(*fs => fs[from as int]));
        assert(vfs[0] == fs@[from as int]@);
        assert(vfs.drop_first() =~= views_of_values(fs@).skip(from + 1));
    }
    let ghost out0 = out@;
    let len0 = out.len();
    let head_ok = serialize_into(&fs[from], out);
    if !head_ok {
        return false;
    }
    let rest_ok = serialize_fields_into(fs, from + 1, out);
    if !rest_ok {
        // A later field has no encoding: put the buffer back as it was.
        out.truncate(len0);
        proof {
            assert(final(out)@ =~= out0);
        }
        return false;
    }
    proof {
        assert(final(out)@ =~= out0 + spec_serialize_fields(vfs)->0);
    }
    true
}

impl Value {
    /// The canonical binary encoding of the value, or nothing for a value
    /// that has none (references, oversized contents).
    pub fn simple_serialize(&self) -> (r: Option<Vec<u8>>)
        ensures
            spec_serialize(self@) matches Some(bs) ==> r is Some && r->0@ == bs,
            spec_serialize(self@) is None ==> r is None,
    {
        let mut out: Vec<u8> = Vec::new();
        if serialize_into(self, &mut out) {
            Some(out)
        } else {
            None
        }
    }
}

} // verus!

verus! {

/// Decode one value of type `ty` from `bytes` starting at `pos`: the decoded
/// value and the position just past its encoding, or nothing on malformed
/// input.
pub open spec fn spec_deserialize(bytes: Seq<u8>, ty: TypeV, pos: int) -> Option<(ValueV, int)>
    decreases ty,
{
    match ty {
        TypeV::Bool => if pos + 1 <= bytes.len() {
            if bytes[pos] == 0 {
                Some((ValueV::Bool(false), pos + 1))
            } else if bytes[pos] == 1 {
                Some((ValueV::Bool(true), pos + 1))
            } else {
                None
            }
        } else {
            None
        },
        TypeV::U64 => if pos + 8 <= bytes.len() {
            Some((ValueV::U64(spec_u64_from_le_bytes(bytes.subrange(pos, pos + 8))), pos + 8))
        } else {
            None
        },
        TypeV::Address => if pos + ADDRESS_LENGTH <= bytes.len() {
            Some((ValueV::Address(bytes.subrange(pos, pos + ADDRESS_LENGTH)), pos + ADDRESS_LENGTH))
        } else {
            None
        },
        TypeV::ByteArray => match spec_deserialize_bytes(bytes, pos) {
            Option::Some((contents, end)) => Some((ValueV::ByteArray(contents), end)),
            Option::None => None,
        },
        TypeV::Str => match spec_deserialize_bytes(bytes, pos) {
            Option::Some((contents, end)) => Some((ValueV::Str(contents), end)),
            Option::None => None,
        },
        TypeV::Struct(tys) => match spec_deserialize_fields(bytes, tys, pos) {
            Option::Some((fs, end)) => Some((ValueV::Struct(fs), end)),
            Option::None => None,
        },
    }
}

/// Decode a length-prefixed byte string from `bytes` starting at `pos`.
pub open spec fn spec_deserialize_bytes(bytes: Seq<u8>, pos: int) -> Option<(Seq<u8>, int)> {
    if pos + 4 <= bytes.len() {
        let n = spec_u32_from_le_bytes(bytes.subrange(pos, pos + 4)) as int;
        if pos + 4 + n <= bytes.len() {
            Some((bytes.subrange(pos + 4, pos + 4 + n), pos + 4 + n))
        } else {
            None
        }
    } else {
        None
    }
}

/// Decode the fields of a struct, one after the other, from `bytes`.
pub open spec fn spec_deserialize_fields(bytes: Seq<u8>, tys: Seq<TypeV>, pos: int) -> Option<
    (Seq<ValueV>, int),
>
    decreases tys,
{
    if tys.len() == 0 {
        Some((Seq::empty(), pos))
    } else {
        match spec_deserialize(bytes, tys[0], pos) {
            Option::Some((head, mid)) => match spec_deserialize_fields(
                bytes,
                tys.drop_first(),
                mid,
            ) {
                Option::Some((rest, end)) => Some((seq![head] + rest, end)),
                Option::None => None,
            },
            Option::None => None,
        }
    }
}

/// Decode one value of type `ty` from `bytes` starting at `pos`.
pub fn deserialize_from(bytes: &Vec<u8>, ty: &Type, pos: usize) -> (r: Option<(Value, usize)>)
    requires
        pos <= bytes@.len(),
    ensures
        spec_deserialize(bytes@, ty@, pos as int) matches Some(x) ==> r is Some && (r->0).0@ == x.0
            && (r->0).1 == x.1 && pos <= x.1 <= bytes@.len(),
        spec_deserialize(bytes@, ty@, pos as int) is None ==> r is None,
    decreases *ty, 0int,
{
    match ty {
        Type::Bool => {
            if bytes.len() - pos >= 1 {
                let b = bytes[pos];
                if b == 0 {
                    Some((Value::Bool(false), pos + 1))
                } else if b == 1 {
                    Some((Value::Bool(true), pos + 1))
                } else {
                    None
                }
            } else {
                None
            }
        },
        Type::U64 => {
            if bytes.len() - pos >= 8 {
                let sub = slice_subrange(bytes.as_slice(), pos, pos + 8);
                let x = u64_from_le_bytes(sub);
                Some((Value::U64(x), pos + 8))
            } else {
                None
            }
        },
        Type::Address => {
            if bytes.len() - pos >= ADDRESS_LENGTH {
                let sub = slice_subrange(bytes.as_slice(), pos, pos + ADDRESS_LENGTH);
                let addr_bytes = vstd::slice::slice_to_vec(sub);
                Some((Value::Address(AccountAddress::new(addr_bytes)), pos + ADDRESS_LENGTH))
            } else {
                None
            }
        },
        Type::ByteArray => {
            match deserialize_bytes_from(bytes, pos) {
                Option::Some((contents, end)) => Some((Value::ByteArray(contents), end)),
                Option::None => None,
            }
        },
        Type::Str => {
            match deserialize_bytes_from(bytes, pos) {
                Option::Some((contents, end)) => Some((Value::Str(VMString::new(contents)), end)),
                Option::None => None,
            }
        },
        Type::Struct(def) => {
            proof {
                assert(decreases_to!(*ty => ty->Struct_0));
                assert(decreases_to!(ty->Struct_0 => ty->Struct_0.field_types));
                lemma_views_of_types(def.field_types@);
                assert(views_of_types(def.field_types@).skip(0) =~= views_of_types(
                    def.field_types@,
                ));
            }
            match deserialize_fields_from(bytes, &def.field_types, 0, pos) {
                Option::Some((fields, end)) => Some((Value::Struct(Struct { fields }), end)),
                Option::None => None,
            }
        },
    }
}

/// Decode a length-prefixed byte string from `bytes` starting at `pos`.
fn deserialize_bytes_from(bytes: &Vec<u8>, pos: usize) -> (r: Option<(Vec<u8>, usize)>)
    requires
        pos <= bytes@.len(),
    ensures
        spec_deserialize_bytes(bytes@, pos as int) matches Some(x) ==> r is Some && (r->0).0@ == x.0
            && (r->0).1 == x.1 && pos <= x.1 <= bytes@.len(),
        spec_deserialize_bytes(bytes@, pos as int) is None ==> r is None,
{
    if bytes.len() - pos >= 4 {
        let sub = slice_subrange(bytes.as_slice(), pos, pos + 4);
        let n = u32_from_le_bytes(sub) as usize;
        if bytes.len() - (pos + 4) >= n {
            let contents = vstd::slice::slice_to_vec(slice_subrange(bytes.as_slice(), pos + 4, pos + 4 + n));
            Some((contents, pos + 4 + n))
        } else {
            None
        }
    } else {
        None
    }
}

/// Decode struct fields typed by `tys` from `from` on, starting at `pos`.
fn deserialize_fields_from(bytes: &Vec<u8>, tys: &Vec<Type>, from: usize, pos: usize) -> (r:
    Option<(Vec<Value>, usize)>)
    requires
        from <= tys@.len(),
        pos <= bytes@.len(),
    ensures
        spec_deserialize_fields(bytes@, views_of_types(tys@).skip(from as int), pos as int)
            matches Some(x) ==> r is Some && views_of_values((r->0).0@) == x.0 && (r->0).1 == x.1
            && pos <= x.1 <= bytes@.len(),
        spec_deserialize_fields(bytes@, views_of_types(tys@).skip(from as int), pos as int)
            is None ==> r is None,
    decreases *tys, tys@.len() - from,
{
    proof {
        lemma_views_of_types(tys@);
    }
    let ghost vtys = views_of_types(tys@).skip(from as int);
    if from == tys.len() {
        assert(vtys.len() == 0);
        let empty: Vec<Value> = Vec::new();
        proof {
            lemma_views_of_values(empty@);
            assert(views_of_values(empty@) =~= Seq::<ValueV>::empty());
        }
        return Some((empty, pos));
    }
    proof {
        assert(decreases_to!(*tys => tys[from as int]));
        assert(vtys[0] == tys@[from as int]@);
        assert(vtys.drop_first() =~= views_of_types(tys@).skip(from + 1));
    }
    let (head, mid) = match deserialize_from(bytes, &tys[from], pos) {
        Option::Some(x) => x,
        Option::None => {
            return None;
        },
    };
    let (rest, end) = match deserialize_fields_from(bytes, tys, from + 1, mid) {
        Option::Some(x) => x,
        Option::None => {
            return None;
        },
    };
    let ghost vhead = head@;
    let ghost vrest_seq = rest@;
    proof {
        lemma_views_of_values(rest@);
    }
    let mut fields: Vec<Value> = Vec::new();
    fields.push(head);
    let mut rest_mut = rest;
    fields.append(&mut rest_mut);
    proof {
        lemma_views_of_values(fields@);
        lemma_views_of_values(vrest_seq);
        let x = spec_deserialize_fields(bytes@, vtys, pos as int)->0;
        assert(fields@ =~= seq![fields@[0]] + vrest_seq);
        assert forall|i: int| 0 <= i < fields@.len() implies views_of_values(fields@)[i]
            == x.0[i] by {
            if i == 0 {
                assert(fields@[0]@ == vhead);
            } else {
                assert(fields@[i] == vrest_seq[i - 1]);
                assert(views_of_values(vrest_seq)[i - 1] == vrest_seq[i - 1]@);
            }
        }
        assert(views_of_values(fields@) =~= x.0);
    }
    Some((fields, end))
}

impl Value {
    /// Decode a resource of the given struct type from its canonical
    /// encoding. The whole input must be consumed.
    pub fn simple_deserialize(blob: &Vec<u8>, def: &StructDef) -> (r: Option<Value>)
        ensures
            ({
                let parsed = spec_deserialize(blob@, TypeV::Struct(def@), 0);
                &&& parsed matches Some(x) ==> (x.1 == blob@.len() ==> r is Some && r->0@
                    == x.0)
                &&& parsed matches Some(x) ==> (x.1 != blob@.len() ==> r is None)
                &&& parsed is None ==> r is None
            }),
    {
        proof {
            lemma_views_of_types(def.field_types@);
        }
        let ty = Type::Struct(def.clone());
        match deserialize_from(blob, &ty, 0) {
            Option::Some((v, end)) => {
                if end == blob.len() {
                    Some(v)
                } else {
                    None
                }
            },
            Option::None => None,
        }
    }
}

} // verus!

verus! {

/// A value fits a type: the tags line up, an address has its fixed length,
/// variable-length contents fit their length prefix, and struct fields fit
/// their field types position by position. References fit no stored type.
pub open spec fn spec_value_matches_type(v: ValueV, ty: TypeV) -> bool
    decreases ty,
{
    match ty {
        TypeV::Bool => v is Bool,
        TypeV::U64 => v is U64,
        TypeV::Address => v matches ValueV::Address(bytes) && bytes.len() == ADDRESS_LENGTH,
        TypeV::ByteArray => v matches ValueV::ByteArray(bytes) && bytes.len() <= u32::MAX,
        TypeV::Str => v matches ValueV::Str(bytes) && bytes.len() <= u32::MAX,
        TypeV::Struct(tys) => v matches ValueV::Struct(fs) && spec_fields_match_types(fs, tys),
    }
}

/// Struct fields fit their field types, position by position.
pub open spec fn spec_fields_match_types(fs: Seq<ValueV>, tys: Seq<TypeV>) -> bool
    decreases tys,
{
    if fs.len() != tys.len() {
        false
    } else if tys.len() == 0 {
        true
    } else {
        spec_value_matches_type(fs[0], tys[0]) && spec_fields_match_types(
            fs.drop_first(),
            tys.drop_first(),
        )
    }
}

/// A value that fits a stored type has an encoding.
pub proof fn lemma_serialize_defined(v: ValueV, ty: TypeV)
    requires
        spec_value_matches_type(v, ty),
    ensures
        spec_serialize(v) is Some,
    decreases ty,
{
    match ty {
        TypeV::Struct(tys) => {
            lemma_serialize_fields_defined(v->Struct_0, tys);
        },
        _ => {},
    }
}

/// Fields that fit their types have an encoding.
pub proof fn lemma_serialize_fields_defined(fs: Seq<ValueV>, tys: Seq<TypeV>)
    requires
        spec_fields_match_types(fs, tys),
    ensures
        spec_serialize_fields(fs) is Some,
    decreases tys,
{
    if tys.len() > 0 {
        lemma_serialize_defined(fs[0], tys[0]);
        lemma_serialize_fields_defined(fs.drop_first(), tys.drop_first());
    }
}

/// Decoding undoes encoding, wherever the encoding sits in a buffer: a
/// buffer holding the canonical bytes of a value that fits the decoded
/// type, from `pos` on, decodes from `pos` to exactly that value, ending
/// just past its bytes.
pub proof fn lemma_deserialize_serialize(v: ValueV, ty: TypeV, bytes: Seq<u8>, pos: int)
    requires
        spec_value_matches_type(v, ty),
        0 <= pos,
        pos + spec_serialize(v)->0.len() <= bytes.len(),
        bytes.subrange(pos, pos + spec_serialize(v)->0.len() as int) == spec_serialize(v)->0,
    ensures
        spec_deserialize(bytes, ty, pos) == Some((v, pos + spec_serialize(v)->0.len() as int)),
    decreases ty,
{
    lemma_serialize_defined(v, ty);
    let enc = spec_serialize(v)->0;
    match ty {
        TypeV::Bool => {
            assert(bytes[pos] == enc[0]);
        },
        TypeV::U64 => {
            let x = v->U64_0;
            vstd::bytes::lemma_auto_spec_u64_to_from_le_bytes();
            assert(bytes.subrange(pos, pos + 8) =~= spec_u64_to_le_bytes(x));
        },
        TypeV::Address => {
            assert(bytes.subrange(pos, pos + ADDRESS_LENGTH as int) =~= v->Address_0);
        },
        TypeV::ByteArray => {
            let contents = v->ByteArray_0;
            let n = contents.len() as int;
            vstd::bytes::lemma_auto_spec_u32_to_from_le_bytes();
            assert(bytes.subrange(pos, pos + 4) =~= spec_u32_to_le_bytes(contents.len() as u32))
                by {
                assert forall|i: int| 0 <= i < 4 implies #[trigger] bytes.subrange(
                    pos,
                    pos + 4,
                )[i] == spec_u32_to_le_bytes(contents.len() as u32)[i] by {
                    assert(bytes[pos + i] == enc[i]);
                }
            }
            assert(spec_u32_from_le_bytes(bytes.subrange(pos, pos + 4)) == contents.len() as u32);
            assert(bytes.subrange(pos + 4, pos + 4 + n) =~= contents) by {
                assert forall|i: int| 0 <= i < n implies #[trigger] bytes.subrange(
                    pos + 4,
                    pos + 4 + n,
                )[i] == contents[i] by {
                    assert(bytes[pos + 4 + i] == enc[4 + i]);
                }
            }
        },
        TypeV::Str => {
            let contents = v->Str_0;
            let n = contents.len() as int;
            vstd::bytes::lemma_auto_spec_u32_to_from_le_bytes();
            assert(bytes.subrange(pos, pos + 4) =~= spec_u32_to_le_bytes(contents.len() as u32))
                by {
                assert forall|i: int| 0 <= i < 4 implies #[trigger] bytes.subrange(
                    pos,
                    pos + 4,
                )[i] == spec_u32_to_le_bytes(contents.len() as u32)[i] by {
                    assert(bytes[pos + i] == enc[i]);
                }
            }
            assert(spec_u32_from_le_bytes(bytes.subrange(pos, pos + 4)) == contents.len() as u32);
            assert(bytes.subrange(pos + 4, pos + 4 + n) =~= contents) by {
                assert forall|i: int| 0 <= i < n implies #[trigger] bytes.subrange(
                    pos + 4,
                    pos + 4 + n,
                )[i] == contents[i] by {
                    assert(bytes[pos + 4 + i] == enc[4 + i]);
                }
            }
        },
        TypeV::Struct(tys) => {
            let fs = v->Struct_0;
            lemma_deserialize_serialize_fields(fs, tys, bytes, pos);
        },
    }
}

/// Decoding a field sequence undoes encoding it, wherever it sits.
pub proof fn lemma_deserialize_serialize_fields(
    fs: Seq<ValueV>,
    tys: Seq<TypeV>,
    bytes: Seq<u8>,
    pos: int,
)
    requires
        spec_fields_match_types(fs, tys),
        0 <= pos,
        pos + spec_serialize_fields(fs)->0.len() <= bytes.len(),
        bytes.subrange(pos, pos + spec_serialize_fields(fs)->0.len() as int)
            == spec_serialize_fields(fs)->0,
    ensures
        spec_deserialize_fields(bytes, tys, pos) == Some(
            (fs, pos + spec_serialize_fields(fs)->0.len() as int),
        ),
    decreases tys,
{
    lemma_serialize_fields_defined(fs, tys);
    if tys.len() == 0 {
        assert(fs =~= Seq::<ValueV>::empty());
    } else {
        let head = fs[0];
        let rest = fs.drop_first();
        lemma_serialize_defined(head, tys[0]);
        lemma_serialize_fields_defined(rest, tys.drop_first());
        let head_enc = spec_serialize(head)->0;
        let rest_enc = spec_serialize_fields(rest)->0;
        let enc = spec_serialize_fields(fs)->0;
        assert(enc == head_enc + rest_enc);
        assert(bytes.subrange(pos, pos + head_enc.len() as int) =~= head_enc) by {
            assert forall|i: int| 0 <= i < head_enc.len() implies #[trigger] bytes.subrange(
                pos,
                pos + head_enc.len() as int,
            )[i] == head_enc[i] by {
                assert(bytes[pos + i] == enc[i]);
            }
        }
        lemma_deserialize_serialize(head, tys[0], bytes, pos);
        let mid = pos + head_enc.len() as int;
        assert(bytes.subrange(mid, mid + rest_enc.len() as int) =~= rest_enc) by {
            assert forall|i: int| 0 <= i < rest_enc.len() implies #[trigger] bytes.subrange(
                mid,
                mid + rest_enc.len() as int,
            )[i] == rest_enc[i] by {
                assert(bytes[mid + i] == enc[head_enc.len() + i]);
            }
        }
        lemma_deserialize_serialize_fields(rest, tys.drop_first(), bytes, mid);
        assert(seq![head] + rest =~= fs);
    }
}

/// The canonical encoding round-trips: a resource that fits its struct
/// type decodes from its own encoding to exactly itself, consuming every
/// byte.
pub proof fn lemma_round_trip(v: ValueV, tys: Seq<TypeV>)
    requires
        spec_value_matches_type(v, TypeV::Struct(tys)),
    ensures
        spec_serialize(v) is Some,
        spec_deserialize(spec_serialize(v)->0, TypeV::Struct(tys), 0) == Some(
            (v, spec_serialize(v)->0.len() as int),
        ),
{
    lemma_serialize_defined(v, TypeV::Struct(tys));
    let enc = spec_serialize(v)->0;
    assert(enc.subrange(0, enc.len() as int) =~= enc);
    lemma_deserialize_serialize(v, TypeV::Struct(tys), enc, 0);
}

} // verus!
