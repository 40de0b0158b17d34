//! The runtime value model: tagged values, references into locals or global
//! storage, structs, and the locals array of an activation frame.

use vstd::prelude::*;

use crate::gas_schedule::AbstractMemorySize;
use crate::status::StatusCode;
use crate::status::VMResult;
use crate::status::VMStatus;
use crate::types::AccessPath;
use crate::types::AccessPathV;
use crate::types::AccountAddress;
use crate::types::clone_bytes;
use crate::types::eq_bytes;

verus! {

/// A runtime string value, held as its raw bytes.
#[derive(Debug, PartialEq, Eq)]
pub struct VMString {
    bytes: Vec<u8>,
}

impl View for VMString {
    type V = Seq<u8>;

    closed spec fn view(&self) -> Seq<u8> {
        self.bytes@
    }
}

impl VMString {
    /// A runtime string over the given bytes.
    pub fn new(bytes: Vec<u8>) -> (r: VMString)
        ensures
            r@ == bytes@,
    {
        VMString { bytes }
    }

    /// The bytes of the string.
    pub fn as_bytes(&self) -> (r: &Vec<u8>)
        ensures
            r@ == self@,
    {
        &self.bytes
    }
}

impl Clone for VMString {
    /// A copy holding the same bytes.
    fn clone(&self) -> (r: VMString)
        ensures
            r@ == self@,
    {
        VMString { bytes: clone_bytes(&self.bytes) }
    }
}

/// A reference into the locals of an activation frame, or into a field
/// reachable from one: the index of the frame in the call stack at the time
/// the borrow was taken (the current frame counts as the stack's length),
/// the local slot, and the field path below it.
#[derive(Debug, PartialEq, Eq)]
pub struct LocalRef {
    pub frame_depth: usize,
    pub local_index: u8,
    pub path: Vec<u16>,
}

/// A logical back-reference into the data cache's resource map: the access
/// path of the resource and the field path below it. Resolved on every read
/// through the access path.
#[derive(Debug, PartialEq, Eq)]
pub struct GlobalRef {
    pub ap: AccessPath,
    pub path: Vec<u16>,
}

/// A reference value: local and global references are distinguished only at
/// the value layer, with no mutability distinction at runtime.
#[derive(Debug, PartialEq, Eq)]
pub enum ReferenceValue {
    Local(LocalRef),
    Global(GlobalRef),
}

/// The mathematical value of a `ReferenceValue`.
#[verifier::ext_equal]
pub enum ReferenceValueV {
    Local { frame_depth: usize, local_index: u8, path: Seq<u16> },
    Global { ap: AccessPathV, path: Seq<u16> },
}

impl View for ReferenceValue {
    type V = ReferenceValueV;

    open spec fn view(&self) -> ReferenceValueV {
        match self {
            ReferenceValue::Local(l) => ReferenceValueV::Local {
                frame_depth: l.frame_depth,
                local_index: l.local_index,
                path: l.path@,
            },
            ReferenceValue::Global(g) => ReferenceValueV::Global { ap: g.ap@, path: g.path@ },
        }
    }
}

impl Clone for ReferenceValue {
    /// A copy naming the same referent.
    fn clone(&self) -> (r: ReferenceValue)
        ensures
            r@ == self@,
    {
        let r = match self {
            ReferenceValue::Local(l) => ReferenceValue::Local(
                LocalRef {
                    frame_depth: l.frame_depth,
                    local_index: l.local_index,
                    path: clone_u16s(&l.path),
                },
            ),
            ReferenceValue::Global(g) => ReferenceValue::Global(
                GlobalRef { ap: g.ap.clone(), path: clone_u16s(&g.path) },
            ),
        };
        proof {
            assert(r@ =~= self@);
        }
        r
    }
}

/// Copy a vector of field offsets.
pub fn clone_u16s(v: &Vec<u16>) -> (r: Vec<u16>)
    ensures
        r@ == v@,
{
    let mut r: Vec<u16> = Vec::new();
    let mut i: usize = 0;
    while i < v.len()
        invariant
            i <= v@.len(),
            r@ =~= v@.take(i as int),
        decreases v@.len() - i,
    {
        r.push(v[i]);
        i += 1;
    }
    proof {
        assert(r@ =~= v@);
    }
    r
}

/// An ordered sequence of field values.
#[derive(Debug, PartialEq, Eq)]
pub struct Struct {
    pub fields: Vec<Value>,
}

/// A tagged runtime value.
#[derive(Debug, PartialEq, Eq)]
pub enum Value {
    Bool(bool),
    U64(u64),
    Address(AccountAddress),
    ByteArray(Vec<u8>),
    Str(VMString),
    Struct(Struct),
    Reference(ReferenceValue),
}

/// The mathematical value of a `Value`.
#[verifier::ext_equal]
pub enum ValueV {
    Bool(bool),
    U64(u64),
    Address(Seq<u8>),
    ByteArray(Seq<u8>),
    Str(Seq<u8>),
    Struct(Seq<ValueV>),
    Reference(ReferenceValueV),
}

/// The views of a sequence of values, in order.
pub open spec fn views_of_values(s: Seq<Value>) -> Seq<ValueV>
    decreases s,
{
    if s.len() == 0 {
        Seq::empty()
    } else {
        seq![s[0]@] + views_of_values(s.drop_first())
    }
}

impl View for Struct {
    type V = Seq<ValueV>;

    open spec fn view(&self) -> Seq<ValueV>
        decreases self,
    {
        views_of_values(self.fields@)
    }
}

impl View for Value {
    type V = ValueV;

    open spec fn view(&self) -> ValueV
        decreases self,
    {
        match self {
            Value::Bool(b) => ValueV::Bool(*b),
            Value::U64(x) => ValueV::U64(*x),
            Value::Address(a) => ValueV::Address(a@),
            Value::ByteArray(bytes) => ValueV::ByteArray(bytes@),
            Value::Str(s) => ValueV::Str(s@),
            Value::Struct(s) => ValueV::Struct(views_of_values(s.fields@)),
            Value::Reference(r) => ValueV::Reference(r@),
        }
    }
}

/// `views_of_values` maps each value to its view, in place.
pub proof fn lemma_views_of_values(s: Seq<Value>)
    ensures
        views_of_values(s).len() == s.len(),
        forall|i: int| 0 <= i < s.len() ==> #[trigger] views_of_values(s)[i] == s[i]@,
    decreases s.len(),
{
    if s.len() > 0 {
        lemma_views_of_values(s.drop_first());
        assert(views_of_values(s) == seq![s[0]@] + views_of_values(s.drop_first()));
        assert forall|i: int| 0 <= i < s.len() implies #[trigger] views_of_values(s)[i]
            == s[i]@ by {
            if i > 0 {
                assert(s.drop_first()[i - 1] == s[i]);
                assert((seq![s[0]@] + views_of_values(s.drop_first()))[i] == views_of_values(
                    s.drop_first(),
                )[i - 1]);
            }
        }
    }
}

impl Struct {
    /// A struct over the given field values.
    pub fn new(fields: Vec<Value>) -> (r: Struct)
        ensures
            r@ == views_of_values(fields@),
    {
        Struct { fields }
    }

    /// How many fields the struct has.
    pub fn field_count(&self) -> (r: usize)
        ensures
            r == self@.len(),
    {
        proof {
            lemma_views_of_values(self.fields@);
        }
        self.fields.len()
    }

    /// A copy of the field at the given offset.
    pub fn get_field_value(&self, idx: usize) -> (r: VMResult<Value>)
        ensures
            idx < self@.len() ==> r is Ok && r->Ok_0@ == self@[idx as int],
            idx >= self@.len() ==> r is Err && r->Err_0.major_status
                == StatusCode::VerifierInvariantViolation,
    {
        proof {
            lemma_views_of_values(self.fields@);
        }
        if idx < self.fields.len() {
            Ok(self.fields[idx].clone_value())
        } else {
            Err(VMStatus::new(StatusCode::VerifierInvariantViolation))
        }
    }
}

impl Value {
    /// A boolean value.
    pub fn bool(b: bool) -> (r: Value)
        ensures
            r@ == ValueV::Bool(b),
    {
        Value::Bool(b)
    }

    /// An unsigned 64-bit integer value.
    pub fn u64(x: u64) -> (r: Value)
        ensures
            r@ == ValueV::U64(x),
    {
        Value::U64(x)
    }

    /// An address value.
    pub fn address(a: AccountAddress) -> (r: Value)
        ensures
            r@ == ValueV::Address(a@),
    {
        Value::Address(a)
    }

    /// A byte-array value.
    pub fn byte_array(bytes: Vec<u8>) -> (r: Value)
        ensures
            r@ == ValueV::ByteArray(bytes@),
    {
        Value::ByteArray(bytes)
    }

    /// A string value.
    pub fn string(s: VMString) -> (r: Value)
        ensures
            r@ == ValueV::Str(s@),
    {
        Value::Str(s)
    }

    /// A struct value.
    pub fn struct_(s: Struct) -> (r: Value)
        ensures
            r@ == ValueV::Struct(s@),
    {
        Value::Struct(s)
    }

    /// A global reference value.
    pub fn global_ref(g: GlobalRef) -> (r: Value)
        ensures
            r@ == ValueV::Reference(ReferenceValueV::Global { ap: g.ap@, path: g.path@ }),
    {
        Value::Reference(ReferenceValue::Global(g))
    }

    /// A structural copy of the value.
    pub fn clone_value(&self) -> (r: Value)
        ensures
            r@ == self@,
        decreases *self,
    {
        match self {
            Value::Bool(b) => Value::Bool(*b),
            Value::U64(x) => Value::U64(*x),
            Value::Address(a) => Value::Address(a.clone()),
            Value::ByteArray(bytes) => Value::ByteArray(clone_bytes(bytes)),
            Value::Str(s) => Value::Str(s.clone()),
            Value::Struct(s) => {
                let fields = &s.fields;
                let mut out: Vec<Value> = Vec::new();
                let mut i: usize = 0;
                while i < fields.len()
                    invariant
                        i <= fields@.len(),
                        out@.len() == i,
                        forall|j: int| 0 <= j < i ==> out@[j]@ == fields@[j]@,
                        *self == Value::Struct(Struct { fields: *fields }),
                    decreases fields@.len() - i,
                {
                    proof {
                        assert(decreases_to!(*self => self->Struct_0));
                        assert(decreases_to!(self->Struct_0 => self->Struct_0.fields));
                        assert(decreases_to!(
                            self->Struct_0.fields => self->Struct_0.fields[i as int]));
                    }
                    out.push(fields[i].clone_value());
                    i += 1;
                }
                let r = Value::Struct(Struct { fields: out });
                proof {
                    lemma_views_of_values(out@);
                    lemma_views_of_values(fields@);
                    assert(views_of_values(out@) =~= views_of_values(fields@));
                }
                r
            },
            Value::Reference(rv) => Value::Reference(rv.clone()),
        }
    }

    /// Take the value as a boolean, or fail on any other tag.
    pub fn into_bool(self) -> (r: VMResult<bool>)
        ensures
            self@ is Bool ==> r is Ok && ValueV::Bool(r->Ok_0) == self@,
            !(self@ is Bool) ==> r is Err && r->Err_0.major_status == StatusCode::InternalTypeError
                && r->Err_0.sub_status is None,
    {
        match self {
            Value::Bool(b) => Ok(b),
            _ => Err(VMStatus::new(StatusCode::InternalTypeError)),
        }
    }

    /// Take the value as an unsigned 64-bit integer, or fail on any other tag.
    pub fn into_u64(self) -> (r: VMResult<u64>)
        ensures
            self@ is U64 ==> r is Ok && ValueV::U64(r->Ok_0) == self@,
            !(self@ is U64) ==> r is Err && r->Err_0.major_status == StatusCode::InternalTypeError
                && r->Err_0.sub_status is None,
    {
        match self {
            Value::U64(x) => Ok(x),
            _ => Err(VMStatus::new(StatusCode::InternalTypeError)),
        }
    }

    /// Take the value as an address, or fail on any other tag.
    pub fn into_address(self) -> (r: VMResult<AccountAddress>)
        ensures
            self@ is Address ==> r is Ok && ValueV::Address(r->Ok_0@) == self@,
            !(self@ is Address) ==> r is Err && r->Err_0.major_status
                == StatusCode::InternalTypeError && r->Err_0.sub_status is None,
    {
        match self {
            Value::Address(a) => Ok(a),
            _ => Err(VMStatus::new(StatusCode::InternalTypeError)),
        }
    }

    /// Take the value as a byte array, or fail on any other tag.
    pub fn into_byte_array(self) -> (r: VMResult<Vec<u8>>)
        ensures
            self@ is ByteArray ==> r is Ok && ValueV::ByteArray(r->Ok_0@) == self@,
            !(self@ is ByteArray) ==> r is Err && r->Err_0.major_status
                == StatusCode::InternalTypeError && r->Err_0.sub_status is None,
    {
        match self {
            Value::ByteArray(bytes) => Ok(bytes),
            _ => Err(VMStatus::new(StatusCode::InternalTypeError)),
        }
    }

    /// Take the value as a struct, or fail on any other tag.
    pub fn into_struct(self) -> (r: VMResult<Struct>)
        ensures
            self@ is Struct ==> r is Ok && ValueV::Struct(r->Ok_0@) == self@,
            !(self@ is Struct) ==> r is Err && r->Err_0.major_status
                == StatusCode::InternalTypeError && r->Err_0.sub_status is None,
    {
        match self {
            Value::Struct(s) => Ok(s),
            _ => Err(VMStatus::new(StatusCode::InternalTypeError)),
        }
    }

    /// Take the value as a reference, or fail on any other tag.
    pub fn into_reference(self) -> (r: VMResult<ReferenceValue>)
        ensures
            self@ is Reference ==> r is Ok && ValueV::Reference(r->Ok_0@) == self@,
            !(self@ is Reference) ==> r is Err && r->Err_0.major_status
                == StatusCode::InternalTypeError && r->Err_0.sub_status is None,
    {
        match self {
            Value::Reference(rv) => Ok(rv),
            _ => Err(VMStatus::new(StatusCode::InternalTypeError)),
        }
    }
}

impl Clone for Value {
    /// A copy holding the same mathematical value.
    fn clone(&self) -> (r: Value)
        ensures
            r@ == self@,
    {
        self.clone_value()
    }
}

} // verus!

verus! {

/// The size, in abstract memory units, of a boolean or integer constant.
pub const BOOL_OR_INT_SIZE: u64 = 1;

/// The size, in abstract memory units, of an address value.
pub const ADDRESS_VALUE_SIZE: u64 = 32;

/// The size, in abstract memory units, of a reference value.
pub const REFERENCE_VALUE_SIZE: u64 = 8;

/// The base size, in abstract memory units, of a struct value.
pub const STRUCT_BASE_SIZE: u64 = 2;

/// The abstract memory size of a value: constants count one unit, addresses
/// their byte length, byte arrays and strings their contents, references a
/// fixed unit, and structs a base size plus their fields.
pub open spec fn spec_size(v: ValueV) -> int
    decreases v,
{
    match v {
        ValueV::Bool(_) => BOOL_OR_INT_SIZE as int,
        ValueV::U64(_) => BOOL_OR_INT_SIZE as int,
        ValueV::Address(bytes) => ADDRESS_VALUE_SIZE as int,
        ValueV::ByteArray(bytes) => bytes.len() as int,
        ValueV::Str(bytes) => bytes.len() as int,
        ValueV::Struct(fs) => STRUCT_BASE_SIZE + spec_size_fields(fs),
        ValueV::Reference(_) => REFERENCE_VALUE_SIZE as int,
    }
}

/// The summed abstract memory size of a sequence of field values.
pub open spec fn spec_size_fields(fs: Seq<ValueV>) -> int
    decreases fs,
{
    if fs.len() == 0 {
        0
    } else {
        spec_size(fs[0]) + spec_size_fields(fs.drop_first())
    }
}

/// The outcome of comparing two values structurally: `None` when the values
/// are incomparable (differently tagged, or structs of different arity).
pub open spec fn spec_equals(a: ValueV, b: ValueV) -> Option<bool>
    decreases a,
{
    match (a, b) {
        (ValueV::Bool(x), ValueV::Bool(y)) => Some(x == y),
        (ValueV::U64(x), ValueV::U64(y)) => Some(x == y),
        (ValueV::Address(x), ValueV::Address(y)) => Some(x == y),
        (ValueV::ByteArray(x), ValueV::ByteArray(y)) => Some(x == y),
        (ValueV::Str(x), ValueV::Str(y)) => Some(x == y),
        (ValueV::Struct(xs), ValueV::Struct(ys)) => spec_equals_fields(xs, ys),
        (ValueV::Reference(x), ValueV::Reference(y)) => Some(x == y),
        _ => None,
    }
}

/// Structural comparison of two field sequences, position by position.
pub open spec fn spec_equals_fields(xs: Seq<ValueV>, ys: Seq<ValueV>) -> Option<bool>
    decreases xs,
{
    if xs.len() != ys.len() {
        None
    } else if xs.len() == 0 {
        Some(true)
    } else {
        match spec_equals(xs[0], ys[0]) {
            Option::None => None,
            Option::Some(e) => match spec_equals_fields(xs.drop_first(), ys.drop_first()) {
                Option::None => None,
                Option::Some(rest) => Some(e && rest),
            },
        }
    }
}

/// A successful structural comparison decides mathematical equality.
pub proof fn lemma_spec_equals_decides(a: ValueV, b: ValueV)
    ensures
        spec_equals(a, b) matches Some(r) ==> (r <==> a == b),
    decreases a,
{
    match (a, b) {
        (ValueV::Struct(xs), ValueV::Struct(ys)) => {
            lemma_spec_equals_fields_decides(xs, ys);
            if spec_equals_fields(xs, ys) == Some(true) {
                assert(a =~= b);
            }
        },
        _ => {
            if spec_equals(a, b) == Some(true) {
                assert(a =~~= b);
            }
        },
    }
}

/// A successful field-by-field comparison decides equality of the sequences.
pub proof fn lemma_spec_equals_fields_decides(xs: Seq<ValueV>, ys: Seq<ValueV>)
    ensures
        spec_equals_fields(xs, ys) matches Some(r) ==> (r <==> xs == ys),
    decreases xs,
{
    if xs.len() == ys.len() && xs.len() == 0 {
        assert(xs =~= ys);
    }
    if xs.len() == ys.len() && xs.len() > 0 {
        lemma_spec_equals_decides(xs[0], ys[0]);
        lemma_spec_equals_fields_decides(xs.drop_first(), ys.drop_first());
        match spec_equals_fields(xs, ys) {
            Option::Some(r) => {
                if r {
                    assert(xs[0] == ys[0]);
                    assert(xs.drop_first() == ys.drop_first());
                    assert(xs =~= seq![xs[0]] + xs.drop_first());
                    assert(ys =~= seq![ys[0]] + ys.drop_first());
                } else {
                    if xs[0] != ys[0] {
                        assert(xs != ys);
                    } else {
                        assert(xs.drop_first() != ys.drop_first());
                        if xs == ys {
                            assert(xs.drop_first() =~= ys.drop_first());
                        }
                    }
                }
            },
            Option::None => {},
        }
    }
}

impl Value {
    /// Structural equality of two values; fails on incomparable types.
    pub fn equals(&self, other: &Value) -> (r: VMResult<bool>)
        ensures
            spec_equals(self@, other@) matches Some(e) ==> r is Ok && r->Ok_0 == e,
            spec_equals(self@, other@) is None ==> r is Err && r->Err_0.major_status
                == StatusCode::InternalTypeError && r->Err_0.sub_status is None,
        decreases *self, 0int,
    {
        match (self, other) {
            (Value::Bool(x), Value::Bool(y)) => Ok(*x == *y),
            (Value::U64(x), Value::U64(y)) => Ok(*x == *y),
            (Value::Address(x), Value::Address(y)) => Ok(x.equals(y)),
            (Value::ByteArray(x), Value::ByteArray(y)) => Ok(eq_bytes(x, y)),
            (Value::Str(x), Value::Str(y)) => Ok(eq_bytes(x.as_bytes(), y.as_bytes())),
            (Value::Struct(xs), Value::Struct(ys)) => {
                proof {
                    assert(decreases_to!(*self => self->Struct_0));
                    assert(decreases_to!(self->Struct_0 => self->Struct_0.fields));
                    assert(views_of_values(xs.fields@).skip(0) =~= views_of_values(xs.fields@));
                    assert(views_of_values(ys.fields@).skip(0) =~= views_of_values(ys.fields@));
                }
                equals_fields(&xs.fields, &ys.fields, 0)
            },
            (Value::Reference(x), Value::Reference(y)) => {
                let r = reference_equals(x, y);
                proof {
                    if x@ == y@ {
                        assert(self@ =~= other@);
                    }
                }
                Ok(r)
            },
            _ => Err(VMStatus::new(StatusCode::InternalTypeError)),
        }
    }

    /// Structural inequality of two values; fails on incomparable types.
    pub fn not_equals(&self, other: &Value) -> (r: VMResult<bool>)
        ensures
            spec_equals(self@, other@) matches Some(e) ==> r is Ok && r->Ok_0 == !e,
            spec_equals(self@, other@) is None ==> r is Err && r->Err_0.major_status
                == StatusCode::InternalTypeError && r->Err_0.sub_status is None,
    {
        match self.equals(other) {
            Ok(e) => Ok(!e),
            Err(e) => Err(e),
        }
    }
}

/// Whether two field offset paths are the same.
fn eq_u16s(a: &Vec<u16>, b: &Vec<u16>) -> (r: bool)
    ensures
        r == (a@ == b@),
{
    proof {
        broadcast use vstd::laws_eq::axiom_structural_obeys_concrete_eq;
        broadcast use vstd::std_specs::vec::lemma_vec_obeys_view_eq;

        assert(vstd::laws_eq::obeys_concrete_eq::<u16>());
        assert(vstd::laws_eq::obeys_view_eq::<Vec<u16>>());
    }
    let r = *a == *b;
    proof {
        reveal(vstd::laws_eq::obeys_view_eq);
    }
    r
}

/// Whether two references name the same referent.
pub fn reference_equals(a: &ReferenceValue, b: &ReferenceValue) -> (r: bool)
    ensures
        r == (a@ == b@),
{
    let r = match (a, b) {
        (ReferenceValue::Local(x), ReferenceValue::Local(y)) => x.frame_depth == y.frame_depth
            && x.local_index == y.local_index && eq_u16s(&x.path, &y.path),
        (ReferenceValue::Global(x), ReferenceValue::Global(y)) => x.ap.equals(&y.ap) && eq_u16s(
            &x.path,
            &y.path,
        ),
        _ => false,
    };
    proof {
        if r {
            assert(a@ =~= b@);
        }
    }
    r
}

/// Field-by-field structural comparison of two field vectors, from `from` on.
fn equals_fields(xs: &Vec<Value>, ys: &Vec<Value>, from: usize) -> (r: VMResult<bool>)
    requires
        from <= xs@.len(),
        from <= ys@.len(),
    ensures
        spec_equals_fields(views_of_values(xs@).skip(from as int), views_of_values(ys@).skip(from as int))
            matches Some(e) ==> r is Ok && r->Ok_0 == e,
        spec_equals_fields(views_of_values(xs@).skip(from as int), views_of_values(ys@).skip(from as int))
            is None ==> r is Err && r->Err_0.major_status == StatusCode::InternalTypeError
            && r->Err_0.sub_status is None,
    decreases *xs, xs@.len() - from,
{
    proof {
        lemma_views_of_values(xs@);
        lemma_views_of_values(ys@);
    }
    let ghost vxs = views_of_values(xs@).skip(from as int);
    let ghost vys = views_of_values(ys@).skip(from as int);
    if xs.len() != ys.len() {
        assert(vxs.len() != vys.len());
        return Err(VMStatus::new(StatusCode::InternalTypeError));
    }
    if from == xs.len() {
        assert(vxs.len() == 0 && vys.len() == 0);
        return Ok(true);
    }
    proof {
        assert(decreases_to!(*xs => xs[from as int]));
        assert(vxs[0] == xs@[from as int]@);
        assert(vys[0] == ys@[from as int]@);
    }
    let e = match xs[from].equals(&ys[from]) {
        Ok(e) => e,
        Err(err) => {
            return Err(err);
        },
    };
    proof {
        assert(vxs.drop_first() =~= views_of_values(xs@).skip(from + 1));
        assert(vys.drop_first() =~= views_of_values(ys@).skip(from + 1));
    }
    let rest = match equals_fields(xs, ys, from + 1) {
        Ok(rest) => rest,
        Err(err) => {
            return Err(err);
        },
    };
    Ok(e && rest)
}

} // verus!

verus! {

impl Value {
    /// The abstract memory size of the value, for gas accounting. Fails with
    /// an arithmetic error when the total does not fit the gas carrier.
    pub fn size(&self) -> (r: VMResult<AbstractMemorySize>)
        ensures
            spec_size(self@) <= u64::MAX ==> r is Ok && r->Ok_0.0 == spec_size(self@),
            spec_size(self@) > u64::MAX ==> r is Err && r->Err_0.major_status
                == StatusCode::ArithmeticError,
        decreases *self, 0int,
    {
        match self {
            Value::Bool(_) => Ok(AbstractMemorySize(BOOL_OR_INT_SIZE)),
            Value::U64(_) => Ok(AbstractMemorySize(BOOL_OR_INT_SIZE)),
            Value::Address(_) => Ok(AbstractMemorySize(ADDRESS_VALUE_SIZE)),
            Value::ByteArray(bytes) => Ok(AbstractMemorySize(bytes.len() as u64)),
            Value::Str(s) => Ok(AbstractMemorySize(s.as_bytes().len() as u64)),
            Value::Struct(s) => {
                proof {
                    assert(decreases_to!(*self => self->Struct_0));
                    assert(decreases_to!(self->Struct_0 => self->Struct_0.fields));
                    lemma_spec_size_fields_nonnegative(views_of_values(s.fields@));
                    assert(views_of_values(s.fields@).skip(0) =~= views_of_values(s.fields@));
                }
                let fields_size = match size_of_fields(&s.fields, 0) {
                    Ok(n) => n,
                    Err(e) => {
                        return Err(e);
                    },
                };
                if fields_size.0 > u64::MAX - STRUCT_BASE_SIZE {
                    Err(VMStatus::new(StatusCode::ArithmeticError))
                } else {
                    Ok(AbstractMemorySize(STRUCT_BASE_SIZE + fields_size.0))
                }
            },
            Value::Reference(_) => Ok(AbstractMemorySize(REFERENCE_VALUE_SIZE)),
        }
    }
}

/// Field sizes are never negative.
pub proof fn lemma_spec_size_nonnegative(v: ValueV)
    ensures
        spec_size(v) >= 0,
    decreases v,
{
    match v {
        ValueV::Struct(fs) => {
            lemma_spec_size_fields_nonnegative(fs);
        },
        _ => {},
    }
}

/// A sum of field sizes is never negative.
pub proof fn lemma_spec_size_fields_nonnegative(fs: Seq<ValueV>)
    ensures
        spec_size_fields(fs) >= 0,
    decreases fs,
{
    if fs.len() > 0 {
        lemma_spec_size_nonnegative(fs[0]);
        lemma_spec_size_fields_nonnegative(fs.drop_first());
    }
}

/// The summed size of the fields of a struct, from `from` on.
fn size_of_fields(fs: &Vec<Value>, from: usize) -> (r: VMResult<AbstractMemorySize>)
    requires
        from <= fs@.len(),
    ensures
        spec_size_fields(views_of_values(fs@).skip(from as int)) <= u64::MAX ==> r is Ok
            && r->Ok_0.0 == spec_size_fields(views_of_values(fs@).skip(from as int)),
        spec_size_fields(views_of_values(fs@).skip(from as int)) > u64::MAX ==> r is Err
            && r->Err_0.major_status == StatusCode::ArithmeticError,
    decreases *fs, fs@.len() - from,
{
    proof {
        lemma_views_of_values(fs@);
    }
    let ghost vfs = views_of_values(fs@).skip(from as int);
    if from == fs.len() {
        assert(vfs.len() == 0);
        return Ok(AbstractMemorySize(0));
    }
    proof {
        assert(decreases_to!(*fs => fs[from as int]));
        assert(vfs[0] == fs@[from as int]@);
        assert(vfs.drop_first() =~= views_of_values(fs@).skip(from + 1));
        lemma_spec_size_nonnegative(vfs[0]);
        lemma_spec_size_fields_nonnegative(vfs.drop_first());
    }
    let head = match fs[from].size() {
        Ok(n) => n,
        Err(e) => {
            return Err(e);
        },
    };
    let rest = match size_of_fields(fs, from + 1) {
        Ok(n) => n,
        Err(e) => {
            return Err(e);
        },
    };
    if head.0 > u64::MAX - rest.0 {
        Err(VMStatus::new(StatusCode::ArithmeticError))
    } else {
        Ok(AbstractMemorySize(head.0 + rest.0))
    }
}

/// The value reached from `v` by following a path of field offsets.
pub open spec fn spec_read_at(v: ValueV, path: Seq<u16>) -> Option<ValueV>
    decreases path.len(),
{
    if path.len() == 0 {
        Some(v)
    } else {
        match v {
            ValueV::Struct(fs) => if path[0] < fs.len() {
                spec_read_at(fs[path[0] as int], path.drop_first())
            } else {
                None
            },
            _ => None,
        }
    }
}

/// `v` with the value reached by the path replaced by `nv`.
pub open spec fn spec_write_at(v: ValueV, path: Seq<u16>, nv: ValueV) -> Option<ValueV>
    decreases path.len(),
{
    if path.len() == 0 {
        Some(nv)
    } else {
        match v {
            ValueV::Struct(fs) => if path[0] < fs.len() {
                match spec_write_at(fs[path[0] as int], path.drop_first(), nv) {
                    Option::Some(nf) => Some(ValueV::Struct(fs.update(path[0] as int, nf))),
                    Option::None => None,
                }
            } else {
                None
            },
            _ => None,
        }
    }
}

/// A copy of the value reached from `v` by the field path, from offset
/// `from` of the path on.
pub fn value_read_at(v: &Value, path: &Vec<u16>, from: usize) -> (r: Option<Value>)
    requires
        from <= path@.len(),
    ensures
        spec_read_at(v@, path@.skip(from as int)) matches Some(x) ==> r is Some && r->0@ == x,
        spec_read_at(v@, path@.skip(from as int)) is None ==> r is None,
    decreases path@.len() - from,
{
    let ghost p = path@.skip(from as int);
    if from == path.len() {
        assert(p.len() == 0);
        return Some(v.clone_value());
    }
    assert(p[0] == path@[from as int]);
    match v {
        Value::Struct(s) => {
            proof {
                lemma_views_of_values(s.fields@);
            }
            let idx = path[from] as usize;
            if idx < s.fields.len() {
                proof {
                    assert(p.drop_first() =~= path@.skip(from + 1));
                }
                value_read_at(&s.fields[idx], path, from + 1)
            } else {
                None
            }
        },
        _ => None,
    }
}

/// Replace the value reached from `v` by the field path, from offset `from`
/// of the path on, with `nv`. Returns whether the path was valid; on an
/// invalid path the value is unchanged.
pub fn value_write_at(v: &mut Value, path: &Vec<u16>, from: usize, nv: Value) -> (r: bool)
    requires
        from <= path@.len(),
    ensures
        r == (spec_write_at(old(v)@, path@.skip(from as int), nv@) is Some),
        r ==> final(v)@ == spec_write_at(old(v)@, path@.skip(from as int), nv@)->0,
        !r ==> final(v)@ == old(v)@,
    decreases path@.len() - from,
{
    let ghost p = path@.skip(from as int);
    if from == path.len() {
        assert(p.len() == 0);
        *v = nv;
        return true;
    }
    assert(p[0] == path@[from as int]);
    match v {
        Value::Struct(s) => {
            proof {
                lemma_views_of_values(s.fields@);
            }
            let idx = path[from] as usize;
            if idx < s.fields.len() {
                proof {
                    assert(p.drop_first() =~= path@.skip(from + 1));
                }
                let mut field = s.fields[idx].clone_value();
                let ok = value_write_at(&mut field, path, from + 1, nv);
                if ok {
                    s.fields.set(idx, field);
                    proof {
                        lemma_views_of_values(s.fields@);
                        assert(views_of_values(s.fields@) =~= old(v)@->Struct_0.update(
                            idx as int,
                            spec_write_at(old(v)@->Struct_0[idx as int], p.drop_first(), nv@)->0,
                        ));
                    }
                    true
                } else {
                    false
                }
            } else {
                false
            }
        },
        _ => false,
    }
}

} // verus!

verus! {

/// One slot of a frame's locals: a value, or the invalid sentinel.
#[derive(Debug, PartialEq, Eq)]
pub enum LocalSlot {
    Invalid,
    Valid(Value),
}

impl View for LocalSlot {
    type V = Option<ValueV>;

    open spec fn view(&self) -> Option<ValueV> {
        match self {
            LocalSlot::Invalid => None,
            LocalSlot::Valid(v) => Some(v@),
        }
    }
}

/// The fixed-size locals array of one activation frame. Each slot holds a
/// value or the invalid sentinel; reading an invalid slot is a verifier bug.
#[derive(Debug, PartialEq, Eq)]
pub struct Locals {
    slots: Vec<LocalSlot>,
}

impl View for Locals {
    type V = Seq<Option<ValueV>>;

    closed spec fn view(&self) -> Seq<Option<ValueV>> {
        Seq::new(self.slots@.len(), |i: int| self.slots@[i]@)
    }
}

impl Locals {
    /// A locals array of the given size, all slots invalid.
    pub fn new(size: usize) -> (r: Locals)
        ensures
            r@ == Seq::new(size as nat, |i: int| None::<ValueV>),
    {
        let mut slots: Vec<LocalSlot> = Vec::new();
        let mut i: usize = 0;
        while i < size
            invariant
                i <= size,
                slots@.len() == i,
                forall|j: int| 0 <= j < i ==> slots@[j] == LocalSlot::Invalid,
            decreases size - i,
        {
            slots.push(LocalSlot::Invalid);
            i += 1;
        }
        let r = Locals { slots };
        proof {
            assert(r@ =~= Seq::new(size as nat, |i: int| None::<ValueV>));
        }
        r
    }

    /// How many slots the array has.
    pub fn len(&self) -> (r: usize)
        ensures
            r == self@.len(),
    {
        self.slots.len()
    }

    /// A copy of the value in a slot. Fails on an out-of-range index or an
    /// invalid slot: either is a verifier bug.
    pub fn copy_loc(&self, idx: usize) -> (r: VMResult<Value>)
        ensures
            idx < self@.len() && self@[idx as int] is Some ==> r is Ok && r->Ok_0@
                == self@[idx as int]->0,
            idx < self@.len() && self@[idx as int] is None ==> r is Err
                && r->Err_0.major_status == StatusCode::VerificationError,
            idx >= self@.len() ==> r is Err && r->Err_0.major_status
                == StatusCode::VerifierInvariantViolation,
    {
        if idx >= self.slots.len() {
            return Err(VMStatus::new(StatusCode::VerifierInvariantViolation));
        }
        match &self.slots[idx] {
            LocalSlot::Valid(v) => Ok(v.clone_value()),
            LocalSlot::Invalid => Err(VMStatus::new(StatusCode::VerificationError)),
        }
    }

    /// Move the value out of a slot, leaving it invalid. Fails on an
    /// out-of-range index or an invalid slot.
    pub fn move_loc(&mut self, idx: usize) -> (r: VMResult<Value>)
        ensures
            idx < old(self)@.len() && old(self)@[idx as int] is Some ==> r is Ok && r->Ok_0@
                == old(self)@[idx as int]->0 && final(self)@ == old(self)@.update(
                idx as int,
                None::<ValueV>,
            ),
            idx < old(self)@.len() && old(self)@[idx as int] is None ==> r is Err
                && r->Err_0.major_status == StatusCode::VerificationError && final(self)@ == old(
                self,
            )@,
            idx >= old(self)@.len() ==> r is Err && r->Err_0.major_status
                == StatusCode::VerifierInvariantViolation && final(self)@ == old(self)@,
    {
        if idx >= self.slots.len() {
            return Err(VMStatus::new(StatusCode::VerifierInvariantViolation));
        }
        let taken = self.copy_loc(idx);
        match taken {
            Ok(v) => {
                self.slots.set(idx, LocalSlot::Invalid);
                proof {
                    assert(final(self)@ =~= old(self)@.update(idx as int, None::<ValueV>));
                }
                Ok(v)
            },
            Err(e) => Err(e),
        }
    }

    /// Store a value into a slot, overwriting what was there. Fails only on
    /// an out-of-range index.
    pub fn store_loc(&mut self, idx: usize, value: Value) -> (r: VMResult<()>)
        ensures
            idx < old(self)@.len() ==> r is Ok && final(self)@ == old(self)@.update(
                idx as int,
                Some(value@),
            ),
            idx >= old(self)@.len() ==> r is Err && r->Err_0.major_status
                == StatusCode::VerifierInvariantViolation && final(self)@ == old(self)@,
    {
        if idx >= self.slots.len() {
            return Err(VMStatus::new(StatusCode::VerifierInvariantViolation));
        }
        self.slots.set(idx, LocalSlot::Valid(value));
        proof {
            assert(final(self)@ =~= old(self)@.update(idx as int, Some(value@)));
        }
        Ok(())
    }

    /// A copy of the locals array, slot for slot.
    pub fn clone_locals(&self) -> (r: Locals)
        ensures
            r@ == self@,
    {
        let mut slots: Vec<LocalSlot> = Vec::new();
        let mut i: usize = 0;
        while i < self.slots.len()
            invariant
                i <= self.slots@.len(),
                slots@.len() == i,
                forall|j: int| 0 <= j < i ==> slots@[j]@ == self.slots@[j]@,
            decreases self.slots@.len() - i,
        {
            let slot = match &self.slots[i] {
                LocalSlot::Invalid => LocalSlot::Invalid,
                LocalSlot::Valid(v) => LocalSlot::Valid(v.clone_value()),
            };
            slots.push(slot);
            i += 1;
        }
        let r = Locals { slots };
        proof {
            assert(r@ =~= self@);
        }
        r
    }

    /// Whether a slot holds a value.
    pub fn is_valid(&self, idx: usize) -> (r: bool)
        ensures
            r == (idx < self@.len() && self@[idx as int] is Some),
    {
        idx < self.slots.len() && match &self.slots[idx] {
            LocalSlot::Valid(_) => true,
            LocalSlot::Invalid => false,
        }
    }
}

} // verus!
