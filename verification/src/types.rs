//! Core identifier types of the virtual machine: account addresses, module
//! and struct names, runtime type tags, and the access paths that name
//! resource slots in global storage.

use vstd::prelude::*;

verus! {

/// The length, in bytes, of an account address.
pub const ADDRESS_LENGTH: usize = 32;

/// A fixed-length byte identifier for an account.
#[derive(Debug, PartialEq, Eq)]
pub struct AccountAddress {
    bytes: Vec<u8>,
}

impl View for AccountAddress {
    type V = Seq<u8>;

    closed spec fn view(&self) -> Seq<u8> {
        self.bytes@
    }
}

/// Copy a byte vector.
pub fn clone_bytes(v: &Vec<u8>) -> (r: Vec<u8>)
    ensures
        r@ == v@,
{
    let mut r: Vec<u8> = Vec::new();
    let mut i: usize = 0;
    while i < v.len()
        invariant
            i <= v@.len(),
            r@ =~= v@.take(i as int),
        decreases v@.len() - i,
    {
        r.push(v[i]);
        i += 1;
    }
    proof {
        assert(r@ =~= v@);
    }
    r
}

/// Whether two byte vectors hold the same bytes.
pub fn eq_bytes(a: &Vec<u8>, b: &Vec<u8>) -> (r: bool)
    ensures
        r == (a@ == b@),
{
    proof {
        broadcast use vstd::laws_eq::axiom_structural_obeys_concrete_eq;
        broadcast use vstd::std_specs::vec::lemma_vec_obeys_view_eq;

        assert(vstd::laws_eq::obeys_concrete_eq::<u8>());
        assert(vstd::laws_eq::obeys_view_eq::<Vec<u8>>());
    }
    let r = *a == *b;
    proof {
        reveal(vstd::laws_eq::obeys_view_eq);
    }
    r
}

/// `a` comes no later than `b` in lexicographic byte order.
pub open spec fn spec_lex_le(a: Seq<u8>, b: Seq<u8>) -> bool
    decreases a.len(),
{
    if a.len() == 0 {
        true
    } else if b.len() == 0 {
        false
    } else if a[0] < b[0] {
        true
    } else if a[0] > b[0] {
        false
    } else {
        spec_lex_le(a.drop_first(), b.drop_first())
    }
}

/// Lexicographic byte-order comparison.
pub fn lex_le(a: &Vec<u8>, b: &Vec<u8>) -> (r: bool)
    ensures
        r == spec_lex_le(a@, b@),
{
    let mut i: usize = 0;
    proof {
        assert(a@.skip(0) =~= a@);
        assert(b@.skip(0) =~= b@);
    }
    loop
        invariant
            i <= a@.len(),
            i <= b@.len(),
            spec_lex_le(a@, b@) == spec_lex_le(a@.skip(i as int), b@.skip(i as int)),
        decreases a@.len() - i,
    {
        proof {
            lemma_lex_le_step(a@, b@, i as int);
        }
        if i == a.len() {
            return true;
        }
        if i == b.len() {
            return false;
        }
        if a[i] < b[i] {
            return true;
        }
        if a[i] > b[i] {
            return false;
        }
        i += 1;
        proof {
            lemma_lex_le_unfold(a@, b@, i as int);
        }
    }
}

proof fn lemma_lex_le_step(a: Seq<u8>, b: Seq<u8>, i: int)
    requires
        0 <= i <= a.len(),
        0 <= i <= b.len(),
    ensures
        i == a.len() ==> spec_lex_le(a.skip(i), b.skip(i)),
        i < a.len() && i == b.len() ==> !spec_lex_le(a.skip(i), b.skip(i)),
        i < a.len() && i < b.len() && a[i] < b[i] ==> spec_lex_le(a.skip(i), b.skip(i)),
        i < a.len() && i < b.len() && a[i] > b[i] ==> !spec_lex_le(a.skip(i), b.skip(i)),
{
    assert(a.skip(i).len() == a.len() - i);
    assert(b.skip(i).len() == b.len() - i);
    if i < a.len() && i < b.len() {
        assert(a.skip(i)[0] == a[i]);
        assert(b.skip(i)[0] == b[i]);
    }
}

proof fn lemma_lex_le_unfold(a: Seq<u8>, b: Seq<u8>, i: int)
    requires
        1 <= i <= a.len(),
        1 <= i <= b.len(),
        a[i - 1] == b[i - 1],
    ensures
        spec_lex_le(a.skip(i - 1), b.skip(i - 1)) == spec_lex_le(a.skip(i), b.skip(i)),
{
    let a1 = a.skip(i - 1);
    let b1 = b.skip(i - 1);
    assert(a1[0] == a[i - 1]);
    assert(b1[0] == b[i - 1]);
    assert(a1.drop_first() =~= a.skip(i));
    assert(b1.drop_first() =~= b.skip(i));
}

/// Lexicographic order is total: of any two byte sequences, one comes no
/// later than the other.
pub proof fn lemma_lex_le_total(a: Seq<u8>, b: Seq<u8>)
    ensures
        spec_lex_le(a, b) || spec_lex_le(b, a),
    decreases a.len(),
{
    if a.len() > 0 && b.len() > 0 && a[0] == b[0] {
        lemma_lex_le_total(a.drop_first(), b.drop_first());
    }
}

impl AccountAddress {
    /// The address is exactly `ADDRESS_LENGTH` bytes.
    pub open spec fn well_formed(&self) -> bool {
        self@.len() == ADDRESS_LENGTH
    }

    /// An address over the given bytes.
    pub fn new(bytes: Vec<u8>) -> (r: AccountAddress)
        requires
            bytes@.len() == ADDRESS_LENGTH,
        ensures
            r@ == bytes@,
            r.well_formed(),
    {
        AccountAddress { bytes }
    }

    /// The raw bytes of the address.
    pub fn to_vec(&self) -> (r: Vec<u8>)
        ensures
            r@ == self@,
    {
        clone_bytes(&self.bytes)
    }

    /// An address whose bytes are all the given byte: a compact way to name
    /// well-known addresses.
    pub fn from_fill_byte(fill: u8) -> (r: AccountAddress)
        ensures
            r.well_formed(),
            r@ == Seq::new(ADDRESS_LENGTH as nat, |i: int| fill),
    {
        let mut bytes: Vec<u8> = Vec::new();
        let mut i: usize = 0;
        while i < ADDRESS_LENGTH
            invariant
                i <= ADDRESS_LENGTH,
                bytes@ =~= Seq::new(i as nat, |j: int| fill),
            decreases ADDRESS_LENGTH - i,
        {
            bytes.push(fill);
            i += 1;
        }
        proof {
            assert(bytes@ =~= Seq::new(ADDRESS_LENGTH as nat, |i: int| fill));
        }
        AccountAddress { bytes }
    }

    /// Whether two addresses are the same.
    pub fn equals(&self, other: &AccountAddress) -> (r: bool)
        ensures
            r == (self@ == other@),
    {
        eq_bytes(&self.bytes, &other.bytes)
    }
}

impl Clone for AccountAddress {
    /// A copy holding the same bytes.
    fn clone(&self) -> (r: AccountAddress)
        ensures
            r@ == self@,
    {
        AccountAddress { bytes: clone_bytes(&self.bytes) }
    }
}

/// The name of a module, function, or struct.
#[derive(Debug, PartialEq, Eq)]
pub struct Identifier {
    name: String,
}

impl View for Identifier {
    type V = Seq<char>;

    closed spec fn view(&self) -> Seq<char> {
        self.name@
    }
}

impl Identifier {
    /// An identifier over the given name.
    pub fn new(name: String) -> (r: Identifier)
        ensures
            r@ == name@,
    {
        Identifier { name }
    }

    /// The name's bytes, in its canonical encoding.
    pub fn as_bytes_vec(&self) -> (r: Vec<u8>)
        ensures
            r@ == vstd::utf8::encode_utf8(self@),
    {
        vstd::string::StrSliceExecFns::as_bytes_vec(self.name.as_str())
    }

    /// Whether two identifiers are the same name.
    pub fn equals(&self, other: &Identifier) -> (r: bool)
        ensures
            r == (self@ == other@),
    {
        self.name == other.name
    }
}

impl Clone for Identifier {
    /// A copy holding the same name.
    fn clone(&self) -> (r: Identifier)
        ensures
            r@ == self@,
    {
        Identifier { name: self.name.clone() }
    }
}

/// The mathematical value of a `ModuleId`.
#[verifier::ext_equal]
pub struct ModuleIdV {
    pub address: Seq<u8>,
    pub name: Seq<char>,
}

/// The identity of a module: the address it is published under and its name.
#[derive(Debug, PartialEq, Eq)]
pub struct ModuleId {
    pub address: AccountAddress,
    pub name: Identifier,
}

impl View for ModuleId {
    type V = ModuleIdV;

    open spec fn view(&self) -> ModuleIdV {
        ModuleIdV { address: self.address@, name: self.name@ }
    }
}

impl ModuleId {
    /// A module identity from its address and name.
    pub fn new(address: AccountAddress, name: Identifier) -> (r: ModuleId)
        ensures
            r@.address == address@,
            r@.name == name@,
    {
        ModuleId { address, name }
    }

    /// Whether two module identities are the same.
    pub fn equals(&self, other: &ModuleId) -> (r: bool)
        ensures
            r == (self@ == other@),
    {
        let r = self.address.equals(&other.address) && self.name.equals(&other.name);
        proof {
            if self@.address == other@.address && self@.name == other@.name {
                assert(self@ =~= other@);
            }
        }
        r
    }
}

impl Clone for ModuleId {
    /// A copy naming the same module.
    fn clone(&self) -> (r: ModuleId)
        ensures
            r@ == self@,
    {
        let r = ModuleId { address: self.address.clone(), name: self.name.clone() };
        proof {
            assert(r@ =~= self@);
        }
        r
    }
}

/// The mathematical value of a `StructTag`.
#[verifier::ext_equal]
pub struct StructTagV {
    pub address: Seq<u8>,
    pub module: Seq<char>,
    pub name: Seq<char>,
    pub type_params: Seq<TypeTagV>,
}

/// The mathematical value of a `TypeTag`.
#[verifier::ext_equal]
pub enum TypeTagV {
    Bool,
    U64,
    ByteArray,
    Address,
    Struct(StructTagV),
}

/// A runtime witness of a struct type: the module that declares it, its name,
/// and its type actuals.
#[derive(Debug, PartialEq, Eq)]
pub struct StructTag {
    pub address: AccountAddress,
    pub module: Identifier,
    pub name: Identifier,
    pub type_params: Vec<TypeTag>,
}

/// A runtime witness of a value's type.
#[derive(Debug, PartialEq, Eq)]
pub enum TypeTag {
    Bool,
    U64,
    ByteArray,
    Address,
    Struct(StructTag),
}

/// The views of a sequence of type tags, in order.
pub open spec fn views_of_tags(s: Seq<TypeTag>) -> Seq<TypeTagV>
    decreases s,
{
    if s.len() == 0 {
        Seq::empty()
    } else {
        seq![s[0]@] + views_of_tags(s.drop_first())
    }
}

impl View for StructTag {
    type V = StructTagV;

    open spec fn view(&self) -> StructTagV
        decreases self,
    {
        StructTagV {
            address: self.address@,
            module: self.module@,
            name: self.name@,
            type_params: views_of_tags(self.type_params@),
        }
    }
}

impl View for TypeTag {
    type V = TypeTagV;

    open spec fn view(&self) -> TypeTagV
        decreases self,
    {
        match self {
            TypeTag::Bool => TypeTagV::Bool,
            TypeTag::U64 => TypeTagV::U64,
            TypeTag::ByteArray => TypeTagV::ByteArray,
            TypeTag::Address => TypeTagV::Address,
            TypeTag::Struct(tag) => TypeTagV::Struct(tag@),
        }
    }
}

/// `views_of_tags` maps each tag to its view, in place.
pub proof fn lemma_views_of_tags(s: Seq<TypeTag>)
    ensures
        views_of_tags(s).len() == s.len(),
        forall|i: int| 0 <= i < s.len() ==> #[trigger] views_of_tags(s)[i] == s[i]@,
    decreases s.len(),
{
    if s.len() > 0 {
        lemma_views_of_tags(s.drop_first());
        assert(views_of_tags(s) == seq![s[0]@] + views_of_tags(s.drop_first()));
        assert forall|i: int| 0 <= i < s.len() implies #[trigger] views_of_tags(s)[i]
            == s[i]@ by {
            if i > 0 {
                assert(s.drop_first()[i - 1] == s[i]);
                assert((seq![s[0]@] + views_of_tags(s.drop_first()))[i] == views_of_tags(
                    s.drop_first(),
                )[i - 1]);
            }
        }
    }
}

impl TypeTag {
    /// A structural copy of the tag.
    pub fn clone_tag(&self) -> (r: TypeTag)
        ensures
            r@ == self@,
        decreases *self,
    {
        match self {
            TypeTag::Bool => TypeTag::Bool,
            TypeTag::U64 => TypeTag::U64,
            TypeTag::ByteArray => TypeTag::ByteArray,
            TypeTag::Address => TypeTag::Address,
            TypeTag::Struct(tag) => {
                proof {
                    assert(decreases_to!(*self => self->Struct_0));
                }
                TypeTag::Struct(tag.clone_tag())
            },
        }
    }

    /// Whether two tags witness the same type.
    pub fn equals(&self, other: &TypeTag) -> (r: bool)
        ensures
            r == (self@ == other@),
        decreases *self,
    {
        match (self, other) {
            (TypeTag::Bool, TypeTag::Bool) => true,
            (TypeTag::U64, TypeTag::U64) => true,
            (TypeTag::ByteArray, TypeTag::ByteArray) => true,
            (TypeTag::Address, TypeTag::Address) => true,
            (TypeTag::Struct(a), TypeTag::Struct(b)) => {
                proof {
                    assert(decreases_to!(*self => self->Struct_0));
                }
                a.equals(b)
            },
            _ => false,
        }
    }
}

impl Clone for TypeTag {
    /// A copy witnessing the same type.
    fn clone(&self) -> (r: TypeTag)
        ensures
            r@ == self@,
    {
        self.clone_tag()
    }
}

impl StructTag {
    /// A structural copy of the tag.
    pub fn clone_tag(&self) -> (r: StructTag)
        ensures
            r@ == self@,
        decreases *self,
    {
        let mut params: Vec<TypeTag> = Vec::new();
        let mut i: usize = 0;
        while i < self.type_params.len()
            invariant
                i <= self.type_params@.len(),
                params@.len() == i,
                forall|j: int| 0 <= j < i ==> params@[j]@ == self.type_params@[j]@,
            decreases self.type_params@.len() - i,
        {
            proof {
                assert(decreases_to!(*self => self.type_params));
                assert(decreases_to!(self.type_params => self.type_params[i as int]));
            }
            params.push(self.type_params[i].clone_tag());
            i += 1;
        }
        let r = StructTag {
            address: self.address.clone(),
            module: self.module.clone(),
            name: self.name.clone(),
            type_params: params,
        };
        proof {
            lemma_views_of_tags(r.type_params@);
            lemma_views_of_tags(self.type_params@);
            assert(views_of_tags(r.type_params@) =~= views_of_tags(self.type_params@));
            assert(r@ =~= self@);
        }
        r
    }

    /// Whether two tags witness the same struct type.
    pub fn equals(&self, other: &StructTag) -> (r: bool)
        ensures
            r == (self@ == other@),
        decreases *self,
    {
        if !self.address.equals(&other.address) {
            return false;
        }
        if !self.module.equals(&other.module) {
            return false;
        }
        if !self.name.equals(&other.name) {
            return false;
        }
        if self.type_params.len() != other.type_params.len() {
            proof {
                lemma_views_of_tags(self.type_params@);
                lemma_views_of_tags(other.type_params@);
            }
            return false;
        }
        let mut i: usize = 0;
        while i < self.type_params.len()
            invariant
                i <= self.type_params@.len(),
                self.type_params@.len() == other.type_params@.len(),
                forall|j: int|
                    0 <= j < i ==> #[trigger] self.type_params@[j]@ == other.type_params@[j]@,
            decreases self.type_params@.len() - i,
        {
            proof {
                assert(decreases_to!(*self => self.type_params));
                assert(decreases_to!(self.type_params => self.type_params[i as int]));
            }
            if !self.type_params[i].equals(&other.type_params[i]) {
                proof {
                    lemma_views_of_tags(self.type_params@);
                    lemma_views_of_tags(other.type_params@);
                    assert(views_of_tags(self.type_params@)[i as int] != views_of_tags(
                        other.type_params@,
                    )[i as int]);
                }
                return false;
            }
            i += 1;
        }
        proof {
            lemma_views_of_tags(self.type_params@);
            lemma_views_of_tags(other.type_params@);
            assert(views_of_tags(self.type_params@) =~= views_of_tags(other.type_params@));
            assert(self@ =~= other@);
        }
        true
    }
}

impl Clone for StructTag {
    /// A copy witnessing the same struct type.
    fn clone(&self) -> (r: StructTag)
        ensures
            r@ == self@,
    {
        self.clone_tag()
    }
}

/// Copy a vector of type tags.
pub fn clone_tag_vec(v: &Vec<TypeTag>) -> (r: Vec<TypeTag>)
    ensures
        views_of_tags(r@) == views_of_tags(v@),
{
    let mut out: Vec<TypeTag> = Vec::new();
    let mut i: usize = 0;
    while i < v.len()
        invariant
            i <= v@.len(),
            out@.len() == i,
            forall|j: int| 0 <= j < i ==> out@[j]@ == v@[j]@,
        decreases v@.len() - i,
    {
        out.push(v[i].clone_tag());
        i += 1;
    }
    proof {
        lemma_views_of_tags(out@);
        lemma_views_of_tags(v@);
        assert(views_of_tags(out@) =~= views_of_tags(v@));
    }
    out
}

/// The mathematical value of an `AccessPath`.
#[verifier::ext_equal]
pub struct AccessPathV {
    pub address: Seq<u8>,
    pub path: Seq<u8>,
}

/// The tag byte that opens the path of a resource slot.
pub const RESOURCE_TAG: u8 = 1;

/// The tag byte that opens the path of a module slot.
pub const MODULE_TAG: u8 = 0;

/// A pair of address and path bytes naming a slot in global storage.
#[derive(Debug, PartialEq, Eq)]
pub struct AccessPath {
    pub address: AccountAddress,
    pub path: Vec<u8>,
}

impl View for AccessPath {
    type V = AccessPathV;

    open spec fn view(&self) -> AccessPathV {
        AccessPathV { address: self.address@, path: self.path@ }
    }
}

impl AccessPath {
    /// An access path from its parts.
    pub fn new(address: AccountAddress, path: Vec<u8>) -> (r: AccessPath)
        ensures
            r@.address == address@,
            r@.path == path@,
    {
        AccessPath { address, path }
    }

    /// Whether two access paths name the same slot.
    pub fn equals(&self, other: &AccessPath) -> (r: bool)
        ensures
            r == (self@ == other@),
    {
        let r = self.address.equals(&other.address) && eq_bytes(&self.path, &other.path);
        proof {
            if self@.address == other@.address && self@.path == other@.path {
                assert(self@ =~= other@);
            }
        }
        r
    }

    /// The flattened key of this path: address bytes then path bytes.
    /// Write sets are ordered by this key.
    pub open spec fn spec_key(&self) -> Seq<u8> {
        self@.address + self@.path
    }

    /// `self` comes no later than `other` in write-set order.
    pub fn le(&self, other: &AccessPath) -> (r: bool)
        ensures
            r == spec_lex_le(self.spec_key(), other.spec_key()),
    {
        let mut my_key = self.address.to_vec();
        let mut my_path = clone_bytes(&self.path);
        my_key.append(&mut my_path);
        let mut other_key = other.address.to_vec();
        let mut other_path = clone_bytes(&other.path);
        other_key.append(&mut other_path);
        lex_le(&my_key, &other_key)
    }
}

impl Clone for AccessPath {
    /// A copy naming the same slot.
    fn clone(&self) -> (r: AccessPath)
        ensures
            r@ == self@,
    {
        let r = AccessPath { address: self.address.clone(), path: clone_bytes(&self.path) };
        proof {
            assert(r@ =~= self@);
        }
        r
    }
}

} // verus!

verus! {

/// The canonical bytes of a type tag, for access-path derivation: a tag
/// byte for the variant, then for structs the encoded struct tag.
pub open spec fn spec_type_tag_bytes(t: TypeTagV) -> Seq<u8>
    decreases t,
{
    match t {
        TypeTagV::Bool => seq![0u8],
        TypeTagV::U64 => seq![1u8],
        TypeTagV::ByteArray => seq![2u8],
        TypeTagV::Address => seq![3u8],
        TypeTagV::Struct(s) => seq![4u8] + spec_struct_tag_bytes(s),
    }
}

/// The canonical bytes of a struct tag: address, length-prefixed module and
/// struct names, then the count and encodings of the type actuals.
pub open spec fn spec_struct_tag_bytes(t: StructTagV) -> Seq<u8>
    decreases t,
{
    t.address + vstd::bytes::spec_u32_to_le_bytes(vstd::utf8::encode_utf8(t.module).len() as u32)
        + vstd::utf8::encode_utf8(t.module) + vstd::bytes::spec_u32_to_le_bytes(
        vstd::utf8::encode_utf8(t.name).len() as u32,
    ) + vstd::utf8::encode_utf8(t.name) + vstd::bytes::spec_u32_to_le_bytes(
        t.type_params.len() as u32,
    ) + spec_type_tags_bytes(t.type_params, 0)
}

/// The concatenated canonical bytes of a list of type tags, from `from` on.
pub open spec fn spec_type_tags_bytes(ts: Seq<TypeTagV>, from: int) -> Seq<u8>
    decreases ts, ts.len() - from,
{
    if from < 0 || from >= ts.len() {
        Seq::empty()
    } else {
        spec_type_tag_bytes(ts[from]) + spec_type_tags_bytes(ts, from + 1)
    }
}

impl TypeTag {
    /// The canonical bytes of the tag.
    pub fn to_canonical_bytes(&self) -> (r: Vec<u8>)
        ensures
            r@ == spec_type_tag_bytes(self@),
        decreases *self, 1int,
    {
        let mut out: Vec<u8> = Vec::new();
        match self {
            TypeTag::Bool => {
                out.push(0u8);
            },
            TypeTag::U64 => {
                out.push(1u8);
            },
            TypeTag::ByteArray => {
                out.push(2u8);
            },
            TypeTag::Address => {
                out.push(3u8);
            },
            TypeTag::Struct(s) => {
                proof {
                    assert(decreases_to!(*self => self->Struct_0));
                }
                out.push(4u8);
                let mut body = s.to_canonical_bytes();
                out.append(&mut body);
                proof {
                    assert(out@ =~= spec_type_tag_bytes(self@));
                }
            },
        }
        proof {
            assert(out@ =~= spec_type_tag_bytes(self@));
        }
        out
    }
}

impl StructTag {
    /// The canonical bytes of the tag.
    pub fn to_canonical_bytes(&self) -> (r: Vec<u8>)
        ensures
            r@ == spec_struct_tag_bytes(self@),
        decreases *self, 0int,
    {
        let mut out = self.address.to_vec();
        let module_bytes = self.module.as_bytes_vec();
        let mut prefix = vstd::bytes::u32_to_le_bytes(module_bytes.len() as u32);
        out.append(&mut prefix);
        let mut module_bytes = module_bytes;
        out.append(&mut module_bytes);
        let name_bytes = self.name.as_bytes_vec();
        let mut prefix = vstd::bytes::u32_to_le_bytes(name_bytes.len() as u32);
        out.append(&mut prefix);
        let mut name_bytes = name_bytes;
        out.append(&mut name_bytes);
        let mut count = vstd::bytes::u32_to_le_bytes(self.type_params.len() as u32);
        out.append(&mut count);
        proof {
            lemma_views_of_tags(self.type_params@);
        }
        let ghost prefix_bytes = out@;
        let mut i: usize = 0;
        while i < self.type_params.len()
            invariant
                i <= self.type_params@.len(),
                out@ =~= prefix_bytes + spec_type_tags_bytes(
                    views_of_tags(self.type_params@),
                    0,
                ).take(out@.len() - prefix_bytes.len()),
                spec_type_tags_bytes(views_of_tags(self.type_params@), 0) =~= out@.skip(
                    prefix_bytes.len() as int,
                ) + spec_type_tags_bytes(views_of_tags(self.type_params@), i as int),
            decreases self.type_params@.len() - i,
        {
            proof {
                assert(decreases_to!(*self => self.type_params));
                assert(decreases_to!(self.type_params => self.type_params[i as int]));
                crate::types::lemma_views_of_tags(self.type_params@);
            }
            let mut piece = self.type_params[i].to_canonical_bytes();
            let ghost piece_bytes = piece@;
            out.append(&mut piece);
            proof {
                assert(views_of_tags(self.type_params@)[i as int] == self.type_params@[i as int]@);
                assert(spec_type_tags_bytes(views_of_tags(self.type_params@), i as int)
                    =~= piece_bytes + spec_type_tags_bytes(
                    views_of_tags(self.type_params@),
                    i + 1,
                ));
                assert(out@ =~= prefix_bytes + spec_type_tags_bytes(
                    views_of_tags(self.type_params@),
                    0,
                ).take(out@.len() - prefix_bytes.len()));
                assert(spec_type_tags_bytes(views_of_tags(self.type_params@), 0) =~= out@.skip(
                    prefix_bytes.len() as int,
                ) + spec_type_tags_bytes(views_of_tags(self.type_params@), i + 1));
            }
            i += 1;
        }
        proof {
            assert(spec_type_tags_bytes(views_of_tags(self.type_params@), self.type_params@.len() as int)
                =~= Seq::<u8>::empty());
            assert(out@ =~= spec_struct_tag_bytes(self@));
        }
        out
    }
}

} // verus!
