//! The abstract chain state of the transaction generator: accounts with
//! their key material, sequence numbers and resource sets, the constraints
//! templates place on arguments, and the effects transactions have.

use vstd::prelude::*;

use crate::types::AccountAddress;
use crate::types::TypeTag;
use crate::types::TypeTagV;
use crate::types::StructTag;
use crate::types::views_of_tags;

verus! {

/// What a type can stand for beyond its values: a currency, a privilege,
/// or an account type.
#[derive(Debug, Clone, Copy, PartialEq, Eq, Structural)]
pub enum AbstractMetadata {
    IsCurrency,
    IsPrivilege,
    IsAccountType,
}

/// A type tag together with the metadata that pertains to it.
#[derive(Debug, PartialEq, Eq)]
pub struct AbstractType {
    pub type_: TypeTag,
    pub meta: Vec<AbstractMetadata>,
}

impl AbstractType {
    /// Whether the given metadata pertains.
    pub open spec fn spec_has_meta(&self, meta: AbstractMetadata) -> bool {
        self.meta@.contains(meta)
    }

    /// A type with no metadata yet.
    pub fn new(type_: TypeTag) -> (r: AbstractType)
        ensures
            r.type_@ == type_@,
            r.meta@.len() == 0,
    {
        AbstractType { type_, meta: Vec::new() }
    }

    /// Record that the given metadata pertains; recording it twice keeps
    /// one copy.
    pub fn add_meta(&mut self, meta: AbstractMetadata) -> (r: ())
        ensures
            final(self).type_ == old(self).type_,
            final(self).spec_has_meta(meta),
            forall|m: AbstractMetadata|
                #[trigger] final(self).spec_has_meta(m) == (old(self).spec_has_meta(m) || m
                    == meta),
    {
        if !self.has_meta(&meta) {
            self.meta.push(meta);
            proof {
                let s_new = self.meta@;
                let s_old = old(self).meta@;
                assert(s_new[s_new.len() - 1] == meta);
                assert(s_new.contains(meta));
                assert forall|m: AbstractMetadata| #[trigger]
                    s_new.contains(m) == (s_old.contains(m) || m == meta) by {
                    if s_new.contains(m) && m != meta {
                        let i = choose|i: int| 0 <= i < s_new.len() && s_new[i] == m;
                        assert(s_old[i] == m);
                        assert(s_old.contains(m));
                    }
                    if s_old.contains(m) {
                        let i = choose|i: int| 0 <= i < s_old.len() && s_old[i] == m;
                        assert(s_new[i] == m);
                        assert(s_new.contains(m));
                    }
                }
            }
        }
    }

    /// Whether the given metadata pertains.
    pub fn has_meta(&self, meta: &AbstractMetadata) -> (r: bool)
        ensures
            r == self.spec_has_meta(*meta),
    {
        let mut i: usize = 0;
        while i < self.meta.len()
            invariant
                i <= self.meta@.len(),
                forall|j: int| 0 <= j < i ==> self.meta@[j] != *meta,
            decreases self.meta@.len() - i,
        {
            if self.meta[i] == *meta {
                return true;
            }
            i += 1;
        }
        false
    }

    /// A copy of this type.
    pub fn clone_type(&self) -> (r: AbstractType)
        ensures
            r.type_@ == self.type_@,
            r.meta@ == self.meta@,
    {
        let mut meta: Vec<AbstractMetadata> = Vec::new();
        let mut i: usize = 0;
        while i < self.meta.len()
            invariant
                i <= self.meta@.len(),
                meta@ =~= self.meta@.take(i as int),
            decreases self.meta@.len() - i,
        {
            meta.push(self.meta[i]);
            i += 1;
        }
        proof {
            assert(meta@ =~= self.meta@);
        }
        AbstractType { type_: self.type_.clone_tag(), meta }
    }
}

/// A linear resource, identified by its type tag.
#[derive(Debug, PartialEq, Eq)]
pub struct AbstractResource {
    pub type_: TypeTag,
}

/// A resource of the given type.
pub fn resource(type_: TypeTag) -> (r: AbstractResource)
    ensures
        r.type_@ == type_@,
{
    AbstractResource::new(type_)
}

impl AbstractResource {
    /// A resource of the given type.
    pub fn new(type_: TypeTag) -> (r: AbstractResource)
        ensures
            r.type_@ == type_@,
    {
        AbstractResource { type_ }
    }

    /// The same resource with one more type actual bound on its struct
    /// tag. Only a struct type can take an actual.
    pub fn with_ty_param(self, ty_param: TypeTag) -> (r: AbstractResource)
        requires
            self.type_@ is Struct,
        ensures
            r.type_@ matches TypeTagV::Struct(t) && {
                let old_t = self.type_@->Struct_0;
                &&& t.address == old_t.address
                &&& t.module == old_t.module
                &&& t.name == old_t.name
                &&& t.type_params == old_t.type_params.push(ty_param@)
            },
    {
        match self.type_ {
            TypeTag::Struct(mut struct_tag) => {
                let ghost old_params = views_of_tags(struct_tag.type_params@);
                proof {
                    crate::types::lemma_views_of_tags(struct_tag.type_params@);
                }
                struct_tag.type_params.push(ty_param);
                proof {
                    crate::types::lemma_views_of_tags(struct_tag.type_params@);
                    assert(views_of_tags(struct_tag.type_params@) =~= old_params.push(
                        struct_tag.type_params@.last()@,
                    ));
                }
                AbstractResource { type_: TypeTag::Struct(struct_tag) }
            },
            _ => AbstractResource { type_: TypeTag::Bool },
        }
    }

    /// A copy of this resource.
    pub fn clone_resource(&self) -> (r: AbstractResource)
        ensures
            r.type_@ == self.type_@,
    {
        AbstractResource { type_: self.type_.clone_tag() }
    }
}

/// An account's underlying material: its address and its key pair. The
/// keys are opaque bytes here; producing and using them cryptographically
/// belongs to collaborators outside the core.
#[derive(Debug, PartialEq, Eq)]
pub struct Account {
    pub addr: AccountAddress,
    pub privkey: Vec<u8>,
    pub pubkey: Vec<u8>,
}

impl Account {
    /// A fresh account with a random address and key pair.
    pub fn new(rng: &mut rand::rngs::StdRng) -> (r: Account)
        ensures
            r.addr.well_formed(),
    {
        let mut addr_bytes: Vec<u8> = Vec::new();
        let mut i: usize = 0;
        while i < crate::types::ADDRESS_LENGTH
            invariant
                addr_bytes@.len() == i,
                i <= crate::types::ADDRESS_LENGTH,
            decreases crate::types::ADDRESS_LENGTH - i,
        {
            addr_bytes.push(crate::fuzzer_rng::random_u8(rng));
            i += 1;
        }
        let mut privkey: Vec<u8> = Vec::new();
        let mut pubkey: Vec<u8> = Vec::new();
        let mut i: usize = 0;
        while i < 32
            invariant
                i <= 32,
            decreases 32 - i,
        {
            privkey.push(crate::fuzzer_rng::random_u8(rng));
            pubkey.push(crate::fuzzer_rng::random_u8(rng));
            i += 1;
        }
        Account { addr: AccountAddress::new(addr_bytes), privkey, pubkey }
    }

    /// An account at a fixed address, as the genesis state uses.
    pub fn new_genesis_account(addr: AccountAddress) -> (r: Account)
        ensures
            r.addr@ == addr@,
    {
        Account { addr, privkey: Vec::new(), pubkey: Vec::new() }
    }

    /// The account's address.
    pub fn address(&self) -> (r: &AccountAddress)
        ensures
            r@ == self.addr@,
    {
        &self.addr
    }

    /// Replace the account's key pair.
    pub fn rotate_key(&mut self, new_privkey: Vec<u8>, new_pubkey: Vec<u8>) -> (r: ())
        ensures
            final(self).addr@ == old(self).addr@,
            final(self).privkey@ == new_privkey@,
            final(self).pubkey@ == new_pubkey@,
    {
        self.privkey = new_privkey;
        self.pubkey = new_pubkey;
    }

    /// A copy of this account.
    pub fn clone_account(&self) -> (r: Account)
        ensures
            r.addr@ == self.addr@,
            r.privkey@ == self.privkey@,
            r.pubkey@ == self.pubkey@,
    {
        Account {
            addr: self.addr.clone(),
            privkey: crate::types::clone_bytes(&self.privkey),
            pubkey: crate::types::clone_bytes(&self.pubkey),
        }
    }
}

/// One account of the abstract chain state: its material, the set of
/// resources published under it, and its sequence number.
#[derive(Debug, PartialEq, Eq)]
pub struct AbstractAccount {
    pub account: Account,
    pub resources: Vec<AbstractResource>,
    pub sequence_number: u64,
}

impl AbstractAccount {
    /// Whether a resource of the given type is published here.
    pub open spec fn spec_has_resource(&self, type_: TypeTagV) -> bool {
        exists|i: int|
            0 <= i < self.resources@.len() && (#[trigger] self.resources@[i]).type_@ == type_
    }

    /// A fresh account with no resources.
    pub fn new(rng: &mut rand::rngs::StdRng) -> (r: AbstractAccount)
        ensures
            r.resources@.len() == 0,
            r.sequence_number == 0,
    {
        AbstractAccount { account: Account::new(rng), resources: Vec::new(), sequence_number: 0 }
    }

    /// The given account, with no resources yet.
    pub fn new_from_account(account: Account) -> (r: AbstractAccount)
        ensures
            r.account == account,
            r.resources@.len() == 0,
            r.sequence_number == 0,
    {
        AbstractAccount { account, resources: Vec::new(), sequence_number: 0 }
    }

    /// Whether a resource of the given type is published here.
    pub fn has_resource(&self, type_: &TypeTag) -> (r: bool)
        ensures
            r == self.spec_has_resource(type_@),
    {
        let mut i: usize = 0;
        while i < self.resources.len()
            invariant
                i <= self.resources@.len(),
                forall|j: int| 0 <= j < i ==> (#[trigger] self.resources@[j]).type_@ != type_@,
            decreases self.resources@.len() - i,
        {
            if self.resources[i].type_.equals(type_) {
                return true;
            }
            i += 1;
        }
        false
    }

    /// Publish a resource here. A resource of the same type must not be
    /// present: resources are linear.
    pub fn add_resource(&mut self, resource: AbstractResource) -> (r: ())
        requires
            !old(self).spec_has_resource(resource.type_@),
        ensures
            final(self).account == old(self).account,
            final(self).sequence_number == old(self).sequence_number,
            final(self).resources@ == old(self).resources@.push(resource),
    {
        self.resources.push(resource);
    }

    /// Remove the first resource of the given type, if one is here: that
    /// resource leaves and every other stays in place.
    pub fn remove_resource(&mut self, type_: &TypeTag) -> (r: bool)
        ensures
            final(self).account == old(self).account,
            final(self).sequence_number == old(self).sequence_number,
            r == old(self).spec_has_resource(type_@),
            !r ==> final(self).resources@ == old(self).resources@,
            r ==> spec_find_resource(old(self).resources@, type_@, 0) is Some && final(self).resources@ == old(self).resources@.remove(
                spec_find_resource(old(self).resources@, type_@, 0)->0,
            ),
    {
        let mut i: usize = 0;
        while i < self.resources.len()
            invariant
                i <= self.resources@.len(),
                forall|j: int| 0 <= j < i ==> (#[trigger] self.resources@[j]).type_@ != type_@,
                spec_find_resource(old(self).resources@, type_@, 0) == spec_find_resource(
                    old(self).resources@,
                    type_@,
                    i as int,
                ),
                self.resources@ == old(self).resources@,
                self.account == old(self).account,
                self.sequence_number == old(self).sequence_number,
            decreases self.resources@.len() - i,
        {
            if self.resources[i].type_.equals(type_) {
                self.resources.remove(i);
                return true;
            }
            i += 1;
        }
        false
    }
}

/// The index of the first resource with the given type.
pub open spec fn spec_find_resource(
    rs: Seq<AbstractResource>,
    type_: crate::types::TypeTagV,
    from: int,
) -> Option<int>
    decreases rs.len() - from,
{
    if from < 0 || from >= rs.len() {
        None
    } else if rs[from].type_@ == type_ {
        Some(from)
    } else {
        spec_find_resource(rs, type_, from + 1)
    }
}

/// A found resource has the type looked for, nothing before it does, and
/// a miss means no resource from the start position has it.
pub proof fn lemma_find_resource_hit(
    rs: Seq<AbstractResource>,
    type_: crate::types::TypeTagV,
    from: int,
)
    ensures
        spec_find_resource(rs, type_, from) matches Some(i) ==> from <= i < rs.len() && rs[
            i].type_@ == type_ && (forall|j: int|
            from <= j < i ==> (#[trigger] rs[j]).type_@ != type_),
        (from >= 0 && spec_find_resource(rs, type_, from) is None) ==> (forall|j: int|
            from <= j < rs.len() ==> (#[trigger] rs[j]).type_@ != type_),
    decreases rs.len() - from,
{
    if 0 <= from < rs.len() && rs[from].type_@ != type_ {
        lemma_find_resource_hit(rs, type_, from + 1);
    }
}

/// Resource lists whose types agree pointwise find a type at the same
/// index.
pub proof fn lemma_find_resource_congruent(
    a: Seq<AbstractResource>,
    b: Seq<AbstractResource>,
    type_: crate::types::TypeTagV,
    from: int,
)
    requires
        a.len() == b.len(),
        forall|i: int| 0 <= i < a.len() ==> (#[trigger] a[i]).type_@ == b[i].type_@,
    ensures
        spec_find_resource(a, type_, from) == spec_find_resource(b, type_, from),
    decreases a.len() - from,
{
    if 0 <= from < a.len() && a[from].type_@ != type_ {
        lemma_find_resource_congruent(a, b, type_, from + 1);
    }
}

/// A constraint a template places on an argument or a sender: holding or
/// not holding a resource, a numeric range, or that the account must not
/// exist yet.
#[derive(Debug, PartialEq, Eq)]
pub enum Constraint {
    HasResource(AbstractResource),
    DoesNotHaveResource(AbstractResource),
    RangeConstraint { lower: u128, upper: u128 },
    AccountDNE,
}

impl Constraint {
    /// Whether an account satisfies a resource constraint. Only resource
    /// constraints apply to an account.
    pub fn constrain_account(&self, account: &AbstractAccount) -> (r: bool)
        requires
            self is HasResource || self is DoesNotHaveResource,
        ensures
            self matches Constraint::HasResource(res) ==> r == account.spec_has_resource(
                res.type_@,
            ),
            self matches Constraint::DoesNotHaveResource(res) ==> r == !account.spec_has_resource(
                res.type_@,
            ),
    {
        match self {
            Constraint::HasResource(res) => account.has_resource(&res.type_),
            Constraint::DoesNotHaveResource(res) => !account.has_resource(&res.type_),
            Constraint::AccountDNE => false,
            Constraint::RangeConstraint { .. } => false,
        }
    }

    /// Intersect a range constraint with the bounds gathered so far. Only
    /// a range constraint has bounds.
    pub fn constrain_bounds(&self, bounds: Option<(u128, u128)>) -> (r: Option<(u128, u128)>)
        requires
            self is RangeConstraint,
        ensures
            bounds is None ==> r == Some((self->RangeConstraint_lower, self->RangeConstraint_upper)),
            bounds matches Some(b) ==> r matches Some(m) && m.0 == (if self->RangeConstraint_lower
                >= b.0 {
                self->RangeConstraint_lower
            } else {
                b.0
            }) && m.1 == (if self->RangeConstraint_upper <= b.1 {
                self->RangeConstraint_upper
            } else {
                b.1
            }),
    {
        match self {
            Constraint::RangeConstraint { lower, upper } => match bounds {
                Option::None => Some((*lower, *upper)),
                Option::Some((other_lower, other_upper)) => {
                    let lo = if *lower >= other_lower {
                        *lower
                    } else {
                        other_lower
                    };
                    let hi = if *upper <= other_upper {
                        *upper
                    } else {
                        other_upper
                    };
                    Some((lo, hi))
                },
            },
            _ => None,
        }
    }

    /// A copy of this constraint.
    pub fn clone_constraint(&self) -> (r: Constraint)
        ensures
            self matches Constraint::HasResource(res) ==> r matches Constraint::HasResource(res2)
                && res2.type_@ == res.type_@,
            self matches Constraint::DoesNotHaveResource(res) ==> r
                matches Constraint::DoesNotHaveResource(res2) && res2.type_@ == res.type_@,
            self matches Constraint::RangeConstraint { lower, upper } ==> r == *self,
            self is AccountDNE ==> r is AccountDNE,
    {
        match self {
            Constraint::HasResource(res) => Constraint::HasResource(res.clone_resource()),
            Constraint::DoesNotHaveResource(res) => Constraint::DoesNotHaveResource(
                res.clone_resource(),
            ),
            Constraint::RangeConstraint { lower, upper } => Constraint::RangeConstraint {
                lower: *lower,
                upper: *upper,
            },
            Constraint::AccountDNE => Constraint::AccountDNE,
        }
    }
}

/// What applying a transaction does to the abstract chain state.
#[derive(Debug, PartialEq, Eq)]
pub enum Effect {
    PublishesResource(AccountAddress, AbstractResource),
    RemovesResource(AccountAddress, AbstractResource),
    RotatesKey(AccountAddress, (Vec<u8>, Vec<u8>)),
    CreatesAccount(Account),
}

} // verus!
