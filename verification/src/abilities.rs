//! The ability calculus of the Move type system: which of `copy`, `drop`,
//! `store` and `key` a type has, given the declarations of a module and the
//! constraints on the type parameters in scope.
use vstd::prelude::*;

use crate::types::{models, lemma_models_index, SignatureToken, TokenModel, DatatypeHandleIndex};

verus! {

broadcast use vstd::std_specs::vec::group_vec_axioms;

/// One of the four abilities of the Move type system.
#[derive(Debug, Clone, Copy, PartialEq, Eq, Structural)]
pub enum Ability {
    Copy,
    Drop,
    Store,
    Key,
}

impl Ability {
    /// The ability that every type argument of a non-phantom parameter must
    /// have for an instantiated type to keep this ability: `key` asks for
    /// `store`, the others for themselves.
    pub open spec fn spec_required(self) -> Ability {
        match self {
            Ability::Key => Ability::Store,
            _ => self,
        }
    }

    pub fn required(self) -> (r: Ability)
        ensures
            r == self.spec_required(),
    {
        match self {
            Ability::Key => Ability::Store,
            _ => self,
        }
    }
}

/// A set of abilities.
#[derive(Debug, Clone, Copy, PartialEq, Eq, Structural)]
pub struct AbilitySet {
    pub copy: bool,
    pub drop: bool,
    pub store: bool,
    pub key: bool,
}

pub open spec fn spec_ability_set(copy: bool, drop: bool, store: bool, key: bool) -> AbilitySet {
    AbilitySet { copy, drop, store, key }
}

/// The abilities of the primitive types: `copy`, `drop` and `store`.
pub open spec fn spec_primitives() -> AbilitySet {
    spec_ability_set(true, true, true, false)
}

/// The abilities of references: `copy` and `drop`.
pub open spec fn spec_references() -> AbilitySet {
    spec_ability_set(true, true, false, false)
}

/// The abilities of `signer`: `drop` only.
pub open spec fn spec_signer() -> AbilitySet {
    spec_ability_set(false, true, false, false)
}

/// The abilities declared for `vector`: `copy`, `drop` and `store`.
pub open spec fn spec_vector() -> AbilitySet {
    spec_ability_set(true, true, true, false)
}

impl AbilitySet {
    /// Whether `a` is in the set.
    pub open spec fn spec_has(self, a: Ability) -> bool {
        match a {
            Ability::Copy => self.copy,
            Ability::Drop => self.drop,
            Ability::Store => self.store,
            Ability::Key => self.key,
        }
    }

    pub fn empty() -> (r: AbilitySet)
        ensures
            r == spec_ability_set(false, false, false, false),
    {
        AbilitySet { copy: false, drop: false, store: false, key: false }
    }

    pub fn all() -> (r: AbilitySet)
        ensures
            r == spec_ability_set(true, true, true, true),
    {
        AbilitySet { copy: true, drop: true, store: true, key: true }
    }

    pub fn primitives() -> (r: AbilitySet)
        ensures
            r == spec_primitives(),
    {
        AbilitySet { copy: true, drop: true, store: true, key: false }
    }

    pub fn references() -> (r: AbilitySet)
        ensures
            r == spec_references(),
    {
        AbilitySet { copy: true, drop: true, store: false, key: false }
    }

    pub fn signer() -> (r: AbilitySet)
        ensures
            r == spec_signer(),
    {
        AbilitySet { copy: false, drop: true, store: false, key: false }
    }

    pub fn vector() -> (r: AbilitySet)
        ensures
            r == spec_vector(),
    {
        AbilitySet { copy: true, drop: true, store: true, key: false }
    }

    pub fn has_ability(&self, a: Ability) -> (r: bool)
        ensures
            r == self.spec_has(a),
    {
        match a {
            Ability::Copy => self.copy,
            Ability::Drop => self.drop,
            Ability::Store => self.store,
            Ability::Key => self.key,
        }
    }

    pub fn union(self, other: AbilitySet) -> (r: AbilitySet)
        ensures
            forall|a: Ability| #[trigger] r.spec_has(a) == (self.spec_has(a) || other.spec_has(a)),
    {
        AbilitySet {
            copy: self.copy || other.copy,
            drop: self.drop || other.drop,
            store: self.store || other.store,
            key: self.key || other.key,
        }
    }

    pub fn intersect(self, other: AbilitySet) -> (r: AbilitySet)
        ensures
            forall|a: Ability| #[trigger] r.spec_has(a) == (self.spec_has(a) && other.spec_has(a)),
    {
        AbilitySet {
            copy: self.copy && other.copy,
            drop: self.drop && other.drop,
            store: self.store && other.store,
            key: self.key && other.key,
        }
    }

    /// The abilities of a datatype declared with `declared_abilities`,
    /// instantiated with type arguments whose abilities are `type_arguments`;
    /// `declared_phantom_parameters[i]` tells whether parameter `i` is phantom.
    /// An ability stays when it is declared and every argument of a
    /// non-phantom parameter has the ability it requires. `None` when the two
    /// lists differ in length.
    pub fn polymorphic_abilities(
        declared_abilities: AbilitySet,
        declared_phantom_parameters: &[bool],
        type_arguments: &[AbilitySet],
    ) -> (r: Option<AbilitySet>)
        ensures
            r is Some <==> declared_phantom_parameters@.len() == type_arguments@.len(),
            r matches Some(abs) ==> abs == spec_polymorphic(
                declared_abilities,
                declared_phantom_parameters@,
                type_arguments@,
            ),
    {
        if declared_phantom_parameters.len() != type_arguments.len() {
            return None;
        }
        let ghost ph = declared_phantom_parameters@;
        let ghost args = type_arguments@;
        let mut copy = true;
        let mut drop = true;
        let mut store = true;
        let mut i: usize = 0;
        while i < type_arguments.len()
            invariant
                i <= type_arguments.len(),
                ph == declared_phantom_parameters@,
                args == type_arguments@,
                ph.len() == args.len(),
                copy == all_non_phantom_have(ph, args, Ability::Copy, i as int),
                drop == all_non_phantom_have(ph, args, Ability::Drop, i as int),
                store == all_non_phantom_have(ph, args, Ability::Store, i as int),
            decreases type_arguments.len() - i,
        {
            proof {
                lemma_non_phantom_step(ph, args, Ability::Copy, i as int);
                lemma_non_phantom_step(ph, args, Ability::Drop, i as int);
                lemma_non_phantom_step(ph, args, Ability::Store, i as int);
            }
            if !declared_phantom_parameters[i] {
                let a = type_arguments[i];
                copy = copy && a.copy;
                drop = drop && a.drop;
                store = store && a.store;
            }
            i = i + 1;
        }
        Some(
            AbilitySet {
                copy: declared_abilities.copy && copy,
                drop: declared_abilities.drop && drop,
                store: declared_abilities.store && store,
                key: declared_abilities.key && store,
            },
        )
    }
}

/// Every argument among the first `n` whose parameter is not phantom has `a`.
pub open spec fn all_non_phantom_have(
    phantoms: Seq<bool>,
    args: Seq<AbilitySet>,
    a: Ability,
    n: int,
) -> bool {
    forall|i: int| 0 <= i < n && !phantoms[i] ==> #[trigger] args[i].spec_has(a)
}

proof fn lemma_non_phantom_step(phantoms: Seq<bool>, args: Seq<AbilitySet>, a: Ability, n: int)
    requires
        0 <= n,
    ensures
        all_non_phantom_have(phantoms, args, a, n + 1) == (all_non_phantom_have(
            phantoms,
            args,
            a,
            n,
        ) && (phantoms[n] || args[n].spec_has(a))),
{
    if all_non_phantom_have(phantoms, args, a, n) && (phantoms[n] || args[n].spec_has(a)) {
        assert forall|i: int| 0 <= i < n + 1 && !phantoms[i] implies #[trigger] args[i].spec_has(
            a,
        ) by {
            if i < n {
                assert(0 <= i < n && !phantoms[i]);
            }
        }
    }
}

/// The abilities of an instantiated datatype: an ability `a` is kept when it
/// is declared and every argument of a non-phantom parameter has
/// `a.spec_required()`.
pub open spec fn spec_polymorphic(
    declared: AbilitySet,
    phantoms: Seq<bool>,
    args: Seq<AbilitySet>,
) -> AbilitySet {
    AbilitySet {
        copy: declared.copy && all_non_phantom_have(phantoms, args, Ability::Copy, args.len() as int),
        drop: declared.drop && all_non_phantom_have(phantoms, args, Ability::Drop, args.len() as int),
        store: declared.store && all_non_phantom_have(
            phantoms,
            args,
            Ability::Store,
            args.len() as int,
        ),
        key: declared.key && all_non_phantom_have(phantoms, args, Ability::Store, args.len() as int),
    }
}


/// A type parameter of a datatype declaration.
#[derive(Debug, Clone, Copy, PartialEq, Eq, Structural)]
pub struct DatatypeTyParameter {
    pub constraints: AbilitySet,
    pub is_phantom: bool,
}

/// The declaration of a datatype as far as abilities go: the abilities it
/// declares and its type parameters.
#[derive(Debug)]
pub struct DatatypeHandle {
    pub abilities: AbilitySet,
    pub type_parameters: Vec<DatatypeTyParameter>,
}

/// The part of a compiled module that the ability calculus reads: its table
/// of datatype handles, indexed by `DatatypeHandleIndex`.
#[derive(Debug)]
pub struct CompiledModule {
    pub datatype_handles: Vec<DatatypeHandle>,
}

impl CompiledModule {
    /// The handle at `idx`.
    pub fn datatype_handle_at(&self, idx: DatatypeHandleIndex) -> (r: &DatatypeHandle)
        requires
            (idx.0 as int) < self.datatype_handles@.len(),
        ensures
            *r == self.datatype_handles@[idx.0 as int],
    {
        &self.datatype_handles[idx.0 as usize]
    }
}

/// Which type parameters of `h` are phantom, in order.
pub open spec fn phantom_flags(h: DatatypeHandle) -> Seq<bool> {
    h.type_parameters@.map_values(|p: DatatypeTyParameter| p.is_phantom)
}

/// Outside of references, `t` refers only to datatype handles of `m`,
/// instantiates each of them with as many type arguments as it declares
/// parameters, and refers only to type parameters below `n`. What a
/// reference points to is not looked at: a reference has the same abilities
/// whatever it points to.
pub open spec fn wf_type(m: CompiledModule, t: TokenModel, n: nat) -> bool
    decreases t,
{
    match t {
        TokenModel::Vector(inner) => wf_type(m, *inner, n),
        TokenModel::Datatype(idx) => (idx as int) < m.datatype_handles@.len(),
        TokenModel::DatatypeInstantiation(idx, args) => {
            &&& (idx as int) < m.datatype_handles@.len()
            &&& m.datatype_handles@[idx as int].type_parameters@.len() == args.len()
            &&& wf_types(m, args, n)
        },
        TokenModel::TypeParameter(idx) => idx < n,
        _ => true,
    }
}

/// Each of `ts` is well formed.
pub open spec fn wf_types(m: CompiledModule, ts: Seq<TokenModel>, n: nat) -> bool
    decreases ts,
{
    if ts.len() == 0 {
        true
    } else {
        wf_types(m, ts.drop_last(), n) && wf_type(m, ts.last(), n)
    }
}

/// The abilities of `t` in module `m`, where type parameter `i` has the
/// abilities `constraints[i]`.
pub open spec fn spec_abilities(
    m: CompiledModule,
    t: TokenModel,
    constraints: Seq<AbilitySet>,
) -> AbilitySet
    decreases t,
{
    match t {
        TokenModel::Bool | TokenModel::U8 | TokenModel::U16 | TokenModel::U32 | TokenModel::U64
        | TokenModel::U128 | TokenModel::U256 | TokenModel::Address => spec_primitives(),
        TokenModel::Reference(_) | TokenModel::MutableReference(_) => spec_references(),
        TokenModel::Signer => spec_signer(),
        TokenModel::TypeParameter(idx) => constraints[idx as int],
        TokenModel::Vector(inner) => spec_polymorphic(
            spec_vector(),
            seq![false],
            seq![spec_abilities(m, *inner, constraints)],
        ),
        TokenModel::Datatype(idx) => m.datatype_handles@[idx as int].abilities,
        TokenModel::DatatypeInstantiation(idx, args) => spec_polymorphic(
            m.datatype_handles@[idx as int].abilities,
            phantom_flags(m.datatype_handles@[idx as int]),
            abilities_all(m, args, constraints),
        ),
    }
}

/// The abilities of each of `ts`, in order.
pub open spec fn abilities_all(
    m: CompiledModule,
    ts: Seq<TokenModel>,
    constraints: Seq<AbilitySet>,
) -> Seq<AbilitySet>
    decreases ts,
{
    if ts.len() == 0 {
        Seq::empty()
    } else {
        abilities_all(m, ts.drop_last(), constraints).push(
            spec_abilities(m, ts.last(), constraints),
        )
    }
}

pub proof fn lemma_wf_types_index(m: CompiledModule, ts: Seq<TokenModel>, n: nat)
    ensures
        wf_types(m, ts, n) <==> forall|i: int| 0 <= i < ts.len() ==> #[trigger] wf_type(m, ts[i], n),
    decreases ts.len(),
{
    if ts.len() > 0 {
        lemma_wf_types_index(m, ts.drop_last(), n);
        assert(ts.last() == ts[ts.len() - 1]);
        if wf_types(m, ts, n) {
            assert forall|i: int| 0 <= i < ts.len() implies #[trigger] wf_type(m, ts[i], n) by {
                if i < ts.len() - 1 {
                    assert(ts.drop_last()[i] == ts[i]);
                }
            }
        }
        if forall|i: int| 0 <= i < ts.len() ==> #[trigger] wf_type(m, ts[i], n) {
            assert forall|i: int| 0 <= i < ts.drop_last().len() implies #[trigger] wf_type(
                m,
                ts.drop_last()[i],
                n,
            ) by {
                assert(ts.drop_last()[i] == ts[i]);
            }
            assert(wf_type(m, ts[ts.len() - 1], n));
            assert(wf_types(m, ts, n));
        }
    }
}

pub proof fn lemma_abilities_all_index(
    m: CompiledModule,
    ts: Seq<TokenModel>,
    constraints: Seq<AbilitySet>,
)
    ensures
        abilities_all(m, ts, constraints).len() == ts.len(),
        forall|i: int|
            0 <= i < ts.len() ==> #[trigger] abilities_all(m, ts, constraints)[i] == spec_abilities(
                m,
                ts[i],
                constraints,
            ),
    decreases ts.len(),
{
    if ts.len() > 0 {
        lemma_abilities_all_index(m, ts.drop_last(), constraints);
    }
}

/// The abilities of `ty` in `module`, where type parameter `i` has the
/// abilities `constraints[i]`.
///
/// `ty` must be well formed for `module` and `constraints` (see `wf_type`):
/// on any other type the computation indexes out of bounds or meets an
/// instantiation of the wrong arity.
pub fn abilities(
    module: &CompiledModule,
    ty: &SignatureToken,
    constraints: &[AbilitySet],
) -> (r: AbilitySet)
    requires
        wf_type(*module, ty@, constraints@.len()),
    ensures
        r == spec_abilities(*module, ty@, constraints@),
        ty@ matches TokenModel::Datatype(idx) ==> r == module.datatype_handles@[idx as int].abilities,
        ty@ matches TokenModel::TypeParameter(i) ==> r == constraints@[i as int],
    decreases ty,
{
    match ty {
        SignatureToken::Bool | SignatureToken::U8 | SignatureToken::U16 | SignatureToken::U32
        | SignatureToken::U64 | SignatureToken::U128 | SignatureToken::U256
        | SignatureToken::Address => AbilitySet::primitives(),
        SignatureToken::Reference(_) | SignatureToken::MutableReference(_) => {
            AbilitySet::references()
        },
        SignatureToken::Signer => AbilitySet::signer(),
        SignatureToken::TypeParameter(idx) => constraints[*idx as usize],
        SignatureToken::Vector(ty) => {
            let phantoms = vec![false];
            let args = vec![abilities(module, ty, constraints)];
            let r = AbilitySet::polymorphic_abilities(
                AbilitySet::vector(),
                phantoms.as_slice(),
                args.as_slice(),
            );
            proof {
                assert(phantoms@ =~= seq![false]);
                assert(args@ =~= seq![spec_abilities(*module, (*ty)@, constraints@)]);
            }
            match r {
                Some(a) => a,
                None => {
                    proof {
                        assert(false);
                    }
                    AbilitySet::vector()
                },
            }
        },
        SignatureToken::Datatype(idx) => {
            let sh = module.datatype_handle_at(*idx);
            sh.abilities
        },
        SignatureToken::DatatypeInstantiation(inst) => {
            let (idx, type_args) = &**inst;
            let ghost n = constraints@.len();
            let ghost targs = models(type_args@);
            proof {
                lemma_models_index(type_args@);
                lemma_wf_types_index(*module, targs, n);
            }
            let sh = module.datatype_handle_at(*idx);
            let declared_abilities = sh.abilities;
            let mut phantoms: Vec<bool> = Vec::new();
            let mut j: usize = 0;
            while j < sh.type_parameters.len()
                invariant
                    j <= sh.type_parameters.len(),
                    phantoms@.len() == j,
                    forall|k: int|
                        0 <= k < j ==> #[trigger] phantoms@[k]
                            == sh.type_parameters@[k].is_phantom,
                decreases sh.type_parameters.len() - j,
            {
                phantoms.push(sh.type_parameters[j].is_phantom);
                j = j + 1;
            }
            let mut type_arguments: Vec<AbilitySet> = Vec::new();
            let mut i: usize = 0;
            #[verifier::loop_isolation(false)]
            while i < type_args.len()
                invariant
                    i <= type_args.len(),
                    type_arguments@.len() == i,
                    forall|k: int|
                        0 <= k < i ==> #[trigger] type_arguments@[k] == spec_abilities(
                            *module,
                            type_args@[k]@,
                            constraints@,
                        ),
                decreases type_args.len() - i,
            {
                proof {
                    assert(decreases_to!(*ty => type_args@[i as int]));
                    assert(targs[i as int] == type_args@[i as int]@);
                }
                let a = abilities(module, &type_args[i], constraints);
                type_arguments.push(a);
                i = i + 1;
            }
            proof {
                assert(phantoms@ =~= phantom_flags(*sh));
                lemma_abilities_all_index(*module, targs, constraints@);
                assert forall|k: int| 0 <= k < type_arguments@.len() implies #[trigger] type_arguments@[k]
                    == abilities_all(*module, targs, constraints@)[k] by {
                    assert(targs[k] == type_args@[k]@);
                }
                assert(type_arguments@ =~= abilities_all(*module, targs, constraints@));
            }
            match AbilitySet::polymorphic_abilities(
                declared_abilities,
                phantoms.as_slice(),
                type_arguments.as_slice(),
            ) {
                Some(a) => a,
                None => {
                    proof {
                        assert(false);
                    }
                    declared_abilities
                },
            }
        },
    }
}

} // verus!
