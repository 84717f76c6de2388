//! Laws of substitution and of the ability calculus, stated over the
//! models that the contracts of `substitute` and `abilities` use.
use vstd::prelude::*;

use crate::abilities::{
    abilities_all, all_non_phantom_have, lemma_abilities_all_index, phantom_flags, lemma_wf_types_index, spec_abilities,
    spec_polymorphic, spec_vector, wf_type, wf_types, Ability, AbilitySet, CompiledModule,
};
use crate::types::{
    all_params_below, lemma_substitute_all_index, params_below, spec_struct_handle_from_reference,
    spec_substitute, spec_type_actuals_from_reference, substitute_all, TokenModel,
};

verus! {

/// Substitution commutes with the ability calculus: the abilities of `t`
/// with its type parameters replaced by `tys` are the abilities of `t` when
/// each type parameter `i` is given the abilities of `tys[i]`. The result of
/// the substitution is well formed for the constraints of `tys`.
pub proof fn law_abilities_of_substitution(
    m: CompiledModule,
    t: TokenModel,
    tys: Seq<TokenModel>,
    constraints: Seq<AbilitySet>,
)
    requires
        wf_type(m, t, tys.len()),
        wf_types(m, tys, constraints.len()),
    ensures
        wf_type(m, spec_substitute(t, tys), constraints.len()),
        spec_abilities(m, spec_substitute(t, tys), constraints) == spec_abilities(
            m,
            t,
            abilities_all(m, tys, constraints),
        ),
    decreases t,
{
    lemma_abilities_all_index(m, tys, constraints);
    match t {
        TokenModel::TypeParameter(i) => {
            lemma_wf_types_index(m, tys, constraints.len());
        },
        TokenModel::Vector(inner) => {
            law_abilities_of_substitution(m, *inner, tys, constraints);
        },
        TokenModel::DatatypeInstantiation(idx, args) => {
            lemma_abilities_of_substitution_all(m, args, tys, constraints);
            lemma_substitute_all_index(args, tys);
        },
        _ => {},
    }
}

proof fn lemma_abilities_of_substitution_all(
    m: CompiledModule,
    ts: Seq<TokenModel>,
    tys: Seq<TokenModel>,
    constraints: Seq<AbilitySet>,
)
    requires
        wf_types(m, ts, tys.len()),
        wf_types(m, tys, constraints.len()),
    ensures
        wf_types(m, substitute_all(ts, tys), constraints.len()),
        abilities_all(m, substitute_all(ts, tys), constraints) == abilities_all(
            m,
            ts,
            abilities_all(m, tys, constraints),
        ),
    decreases ts,
{
    if ts.len() > 0 {
        lemma_abilities_of_substitution_all(m, ts.drop_last(), tys, constraints);
        law_abilities_of_substitution(m, ts.last(), tys, constraints);
        let s = substitute_all(ts, tys);
        assert(s.drop_last() =~= substitute_all(ts.drop_last(), tys));
        assert(s.last() == spec_substitute(ts.last(), tys));
    }
}

/// Type parameter `i` for each `i < n`.
pub open spec fn identity_params(n: nat) -> Seq<TokenModel> {
    Seq::new(n, |i: int| TokenModel::TypeParameter(i as u16))
}

/// Replacing each type parameter by itself leaves a type unchanged.
pub proof fn law_substitute_identity(t: TokenModel, n: nat)
    requires
        n <= 0x10000,
        params_below(t, n),
    ensures
        spec_substitute(t, identity_params(n)) == t,
    decreases t,
{
    match t {
        TokenModel::Vector(inner) => law_substitute_identity(*inner, n),
        TokenModel::Reference(inner) => law_substitute_identity(*inner, n),
        TokenModel::MutableReference(inner) => law_substitute_identity(*inner, n),
        TokenModel::DatatypeInstantiation(_, args) => lemma_substitute_all_identity(args, n),
        _ => {},
    }
}

proof fn lemma_substitute_all_identity(ts: Seq<TokenModel>, n: nat)
    requires
        n <= 0x10000,
        all_params_below(ts, n),
    ensures
        substitute_all(ts, identity_params(n)) == ts,
    decreases ts,
{
    if ts.len() > 0 {
        lemma_substitute_all_identity(ts.drop_last(), n);
        law_substitute_identity(ts.last(), n);
        assert(substitute_all(ts, identity_params(n)) =~= ts);
    }
}

/// A type without type parameters is unchanged by any substitution.
pub proof fn law_substitute_closed(t: TokenModel, tys: Seq<TokenModel>)
    requires
        params_below(t, 0),
    ensures
        spec_substitute(t, tys) == t,
    decreases t,
{
    match t {
        TokenModel::Vector(inner) => law_substitute_closed(*inner, tys),
        TokenModel::Reference(inner) => law_substitute_closed(*inner, tys),
        TokenModel::MutableReference(inner) => law_substitute_closed(*inner, tys),
        TokenModel::DatatypeInstantiation(_, args) => lemma_substitute_all_closed(args, tys),
        _ => {},
    }
}

proof fn lemma_substitute_all_closed(ts: Seq<TokenModel>, tys: Seq<TokenModel>)
    requires
        all_params_below(ts, 0),
    ensures
        substitute_all(ts, tys) == ts,
    decreases ts,
{
    if ts.len() > 0 {
        lemma_substitute_all_closed(ts.drop_last(), tys);
        law_substitute_closed(ts.last(), tys);
        assert(substitute_all(ts, tys) =~= ts);
    }
}

/// Substituting `a` and then `b` is substituting once, with `b` applied to
/// each of `a`.
pub proof fn law_substitute_compose(t: TokenModel, a: Seq<TokenModel>, b: Seq<TokenModel>)
    requires
        params_below(t, a.len()),
    ensures
        spec_substitute(spec_substitute(t, a), b) == spec_substitute(t, substitute_all(a, b)),
    decreases t,
{
    lemma_substitute_all_index(a, b);
    match t {
        TokenModel::Vector(inner) => law_substitute_compose(*inner, a, b),
        TokenModel::Reference(inner) => law_substitute_compose(*inner, a, b),
        TokenModel::MutableReference(inner) => law_substitute_compose(*inner, a, b),
        TokenModel::DatatypeInstantiation(_, args) => lemma_substitute_all_compose(args, a, b),
        _ => {},
    }
}

proof fn lemma_substitute_all_compose(ts: Seq<TokenModel>, a: Seq<TokenModel>, b: Seq<TokenModel>)
    requires
        all_params_below(ts, a.len()),
    ensures
        substitute_all(substitute_all(ts, a), b) == substitute_all(ts, substitute_all(a, b)),
    decreases ts,
{
    if ts.len() > 0 {
        lemma_substitute_all_compose(ts.drop_last(), a, b);
        law_substitute_compose(ts.last(), a, b);
        let s = substitute_all(ts, a);
        assert(s.drop_last() =~= substitute_all(ts.drop_last(), a));
        assert(substitute_all(s, b) =~= substitute_all(ts, substitute_all(a, b)));
    }
}

/// The argument of a phantom parameter has no say in the abilities of an
/// instantiation.
pub proof fn law_phantom_argument_irrelevant(
    declared: AbilitySet,
    phantoms: Seq<bool>,
    args: Seq<AbilitySet>,
    i: int,
    replacement: AbilitySet,
)
    requires
        0 <= i < args.len(),
        phantoms[i],
    ensures
        spec_polymorphic(declared, phantoms, args.update(i, replacement)) == spec_polymorphic(
            declared,
            phantoms,
            args,
        ),
{
    let u = args.update(i, replacement);
    assert forall|j: int| 0 <= j < args.len() && !phantoms[j] implies u[j] == args[j] by {}
}

/// An instantiation has ability `a` exactly when its declaration has `a`
/// and every argument of a non-phantom parameter has the ability that `a`
/// requires.
pub proof fn law_polymorphic_characterization(
    declared: AbilitySet,
    phantoms: Seq<bool>,
    args: Seq<AbilitySet>,
    a: Ability,
)
    ensures
        spec_polymorphic(declared, phantoms, args).spec_has(a) == (declared.spec_has(a)
            && all_non_phantom_have(phantoms, args, a.spec_required(), args.len() as int)),
{
}

/// An instantiation never has an ability that its declaration lacks.
pub proof fn law_polymorphic_within_declared(
    declared: AbilitySet,
    phantoms: Seq<bool>,
    args: Seq<AbilitySet>,
    a: Ability,
)
    ensures
        spec_polymorphic(declared, phantoms, args).spec_has(a) ==> declared.spec_has(a),
{
}

/// Granting the type parameters more abilities never takes an ability away
/// from a type.
pub proof fn law_abilities_monotone(
    m: CompiledModule,
    t: TokenModel,
    weaker: Seq<AbilitySet>,
    stronger: Seq<AbilitySet>,
    a: Ability,
)
    requires
        wf_type(m, t, weaker.len()),
        weaker.len() == stronger.len(),
        forall|i: int, b: Ability|
            0 <= i < weaker.len() && #[trigger] weaker[i].spec_has(b) ==> stronger[i].spec_has(b),
    ensures
        spec_abilities(m, t, weaker).spec_has(a) ==> spec_abilities(m, t, stronger).spec_has(a),
    decreases t,
{
    match t {
        TokenModel::Vector(inner) => {
            law_abilities_monotone(m, *inner, weaker, stronger, a.spec_required());
            let w = spec_abilities(m, *inner, weaker);
            let s = spec_abilities(m, *inner, stronger);
            assert(seq![w][0] == w);
            assert(seq![s][0] == s);
            assert(seq![false][0] == false);
            law_polymorphic_characterization(spec_vector(), seq![false], seq![w], a);
            law_polymorphic_characterization(spec_vector(), seq![false], seq![s], a);
        },
        TokenModel::TypeParameter(i) => {
            if weaker[i as int].spec_has(a) {
                assert(stronger[i as int].spec_has(a));
            }
        },
        TokenModel::DatatypeInstantiation(idx, args) => {
            let wa = abilities_all(m, args, weaker);
            let sa = abilities_all(m, args, stronger);
            lemma_abilities_all_index(m, args, weaker);
            lemma_abilities_all_index(m, args, stronger);
            lemma_wf_types_index(m, args, weaker.len());
            assert forall|j: int| 0 <= j < args.len() && #[trigger] wa[j].spec_has(a.spec_required())
                implies sa[j].spec_has(a.spec_required()) by {
                law_abilities_monotone(m, args[j], weaker, stronger, a.spec_required());
            }
            let h = m.datatype_handles@[idx as int];
            law_polymorphic_characterization(h.abilities, phantom_flags(h), wa, a);
            law_polymorphic_characterization(h.abilities, phantom_flags(h), sa, a);
            let ph = phantom_flags(h);
            let req = a.spec_required();
            if spec_abilities(m, t, weaker).spec_has(a) {
                assert(all_non_phantom_have(ph, wa, req, wa.len() as int));
                assert forall|j: int| 0 <= j < sa.len() && !ph[j] implies #[trigger] sa[j].spec_has(
                    req,
                ) by {
                    assert(wa[j].spec_has(req));
                }
                assert(all_non_phantom_have(ph, sa, req, sa.len() as int));
            }
        },
        _ => {},
    }
}

/// A reference designates a datatype exactly when it has type arguments to
/// report.
pub proof fn law_reference_accessors_agree(t: TokenModel)
    ensures
        spec_struct_handle_from_reference(t) is Some <==> spec_type_actuals_from_reference(t) is Some,
{
}


/// The abilities of each kind of type. Primitive types have `copy`, `drop`
/// and `store`; references `copy` and `drop`, whatever they point to;
/// `signer` only `drop`; a type parameter the abilities of its constraint; a
/// datatype without type arguments exactly the abilities its declaration
/// lists; a vector every ability of its element but `key`; an instantiation
/// each declared ability whose requirement (`store` for `key`, the ability
/// itself otherwise) every argument of a non-phantom parameter meets.
pub proof fn law_abilities_by_kind(m: CompiledModule, t: TokenModel, constraints: Seq<AbilitySet>)
    requires
        wf_type(m, t, constraints.len()),
    ensures
        (t is Bool || t is U8 || t is U16 || t is U32 || t is U64 || t is U128 || t is U256
            || t is Address) ==> spec_abilities(m, t, constraints) == (AbilitySet {
            copy: true,
            drop: true,
            store: true,
            key: false,
        }),
        (t is Reference || t is MutableReference) ==> spec_abilities(m, t, constraints) == (
        AbilitySet { copy: true, drop: true, store: false, key: false }),
        t is Signer ==> spec_abilities(m, t, constraints) == (AbilitySet {
            copy: false,
            drop: true,
            store: false,
            key: false,
        }),
        t matches TokenModel::TypeParameter(i) ==> spec_abilities(m, t, constraints)
            == constraints[i as int],
        t matches TokenModel::Datatype(idx) ==> spec_abilities(m, t, constraints)
            == m.datatype_handles@[idx as int].abilities,
        t matches TokenModel::Vector(elem) ==> forall|a: Ability|
            #[trigger] spec_abilities(m, t, constraints).spec_has(a) == (a != Ability::Key
                && spec_abilities(m, *elem, constraints).spec_has(a)),
        t matches TokenModel::DatatypeInstantiation(idx, args) ==> forall|a: Ability|
            #[trigger] spec_abilities(m, t, constraints).spec_has(a) == (
            m.datatype_handles@[idx as int].abilities.spec_has(a) && forall|i: int|
                #![trigger args[i]]
                0 <= i < args.len() && !m.datatype_handles@[idx as int].type_parameters@[i].is_phantom
                    ==> spec_abilities(m, args[i], constraints).spec_has(
                    if a == Ability::Key {
                        Ability::Store
                    } else {
                        a
                    },
                )),
{
    match t {
        TokenModel::Vector(elem) => {
            let e = spec_abilities(m, *elem, constraints);
            assert forall|a: Ability| #[trigger]
                spec_abilities(m, t, constraints).spec_has(a) == (a != Ability::Key && e.spec_has(a)) by {
                law_polymorphic_characterization(spec_vector(), seq![false], seq![e], a);
                assert(seq![e][0] == e);
                assert(seq![false][0] == false);
                if e.spec_has(a.spec_required()) {
                    assert(all_non_phantom_have(seq![false], seq![e], a.spec_required(), 1));
                }
            }
        },
        TokenModel::DatatypeInstantiation(idx, args) => {
            let h = m.datatype_handles@[idx as int];
            let ph = phantom_flags(h);
            let aa = abilities_all(m, args, constraints);
            lemma_abilities_all_index(m, args, constraints);
            assert forall|a: Ability| #[trigger] spec_abilities(m, t, constraints).spec_has(a) == (
            h.abilities.spec_has(a) && forall|i: int|
                #![trigger args[i]]
                0 <= i < args.len() && !h.type_parameters@[i].is_phantom ==> spec_abilities(
                    m,
                    args[i],
                    constraints,
                ).spec_has(
                    if a == Ability::Key {
                        Ability::Store
                    } else {
                        a
                    },
                )) by {
                law_polymorphic_characterization(h.abilities, ph, aa, a);
                let req = if a == Ability::Key {
                    Ability::Store
                } else {
                    a
                };
                assert(req == a.spec_required());
                assert forall|i: int| 0 <= i < args.len() implies ph[i] == h.type_parameters@[i].is_phantom
                    && aa[i] == spec_abilities(m, args[i], constraints) by {}
                if forall|i: int|
                    0 <= i < args.len() && !h.type_parameters@[i].is_phantom ==> #[trigger] spec_abilities(
                        m,
                        args[i],
                        constraints,
                    ).spec_has(req) {
                    assert forall|i: int| 0 <= i < aa.len() && !ph[i] implies #[trigger] aa[i].spec_has(
                        req,
                    ) by {
                        assert(spec_abilities(m, args[i], constraints).spec_has(req));
                    }
                }
                if all_non_phantom_have(ph, aa, req, aa.len() as int) {
                    assert forall|i: int|
                        0 <= i < args.len() && !h.type_parameters@[i].is_phantom implies #[trigger] spec_abilities(
                            m,
                            args[i],
                            constraints,
                        ).spec_has(req) by {
                        assert(aa[i].spec_has(req));
                    }
                }
            }
        },
        _ => {},
    }
}

/// A datatype without type parameters, instantiated with no arguments, has
/// exactly the abilities it declares.
pub proof fn law_polymorphic_no_arguments(declared: AbilitySet)
    ensures
        spec_polymorphic(declared, Seq::empty(), Seq::empty()) == declared,
{
}

/// What substitution does to each kind of type: type parameter `i` becomes
/// `tys[i]`; primitive types, `signer` and datatypes without arguments stay;
/// vectors and references are rebuilt around the substituted inner type; an
/// instantiation keeps its datatype and has each argument substituted.
pub proof fn law_substitute_by_kind(t: TokenModel, tys: Seq<TokenModel>)
    ensures
        t matches TokenModel::TypeParameter(i) ==> (i < tys.len() ==> spec_substitute(t, tys)
            == tys[i as int]),
        (t is Bool || t is U8 || t is U16 || t is U32 || t is U64 || t is U128 || t is U256
            || t is Address || t is Signer || t is Datatype) ==> spec_substitute(t, tys) == t,
        t matches TokenModel::Vector(inner) ==> spec_substitute(t, tys) == TokenModel::Vector(
            Box::new(spec_substitute(*inner, tys)),
        ),
        t matches TokenModel::Reference(inner) ==> spec_substitute(t, tys) == TokenModel::Reference(
            Box::new(spec_substitute(*inner, tys)),
        ),
        t matches TokenModel::MutableReference(inner) ==> spec_substitute(t, tys)
            == TokenModel::MutableReference(Box::new(spec_substitute(*inner, tys))),
        t matches TokenModel::DatatypeInstantiation(idx, args) ==> (spec_substitute(
            t,
            tys,
        ) matches TokenModel::DatatypeInstantiation(idx2, args2) && idx2 == idx && args2.len()
            == args.len() && forall|k: int|
            0 <= k < args.len() ==> #[trigger] args2[k] == spec_substitute(args[k], tys)),
{
    if let TokenModel::DatatypeInstantiation(_, args) = t {
        lemma_substitute_all_index(args, tys);
    }
}

} // verus!
