use test_generation::abilities::{
    abilities, Ability, AbilitySet, CompiledModule, DatatypeHandle, DatatypeTyParameter,
};
use test_generation::types::{substitute, DatatypeHandleIndex, SignatureToken};

fn set(copy: bool, drop: bool, store: bool, key: bool) -> AbilitySet {
    AbilitySet { copy, drop, store, key }
}

fn param(is_phantom: bool) -> DatatypeTyParameter {
    DatatypeTyParameter { constraints: AbilitySet::empty(), is_phantom }
}

/// Handle 0: `Coin<phantom T>` with key + store; handle 1: `Pair<A, B>`
/// with copy + drop + store; handle 2: `Res` with key + store.
fn module() -> CompiledModule {
    CompiledModule {
        datatype_handles: vec![
            DatatypeHandle { abilities: set(false, false, true, true), type_parameters: vec![param(true)] },
            DatatypeHandle {
                abilities: set(true, true, true, false),
                type_parameters: vec![param(false), param(false)],
            },
            DatatypeHandle { abilities: set(false, false, true, true), type_parameters: vec![] },
        ],
    }
}

fn inst(idx: u16, args: Vec<SignatureToken>) -> SignatureToken {
    SignatureToken::DatatypeInstantiation(Box::new((DatatypeHandleIndex(idx), args)))
}

#[test]
fn primitive_reference_and_signer_abilities() {
    let m = module();
    for t in [
        SignatureToken::Bool,
        SignatureToken::U8,
        SignatureToken::U16,
        SignatureToken::U32,
        SignatureToken::U64,
        SignatureToken::U128,
        SignatureToken::U256,
        SignatureToken::Address,
    ] {
        assert_eq!(abilities(&m, &t, &[]), AbilitySet::primitives());
    }
    let r = SignatureToken::Reference(Box::new(SignatureToken::Signer));
    assert_eq!(abilities(&m, &r, &[]), set(true, true, false, false));
    let mr = SignatureToken::MutableReference(Box::new(SignatureToken::U8));
    assert_eq!(abilities(&m, &mr, &[]), AbilitySet::references());
    assert_eq!(abilities(&m, &SignatureToken::Signer, &[]), set(false, true, false, false));
}

#[test]
fn vector_abilities_follow_the_element() {
    let m = module();
    let v8 = SignatureToken::Vector(Box::new(SignatureToken::U8));
    assert_eq!(abilities(&m, &v8, &[]), set(true, true, true, false));
    let vs = SignatureToken::Vector(Box::new(SignatureToken::Signer));
    assert_eq!(abilities(&m, &vs, &[]), set(false, true, false, false));
    let vr = SignatureToken::Vector(Box::new(SignatureToken::Datatype(DatatypeHandleIndex(2))));
    assert_eq!(abilities(&m, &vr, &[]), set(false, false, true, false));
}

#[test]
fn type_parameters_take_their_constraints() {
    let m = module();
    let c = [set(true, false, false, false), set(false, true, true, true)];
    assert_eq!(abilities(&m, &SignatureToken::TypeParameter(1), &c), c[1]);
    assert_eq!(abilities(&m, &SignatureToken::TypeParameter(0), &c), c[0]);
}

#[test]
fn datatype_abilities_are_declared() {
    let m = module();
    let t = SignatureToken::Datatype(DatatypeHandleIndex(2));
    assert_eq!(abilities(&m, &t, &[]), set(false, false, true, true));
}

#[test]
fn phantom_argument_does_not_matter() {
    let m = module();
    let with_signer = inst(0, vec![SignatureToken::Signer]);
    let with_u8 = inst(0, vec![SignatureToken::U8]);
    assert_eq!(abilities(&m, &with_signer, &[]), set(false, false, true, true));
    assert_eq!(abilities(&m, &with_u8, &[]), abilities(&m, &with_signer, &[]));
}

#[test]
fn instantiation_intersects_with_arguments() {
    let m = module();
    let t = inst(1, vec![SignatureToken::U64, SignatureToken::Signer]);
    assert_eq!(abilities(&m, &t, &[]), set(false, true, false, false));
    let t2 = inst(1, vec![SignatureToken::U64, SignatureToken::Address]);
    assert_eq!(abilities(&m, &t2, &[]), set(true, true, true, false));
}

#[test]
fn key_requires_store_of_arguments() {
    let declared = set(false, false, true, true);
    let with_store = AbilitySet::polymorphic_abilities(declared, &[false], &[set(false, false, true, false)]);
    assert_eq!(with_store, Some(set(false, false, true, true)));
    let with_key_only = AbilitySet::polymorphic_abilities(declared, &[false], &[set(false, false, false, true)]);
    assert_eq!(with_key_only, Some(AbilitySet::empty()));
}

#[test]
fn polymorphic_abilities_rejects_mismatched_lengths() {
    assert_eq!(AbilitySet::polymorphic_abilities(AbilitySet::all(), &[false, true], &[AbilitySet::all()]), None);
    assert_eq!(AbilitySet::polymorphic_abilities(AbilitySet::all(), &[], &[]), Some(AbilitySet::all()));
}

#[test]
fn set_operations() {
    let a = set(true, false, true, false);
    let b = set(true, true, false, false);
    assert_eq!(a.union(b), set(true, true, true, false));
    assert_eq!(a.intersect(b), set(true, false, false, false));
    assert!(a.has_ability(Ability::Store));
    assert!(!a.has_ability(Ability::Key));
    assert_eq!(Ability::Key.required(), Ability::Store);
    assert_eq!(Ability::Copy.required(), Ability::Copy);
}

#[test]
fn abilities_of_substitution_match_abilities_with_argument_constraints() {
    let m = module();
    let constraints = [set(true, true, false, false)];
    let t = inst(1, vec![SignatureToken::TypeParameter(0), SignatureToken::Vector(Box::new(SignatureToken::TypeParameter(1)))]);
    let tys = vec![SignatureToken::U8, SignatureToken::TypeParameter(0)];
    let lhs = abilities(&m, &substitute(&t, &tys), &constraints);
    let arg_abilities: Vec<AbilitySet> = tys.iter().map(|x| abilities(&m, x, &constraints)).collect();
    let rhs = abilities(&m, &t, &arg_abilities);
    assert_eq!(lhs, rhs);
    assert_eq!(lhs, set(true, true, false, false));
}

#[test]
fn more_constraints_never_remove_abilities() {
    let m = module();
    let t = inst(1, vec![SignatureToken::TypeParameter(0), SignatureToken::U8]);
    let weak = abilities(&m, &t, &[set(true, false, false, false)]);
    let strong = abilities(&m, &t, &[set(true, true, true, true)]);
    assert_eq!(weak, set(true, false, false, false));
    assert_eq!(strong, set(true, true, true, false));
}

#[test]
fn datatype_handle_lookup() {
    let m = module();
    assert_eq!(m.datatype_handle_at(DatatypeHandleIndex(1)).type_parameters.len(), 2);
}

#[test]
fn reference_abilities_ignore_the_referenced_type() {
    let m = module();
    let r = SignatureToken::Reference(Box::new(SignatureToken::TypeParameter(5)));
    assert_eq!(abilities(&m, &r, &[]), AbilitySet::references());
    let mr = SignatureToken::MutableReference(Box::new(SignatureToken::Datatype(DatatypeHandleIndex(40))));
    assert_eq!(abilities(&m, &mr, &[]), AbilitySet::references());
    let v = SignatureToken::Vector(Box::new(SignatureToken::Vector(Box::new(SignatureToken::U64))));
    assert_eq!(abilities(&m, &v, &[]), AbilitySet::primitives());
}
