use test_generation::types::{
    get_struct_handle_from_reference, get_type_actuals_from_reference, substitute,
    DatatypeHandleIndex, SignatureToken,
};

fn inst(idx: u16, args: Vec<SignatureToken>) -> SignatureToken {
    SignatureToken::DatatypeInstantiation(Box::new((DatatypeHandleIndex(idx), args)))
}

fn vector(t: SignatureToken) -> SignatureToken {
    SignatureToken::Vector(Box::new(t))
}

#[test]
fn substitute_replaces_type_parameters() {
    let t = vector(SignatureToken::TypeParameter(1));
    let tys = vec![SignatureToken::Bool, SignatureToken::U64];
    assert_eq!(substitute(&t, &tys), vector(SignatureToken::U64));
}

#[test]
fn substitute_descends_into_instantiations_and_references() {
    let t = SignatureToken::MutableReference(Box::new(inst(
        4,
        vec![
            SignatureToken::TypeParameter(0),
            SignatureToken::Address,
            SignatureToken::Reference(Box::new(SignatureToken::TypeParameter(1))),
        ],
    )));
    let tys = vec![vector(SignatureToken::U8), SignatureToken::Signer];
    let expected = SignatureToken::MutableReference(Box::new(inst(
        4,
        vec![
            vector(SignatureToken::U8),
            SignatureToken::Address,
            SignatureToken::Reference(Box::new(SignatureToken::Signer)),
        ],
    )));
    assert_eq!(substitute(&t, &tys), expected);
}

#[test]
fn substitute_leaves_closed_types_alone() {
    let t = inst(2, vec![SignatureToken::U128, SignatureToken::Datatype(DatatypeHandleIndex(7))]);
    assert_eq!(substitute(&t, &[]), t.deep_copy());
    assert_eq!(substitute(&SignatureToken::U256, &[SignatureToken::Bool]), SignatureToken::U256);
}

#[test]
fn substitute_with_identity_is_identity() {
    let t = inst(1, vec![SignatureToken::TypeParameter(1), vector(SignatureToken::TypeParameter(0))]);
    let tys = vec![SignatureToken::TypeParameter(0), SignatureToken::TypeParameter(1)];
    assert_eq!(substitute(&t, &tys), t);
}

#[test]
fn substitute_composes() {
    let t = vector(inst(0, vec![SignatureToken::TypeParameter(0)]));
    let a = vec![SignatureToken::Reference(Box::new(SignatureToken::TypeParameter(0)))];
    let b = vec![SignatureToken::U16];
    let twice = substitute(&substitute(&t, &a), &b);
    let composed: Vec<SignatureToken> = a.iter().map(|x| substitute(x, &b)).collect();
    assert_eq!(twice, substitute(&t, &composed));
    assert_eq!(
        twice,
        vector(inst(0, vec![SignatureToken::Reference(Box::new(SignatureToken::U16))]))
    );
}

#[test]
fn deep_copy_is_equal() {
    let t = inst(3, vec![vector(SignatureToken::U32), SignatureToken::TypeParameter(2)]);
    assert_eq!(t.deep_copy(), t);
}

#[test]
fn struct_handle_of_references() {
    let r = SignatureToken::Reference(Box::new(SignatureToken::Datatype(DatatypeHandleIndex(5))));
    assert_eq!(get_struct_handle_from_reference(&r), Some(DatatypeHandleIndex(5)));
    let m = SignatureToken::MutableReference(Box::new(inst(9, vec![SignatureToken::Bool])));
    assert_eq!(get_struct_handle_from_reference(&m), Some(DatatypeHandleIndex(9)));
    let v = SignatureToken::Reference(Box::new(SignatureToken::U64));
    assert_eq!(get_struct_handle_from_reference(&v), None);
    assert_eq!(get_struct_handle_from_reference(&SignatureToken::Datatype(DatatypeHandleIndex(5))), None);
}

#[test]
fn type_actuals_of_references() {
    let r = SignatureToken::Reference(Box::new(SignatureToken::Datatype(DatatypeHandleIndex(5))));
    assert_eq!(get_type_actuals_from_reference(&r), Some(vec![]));
    let m = SignatureToken::MutableReference(Box::new(inst(
        9,
        vec![SignatureToken::Bool, SignatureToken::TypeParameter(0)],
    )));
    assert_eq!(
        get_type_actuals_from_reference(&m),
        Some(vec![SignatureToken::Bool, SignatureToken::TypeParameter(0)])
    );
    assert_eq!(get_type_actuals_from_reference(&vector(SignatureToken::U8)), None);
    assert_eq!(get_type_actuals_from_reference(&inst(9, vec![])), None);
    let refs = SignatureToken::Reference(Box::new(SignatureToken::Signer));
    assert_eq!(get_type_actuals_from_reference(&refs), None);
}

#[test]
fn accessors_agree_on_every_kind_of_reference() {
    let targets = vec![
        SignatureToken::Datatype(DatatypeHandleIndex(1)),
        inst(1, vec![SignatureToken::U8]),
        SignatureToken::U8,
        SignatureToken::TypeParameter(0),
        vector(SignatureToken::Bool),
    ];
    for t in targets {
        for r in [
            SignatureToken::Reference(Box::new(t.deep_copy())),
            SignatureToken::MutableReference(Box::new(t.deep_copy())),
            t.deep_copy(),
        ] {
            assert_eq!(
                get_struct_handle_from_reference(&r).is_some(),
                get_type_actuals_from_reference(&r).is_some()
            );
        }
    }
}
