//! Signature tokens: the types that occur in the signatures of a compiled
//! Move module, and substitution of type arguments for type parameters.
use vstd::prelude::*;

verus! {

broadcast use vstd::std_specs::vec::group_vec_axioms;

/// Index of a datatype handle in a module's table of datatype handles.
#[derive(Debug, Clone, Copy, PartialEq, Eq, Structural)]
pub struct DatatypeHandleIndex(pub u16);

/// Index of a type parameter in the list of type parameters in scope.
pub type TypeParameterIndex = u16;

/// A type as it occurs in a signature of a compiled module.
#[derive(Debug, PartialEq, Eq)]
pub enum SignatureToken {
    Bool,
    U8,
    U16,
    U32,
    U64,
    U128,
    U256,
    Address,
    Signer,
    Vector(Box<SignatureToken>),
    Datatype(DatatypeHandleIndex),
    DatatypeInstantiation(Box<(DatatypeHandleIndex, Vec<SignatureToken>)>),
    Reference(Box<SignatureToken>),
    MutableReference(Box<SignatureToken>),
    TypeParameter(TypeParameterIndex),
}

/// The mathematical value of a signature token: the same tree, with the
/// type arguments of an instantiation held as a sequence.
pub enum TokenModel {
    Bool,
    U8,
    U16,
    U32,
    U64,
    U128,
    U256,
    Address,
    Signer,
    Vector(Box<TokenModel>),
    Datatype(u16),
    DatatypeInstantiation(u16, Seq<TokenModel>),
    Reference(Box<TokenModel>),
    MutableReference(Box<TokenModel>),
    TypeParameter(u16),
}

/// The model of one token.
pub open spec fn model(t: SignatureToken) -> TokenModel
    decreases t,
{
    match t {
        SignatureToken::Bool => TokenModel::Bool,
        SignatureToken::U8 => TokenModel::U8,
        SignatureToken::U16 => TokenModel::U16,
        SignatureToken::U32 => TokenModel::U32,
        SignatureToken::U64 => TokenModel::U64,
        SignatureToken::U128 => TokenModel::U128,
        SignatureToken::U256 => TokenModel::U256,
        SignatureToken::Address => TokenModel::Address,
        SignatureToken::Signer => TokenModel::Signer,
        SignatureToken::Vector(inner) => TokenModel::Vector(Box::new(model(*inner))),
        SignatureToken::Datatype(idx) => TokenModel::Datatype(idx.0),
        SignatureToken::DatatypeInstantiation(inst) => TokenModel::DatatypeInstantiation(
            inst.0.0,
            models(inst.1@),
        ),
        SignatureToken::Reference(inner) => TokenModel::Reference(Box::new(model(*inner))),
        SignatureToken::MutableReference(inner) => TokenModel::MutableReference(
            Box::new(model(*inner)),
        ),
        SignatureToken::TypeParameter(idx) => TokenModel::TypeParameter(idx),
    }
}

/// The models of a sequence of tokens, element by element.
pub open spec fn models(ts: Seq<SignatureToken>) -> Seq<TokenModel>
    decreases ts,
{
    if ts.len() == 0 {
        Seq::empty()
    } else {
        models(ts.drop_last()).push(model(ts.last()))
    }
}

impl View for SignatureToken {
    type V = TokenModel;

    open spec fn view(&self) -> TokenModel {
        model(*self)
    }
}


/// Every type parameter index that occurs in `t` is below `n`.
pub open spec fn params_below(t: TokenModel, n: nat) -> bool
    decreases t,
{
    match t {
        TokenModel::Vector(inner) => params_below(*inner, n),
        TokenModel::Reference(inner) => params_below(*inner, n),
        TokenModel::MutableReference(inner) => params_below(*inner, n),
        TokenModel::DatatypeInstantiation(_, args) => all_params_below(args, n),
        TokenModel::TypeParameter(idx) => idx < n,
        _ => true,
    }
}

/// Every type parameter index that occurs in any of `ts` is below `n`.
pub open spec fn all_params_below(ts: Seq<TokenModel>, n: nat) -> bool
    decreases ts,
{
    if ts.len() == 0 {
        true
    } else {
        all_params_below(ts.drop_last(), n) && params_below(ts.last(), n)
    }
}

/// `t` with each type parameter `i` replaced by `tys[i]`.
pub open spec fn spec_substitute(t: TokenModel, tys: Seq<TokenModel>) -> TokenModel
    decreases t,
{
    match t {
        TokenModel::Vector(inner) => TokenModel::Vector(Box::new(spec_substitute(*inner, tys))),
        TokenModel::Reference(inner) => TokenModel::Reference(
            Box::new(spec_substitute(*inner, tys)),
        ),
        TokenModel::MutableReference(inner) => TokenModel::MutableReference(
            Box::new(spec_substitute(*inner, tys)),
        ),
        TokenModel::DatatypeInstantiation(idx, args) => TokenModel::DatatypeInstantiation(
            idx,
            substitute_all(args, tys),
        ),
        TokenModel::TypeParameter(idx) => tys[idx as int],
        _ => t,
    }
}

/// Substitution applied to each element of `ts`.
pub open spec fn substitute_all(ts: Seq<TokenModel>, tys: Seq<TokenModel>) -> Seq<TokenModel>
    decreases ts,
{
    if ts.len() == 0 {
        Seq::empty()
    } else {
        substitute_all(ts.drop_last(), tys).push(spec_substitute(ts.last(), tys))
    }
}

pub proof fn lemma_models_index(ts: Seq<SignatureToken>)
    ensures
        models(ts).len() == ts.len(),
        forall|i: int| 0 <= i < ts.len() ==> #[trigger] models(ts)[i] == model(ts[i]),
    decreases ts.len(),
{
    if ts.len() > 0 {
        lemma_models_index(ts.drop_last());
    }
}

pub proof fn lemma_substitute_all_index(ts: Seq<TokenModel>, tys: Seq<TokenModel>)
    ensures
        substitute_all(ts, tys).len() == ts.len(),
        forall|i: int|
            0 <= i < ts.len() ==> #[trigger] substitute_all(ts, tys)[i] == spec_substitute(
                ts[i],
                tys,
            ),
    decreases ts.len(),
{
    if ts.len() > 0 {
        lemma_substitute_all_index(ts.drop_last(), tys);
    }
}

pub proof fn lemma_all_params_below_index(ts: Seq<TokenModel>, n: nat)
    ensures
        all_params_below(ts, n) <==> forall|i: int|
            0 <= i < ts.len() ==> #[trigger] params_below(ts[i], n),
    decreases ts.len(),
{
    if ts.len() > 0 {
        lemma_all_params_below_index(ts.drop_last(), n);
        assert(ts.last() == ts[ts.len() - 1]);
        if all_params_below(ts, n) {
            assert forall|i: int| 0 <= i < ts.len() implies #[trigger] params_below(ts[i], n) by {
                if i < ts.len() - 1 {
                    assert(ts.drop_last()[i] == ts[i]);
                }
            }
        }
        if forall|i: int| 0 <= i < ts.len() ==> #[trigger] params_below(ts[i], n) {
            assert forall|i: int| 0 <= i < ts.drop_last().len() implies #[trigger] params_below(
                ts.drop_last()[i],
                n,
            ) by {
                assert(ts.drop_last()[i] == ts[i]);
            }
            assert(params_below(ts[ts.len() - 1], n));
            assert(all_params_below(ts, n));
        }
    }
}

impl SignatureToken {
    /// A copy of the whole token tree.
    pub fn deep_copy(&self) -> (r: SignatureToken)
        ensures
            r@ == self@,
        decreases self,
    {
        match self {
            SignatureToken::Bool => SignatureToken::Bool,
            SignatureToken::U8 => SignatureToken::U8,
            SignatureToken::U16 => SignatureToken::U16,
            SignatureToken::U32 => SignatureToken::U32,
            SignatureToken::U64 => SignatureToken::U64,
            SignatureToken::U128 => SignatureToken::U128,
            SignatureToken::U256 => SignatureToken::U256,
            SignatureToken::Address => SignatureToken::Address,
            SignatureToken::Signer => SignatureToken::Signer,
            SignatureToken::Vector(inner) => SignatureToken::Vector(Box::new(inner.deep_copy())),
            SignatureToken::Datatype(idx) => SignatureToken::Datatype(*idx),
            SignatureToken::DatatypeInstantiation(inst) => {
                let (idx, args) = &**inst;
                let mut out: Vec<SignatureToken> = Vec::new();
                let mut i: usize = 0;
                #[verifier::loop_isolation(false)]
                while i < args.len()
                    invariant
                        i <= args.len(),
                        out@.len() == i,
                        forall|j: int| 0 <= j < i ==> #[trigger] out@[j]@ == args@[j]@,
                    decreases args.len() - i,
                {
                    proof {
                        assert(decreases_to!(*self => args@[i as int]));
                    }
                    let c = args[i].deep_copy();
                    out.push(c);
                    i = i + 1;
                }
                proof {
                    lemma_models_index(out@);
                    lemma_models_index(args@);
                    assert forall|j: int| 0 <= j < out@.len() implies #[trigger] models(out@)[j]
                        == models(args@)[j] by {
                        assert(out@[j]@ == args@[j]@);
                    }
                    assert(models(out@) =~= models(args@));
                }
                SignatureToken::DatatypeInstantiation(Box::new((*idx, out)))
            },
            SignatureToken::Reference(inner) => SignatureToken::Reference(
                Box::new(inner.deep_copy()),
            ),
            SignatureToken::MutableReference(inner) => SignatureToken::MutableReference(
                Box::new(inner.deep_copy()),
            ),
            SignatureToken::TypeParameter(idx) => SignatureToken::TypeParameter(*idx),
        }
    }
}


/// Replaces each type parameter `i` in `token` by `tys[i]`.
///
/// Every type parameter index in `token` must be below `tys.len()`, as the
/// structure of a verified module guarantees.
pub fn substitute(token: &SignatureToken, tys: &[SignatureToken]) -> (r: SignatureToken)
    requires
        params_below(token@, tys@.len()),
    ensures
        r@ == spec_substitute(token@, models(tys@)),
        token@ matches TokenModel::TypeParameter(i) ==> r@ == tys@[i as int]@,
    decreases token,
{
    proof {
        lemma_models_index(tys@);
    }
    match token {
        SignatureToken::Bool => SignatureToken::Bool,
        SignatureToken::U8 => SignatureToken::U8,
        SignatureToken::U16 => SignatureToken::U16,
        SignatureToken::U32 => SignatureToken::U32,
        SignatureToken::U64 => SignatureToken::U64,
        SignatureToken::U128 => SignatureToken::U128,
        SignatureToken::U256 => SignatureToken::U256,
        SignatureToken::Address => SignatureToken::Address,
        SignatureToken::Signer => SignatureToken::Signer,
        SignatureToken::Vector(ty) => SignatureToken::Vector(Box::new(substitute(ty, tys))),
        SignatureToken::Datatype(idx) => SignatureToken::Datatype(*idx),
        SignatureToken::DatatypeInstantiation(inst) => {
            let (idx, type_params) = &**inst;
            let ghost n = tys@.len();
            let ghost args = models(type_params@);
            proof {
                lemma_models_index(type_params@);
                lemma_all_params_below_index(args, n);
            }
            let mut out: Vec<SignatureToken> = Vec::new();
            let mut i: usize = 0;
            #[verifier::loop_isolation(false)]
            while i < type_params.len()
                invariant
                    i <= type_params.len(),
                    out@.len() == i,
                    forall|j: int|
                        0 <= j < i ==> #[trigger] out@[j]@ == spec_substitute(
                            type_params@[j]@,
                            models(tys@),
                        ),
                decreases type_params.len() - i,
            {
                proof {
                    assert(decreases_to!(*token => type_params@[i as int]));
                    assert(args[i as int] == type_params@[i as int]@);
                }
                let t = substitute(&type_params[i], tys);
                out.push(t);
                i = i + 1;
            }
            proof {
                lemma_models_index(out@);
                lemma_substitute_all_index(args, models(tys@));
                assert forall|j: int| 0 <= j < out@.len() implies #[trigger] models(out@)[j]
                    == substitute_all(args, models(tys@))[j] by {
                    assert(out@[j]@ == spec_substitute(type_params@[j]@, models(tys@)));
                }
                assert(models(out@) =~= substitute_all(args, models(tys@)));
            }
            SignatureToken::DatatypeInstantiation(Box::new((*idx, out)))
        },
        SignatureToken::Reference(ty) => SignatureToken::Reference(Box::new(substitute(ty, tys))),
        SignatureToken::MutableReference(ty) => SignatureToken::MutableReference(
            Box::new(substitute(ty, tys)),
        ),
        SignatureToken::TypeParameter(idx) => {
            let k = *idx as usize;
            tys[k].deep_copy()
        },
    }
}


/// A copy of each of `ts`, in order.
pub fn copy_tokens(ts: &Vec<SignatureToken>) -> (r: Vec<SignatureToken>)
    ensures
        models(r@) == models(ts@),
{
    let mut out: Vec<SignatureToken> = Vec::new();
    let mut i: usize = 0;
    while i < ts.len()
        invariant
            i <= ts.len(),
            out@.len() == i,
            forall|j: int| 0 <= j < i ==> #[trigger] out@[j]@ == ts@[j]@,
        decreases ts.len() - i,
    {
        out.push(ts[i].deep_copy());
        i = i + 1;
    }
    proof {
        lemma_models_index(out@);
        lemma_models_index(ts@);
        assert forall|j: int| 0 <= j < out@.len() implies #[trigger] models(out@)[j] == models(
            ts@,
        )[j] by {
            assert(out@[j]@ == ts@[j]@);
        }
        assert(models(out@) =~= models(ts@));
    }
    out
}

/// The datatype that a reference, mutable or not, points to: its handle
/// index when the referenced type is a datatype or an instantiation of one.
pub open spec fn spec_struct_handle_from_reference(t: TokenModel) -> Option<DatatypeHandleIndex> {
    match referenced(t) {
        Some(TokenModel::Datatype(idx)) => Some(DatatypeHandleIndex(idx)),
        Some(TokenModel::DatatypeInstantiation(idx, _)) => Some(DatatypeHandleIndex(idx)),
        _ => None,
    }
}

/// The type that `t` refers to when it is a reference, mutable or not.
pub open spec fn referenced(t: TokenModel) -> Option<TokenModel> {
    match t {
        TokenModel::Reference(inner) => Some(*inner),
        TokenModel::MutableReference(inner) => Some(*inner),
        _ => None,
    }
}

/// The type arguments of the datatype that a reference points to: those of
/// the instantiation, or none for a datatype without them; `None` when `t`
/// is no reference to a datatype.
pub open spec fn spec_type_actuals_from_reference(t: TokenModel) -> Option<Seq<TokenModel>> {
    match referenced(t) {
        Some(TokenModel::DatatypeInstantiation(_, tys)) => Some(tys),
        Some(TokenModel::Datatype(_)) => Some(Seq::empty()),
        _ => None,
    }
}

/// The handle index of the datatype that `reference_signature` refers to.
pub fn get_struct_handle_from_reference(reference_signature: &SignatureToken) -> (r: Option<
    DatatypeHandleIndex,
>)
    ensures
        r == spec_struct_handle_from_reference(reference_signature@),
{
    match reference_signature {
        SignatureToken::Reference(signature) => handle_of(signature),
        SignatureToken::MutableReference(signature) => handle_of(signature),
        _ => None,
    }
}

/// The handle index of `t` when it is a datatype or an instantiation.
fn handle_of(t: &SignatureToken) -> (r: Option<DatatypeHandleIndex>)
    ensures
        r == (match t@ {
            TokenModel::Datatype(idx) => Some(DatatypeHandleIndex(idx)),
            TokenModel::DatatypeInstantiation(idx, _) => Some(DatatypeHandleIndex(idx)),
            _ => None,
        }),
{
    match t {
        SignatureToken::Datatype(idx) => Some(*idx),
        SignatureToken::DatatypeInstantiation(inst) => {
            let (idx, _) = &**inst;
            Some(*idx)
        },
        _ => None,
    }
}

/// The type arguments of the datatype that `token` refers to.
pub fn get_type_actuals_from_reference(token: &SignatureToken) -> (r: Option<Vec<SignatureToken>>)
    ensures
        r is Some <==> spec_type_actuals_from_reference(token@) is Some,
        r matches Some(tys) ==> Some(models(tys@)) == spec_type_actuals_from_reference(token@),
{
    match token {
        SignatureToken::Reference(box_) => type_actuals_of(box_),
        SignatureToken::MutableReference(box_) => type_actuals_of(box_),
        _ => None,
    }
}

/// The type arguments of `t` when it is a datatype or an instantiation.
fn type_actuals_of(t: &SignatureToken) -> (r: Option<Vec<SignatureToken>>)
    ensures
        r is Some <==> (t@ is Datatype || t@ is DatatypeInstantiation),
        r matches Some(tys) ==> (t@ matches TokenModel::DatatypeInstantiation(_, args) ==> models(
            tys@,
        ) == args),
        r matches Some(tys) ==> (t@ is Datatype ==> models(tys@) == Seq::<TokenModel>::empty()),
{
    match t {
        SignatureToken::DatatypeInstantiation(inst) => {
            let (_, tys) = &**inst;
            Some(copy_tokens(tys))
        },
        SignatureToken::Datatype(_) => {
            let v: Vec<SignatureToken> = Vec::new();
            proof {
                assert(models(v@) =~= Seq::<TokenModel>::empty());
            }
            Some(v)
        },
        _ => None,
    }
}

} // verus!
