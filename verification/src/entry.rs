//! The arguments handed to the entry function of a generated module: one
//! fixed value for each parameter, in its serialized form.
use vstd::prelude::*;

use crate::types::{lemma_models_index, models, SignatureToken, TokenModel};

verus! {

/// Length in bytes of an account address.
pub const ACCOUNT_ADDRESS_LENGTH: usize = 32;

/// The serialized argument for an entry parameter of type `t`: the zero
/// address (its bytes), the number zero as a little-endian `u64`, `true` as
/// the byte 1, and the empty byte vector as its length 0. No other parameter
/// type is supported.
pub open spec fn spec_entry_argument(t: TokenModel) -> Option<Seq<u8>> {
    match t {
        TokenModel::Address => Some(Seq::new(32, |i: int| 0u8)),
        TokenModel::U64 => Some(Seq::new(8, |i: int| 0u8)),
        TokenModel::Bool => Some(seq![1u8]),
        TokenModel::Vector(inner) => if *inner == TokenModel::U8 {
            Some(seq![0u8])
        } else {
            None
        },
        _ => None,
    }
}

/// `n` zero bytes.
fn zeros(n: usize) -> (r: Vec<u8>)
    ensures
        r@ == Seq::new(n as nat, |i: int| 0u8),
{
    let mut v: Vec<u8> = Vec::new();
    let mut i: usize = 0;
    while i < n
        invariant
            i <= n,
            v@ == Seq::new(i as nat, |j: int| 0u8),
        decreases n - i,
    {
        v.push(0u8);
        i = i + 1;
        assert(v@ =~= Seq::new(i as nat, |j: int| 0u8));
    }
    v
}

/// Whether `t` is `u8`.
fn is_u8(t: &SignatureToken) -> (b: bool)
    ensures
        b == (t@ == TokenModel::U8),
{
    match t {
        SignatureToken::U8 => true,
        _ => false,
    }
}

/// The serialized argument for a parameter of type `sig_tok`, or `None` for
/// a type that entry functions of generated modules never take.
pub fn entry_argument(sig_tok: &SignatureToken) -> (r: Option<Vec<u8>>)
    ensures
        r is Some <==> spec_entry_argument(sig_tok@) is Some,
        r matches Some(v) ==> spec_entry_argument(sig_tok@) == Some(v@),
{
    match sig_tok {
        SignatureToken::Address => {
            let v = zeros(ACCOUNT_ADDRESS_LENGTH);
            assert(v@ =~= Seq::new(32, |i: int| 0u8));
            Some(v)
        },
        SignatureToken::U64 => {
            let v = zeros(8);
            assert(v@ =~= Seq::new(8, |i: int| 0u8));
            Some(v)
        },
        SignatureToken::Bool => {
            let v = vec![1u8];
            assert(v@ =~= seq![1u8]);
            Some(v)
        },
        SignatureToken::Vector(inner_tok) => {
            if is_u8(inner_tok) {
                let v = vec![0u8];
                assert(v@ =~= seq![0u8]);
                Some(v)
            } else {
                None
            }
        },
        _ => None,
    }
}

/// Whether an entry function may take a parameter of type `t`.
pub fn is_supported_entry_parameter(t: &SignatureToken) -> (r: bool)
    ensures
        r == spec_entry_argument(t@) is Some,
{
    entry_argument(t).is_some()
}

/// The serialized arguments for an entry function with parameters `params`,
/// in order. Every parameter type must be supported (see
/// `spec_entry_argument`); entry functions take no other types.
pub fn main_args(params: &[SignatureToken]) -> (r: Vec<Vec<u8>>)
    requires
        forall|i: int|
            0 <= i < params@.len() ==> #[trigger] spec_entry_argument(params@[i]@) is Some,
    ensures
        r@.len() == params@.len(),
        forall|i: int|
            0 <= i < params@.len() ==> spec_entry_argument(params@[i]@) == Some(#[trigger] r@[i]@),
{
    let mut args: Vec<Vec<u8>> = Vec::new();
    let mut i: usize = 0;
    while i < params.len()
        invariant
            i <= params@.len(),
            args@.len() == i,
            forall|j: int|
                0 <= j < params@.len() ==> #[trigger] spec_entry_argument(params@[j]@) is Some,
            forall|j: int| 0 <= j < i ==> spec_entry_argument(params@[j]@) == Some(#[trigger] args@[j]@),
        decreases params.len() - i,
    {
        assert(spec_entry_argument(params@[i as int]@) is Some);
        match entry_argument(&params[i]) {
            Some(a) => args.push(a),
            None => {
                assert(false);
            },
        }
        i = i + 1;
    }
    args
}

} // verus!
