//! Building a topic filter from an event's indexed parameters and raw text
//! values.
//!
//! Values are matched positionally against the indexed parameters in their
//! declared order.  A filter is only as precise as its longest unbroken
//! prefix of successfully coerced values: the first failure leaves its slot
//! and all later slots empty, and a failure at the very first position
//! aborts construction altogether.

use vstd::prelude::*;
use crate::errors::Error;
use crate::token_checker::{ParamType, Token, TokenModel, check_type, coerce_ok, coerce_val,
    token_matches};
use crate::native_contract::{NativeParam, ParamModel, params_models};

verus! {

/// Up to three positional topic slots; an empty slot matches anything.
pub struct FilterSpec {
    pub topic0: Option<Token>,
    pub topic1: Option<Token>,
    pub topic2: Option<Token>,
}

/// The mathematical value of a filter.
pub struct FilterModel {
    pub topic0: Option<TokenModel>,
    pub topic1: Option<TokenModel>,
    pub topic2: Option<TokenModel>,
}

impl View for FilterSpec {
    type V = FilterModel;

    open spec fn view(&self) -> FilterModel {
        FilterModel {
            topic0: match self.topic0 {
                Some(t) => Some(t@),
                None => None,
            },
            topic1: match self.topic1 {
                Some(t) => Some(t@),
                None => None,
            },
            topic2: match self.topic2 {
                Some(t) => Some(t@),
                None => None,
            },
        }
    }
}

/// The declared types of the indexed parameters, in declaration order.
pub open spec fn indexed_kinds(ps: Seq<ParamModel>) -> Seq<ParamType>
    decreases ps.len(),
{
    if ps.len() == 0 {
        Seq::empty()
    } else {
        let rest = indexed_kinds(ps.drop_last());
        if ps.last().indexed {
            rest.push(ps.last().kind)
        } else {
            rest
        }
    }
}

/// The character sequences of a list of text values.
pub open spec fn views_of(vs: Seq<String>) -> Seq<Seq<char>> {
    vs.map_values(|s: String| s@)
}

/// Whether a value coerces to the declared type and the coerced token's
/// runtime shape matches it.
pub open spec fn slot_ok(k: ParamType, v: Seq<char>) -> bool {
    coerce_ok(k, v) && token_matches(coerce_val(k, v), k)
}

/// Whether filter construction succeeds: only a failure at the very first
/// position is fatal.
pub open spec fn filter_ok(ks: Seq<ParamType>, vs: Seq<Seq<char>>) -> bool {
    !(ks.len() > 0 && vs.len() > 0 && !slot_ok(ks[0], vs[0]))
}

/// Whether slot `i` is populated: every position up to and including `i`
/// must have an indexed parameter, a supplied value, and a successful
/// coercion.
pub open spec fn slot_filled(ks: Seq<ParamType>, vs: Seq<Seq<char>>, i: int) -> bool {
    0 <= i < 3 && i < ks.len() && i < vs.len() && (forall|j: int|
        0 <= j <= i ==> slot_ok(#[trigger] ks[j], vs[j]))
}

pub open spec fn slot_value(ks: Seq<ParamType>, vs: Seq<Seq<char>>, i: int) -> Option<TokenModel> {
    if slot_filled(ks, vs, i) {
        Some(coerce_val(ks[i], vs[i]))
    } else {
        None
    }
}

/// The filter built from indexed parameter types and raw text values.
pub open spec fn filter_model_of(ks: Seq<ParamType>, vs: Seq<Seq<char>>) -> FilterModel {
    FilterModel {
        topic0: slot_value(ks, vs, 0),
        topic1: slot_value(ks, vs, 1),
        topic2: slot_value(ks, vs, 2),
    }
}

/// Builds the topic filter for an event's parameters from raw text values.
pub fn build_filter(params: &Vec<NativeParam>, values: &Vec<String>) -> (r: Result<
    FilterSpec,
    Error,
>)
    ensures
        r is Ok <==> filter_ok(indexed_kinds(params_models(params@)), views_of(values@)),
        r is Ok ==> r->Ok_0@ == filter_model_of(
            indexed_kinds(params_models(params@)),
            views_of(values@),
        ),
        r is Err ==> r->Err_0 == Error::TypeCoercion,
{
    let ghost ks = indexed_kinds(params_models(params@));
    let ghost vs = views_of(values@);
    let mut ikinds: Vec<ParamType> = Vec::new();
    let mut i: usize = 0;
    while i < params.len()
        invariant
            i <= params.len(),
            ikinds@ == indexed_kinds(params_models(params@).take(i as int)),
        decreases params.len() - i,
    {
        proof {
            assert(params_models(params@).take(i + 1 as int).drop_last() =~= params_models(
                params@,
            ).take(i as int));
            assert(params_models(params@).take(i + 1 as int).last() == params@[i as int]@);
        }
        if params[i].indexed {
            let k = params[i].kind;
            ikinds.push(k);
        }
        i = i + 1;
    }
    proof {
        assert(params_models(params@).take(params@.len() as int) =~= params_models(params@));
        assert(ikinds@ == ks);
    }
    let mut f = FilterSpec { topic0: None, topic1: None, topic2: None };
    if ikinds.len() > 0 && values.len() > 0 {
        let t0 = match check_type(&ikinds[0], values[0].as_str()) {
            Ok(t) => t,
            Err(e) => {
                return Err(e);
            },
        };
        if !t0.type_check(&ikinds[0]) {
            return Err(Error::TypeCoercion);
        }
        f.topic0 = Some(t0);
        if ikinds.len() > 1 && values.len() > 1 {
            match check_type(&ikinds[1], values[1].as_str()) {
                Err(_) => {
                    return Ok(f);
                },
                Ok(t1) => {
                    if t1.type_check(&ikinds[1]) {
                        f.topic1 = Some(t1);
                        if ikinds.len() > 2 && values.len() > 2 {
                            match check_type(&ikinds[2], values[2].as_str()) {
                                Err(_) => {},
                                Ok(t2) => {
                                    if t2.type_check(&ikinds[2]) {
                                        f.topic2 = Some(t2);
                                    }
                                },
                            }
                        }
                    }
                },
            }
        }
    }
    Ok(f)
}

} // verus!
