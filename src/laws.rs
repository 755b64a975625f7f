use vstd::prelude::*;

use crate::decl::{
    all_unit, first_data, lemma_first_data_none, lemma_variant_names_ok, names_of, variant_count_spec,
};
use crate::decl::{Declaration, GenError, Payload, Variant};
use crate::helpers::{
    hash_fields_spec, hash_fields_text, iter_fields_spec, iter_fields_text, len_fields_spec,
    len_fields_text,
};

verus! {

proof fn lemma_first_data_is_data(vs: Seq<Variant>)
    ensures
        first_data(vs) matches Some(i) ==> i < vs.len() && vs[i as int].payload != Payload::Unit
            && forall|j: int| 0 <= j < i ==> #[trigger] vs[j].payload == Payload::Unit,
    decreases vs.len(),
{
    if vs.len() > 0 {
        let init = vs.drop_last();
        lemma_first_data_is_data(init);
        lemma_first_data_none(init);
        assert(forall|j: int| 0 <= j < init.len() ==> init[j] == vs[j]);
    }
}

proof fn lemma_first_data_same(vs: Seq<Variant>, ws: Seq<Variant>)
    requires
        vs.len() == ws.len(),
        forall|i: int| 0 <= i < vs.len() ==> #[trigger] vs[i].payload == ws[i].payload,
    ensures
        first_data(vs) == first_data(ws),
    decreases vs.len(),
{
    if vs.len() > 0 {
        lemma_first_data_same(vs.drop_last(), ws.drop_last());
    }
}

/// A payload-free enum with variants `v1 .. vn` gets a `len()` that returns
/// the literal `n`.
pub proof fn lemma_len_is_variant_count(d: Declaration)
    requires
        d.shape is Enum,
        all_unit(d.shape->Enum_0@),
    ensures
        variant_count_spec(d) == Ok::<nat, GenError>(d.shape->Enum_0@.len()),
        len_fields_spec(d) == Ok::<Seq<char>, GenError>(
            len_fields_text(d.name@, d.shape->Enum_0@.len()),
        ),
{
    lemma_variant_names_ok(d);
}

/// A payload-free enum with variants `v1 .. vn` gets an `iter_fields()` that
/// lists the paths of exactly `v1 .. vn`, in that order, in a vector built
/// afresh on each call.
pub proof fn lemma_iter_lists_variants_in_order(d: Declaration)
    requires
        d.shape is Enum,
        all_unit(d.shape->Enum_0@),
    ensures
        iter_fields_spec(d) == Ok::<Seq<char>, GenError>(
            iter_fields_text(d.name@, names_of(d.shape->Enum_0@)),
        ),
        names_of(d.shape->Enum_0@).len() == d.shape->Enum_0@.len(),
        forall|i: int|
            0 <= i < d.shape->Enum_0@.len() ==> #[trigger] names_of(d.shape->Enum_0@)[i]
                == d.shape->Enum_0@[i].name@,
{
    lemma_variant_names_ok(d);
}

/// Variant names are distinct within an enum, so each variant appears in
/// the list that `iter_fields()` is built from exactly once.
pub proof fn lemma_iter_lists_each_variant_once(d: Declaration)
    requires
        d.shape is Enum,
        forall|i: int, j: int|
            0 <= i < j < d.shape->Enum_0@.len() ==> #[trigger] d.shape->Enum_0@[i].name@
                != #[trigger] d.shape->Enum_0@[j].name@,
    ensures
        names_of(d.shape->Enum_0@).no_duplicates(),
{
    let ns = names_of(d.shape->Enum_0@);
    assert forall|i: int, j: int| 0 <= i < ns.len() && 0 <= j < ns.len() && i != j implies ns[i]
        != ns[j] by {
        if i < j {
            assert(d.shape->Enum_0@[i].name@ != d.shape->Enum_0@[j].name@);
        } else {
            assert(d.shape->Enum_0@[j].name@ != d.shape->Enum_0@[i].name@);
        }
    }
}

/// The map builder is produced exactly for the declarations that get an
/// enumerator, and its entries are those the enumerator yields.
pub proof fn lemma_map_follows_enumerator(d: Declaration)
    ensures
        hash_fields_spec(d) is Ok <==> iter_fields_spec(d) is Ok,
        hash_fields_spec(d) is Err ==> hash_fields_spec(d) == iter_fields_spec(d),
        hash_fields_spec(d) is Ok ==> hash_fields_spec(d) == Ok::<Seq<char>, GenError>(
            hash_fields_text(d.name@),
        ),
{
}

/// Two declarations with the same name and the same variants, in the same
/// order and of the same shapes.
pub open spec fn same_declaration(d1: Declaration, d2: Declaration) -> bool {
    &&& d1.name@ == d2.name@
    &&& (d1.shape is Enum <==> d2.shape is Enum)
    &&& d1.shape is Enum ==> {
        let vs = d1.shape->Enum_0@;
        let ws = d2.shape->Enum_0@;
        &&& vs.len() == ws.len()
        &&& forall|i: int|
            #![trigger vs[i]]
            0 <= i < vs.len() ==> vs[i].name@ == ws[i].name@ && vs[i].payload == ws[i].payload
    }
}

/// Generating the helpers again for the same declaration gives the same
/// source, or the same error.
pub proof fn lemma_regeneration_is_identical(d1: Declaration, d2: Declaration)
    requires
        same_declaration(d1, d2),
    ensures
        iter_fields_spec(d1) == iter_fields_spec(d2),
        len_fields_spec(d1) == len_fields_spec(d2),
        hash_fields_spec(d1) == hash_fields_spec(d2),
{
    if d1.shape is Enum {
        let vs = d1.shape->Enum_0@;
        let ws = d2.shape->Enum_0@;
        assert forall|i: int| 0 <= i < vs.len() implies #[trigger] vs[i].payload
            == ws[i].payload by {
            assert(vs[i].name@ == ws[i].name@ && vs[i].payload == ws[i].payload);
        }
        lemma_first_data_same(vs, ws);
        assert(names_of(vs) =~= names_of(ws));
    }
}

/// None of the helpers is produced for a type that is not an enum.
pub proof fn lemma_non_enum_rejected(d: Declaration)
    requires
        !(d.shape is Enum),
    ensures
        iter_fields_spec(d) == Err::<Seq<char>, GenError>(GenError::NotAnEnum),
        len_fields_spec(d) == Err::<Seq<char>, GenError>(GenError::NotAnEnum),
        hash_fields_spec(d) == Err::<Seq<char>, GenError>(GenError::NotAnEnum),
{
}

/// None of the helpers is produced for an enum with a variant that carries
/// data; the error names the first such variant.
pub proof fn lemma_data_variant_rejected(d: Declaration, k: int)
    requires
        d.shape is Enum,
        0 <= k < d.shape->Enum_0@.len(),
        d.shape->Enum_0@[k].payload != Payload::Unit,
    ensures
        iter_fields_spec(d) is Err,
        iter_fields_spec(d) == len_fields_spec(d),
        iter_fields_spec(d) == hash_fields_spec(d),
        iter_fields_spec(d) matches Err(GenError::VariantHasData(i)) && i <= k
            && d.shape->Enum_0@[i as int].payload != Payload::Unit,
{
    lemma_variant_names_ok(d);
    lemma_first_data_is_data(d.shape->Enum_0@);
    vstd::std_specs::vec::axiom_spec_len(&d.shape->Enum_0);
}

} // verus!
