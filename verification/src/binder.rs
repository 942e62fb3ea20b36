//! The parameter binder: for each operation, the ordered list of field
//! references whose runtime values must be bound, positionally matching the
//! placeholders of the operation's statement text.

use vstd::prelude::*;
use crate::schema::{field_models, has_primary_key, FieldModel, FieldSpec, SchemaModel};
use crate::text::{count_char, seq_views};

verus! {

/// The names of all fields, in declaration order.
pub open spec fn all_names(fields: Seq<FieldModel>) -> Seq<Seq<char>>
    decreases fields.len(),
{
    if fields.len() == 0 {
        Seq::empty()
    } else {
        all_names(fields.drop_last()).push(fields.last().name)
    }
}

/// The names of the primary-key fields, in declaration order.
pub open spec fn pk_names(fields: Seq<FieldModel>) -> Seq<Seq<char>>
    decreases fields.len(),
{
    if fields.len() == 0 {
        Seq::empty()
    } else if fields.last().is_primary_key {
        pk_names(fields.drop_last()).push(fields.last().name)
    } else {
        pk_names(fields.drop_last())
    }
}

/// The names of the non-primary-key fields, in declaration order.
pub open spec fn nonpk_names(fields: Seq<FieldModel>) -> Seq<Seq<char>>
    decreases fields.len(),
{
    if fields.len() == 0 {
        Seq::empty()
    } else if fields.last().is_primary_key {
        nonpk_names(fields.drop_last())
    } else {
        nonpk_names(fields.drop_last()).push(fields.last().name)
    }
}

/// Argument order of the point lookup (and of its optional form): the
/// primary-key fields, declaration order.
pub open spec fn get_args(s: SchemaModel) -> Seq<Seq<char>> {
    pk_names(s.fields)
}

/// Argument order of the insertion: all fields, declaration order.
pub open spec fn create_args(s: SchemaModel) -> Seq<Seq<char>> {
    all_names(s.fields)
}

/// Argument order of the update: the primary-key fields in declaration order,
/// then the non-primary-key fields in declaration order.
pub open spec fn update_args(s: SchemaModel) -> Seq<Seq<char>> {
    pk_names(s.fields) + nonpk_names(s.fields)
}

/// Argument order of the deletion: the primary-key fields, declaration order.
pub open spec fn delete_args(s: SchemaModel) -> Seq<Seq<char>> {
    pk_names(s.fields)
}

/// Argument order of the unfiltered listing: no bound values at all.
pub open spec fn list_args(s: SchemaModel) -> Seq<Seq<char>> {
    Seq::empty()
}

/// The primary-key and non-primary-key names partition the field list.
pub proof fn lemma_name_lengths(fields: Seq<FieldModel>)
    ensures
        all_names(fields).len() == fields.len(),
        pk_names(fields).len() + nonpk_names(fields).len() == fields.len(),
    decreases fields.len(),
{
    if fields.len() > 0 {
        lemma_name_lengths(fields.drop_last());
    }
}

/// A schema has a primary-key field exactly when the primary-key name list is
/// non-empty.
pub proof fn lemma_has_primary_key_iff_pk_names(fields: Seq<FieldModel>)
    ensures
        has_primary_key(fields) <==> pk_names(fields).len() >= 1,
    decreases fields.len(),
{
    if fields.len() > 0 {
        lemma_has_primary_key_iff_pk_names(fields.drop_last());
    }
}

/// Field names free of the placeholder marker stay marker-free through every
/// name selection.
pub proof fn lemma_names_marker_free(fields: Seq<FieldModel>)
    requires
        forall|i: int| 0 <= i < fields.len() ==> count_char(#[trigger] fields[i].name, '$') == 0,
    ensures
        forall|i: int|
            0 <= i < all_names(fields).len() ==> count_char(#[trigger] all_names(fields)[i], '$')
                == 0,
        forall|i: int|
            0 <= i < pk_names(fields).len() ==> count_char(#[trigger] pk_names(fields)[i], '$')
                == 0,
        forall|i: int|
            0 <= i < nonpk_names(fields).len() ==> count_char(
                #[trigger] nonpk_names(fields)[i],
                '$',
            ) == 0,
    decreases fields.len(),
{
    if fields.len() > 0 {
        let front = fields.drop_last();
        assert(forall|i: int|
            0 <= i < front.len() ==> count_char(#[trigger] front[i].name, '$') == 0);
        lemma_names_marker_free(front);
        assert(count_char(fields.last().name, '$') == 0);
        let an = all_names(fields);
        assert(an == all_names(front).push(fields.last().name));
        assert forall|i: int| 0 <= i < an.len() implies count_char(#[trigger] an[i], '$') == 0 by {
            if i < an.len() - 1 {
                assert(an[i] == all_names(front)[i]);
            } else {
                assert(an[i] == fields.last().name);
            }
        }
        let pk = pk_names(fields);
        assert forall|i: int| 0 <= i < pk.len() implies count_char(#[trigger] pk[i], '$') == 0 by {
            if fields.last().is_primary_key {
                assert(pk == pk_names(front).push(fields.last().name));
                if i < pk.len() - 1 {
                    assert(pk[i] == pk_names(front)[i]);
                } else {
                    assert(pk[i] == fields.last().name);
                }
            } else {
                assert(pk == pk_names(front));
                assert(pk[i] == pk_names(front)[i]);
            }
        }
        let np = nonpk_names(fields);
        assert forall|i: int| 0 <= i < np.len() implies count_char(#[trigger] np[i], '$') == 0 by {
            if !fields.last().is_primary_key {
                assert(np == nonpk_names(front).push(fields.last().name));
                if i < np.len() - 1 {
                    assert(np[i] == nonpk_names(front)[i]);
                } else {
                    assert(np[i] == fields.last().name);
                }
            } else {
                assert(np == nonpk_names(front));
                assert(np[i] == nonpk_names(front)[i]);
            }
        }
    }
}

/// Collects the names of all fields, in declaration order.
pub fn collect_all_names(fields: &Vec<FieldSpec>) -> (r: Vec<String>)
    ensures
        seq_views(r@) == all_names(field_models(fields@)),
{
    let mut r: Vec<String> = Vec::new();
    let mut i: usize = 0;
    proof {
        assert(field_models(fields@).take(0) =~= Seq::<FieldModel>::empty());
        assert(seq_views(r@) =~= all_names(field_models(fields@).take(0)));
    }
    while i < fields.len()
        invariant
            i <= fields@.len(),
            seq_views(r@) == all_names(field_models(fields@).take(i as int)),
        decreases fields@.len() - i,
    {
        let name = fields[i].name.clone();
        r.push(name);
        proof {
            let ms = field_models(fields@);
            assert(ms.take(i as int + 1).drop_last() =~= ms.take(i as int));
            assert(ms.take(i as int + 1).last() == fields@[i as int]@);
            assert(seq_views(r@) =~= all_names(ms.take(i as int)).push(fields@[i as int].name@));
        }
        i += 1;
    }
    proof {
        assert(field_models(fields@).take(fields@.len() as int) =~= field_models(fields@));
    }
    r
}

/// Collects the names of the primary-key fields, in declaration order.
pub fn collect_pk_names(fields: &Vec<FieldSpec>) -> (r: Vec<String>)
    ensures
        seq_views(r@) == pk_names(field_models(fields@)),
{
    let mut r: Vec<String> = Vec::new();
    let mut i: usize = 0;
    proof {
        assert(field_models(fields@).take(0) =~= Seq::<FieldModel>::empty());
        assert(seq_views(r@) =~= pk_names(field_models(fields@).take(0)));
    }
    while i < fields.len()
        invariant
            i <= fields@.len(),
            seq_views(r@) == pk_names(field_models(fields@).take(i as int)),
        decreases fields@.len() - i,
    {
        proof {
            let ms = field_models(fields@);
            assert(ms.take(i as int + 1).drop_last() =~= ms.take(i as int));
            assert(ms.take(i as int + 1).last() == fields@[i as int]@);
        }
        if fields[i].is_primary_key {
            let name = fields[i].name.clone();
            r.push(name);
            proof {
                let ms = field_models(fields@);
                assert(seq_views(r@) =~= pk_names(ms.take(i as int)).push(
                    fields@[i as int].name@,
                ));
            }
        }
        i += 1;
    }
    proof {
        assert(field_models(fields@).take(fields@.len() as int) =~= field_models(fields@));
    }
    r
}

/// Collects the names of the non-primary-key fields, in declaration order.
pub fn collect_nonpk_names(fields: &Vec<FieldSpec>) -> (r: Vec<String>)
    ensures
        seq_views(r@) == nonpk_names(field_models(fields@)),
{
    let mut r: Vec<String> = Vec::new();
    let mut i: usize = 0;
    proof {
        assert(field_models(fields@).take(0) =~= Seq::<FieldModel>::empty());
        assert(seq_views(r@) =~= nonpk_names(field_models(fields@).take(0)));
    }
    while i < fields.len()
        invariant
            i <= fields@.len(),
            seq_views(r@) == nonpk_names(field_models(fields@).take(i as int)),
        decreases fields@.len() - i,
    {
        proof {
            let ms = field_models(fields@);
            assert(ms.take(i as int + 1).drop_last() =~= ms.take(i as int));
            assert(ms.take(i as int + 1).last() == fields@[i as int]@);
        }
        if !fields[i].is_primary_key {
            let name = fields[i].name.clone();
            r.push(name);
            proof {
                let ms = field_models(fields@);
                assert(seq_views(r@) =~= nonpk_names(ms.take(i as int)).push(
                    fields@[i as int].name@,
                ));
            }
        }
        i += 1;
    }
    proof {
        assert(field_models(fields@).take(fields@.len() as int) =~= field_models(fields@));
    }
    r
}

} // verus!
