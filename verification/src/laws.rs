//! The central correctness laws of generation, stated over the mathematical
//! models and proved once for every schema: argument-order lengths, the
//! placeholder/argument correspondence, the update binding order, and the two
//! SET clause forms.

use vstd::prelude::*;
use crate::binder::{
    all_names, create_args, delete_args, get_args, lemma_has_primary_key_iff_pk_names,
    lemma_name_lengths, lemma_names_marker_free, list_args, nonpk_names, pk_names, update_args,
};
use crate::plan::{
    create_sql, delete_sql, eq_exprs, get_sql, list_sql, update_sql, where_clause,
};
use crate::schema::{has_primary_key, SchemaModel};
use crate::text::{
    count_char, join, lemma_count_char_absent, lemma_count_char_concat, lemma_join_count_one,
    lemma_join_count_zero, lemma_placeholder_count, lemma_placeholder_run_counts,
    lemma_placeholder_run_index, marker_free, placeholder, placeholder_run,
};

verus! {

/// A schema whose table name and field names hold no placeholder marker, as
/// identifiers do; under it the `$` markers of a statement are exactly its
/// placeholders.
pub open spec fn marker_free_schema(s: SchemaModel) -> bool {
    marker_free(s.table_name) && forall|i: int|
        0 <= i < s.fields.len() ==> marker_free(#[trigger] s.fields[i].name)
}

/// None of the fixed statement fragments holds a placeholder marker.
proof fn lemma_literal_marker_free()
    ensures
        marker_free("SELECT * FROM "@),
        marker_free(" "@),
        marker_free("WHERE "@),
        marker_free(" = "@),
        marker_free(" AND "@),
        marker_free("INSERT INTO "@),
        marker_free(" ("@),
        marker_free(", "@),
        marker_free(") VALUES ("@),
        marker_free(") RETURNING *"@),
        marker_free("UPDATE "@),
        marker_free(" SET "@),
        marker_free(" SET ("@),
        marker_free(") = ("@),
        marker_free(") "@),
        marker_free(" RETURNING *"@),
        marker_free("DELETE FROM "@),
{
    reveal_strlit("SELECT * FROM ");
    assert(forall|i: int| 0 <= i < "SELECT * FROM "@.len() ==> "SELECT * FROM "@[i] != '$');
    lemma_count_char_absent("SELECT * FROM "@, '$');
    reveal_strlit(" ");
    assert(forall|i: int| 0 <= i < " "@.len() ==> " "@[i] != '$');
    lemma_count_char_absent(" "@, '$');
    reveal_strlit("WHERE ");
    assert(forall|i: int| 0 <= i < "WHERE "@.len() ==> "WHERE "@[i] != '$');
    lemma_count_char_absent("WHERE "@, '$');
    reveal_strlit(" = ");
    assert(forall|i: int| 0 <= i < " = "@.len() ==> " = "@[i] != '$');
    lemma_count_char_absent(" = "@, '$');
    reveal_strlit(" AND ");
    assert(forall|i: int| 0 <= i < " AND "@.len() ==> " AND "@[i] != '$');
    lemma_count_char_absent(" AND "@, '$');
    reveal_strlit("INSERT INTO ");
    assert(forall|i: int| 0 <= i < "INSERT INTO "@.len() ==> "INSERT INTO "@[i] != '$');
    lemma_count_char_absent("INSERT INTO "@, '$');
    reveal_strlit(" (");
    assert(forall|i: int| 0 <= i < " ("@.len() ==> " ("@[i] != '$');
    lemma_count_char_absent(" ("@, '$');
    reveal_strlit(", ");
    assert(forall|i: int| 0 <= i < ", "@.len() ==> ", "@[i] != '$');
    lemma_count_char_absent(", "@, '$');
    reveal_strlit(") VALUES (");
    assert(forall|i: int| 0 <= i < ") VALUES ("@.len() ==> ") VALUES ("@[i] != '$');
    lemma_count_char_absent(") VALUES ("@, '$');
    reveal_strlit(") RETURNING *");
    assert(forall|i: int| 0 <= i < ") RETURNING *"@.len() ==> ") RETURNING *"@[i] != '$');
    lemma_count_char_absent(") RETURNING *"@, '$');
    reveal_strlit("UPDATE ");
    assert(forall|i: int| 0 <= i < "UPDATE "@.len() ==> "UPDATE "@[i] != '$');
    lemma_count_char_absent("UPDATE "@, '$');
    reveal_strlit(" SET ");
    assert(forall|i: int| 0 <= i < " SET "@.len() ==> " SET "@[i] != '$');
    lemma_count_char_absent(" SET "@, '$');
    reveal_strlit(" SET (");
    assert(forall|i: int| 0 <= i < " SET ("@.len() ==> " SET ("@[i] != '$');
    lemma_count_char_absent(" SET ("@, '$');
    reveal_strlit(") = (");
    assert(forall|i: int| 0 <= i < ") = ("@.len() ==> ") = ("@[i] != '$');
    lemma_count_char_absent(") = ("@, '$');
    reveal_strlit(") ");
    assert(forall|i: int| 0 <= i < ") "@.len() ==> ") "@[i] != '$');
    lemma_count_char_absent(") "@, '$');
    reveal_strlit(" RETURNING *");
    assert(forall|i: int| 0 <= i < " RETURNING *"@.len() ==> " RETURNING *"@[i] != '$');
    lemma_count_char_absent(" RETURNING *"@, '$');
    reveal_strlit("DELETE FROM ");
    assert(forall|i: int| 0 <= i < "DELETE FROM "@.len() ==> "DELETE FROM "@[i] != '$');
    lemma_count_char_absent("DELETE FROM "@, '$');
}

/// Law: the argument order of each operation has the declared length. With
/// `k` primary-key fields among `n` (and validation guarantees `k >= 1`): the
/// point lookup, its optional form and the deletion bind `k` values, the
/// insertion and the update bind `n`, the listing binds none.
pub proof fn lemma_argument_order_lengths(s: SchemaModel)
    ensures
        get_args(s).len() == pk_names(s.fields).len(),
        delete_args(s).len() == pk_names(s.fields).len(),
        create_args(s).len() == s.fields.len(),
        update_args(s).len() == s.fields.len(),
        list_args(s).len() == 0,
        pk_names(s.fields).len() <= s.fields.len(),
        has_primary_key(s.fields) <==> pk_names(s.fields).len() >= 1,
{
    lemma_name_lengths(s.fields);
    lemma_has_primary_key_iff_pk_names(s.fields);
}

/// Each comparison of a WHERE predicate is the i-th primary-key name against
/// the placeholder `$(i+1)`: the predicate binds the keys in declaration
/// order.
pub proof fn lemma_predicate_positions(pk: Seq<Seq<char>>)
    ensures
        eq_exprs(pk).len() == pk.len(),
        forall|i: int|
            0 <= i < pk.len() ==> #[trigger] eq_exprs(pk)[i] == pk[i] + " = "@ + placeholder(
                (i + 1) as nat,
            ),
    decreases pk.len(),
{
    if pk.len() > 0 {
        lemma_predicate_positions(pk.drop_last());
        let es = eq_exprs(pk);
        assert(es == eq_exprs(pk.drop_last()).push(pk.last() + " = "@ + placeholder(
            pk.len() as nat,
        )));
        assert forall|i: int| 0 <= i < pk.len() implies #[trigger] es[i] == pk[i] + " = "@
            + placeholder((i + 1) as nat) by {
            if i < pk.len() - 1 {
                assert(es[i] == eq_exprs(pk.drop_last())[i]);
                assert(pk.drop_last()[i] == pk[i]);
            } else {
                assert(es[i] == pk.last() + " = "@ + placeholder(pk.len() as nat));
            }
        }
    }
}

/// Each comparison of a WHERE predicate over marker-free names holds exactly
/// one placeholder marker.
proof fn lemma_eq_exprs_counts(pk: Seq<Seq<char>>)
    requires
        forall|i: int| 0 <= i < pk.len() ==> count_char(#[trigger] pk[i], '$') == 0,
    ensures
        eq_exprs(pk).len() == pk.len(),
        forall|i: int| 0 <= i < eq_exprs(pk).len() ==> count_char(#[trigger] eq_exprs(pk)[i], '$')
            == 1,
    decreases pk.len(),
{
    if pk.len() > 0 {
        assert(forall|i: int|
            0 <= i < pk.drop_last().len() ==> count_char(#[trigger] pk.drop_last()[i], '$') == 0);
        lemma_eq_exprs_counts(pk.drop_last());
        lemma_literal_marker_free();
        let last_term = pk.last() + " = "@ + placeholder(pk.len() as nat);
        lemma_count_char_concat(pk.last(), " = "@, '$');
        lemma_count_char_concat(pk.last() + " = "@, placeholder(pk.len() as nat), '$');
        lemma_placeholder_count(pk.len() as nat);
        assert(count_char(pk.last(), '$') == 0);
        assert(count_char(last_term, '$') == 1);
        let es = eq_exprs(pk);
        assert(es == eq_exprs(pk.drop_last()).push(last_term));
        assert forall|i: int| 0 <= i < es.len() implies count_char(#[trigger] es[i], '$')
            == 1 by {
            if i < es.len() - 1 {
                assert(es[i] == eq_exprs(pk.drop_last())[i]);
            } else {
                assert(es[i] == last_term);
            }
        }
    }
}

/// A WHERE predicate over `k` marker-free primary-key names holds exactly `k`
/// placeholder markers.
proof fn lemma_where_clause_count(pk: Seq<Seq<char>>)
    requires
        forall|i: int| 0 <= i < pk.len() ==> count_char(#[trigger] pk[i], '$') == 0,
    ensures
        count_char(where_clause(pk), '$') == pk.len(),
{
    lemma_eq_exprs_counts(pk);
    lemma_literal_marker_free();
    lemma_join_count_one(eq_exprs(pk), " AND "@);
    lemma_count_char_concat("WHERE "@, join(eq_exprs(pk), " AND "@), '$');
}

/// Law: in every generated statement the number of `$` markers equals the
/// length of the operation's argument order; the i-th placeholder binds the
/// i-th argument reference.
pub proof fn lemma_placeholder_counts(s: SchemaModel)
    requires
        marker_free_schema(s),
    ensures
        count_char(get_sql(s), '$') == get_args(s).len(),
        count_char(create_sql(s), '$') == create_args(s).len(),
        count_char(update_sql(s), '$') == update_args(s).len(),
        count_char(delete_sql(s), '$') == delete_args(s).len(),
        count_char(list_sql(s), '$') == list_args(s).len(),
{
    lemma_literal_marker_free();
    lemma_names_marker_free(s.fields);
    lemma_name_lengths(s.fields);
    let t = s.table_name;
    let pk = pk_names(s.fields);
    let np = nonpk_names(s.fields);
    let an = all_names(s.fields);
    lemma_where_clause_count(pk);

    // listing and point lookup
    lemma_count_char_concat("SELECT * FROM "@, t, '$');
    lemma_count_char_concat("SELECT * FROM "@ + t, " "@, '$');
    lemma_count_char_concat("SELECT * FROM "@ + t + " "@, where_clause(pk), '$');

    // deletion
    lemma_count_char_concat("DELETE FROM "@, t, '$');
    lemma_count_char_concat("DELETE FROM "@ + t, " "@, '$');
    lemma_count_char_concat("DELETE FROM "@ + t + " "@, where_clause(pk), '$');

    // insertion
    lemma_join_count_zero(an, ", "@);
    lemma_placeholder_run_counts(1, s.fields.len());
    lemma_join_count_one(placeholder_run(1, s.fields.len()), ", "@);
    lemma_count_char_concat("INSERT INTO "@, t, '$');
    lemma_count_char_concat("INSERT INTO "@ + t, " ("@, '$');
    lemma_count_char_concat("INSERT INTO "@ + t + " ("@, join(an, ", "@), '$');
    lemma_count_char_concat("INSERT INTO "@ + t + " ("@ + join(an, ", "@), ") VALUES ("@, '$');
    lemma_count_char_concat(
        "INSERT INTO "@ + t + " ("@ + join(an, ", "@) + ") VALUES ("@,
        join(placeholder_run(1, s.fields.len()), ", "@),
        '$',
    );
    lemma_count_char_concat(
        "INSERT INTO "@ + t + " ("@ + join(an, ", "@) + ") VALUES ("@ + join(
            placeholder_run(1, s.fields.len()),
            ", "@,
        ),
        ") RETURNING *"@,
        '$',
    );

    // update
    lemma_join_count_zero(np, ", "@);
    if np.len() == 1 {
        lemma_placeholder_count((pk.len() + 1) as nat);
        lemma_count_char_concat("UPDATE "@, t, '$');
        lemma_count_char_concat("UPDATE "@ + t, " SET "@, '$');
        lemma_count_char_concat("UPDATE "@ + t + " SET "@, join(np, ", "@), '$');
        lemma_count_char_concat("UPDATE "@ + t + " SET "@ + join(np, ", "@), " = "@, '$');
        lemma_count_char_concat(
            "UPDATE "@ + t + " SET "@ + join(np, ", "@) + " = "@,
            placeholder((pk.len() + 1) as nat),
            '$',
        );
        lemma_count_char_concat(
            "UPDATE "@ + t + " SET "@ + join(np, ", "@) + " = "@ + placeholder(
                (pk.len() + 1) as nat,
            ),
            " "@,
            '$',
        );
        lemma_count_char_concat(
            "UPDATE "@ + t + " SET "@ + join(np, ", "@) + " = "@ + placeholder(
                (pk.len() + 1) as nat,
            ) + " "@,
            where_clause(pk),
            '$',
        );
        lemma_count_char_concat(
            "UPDATE "@ + t + " SET "@ + join(np, ", "@) + " = "@ + placeholder(
                (pk.len() + 1) as nat,
            ) + " "@ + where_clause(pk),
            " RETURNING *"@,
            '$',
        );
    } else {
        let run = placeholder_run((pk.len() + 1) as nat, np.len());
        lemma_placeholder_run_counts((pk.len() + 1) as nat, np.len());
        lemma_join_count_one(run, ", "@);
        lemma_count_char_concat("UPDATE "@, t, '$');
        lemma_count_char_concat("UPDATE "@ + t, " SET ("@, '$');
        lemma_count_char_concat("UPDATE "@ + t + " SET ("@, join(np, ", "@), '$');
        lemma_count_char_concat("UPDATE "@ + t + " SET ("@ + join(np, ", "@), ") = ("@, '$');
        lemma_count_char_concat(
            "UPDATE "@ + t + " SET ("@ + join(np, ", "@) + ") = ("@,
            join(run, ", "@),
            '$',
        );
        lemma_count_char_concat(
            "UPDATE "@ + t + " SET ("@ + join(np, ", "@) + ") = ("@ + join(run, ", "@),
            ") "@,
            '$',
        );
        lemma_count_char_concat(
            "UPDATE "@ + t + " SET ("@ + join(np, ", "@) + ") = ("@ + join(run, ", "@) + ") "@,
            where_clause(pk),
            '$',
        );
        lemma_count_char_concat(
            "UPDATE "@ + t + " SET ("@ + join(np, ", "@) + ") = ("@ + join(run, ", "@) + ") "@
                + where_clause(pk),
            " RETURNING *"@,
            '$',
        );
    }
}

/// Law: the update binds the primary-key fields first, in declaration order,
/// followed by the non-primary-key fields in declaration order.
pub proof fn lemma_update_argument_order(s: SchemaModel)
    ensures
        update_args(s) == pk_names(s.fields) + nonpk_names(s.fields),
        update_args(s).len() == pk_names(s.fields).len() + nonpk_names(s.fields).len(),
        forall|i: int|
            0 <= i < pk_names(s.fields).len() ==> #[trigger] update_args(s)[i] == pk_names(
                s.fields,
            )[i],
        forall|j: int|
            0 <= j < nonpk_names(s.fields).len() ==> #[trigger] update_args(s)[pk_names(
                s.fields,
            ).len() + j] == nonpk_names(s.fields)[j],
{
}

/// Law: with exactly one non-primary-key column the update statement uses the
/// scalar SET form `SET c = $p`; with any other count, the parenthesized
/// row-value form.
pub proof fn lemma_update_set_clause_form(s: SchemaModel)
    ensures
        nonpk_names(s.fields).len() == 1 ==> update_sql(s) == "UPDATE "@ + s.table_name + " SET "@
            + nonpk_names(s.fields)[0] + " = "@ + placeholder(
            (pk_names(s.fields).len() + 1) as nat,
        ) + " "@ + where_clause(pk_names(s.fields)) + " RETURNING *"@,
        nonpk_names(s.fields).len() != 1 ==> update_sql(s) == "UPDATE "@ + s.table_name
            + " SET ("@ + join(nonpk_names(s.fields), ", "@) + ") = ("@ + join(
            placeholder_run((pk_names(s.fields).len() + 1) as nat, nonpk_names(s.fields).len()),
            ", "@,
        ) + ") "@ + where_clause(pk_names(s.fields)) + " RETURNING *"@,
{
    if nonpk_names(s.fields).len() == 1 {
        assert(join(nonpk_names(s.fields), ", "@) == nonpk_names(s.fields)[0]);
    }
}

/// The column positions of the insertion's VALUES list: the j-th placeholder
/// is `$(j+1)`, matching the j-th column and the j-th bound argument.
pub proof fn lemma_values_positions(count: nat)
    ensures
        placeholder_run(1, count).len() == count,
        forall|j: int|
            0 <= j < count ==> #[trigger] placeholder_run(1, count)[j] == placeholder(
                (j + 1) as nat,
            ),
{
    lemma_placeholder_run_index(1, count);
}

} // verus!

