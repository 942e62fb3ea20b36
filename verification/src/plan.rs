//! The query template builder: pure functions from a validated schema to the
//! five parameterized SQL statement texts, paired with the binder's argument
//! order as a `QueryPlan` per operation.
//!
//! Placeholder numbering starts at `$1` in every statement and increases by
//! one per bound position. In the update statement the WHERE predicate keeps
//! `$1..$k` (`k` primary-key fields) and the SET clause continues with
//! `$(k+1)..$(k+m)` (`m` non-primary-key fields): the primary key is bound
//! first, the mutated columns second.

use vstd::prelude::*;
use crate::binder::{
    all_names, collect_all_names, collect_nonpk_names, collect_pk_names, create_args, delete_args,
    get_args, lemma_name_lengths, list_args, nonpk_names, pk_names, update_args,
};
use crate::schema::{
    lemma_validated_schema_view, NoPrimaryKeyError, SchemaModel, TableSchema, ValidatedSchema,
    validate,
};
use crate::text::{
    join, join_strings, placeholder, placeholder_run, placeholder_string, placeholder_strings,
    seq_views,
};

verus! {

/// One operation's generated output: the statement text and the ordered field
/// references whose values must be bound, the i-th reference matching the
/// placeholder `$i`.
#[derive(Debug, Clone, PartialEq, Eq)]
pub struct QueryPlan {
    pub sql_text: String,
    pub argument_order: Vec<String>,
}

/// The five operations' plans for one schema (the optional point lookup
/// shares the point lookup's statement).
#[derive(Debug, Clone, PartialEq, Eq)]
pub struct QueryPlans {
    pub get: QueryPlan,
    pub get_optional: QueryPlan,
    pub create: QueryPlan,
    pub update: QueryPlan,
    pub delete: QueryPlan,
    pub list: QueryPlan,
}

/// The equality comparisons of a WHERE predicate: the i-th primary-key name
/// compared against the placeholder `$(i+1)`.
pub open spec fn eq_exprs(pk: Seq<Seq<char>>) -> Seq<Seq<char>>
    decreases pk.len(),
{
    if pk.len() == 0 {
        Seq::empty()
    } else {
        eq_exprs(pk.drop_last()).push(pk.last() + " = "@ + placeholder(pk.len() as nat))
    }
}

/// The WHERE predicate over the primary-key names: the comparisons joined
/// with AND, placeholders numbered `$1` through `$k` in declaration order.
pub open spec fn where_clause(pk: Seq<Seq<char>>) -> Seq<char> {
    "WHERE "@ + join(eq_exprs(pk), " AND "@)
}

/// Statement text of the point lookup (and of its optional form).
pub open spec fn get_sql(s: SchemaModel) -> Seq<char> {
    "SELECT * FROM "@ + s.table_name + " "@ + where_clause(pk_names(s.fields))
}

/// Statement text of the insertion: all columns in declaration order, one
/// placeholder per column.
pub open spec fn create_sql(s: SchemaModel) -> Seq<char> {
    "INSERT INTO "@ + s.table_name + " ("@ + join(all_names(s.fields), ", "@) + ") VALUES ("@
        + join(placeholder_run(1, s.fields.len()), ", "@) + ") RETURNING *"@
}

/// Statement text of the update. With exactly one non-primary-key column the
/// SET clause takes the scalar form `SET c = $p`; otherwise the parenthesized
/// row-value form `SET (c1, c2, ...) = ($p, $p+1, ...)`.
pub open spec fn update_sql(s: SchemaModel) -> Seq<char> {
    let pk = pk_names(s.fields);
    let np = nonpk_names(s.fields);
    if np.len() == 1 {
        "UPDATE "@ + s.table_name + " SET "@ + join(np, ", "@) + " = "@ + placeholder(
            (pk.len() + 1) as nat,
        ) + " "@ + where_clause(pk) + " RETURNING *"@
    } else {
        "UPDATE "@ + s.table_name + " SET ("@ + join(np, ", "@) + ") = ("@ + join(
            placeholder_run((pk.len() + 1) as nat, np.len()),
            ", "@,
        ) + ") "@ + where_clause(pk) + " RETURNING *"@
    }
}

/// Statement text of the deletion.
pub open spec fn delete_sql(s: SchemaModel) -> Seq<char> {
    "DELETE FROM "@ + s.table_name + " "@ + where_clause(pk_names(s.fields))
}

/// Statement text of the unfiltered listing: no predicate, no placeholders.
pub open spec fn list_sql(s: SchemaModel) -> Seq<char> {
    "SELECT * FROM "@ + s.table_name
}

/// Builds the comparison texts of a WHERE predicate from the primary-key
/// names.
fn eq_expr_strings(pk: &Vec<String>) -> (r: Vec<String>)
    ensures
        seq_views(r@) == eq_exprs(seq_views(pk@)),
{
    let mut r: Vec<String> = Vec::new();
    let mut i: usize = 0;
    proof {
        assert(seq_views(pk@).take(0) =~= Seq::<Seq<char>>::empty());
        assert(seq_views(r@) =~= eq_exprs(seq_views(pk@).take(0)));
    }
    while i < pk.len()
        invariant
            i <= pk@.len(),
            seq_views(r@) == eq_exprs(seq_views(pk@).take(i as int)),
        decreases pk@.len() - i,
    {
        let mut term = pk[i].clone();
        term.append(" = ");
        let ph = placeholder_string(i + 1);
        term.append(ph.as_str());
        r.push(term);
        proof {
            let vs = seq_views(pk@);
            assert(vs.take(i as int + 1).drop_last() =~= vs.take(i as int));
            assert(vs.take(i as int + 1).last() == pk@[i as int]@);
            assert(vs.take(i as int + 1).len() == i + 1);
            assert(eq_exprs(vs.take(i as int + 1)) == eq_exprs(vs.take(i as int)).push(
                pk@[i as int]@ + " = "@ + placeholder((i + 1) as nat),
            ));
            assert(seq_views(r@) =~= eq_exprs(vs.take(i as int)).push(
                pk@[i as int]@ + " = "@ + placeholder((i + 1) as nat),
            ));
        }
        i += 1;
    }
    proof {
        assert(seq_views(pk@).take(pk@.len() as int) =~= seq_views(pk@));
    }
    r
}

/// Builds the WHERE predicate text from the primary-key names.
fn where_clause_string(pk: &Vec<String>) -> (r: String)
    ensures
        r@ == where_clause(seq_views(pk@)),
{
    let terms = eq_expr_strings(pk);
    let joined = join_strings(&terms, " AND ");
    let mut r = String::from_str("WHERE ");
    r.append(joined.as_str());
    r
}

impl ValidatedSchema {
    /// The point-lookup plan: select by primary key, binding the primary-key
    /// fields in declaration order.
    pub fn get_plan(&self) -> (p: QueryPlan)
        ensures
            p.sql_text@ == get_sql(self@),
            seq_views(p.argument_order@) == get_args(self@),
    {
        proof {
            lemma_validated_schema_view(self);
        }
        let pk = collect_pk_names(&self.schema.fields);
        let w = where_clause_string(&pk);
        let mut sql = String::from_str("SELECT * FROM ");
        sql.append(self.schema.table_name.as_str());
        sql.append(" ");
        sql.append(w.as_str());
        QueryPlan { sql_text: sql, argument_order: pk }
    }

    /// The optional point lookup runs the same statement as the point lookup;
    /// only its outcome is adapted (see the adapter).
    pub fn get_optional_plan(&self) -> (p: QueryPlan)
        ensures
            p.sql_text@ == get_sql(self@),
            seq_views(p.argument_order@) == get_args(self@),
    {
        self.get_plan()
    }

    /// The insertion plan: all columns in declaration order, one placeholder
    /// per column, returning the stored row.
    pub fn create_plan(&self) -> (p: QueryPlan)
        ensures
            p.sql_text@ == create_sql(self@),
            seq_views(p.argument_order@) == create_args(self@),
    {
        proof {
            lemma_validated_schema_view(self);
        }
        let names = collect_all_names(&self.schema.fields);
        let cols = join_strings(&names, ", ");
        proof {
            lemma_name_lengths(self@.fields);
            assert(names@.len() == self@.fields.len());
        }
        let phs = placeholder_strings(0, names.len());
        let ph_list = join_strings(&phs, ", ");
        let mut sql = String::from_str("INSERT INTO ");
        sql.append(self.schema.table_name.as_str());
        sql.append(" (");
        sql.append(cols.as_str());
        sql.append(") VALUES (");
        sql.append(ph_list.as_str());
        sql.append(") RETURNING *");
        QueryPlan { sql_text: sql, argument_order: names }
    }

    /// The update plan: SET over the non-primary-key columns, filtered by the
    /// primary key; the primary-key fields are bound first (`$1..$k`), the
    /// mutated columns second (`$(k+1)..$(k+m)`).
    pub fn update_plan(&self) -> (p: QueryPlan)
        ensures
            p.sql_text@ == update_sql(self@),
            seq_views(p.argument_order@) == update_args(self@),
    {
        proof {
            lemma_validated_schema_view(self);
            lemma_name_lengths(self@.fields);
        }
        let pk = collect_pk_names(&self.schema.fields);
        let mut nonpk = collect_nonpk_names(&self.schema.fields);
        proof {
            assert(seq_views(pk@).len() == pk@.len());
            assert(seq_views(nonpk@).len() == nonpk@.len());
            assert(self@.fields.len() == self.schema.fields@.len());
            assert(self.schema.fields.len() == self.schema.fields@.len());
            assert(pk@.len() + nonpk@.len() == self.schema.fields@.len());
        }
        let set_names = join_strings(&nonpk, ", ");
        let w = where_clause_string(&pk);
        let mut sql = String::from_str("UPDATE ");
        sql.append(self.schema.table_name.as_str());
        if nonpk.len() == 1 {
            sql.append(" SET ");
            sql.append(set_names.as_str());
            sql.append(" = ");
            let ph = placeholder_string(pk.len() + 1);
            sql.append(ph.as_str());
            sql.append(" ");
            sql.append(w.as_str());
            sql.append(" RETURNING *");
        } else {
            sql.append(" SET (");
            sql.append(set_names.as_str());
            sql.append(") = (");
            let phs = placeholder_strings(pk.len(), nonpk.len());
            let ph_list = join_strings(&phs, ", ");
            sql.append(ph_list.as_str());
            sql.append(") ");
            sql.append(w.as_str());
            sql.append(" RETURNING *");
        }
        let mut args = pk;
        args.append(&mut nonpk);
        proof {
            assert(seq_views(args@) =~= update_args(self@));
        }
        QueryPlan { sql_text: sql, argument_order: args }
    }

    /// The deletion plan: delete by primary key, binding the primary-key
    /// fields in declaration order.
    pub fn delete_plan(&self) -> (p: QueryPlan)
        ensures
            p.sql_text@ == delete_sql(self@),
            seq_views(p.argument_order@) == delete_args(self@),
    {
        proof {
            lemma_validated_schema_view(self);
        }
        let pk = collect_pk_names(&self.schema.fields);
        let w = where_clause_string(&pk);
        let mut sql = String::from_str("DELETE FROM ");
        sql.append(self.schema.table_name.as_str());
        sql.append(" ");
        sql.append(w.as_str());
        QueryPlan { sql_text: sql, argument_order: pk }
    }

    /// The listing plan: select every row, nothing bound.
    pub fn list_plan(&self) -> (p: QueryPlan)
        ensures
            p.sql_text@ == list_sql(self@),
            seq_views(p.argument_order@) == list_args(self@),
    {
        proof {
            lemma_validated_schema_view(self);
        }
        let mut sql = String::from_str("SELECT * FROM ");
        sql.append(self.schema.table_name.as_str());
        let args: Vec<String> = Vec::new();
        proof {
            assert(seq_views(args@) =~= list_args(self@));
        }
        QueryPlan { sql_text: sql, argument_order: args }
    }
}

/// Generates the plans of all operations for a schema: validation, then the
/// statement texts with their binding orders. A schema without a primary-key
/// field yields the validator's error and no plan at all.
pub fn generate(schema: TableSchema) -> (r: Result<QueryPlans, NoPrimaryKeyError>)
    ensures
        match r {
            Ok(plans) => crate::schema::has_primary_key(schema@.fields) && plans.get.sql_text@
                == get_sql(schema@) && seq_views(plans.get.argument_order@) == get_args(schema@)
                && plans.get_optional.sql_text@ == get_sql(schema@) && seq_views(
                plans.get_optional.argument_order@,
            ) == get_args(schema@) && plans.create.sql_text@ == create_sql(schema@) && seq_views(
                plans.create.argument_order@,
            ) == create_args(schema@) && plans.update.sql_text@ == update_sql(schema@) && seq_views(
                plans.update.argument_order@,
            ) == update_args(schema@) && plans.delete.sql_text@ == delete_sql(schema@) && seq_views(
                plans.delete.argument_order@,
            ) == delete_args(schema@) && plans.list.sql_text@ == list_sql(schema@) && seq_views(
                plans.list.argument_order@,
            ) == list_args(schema@),
            Err(e) => e.table_name@ == schema@.table_name && !crate::schema::has_primary_key(
                schema@.fields,
            ),
        },
{
    match validate(schema) {
        Ok(v) => Ok(
            QueryPlans {
                get: v.get_plan(),
                get_optional: v.get_optional_plan(),
                create: v.create_plan(),
                update: v.update_plan(),
                delete: v.delete_plan(),
                list: v.list_plan(),
            },
        ),
        Err(e) => Err(e),
    }
}

} // verus!
