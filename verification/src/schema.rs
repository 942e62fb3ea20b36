//! The schema model: fields, tables, table-name resolution, and validation.

use vstd::prelude::*;

verus! {

/// One column of a table: its name, its type token (opaque to generation,
/// only passed through to generated signatures), and whether it belongs to
/// the primary key.
#[derive(Debug, Clone)]
pub struct FieldSpec {
    pub name: String,
    pub ty: String,
    pub is_primary_key: bool,
}

/// The mathematical model of one column.
pub ghost struct FieldModel {
    pub name: Seq<char>,
    pub ty: Seq<char>,
    pub is_primary_key: bool,
}

impl View for FieldSpec {
    type V = FieldModel;

    open spec fn view(&self) -> FieldModel {
        FieldModel { name: self.name@, ty: self.ty@, is_primary_key: self.is_primary_key }
    }
}

/// The models of a list of columns, in declaration order.
pub open spec fn field_models(fields: Seq<FieldSpec>) -> Seq<FieldModel> {
    fields.map_values(|f: FieldSpec| f@)
}

/// A table description: the resolved table name and the declared fields in
/// declaration order. Declaration order is semantically significant: it fixes
/// column order and binding order in every generated statement.
#[derive(Debug, Clone)]
pub struct TableSchema {
    pub table_name: String,
    pub fields: Vec<FieldSpec>,
}

/// The mathematical model of a table description.
pub ghost struct SchemaModel {
    pub table_name: Seq<char>,
    pub fields: Seq<FieldModel>,
}

impl View for TableSchema {
    type V = SchemaModel;

    open spec fn view(&self) -> SchemaModel {
        SchemaModel { table_name: self.table_name@, fields: field_models(self.fields@) }
    }
}

/// The lowercase form of a text, as the standard library computes it.
pub uninterp spec fn lower_of(s: Seq<char>) -> Seq<char>;

/// Relies on str::to_lowercase: the result is a function of the characters
/// alone, and an empty text stays empty.
#[verifier::external_body]
fn to_lowercase(s: &str) -> (r: String)
    ensures
        r@ == lower_of(s@),
        s@.len() == 0 ==> r@.len() == 0,
{
    s.to_lowercase()
}

impl TableSchema {
    /// Builds the schema of a record type. An explicit table name takes
    /// precedence; without one the table is named by the lowercase form of
    /// the record type's own name. The field list must be non-empty.
    pub fn new(
        record_type_name: &str,
        explicit_table_name: Option<String>,
        fields: Vec<FieldSpec>,
    ) -> (r: TableSchema)
        requires
            fields@.len() >= 1,
        ensures
            r@.fields == field_models(fields@),
            match explicit_table_name {
                Some(n) => r@.table_name == n@,
                None => r@.table_name == lower_of(record_type_name@),
            },
    {
        let table_name = match explicit_table_name {
            Some(n) => n,
            None => to_lowercase(record_type_name),
        };
        TableSchema { table_name, fields }
    }
}

/// The generation-time failure of a schema that declares no primary-key
/// field; it names the offending table.
#[derive(Debug, Clone, PartialEq, Eq)]
pub struct NoPrimaryKeyError {
    pub table_name: String,
}

impl NoPrimaryKeyError {
    /// A diagnostic identifying the table that lacks a primary key.
    pub fn message(&self) -> (r: String)
        ensures
            r@ == "table "@ + self.table_name@ + " has no primary key"@,
    {
        let mut r = String::from_str("table ");
        r.append(self.table_name.as_str());
        r.append(" has no primary key");
        r
    }
}

/// A schema that passed validation: at least one field is marked primary key.
pub struct ValidatedSchema {
    pub(crate) schema: TableSchema,
}

impl View for ValidatedSchema {
    type V = SchemaModel;

    closed spec fn view(&self) -> SchemaModel {
        self.schema@
    }
}

/// A validated schema models exactly the table description it wraps.
pub(crate) proof fn lemma_validated_schema_view(v: &ValidatedSchema)
    ensures
        v@ == v.schema@,
{
}

/// Whether some field of the model is marked primary key.
pub open spec fn has_primary_key(fields: Seq<FieldModel>) -> bool
    decreases fields.len(),
{
    if fields.len() == 0 {
        false
    } else {
        fields.last().is_primary_key || has_primary_key(fields.drop_last())
    }
}

/// Checks the schema for well-formedness before any statement is built: a
/// schema without a primary-key field cannot support point lookup, update or
/// deletion, and is rejected with a diagnostic naming the table. Composite
/// primary keys (two or more marked fields) are valid.
pub fn validate(schema: TableSchema) -> (r: Result<ValidatedSchema, NoPrimaryKeyError>)
    ensures
        match r {
            Ok(v) => v@ == schema@ && has_primary_key(schema@.fields),
            Err(e) => e.table_name@ == schema@.table_name && !has_primary_key(schema@.fields),
        },
{
    let mut found = false;
    let mut i: usize = 0;
    proof {
        assert(field_models(schema.fields@).take(0) =~= Seq::<FieldModel>::empty());
    }
    while i < schema.fields.len()
        invariant
            i <= schema.fields@.len(),
            found == has_primary_key(field_models(schema.fields@).take(i as int)),
        decreases schema.fields@.len() - i,
    {
        if schema.fields[i].is_primary_key {
            found = true;
        }
        proof {
            let ms = field_models(schema.fields@);
            assert(ms.take(i as int + 1).drop_last() =~= ms.take(i as int));
            assert(ms.take(i as int + 1).last() == schema.fields@[i as int]@);
        }
        i += 1;
    }
    proof {
        assert(field_models(schema.fields@).take(schema.fields@.len() as int) =~= field_models(
            schema.fields@,
        ));
    }
    if found {
        Ok(ValidatedSchema { schema })
    } else {
        Err(NoPrimaryKeyError { table_name: schema.table_name })
    }
}

} // verus!
