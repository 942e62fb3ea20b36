use table_queries::plan::generate;
use table_queries::schema::{validate, FieldSpec, TableSchema};

fn field(name: &str, ty: &str, pk: bool) -> FieldSpec {
    FieldSpec { name: name.to_string(), ty: ty.to_string(), is_primary_key: pk }
}

fn args(names: &[&str]) -> Vec<String> {
    names.iter().map(|n| n.to_string()).collect()
}

#[test]
fn test_simple() {
    let schema = TableSchema::new(
        "Guild",
        Some("guild".to_string()),
        vec![
            field("guild_id", "i64", true),
            field("name", "String", false),
            field("icon_url", "Option<String>", false),
        ],
    );
    let plans = generate(schema).unwrap();

    assert_eq!(plans.get.sql_text, "SELECT * FROM guild WHERE guild_id = $1");
    assert_eq!(plans.get.argument_order, args(&["guild_id"]));

    assert_eq!(plans.get_optional.sql_text, "SELECT * FROM guild WHERE guild_id = $1");
    assert_eq!(plans.get_optional.argument_order, args(&["guild_id"]));

    assert_eq!(
        plans.create.sql_text,
        "INSERT INTO guild (guild_id, name, icon_url) VALUES ($1, $2, $3) RETURNING *"
    );
    assert_eq!(plans.create.argument_order, args(&["guild_id", "name", "icon_url"]));

    assert_eq!(
        plans.update.sql_text,
        "UPDATE guild SET (name, icon_url) = ($2, $3) WHERE guild_id = $1 RETURNING *"
    );
    assert_eq!(plans.update.argument_order, args(&["guild_id", "name", "icon_url"]));

    assert_eq!(plans.delete.sql_text, "DELETE FROM guild WHERE guild_id = $1");
    assert_eq!(plans.delete.argument_order, args(&["guild_id"]));

    assert_eq!(plans.list.sql_text, "SELECT * FROM guild");
    assert!(plans.list.argument_order.is_empty());
}

#[test]
fn test_multiple_pk_test_pk() {
    let schema = TableSchema::new(
        "ServerPermission",
        Some("server_permission".to_string()),
        vec![
            field("guild_id", "i64", true),
            field("tag", "String", true),
            field("permission_bit", "i64", false),
        ],
    );
    let plans = generate(schema).unwrap();

    assert_eq!(
        plans.get.sql_text,
        "SELECT * FROM server_permission WHERE guild_id = $1 AND tag = $2"
    );
    assert_eq!(plans.get.argument_order, args(&["guild_id", "tag"]));

    assert_eq!(
        plans.update.sql_text,
        "UPDATE server_permission SET permission_bit = $3 WHERE guild_id = $1 AND tag = $2 RETURNING *"
    );
    assert_eq!(plans.update.argument_order, args(&["guild_id", "tag", "permission_bit"]));

    assert_eq!(
        plans.delete.sql_text,
        "DELETE FROM server_permission WHERE guild_id = $1 AND tag = $2"
    );
    assert_eq!(plans.delete.argument_order, args(&["guild_id", "tag"]));
}

#[test]
fn test_pk_test_pk() {
    // A single mutable column takes the scalar SET form, not the
    // parenthesized row-value form.
    let schema = TableSchema::new(
        "Dictionary",
        None,
        vec![field("guild_id", "i64", true), field("dict", "String", false)],
    );
    let plans = generate(schema).unwrap();

    assert_eq!(plans.get.sql_text, "SELECT * FROM dictionary WHERE guild_id = $1");
    assert_eq!(
        plans.update.sql_text,
        "UPDATE dictionary SET dict = $2 WHERE guild_id = $1 RETURNING *"
    );
    assert_eq!(plans.update.argument_order, args(&["guild_id", "dict"]));
    assert_eq!(
        plans.create.sql_text,
        "INSERT INTO dictionary (guild_id, dict) VALUES ($1, $2) RETURNING *"
    );
}

#[test]
fn no_primary_key_is_rejected() {
    let schema = TableSchema::new(
        "Note",
        None,
        vec![field("body", "String", false), field("author", "String", false)],
    );
    let err = generate(schema).unwrap_err();
    assert_eq!(err.table_name, "note");
    assert_eq!(err.message(), "table note has no primary key");

    let schema2 = TableSchema::new("Note", Some("notes".to_string()), vec![field("body", "String", false)]);
    assert!(validate(schema2).is_err());
}

#[test]
fn table_name_resolution() {
    // Without an explicit name the record type's own name is lowercased; an
    // explicit name takes precedence.
    let implicit = TableSchema::new("ServerPermission", None, vec![field("id", "i64", true)]);
    assert_eq!(implicit.table_name, "serverpermission");

    let explicit = TableSchema::new(
        "ServerPermission",
        Some("server_permission".to_string()),
        vec![field("id", "i64", true)],
    );
    assert_eq!(explicit.table_name, "server_permission");
}

#[test]
fn argument_order_lengths() {
    // Two primary-key fields among four: lookups and deletion bind 2 values,
    // insertion and update bind all 4, listing binds none.
    let schema = TableSchema::new(
        "Membership",
        None,
        vec![
            field("guild_id", "i64", true),
            field("user_id", "i64", true),
            field("joined_at", "i64", false),
            field("nickname", "String", false),
        ],
    );
    let plans = generate(schema).unwrap();
    assert_eq!(plans.get.argument_order.len(), 2);
    assert_eq!(plans.get_optional.argument_order.len(), 2);
    assert_eq!(plans.delete.argument_order.len(), 2);
    assert_eq!(plans.create.argument_order.len(), 4);
    assert_eq!(plans.update.argument_order.len(), 4);
    assert_eq!(plans.list.argument_order.len(), 0);
}

#[test]
fn placeholder_count_matches_argument_order() {
    let schema = TableSchema::new(
        "Membership",
        None,
        vec![
            field("guild_id", "i64", true),
            field("user_id", "i64", true),
            field("joined_at", "i64", false),
            field("nickname", "String", false),
        ],
    );
    let plans = generate(schema).unwrap();
    for plan in [
        &plans.get,
        &plans.get_optional,
        &plans.create,
        &plans.update,
        &plans.delete,
        &plans.list,
    ] {
        let markers = plan.sql_text.chars().filter(|c| *c == '$').count();
        assert_eq!(markers, plan.argument_order.len());
    }
}

#[test]
fn update_binds_keys_first() {
    let schema = TableSchema::new(
        "Event",
        None,
        vec![
            field("series", "String", true),
            field("title", "String", false),
            field("seq_no", "i64", true),
            field("place", "String", false),
        ],
    );
    let plans = generate(schema).unwrap();
    // Primary-key fields first in declaration order, then the rest in
    // declaration order, regardless of interleaving in the declaration.
    assert_eq!(plans.update.argument_order, args(&["series", "seq_no", "title", "place"]));
    assert_eq!(
        plans.update.sql_text,
        "UPDATE event SET (title, place) = ($3, $4) WHERE series = $1 AND seq_no = $2 RETURNING *"
    );
}

#[test]
fn placeholders_reach_two_digits() {
    let names = [
        "c1", "c2", "c3", "c4", "c5", "c6", "c7", "c8", "c9", "c10", "c11", "c12",
    ];
    let mut fields = Vec::new();
    for (i, n) in names.iter().enumerate() {
        fields.push(field(n, "i64", i == 0));
    }
    let plans = generate(TableSchema::new("Wide", None, fields)).unwrap();
    assert_eq!(
        plans.create.sql_text,
        "INSERT INTO wide (c1, c2, c3, c4, c5, c6, c7, c8, c9, c10, c11, c12) \
         VALUES ($1, $2, $3, $4, $5, $6, $7, $8, $9, $10, $11, $12) RETURNING *"
    );
    assert_eq!(
        plans.update.sql_text,
        "UPDATE wide SET (c2, c3, c4, c5, c6, c7, c8, c9, c10, c11, c12) \
         = ($2, $3, $4, $5, $6, $7, $8, $9, $10, $11, $12) WHERE c1 = $1 RETURNING *"
    );
}

#[test]
fn plans_are_pure_functions_of_the_schema() {
    let make = || {
        TableSchema::new(
            "Guild",
            Some("guild".to_string()),
            vec![field("guild_id", "i64", true), field("name", "String", false)],
        )
    };
    let a = generate(make()).unwrap();
    let b = generate(make()).unwrap();
    assert_eq!(a, b);
}
