use tailscale::migrate::{migrate, MigrateError};
use tailscale::schema::{
    diff, schema_doc_to_gql_objects, schema_type_to_gql_type, Definition, Document, FieldDef,
    GQLField, GQLObjectType, GQLType, MigrationStep, SchemaType,
};

fn named(n: &str) -> SchemaType {
    SchemaType::Named(n.to_string())
}

fn non_null(t: SchemaType) -> SchemaType {
    SchemaType::NonNull(Box::new(t))
}

fn list(t: SchemaType) -> SchemaType {
    SchemaType::List(Box::new(t))
}

fn field(name: &str, ty: GQLType) -> GQLField {
    GQLField { name: name.to_string(), ty, required: false, array: false }
}

fn table(name: &str, fields: Vec<GQLField>) -> GQLObjectType {
    GQLObjectType { name: name.to_string(), fields }
}

fn field_def(name: &str, t: SchemaType) -> FieldDef {
    FieldDef { name: name.to_string(), field_type: t }
}

#[test]
fn test_migrate() -> Result<(), MigrateError> {
    migrate(
        r#"
        type User {
            id: ID!
            name: Name
        }
    "#,
    )
}

#[test]
fn migrate_refuses_non_schema_text() {
    assert!(migrate("").is_err());
    assert!(migrate("type {").is_err());
    assert!(migrate("type User { id: ID! }").is_ok());
}

#[test]
fn scalar_types() {
    assert_eq!(schema_type_to_gql_type(&named("Int")), (GQLType::Int, false, false));
    assert_eq!(schema_type_to_gql_type(&named("Boolean")), (GQLType::Boolean, false, false));
    assert_eq!(schema_type_to_gql_type(&named("String")), (GQLType::String, false, false));
    assert_eq!(schema_type_to_gql_type(&named("Float")), (GQLType::Float, false, false));
    assert_eq!(schema_type_to_gql_type(&named("ID")), (GQLType::ID, false, false));
    assert_eq!(
        schema_type_to_gql_type(&named("Name")),
        (GQLType::Named("Name".to_string()), false, false)
    );
    assert_eq!(
        schema_type_to_gql_type(&named("int")),
        (GQLType::Named("int".to_string()), false, false)
    );
}

#[test]
fn wrapped_types() {
    assert_eq!(schema_type_to_gql_type(&non_null(named("ID"))), (GQLType::ID, true, false));
    assert_eq!(schema_type_to_gql_type(&list(named("Int"))), (GQLType::Int, false, true));
    assert_eq!(schema_type_to_gql_type(&list(non_null(named("Int")))), (GQLType::Int, true, true));
    assert_eq!(schema_type_to_gql_type(&non_null(list(named("Int")))), (GQLType::Int, true, true));
}

#[test]
fn document_to_tables() {
    let doc = Document {
        definitions: vec![
            Definition::Object {
                name: "User".to_string(),
                fields: vec![
                    field_def("id", non_null(named("ID"))),
                    field_def("name", named("Name")),
                    field_def("id", named("Int")),
                ],
            },
            Definition::Other,
            Definition::Object { name: "User".to_string(), fields: vec![] },
            Definition::Object {
                name: "Post".to_string(),
                fields: vec![field_def("tags", list(named("String")))],
            },
        ],
    };
    let tables = schema_doc_to_gql_objects(&doc);
    assert_eq!(tables.len(), 2);
    assert_eq!(tables[0].name, "User");
    assert_eq!(tables[0].fields.len(), 2);
    assert_eq!(tables[0].fields[0].name, "id");
    assert_eq!(tables[0].fields[0].ty, GQLType::ID);
    assert!(tables[0].fields[0].required);
    assert_eq!(tables[0].fields[1].name, "name");
    assert_eq!(tables[0].fields[1].ty, GQLType::Named("Name".to_string()));
    assert_eq!(tables[1].name, "Post");
    assert_eq!(tables[1].fields[0].ty, GQLType::String);
    assert!(tables[1].fields[0].array);
}

#[test]
fn empty_document_has_no_tables() {
    assert!(schema_doc_to_gql_objects(&Document { definitions: vec![] }).is_empty());
}

#[test]
fn diff_creates_and_deletes_tables() {
    let original = vec![table("User", vec![]), table("Old", vec![])];
    let new = vec![table("User", vec![]), table("Post", vec![])];
    let steps = diff(&original, &new);
    assert_eq!(steps.len(), 2);
    assert!(matches!(steps[0], MigrationStep::CreateTable(t) if t.name == "Post"));
    assert!(matches!(steps[1], MigrationStep::DeleteTable("Old")));
}

#[test]
fn diff_adds_and_removes_columns() {
    let original = vec![table("User", vec![field("id", GQLType::ID), field("age", GQLType::Int)])];
    let new = vec![table(
        "User",
        vec![field("id", GQLType::ID), field("name", GQLType::String), field("email", GQLType::String)],
    )];
    let steps = diff(&original, &new);
    assert_eq!(steps.len(), 3);
    assert!(matches!(steps[0], MigrationStep::AddColumn(f) if f.name == "name"));
    assert!(matches!(steps[1], MigrationStep::AddColumn(f) if f.name == "email"));
    assert!(matches!(steps[2], MigrationStep::RemoveColumn));
}

#[test]
fn diff_of_equal_schemas_is_empty() {
    let a = vec![table("User", vec![field("id", GQLType::ID)])];
    let b = vec![table("User", vec![field("id", GQLType::Int)])];
    assert!(diff(&a, &a).is_empty());
    assert!(diff(&a, &b).is_empty());
    assert!(diff(&vec![], &vec![]).is_empty());
}

#[test]
fn diff_orders_creates_deletes_then_columns() {
    let original = vec![table("A", vec![field("x", GQLType::Int)]), table("B", vec![])];
    let new = vec![table("C", vec![]), table("A", vec![field("y", GQLType::Int)])];
    let steps = diff(&original, &new);
    assert_eq!(steps.len(), 4);
    assert!(matches!(steps[0], MigrationStep::CreateTable(t) if t.name == "C"));
    assert!(matches!(steps[1], MigrationStep::DeleteTable("B")));
    assert!(matches!(steps[2], MigrationStep::AddColumn(f) if f.name == "y"));
    assert!(matches!(steps[3], MigrationStep::RemoveColumn));
}
