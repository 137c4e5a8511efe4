//! Object types of a GraphQL schema, reduced to what tables and columns need,
//! and the migration steps between two versions of a schema.
use vstd::prelude::*;
use vstd::string::StrSliceExecFns;

verus! {

/// A field's type as a schema writes it.
pub enum SchemaType {
    Named(String),
    NonNull(Box<SchemaType>),
    List(Box<SchemaType>),
}

/// A field of an object type, as a schema writes it.
pub struct FieldDef {
    pub name: String,
    pub field_type: SchemaType,
}

/// A top-level definition of a schema document.
pub enum Definition {
    Object { name: String, fields: Vec<FieldDef> },
    /// Any other definition: a scalar, an interface, a directive, ...
    Other,
}

/// A parsed schema document.
pub struct Document {
    pub definitions: Vec<Definition>,
}

/// A column's base type.
#[derive(PartialEq, Eq, Debug)]
pub enum GQLType {
    Int,
    Boolean,
    String,
    Float,
    ID,
    Named(String),
}

/// A column: a field of an object type, with its base type, whether a value
/// is required, and whether it holds a list.
#[derive(Debug)]
pub struct GQLField {
    pub name: String,
    pub ty: GQLType,
    pub required: bool,
    pub array: bool,
}

/// A table: an object type, with its fields unique by name.
#[derive(Debug)]
pub struct GQLObjectType {
    pub name: String,
    pub fields: Vec<GQLField>,
}

/// The base type that a type name stands for.
pub open spec fn scalar_of(n: String) -> GQLType {
    if n@ == "Int"@ {
        GQLType::Int
    } else if n@ == "Boolean"@ {
        GQLType::Boolean
    } else if n@ == "String"@ {
        GQLType::String
    } else if n@ == "Float"@ {
        GQLType::Float
    } else if n@ == "ID"@ {
        GQLType::ID
    } else {
        GQLType::Named(n)
    }
}

/// A schema type as a column type: the base type; `required` when the
/// outermost non-null wrapper, or, under a list, that of the list's items,
/// says so; `array` when a list wraps it at some depth, non-null wrappers
/// looked through.
pub open spec fn gql_of(t: SchemaType) -> (GQLType, bool, bool)
    decreases t,
{
    match t {
        SchemaType::Named(n) => (scalar_of(n), false, false),
        SchemaType::NonNull(inner) => {
            let g = gql_of(*inner);
            (g.0, true, g.2)
        },
        SchemaType::List(inner) => {
            let g = gql_of(*inner);
            (g.0, g.1, true)
        },
    }
}

fn str_eq(a: &str, b: &str) -> (r: bool)
    ensures
        r == (a@ == b@),
{
    let n = a.unicode_len();
    if n != b.unicode_len() {
        return false;
    }
    let mut i: usize = 0;
    while i < n
        invariant
            n == a@.len(),
            n == b@.len(),
            0 <= i <= n,
            forall|j: int| 0 <= j < i ==> a@[j] == b@[j],
        decreases n - i,
    {
        if a.get_char(i) != b.get_char(i) {
            return false;
        }
        i = i + 1;
    }
    assert(a@ =~= b@);
    true
}

fn scalar_type(name: &String) -> (r: GQLType)
    ensures
        r == scalar_of(*name),
{
    proof {
        reveal_strlit("Int");
        reveal_strlit("Boolean");
        reveal_strlit("String");
        reveal_strlit("Float");
        reveal_strlit("ID");
    }
    if str_eq(name.as_str(), "Int") {
        GQLType::Int
    } else if str_eq(name.as_str(), "Boolean") {
        GQLType::Boolean
    } else if str_eq(name.as_str(), "String") {
        GQLType::String
    } else if str_eq(name.as_str(), "Float") {
        GQLType::Float
    } else if str_eq(name.as_str(), "ID") {
        GQLType::ID
    } else {
        GQLType::Named(name.clone())
    }
}

/// A schema type as a column type, with its `required` and `array` flags.
pub fn schema_type_to_gql_type(ty: &SchemaType) -> (r: (GQLType, bool, bool))
    ensures
        r == gql_of(*ty),
    decreases ty,
{
    match ty {
        SchemaType::Named(name) => (scalar_type(name), false, false),
        SchemaType::NonNull(inner) => {
            let (g, _, array) = schema_type_to_gql_type(inner);
            (g, true, array)
        },
        SchemaType::List(inner) => {
            let (g, required, _) = schema_type_to_gql_type(inner);
            (g, required, true)
        },
    }
}


/// The first position in `os` of an object type with the given name.
pub open spec fn find_object(os: Seq<GQLObjectType>, n: Seq<char>) -> Option<int>
    decreases os.len(),
{
    if os.len() == 0 {
        None
    } else {
        match find_object(os.drop_last(), n) {
            Some(i) => Some(i),
            None => if os.last().name@ == n {
                Some(os.len() - 1)
            } else {
                None
            },
        }
    }
}

/// Whether `fs` has a field with the given name.
pub open spec fn has_field(fs: Seq<GQLField>, n: Seq<char>) -> bool {
    exists|i: int| 0 <= i < fs.len() && #[trigger] fs[i].name@ == n
}

/// No two columns share a name.
pub open spec fn fields_unique(fs: Seq<GQLField>) -> bool {
    forall|i: int, j: int| 0 <= i < j < fs.len() ==> #[trigger] fs[i].name@ != #[trigger] fs[j].name@
}

/// Tables as a schema version holds them: no two share a name, and within
/// each no two columns do.
pub open spec fn tables_wf(os: Seq<GQLObjectType>) -> bool {
    &&& forall|i: int, j: int| 0 <= i < j < os.len() ==> #[trigger] os[i].name@ != #[trigger] os[j].name@
    &&& forall|i: int| 0 <= i < os.len() ==> fields_unique(#[trigger] os[i].fields@)
}

/// A field definition as a column.
pub open spec fn column_of(f: FieldDef, c: GQLField) -> bool {
    c.name == f.name && (c.ty, c.required, c.array) == gql_of(f.field_type)
}

/// The field definitions that become columns: the first of each name, in order.
pub open spec fn first_fields(fs: Seq<FieldDef>) -> Seq<FieldDef>
    decreases fs.len(),
{
    if fs.len() == 0 {
        Seq::empty()
    } else {
        let prev = first_fields(fs.drop_last());
        if exists|i: int| 0 <= i < prev.len() && #[trigger] prev[i].name@ == fs.last().name@ {
            prev
        } else {
            prev.push(fs.last())
        }
    }
}

/// Whether `cs` are the columns of the field definitions `fs`.
pub open spec fn columns_of(fs: Seq<FieldDef>, cs: Seq<GQLField>) -> bool {
    let firsts = first_fields(fs);
    cs.len() == firsts.len() && forall|i: int| 0 <= i < cs.len() ==> column_of(#[trigger] firsts[i], cs[i])
}

fn field_position(fs: &Vec<GQLField>, n: &String) -> (r: Option<usize>)
    ensures
        r is Some ==> r->0 < fs@.len() && fs@[r->0 as int].name@ == n@,
        r is None ==> !has_field(fs@, n@),
{
    let mut i: usize = 0;
    while i < fs.len()
        invariant
            0 <= i <= fs@.len(),
            forall|j: int| 0 <= j < i ==> fs@[j].name@ != n@,
        decreases fs@.len() - i,
    {
        if fs[i].name == *n {
            return Some(i);
        }
        i = i + 1;
    }
    None
}

proof fn lemma_first_fields_push(fs: Seq<FieldDef>, k: int)
    requires
        0 <= k < fs.len(),
    ensures
        first_fields(fs.take(k + 1)) == ({
            let prev = first_fields(fs.take(k));
            if exists|i: int| 0 <= i < prev.len() && #[trigger] prev[i].name@ == fs[k].name@ {
                prev
            } else {
                prev.push(fs[k])
            }
        }),
{
    assert(fs.take(k + 1).drop_last() =~= fs.take(k));
}

/// The columns of a list of field definitions: the first of each name, in order.
pub fn fields_to_columns(fs: &Vec<FieldDef>) -> (r: Vec<GQLField>)
    ensures
        columns_of(fs@, r@),
        fields_unique(r@),
{
    let mut cs: Vec<GQLField> = Vec::new();
    let mut k: usize = 0;
    while k < fs.len()
        invariant
            0 <= k <= fs@.len(),
            columns_of(fs@.take(k as int), cs@),
            fields_unique(cs@),
        decreases fs@.len() - k,
    {
        let f = &fs[k];
        let ghost prev = first_fields(fs@.take(k as int));
        proof {
            lemma_first_fields_push(fs@, k as int);
        }
        match field_position(&cs, &f.name) {
            Some(p) => {
                assert(prev[p as int].name@ == f.name@);
            },
            None => {
                assert forall|i: int| 0 <= i < prev.len() implies #[trigger] prev[i].name@ != f.name@ by {
                    assert(column_of(prev[i], cs@[i]));
                    assert(cs@[i].name@ == prev[i].name@);
                }
                let (ty, required, array) = schema_type_to_gql_type(&f.field_type);
                let ghost before = cs@;
                cs.push(GQLField { name: f.name.clone(), ty, required, array });
                assert forall|i: int, j: int| 0 <= i < j < cs@.len() implies #[trigger] cs@[i].name@
                    != #[trigger] cs@[j].name@ by {
                    if j == before.len() {
                        assert(cs@[i] == before[i]);
                    } else {
                        assert(cs@[i] == before[i] && cs@[j] == before[j]);
                    }
                }
            },
        }
        assert(fs@.take(k + 1) =~= fs@.take(k as int + 1));
        k = k + 1;
    }
    assert(fs@.take(fs@.len() as int) =~= fs@);
    cs
}


/// The object types of a list of definitions that become tables: the first
/// of each name, in order, each with its name and field definitions.
pub open spec fn first_objects(ds: Seq<Definition>) -> Seq<(String, Seq<FieldDef>)>
    decreases ds.len(),
{
    if ds.len() == 0 {
        Seq::empty()
    } else {
        let prev = first_objects(ds.drop_last());
        match ds.last() {
            Definition::Object { name, fields } => {
                if exists|i: int| 0 <= i < prev.len() && #[trigger] prev[i].0@ == name@ {
                    prev
                } else {
                    prev.push((name, fields@))
                }
            },
            Definition::Other => prev,
        }
    }
}

/// Whether `os` are the tables of the definitions `ds`.
pub open spec fn objects_of(ds: Seq<Definition>, os: Seq<GQLObjectType>) -> bool {
    let firsts = first_objects(ds);
    os.len() == firsts.len() && forall|i: int|
        0 <= i < os.len() ==> (#[trigger] os[i]).name == firsts[i].0 && columns_of(firsts[i].1, os[i].fields@)
}

fn object_position(os: &Vec<GQLObjectType>, n: &String) -> (r: Option<usize>)
    ensures
        r is Some ==> find_object(os@, n@) == Some(r->0 as int),
        r is None ==> find_object(os@, n@) is None,
{
    let mut i: usize = 0;
    while i < os.len()
        invariant
            0 <= i <= os@.len(),
            find_object(os@.take(i as int), n@) is None,
        decreases os@.len() - i,
    {
        assert(os@.take(i + 1).drop_last() =~= os@.take(i as int));
        if os[i].name == *n {
            proof {
                lemma_find_extends(os@, n@, i as int + 1);
            }
            return Some(i);
        }
        i = i + 1;
    }
    assert(os@.take(os@.len() as int) =~= os@);
    None
}

proof fn lemma_find_extends(os: Seq<GQLObjectType>, n: Seq<char>, k: int)
    requires
        0 <= k <= os.len(),
        find_object(os.take(k), n) is Some,
    ensures
        find_object(os, n) == find_object(os.take(k), n),
    decreases os.len() - k,
{
    if k < os.len() {
        assert(os.take(k + 1).drop_last() =~= os.take(k));
        lemma_find_extends(os, n, k + 1);
    } else {
        assert(os.take(k) =~= os);
    }
}

/// The tables of a schema document: one per object type name, the first
/// definition of a name kept, each with the columns of its fields.
pub fn schema_doc_to_gql_objects(ast: &Document) -> (r: Vec<GQLObjectType>)
    ensures
        objects_of(ast.definitions@, r@),
        tables_wf(r@),
{
    let ds = &ast.definitions;
    let mut os: Vec<GQLObjectType> = Vec::new();
    let mut k: usize = 0;
    while k < ds.len()
        invariant
            0 <= k <= ds@.len(),
            objects_of(ds@.take(k as int), os@),
            tables_wf(os@),
        decreases ds@.len() - k,
    {
        let ghost prev = first_objects(ds@.take(k as int));
        assert(ds@.take(k + 1).drop_last() =~= ds@.take(k as int));
        match &ds[k] {
            Definition::Object { name, fields } => {
                match object_position(&os, name) {
                    Some(p) => {
                        proof {
                            lemma_find_found(os@, name@, p as int);
                        }
                        assert(prev[p as int].0@ == name@);
                    },
                    None => {
                        assert forall|i: int| 0 <= i < prev.len() implies #[trigger] prev[i].0@ != name@ by {
                            assert(os@[i].name == prev[i].0);
                            if prev[i].0@ == name@ {
                                lemma_find_none(os@, name@, i);
                            }
                        }
                        let cs = fields_to_columns(fields);
                        let ghost before = os@;
                        os.push(GQLObjectType { name: name.clone(), fields: cs });
                        assert forall|i: int, j: int| 0 <= i < j < os@.len() implies #[trigger] os@[i].name@
                            != #[trigger] os@[j].name@ by {
                            if j == before.len() {
                                lemma_find_none(before, name@, i);
                                assert(os@[i] == before[i]);
                            } else {
                                assert(os@[i] == before[i] && os@[j] == before[j]);
                            }
                        }
                        assert forall|i: int| 0 <= i < os@.len() implies fields_unique(#[trigger] os@[i].fields@) by {
                            if i < before.len() {
                                assert(os@[i] == before[i]);
                            }
                        }
                    },
                }
            },
            Definition::Other => {},
        }
        assert(ds@.take(k + 1) =~= ds@.take(k as int + 1));
        k = k + 1;
    }
    assert(ds@.take(ds@.len() as int) =~= ds@);
    os
}

proof fn lemma_find_found(os: Seq<GQLObjectType>, n: Seq<char>, p: int)
    requires
        find_object(os, n) == Some(p),
    ensures
        0 <= p < os.len(),
        os[p].name@ == n,
    decreases os.len(),
{
    if os.len() > 0 {
        match find_object(os.drop_last(), n) {
            Some(i) => {
                lemma_find_found(os.drop_last(), n, p);
            },
            None => {},
        }
    }
}

proof fn lemma_find_none(os: Seq<GQLObjectType>, n: Seq<char>, i: int)
    requires
        find_object(os, n) is None,
        0 <= i < os.len(),
    ensures
        os[i].name@ != n,
    decreases os.len(),
{
    if i < os.len() - 1 {
        lemma_find_none(os.drop_last(), n, i);
    }
}


/// One step of a migration between two versions of a schema.
#[derive(Debug)]
pub enum MigrationStep<'a> {
    CreateTable(&'a GQLObjectType),
    DeleteTable(&'a str),
    AddColumn(&'a GQLField),
    ModifyColumn(&'a GQLField),
    RemoveColumn,
}

/// A migration step as the model states it, with what it carries by value.
pub enum Planned {
    Create(GQLObjectType),
    Delete(GQLObjectType),
    Add(GQLField),
    Remove,
}

/// Whether the step `st` is the planned step `p`: a table or column carried
/// by reference is the one planned, a deleted table is named by its name.
pub open spec fn describes(st: MigrationStep, p: Planned) -> bool {
    match p {
        Planned::Create(o) => st is CreateTable && *st->CreateTable_0 == o,
        Planned::Delete(o) => st is DeleteTable && st->DeleteTable_0@ == o.name@,
        Planned::Add(c) => st is AddColumn && *st->AddColumn_0 == c,
        Planned::Remove => st is RemoveColumn,
    }
}

pub open spec fn follows(steps: Seq<MigrationStep>, plan: Seq<Planned>) -> bool {
    steps.len() == plan.len() && forall|i: int| 0 <= i < steps.len() ==> describes(#[trigger] steps[i], plan[i])
}

/// A creation for each table of `new` whose name `original` lacks, in order.
pub open spec fn create_plan(new: Seq<GQLObjectType>, original: Seq<GQLObjectType>) -> Seq<Planned>
    decreases new.len(),
{
    if new.len() == 0 {
        Seq::empty()
    } else {
        let prev = create_plan(new.drop_last(), original);
        if find_object(original, new.last().name@) is None {
            prev.push(Planned::Create(new.last()))
        } else {
            prev
        }
    }
}

/// A deletion for each table of `original` whose name `new` lacks, in order.
pub open spec fn delete_plan(original: Seq<GQLObjectType>, new: Seq<GQLObjectType>) -> Seq<Planned>
    decreases original.len(),
{
    if original.len() == 0 {
        Seq::empty()
    } else {
        let prev = delete_plan(original.drop_last(), new);
        if find_object(new, original.last().name@) is None {
            prev.push(Planned::Delete(original.last()))
        } else {
            prev
        }
    }
}

/// An added column for each column of `new_cs` whose name `old_cs` lacks, in order.
pub open spec fn add_plan(new_cs: Seq<GQLField>, old_cs: Seq<GQLField>) -> Seq<Planned>
    decreases new_cs.len(),
{
    if new_cs.len() == 0 {
        Seq::empty()
    } else {
        let prev = add_plan(new_cs.drop_last(), old_cs);
        if !has_field(old_cs, new_cs.last().name@) {
            prev.push(Planned::Add(new_cs.last()))
        } else {
            prev
        }
    }
}

/// A removal for each column of `old_cs` whose name `new_cs` lacks.
pub open spec fn remove_plan(old_cs: Seq<GQLField>, new_cs: Seq<GQLField>) -> Seq<Planned>
    decreases old_cs.len(),
{
    if old_cs.len() == 0 {
        Seq::empty()
    } else {
        let prev = remove_plan(old_cs.drop_last(), new_cs);
        if !has_field(new_cs, old_cs.last().name@) {
            prev.push(Planned::Remove)
        } else {
            prev
        }
    }
}

/// For each table of `new` that `original` has too, in order: its added
/// columns, then its removed ones.
pub open spec fn column_plan(new: Seq<GQLObjectType>, original: Seq<GQLObjectType>) -> Seq<Planned>
    decreases new.len(),
{
    if new.len() == 0 {
        Seq::empty()
    } else {
        let prev = column_plan(new.drop_last(), original);
        match find_object(original, new.last().name@) {
            Some(j) => prev + add_plan(new.last().fields@, original[j].fields@) + remove_plan(
                original[j].fields@,
                new.last().fields@,
            ),
            None => prev,
        }
    }
}

/// The migration from `original` to `new`: the tables to create, then those
/// to delete, then the columns to add and remove in the tables that stay.
pub open spec fn diff_plan(original: Seq<GQLObjectType>, new: Seq<GQLObjectType>) -> Seq<Planned> {
    create_plan(new, original) + delete_plan(original, new) + column_plan(new, original)
}

proof fn lemma_follows_push(steps: Seq<MigrationStep>, plan: Seq<Planned>, st: MigrationStep, p: Planned)
    requires
        follows(steps, plan),
        describes(st, p),
    ensures
        follows(steps.push(st), plan.push(p)),
{
    assert forall|i: int| 0 <= i < steps.len() + 1 implies describes(#[trigger] steps.push(st)[i], plan.push(p)[i]) by {
        if i < steps.len() {
            assert(steps.push(st)[i] == steps[i]);
        }
    }
}

/// The steps that migrate tables `original` to tables `new`, each name
/// standing for one table, and within a table for one column.
pub fn diff<'a>(original: &'a Vec<GQLObjectType>, new: &'a Vec<GQLObjectType>) -> (r: Vec<MigrationStep<'a>>)
    requires
        tables_wf(original@),
        tables_wf(new@),
    ensures
        follows(r@, diff_plan(original@, new@)),
{
    let mut steps: Vec<MigrationStep<'a>> = Vec::new();
    let mut i: usize = 0;
    while i < new.len()
        invariant
            0 <= i <= new@.len(),
            follows(steps@, create_plan(new@.take(i as int), original@)),
        decreases new@.len() - i,
    {
        assert(new@.take(i + 1).drop_last() =~= new@.take(i as int));
        if object_position(original, &new[i].name).is_none() {
            proof {
                lemma_follows_push(steps@, create_plan(new@.take(i as int), original@),
                    MigrationStep::CreateTable(&new@[i as int]), Planned::Create(new@[i as int]));
            }
            steps.push(MigrationStep::CreateTable(&new[i]));
        }
        i = i + 1;
    }
    assert(new@.take(new@.len() as int) =~= new@);
    let ghost creates = create_plan(new@, original@);
    let mut i: usize = 0;
    while i < original.len()
        invariant
            0 <= i <= original@.len(),
            creates == create_plan(new@, original@),
            follows(steps@, creates + delete_plan(original@.take(i as int), new@)),
        decreases original@.len() - i,
    {
        assert(original@.take(i + 1).drop_last() =~= original@.take(i as int));
        if object_position(new, &original[i].name).is_none() {
            let nm = original[i].name.as_str();
            let ghost plan = creates + delete_plan(original@.take(i as int), new@);
            proof {
                lemma_follows_push(steps@, plan, MigrationStep::DeleteTable(nm), Planned::Delete(original@[i as int]));
                assert(plan.push(Planned::Delete(original@[i as int])) =~= creates + delete_plan(original@.take(i + 1), new@));
            }
            steps.push(MigrationStep::DeleteTable(nm));
        }
        i = i + 1;
    }
    assert(original@.take(original@.len() as int) =~= original@);
    let ghost head = creates + delete_plan(original@, new@);
    let mut i: usize = 0;
    while i < new.len()
        invariant
            0 <= i <= new@.len(),
            head == create_plan(new@, original@) + delete_plan(original@, new@),
            follows(steps@, head + column_plan(new@.take(i as int), original@)),
        decreases new@.len() - i,
    {
        assert(new@.take(i + 1).drop_last() =~= new@.take(i as int));
        let new_obj = &new[i];
        match object_position(original, &new_obj.name) {
            Some(j) => {
                proof {
                    lemma_find_found(original@, new_obj.name@, j as int);
                }
                let original_obj = &original[j];
                let ghost base = head + column_plan(new@.take(i as int), original@);
                let mut k: usize = 0;
                while k < new_obj.fields.len()
                    invariant
                        0 <= k <= new_obj.fields@.len(),
                        follows(steps@, base + add_plan(new_obj.fields@.take(k as int), original_obj.fields@)),
                    decreases new_obj.fields@.len() - k,
                {
                    assert(new_obj.fields@.take(k + 1).drop_last() =~= new_obj.fields@.take(k as int));
                    if field_position(&original_obj.fields, &new_obj.fields[k].name).is_none() {
                        let ghost plan = base + add_plan(new_obj.fields@.take(k as int), original_obj.fields@);
                        proof {
                            lemma_follows_push(steps@, plan,
                                MigrationStep::AddColumn(&new_obj.fields@[k as int]), Planned::Add(new_obj.fields@[k as int]));
                            assert(plan.push(Planned::Add(new_obj.fields@[k as int])) =~= base + add_plan(new_obj.fields@.take(k + 1), original_obj.fields@));
                        }
                        steps.push(MigrationStep::AddColumn(&new_obj.fields[k]));
                    }
                    k = k + 1;
                }
                assert(new_obj.fields@.take(new_obj.fields@.len() as int) =~= new_obj.fields@);
                let ghost base2 = base + add_plan(new_obj.fields@, original_obj.fields@);
                let mut k: usize = 0;
                while k < original_obj.fields.len()
                    invariant
                        0 <= k <= original_obj.fields@.len(),
                        follows(steps@, base2 + remove_plan(original_obj.fields@.take(k as int), new_obj.fields@)),
                    decreases original_obj.fields@.len() - k,
                {
                    assert(original_obj.fields@.take(k + 1).drop_last() =~= original_obj.fields@.take(k as int));
                    if field_position(&new_obj.fields, &original_obj.fields[k].name).is_none() {
                        let ghost plan = base2 + remove_plan(original_obj.fields@.take(k as int), new_obj.fields@);
                        proof {
                            lemma_follows_push(steps@, plan, MigrationStep::RemoveColumn, Planned::Remove);
                            assert(plan.push(Planned::Remove) =~= base2 + remove_plan(original_obj.fields@.take(k + 1), new_obj.fields@));
                        }
                        steps.push(MigrationStep::RemoveColumn);
                    }
                    k = k + 1;
                }
                assert(original_obj.fields@.take(original_obj.fields@.len() as int) =~= original_obj.fields@);
                assert(base2 + remove_plan(original_obj.fields@, new_obj.fields@) =~= head + column_plan(new@.take(i + 1), original@));
            },
            None => {
                assert(column_plan(new@.take(i + 1), original@) == column_plan(new@.take(i as int), original@));
            },
        }
        i = i + 1;
    }
    assert(new@.take(new@.len() as int) =~= new@);
    steps
}

} // verus!
