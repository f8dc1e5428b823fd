//! Additions to a project that is already there: a workflow file, or a
//! benchmark with what its manifest needs.
//!
//! The library decides what is to be done: which file is made from which
//! template, and how the manifest of the `core` module is changed. Reading and
//! writing the files is left to the caller.

use crate::error::{BootsError, ErrorView};
use crate::text::{concat2, opt_view, str_eq};
use vstd::prelude::*;

verus! {

/// The directory, under the home of cargo, in which the tool that fetches
/// remote templates keeps what it fetched.
pub const CACHE_DIR: &'static str = "cargo-generate";

/// The directory of this project's template under [`CACHE_DIR`].
pub const CACHE_NAME: &'static str = "boots-template";

/// What adding a target to a project asks for.
#[derive(Debug)]
pub struct AddPlan {
    /// The file that is made, relative to the project's root. It must not be
    /// there yet.
    pub target: String,
    /// The directory of `target`, which is made where it is missing.
    pub directory: String,
    /// The template that `target` is a copy of, relative to the cached
    /// template.
    pub template: String,
    /// The manifest that must name the benchmark library and the benchmark
    /// before `target` is made, where there is one.
    pub manifest: Option<String>,
}

/// An [`AddPlan`] with its strings as sequences of characters.
pub struct AddPlanView {
    pub target: Seq<char>,
    pub directory: Seq<char>,
    pub template: Seq<char>,
    pub manifest: Option<Seq<char>>,
}

impl View for AddPlan {
    type V = AddPlanView;

    open spec fn view(&self) -> AddPlanView {
        AddPlanView {
            target: self.target@,
            directory: self.directory@,
            template: self.template@,
            manifest: match self.manifest {
                Some(m) => Some(m@),
                None => None,
            },
        }
    }
}

/// The plan of a workflow file named `file`.
pub open spec fn workflow_plan_of(file: Seq<char>) -> AddPlanView {
    AddPlanView {
        target: ".github/workflows/"@ + file,
        directory: ".github/workflows"@,
        template: ".github/workflows/"@ + file,
        manifest: None,
    }
}

/// What adding `target` asks for; an error that quotes `target` where it is
/// not one of the four targets.
pub open spec fn add_spec(target: Seq<char>) -> Result<AddPlanView, ErrorView> {
    if target == "gh:test"@ {
        Ok(workflow_plan_of("test.yml"@))
    } else if target == "gh:build"@ {
        Ok(workflow_plan_of("build.yml"@))
    } else if target == "gh:semver"@ {
        Ok(workflow_plan_of("semver.yml"@))
    } else if target == "test:perf"@ {
        Ok(
            AddPlanView {
                target: "crates/core/benches/benchmark.rs"@,
                directory: "crates/core/benches"@,
                template: "benches/benchmark.rs"@,
                manifest: Some("crates/core/Cargo.toml"@),
            },
        )
    } else {
        Err(ErrorView::Other("Unknown target: "@ + target))
    }
}

/// The outcome of [`add`] with its strings as sequences of characters.
pub open spec fn add_view(r: Result<AddPlan, BootsError>) -> Result<AddPlanView, ErrorView> {
    match r {
        Ok(plan) => Ok(plan@),
        Err(e) => Err(e@),
    }
}

/// The plan of a workflow file named `file`.
fn workflow_plan(file: &str) -> (r: AddPlan)
    ensures
        r@ == workflow_plan_of(file@),
{
    AddPlan {
        target: concat2(".github/workflows/", file),
        directory: String::from_str(".github/workflows"),
        template: concat2(".github/workflows/", file),
        manifest: None,
    }
}

/// What adding `target` to a project asks for.
pub fn add(target: &str) -> (r: Result<AddPlan, BootsError>)
    ensures
        add_view(r) == add_spec(target@),
{
    if str_eq(target, "gh:test") {
        Ok(workflow_plan("test.yml"))
    } else if str_eq(target, "gh:build") {
        Ok(workflow_plan("build.yml"))
    } else if str_eq(target, "gh:semver") {
        Ok(workflow_plan("semver.yml"))
    } else if str_eq(target, "test:perf") {
        Ok(
            AddPlan {
                target: String::from_str("crates/core/benches/benchmark.rs"),
                directory: String::from_str("crates/core/benches"),
                template: String::from_str("benches/benchmark.rs"),
                manifest: Some(String::from_str("crates/core/Cargo.toml")),
            },
        )
    } else {
        Err(BootsError::Other(concat2("Unknown target: ", target)))
    }
}

/// Refuses to make a file that is already there.
pub fn guard_new(path: &str, exists: bool) -> (r: Result<(), BootsError>)
    ensures
        exists ==> r is Err && r->Err_0@ == ErrorView::AlreadyExists(path@),
        !exists ==> r is Ok,
{
    if exists {
        Err(BootsError::AlreadyExists(String::from_str(path)))
    } else {
        Ok(())
    }
}

/// The home of cargo: what `CARGO_HOME` holds, else `.cargo` under what `HOME`
/// holds.
pub open spec fn cargo_home_of(cargo_home: Option<Seq<char>>, home: Option<Seq<char>>) -> Result<
    Seq<char>,
    ErrorView,
> {
    match cargo_home {
        Some(dir) => Ok(dir),
        None => match home {
            Some(dir) => Ok(dir + "/.cargo"@),
            None => Err(ErrorView::Other("Cannot find home directory"@)),
        },
    }
}

/// The home of cargo, from what the environment holds under `CARGO_HOME` and
/// under `HOME`, each `None` where it is not set.
pub fn cargo_home(cargo_home_var: Option<&str>, home_var: Option<&str>) -> (r: Result<
    String,
    BootsError,
>)
    ensures
        match r {
            Ok(dir) => cargo_home_of(opt_view(cargo_home_var), opt_view(home_var)) == Ok::<
                Seq<char>,
                ErrorView,
            >(dir@),
            Err(e) => cargo_home_of(opt_view(cargo_home_var), opt_view(home_var)) == Err::<
                Seq<char>,
                ErrorView,
            >(e@),
        },
{
    match cargo_home_var {
        Some(dir) => Ok(String::from_str(dir)),
        None => match home_var {
            Some(dir) => Ok(concat2(dir, "/.cargo")),
            None => Err(BootsError::Other(String::from_str("Cannot find home directory"))),
        },
    }
}

/// The cached template at `path`, which must be there.
pub fn get_template_path(path: String, exists: bool) -> (r: Result<String, BootsError>)
    ensures
        exists ==> r == Ok::<String, BootsError>(path),
        !exists ==> r is Err && r->Err_0@ == ErrorView::Other(
            "Template not found. Run 'boots generate' first to download template."@,
        ),
{
    if exists {
        Ok(path)
    } else {
        Err(
            BootsError::Other(
                String::from_str(
                    "Template not found. Run 'boots generate' first to download template.",
                ),
            ),
        )
    }
}

/// A TOML document that can be edited.
#[verifier::external_type_specification]
#[verifier::external_body]
pub struct ExDocumentMut(toml_edit::DocumentMut);

/// Why a text is not a TOML document.
#[verifier::external_type_specification]
#[verifier::external_body]
pub struct ExTomlError(toml_edit::TomlError);

/// What a table holds under a key: a string, a flag, or anything else.
pub enum TomlValue {
    Text(Seq<char>),
    Flag(bool),
    Other,
}

/// What a document holds under a key at its top: a table with what it holds
/// under each of its keys, an array of such tables, or anything else.
pub enum TomlItem {
    Table(Map<Seq<char>, TomlValue>),
    Tables(Seq<Map<Seq<char>, TomlValue>>),
    Other,
}

/// What a document holds at its top, under each key that has an item.
pub uninterp spec fn contents(doc: toml_edit::DocumentMut) -> Map<Seq<char>, TomlItem>;

/// Whether the root of `doc` is a table, as it is for every document that was
/// parsed. A document whose root was replaced by something else holds nothing
/// that can be asked for or changed by key.
pub uninterp spec fn rooted(doc: toml_edit::DocumentMut) -> bool;

/// The text of a document.
pub uninterp spec fn text_of(doc: toml_edit::DocumentMut) -> Seq<char>;

/// What the document that `text` is holds at its top; `None` where `text` is
/// no TOML document.
pub uninterp spec fn parsed_of(text: Seq<char>) -> Option<Map<Seq<char>, TomlItem>>;

/// `DocumentMut::from_str` of toml_edit: the document that `text` is, or why
/// it is none. Whether it is one, and what it then holds, depends on `text`
/// alone; the root of a parsed document is a table.
#[verifier::external_body]
fn parse_document(text: &str) -> (r: Result<toml_edit::DocumentMut, toml_edit::TomlError>)
    ensures
        r is Ok <==> parsed_of(text@) is Some,
        r is Ok ==> rooted(r->Ok_0) && contents(r->Ok_0) == parsed_of(text@)->0,
{
    text.parse::<toml_edit::DocumentMut>()
}

/// The message of a `TomlError`, as its `Display` writes it. Nothing is
/// claimed of it.
#[verifier::external_body]
fn parse_error_text(e: &toml_edit::TomlError) -> (r: String) {
    e.to_string()
}

/// `Table::contains_key` of toml_edit on the root of `doc`: whether the
/// document has an item under `key`.
#[verifier::external_body]
fn has_key(doc: &toml_edit::DocumentMut, key: &str) -> (r: bool)
    requires
        rooted(*doc),
    ensures
        r == contents(*doc).contains_key(key@),
{
    doc.contains_key(key)
}

/// `Table::contains_table` of toml_edit on the root of `doc`: whether the
/// item under `key` is there and is a table.
#[verifier::external_body]
fn has_table(doc: &toml_edit::DocumentMut, key: &str) -> (r: bool)
    requires
        rooted(*doc),
    ensures
        r == (contents(*doc).contains_key(key@) && contents(*doc)[key@] is Table),
{
    doc.contains_table(key)
}

/// `Item::get` of toml_edit on the table under `table`: whether that table
/// has an item under `key`.
#[verifier::external_body]
fn table_has_key(doc: &toml_edit::DocumentMut, table: &str, key: &str) -> (r: bool)
    requires
        rooted(*doc),
        contents(*doc).contains_key(table@),
        contents(*doc)[table@] is Table,
    ensures
        r == contents(*doc)[table@]->Table_0.contains_key(key@),
{
    doc[table].get(key).is_some()
}

/// Assigning `toml_edit::table()` to `doc[key]`: afterwards the item under
/// `key` is an empty table, and the other items are as they were.
#[verifier::external_body]
fn put_table(doc: &mut toml_edit::DocumentMut, key: &str)
    requires
        rooted(*old(doc)),
    ensures
        rooted(*final(doc)),
        contents(*final(doc)) == contents(*old(doc)).insert(key@, TomlItem::Table(Map::empty())),
{
    doc[key] = toml_edit::table();
}

/// Assigning `toml_edit::value(value)` to `doc[table][key]`, where the item
/// under `table` is a table: afterwards that table holds the string `value`
/// under `key`, and nothing else has changed.
#[verifier::external_body]
fn put_string(doc: &mut toml_edit::DocumentMut, table: &str, key: &str, value: &str)
    requires
        rooted(*old(doc)),
        contents(*old(doc)).contains_key(table@),
        contents(*old(doc))[table@] is Table,
    ensures
        rooted(*final(doc)),
        contents(*final(doc)) == contents(*old(doc)).insert(
            table@,
            TomlItem::Table(
                contents(*old(doc))[table@]->Table_0.insert(key@, TomlValue::Text(value@)),
            ),
        ),
{
    doc[table][key] = toml_edit::value(value);
}

/// Assigning to `doc[key]` an array of tables with one table, which holds the
/// string `name` under `name_key` and then the flag `flag` under `flag_key`:
/// afterwards the item under `key` is that array, and the other items are as
/// they were.
#[verifier::external_body]
fn put_table_array(
    doc: &mut toml_edit::DocumentMut,
    key: &str,
    name_key: &str,
    name: &str,
    flag_key: &str,
    flag: bool,
)
    requires
        rooted(*old(doc)),
    ensures
        rooted(*final(doc)),
        contents(*final(doc)) == contents(*old(doc)).insert(
            key@,
            TomlItem::Tables(
                seq![
                    Map::<Seq<char>, TomlValue>::empty().insert(
                        name_key@,
                        TomlValue::Text(name@),
                    ).insert(flag_key@, TomlValue::Flag(flag)),
                ],
            ),
        ),
{
    let mut table = toml_edit::Table::new();
    table[name_key] = toml_edit::value(name);
    table[flag_key] = toml_edit::value(flag);
    let mut array = toml_edit::ArrayOfTables::new();
    array.push(table);
    doc[key] = toml_edit::Item::ArrayOfTables(array);
}

/// The `Display` of a `DocumentMut`: the text of `doc`.
#[verifier::external_body]
fn document_text(doc: &toml_edit::DocumentMut) -> (r: String)
    requires
        rooted(*doc),
    ensures
        r@ == text_of(*doc),
{
    doc.to_string()
}

/// The top of a manifest, `c`, is such that a benchmark can be added: what it
/// has under `dev-dependencies`, if anything, is a table.
pub open spec fn can_take_criterion(c: Map<Seq<char>, TomlItem>) -> bool {
    c.contains_key("dev-dependencies"@) ==> c["dev-dependencies"@] is Table
}

/// The benchmark that is added to a manifest: one table, named `benchmark`,
/// that does without the harness.
pub open spec fn bench_item() -> TomlItem {
    TomlItem::Tables(
        seq![
            Map::<Seq<char>, TomlValue>::empty().insert(
                "name"@,
                TomlValue::Text("benchmark"@),
            ).insert("harness"@, TomlValue::Flag(false)),
        ],
    )
}

/// The top of a manifest after a benchmark was added to one whose top was
/// `c`: there is a table `dev-dependencies` that has `criterion`, in the
/// version `1.0` where it had none, and there is an item `bench`, which is
/// [`bench_item`] where there was none. What was there already is kept as it
/// was.
pub open spec fn with_criterion(c: Map<Seq<char>, TomlItem>) -> Map<Seq<char>, TomlItem> {
    let with_table = if c.contains_key("dev-dependencies"@) {
        c
    } else {
        c.insert("dev-dependencies"@, TomlItem::Table(Map::empty()))
    };
    let dev = with_table["dev-dependencies"@]->Table_0;
    let with_library = if dev.contains_key("criterion"@) {
        with_table
    } else {
        with_table.insert(
            "dev-dependencies"@,
            TomlItem::Table(dev.insert("criterion"@, TomlValue::Text("1.0"@))),
        )
    };
    if with_library.contains_key("bench"@) {
        with_library
    } else {
        with_library.insert("bench"@, bench_item())
    }
}

/// Makes `doc`, the manifest of a module, name the benchmark library
/// `criterion` under `dev-dependencies` and a benchmark named `benchmark`
/// under `bench`. What the manifest has already is left alone; a manifest that
/// has it all is not touched. Fails, without touching the manifest, where
/// `dev-dependencies` is there and is no table. The root of `doc` must be a
/// table, as that of every parsed document is.
pub fn ensure_criterion(doc: &mut toml_edit::DocumentMut) -> (r: Result<(), BootsError>)
    requires
        rooted(*old(doc)),
    ensures
        rooted(*final(doc)),
        can_take_criterion(contents(*old(doc))) ==> r is Ok && contents(*final(doc))
            == with_criterion(contents(*old(doc))),
        !can_take_criterion(contents(*old(doc))) ==> r is Err && r->Err_0@ == ErrorView::Other(
            "dev-dependencies is not a table"@,
        ) && *final(doc) == *old(doc),
        with_criterion(contents(*old(doc))) == contents(*old(doc)) ==> *final(doc) == *old(doc),
{
    if !has_key(doc, "dev-dependencies") {
        put_table(doc, "dev-dependencies");
    }
    if !has_table(doc, "dev-dependencies") {
        return Err(BootsError::Other(String::from_str("dev-dependencies is not a table")));
    }
    if !table_has_key(doc, "dev-dependencies", "criterion") {
        put_string(doc, "dev-dependencies", "criterion", "1.0");
    }
    if !has_key(doc, "bench") {
        put_table_array(doc, "bench", "name", "benchmark", "harness", false);
    }
    Ok(())
}

/// What [`add_criterion_to_cargo`] gives for the manifest text `content`. A
/// text that is no TOML document is refused with a message that begins
/// `Failed to parse Cargo.toml: `; one whose `dev-dependencies` is no table is
/// refused too; for any other the result is the text of a document whose top
/// is [`with_criterion`] of the top of `content`.
pub open spec fn criterion_added(content: Seq<char>, r: Result<String, BootsError>) -> bool {
    match parsed_of(content) {
        None => r is Err && r->Err_0@ is Other && "Failed to parse Cargo.toml: "@.is_prefix_of(
            r->Err_0@->Other_0,
        ),
        Some(top) => if can_take_criterion(top) {
            r is Ok && exists|after: toml_edit::DocumentMut|
                rooted(after) && contents(after) == with_criterion(top) && r->Ok_0@ == text_of(
                    after,
                )
        } else {
            r is Err && r->Err_0@ == ErrorView::Other("dev-dependencies is not a table"@)
        },
    }
}

/// The text of the manifest `content` with the benchmark library and the
/// benchmark added: see [`criterion_added`].
pub fn add_criterion_to_cargo(content: &str) -> (r: Result<String, BootsError>)
    ensures
        criterion_added(content@, r),
{
    let mut doc = match parse_document(content) {
        Ok(doc) => doc,
        Err(e) => {
            let why = parse_error_text(&e);
            let message = concat2("Failed to parse Cargo.toml: ", why.as_str());
            assert(message@.subrange(0, "Failed to parse Cargo.toml: "@.len() as int)
                == "Failed to parse Cargo.toml: "@);
            return Err(BootsError::Other(message));
        },
    };
    match ensure_criterion(&mut doc) {
        Ok(()) => {},
        Err(e) => {
            return Err(e);
        },
    }
    let text = document_text(&doc);
    assert(rooted(doc) && contents(doc) == with_criterion(parsed_of(content@)->0) && text@
        == text_of(doc));
    Ok(text)
}

} // verus!
