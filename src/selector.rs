use vstd::prelude::*;

verus! {

/// Frontend framework of a generated project.
#[derive(Clone, Copy, Debug, PartialEq, Eq, Structural)]
pub enum Frontend {
    Dioxus,
    Htmx,
}

impl Default for Frontend {
    fn default() -> (r: Frontend)
        ensures
            r == Frontend::Dioxus,
    {
        Frontend::Dioxus
    }
}

/// Database backend of a generated project.
#[derive(Clone, Copy, Debug, PartialEq, Eq, Structural)]
pub enum Database {
    Postgres,
    Mysql,
    Mongodb,
    Firebase,
}

/// The template identifier chosen for a frontend and an optional database.
pub open spec fn template_id(frontend: Frontend, db: Option<Database>) -> Seq<char> {
    match (frontend, db) {
        (Frontend::Htmx, None) => "static-htmx"@,
        (Frontend::Dioxus, None) => "static-dioxus"@,
        (Frontend::Htmx, Some(Database::Postgres)) => "postgres-htmx"@,
        (Frontend::Dioxus, Some(Database::Postgres)) => "postgres-dioxus"@,
        (Frontend::Htmx, Some(Database::Mysql)) => "mysql-htmx"@,
        (Frontend::Dioxus, Some(Database::Mysql)) => "mysql-dioxus"@,
        (Frontend::Htmx, Some(Database::Mongodb)) => "mongodb-htmx"@,
        (Frontend::Dioxus, Some(Database::Mongodb)) => "mongodb-dioxus"@,
        (Frontend::Htmx, Some(Database::Firebase)) => "firebase-htmx"@,
        (Frontend::Dioxus, Some(Database::Firebase)) => "firebase-dioxus"@,
    }
}

/// Selects the template for a frontend and an optional database.
/// Every combination has a template of its own.
pub fn template_name(frontend: Frontend, db: Option<Database>) -> (r: &'static str)
    ensures
        r@ == template_id(frontend, db),
{
    match (frontend, db) {
        (Frontend::Htmx, None) => "static-htmx",
        (Frontend::Dioxus, None) => "static-dioxus",
        (Frontend::Htmx, Some(Database::Postgres)) => "postgres-htmx",
        (Frontend::Dioxus, Some(Database::Postgres)) => "postgres-dioxus",
        (Frontend::Htmx, Some(Database::Mysql)) => "mysql-htmx",
        (Frontend::Dioxus, Some(Database::Mysql)) => "mysql-dioxus",
        (Frontend::Htmx, Some(Database::Mongodb)) => "mongodb-htmx",
        (Frontend::Dioxus, Some(Database::Mongodb)) => "mongodb-dioxus",
        (Frontend::Htmx, Some(Database::Firebase)) => "firebase-htmx",
        (Frontend::Dioxus, Some(Database::Firebase)) => "firebase-dioxus",
    }
}

/// Two different configurations never share a template: the selection is
/// injective over frontend and database.
pub proof fn lemma_template_id_injective(
    f1: Frontend,
    d1: Option<Database>,
    f2: Frontend,
    d2: Option<Database>,
)
    requires
        f1 != f2 || d1 != d2,
    ensures
        template_id(f1, d1) != template_id(f2, d2),
{
    reveal_strlit("static-htmx");
    reveal_strlit("static-dioxus");
    reveal_strlit("postgres-htmx");
    reveal_strlit("postgres-dioxus");
    reveal_strlit("mysql-htmx");
    reveal_strlit("mysql-dioxus");
    reveal_strlit("mongodb-htmx");
    reveal_strlit("mongodb-dioxus");
    reveal_strlit("firebase-htmx");
    reveal_strlit("firebase-dioxus");
    let a = template_id(f1, d1);
    let b = template_id(f2, d2);
    if a == b {
        assert(a.len() == b.len());
        assert(a[0] == b[0]);
        assert(a[a.len() - 1] == b[b.len() - 1]);
        assert(a[1] == b[1]);
    }
}

} // verus!
