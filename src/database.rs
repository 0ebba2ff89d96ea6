//! The application database: its schema version and migrations, and the
//! keys of its rows.
use md5::Digest;
use vstd::prelude::*;
use vstd::string::StringSliceAdditionalSpecFns;

verus! {

/// Where the application database lives.
pub const DB_PATH: &'static str = "./appdata.db";

/// Schema version that this library reads and writes.
pub const DB_VERSION: u32 = 2;

/// Migrates schema version 1 to 2: adds the remembered create and browse paths.
pub const MIGRATION_V2: &'static str =
    "ALTER TABLE GlobalSettings ADD COLUMN last_project_create_path TEXT;\nALTER TABLE GlobalSettings ADD COLUMN last_browse_source_path TEXT;\n";

/// The migrations, ascending by the schema version that each one migrates to.
pub open spec fn migration_table() -> Seq<(u32, Seq<char>)> {
    seq![(2u32, MIGRATION_V2@)]
}

fn migrations() -> (r: Vec<(u32, String)>)
    ensures
        r@.len() == migration_table().len(),
        forall|i: int|
            0 <= i < r@.len() ==> (#[trigger] r@[i]).0 == migration_table()[i].0 && r@[i].1@
                == migration_table()[i].1,
{
    let mut v: Vec<(u32, String)> = Vec::new();
    v.push((2, MIGRATION_V2.to_owned()));
    v
}

/// The migrations among the first `n` of `table` that lead past `current`.
pub open spec fn pending_migrations(table: Seq<(u32, Seq<char>)>, current: u32, n: int) -> Seq<
    (u32, Seq<char>),
>
    decreases n,
{
    if n <= 0 {
        Seq::empty()
    } else if table[n - 1].0 > current {
        pending_migrations(table, current, n - 1).push(table[n - 1])
    } else {
        pending_migrations(table, current, n - 1)
    }
}

/// The migrations, in order, that bring a database of schema version
/// `current_version` to `DB_VERSION`; `None` when it is already there.
pub fn get_migrations(current_version: u32) -> (r: Option<Vec<(u32, String)>>)
    requires
        current_version <= DB_VERSION,
    ensures
        current_version == DB_VERSION <==> r is None,
        r matches Some(v) ==> {
            let want = pending_migrations(
                migration_table(),
                current_version,
                migration_table().len() as int,
            );
            &&& v@.len() == want.len()
            &&& forall|i: int|
                0 <= i < v@.len() ==> (#[trigger] v@[i]).0 == want[i].0 && v@[i].1@ == want[i].1
        },
{
    if current_version == DB_VERSION {
        return None;
    }
    let table = migrations();
    let mut out: Vec<(u32, String)> = Vec::new();
    let mut i: usize = 0;
    while i < table.len()
        invariant
            i <= table@.len(),
            table@.len() == migration_table().len(),
            forall|k: int|
                0 <= k < table@.len() ==> (#[trigger] table@[k]).0 == migration_table()[k].0
                    && table@[k].1@ == migration_table()[k].1,
            out@.len() == pending_migrations(migration_table(), current_version, i as int).len(),
            forall|k: int|
                0 <= k < out@.len() ==> (#[trigger] out@[k]).0 == pending_migrations(
                    migration_table(),
                    current_version,
                    i as int,
                )[k].0 && out@[k].1@ == pending_migrations(
                    migration_table(),
                    current_version,
                    i as int,
                )[k].1,
        decreases table@.len() - i,
    {
        let version = table[i].0;
        if version > current_version {
            let sql = table[i].1.clone();
            out.push((version, sql));
        }
        i += 1;
    }
    Some(out)
}

/// The upper-case hexadecimal MD5 digest of `bytes`.
pub uninterp spec fn md5_upper_hex(bytes: Seq<u8>) -> Seq<char>;

/// Relies on md-5's `Md5::digest` and the upper-case hex rendering of its
/// output: the result depends on the bytes alone.
#[verifier::external_body]
fn md5_hex(bytes: &[u8]) -> (r: String)
    ensures
        r@ == md5_upper_hex(bytes@),
{
    format!("{:X}", md5::Md5::digest(bytes))
}

/// Key of the row that remembers a recently opened project: the upper-case
/// hex MD5 digest of the UTF-8 bytes of its path.
pub fn recent_project_id(path: &str) -> (r: String)
    ensures
        r@ == md5_upper_hex(path.spec_bytes()),
{
    md5_hex(path.as_bytes())
}

} // verus!
