use vstd::prelude::*;
use vstd::string::*;

verus! {

/// Whether a migration moves the schema forward or back.
#[derive(Debug, Clone, Copy, PartialEq, Eq, Structural)]
pub enum MigrationKind {
    Up,
    Down,
}

/// One step of the settings database's schema history: its version, its
/// description (the name of the file that holds its SQL), and its kind.
#[derive(Debug, Clone)]
pub struct MigrationEntry {
    pub version: i64,
    pub description: String,
    pub kind: MigrationKind,
}

/// The files of the schema history, in the order they are applied.
pub open spec fn migration_files() -> Seq<Seq<char>> {
    seq![
        "0000_slow_scarecrow.sql"@,
        "0001_amusing_madame_web.sql"@,
        "0002_last_violations.sql"@,
        "0003_adorable_eternals.sql"@,
        "0004_lyrical_rick_jones.sql"@,
        "0005_silent_bug.sql"@,
    ]
}

pub open spec fn decimal_digit(d: int) -> char
    recommends
        0 <= d < 10,
{
    seq!['0', '1', '2', '3', '4', '5', '6', '7', '8', '9'][d]
}

/// `v` written with four decimal digits, zero-padded.
pub open spec fn four_digits(v: int) -> Seq<char>
    recommends
        0 <= v < 10000,
{
    seq![
        decimal_digit(v / 1000 % 10),
        decimal_digit(v / 100 % 10),
        decimal_digit(v / 10 % 10),
        decimal_digit(v % 10),
    ]
}

fn entry(version: i64, description: &str) -> (r: MigrationEntry)
    ensures
        r.version == version,
        r.description@ == description@,
        r.kind is Up,
{
    MigrationEntry { version, description: String::from_str(description), kind: MigrationKind::Up }
}

/// The schema history of the settings database: forward migrations
/// numbered from zero without gaps, each described by its file name, which
/// starts with the version written in four digits.
pub fn load_migrations() -> (r: Vec<MigrationEntry>)
    ensures
        r@.len() == migration_files().len(),
        forall|i: int|
            0 <= i < r@.len() ==> {
                &&& #[trigger] r@[i].version == i
                &&& r@[i].description@ == migration_files()[i]
                &&& r@[i].kind is Up
                &&& r@[i].description@.subrange(0, 4) == four_digits(i)
            },
{
    let mut r: Vec<MigrationEntry> = Vec::new();
    r.push(entry(0, "0000_slow_scarecrow.sql"));
    r.push(entry(1, "0001_amusing_madame_web.sql"));
    r.push(entry(2, "0002_last_violations.sql"));
    r.push(entry(3, "0003_adorable_eternals.sql"));
    r.push(entry(4, "0004_lyrical_rick_jones.sql"));
    r.push(entry(5, "0005_silent_bug.sql"));
    proof {
        reveal_strlit("0000_slow_scarecrow.sql");
        reveal_strlit("0001_amusing_madame_web.sql");
        reveal_strlit("0002_last_violations.sql");
        reveal_strlit("0003_adorable_eternals.sql");
        reveal_strlit("0004_lyrical_rick_jones.sql");
        reveal_strlit("0005_silent_bug.sql");
        assert forall|i: int| 0 <= i < r@.len() implies r@[i].description@.subrange(0, 4)
            =~= four_digits(i) by {}
    }
    r
}

} // verus!
