//! Database migrations: naming a new one, reading the stored ones in the
//! order of their timestamps, and what is said while they run.
use crate::nice_display::NiceDisplay;
use crate::text::{str_eq, trim_chars, trim_text};
use vstd::prelude::*;
use vstd::string::*;

verus! {

/// What separates a migration's timestamp from its name in its file name.
pub const SEPARATOR: &'static str = "____";

/// The format of a migration's timestamp.
pub const DATE_FORMAT: &'static str = "%Y-%m-%d-%H:%M:%S";

/// A stored migration: its file name and the UTC time, in seconds, in it.
#[derive(Debug)]
pub struct Migration {
    pub name: String,
    pub timestamp: i64,
}

/// Why a new migration could not be made; each holds the text of the
/// underlying failure.
#[derive(Debug)]
pub enum NewMigrationError {
    WritingFile(String),
    ConnectingToDb(String),
}

/// Why running the migrations failed.
#[derive(Debug)]
pub enum RunError {
    GetMigrations(GetMigrationsError),
    DbConfig(String),
    ReadingMigrationFile(String),
    ExecutingMigration(String),
    ConnectingToDb(String),
}

/// Why the stored migrations could not be read.
#[derive(Debug)]
pub enum GetMigrationsError {
    GettingMigrations(String),
    ParsingDateFromFileName { file_name: String, err: String },
    SplittingFileName { file_name: String },
}

/// The explanation of a failure to make a migration.
pub open spec fn new_migration_error_text(e: NewMigrationError) -> Seq<char> {
    match e {
        NewMigrationError::WritingFile(d) => "Error writing migration file: "@ + d@,
        NewMigrationError::ConnectingToDb(d) => "Error connecting to database: "@ + d@,
    }
}

/// The explanation of a failure to read the migrations.
pub open spec fn get_migrations_error_text(e: GetMigrationsError) -> Seq<char> {
    match e {
        GetMigrationsError::GettingMigrations(d) => "Error getting migrations: "@ + d@,
        GetMigrationsError::ParsingDateFromFileName { file_name, err } => "Error parsing date from file name '"@
            + file_name@ + "': "@ + err@,
        GetMigrationsError::SplittingFileName { file_name } => "Error splitting file name '"@ + file_name@ + "'"@,
    }
}

/// The explanation of a failure to run the migrations; a configuration
/// failure holds its own explanation.
pub open spec fn run_error_text(e: RunError) -> Seq<char> {
    match e {
        RunError::GetMigrations(g) => get_migrations_error_text(g),
        RunError::DbConfig(d) => d@,
        RunError::ReadingMigrationFile(d) => "Error reading migration file: "@ + d@,
        RunError::ExecutingMigration(d) => "Error executing migration: "@ + d@,
        RunError::ConnectingToDb(d) => "Error connecting to database: "@ + d@,
    }
}

fn prefixed(prefix: &str, d: &str) -> (res: String)
    ensures
        res@ == prefix@ + d@,
{
    let mut s = String::from_str(prefix);
    s.append(d);
    s
}

impl NiceDisplay for NewMigrationError {
    open spec fn message_spec(&self) -> Seq<char> {
        new_migration_error_text(*self)
    }

    fn message(&self) -> (res: String) {
        match self {
            NewMigrationError::WritingFile(d) => prefixed("Error writing migration file: ", d.as_str()),
            NewMigrationError::ConnectingToDb(d) => prefixed("Error connecting to database: ", d.as_str()),
        }
    }
}

impl NiceDisplay for GetMigrationsError {
    open spec fn message_spec(&self) -> Seq<char> {
        get_migrations_error_text(*self)
    }

    fn message(&self) -> (res: String) {
        match self {
            GetMigrationsError::GettingMigrations(d) => prefixed("Error getting migrations: ", d.as_str()),
            GetMigrationsError::ParsingDateFromFileName { file_name, err } => {
                let mut s = prefixed("Error parsing date from file name '", file_name.as_str());
                s.append("': ");
                s.append(err.as_str());
                s
            },
            GetMigrationsError::SplittingFileName { file_name } => {
                let mut s = prefixed("Error splitting file name '", file_name.as_str());
                s.append("'");
                s
            },
        }
    }
}

impl NiceDisplay for RunError {
    open spec fn message_spec(&self) -> Seq<char> {
        run_error_text(*self)
    }

    fn message(&self) -> (res: String) {
        match self {
            RunError::GetMigrations(g) => g.message(),
            RunError::DbConfig(d) => d.clone(),
            RunError::ReadingMigrationFile(d) => prefixed("Error reading migration file: ", d.as_str()),
            RunError::ExecutingMigration(d) => prefixed("Error executing migration: ", d.as_str()),
            RunError::ConnectingToDb(d) => prefixed("Error connecting to database: ", d.as_str()),
        }
    }
}

/// The file name of a new migration made at the time `now`: the time, the
/// separator, the name, and `.sql`.
pub open spec fn new_migration_file_name_text(now: Seq<char>, name: Seq<char>) -> Seq<char> {
    now + "____"@ + name + ".sql"@
}

/// The file name of a new migration made at the time `now`.
pub fn new_migration_file_name(now: &str, name: &str) -> (res: String)
    ensures
        res@ == new_migration_file_name_text(now@, name@),
{
    let mut s = String::from_str(now);
    s.append("____");
    s.append(name);
    s.append(".sql");
    s
}

/// The text a new migration starts with.
pub open spec fn migration_template_text(name: Seq<char>) -> Seq<char> {
    "-- "@ + name + "\n\nBEGIN;\n-- Write your migration here\nCOMMIT;"@
}

/// The text a new migration starts with.
pub fn migration_template(name: &str) -> (res: String)
    ensures
        res@ == migration_template_text(name@),
{
    let mut s = String::from_str("-- ");
    s.append(name);
    s.append("\n\nBEGIN;\n-- Write your migration here\nCOMMIT;");
    s
}

/// Where a migration file is kept.
pub fn migration_file_path(file_name: &str) -> (res: String)
    ensures
        res@ == "./db/migrations/"@ + file_name@,
{
    prefixed("./db/migrations/", file_name)
}

/// Whether the separator starts at `i`.
pub open spec fn separator_at(s: Seq<char>, i: int) -> bool {
    0 <= i && i + 4 <= s.len() && s.subrange(i, i + 4) == "____"@
}

/// Where the last piece of `s` split at the separator starts: the text is
/// scanned from `i` on, each separator found being passed over whole, and
/// `start` is where the piece after the last one found so far starts.
pub open spec fn last_piece_start(s: Seq<char>, i: int, start: int) -> int
    decreases s.len() - i,
{
    if i >= s.len() {
        start
    } else if separator_at(s, i) {
        last_piece_start(s, i + 4, i + 4)
    } else {
        last_piece_start(s, i + 1, start)
    }
}

/// Where the first piece of `s` split at the separator ends: at the first
/// separator, or at the end.
pub open spec fn first_piece_end(s: Seq<char>, i: int) -> int
    decreases s.len() - i,
{
    if i >= s.len() {
        s.len() as int
    } else if separator_at(s, i) {
        i
    } else {
        first_piece_end(s, i + 1)
    }
}

proof fn lemma_last_piece_start_bounds(s: Seq<char>, i: int, start: int)
    requires
        0 <= start <= i <= s.len(),
    ensures
        start <= last_piece_start(s, i, start) <= s.len(),
        last_piece_start(s, i, start) >= s.len() - 4 ==> last_piece_start(s, i, start) >= start,
    decreases s.len() - i,
{
    if i < s.len() {
        if separator_at(s, i) {
            lemma_last_piece_start_bounds(s, i + 4, i + 4);
        } else {
            lemma_last_piece_start_bounds(s, i + 1, start);
        }
    }
}

proof fn lemma_first_piece_end_bounds(s: Seq<char>, i: int)
    requires
        0 <= i <= s.len(),
    ensures
        i <= first_piece_end(s, i) <= s.len(),
    decreases s.len() - i,
{
    if i < s.len() && !separator_at(s, i) {
        lemma_first_piece_end_bounds(s, i + 1);
    }
}

fn separator_at_index(s: &str, i: usize) -> (res: bool)
    requires
        i <= s@.len(),
    ensures
        res == separator_at(s@, i as int),
{
    let n = s.unicode_len();
    if n - i < 4 {
        return false;
    }
    let piece = s.substring_char(i, i + 4);
    let same = str_eq(piece, "____");
    proof {
        reveal_strlit("____");
    }
    same
}

/// Whether the text ends with `.sql`.
pub open spec fn ends_with_sql(s: Seq<char>) -> bool {
    s.len() >= 4 && s.subrange(s.len() - 4, s.len() as int) == ".sql"@
}

/// The name of a migration as shown: the last piece of its file name, split at
/// the separator, without `.sql`.
pub open spec fn human_name(file_name: Seq<char>) -> Seq<char> {
    file_name.subrange(last_piece_start(file_name, 0, 0), file_name.len() - 4)
}

proof fn lemma_sql_suffix_in_last_piece(s: Seq<char>, i: int, start: int)
    requires
        ends_with_sql(s),
        0 <= start <= i <= s.len(),
        start <= s.len() - 4,
    ensures
        last_piece_start(s, i, start) <= s.len() - 4,
    decreases s.len() - i,
{
    if i < s.len() {
        if separator_at(s, i) {
            if i + 4 > s.len() - 4 {
                assert(s.subrange(i, i + 4)[s.len() - 4 - i] == s[s.len() - 4]);
                assert(s.subrange(s.len() - 4, s.len() as int)[0] == s[s.len() - 4]);
                reveal_strlit("____");
                reveal_strlit(".sql");
                assert(false);
            }
            lemma_sql_suffix_in_last_piece(s, i + 4, i + 4);
        } else {
            lemma_sql_suffix_in_last_piece(s, i + 1, start);
        }
    }
}

/// The name of a migration as shown.
pub fn human_migration_name(file_name: &str) -> (res: String)
    requires
        ends_with_sql(file_name@),
    ensures
        res@ == human_name(file_name@),
{
    let n = file_name.unicode_len();
    let mut i: usize = 0;
    let mut start: usize = 0;
    proof {
        lemma_sql_suffix_in_last_piece(file_name@, 0, 0);
    }
    while i < n
        invariant
            n == file_name@.len(),
            ends_with_sql(file_name@),
            0 <= start <= i <= n,
            start <= n - 4,
            last_piece_start(file_name@, 0, 0) == last_piece_start(file_name@, i as int, start as int),
        decreases n - i,
    {
        if separator_at_index(file_name, i) {
            proof {
                lemma_sql_suffix_in_last_piece(file_name@, i as int, start as int);
                lemma_last_piece_start_bounds(file_name@, i + 4, i + 4);
                assert(last_piece_start(file_name@, i as int, start as int) == last_piece_start(
                    file_name@,
                    i + 4,
                    i + 4,
                ));
            }
            i = i + 4;
            start = i;
        } else {
            i = i + 1;
        }
    }
    let piece = file_name.substring_char(start, n - 4);
    String::from_str(piece)
}

/// The line shown before running migration `index` (from zero) of `total`.
pub fn progress_line(index: usize, total: usize, human: &str) -> (res: String)
    requires
        index < usize::MAX,
    ensures
        res@ == "Running "@ + crate::text::decimal_text((index + 1) as nat) + "/"@ + crate::text::decimal_text(
            total as nat,
        ) + ", "@ + human@,
{
    let mut s = String::from_str("Running ");
    let a = crate::text::u64_text((index as u64) + 1);
    s.append(a.as_str());
    s.append("/");
    let b = crate::text::u64_text(total as u64);
    s.append(b.as_str());
    s.append(", ");
    s.append(human);
    s
}

/// The line shown once the migrations have run.
pub fn finish_message(ran_at_least_one_migration: bool) -> (res: &'static str)
    ensures
        res@ == (if ran_at_least_one_migration {
            "Done!"@
        } else {
            "You are already up to date, no migrations run!"@
        }),
{
    if ran_at_least_one_migration {
        "Done!"
    } else {
        "You are already up to date, no migrations run!"
    }
}

/// Whether an answer to the question before running agrees: once trimmed, it
/// is `y` or `Y`.
pub open spec fn confirms_text(input: Seq<char>) -> bool {
    trim_chars(input) == "y"@ || trim_chars(input) == "Y"@
}

/// Whether an answer to the question before running agrees.
pub fn confirms(input: &str) -> (res: bool)
    ensures
        res == confirms_text(input@),
{
    let t = trim_text(input);
    str_eq(t.as_str(), "y") || str_eq(t.as_str(), "Y")
}

/// The UTC seconds of a date and time read with a format as `chrono` reads it
/// (`NaiveDateTime::parse_from_str`), or the text of its parse error.
pub uninterp spec fn naive_datetime_seconds(text: Seq<char>, format: Seq<char>) -> Result<i64, Seq<char>>;

/// Reads a date and time with a format; wraps
/// `chrono::NaiveDateTime::parse_from_str`, taken as UTC seconds.
#[verifier::external_body]
fn parse_naive_datetime_seconds(text: &str, format: &str) -> (res: Result<i64, String>)
    ensures
        match res {
            Ok(t) => naive_datetime_seconds(text@, format@) == Ok::<i64, Seq<char>>(t),
            Err(e) => naive_datetime_seconds(text@, format@) == Err::<i64, Seq<char>>(e@),
        },
{
    match chrono::NaiveDateTime::parse_from_str(text, format) {
        Ok(dt) => Ok(dt.and_utc().timestamp()),
        Err(e) => Err(e.to_string()),
    }
}

/// The timestamp text of a migration file name: its first piece, split at the
/// separator.
pub open spec fn timestamp_text(file_name: Seq<char>) -> Seq<char> {
    file_name.take(first_piece_end(file_name, 0))
}

/// The timestamp text of a migration file name.
pub fn migration_timestamp_text(file_name: &str) -> (res: String)
    ensures
        res@ == timestamp_text(file_name@),
{
    let n = file_name.unicode_len();
    let mut i: usize = 0;
    while i < n && !separator_at_index(file_name, i)
        invariant
            n == file_name@.len(),
            i <= n,
            first_piece_end(file_name@, 0) == first_piece_end(file_name@, i as int),
        decreases n - i,
    {
        i = i + 1;
    }
    let piece = file_name.substring_char(0, i);
    proof {
        assert(piece@ =~= file_name@.take(i as int));
    }
    String::from_str(piece)
}

/// Whether the migrations are in the order of their timestamps.
pub open spec fn timestamps_sorted(ms: Seq<Migration>) -> bool {
    forall|i: int, j: int| 0 <= i <= j < ms.len() ==> #[trigger] ms[i].timestamp <= #[trigger] ms[j].timestamp
}

/// The migrations read from the file names, or the first name whose
/// timestamp cannot be read, with the parse error.
pub open spec fn read_migrations(names: Seq<Seq<char>>) -> Result<Seq<(Seq<char>, i64)>, (Seq<char>, Seq<char>)>
    decreases names.len(),
{
    if names.len() == 0 {
        Ok(Seq::empty())
    } else {
        match read_migrations(names.drop_last()) {
            Err(e) => Err(e),
            Ok(prev) => match naive_datetime_seconds(timestamp_text(names.last()), "%Y-%m-%d-%H:%M:%S"@) {
                Err(e) => Err((names.last(), e)),
                Ok(t) => Ok(prev.push((names.last(), t))),
            },
        }
    }
}

/// The views of migrations.
pub open spec fn migration_views(ms: Seq<Migration>) -> Seq<(Seq<char>, i64)> {
    ms.map_values(|m: Migration| (m.name@, m.timestamp))
}

proof fn lemma_read_error_stays(names: Seq<Seq<char>>, k: int)
    requires
        0 <= k <= names.len(),
        read_migrations(names.take(k)) is Err,
    ensures
        read_migrations(names) == read_migrations(names.take(k)),
    decreases names.len() - k,
{
    if k < names.len() {
        assert(names.take(k + 1).drop_last() =~= names.take(k));
        lemma_read_error_stays(names, k + 1);
    } else {
        assert(names.take(k) =~= names);
    }
}

/// Where a migration with timestamp `t` goes among migrations in the order of
/// their timestamps: after every one whose timestamp is not later.
pub open spec fn insert_position(s: Seq<(Seq<char>, i64)>, t: i64) -> int
    decreases s.len(),
{
    if s.len() == 0 {
        0
    } else if s.last().1 > t {
        insert_position(s.drop_last(), t)
    } else {
        s.len() as int
    }
}

/// The migrations in the order of their timestamps, those with equal
/// timestamps in the order in which they were read (a stable sort).
pub open spec fn in_time_order(read: Seq<(Seq<char>, i64)>) -> Seq<(Seq<char>, i64)>
    decreases read.len(),
{
    if read.len() == 0 {
        Seq::empty()
    } else {
        let prev = in_time_order(read.drop_last());
        prev.insert(insert_position(prev, read.last().1), read.last())
    }
}

fn insert_sorted(ms: &mut Vec<Migration>, m: Migration)
    requires
        timestamps_sorted(old(ms)@),
    ensures
        timestamps_sorted(final(ms)@),
        migration_views(final(ms)@).to_multiset() == migration_views(old(ms)@).to_multiset().insert(
            (m.name@, m.timestamp),
        ),
        migration_views(final(ms)@) == migration_views(old(ms)@).insert(
            insert_position(migration_views(old(ms)@), m.timestamp),
            (m.name@, m.timestamp),
        ),
{
    let ghost views = migration_views(ms@);
    let mut pos: usize = ms.len();
    proof {
        assert(views.take(ms.len() as int) =~= views);
    }
    while pos > 0 && ms[pos - 1].timestamp > m.timestamp
        invariant
            pos <= ms.len(),
            ms@ == old(ms)@,
            timestamps_sorted(ms@),
            forall|k: int| pos <= k < ms.len() ==> #[trigger] ms@[k].timestamp > m.timestamp,
            views == migration_views(ms@),
            insert_position(views, m.timestamp) == insert_position(views.take(pos as int), m.timestamp),
        decreases pos,
    {
        proof {
            assert(views.take(pos as int).drop_last() =~= views.take(pos - 1));
            assert(views.take(pos as int).last() == views[pos - 1]);
        }
        pos = pos - 1;
    }
    proof {
        if pos > 0 {
            assert(views.take(pos as int).last() == views[pos - 1]);
        } else {
            assert(views.take(0) =~= Seq::<(Seq<char>, i64)>::empty());
        }
        assert(insert_position(views, m.timestamp) == pos);
    }
    let ghost before = ms@;
    ms.insert(pos, m);
    proof {
        assert(migration_views(ms@) =~= migration_views(before).insert(pos as int, (m.name@, m.timestamp)));
        vstd::seq_lib::to_multiset_insert(migration_views(before), pos as int, (m.name@, m.timestamp));
        assert forall|i: int, j: int| 0 <= i <= j < ms@.len() implies #[trigger] ms@[i].timestamp
            <= #[trigger] ms@[j].timestamp by {
            if i < pos && j > pos {
                assert(ms@[i] == before[i]);
                assert(ms@[j] == before[j - 1]);
            } else if i < pos && j == pos {
                assert(ms@[i] == before[i]);
                if pos > 0 {
                    assert(before[pos - 1].timestamp <= m.timestamp);
                }
                assert(before[i].timestamp <= before[pos - 1].timestamp);
            } else if i == pos && j > pos {
                assert(ms@[j] == before[j - 1]);
            } else if i > pos {
                assert(ms@[i] == before[i - 1]);
                assert(ms@[j] == before[j - 1]);
            } else if j < pos {
                assert(ms@[i] == before[i]);
                assert(ms@[j] == before[j]);
            }
        }
    }
}

/// The migrations of the file names, in the order of their timestamps: each
/// timestamp is read from the first piece of the file name; a name whose
/// timestamp cannot be read fails the whole.
pub fn get_migrations(file_names: Vec<String>) -> (res: Result<Vec<Migration>, GetMigrationsError>)
    ensures
        match (res, read_migrations(crate::text::string_views(file_names@))) {
            (Ok(ms), Ok(read)) => timestamps_sorted(ms@) && migration_views(ms@).to_multiset() == read.to_multiset()
                && migration_views(ms@) == in_time_order(read),
            (Err(GetMigrationsError::ParsingDateFromFileName { file_name, err }), Err((n, e))) => file_name@ == n
                && err@ == e,
            _ => false,
        },
{
    let ghost names = crate::text::string_views(file_names@);
    let mut ms: Vec<Migration> = Vec::new();
    let mut i: usize = 0;
    proof {
        assert(names.take(0) =~= Seq::<Seq<char>>::empty());
        assert(migration_views(ms@) =~= Seq::<(Seq<char>, i64)>::empty());
        assert(read_migrations(names.take(0)) == Ok::<Seq<(Seq<char>, i64)>, (Seq<char>, Seq<char>)>(Seq::empty()));
    }
    while i < file_names.len()
        invariant
            i <= file_names.len(),
            names == crate::text::string_views(file_names@),
            read_migrations(names.take(i as int)) is Ok,
            timestamps_sorted(ms@),
            migration_views(ms@).to_multiset() == read_migrations(names.take(i as int))->Ok_0.to_multiset(),
            migration_views(ms@) == in_time_order(read_migrations(names.take(i as int))->Ok_0),
        decreases file_names.len() - i,
    {
        proof {
            assert(names.take(i + 1).drop_last() =~= names.take(i as int));
            assert(names.take(i + 1).last() == file_names@[i as int]@);
        }
        let stamp = migration_timestamp_text(file_names[i].as_str());
        match parse_naive_datetime_seconds(stamp.as_str(), DATE_FORMAT) {
            Ok(t) => {
                let ghost prev = read_migrations(names.take(i as int))->Ok_0;
                proof {
                    reveal_strlit("%Y-%m-%d-%H:%M:%S");
                    vstd::seq_lib::to_multiset_build(prev, (file_names@[i as int]@, t));
                    assert(prev.push((file_names@[i as int]@, t)).drop_last() =~= prev);
                }
                insert_sorted(&mut ms, Migration { name: file_names[i].clone(), timestamp: t });
            },
            Err(e) => {
                proof {
                    reveal_strlit("%Y-%m-%d-%H:%M:%S");
                    lemma_read_error_stays(names, i as int + 1);
                }
                return Err(GetMigrationsError::ParsingDateFromFileName { file_name: file_names[i].clone(), err: e });
            },
        }
        i = i + 1;
    }
    proof {
        assert(names.take(file_names.len() as int) =~= names);
    }
    Ok(ms)
}

/// The question asked before running the migrations.
pub fn confirmation_prompt(host: &str, password: &str) -> (res: String)
    ensures
        res@ == "Should I run migrations at host "@ + host@ + " with password "@ + password@ + "? (Y/n): "@,
{
    let mut s = String::from_str("Should I run migrations at host ");
    s.append(host);
    s.append(" with password ");
    s.append(password);
    s.append("? (Y/n): ");
    s
}

/// The connection text of the migrations database.
pub fn connect_string(host: &str, user: &str, password: &str) -> (res: String)
    ensures
        res@ == "host="@ + host@ + " user="@ + user@ + " password="@ + password@ + " dbname=audio_storer"@,
{
    let mut s = String::from_str("host=");
    s.append(host);
    s.append(" user=");
    s.append(user);
    s.append(" password=");
    s.append(password);
    s.append(" dbname=audio_storer");
    s
}

} // verus!
