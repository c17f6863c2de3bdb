//! forkstack - instant, isolated development environments.
//!
//! The library holds the decision and formatting logic of a tool that
//! provisions throwaway development environments ("forks") by cloning a
//! production database and copying object-storage contents into fork-scoped
//! prefixes. Network calls themselves are performed by the surrounding
//! binary; every function here is a verified function from plain values to
//! plain values.

use vstd::prelude::*;

pub mod config;
pub mod errors;
pub mod storage;
pub mod toml_data;
pub mod text;
pub mod turso;

verus! {

/// A fork: an isolated development environment made of a forked database
/// and, per configured bucket, a copied storage prefix.
#[derive(Debug, Clone)]
pub struct Fork {
    pub name: String,
    pub database_url: String,
    pub storage_url: String,
    pub created_at: u64,
}

/// The text rendered for a record created `created_at` seconds after the
/// epoch when the clock now reads `now`: the age in the coarsest fitting
/// unit, never negative.
pub open spec fn age_rendered(now: u64, created_at: u64) -> Seq<char> {
    let diff = if now >= created_at {
        (now - created_at) as nat
    } else {
        0nat
    };
    if diff < 60 {
        "just now"@
    } else if diff < 3600 {
        text::dec_str(diff / 60) + " mins ago"@
    } else if diff < 86400 {
        text::dec_str(diff / 3600) + " hours ago"@
    } else {
        text::dec_str(diff / 86400) + " days ago"@
    }
}

/// Renders the age of a record created at `created_at`, seen from `now`.
pub fn relative_age(now: u64, created_at: u64) -> (r: String)
    ensures
        r@ == age_rendered(now, created_at),
{
    let diff = if now >= created_at {
        now - created_at
    } else {
        0
    };
    if diff < 60 {
        String::from_str("just now")
    } else if diff < 3600 {
        text::u64_to_dec(diff / 60).concat(" mins ago")
    } else if diff < 86400 {
        text::u64_to_dec(diff / 3600).concat(" hours ago")
    } else {
        text::u64_to_dec(diff / 86400).concat(" days ago")
    }
}

impl Fork {
    /// A human-readable age of this fork, computed against the clock.
    pub fn created_ago(&self) -> (r: String)
        ensures
            exists|now: u64| r@ == age_rendered(now, self.created_at),
    {
        let now = unix_now_seconds();
        relative_age(now, self.created_at)
    }
}

/// Relies on std::time::SystemTime::now and duration_since: seconds since
/// the Unix epoch. Nothing is promised of the clock's value; a reading
/// before the epoch is handed back as zero rather than a panic.
#[verifier::external_body]
fn unix_now_seconds() -> u64 {
    match std::time::SystemTime::now().duration_since(std::time::UNIX_EPOCH) {
        Ok(d) => d.as_secs(),
        Err(_) => 0,
    }
}

/// Relies on std::time::SystemTime::now and duration_since: nanoseconds
/// since the Unix epoch, truncated to 64 bits. Nothing is promised of the
/// clock's value.
#[verifier::external_body]
fn unix_now_nanos() -> u64 {
    match std::time::SystemTime::now().duration_since(std::time::UNIX_EPOCH) {
        Ok(d) => d.as_nanos() as u64,
        Err(_) => 0,
    }
}

/// The adjective drawn for an index below five.
pub open spec fn adjective_at(i: nat) -> Seq<char> {
    if i == 0 {
        "swift"@
    } else if i == 1 {
        "bright"@
    } else if i == 2 {
        "calm"@
    } else if i == 3 {
        "bold"@
    } else {
        "keen"@
    }
}

/// The noun drawn for an index below five.
pub open spec fn noun_at(i: nat) -> Seq<char> {
    if i == 0 {
        "fork"@
    } else if i == 1 {
        "branch"@
    } else if i == 2 {
        "leaf"@
    } else if i == 3 {
        "wave"@
    } else {
        "spark"@
    }
}

/// The fork name composed from a 64-bit hash value: the adjective at
/// `h mod 5`, the noun at `(h >> 8) mod 5` and the number `(h >> 16) mod
/// 1000`, dash-separated.
pub open spec fn fork_name_of(h: u64) -> Seq<char> {
    adjective_at((h % 5) as nat) + "-"@ + noun_at(((h >> 8) % 5) as nat) + "-"@ + text::dec_str(
        ((h >> 16) % 1000) as nat,
    )
}

fn adjective_str(i: u64) -> (r: &'static str)
    requires
        i < 5,
    ensures
        r@ == adjective_at(i as nat),
{
    if i == 0 {
        "swift"
    } else if i == 1 {
        "bright"
    } else if i == 2 {
        "calm"
    } else if i == 3 {
        "bold"
    } else {
        "keen"
    }
}

fn noun_str(i: u64) -> (r: &'static str)
    requires
        i < 5,
    ensures
        r@ == noun_at(i as nat),
{
    if i == 0 {
        "fork"
    } else if i == 1 {
        "branch"
    } else if i == 2 {
        "leaf"
    } else if i == 3 {
        "wave"
    } else {
        "spark"
    }
}

/// Composes the fork name that a given hash value determines.
pub fn fork_name_from_hash(h: u64) -> (r: String)
    ensures
        r@ == fork_name_of(h),
{
    let adj = adjective_str(h % 5);
    let noun = noun_str((h >> 8) % 5);
    let num = text::u64_to_dec((h >> 16) % 1000);
    String::from_str(adj).concat("-").concat(noun).concat("-").concat(num.as_str())
}

/// The name a creation resolves to: the requested one when present, the
/// generated one otherwise.
pub open spec fn resolved_name_of(requested: Option<String>, generated: Seq<char>) -> Seq<char> {
    match requested {
        Some(n) => n@,
        None => generated,
    }
}

/// The displayed storage line for one bucket: its label and the location
/// the copy reported.
pub open spec fn storage_line_of(label: Seq<char>, location: Seq<char>) -> Seq<char> {
    label + ": "@ + location
}

/// Assembles the outcome of a fork creation from the configuration and
/// the outcomes of the external calls, in the order the calls are made: a
/// database failure aborts everything, the first bucket failure aborts the
/// remaining buckets, and full success hands back the assembled fork. No
/// failure ever undoes the database fork: the result only ever carries the
/// failing call's own error.
pub fn create_fork(
    config: &config::Config,
    requested_name: Option<String>,
    generated_name: String,
    now: u64,
    db_outcome: Result<turso::DatabaseInfo, errors::ForkError>,
    copy_outcomes: Vec<Result<String, errors::ForkError>>,
) -> (r: Result<Fork, errors::ForkError>)
    requires
        copy_outcomes@.len() == config.storage@.len(),
    ensures
        db_outcome is Err ==> r is Err && r->Err_0 == db_outcome->Err_0,
        db_outcome is Ok && (exists|i: int|
            0 <= i < copy_outcomes@.len() && copy_outcomes@[i] is Err) ==> r is Err && (exists|
            i: int,
        |
            0 <= i < copy_outcomes@.len() && #[trigger] copy_outcomes@[i] is Err && (forall|j: int|
                0 <= j < i ==> copy_outcomes@[j] is Ok) && r->Err_0 == copy_outcomes@[i]->Err_0),
        db_outcome is Ok && (forall|i: int|
            0 <= i < copy_outcomes@.len() ==> #[trigger] copy_outcomes@[i] is Ok) ==> r is Ok && {
            let f = r->Ok_0;
            f.name@ == resolved_name_of(requested_name, generated_name@) && f.database_url@
                == turso::database_url_of(db_outcome->Ok_0.hostname@) && f.created_at == now
                && f.storage_url@ == text::joined_lines(
                Seq::new(
                    copy_outcomes@.len() as nat,
                    |i: int| storage_line_of(config.storage@[i].0@, copy_outcomes@[i]->Ok_0@),
                ),
            )
        },
{
    let name = match requested_name {
        Some(n) => n,
        None => generated_name,
    };
    let info = match db_outcome {
        Ok(i) => i,
        Err(e) => {
            return Err(e);
        },
    };
    let database_url = turso::database_url(info.hostname.as_str());
    let mut rest = copy_outcomes;
    let mut lines: Vec<String> = Vec::new();
    let mut idx: usize = 0;
    let ghost all = rest@;
    while idx < config.storage.len()
        invariant
            all == copy_outcomes@,
            all.len() == config.storage@.len(),
            idx + rest@.len() == all.len(),
            rest@ == all.subrange(idx as int, all.len() as int),
            db_outcome is Ok,
            forall|j: int| 0 <= j < idx ==> #[trigger] all[j] is Ok,
            lines@.len() == idx,
            forall|j: int|
                0 <= j < idx ==> #[trigger] lines@[j]@ == storage_line_of(
                    config.storage@[j].0@,
                    all[j]->Ok_0@,
                ),
        decreases rest@.len(),
    {
        let oc = rest.remove(0);
        proof {
            assert(oc == all[idx as int]);
            assert(rest@ =~= all.subrange(idx + 1, all.len() as int));
        }
        match oc {
            Err(e) => {
                return Err(e);
            },
            Ok(loc) => {
                let line = String::from_str(config.storage[idx].0.as_str()).concat(": ").concat(
                    loc.as_str(),
                );
                lines.push(line);
            },
        }
        idx += 1;
    }
    let storage_url = text::join_lines(&lines);
    let fork = Fork { name, database_url, storage_url, created_at: now };
    proof {
        assert(lines.deep_view() =~= Seq::new(
            all.len() as nat,
            |i: int| storage_line_of(config.storage@[i].0@, all[i]->Ok_0@),
        ));
    }
    Ok(fork)
}

/// The forks a database listing maps to: every entry but the production
/// database, in the order received, as a pair of the name and the derived
/// connection URL.
pub open spec fn listed_forks(items: Seq<turso::DatabaseListItem>, production: Seq<char>) -> Seq<
    (Seq<char>, Seq<char>),
>
    decreases items.len(),
{
    if items.len() == 0 {
        Seq::empty()
    } else {
        let rest = listed_forks(items.drop_last(), production);
        if items.last().name@ == production {
            rest
        } else {
            rest + seq![
                (items.last().name@, turso::database_url_of(items.last().hostname@)),
            ]
        }
    }
}

/// How one listed fork relates to its pair in the listing model: the name
/// and URL carry over, storage is not queried, and the creation time is
/// the unknown sentinel.
pub open spec fn listed_fork_matches(f: Fork, m: (Seq<char>, Seq<char>)) -> bool {
    f.name@ == m.0 && f.database_url@ == m.1 && f.storage_url@ == Seq::<char>::empty()
        && f.created_at == 0
}

/// Maps a database listing to forks: the entry named like the production
/// database is filtered out, every other entry keeps its place, with an
/// empty storage URL and the unknown-creation-time sentinel.
pub fn list_forks(items: &Vec<turso::DatabaseListItem>, production: &str) -> (r: Vec<Fork>)
    ensures
        r@.len() == listed_forks(items@, production@).len(),
        forall|i: int|
            0 <= i < r@.len() ==> listed_fork_matches(
                #[trigger] r@[i],
                listed_forks(items@, production@)[i],
            ),
{
    let mut r: Vec<Fork> = Vec::new();
    let mut i: usize = 0;
    proof {
        assert(items@.subrange(0, 0) =~= Seq::<turso::DatabaseListItem>::empty());
    }
    while i < items.len()
        invariant
            i <= items.len(),
            r@.len() == listed_forks(items@.subrange(0, i as int), production@).len(),
            forall|j: int|
                0 <= j < r@.len() ==> listed_fork_matches(
                    #[trigger] r@[j],
                    listed_forks(items@.subrange(0, i as int), production@)[j],
                ),
        decreases items.len() - i,
    {
        proof {
            let pre = items@.subrange(0, i as int);
            let cur = items@.subrange(0, i + 1);
            assert(cur.drop_last() =~= pre);
            assert(cur.last() == items@[i as int]);
        }
        if !text::str_eq(items[i].name.as_str(), production) {
            let fork = Fork {
                name: items[i].name.clone(),
                database_url: turso::database_url(items[i].hostname.as_str()),
                storage_url: String::new(),
                created_at: 0,
            };
            r.push(fork);
        }
        i += 1;
    }
    proof {
        assert(items@.subrange(0, items.len() as int) =~= items@);
    }
    r
}

/// Assembles the outcome of a fork deletion from the outcomes of the
/// external calls, in the order the calls are made: a database failure
/// aborts everything, and the first bucket failure aborts the remaining
/// buckets while leaving earlier deletions in place.
pub fn delete_fork(
    config: &config::Config,
    db_outcome: Result<(), errors::ForkError>,
    bucket_outcomes: Vec<Result<(), errors::ForkError>>,
) -> (r: Result<(), errors::ForkError>)
    requires
        bucket_outcomes@.len() == config.storage@.len(),
    ensures
        db_outcome is Err ==> r is Err && r->Err_0 == db_outcome->Err_0,
        db_outcome is Ok && (exists|i: int|
            0 <= i < bucket_outcomes@.len() && bucket_outcomes@[i] is Err) ==> r is Err && (exists|
            i: int,
        |
            0 <= i < bucket_outcomes@.len() && #[trigger] bucket_outcomes@[i] is Err && (forall|
                j: int,
            |
                0 <= j < i ==> bucket_outcomes@[j] is Ok) && r->Err_0 == bucket_outcomes@[i]->Err_0),
        db_outcome is Ok && (forall|i: int|
            0 <= i < bucket_outcomes@.len() ==> #[trigger] bucket_outcomes@[i] is Ok) ==> r is Ok,
{
    match db_outcome {
        Ok(_) => {},
        Err(e) => {
            return Err(e);
        },
    }
    let mut rest = bucket_outcomes;
    let mut idx: usize = 0;
    let ghost all = rest@;
    while idx < config.storage.len()
        invariant
            all == bucket_outcomes@,
            all.len() == config.storage@.len(),
            idx + rest@.len() == all.len(),
            rest@ == all.subrange(idx as int, all.len() as int),
            db_outcome is Ok,
            forall|j: int| 0 <= j < idx ==> #[trigger] all[j] is Ok,
        decreases rest@.len(),
    {
        let oc = rest.remove(0);
        proof {
            assert(oc == all[idx as int]);
            assert(rest@ =~= all.subrange(idx + 1, all.len() as int));
        }
        match oc {
            Err(e) => {
                return Err(e);
            },
            Ok(_) => {},
        }
        idx += 1;
    }
    Ok(())
}

/// Generates a likely-unique fork name: a clock reading is mixed into a
/// 64-bit hash value, and the name is composed from that value alone.
pub fn generate_fork_name() -> (r: String)
    ensures
        exists|h: u64| r@ == fork_name_of(h),
{
    let t = unix_now_nanos();
    let mut x: u64 = if t == 0 {
        0x9E3779B97F4A7C15u64
    } else {
        t
    };
    x = x ^ (x << 13);
    x = x ^ (x >> 7);
    x = x ^ (x << 17);
    fork_name_from_hash(x)
}

} // verus!
