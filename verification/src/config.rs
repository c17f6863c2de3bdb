//! The project configuration: its shape, its defaults, the choice of the
//! configuration file among discovered candidates, and the verified loader
//! over the toml crate's document model.

use vstd::prelude::*;
use vstd::string::*;

use crate::errors::ForkError;
use crate::toml_data::{
    map_key_list, map_lookup, toml_as_str, toml_as_table, toml_get, toml_keys, toml_parse,
    toml_parse_ok, toml_root, value_as_map, value_as_string,
};

verus! {

/// The database provider, organization, production database and optional
/// placement group to fork under.
#[derive(Debug, Clone)]
pub struct DatabaseConfig {
    pub provider: String,
    pub organization: String,
    pub production: String,
    pub group: Option<String>,
}

/// One named storage bucket: its provider, bucket name, and optional
/// endpoint, region and root prefix.
#[derive(Debug, Clone)]
pub struct StorageConfig {
    pub provider: String,
    pub bucket: String,
    pub endpoint: Option<String>,
    pub region: Option<String>,
    pub prefix: Option<String>,
}

/// The whole configuration: the database section and the labelled storage
/// entries in their iteration order.
#[derive(Debug, Clone)]
pub struct Config {
    pub database: DatabaseConfig,
    pub storage: Vec<(String, StorageConfig)>,
}

/// The string stored in a table at a key, when a string is stored there.
pub open spec fn str_field(t: toml::map::Map<String, toml::Value>, key: Seq<char>) -> Option<
    Seq<char>,
> {
    match map_lookup(t, key) {
        Some(v) => value_as_string(v),
        None => None,
    }
}

/// Whether an optional string field is acceptable: absent, or a string.
pub open spec fn opt_field_ok(t: toml::map::Map<String, toml::Value>, key: Seq<char>) -> bool {
    match map_lookup(t, key) {
        None => true,
        Some(v) => value_as_string(v) is Some,
    }
}

/// How a parsed optional field relates to a stored value: absent maps to
/// absent, a string maps to exactly that string.
pub open spec fn opt_matches(o: Option<String>, v: Option<toml::Value>) -> bool {
    match v {
        None => o is None,
        Some(val) => o matches Some(x) && Some(x@) == value_as_string(val),
    }
}

/// The `database` section of a configuration text, when the text parses
/// and holds one as a table.
pub open spec fn database_section(s: Seq<char>) -> Option<toml::map::Map<String, toml::Value>> {
    if toml_parse_ok(s) {
        match map_lookup(toml_root(s), "database"@) {
            Some(v) => value_as_map(v),
            None => None,
        }
    } else {
        None
    }
}

/// Whether a database section holds the three required string fields and
/// an acceptable optional group.
pub open spec fn database_section_ok(t: toml::map::Map<String, toml::Value>) -> bool {
    str_field(t, "provider"@) is Some && str_field(t, "organization"@) is Some && str_field(
        t,
        "production"@,
    ) is Some && opt_field_ok(t, "group"@)
}

/// The `storage` section's table, when the text parses and holds one.
pub open spec fn storage_table(s: Seq<char>) -> Option<toml::map::Map<String, toml::Value>> {
    if toml_parse_ok(s) {
        match map_lookup(toml_root(s), "storage"@) {
            Some(v) => value_as_map(v),
            None => None,
        }
    } else {
        None
    }
}

/// The entry table stored under a label of the storage section.
pub open spec fn storage_entry(st: toml::map::Map<String, toml::Value>, label: Seq<char>) -> Option<
    toml::map::Map<String, toml::Value>,
> {
    match map_lookup(st, label) {
        Some(v) => value_as_map(v),
        None => None,
    }
}

/// Whether one storage entry is well-shaped: a table with required
/// `provider` and `bucket` strings and acceptable optional fields.
pub open spec fn storage_entry_ok(
    st: toml::map::Map<String, toml::Value>,
    label: Seq<char>,
) -> bool {
    storage_entry(st, label) matches Some(e) && str_field(e, "provider"@) is Some && str_field(
        e,
        "bucket"@,
    ) is Some && opt_field_ok(e, "endpoint"@) && opt_field_ok(e, "region"@) && opt_field_ok(
        e,
        "prefix"@,
    )
}

/// Whether every entry of a storage table is well-shaped.
pub open spec fn storage_entries_ok(st: toml::map::Map<String, toml::Value>) -> bool {
    forall|i: int|
        0 <= i < map_key_list(st).len() ==> storage_entry_ok(st, #[trigger] map_key_list(st)[i])
}

/// Whether the storage section as a whole is acceptable: absent, or a
/// table whose every entry is well-shaped.
pub open spec fn storage_section_ok(s: Seq<char>) -> bool {
    match map_lookup(toml_root(s), "storage"@) {
        None => true,
        Some(v) => value_as_map(v) matches Some(st) && storage_entries_ok(st),
    }
}

/// The labels of the storage entries, in iteration order; empty when the
/// section is absent.
pub open spec fn storage_labels(s: Seq<char>) -> Seq<Seq<char>> {
    match storage_table(s) {
        Some(st) => map_key_list(st),
        None => Seq::empty(),
    }
}

/// Whether a configuration text parses into the expected structure.
pub open spec fn config_text_ok(s: Seq<char>) -> bool {
    toml_parse_ok(s) && (database_section(s) matches Some(db) && database_section_ok(db))
        && storage_section_ok(s)
}

/// How one parsed storage pair relates to its entry table.
pub open spec fn entry_matches(
    p: (String, StorageConfig),
    label: Seq<char>,
    e: toml::map::Map<String, toml::Value>,
) -> bool {
    p.0@ == label && p.1.provider@ == str_field(e, "provider"@)->Some_0 && p.1.bucket@ == str_field(
        e,
        "bucket"@,
    )->Some_0 && opt_matches(p.1.endpoint, map_lookup(e, "endpoint"@)) && opt_matches(
        p.1.region,
        map_lookup(e, "region"@),
    ) && opt_matches(p.1.prefix, map_lookup(e, "prefix"@))
}

/// How a parsed configuration relates to the text it came from: every
/// database field equals the stored string, the optional group is carried
/// over exactly, and the storage entries follow the section's labels in
/// order.
pub open spec fn config_matches_text(c: Config, s: Seq<char>) -> bool {
    let db = database_section(s)->Some_0;
    let labels = storage_labels(s);
    c.database.provider@ == str_field(db, "provider"@)->Some_0 && c.database.organization@
        == str_field(db, "organization"@)->Some_0 && c.database.production@ == str_field(
        db,
        "production"@,
    )->Some_0 && opt_matches(c.database.group, map_lookup(db, "group"@)) && c.storage@.len()
        == labels.len() && (forall|i: int|
        0 <= i < labels.len() ==> entry_matches(
            #[trigger] c.storage@[i],
            labels[i],
            storage_entry(storage_table(s)->Some_0, labels[i])->Some_0,
        ))
}

proof fn lemma_entry_bad(
    s: Seq<char>,
    sv: toml::Value,
    st: toml::map::Map<String, toml::Value>,
    i: int,
)
    requires
        map_lookup(toml_root(s), "storage"@) == Some(sv),
        value_as_map(sv) == Some(st),
        0 <= i < map_key_list(st).len(),
        !storage_entry_ok(st, map_key_list(st)[i]),
    ensures
        !storage_section_ok(s),
{
    if storage_section_ok(s) {
        assert(storage_entries_ok(st));
        assert(storage_entry_ok(st, map_key_list(st)[i]));
    }
}

fn get_str(t: &toml::map::Map<String, toml::Value>, key: &str) -> (r: Option<String>)
    ensures
        match r {
            Some(s) => str_field(*t, key@) == Some(s@),
            None => str_field(*t, key@) is None,
        },
{
    match toml_get(t, key) {
        Some(v) => match toml_as_str(v) {
            Some(s) => Some(String::from_str(s)),
            None => None,
        },
        None => None,
    }
}

fn get_opt_str(t: &toml::map::Map<String, toml::Value>, key: &str) -> (r: Result<
    Option<String>,
    (),
>)
    ensures
        match r {
            Ok(o) => match o {
                Some(s) => map_lookup(*t, key@) matches Some(v) && value_as_string(v) == Some(s@),
                None => map_lookup(*t, key@) is None,
            },
            Err(_) => map_lookup(*t, key@) matches Some(v) && value_as_string(v) is None,
        },
{
    match toml_get(t, key) {
        None => Ok(None),
        Some(v) => match toml_as_str(v) {
            Some(s) => Ok(Some(String::from_str(s))),
            None => Err(()),
        },
    }
}

impl Config {
    /// Parses a configuration text; `origin` names the file in the error.
    /// Parsing succeeds exactly on texts of the expected structure, and
    /// every field of the result equals what the text stores.
    pub fn from_toml_str(text: &str, origin: &str) -> (r: Result<Config, ForkError>)
        ensures
            r is Ok <==> config_text_ok(text@),
            r matches Ok(c) ==> config_matches_text(c, text@),
            r matches Err(e) ==> e matches ForkError::ConfigParse { path } && path@ == origin@,
    {
        let parse_err = ForkError::ConfigParse { path: String::from_str(origin) };
        let root = match toml_parse(text) {
            Ok(t) => t,
            Err(_) => {
                return Err(parse_err);
            },
        };
        let db = match toml_get(&root, "database") {
            Some(v) => match toml_as_table(v) {
                Some(t) => t,
                None => {
                    return Err(parse_err);
                },
            },
            None => {
                return Err(parse_err);
            },
        };
        let provider = match get_str(db, "provider") {
            Some(s) => s,
            None => {
                return Err(parse_err);
            },
        };
        let organization = match get_str(db, "organization") {
            Some(s) => s,
            None => {
                return Err(parse_err);
            },
        };
        let production = match get_str(db, "production") {
            Some(s) => s,
            None => {
                return Err(parse_err);
            },
        };
        let group = match get_opt_str(db, "group") {
            Ok(o) => o,
            Err(_) => {
                return Err(parse_err);
            },
        };
        let mut storage: Vec<(String, StorageConfig)> = Vec::new();
        match toml_get(&root, "storage") {
            None => {},
            Some(sv) => {
                let st = match toml_as_table(sv) {
                    Some(t) => t,
                    None => {
                        return Err(parse_err);
                    },
                };
                let labels = toml_keys(st);
                let mut i: usize = 0;
                while i < labels.len()
                    invariant
                        i <= labels.len(),
                        toml_parse_ok(text@),
                        map_lookup(toml_root(text@), "storage"@) == Some(*sv),
                        value_as_map(*sv) == Some(*st),
                        (parse_err matches ForkError::ConfigParse { path } && path@ == origin@),
                        labels.deep_view() == map_key_list(*st),
                        forall|j: int|
                            0 <= j < labels@.len() ==> #[trigger] map_lookup(
                                *st,
                                labels@[j]@,
                            ) is Some,
                        storage@.len() == i,
                        forall|j: int|
                            0 <= j < i ==> storage_entry_ok(*st, #[trigger] map_key_list(*st)[j]),
                        forall|j: int|
                            0 <= j < i ==> entry_matches(
                                #[trigger] storage@[j],
                                map_key_list(*st)[j],
                                storage_entry(*st, map_key_list(*st)[j])->Some_0,
                            ),
                    decreases labels.len() - i,
                {
                    proof {
                        assert(labels@[i as int]@ == map_key_list(*st)[i as int]);
                    }
                    let ev = match toml_get(st, labels[i].as_str()) {
                        Some(v) => v,
                        None => {
                            proof {
                                assert(false);
                            }
                            return Err(parse_err);
                        },
                    };
                    let e = match toml_as_table(ev) {
                        Some(t) => t,
                        None => {
                            proof {
                                assert(!storage_entry_ok(*st, map_key_list(*st)[i as int]));
                                lemma_entry_bad(text@, *sv, *st, i as int);
                            }
                            return Err(parse_err);
                        },
                    };
                    let eprovider = match get_str(e, "provider") {
                        Some(s) => s,
                        None => {
                            proof {
                                assert(!storage_entry_ok(*st, map_key_list(*st)[i as int]));
                                lemma_entry_bad(text@, *sv, *st, i as int);
                            }
                            return Err(parse_err);
                        },
                    };
                    let ebucket = match get_str(e, "bucket") {
                        Some(s) => s,
                        None => {
                            proof {
                                assert(!storage_entry_ok(*st, map_key_list(*st)[i as int]));
                                lemma_entry_bad(text@, *sv, *st, i as int);
                            }
                            return Err(parse_err);
                        },
                    };
                    let eendpoint = match get_opt_str(e, "endpoint") {
                        Ok(o) => o,
                        Err(_) => {
                            proof {
                                assert(!storage_entry_ok(*st, map_key_list(*st)[i as int]));
                                lemma_entry_bad(text@, *sv, *st, i as int);
                            }
                            return Err(parse_err);
                        },
                    };
                    let eregion = match get_opt_str(e, "region") {
                        Ok(o) => o,
                        Err(_) => {
                            proof {
                                assert(!storage_entry_ok(*st, map_key_list(*st)[i as int]));
                                lemma_entry_bad(text@, *sv, *st, i as int);
                            }
                            return Err(parse_err);
                        },
                    };
                    let eprefix = match get_opt_str(e, "prefix") {
                        Ok(o) => o,
                        Err(_) => {
                            proof {
                                assert(!storage_entry_ok(*st, map_key_list(*st)[i as int]));
                                lemma_entry_bad(text@, *sv, *st, i as int);
                            }
                            return Err(parse_err);
                        },
                    };
                    storage.push(
                        (
                            labels[i].clone(),
                            StorageConfig {
                                provider: eprovider,
                                bucket: ebucket,
                                endpoint: eendpoint,
                                region: eregion,
                                prefix: eprefix,
                            },
                        ),
                    );
                    i += 1;
                }
            },
        }
        let c = Config {
            database: DatabaseConfig { provider, organization, production, group },
            storage,
        };
        proof {
            assert(config_text_ok(text@));
            assert(config_matches_text(c, text@));
        }
        Ok(c)
    }

    /// The configured group, or the literal default.
    pub fn database_group(&self) -> (r: String)
        ensures
            r@ == group_or_default(self.database.group),
    {
        match &self.database.group {
            Some(g) => String::from_str(g.as_str()),
            None => String::from_str("default"),
        }
    }

    /// The labelled storage entries, in the configuration's order.
    pub fn storage_configs(&self) -> (r: &Vec<(String, StorageConfig)>)
        ensures
            r@ == self.storage@,
    {
        &self.storage
    }
}

/// The configured group when one is set, the literal `default` otherwise.
pub open spec fn group_or_default(group: Option<String>) -> Seq<char> {
    match group {
        Some(g) => g@,
        None => "default"@,
    }
}

/// The configured root prefix when one is set, the literal `forks/`
/// otherwise.
pub open spec fn prefix_or_default(prefix: Option<String>) -> Seq<char> {
    match prefix {
        Some(p) => p@,
        None => "forks/"@,
    }
}

impl StorageConfig {
    /// The root prefix under which this bucket's forks live, or the
    /// literal default.
    pub fn fork_prefix(&self) -> (r: String)
        ensures
            r@ == prefix_or_default(self.prefix),
    {
        match &self.prefix {
            Some(p) => String::from_str(p.as_str()),
            None => String::from_str("forks/"),
        }
    }
}

/// The text of an example configuration.
pub open spec fn example_text() -> Seq<char> {
    "[database]\nprovider = \"turso\"\norganization = \"my-org\"\nproduction = \"my-app-prod\"\ngroup = \"default\"  # optional\n\n[storage.uploads]\nprovider = \"tigris\"\nbucket = \"my-uploads-bucket\"\nendpoint = \"https://fly.storage.tigris.dev\"\nprefix = \"forks/\"\n\n[storage.assets]\nprovider = \"s3\"\nbucket = \"my-assets-bucket\"\nregion = \"us-east-1\"\nprefix = \"forks/\"\n"@
}

/// An example configuration for documentation.
pub fn example_config() -> (r: &'static str)
    ensures
        r@ == example_text(),
{
    "[database]\nprovider = \"turso\"\norganization = \"my-org\"\nproduction = \"my-app-prod\"\ngroup = \"default\"  # optional\n\n[storage.uploads]\nprovider = \"tigris\"\nbucket = \"my-uploads-bucket\"\nendpoint = \"https://fly.storage.tigris.dev\"\nprefix = \"forks/\"\n\n[storage.assets]\nprovider = \"s3\"\nbucket = \"my-assets-bucket\"\nregion = \"us-east-1\"\nprefix = \"forks/\"\n"
}

/// One directory's two candidate configuration files, dotted name first,
/// each with whether it exists.
pub struct DirProbe {
    pub dotted_path: String,
    pub dotted_exists: bool,
    pub plain_path: String,
    pub plain_exists: bool,
}

/// The path the discovery walk settles on: in each directory from the
/// innermost outward, the dotted candidate before the plain one; nothing
/// when no candidate exists anywhere.
pub open spec fn chosen_path(probes: Seq<DirProbe>) -> Option<Seq<char>>
    decreases probes.len(),
{
    if probes.len() == 0 {
        None
    } else if probes[0].dotted_exists {
        Some(probes[0].dotted_path@)
    } else if probes[0].plain_exists {
        Some(probes[0].plain_path@)
    } else {
        chosen_path(probes.drop_first())
    }
}

/// Chooses the configuration file among the probed directories, innermost
/// first; when none has a candidate, fails with the not-found error whose
/// message holds a minimal example configuration.
pub fn select_config_file(probes: &Vec<DirProbe>) -> (r: Result<String, ForkError>)
    ensures
        r matches Ok(p) ==> chosen_path(probes@) == Some(p@),
        r is Err <==> chosen_path(probes@) is None,
        r matches Err(e) ==> e == ForkError::ConfigNotFound,
{
    let mut i: usize = 0;
    proof {
        assert(probes@.subrange(0, probes.len() as int) =~= probes@);
    }
    while i < probes.len()
        invariant
            i <= probes.len(),
            chosen_path(probes@) == chosen_path(probes@.subrange(i as int, probes.len() as int)),
        decreases probes.len() - i,
    {
        let ghost rest = probes@.subrange(i as int, probes.len() as int);
        proof {
            assert(rest[0] == probes@[i as int]);
        }
        if probes[i].dotted_exists {
            return Ok(probes[i].dotted_path.clone());
        }
        if probes[i].plain_exists {
            return Ok(probes[i].plain_path.clone());
        }
        proof {
            assert(rest.drop_first() =~= probes@.subrange(i + 1, probes.len() as int));
        }
        i += 1;
    }
    proof {
        assert(probes@.subrange(i as int, probes.len() as int) =~= Seq::<DirProbe>::empty());
    }
    Err(ForkError::ConfigNotFound)
}

} // verus!
