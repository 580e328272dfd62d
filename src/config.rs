//! Configuration resolution: explicit command-line values, then layered
//! configuration files in search order (project level before user level),
//! then hard-coded defaults.
use vstd::prelude::*;

verus! {

#[verifier::external_type_specification]
#[verifier::external_body]
pub struct ExTomlValue(toml::Value);

#[verifier::external_type_specification]
#[verifier::external_body]
pub struct ExTomlError(toml::de::Error);

/// Whether `text` is a TOML document that the toml crate accepts.
pub uninterp spec fn toml_parses(text: Seq<char>) -> bool;

/// The string stored under the top-level `key` of the TOML document `text`,
/// if there is one and it is a string.
pub uninterp spec fn toml_string_at(text: Seq<char>, key: Seq<char>) -> Option<Seq<char>>;

/// Relies on `<toml::Value as FromStr>::from_str` to parse `text`, failing
/// exactly on documents it rejects, and on `toml::Value::get` with
/// `toml::Value::as_str` to read the string under `key` (`None` where the key
/// is missing or holds another kind of value).
#[verifier::external_body]
fn toml_string_entry(text: &str, key: &str) -> (r: Result<Option<String>, toml::de::Error>)
    ensures
        r.is_ok() == toml_parses(text@),
        r matches Ok(v) ==> opt_view(v) == toml_string_at(text@, key@),
{
    match text.parse::<toml::Value>() {
        Ok(doc) => Ok(doc.get(key).and_then(toml::Value::as_str).map(String::from)),
        Err(e) => Err(e),
    }
}

/// The view of an optional string.
pub open spec fn opt_view(o: Option<String>) -> Option<Seq<char>> {
    match o {
        Some(s) => Some(s@),
        None => None,
    }
}

/// What one configuration source says about one key.
#[derive(Clone, Debug, PartialEq, Eq)]
pub enum SourceEntry {
    /// The source does not exist or could not be read.
    Missing,
    /// The source exists but is not a valid document; it counts as missing.
    Malformed,
    /// The source is valid and does not define the key as a string.
    Undefined,
    /// The source defines the key.
    Defined(String),
}

/// The value that an entry contributes to resolution.
pub open spec fn entry_value(e: SourceEntry) -> Option<Seq<char>> {
    match e {
        SourceEntry::Defined(s) => Some(s@),
        _ => None,
    }
}

/// The values that a list of entries contributes, in search order.
pub open spec fn entry_values(entries: Seq<SourceEntry>) -> Seq<Option<Seq<char>>> {
    entries.map_values(|e: SourceEntry| entry_value(e))
}

/// The value of the first source that defines the key.
pub open spec fn first_defined(values: Seq<Option<Seq<char>>>) -> Option<Seq<char>>
    decreases values.len(),
{
    if values.len() == 0 {
        None
    } else if values[0] is Some {
        values[0]
    } else {
        first_defined(values.drop_first())
    }
}

/// Resolution by precedence: explicit value, then the first source that
/// defines the key, then the default.
pub open spec fn resolved(
    explicit: Option<Seq<char>>,
    values: Seq<Option<Seq<char>>>,
    default: Option<Seq<char>>,
) -> Option<Seq<char>> {
    if explicit is Some {
        explicit
    } else if first_defined(values) is Some {
        first_defined(values)
    } else {
        default
    }
}

/// Reads what the configuration document `text` says about `key`. A document
/// that does not parse gives `Malformed`, which resolution treats as missing.
pub fn lookup_entry(text: &str, key: &str) -> (r: SourceEntry)
    ensures
        (r == SourceEntry::Malformed) == !toml_parses(text@),
        toml_parses(text@) ==> entry_value(r) == toml_string_at(text@, key@),
        r != SourceEntry::Missing,
{
    match toml_string_entry(text, key) {
        Ok(Some(v)) => SourceEntry::Defined(v),
        Ok(None) => SourceEntry::Undefined,
        Err(_) => SourceEntry::Malformed,
    }
}

/// Resolves one setting from its explicit value, the configuration sources in
/// search order, and its default.
pub fn resolve_setting(
    explicit: &Option<String>,
    entries: &Vec<SourceEntry>,
    default: &Option<String>,
) -> (r: Option<String>)
    ensures
        opt_view(r) == resolved(opt_view(*explicit), entry_values(entries@), opt_view(*default)),
{
    if let Some(v) = explicit {
        return Some(v.clone());
    }
    assert(opt_view(*explicit) is None);
    let n = entries.len();
    let mut i: usize = 0;
    assert(entry_values(entries@).subrange(0, n as int) =~= entry_values(entries@));
    while i < n
        invariant
            i <= n,
            n == entries@.len(),
            first_defined(entry_values(entries@)) == first_defined(
                entry_values(entries@).subrange(i as int, n as int),
            ),
            opt_view(*explicit) is None,
        decreases n - i,
    {
        let ghost rest = entry_values(entries@).subrange(i as int, n as int);
        assert(rest.drop_first() =~= entry_values(entries@).subrange(i + 1, n as int));
        assert(rest[0] == entry_value(entries@[i as int]));
        if let SourceEntry::Defined(v) = &entries[i] {
            let r = v.clone();
            assert(rest[0] == Some(r@));
            assert(first_defined(rest) == Some(r@));
            return Some(r);
        }
        i = i + 1;
    }
    assert(entry_values(entries@).subrange(n as int, n as int) =~= Seq::empty());
    match default {
        Some(d) => Some(d.clone()),
        None => None,
    }
}

/// A configuration error that ends the run before any network activity.
#[derive(Clone, Copy, Debug, PartialEq, Eq)]
pub enum ConfigError {
    /// No build server was given, neither by flag nor by a configuration file.
    NoRemoteServer,
}

/// Exit status of a run without a build server.
pub const EXIT_NO_REMOTE: i32 = -3;

impl ConfigError {
    /// The process exit status for this error.
    pub fn exit_code(&self) -> (r: i32)
        ensures
            r == EXIT_NO_REMOTE,
    {
        EXIT_NO_REMOTE
    }

    /// A message that tells the user how to fix the error.
    pub fn message(&self) -> (r: String)
        ensures
            r@ == "No remote build server was defined (use config file or --remote flag)"@,
    {
        String::from_str("No remote build server was defined (use config file or --remote flag)")
    }
}

/// Resolves the build server: it has no default, so when neither the flag nor
/// any source defines it, resolution fails.
pub fn resolve_remote(explicit: &Option<String>, entries: &Vec<SourceEntry>) -> (r: Result<
    String,
    ConfigError,
>)
    ensures
        r is Err <==> resolved(opt_view(*explicit), entry_values(entries@), None) is None,
        r matches Err(e) ==> e == ConfigError::NoRemoteServer,
        r matches Ok(s) ==> Some(s@) == resolved(opt_view(*explicit), entry_values(entries@), None),
{
    match resolve_setting(explicit, entries, &None) {
        Some(s) => Ok(s),
        None => Err(ConfigError::NoRemoteServer),
    }
}

/// An explicit value wins over every configuration source and default,
/// whatever the sources hold and in whatever order they are searched.
pub proof fn lemma_explicit_wins(
    explicit: Seq<char>,
    values: Seq<Option<Seq<char>>>,
    default: Option<Seq<char>>,
)
    ensures
        resolved(Some(explicit), values, default) == Some(explicit),
{
}

/// A source that does not define the key, because it is missing, malformed or
/// silent on it, changes nothing: resolution falls through to the later
/// sources and then to the default.
pub proof fn lemma_undefined_source_falls_through(
    explicit: Option<Seq<char>>,
    entries: Seq<SourceEntry>,
    default: Option<Seq<char>>,
)
    requires
        entries.len() >= 1,
        !(entries[0] is Defined),
    ensures
        resolved(explicit, entry_values(entries), default) == resolved(
            explicit,
            entry_values(entries.drop_first()),
            default,
        ),
{
    assert(entry_values(entries).drop_first() =~= entry_values(entries.drop_first()));
}

/// Without an explicit value, the earliest source that defines the key wins
/// over every later one.
pub proof fn lemma_earlier_source_wins(
    values: Seq<Option<Seq<char>>>,
    default: Option<Seq<char>>,
    i: int,
)
    requires
        0 <= i < values.len(),
        values[i] is Some,
        forall|j: int| 0 <= j < i ==> values[j] is None,
    ensures
        resolved(None, values, default) == values[i],
    decreases i,
{
    if i > 0 {
        assert forall|j: int| 0 <= j < i - 1 implies values.drop_first()[j] is None by {
            assert(values.drop_first()[j] == values[j + 1]);
        }
        lemma_earlier_source_wins(values.drop_first(), default, i - 1);
    }
}

} // verus!
