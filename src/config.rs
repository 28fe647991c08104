//! Which storage sinks are active, and how the settings behind them are read.
use vstd::prelude::*;
use vstd::string::StringExecFns;

verus! {

/// The text that `str::to_lowercase` makes of `s`.
pub uninterp spec fn lowercase_of(s: Seq<char>) -> Seq<char>;

/// Relies on `str::to_lowercase`: its result depends on the characters of
/// its argument alone.
#[verifier::external_body]
fn lowercase(s: &str) -> (r: String)
    ensures
        r@ == lowercase_of(s@),
{
    s.to_lowercase()
}

/// The value of a boolean setting: `value` when it is set, compared with
/// `true` regardless of case, and `default` when it is not set.
pub fn flag_setting(value: Option<&str>, default: bool) -> (r: bool)
    ensures
        r == match value {
            Some(v) => lowercase_of(v@) == "true"@,
            None => default,
        },
{
    match value {
        Some(v) => {
            let lower = lowercase(v);
            let expected = String::from_str("true");
            lower == expected
        },
        None => default,
    }
}

/// The storage sinks that fetched records are written to.
#[derive(Clone, Copy, Debug, PartialEq, Eq, Structural)]
pub struct Config {
    pub save_as_csv: bool,
    pub save_as_sqlite: bool,
    pub save_as_postgres: bool,
}

/// Whether the index `k` is among `selected`.
pub fn is_selected(selected: &[usize], k: usize) -> (r: bool)
    ensures
        r == selected@.contains(k),
{
    let mut i: usize = 0;
    while i < selected.len()
        invariant
            i <= selected@.len(),
            forall|j: int| 0 <= j < i ==> selected@[j] != k,
        decreases selected@.len() - i,
    {
        if selected[i] == k {
            assert(selected@[i as int] == k);
            return true;
        }
        i = i + 1;
    }
    false
}

impl Config {
    /// The settings read from the environment: each value as `flag_setting`
    /// reads it, with CSV and SQLite on and PostgreSQL off when unset.
    pub fn from_settings(csv: Option<&str>, sqlite: Option<&str>, postgres: Option<&str>) -> (r:
        Config)
        ensures
            r.save_as_csv == match csv {
                Some(v) => lowercase_of(v@) == "true"@,
                None => true,
            },
            r.save_as_sqlite == match sqlite {
                Some(v) => lowercase_of(v@) == "true"@,
                None => true,
            },
            r.save_as_postgres == match postgres {
                Some(v) => lowercase_of(v@) == "true"@,
                None => false,
            },
    {
        Config {
            save_as_csv: flag_setting(csv, true),
            save_as_sqlite: flag_setting(sqlite, true),
            save_as_postgres: flag_setting(postgres, false),
        }
    }

    /// Turns on exactly the sinks whose menu index (0 CSV, 1 SQLite,
    /// 2 PostgreSQL) is among `selected`.
    pub fn apply_storage_selection(&mut self, selected: &[usize])
        ensures
            final(self).save_as_csv == selected@.contains(0),
            final(self).save_as_sqlite == selected@.contains(1),
            final(self).save_as_postgres == selected@.contains(2),
    {
        self.save_as_csv = is_selected(selected, 0);
        self.save_as_sqlite = is_selected(selected, 1);
        self.save_as_postgres = is_selected(selected, 2);
    }

    /// The active sinks in menu order: CSV, SQLite, PostgreSQL.
    pub fn storage_defaults(&self) -> (r: Vec<bool>)
        ensures
            r@ == seq![self.save_as_csv, self.save_as_sqlite, self.save_as_postgres],
    {
        let r = vec![self.save_as_csv, self.save_as_sqlite, self.save_as_postgres];
        assert(r@ =~= seq![self.save_as_csv, self.save_as_sqlite, self.save_as_postgres]);
        r
    }
}

/// The connection URL of a hosted PostgreSQL branch.
pub open spec fn postgres_url(
    workspace_id: Seq<char>,
    api_key: Seq<char>,
    region: Seq<char>,
    database: Seq<char>,
    branch: Seq<char>,
) -> Seq<char> {
    "postgresql://"@ + workspace_id + ":"@ + api_key + "@"@ + region + ".sql.xata.sh:5432/"@
        + database + ":"@ + branch + "?sslmode=require"@
}

/// Builds the connection URL of a hosted PostgreSQL branch from its parts.
pub fn postgres_url_for(
    workspace_id: &str,
    api_key: &str,
    region: &str,
    database: &str,
    branch: &str,
) -> (r: String)
    ensures
        r@ == postgres_url(workspace_id@, api_key@, region@, database@, branch@),
{
    let mut r = String::from_str("postgresql://");
    r.append(workspace_id);
    r.append(":");
    r.append(api_key);
    r.append("@");
    r.append(region);
    r.append(".sql.xata.sh:5432/");
    r.append(database);
    r.append(":");
    r.append(branch);
    r.append("?sslmode=require");
    r
}

} // verus!
