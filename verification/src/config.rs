//! Configuration values the core consumes.
//!
//! Loading (environment, command line) happens outside the library;
//! this module holds the values, the `owner/name=path` mapping-table
//! parser, and the lookup that decides where a repository's working
//! copy lives.

use vstd::prelude::*;
use vstd::string::*;

use crate::text::{
    lemma_split_on_with_sep, spec_has_char, spec_split_on, split_str, str_contains_char, str_eq,
};

verus! {

/// Rejections of a proposed configuration.
#[derive(Debug, Clone, PartialEq, Eq)]
pub enum ConfigError {
    MissingWorkingDirectory(String),
}

/// The character sequence `message` renders for a given error.
pub open spec fn spec_config_error_message(e: &ConfigError) -> Seq<char> {
    match e {
        ConfigError::MissingWorkingDirectory(p) => "Missing working directory: '"@ + p@
            + "'. Make sure it exists on disk."@,
    }
}

impl ConfigError {
    /// Human-readable description for the operator.
    pub fn message(&self) -> (r: String)
        ensures
            r@ == spec_config_error_message(self),
    {
        match self {
            ConfigError::MissingWorkingDirectory(p) => {
                let mut s = String::from_str("Missing working directory: '");
                s.append(p.as_str());
                s.append("'. Make sure it exists on disk.");
                s
            },
        }
    }
}

/// The views of the key/value pairs of a mapping table.
pub open spec fn spec_pair_views(entries: Seq<(String, String)>) -> Seq<(Seq<char>, Seq<char>)> {
    entries.map_values(|p: (String, String)| (p.0@, p.1@))
}

/// The key/value pair an `owner/name=path` entry denotes: the part
/// before the first `=` and the part between the first and second
/// `=` (or the rest, with no second `=`).
pub open spec fn spec_entry_pair(e: Seq<char>) -> (Seq<char>, Seq<char>) {
    let parts = spec_split_on(e, '=');
    (parts[0], if parts.len() >= 2 {
        parts[1]
    } else {
        Seq::empty()
    })
}

/// The mapping entries a configuration string denotes, in order.
pub open spec fn spec_mapping_entries(conf: Seq<char>) -> Seq<(Seq<char>, Seq<char>)> {
    spec_split_on(conf, ',').map_values(|e: Seq<char>| spec_entry_pair(e))
}

/// Every comma-separated entry of `conf` carries an `=`.
pub open spec fn spec_mapping_conf_well_formed(conf: Seq<char>) -> bool {
    forall|k: int| 0 <= k < spec_split_on(conf, ',').len() ==> spec_has_char(
        #[trigger] spec_split_on(conf, ',')[k],
        '=',
    )
}

/// The value the mapping table holds for `key`, later entries
/// overriding earlier ones.
pub open spec fn spec_mapping_lookup(
    entries: Seq<(Seq<char>, Seq<char>)>,
    key: Seq<char>,
) -> Option<Seq<char>>
    decreases entries.len(),
{
    if entries.len() == 0 {
        None
    } else if entries.last().0 == key {
        Some(entries.last().1)
    } else {
        spec_mapping_lookup(entries.drop_last(), key)
    }
}

/// Decides whether `conf` is acceptable to [`parse_repo_mapping`]:
/// every comma-separated entry must carry an `=`.
pub fn repo_mapping_conf_well_formed(conf: &str) -> (r: bool)
    ensures
        r == spec_mapping_conf_well_formed(conf@),
{
    let entries = split_str(conf, ',');
    let n = entries.len();
    let mut i: usize = 0;
    while i < n
        invariant
            i <= n,
            n == entries@.len(),
            crate::text::spec_views(entries@) == spec_split_on(conf@, ','),
            forall|k: int| 0 <= k < i ==> spec_has_char(
                #[trigger] spec_split_on(conf@, ',')[k],
                '=',
            ),
        decreases n - i,
    {
        if !str_contains_char(entries[i].as_str(), '=') {
            proof {
                assert(spec_split_on(conf@, ',')[i as int] == entries@[i as int]@);
            }
            return false;
        }
        proof {
            assert(spec_split_on(conf@, ',')[i as int] == entries@[i as int]@);
        }
        i += 1;
    }
    true
}

/// Parses an `owner/name=path,owner2/name2=path2` mapping string
/// into its key/value pairs, in order.
pub fn parse_repo_mapping(conf: &str) -> (r: Vec<(String, String)>)
    requires
        spec_mapping_conf_well_formed(conf@),
    ensures
        spec_pair_views(r@) == spec_mapping_entries(conf@),
{
    let entries = split_str(conf, ',');
    let mut out: Vec<(String, String)> = Vec::new();
    let n = entries.len();
    let mut i: usize = 0;
    while i < n
        invariant
            i <= n,
            n == entries@.len(),
            crate::text::spec_views(entries@) == spec_split_on(conf@, ','),
            spec_mapping_conf_well_formed(conf@),
            spec_pair_views(out@) =~~= spec_mapping_entries(conf@).take(i as int),
        decreases n - i,
    {
        let ghost prev_out = out@;
        proof {
            assert(spec_split_on(conf@, ',')[i as int] == entries@[i as int]@);
            lemma_split_on_with_sep(entries@[i as int]@, '=');
        }
        let parts = split_str(entries[i].as_str(), '=');
        let key = parts[0].clone();
        let value = parts[1].clone();
        out.push((key, value));
        proof {
            assert(crate::text::spec_views(entries@).len() == entries@.len());
            assert(spec_mapping_entries(conf@).len() == spec_split_on(conf@, ',').len());
            assert(spec_pair_views(prev_out).len() == prev_out.len());
            assert(spec_pair_views(out@).len() == out@.len());
            assert(crate::text::spec_views(parts@)[0] == parts@[0]@);
            assert(crate::text::spec_views(parts@)[1] == parts@[1]@);
            assert(spec_mapping_entries(conf@)[i as int] == spec_entry_pair(
                spec_split_on(conf@, ',')[i as int],
            ));
            assert(spec_pair_views(out@)[i as int] == (out@[i as int].0@, out@[i as int].1@));
            assert(spec_pair_views(out@) =~~= spec_mapping_entries(conf@).take(i + 1));
        }
        i += 1;
    }
    proof {
        assert(spec_mapping_entries(conf@).take(n as int) =~~= spec_mapping_entries(conf@));
    }
    out
}

/// The configuration values the core consumes: hosting API root,
/// optional webhook secret, optional working directory, optional
/// telemetry endpoint, and the repository mapping table.
#[derive(Debug, Clone)]
pub struct Config {
    pub telemetry_url: Option<String>,
    pub github_api_url: String,
    pub webhook_secret: Option<String>,
    pub working_dir: Option<String>,
    pub repo_mapping: Vec<(String, String)>,
}

impl Config {
    /// A configuration with every optional value absent and a
    /// placeholder API root, as used by tests.
    pub fn empty() -> (r: Self)
        ensures
            r.telemetry_url is None,
            r.github_api_url@ == "http://localhost"@,
            r.webhook_secret is None,
            r.working_dir is None,
            r.repo_mapping@.len() == 0,
    {
        Self {
            telemetry_url: None,
            github_api_url: String::from_str("http://localhost"),
            webhook_secret: None,
            working_dir: None,
            repo_mapping: Vec::new(),
        }
    }

    /// The hosting API root.
    pub fn github_api_url(&self) -> (r: &String)
        ensures
            r@ == self.github_api_url@,
    {
        &self.github_api_url
    }

    /// The mapping table, as parsed key/value pairs.
    pub fn repo_mapping(&self) -> (r: &Vec<(String, String)>)
        ensures
            r == &self.repo_mapping,
    {
        &self.repo_mapping
    }

    /// The configured working directory, if any.
    pub fn working_dir(&self) -> (r: Option<&String>)
        ensures
            match r {
                Some(w) => self.working_dir matches Some(c) && w@ == c@,
                None => self.working_dir is None,
            },
    {
        self.working_dir.as_ref()
    }

    /// The telemetry endpoint, if any.
    pub fn telemetry_url(&self) -> (r: Option<&String>)
        ensures
            match r {
                Some(u) => self.telemetry_url matches Some(c) && u@ == c@,
                None => self.telemetry_url is None,
            },
    {
        self.telemetry_url.as_ref()
    }

    /// The shared webhook secret, if one is configured.
    pub fn webhook_secret(&self) -> (r: Option<&String>)
        ensures
            match r {
                Some(s) => self.webhook_secret matches Some(c) && s@ == c@,
                None => self.webhook_secret is None,
            },
    {
        self.webhook_secret.as_ref()
    }

    /// Replaces the hosting API root.
    pub fn set_github_api_url(&mut self, value: String)
        ensures
            *final(self) == (Config { github_api_url: value, ..*old(self) }),
    {
        self.github_api_url = value;
    }

    /// Sets the working directory.
    pub fn set_working_dir(&mut self, value: &str)
        ensures
            final(self).working_dir matches Some(w) && w@ == value@,
            final(self).telemetry_url == old(self).telemetry_url,
            final(self).github_api_url == old(self).github_api_url,
            final(self).webhook_secret == old(self).webhook_secret,
            final(self).repo_mapping == old(self).repo_mapping,
    {
        self.working_dir = Some(value.to_owned());
    }

    /// Sets the telemetry endpoint.
    pub fn set_telemetry_url(&mut self, value: String)
        ensures
            *final(self) == (Config { telemetry_url: Some(value), ..*old(self) }),
    {
        self.telemetry_url = Some(value);
    }

    /// Sets the shared webhook secret.
    pub fn set_webhook_secret(&mut self, value: &str)
        ensures
            final(self).webhook_secret matches Some(s) && s@ == value@,
            final(self).telemetry_url == old(self).telemetry_url,
            final(self).github_api_url == old(self).github_api_url,
            final(self).working_dir == old(self).working_dir,
            final(self).repo_mapping == old(self).repo_mapping,
    {
        self.webhook_secret = Some(value.to_owned());
    }

    /// Replaces the mapping table with the pairs `conf` denotes.
    pub fn set_repo_mapping(&mut self, conf: &str)
        requires
            spec_mapping_conf_well_formed(conf@),
        ensures
            spec_pair_views(final(self).repo_mapping@) == spec_mapping_entries(conf@),
            final(self).telemetry_url == old(self).telemetry_url,
            final(self).github_api_url == old(self).github_api_url,
            final(self).webhook_secret == old(self).webhook_secret,
            final(self).working_dir == old(self).working_dir,
    {
        self.repo_mapping = parse_repo_mapping(conf);
    }

    /// The mapped local path for a repository's full name, if the
    /// table holds one; later entries override earlier ones.
    pub fn repo_mapping_lookup(&self, key: &str) -> (r: Option<&String>)
        ensures
            match r {
                Some(v) => spec_mapping_lookup(spec_pair_views(self.repo_mapping@), key@)
                    == Some(v@),
                None => spec_mapping_lookup(spec_pair_views(self.repo_mapping@), key@) is None,
            },
    {
        let n = self.repo_mapping.len();
        let mut i: usize = n;
        proof {
            assert(spec_pair_views(self.repo_mapping@).take(n as int) =~= spec_pair_views(
                self.repo_mapping@,
            ));
        }
        while i > 0
            invariant
                i <= n,
                n == self.repo_mapping@.len(),
                spec_mapping_lookup(spec_pair_views(self.repo_mapping@), key@)
                    == spec_mapping_lookup(
                    spec_pair_views(self.repo_mapping@).take(i as int),
                    key@,
                ),
            decreases i,
        {
            i -= 1;
            let entry = &self.repo_mapping[i];
            proof {
                assert(spec_pair_views(self.repo_mapping@).take(i + 1).last()
                    == (self.repo_mapping@[i as int].0@, self.repo_mapping@[i as int].1@));
                assert(spec_pair_views(self.repo_mapping@).take(i + 1).drop_last()
                    =~= spec_pair_views(self.repo_mapping@).take(i as int));
            }
            if str_eq(entry.0.as_str(), key) {
                return Some(&entry.1);
            }
        }
        proof {
            assert(spec_pair_views(self.repo_mapping@).take(0).len() == 0);
        }
        None
    }

    /// Accepts the configuration unless it names a working directory
    /// that the caller observed to be absent on disk.
    pub fn validate_configuration(&self, working_dir_exists: bool) -> (r: Result<(), ConfigError>)
        ensures
            r is Ok <==> (self.working_dir is None || working_dir_exists),
            r matches Err(e) ==> (self.working_dir matches Some(w)
                && e matches ConfigError::MissingWorkingDirectory(p) && p@ == w@),
    {
        match &self.working_dir {
            Some(w) => {
                if working_dir_exists {
                    Ok(())
                } else {
                    Err(ConfigError::MissingWorkingDirectory(w.clone()))
                }
            },
            None => Ok(()),
        }
    }
}

} // verus!
