//! The configuration: organizations and their tokens, where the
//! configuration file lives, and switches used by the client.
use vstd::prelude::*;
use crate::order::{rank_sorted, sort_by_rank};
use crate::text::{joined, views};

verus! {

broadcast use vstd::string::group_string_axioms;

/// The organization map described by a list of (name, token) entries; a
/// later entry for a name replaces an earlier one.
pub open spec fn entries_map(s: Seq<(String, String)>) -> Map<Seq<char>, Seq<char>>
    decreases s.len(),
{
    if s.len() == 0 {
        Map::empty()
    } else {
        entries_map(s.drop_last()).insert(s.last().0@, s.last().1@)
    }
}

/// No two entries carry the same name.
pub open spec fn unique_names(s: Seq<(String, String)>) -> bool {
    forall|i: int, j: int| 0 <= i < j < s.len() ==> s[i].0@ != s[j].0@
}

/// Line shown for one organization when listing them.
pub open spec fn org_line(e: (String, String)) -> Seq<char> {
    "- "@ + e.0@ + ": "@ + e.1@
}

/// Text shown when listing the organizations of a configuration.
pub open spec fn org_listing(s: Seq<(String, String)>) -> Seq<char> {
    if s.len() == 0 {
        "No organizations in config"@
    } else {
        "Organizations\n\n"@ + joined(s.map_values(|e: (String, String)| org_line(e)), "\n"@)
    }
}

/// Name of the configuration file inside the configuration directory.
pub open spec fn config_file_in(dir: Seq<char>) -> Seq<char> {
    dir + "/lnr.cfg"@
}

pub proof fn lemma_entries_map(s: Seq<(String, String)>)
    requires
        unique_names(s),
    ensures
        forall|k: Seq<char>|
            #[trigger] entries_map(s).contains_key(k) <==> exists|i: int|
                0 <= i < s.len() && s[i].0@ == k,
        forall|i: int| 0 <= i < s.len() ==> entries_map(s)[#[trigger] s[i].0@] == s[i].1@,
    decreases s.len(),
{
    if s.len() > 0 {
        let p = s.drop_last();
        lemma_entries_map(p);
        assert forall|k: Seq<char>| #[trigger] entries_map(s).contains_key(k) <==> exists|i: int|
            0 <= i < s.len() && s[i].0@ == k by {
            if entries_map(s).contains_key(k) && k != s.last().0@ {
                assert(entries_map(p).contains_key(k));
                let i = choose|i: int| 0 <= i < p.len() && p[i].0@ == k;
                assert(s[i] == p[i]);
            }
            if entries_map(s).contains_key(k) && k == s.last().0@ {
                assert(s[s.len() - 1].0@ == k);
            }
            if exists|i: int| 0 <= i < s.len() && s[i].0@ == k {
                let i = choose|i: int| 0 <= i < s.len() && s[i].0@ == k;
                if i < s.len() - 1 {
                    assert(p[i] == s[i]);
                }
            }
        }
        assert forall|i: int| 0 <= i < s.len() implies entries_map(s)[#[trigger] s[i].0@]
            == s[i].1@ by {
            if i < s.len() - 1 {
                assert(p[i] == s[i]);
            }
        }
    }
}

/// Relies on dirs::config_dir, and on Path::to_str to read the directory
/// as text. What comes back depends on the machine, so nothing is promised.
#[verifier::external_body]
fn config_dir() -> (r: Result<String, ConfigDirError>) {
    match dirs::config_dir() {
        None => Err(ConfigDirError::Missing),
        Some(p) => match p.to_str() {
            None => Err(ConfigDirError::NotUnicode),
            Some(s) => Ok(s.to_owned()),
        },
    }
}

/// Why the configuration directory could not be used.
#[derive(Clone, Copy, Debug, PartialEq, Eq, Structural)]
pub enum ConfigDirError {
    Missing,
    NotUnicode,
}

/// The configuration file's path inside a configuration directory.
pub fn config_file_path(dir: &str) -> (r: String)
    ensures
        r@ == config_file_in(dir@),
{
    let mut r = String::from_str(dir);
    r.append("/lnr.cfg");
    r
}

/// The default path of the configuration file, inside the user's
/// configuration directory.
pub fn generate_path() -> (r: Result<String, String>)
    ensures
        r matches Ok(p) ==> exists|dir: Seq<char>| p@ == config_file_in(dir),
        r matches Err(e) ==> e@ == "Could not find config directory"@ || e@
            == "Could not convert config directory to string"@,
{
    match config_dir() {
        Ok(dir) => Ok(config_file_path(dir.as_str())),
        Err(ConfigDirError::Missing) => Err(String::from_str("Could not find config directory")),
        Err(ConfigDirError::NotUnicode) => Err(
            String::from_str("Could not convert config directory to string"),
        ),
    }
}

/// Unicode's White_Space characters, those `char::is_whitespace` accepts.
pub open spec fn is_white_space(c: char) -> bool {
    let n = c as u32;
    (9 <= n <= 13) || n == 32 || n == 0x85 || n == 0xA0 || n == 0x1680 || (0x2000 <= n <= 0x200A)
        || n == 0x2028 || n == 0x2029 || n == 0x202F || n == 0x205F || n == 0x3000
}

/// A text without its leading whitespace.
pub open spec fn trimmed_start(s: Seq<char>) -> Seq<char>
    decreases s.len(),
{
    if s.len() > 0 && is_white_space(s[0]) {
        trimmed_start(s.drop_first())
    } else {
        s
    }
}

/// A text without its trailing whitespace.
pub open spec fn trimmed_end(s: Seq<char>) -> Seq<char>
    decreases s.len(),
{
    if s.len() > 0 && is_white_space(s.last()) {
        trimmed_end(s.drop_last())
    } else {
        s
    }
}

/// A text with its leading and trailing whitespace removed.
pub open spec fn trimmed(s: Seq<char>) -> Seq<char> {
    trimmed_end(trimmed_start(s))
}

fn is_white(c: char) -> (r: bool)
    ensures
        r == is_white_space(c),
{
    let n = c as u32;
    (9 <= n && n <= 13) || n == 32 || n == 0x85 || n == 0xA0 || n == 0x1680 || (0x2000 <= n && n
        <= 0x200A) || n == 0x2028 || n == 0x2029 || n == 0x202F || n == 0x205F || n == 0x3000
}

/// The text without leading and trailing whitespace, as `str::trim` gives it.
pub fn trim_text(s: &str) -> (r: String)
    ensures
        r@ == trimmed(s@),
{
    let n = s.unicode_len();
    let mut i: usize = 0;
    assert(s@.skip(0) =~= s@);
    while i < n && is_white(s.get_char(i))
        invariant
            n == s@.len(),
            i <= n,
            trimmed_start(s@) == trimmed_start(s@.skip(i as int)),
        decreases n - i,
    {
        assert(s@.skip(i as int).drop_first() =~= s@.skip(i + 1));
        i = i + 1;
    }
    assert(trimmed_start(s@) == s@.subrange(i as int, n as int)) by {
        assert(s@.skip(i as int) =~= s@.subrange(i as int, n as int));
    }
    let mut j: usize = n;
    while j > i && is_white(s.get_char(j - 1))
        invariant
            n == s@.len(),
            i <= j <= n,
            trimmed(s@) == trimmed_end(s@.subrange(i as int, j as int)),
        decreases j,
    {
        assert(s@.subrange(i as int, j as int).drop_last() =~= s@.subrange(i as int, j - 1));
        j = j - 1;
    }
    String::from_str(s.substring_char(i, j))
}

/// Where the configuration file is: the given path without surrounding
/// whitespace, or else the default path.
pub fn config_path(given: &Option<String>) -> (r: Result<String, String>)
    ensures
        given matches Some(p) ==> (r matches Ok(q) && q@ == trimmed(p@)),
        given is None ==> {
            &&& r matches Ok(p) ==> exists|dir: Seq<char>| p@ == config_file_in(dir)
            &&& r matches Err(e) ==> e@ == "Could not find config directory"@ || e@
                == "Could not convert config directory to string"@
        },
{
    match given {
        Some(p) => Ok(trim_text(p.as_str())),
        None => generate_path(),
    }
}

/// App configuration: the organizations with their API tokens, the path of
/// the configuration file, overrides used in testing, and whether progress
/// spinners are shown.
#[derive(Clone, Debug, PartialEq, Eq)]
pub struct Config {
    /// Organizations and their tokens, each name at most once.
    pub organizations: Vec<(String, String)>,
    /// Path to the configuration file.
    pub path: String,
    /// Endpoint that replaces the API's own, for testing.
    pub mock_url: Option<String>,
    /// Answer given in place of a text prompt, for testing.
    pub mock_string: Option<String>,
    /// Answer given in place of a selection prompt, for testing.
    pub mock_select: Option<usize>,
    /// Whether spinners are enabled.
    pub spinners: Option<bool>,
}

impl Config {
    /// Organization names with their tokens.
    pub open spec fn organization_map(&self) -> Map<Seq<char>, Seq<char>> {
        entries_map(self.organizations@)
    }

    /// The entries in the order in which they are kept.
    pub open spec fn entries(&self) -> Seq<(String, String)> {
        self.organizations@
    }

    /// Each organization name is stored once.
    pub open spec fn wf(&self) -> bool {
        unique_names(self.organizations@)
    }

    /// A configuration with no organization, stored at `path`, spinners on.
    pub fn with_path(path: String) -> (r: Config)
        ensures
            r.wf(),
            r.organization_map() == Map::<Seq<char>, Seq<char>>::empty(),
            r.entries().len() == 0,
            r.path@ == path@,
            r.mock_url is None,
            r.mock_string is None,
            r.mock_select is None,
            r.spinners == Some(true),
    {
        Config {
            organizations: Vec::new(),
            path,
            mock_url: None,
            mock_string: None,
            mock_select: None,
            spinners: Some(true),
        }
    }

    /// Creates a new `Config` at the default path, with default values.
    pub fn new() -> (r: Result<Config, String>)
        ensures
            r matches Ok(c) ==> {
                &&& c.wf()
                &&& c.organization_map() == Map::<Seq<char>, Seq<char>>::empty()
                &&& c.entries().len() == 0
                &&& exists|dir: Seq<char>| c.path@ == config_file_in(dir)
                &&& c.mock_url is None && c.mock_string is None && c.mock_select is None
                &&& c.spinners == Some(true)
            },
            r matches Err(e) ==> e@ == "Could not find config directory"@ || e@
                == "Could not convert config directory to string"@,
    {
        let path = generate_path()?;
        Ok(Config::with_path(path))
    }

    /// Position of the entry named `name`, if any.
    fn find(&self, name: &String) -> (r: Option<usize>)
        requires
            self.wf(),
        ensures
            r matches Some(i) ==> i < self.organizations@.len() && self.organizations@[i as int].0@
                == name@,
            r is None ==> forall|i: int|
                0 <= i < self.organizations@.len() ==> self.organizations@[i].0@ != name@,
    {
        let mut i: usize = 0;
        while i < self.organizations.len()
            invariant
                i <= self.organizations@.len(),
                forall|j: int| 0 <= j < i ==> self.organizations@[j].0@ != name@,
            decreases self.organizations@.len() - i,
        {
            if self.organizations[i].0 == *name {
                return Some(i);
            }
            i = i + 1;
        }
        None
    }

    /// Adds an organization and its token; an existing entry of that name
    /// gets the new token.
    pub fn add_organization(&mut self, name: String, token: String)
        requires
            old(self).wf(),
        ensures
            final(self).wf(),
            final(self).organization_map() == old(self).organization_map().insert(name@, token@),
            final(self).path == old(self).path,
            final(self).mock_url == old(self).mock_url,
            final(self).mock_string == old(self).mock_string,
            final(self).mock_select == old(self).mock_select,
            final(self).spinners == old(self).spinners,
    {
        let ghost before = self.organizations@;
        let ghost (nv, tv) = (name@, token@);
        proof {
            lemma_entries_map(before);
        }
        match self.find(&name) {
            Some(i) => {
                self.organizations.set(i, (name, token));
                let ghost after = self.organizations@;
                assert(unique_names(after)) by {
                    assert forall|a: int, b: int| 0 <= a < b < after.len() implies after[a].0@
                        != after[b].0@ by {
                        if a != i && b != i {
                            assert(after[a] == before[a] && after[b] == before[b]);
                        }
                    }
                }
                proof {
                    lemma_entries_map(after);
                    assert forall|k: Seq<char>| #[trigger]
                        entries_map(after).contains_key(k) == entries_map(before).insert(
                            nv,
                            tv,
                        ).contains_key(k) by {
                        if entries_map(before).contains_key(k) {
                            let j = choose|j: int| 0 <= j < before.len() && before[j].0@ == k;
                            if j != i {
                                assert(after[j] == before[j]);
                            }
                            assert(after[j].0@ == k);
                            assert(entries_map(after).contains_key(k));
                        }
                        if k == nv {
                            assert(after[i as int].0@ == k);
                            assert(entries_map(after).contains_key(k));
                        }
                        if entries_map(after).contains_key(k) {
                            let j = choose|j: int| 0 <= j < after.len() && after[j].0@ == k;
                            if j != i {
                                assert(after[j] == before[j]);
                            }
                        }
                    }
                    assert forall|k: Seq<char>| #[trigger]
                        entries_map(after).contains_key(k) implies entries_map(after)[k]
                        == entries_map(before).insert(nv, tv)[k] by {
                        let j = choose|j: int| 0 <= j < after.len() && after[j].0@ == k;
                        assert(entries_map(after)[after[j].0@] == after[j].1@);
                        if j != i {
                            assert(after[j] == before[j]);
                            assert(entries_map(before)[before[j].0@] == before[j].1@);
                        }
                    }
                    assert(entries_map(after) =~= entries_map(before).insert(nv, tv));
                }
            },
            None => {
                self.organizations.push((name, token));
                let ghost after = self.organizations@;
                assert(after.drop_last() =~= before);
                assert(unique_names(after)) by {
                    assert forall|a: int, b: int| 0 <= a < b < after.len() implies after[a].0@
                        != after[b].0@ by {
                        assert(after[a] == before[a]);
                        if b < before.len() {
                            assert(after[b] == before[b]);
                        }
                    }
                }
            },
        }
    }

    /// Removes an organization from the configuration by its name.
    pub fn remove_organization(&mut self, name: &String)
        requires
            old(self).wf(),
        ensures
            final(self).wf(),
            final(self).organization_map() == old(self).organization_map().remove(name@),
            final(self).path == old(self).path,
            final(self).mock_url == old(self).mock_url,
            final(self).mock_string == old(self).mock_string,
            final(self).mock_select == old(self).mock_select,
            final(self).spinners == old(self).spinners,
    {
        let ghost before = self.organizations@;
        proof {
            lemma_entries_map(before);
        }
        match self.find(name) {
            Some(i) => {
                self.organizations.remove(i);
                let ghost after = self.organizations@;
                assert(after =~= before.remove(i as int));
                assert(unique_names(after)) by {
                    assert forall|a: int, b: int| 0 <= a < b < after.len() implies after[a].0@
                        != after[b].0@ by {
                        let a2 = if a < i { a } else { a + 1 };
                        let b2 = if b < i { b } else { b + 1 };
                        assert(after[a] == before[a2] && after[b] == before[b2]);
                    }
                }
                proof {
                    lemma_entries_map(after);
                    assert forall|k: Seq<char>| #[trigger]
                        entries_map(after).contains_key(k) == entries_map(before).remove(
                            name@,
                        ).contains_key(k) by {
                        if exists|j: int| 0 <= j < before.len() && before[j].0@ == k {
                            let j = choose|j: int| 0 <= j < before.len() && before[j].0@ == k;
                            if j < i {
                                assert(after[j] == before[j]);
                            } else if j > i {
                                assert(after[j - 1] == before[j]);
                            }
                        }
                        if exists|j: int| 0 <= j < after.len() && after[j].0@ == k {
                            let j = choose|j: int| 0 <= j < after.len() && after[j].0@ == k;
                            let j2 = if j < i { j } else { j + 1 };
                            assert(after[j] == before[j2]);
                        }
                    }
                    assert forall|k: Seq<char>| #[trigger]
                        entries_map(after).contains_key(k) implies entries_map(after)[k]
                        == entries_map(before).remove(name@)[k] by {
                        let j = choose|j: int| 0 <= j < after.len() && after[j].0@ == k;
                        let j2 = if j < i { j } else { j + 1 };
                        assert(after[j] == before[j2]);
                        assert(entries_map(after)[after[j].0@] == after[j].1@);
                        assert(entries_map(before)[before[j2].0@] == before[j2].1@);
                    }
                    assert(entries_map(after) =~= entries_map(before).remove(name@));
                }
            },
            None => {
                assert(entries_map(before) =~= entries_map(before).remove(name@));
            },
        }
    }

    /// Names of the organizations in the configuration, each once.
    pub fn organization_names(&self) -> (r: Vec<String>)
        requires
            self.wf(),
        ensures
            views(r@).to_set() == self.organization_map().dom(),
            views(r@).no_duplicates(),
    {
        let mut r: Vec<String> = Vec::new();
        let mut i: usize = 0;
        proof {
            lemma_entries_map(self.organizations@);
        }
        while i < self.organizations.len()
            invariant
                i <= self.organizations@.len(),
                unique_names(self.organizations@),
                r@.len() == i,
                forall|j: int| 0 <= j < i ==> #[trigger] r@[j]@ == self.organizations@[j].0@,
            decreases self.organizations@.len() - i,
        {
            r.push(self.organizations[i].0.clone());
            i = i + 1;
        }
        let ghost s = self.organizations@;
        assert forall|k: Seq<char>| views(r@).to_set().contains(k)
            == self.organization_map().dom().contains(k) by {
            if views(r@).contains(k) {
                let j = choose|j: int| 0 <= j < views(r@).len() && views(r@)[j] == k;
                assert(r@[j]@ == s[j].0@);
            }
            if self.organization_map().dom().contains(k) {
                let j = choose|j: int| 0 <= j < s.len() && s[j].0@ == k;
                assert(views(r@)[j] == k);
            }
        }
        assert(views(r@).to_set() =~= self.organization_map().dom());
        r
    }

    /// The token of the named organization.
    pub fn token(&self, organization_name: &String) -> (r: Result<String, String>)
        requires
            self.wf(),
        ensures
            self.organization_map().contains_key(organization_name@) ==> (r matches Ok(t) && t@
                == self.organization_map()[organization_name@]),
            !self.organization_map().contains_key(organization_name@) ==> (r matches Err(e)
                && e@ == "Organization not found"@),
    {
        proof {
            lemma_entries_map(self.organizations@);
        }
        match self.find(organization_name) {
            Some(i) => Ok(self.organizations[i].1.clone()),
            None => Err(String::from_str("Organization not found")),
        }
    }

    /// A configuration holding the given entries; a later entry for a name
    /// replaces an earlier one.
    pub fn from_entries(
        entries: &Vec<(String, String)>,
        path: String,
        mock_url: Option<String>,
        mock_string: Option<String>,
        mock_select: Option<usize>,
        spinners: Option<bool>,
    ) -> (r: Config)
        ensures
            r.wf(),
            r.organization_map() == entries_map(entries@),
            r.path == path,
            r.mock_url == mock_url,
            r.mock_string == mock_string,
            r.mock_select == mock_select,
            r.spinners == spinners,
    {
        let mut r = Config {
            organizations: Vec::new(),
            path,
            mock_url,
            mock_string,
            mock_select,
            spinners,
        };
        let mut i: usize = 0;
        while i < entries.len()
            invariant
                i <= entries@.len(),
                r.wf(),
                r.organization_map() == entries_map(entries@.take(i as int)),
                r.path == path,
                r.mock_url == mock_url,
                r.mock_string == mock_string,
                r.mock_select == mock_select,
                r.spinners == spinners,
            decreases entries@.len() - i,
        {
            let name = entries[i].0.clone();
            let token = entries[i].1.clone();
            r.add_organization(name, token);
            assert(entries@.take(i + 1).drop_last() =~= entries@.take(i as int));
            i = i + 1;
        }
        assert(entries@.take(entries@.len() as int) =~= entries@);
        r
    }

    /// The entries, in the order in which they are kept.
    pub fn organization_entries(&self) -> (r: Vec<(String, String)>)
        ensures
            r@.len() == self.organizations@.len(),
            forall|i: int|
                0 <= i < r@.len() ==> #[trigger] r@[i].0@ == self.organizations@[i].0@ && r@[i].1@
                    == self.organizations@[i].1@,
    {
        let mut r: Vec<(String, String)> = Vec::new();
        let mut i: usize = 0;
        while i < self.organizations.len()
            invariant
                i <= self.organizations@.len(),
                r@.len() == i,
                forall|j: int|
                    0 <= j < i ==> #[trigger] r@[j].0@ == self.organizations@[j].0@ && r@[j].1@
                        == self.organizations@[j].1@,
            decreases self.organizations@.len() - i,
        {
            r.push((self.organizations[i].0.clone(), self.organizations[i].1.clone()));
            i = i + 1;
        }
        r
    }

    /// Text listing the organizations with their tokens, one per line.
    pub fn organizations_text(&self) -> (r: String)
        ensures
            r@ == org_listing(self.organizations@),
    {
        if self.organizations.len() == 0 {
            return String::from_str("No organizations in config");
        }
        let mut lines: Vec<String> = Vec::new();
        let mut i: usize = 0;
        while i < self.organizations.len()
            invariant
                i <= self.organizations@.len(),
                lines@.len() == i,
                forall|j: int|
                    0 <= j < i ==> #[trigger] lines@[j]@ == org_line(self.organizations@[j]),
            decreases self.organizations@.len() - i,
        {
            let mut line = String::from_str("- ");
            line.append(self.organizations[i].0.as_str());
            line.append(": ");
            line.append(self.organizations[i].1.as_str());
            lines.push(line);
            i = i + 1;
        }
        let body = crate::text::join(&lines, "\n");
        assert(views(lines@) =~= self.organizations@.map_values(
            |e: (String, String)| org_line(e),
        ));
        let mut r = String::from_str("Organizations\n\n");
        r.append(body.as_str());
        r
    }
}

/// Adding the same organization and token a second time changes nothing:
/// the organizations are those after the first addition.
pub proof fn lemma_add_organization_idempotent(config: Config, name: String, token: String)
    ensures
        config.organization_map().insert(name@, token@).insert(name@, token@)
            == config.organization_map().insert(name@, token@),
{
    assert(config.organization_map().insert(name@, token@).insert(name@, token@)
        =~= config.organization_map().insert(name@, token@));
}

/// After an organization is removed, the listed names never include it,
/// whether or not it was there before.
pub proof fn lemma_removed_name_not_listed(
    before: Config,
    after: Config,
    name: String,
    names: Seq<String>,
)
    requires
        after.organization_map() == before.organization_map().remove(name@),
        views(names).to_set() == after.organization_map().dom(),
    ensures
        !views(names).contains(name@),
{
    if views(names).contains(name@) {
        assert(views(names).to_set().contains(name@));
    }
}

/// Entry lists that agree on every name and token describe the same
/// organizations.
proof fn lemma_entries_map_same_views(s: Seq<(String, String)>, t: Seq<(String, String)>)
    requires
        s.len() == t.len(),
        forall|i: int| 0 <= i < s.len() ==> s[i].0@ == t[i].0@ && s[i].1@ == t[i].1@,
    ensures
        entries_map(s) == entries_map(t),
    decreases s.len(),
{
    if s.len() > 0 {
        lemma_entries_map_same_views(s.drop_last(), t.drop_last());
    }
}

/// A configuration rebuilt from the entries that `organization_entries`
/// lists has the same organizations as the one they were listed from: what
/// saving a configuration and loading it back relies on.
pub proof fn lemma_entries_round_trip(config: Config, listed: Seq<(String, String)>, rebuilt: Config)
    requires
        listed.len() == config.organizations@.len(),
        forall|i: int|
            0 <= i < listed.len() ==> listed[i].0@ == config.organizations@[i].0@ && listed[i].1@
                == config.organizations@[i].1@,
        rebuilt.organization_map() == entries_map(listed),
    ensures
        rebuilt.organization_map() == config.organization_map(),
{
    lemma_entries_map_same_views(listed, config.organizations@);
}

/// Either the token to use was settled, or the user picks one of the
/// organization names.
#[derive(Clone, Debug, PartialEq, Eq)]
pub enum TokenChoice {
    Token(String),
    Choose(Vec<String>),
}

impl Config {
    /// Settles the API token: the named organization's when a name is
    /// given, the only organization's when there is one, and otherwise the
    /// organization names, sorted, to choose from.
    pub fn fetch_token(&self, org: &Option<String>) -> (r: Result<TokenChoice, String>)
        requires
            self.wf(),
        ensures
            org matches Some(n) ==> {
                &&& self.organization_map().contains_key(n@) ==> (r matches Ok(TokenChoice::Token(t))
                    && t@ == self.organization_map()[n@])
                &&& !self.organization_map().contains_key(n@) ==> (r matches Err(e) && e@
                    == "Organization not found"@)
            },
            org is None ==> {
                &&& self.organizations@.len() == 0 ==> (r matches Err(e) && e@
                    == "Add an organization with org add"@)
                &&& self.organizations@.len() == 1 ==> (r matches Ok(TokenChoice::Token(t)) && t@
                    == self.organizations@[0].1@)
                &&& self.organizations@.len() > 1 ==> (r matches Ok(TokenChoice::Choose(v))
                    && rank_sorted(v@) && exists|names: Seq<String>|
                    views(names).to_set() == self.organization_map().dom()
                        && views(names).no_duplicates() && v@.to_multiset() == names.to_multiset())
            },
    {
        match org {
            Some(n) => {
                let t = self.token(n)?;
                Ok(TokenChoice::Token(t))
            },
            None => {
                if self.organizations.len() == 0 {
                    Err(String::from_str("Add an organization with org add"))
                } else if self.organizations.len() == 1 {
                    Ok(TokenChoice::Token(self.organizations[0].1.clone()))
                } else {
                    let names = self.organization_names();
                    let ghost before = names@;
                    let sorted = sort_by_rank(names);
                    assert(views(before).to_set() == self.organization_map().dom());
                    Ok(TokenChoice::Choose(sorted))
                }
            },
        }
    }
}

} // verus!
