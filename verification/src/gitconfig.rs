//! A line-oriented parser for the user's git configuration, enough to read
//! the identity that commits are signed with: sections in brackets, `key =
//! value` lines inside them, everything else ignored. The parser state is
//! modelled as maps from section names to their key-value maps.

use vstd::prelude::*;
use crate::strutil::{scan_space_run, scan_word_run, space_run_end, str_eq, word_run_end};

verus! {

/// The key-value map an association list denotes; a later pair for the same
/// key wins.
pub open spec fn kv_map(s: Seq<(String, String)>) -> Map<Seq<char>, Seq<char>>
    decreases s.len(),
{
    if s.len() == 0 {
        Map::empty()
    } else {
        kv_map(s.drop_last()).insert(s.last().0@, s.last().1@)
    }
}

/// The map of sections an association list denotes; a later entry for the
/// same section name wins.
pub open spec fn sections_map(s: Seq<(String, Vec<(String, String)>)>) -> Map<
    Seq<char>,
    Map<Seq<char>, Seq<char>>,
>
    decreases s.len(),
{
    if s.len() == 0 {
        Map::empty()
    } else {
        sections_map(s.drop_last()).insert(s.last().0@, kv_map(s.last().1@))
    }
}

/// Running state of the parser: the section being read, the keys collected
/// since it started, and everything saved so far.
#[derive(Debug)]
pub struct GitConfigParserState {
    current_section: Option<String>,
    current_keys: Vec<(String, String)>,
    pub full_state: Vec<(String, Vec<(String, String)>)>,
}

/// Mathematical model of the parser state.
pub ghost struct ParserModel {
    pub current_section: Option<Seq<char>>,
    pub current_keys: Map<Seq<char>, Seq<char>>,
    pub full_state: Map<Seq<char>, Map<Seq<char>, Seq<char>>>,
}

impl View for GitConfigParserState {
    type V = ParserModel;

    closed spec fn view(&self) -> ParserModel {
        ParserModel {
            current_section: self.current_section.deep_view(),
            current_keys: kv_map(self.current_keys@),
            full_state: sections_map(self.full_state@),
        }
    }
}

/// The fresh parser state.
pub open spec fn initial_parser() -> ParserModel {
    ParserModel {
        current_section: None,
        current_keys: Map::empty(),
        full_state: Map::empty(),
    }
}

/// Saving the collected keys under a section name: they are merged over
/// whatever the section already holds, the newer value winning per key.
pub open spec fn saved(
    full: Map<Seq<char>, Map<Seq<char>, Seq<char>>>,
    section: Seq<char>,
    keys: Map<Seq<char>, Seq<char>>,
) -> Map<Seq<char>, Map<Seq<char>, Seq<char>>> {
    let existing = if full.contains_key(section) {
        full[section]
    } else {
        Map::empty()
    };
    full.insert(section, existing.union_prefer_right(keys))
}

/// The parser state after a section header: the previous section, if any, is
/// saved; the new name becomes current. The collected keys are kept.
pub open spec fn after_section_start(m: ParserModel, name: Seq<char>) -> ParserModel {
    ParserModel {
        current_section: Some(name),
        current_keys: m.current_keys,
        full_state: match m.current_section {
            Some(prev) => saved(m.full_state, prev, m.current_keys),
            None => m.full_state,
        },
    }
}

/// The parser state after a key-value line.
pub open spec fn after_keyvalue(m: ParserModel, key: Seq<char>, val: Seq<char>) -> ParserModel {
    ParserModel { current_keys: m.current_keys.insert(key, val), ..m }
}

/// The parser state after closing the current section: its keys are saved
/// and the collection starts afresh.
pub open spec fn after_section_end(m: ParserModel) -> ParserModel {
    match m.current_section {
        Some(prev) => ParserModel {
            current_section: m.current_section,
            current_keys: Map::empty(),
            full_state: saved(m.full_state, prev, m.current_keys),
        },
        None => m,
    }
}

/// A section header line: `[` then a word, `]`, and nothing but trailing
/// whitespace. Yields the section name.
pub open spec fn parse_section_line(s: Seq<char>) -> Option<Seq<char>> {
    if s.len() >= 1 && s[0] == '[' {
        let e = word_run_end(s, 1);
        if e > 1 && e < s.len() && s[e] == ']' && space_run_end(s, e + 1) == s.len() {
            Some(s.subrange(1, e))
        } else {
            None
        }
    } else {
        None
    }
}

/// A key-value line: any first character but `[`, whitespace, a word key,
/// whitespace, `=`, then the value — the rest of the line with its leading
/// whitespace trimmed. Yields key and value.
pub open spec fn parse_kv_line(s: Seq<char>) -> Option<(Seq<char>, Seq<char>)> {
    if s.len() >= 1 && s[0] != '[' {
        let ks = space_run_end(s, 1);
        let ke = word_run_end(s, ks);
        if ke > ks {
            let eq = space_run_end(s, ke);
            if eq < s.len() && s[eq] == '=' {
                let vs = space_run_end(s, eq + 1);
                Some((s.subrange(ks, ke), s.subrange(vs, s.len() as int)))
            } else {
                None
            }
        } else {
            None
        }
    } else {
        None
    }
}

/// The parser state after one line: a section header opens a section, a
/// key-value line collects a pair, anything else changes nothing.
pub open spec fn after_line(m: ParserModel, l: Seq<char>) -> ParserModel {
    match parse_section_line(l) {
        Some(name) => after_section_start(m, name),
        None => match parse_kv_line(l) {
            Some(kv) => after_keyvalue(m, kv.0, kv.1),
            None => m,
        },
    }
}

/// The parser state after a whole sequence of lines, in order.
pub open spec fn parse_lines(m: ParserModel, lines: Seq<Seq<char>>, n: int) -> ParserModel
    decreases n,
{
    if n <= 0 {
        m
    } else {
        after_line(parse_lines(m, lines, n - 1), lines[n - 1])
    }
}

/// The parser state after the final flush.
pub open spec fn after_finish(m: ParserModel) -> ParserModel {
    if m.current_section is Some {
        after_section_end(m)
    } else {
        m
    }
}

/// Copies an association list, pair by pair.
fn dup_pairs(v: &Vec<(String, String)>) -> (r: Vec<(String, String)>)
    ensures
        r@ == v@,
{
    let mut r: Vec<(String, String)> = Vec::new();
    let n = v.len();
    let mut i: usize = 0;
    while i < n
        invariant
            n == v@.len(),
            i <= n,
            r@ == v@.take(i as int),
        decreases n - i,
    {
        r.push((v[i].0.clone(), v[i].1.clone()));
        proof {
            assert(r@ =~= v@.take(i as int + 1));
        }
        i += 1;
    }
    proof {
        assert(v@.take(n as int) =~= v@);
    }
    r
}

/// The value an association list holds for a key, last pair winning.
fn kv_get(pairs: &Vec<(String, String)>, key: &str) -> (r: Option<String>)
    ensures
        match r {
            Some(v) => kv_map(pairs@).contains_key(key@) && v@ == kv_map(pairs@)[key@],
            None => !kv_map(pairs@).contains_key(key@),
        },
{
    let mut i: usize = pairs.len();
    proof {
        assert(pairs@.take(pairs@.len() as int) =~= pairs@);
    }
    while i > 0
        invariant
            i <= pairs@.len(),
            kv_map(pairs@).contains_key(key@) == kv_map(pairs@.take(i as int)).contains_key(
                key@,
            ),
            kv_map(pairs@).contains_key(key@) ==> kv_map(pairs@)[key@] == kv_map(
                pairs@.take(i as int),
            )[key@],
        decreases i,
    {
        i -= 1;
        proof {
            assert(pairs@.take(i as int + 1).drop_last() =~= pairs@.take(i as int));
            assert(pairs@.take(i as int + 1).last() == pairs@[i as int]);
        }
        if str_eq(pairs[i].0.as_str(), key) {
            return Some(pairs[i].1.clone());
        }
    }
    proof {
        assert(pairs@.take(0) =~= Seq::<(String, String)>::empty());
    }
    None
}

/// Appending two association lists merges their maps, the right one winning.
proof fn lemma_kv_map_concat(a: Seq<(String, String)>, b: Seq<(String, String)>)
    ensures
        kv_map(a + b) == kv_map(a).union_prefer_right(kv_map(b)),
    decreases b.len(),
{
    if b.len() == 0 {
        assert(a + b =~= a);
        assert(kv_map(a).union_prefer_right(kv_map(b)) =~= kv_map(a));
    } else {
        lemma_kv_map_concat(a, b.drop_last());
        assert((a + b).drop_last() =~= a + b.drop_last());
        assert((a + b).last() == b.last());
        assert(kv_map(a).union_prefer_right(
            kv_map(b.drop_last()).insert(b.last().0@, b.last().1@),
        ) =~= kv_map(a).union_prefer_right(kv_map(b.drop_last())).insert(
            b.last().0@,
            b.last().1@,
        ));
    }
}

impl GitConfigParserState {
    /// The fresh parser state: no section, nothing collected.
    pub fn new() -> (r: GitConfigParserState)
        ensures
            r@ == initial_parser(),
    {
        let r = GitConfigParserState {
            current_section: None,
            current_keys: Vec::new(),
            full_state: Vec::new(),
        };
        proof {
            assert(r@.current_keys =~= initial_parser().current_keys);
            assert(r@.full_state =~= initial_parser().full_state);
        }
        r
    }

    /// The section the parser holds for a name, if any.
    fn find_section(&self, name: &str) -> (r: Option<&Vec<(String, String)>>)
        ensures
            match r {
                Some(v) => self@.full_state.contains_key(name@) && self@.full_state[name@]
                    == kv_map(v@),
                None => !self@.full_state.contains_key(name@),
            },
    {
        let fs = &self.full_state;
        let mut i: usize = fs.len();
        proof {
            assert(fs@.take(fs@.len() as int) =~= fs@);
        }
        while i > 0
            invariant
                i <= fs@.len(),
                fs@ == self.full_state@,
                sections_map(fs@).contains_key(name@) == sections_map(
                    fs@.take(i as int),
                ).contains_key(name@),
                sections_map(fs@).contains_key(name@) ==> sections_map(fs@)[name@]
                    == sections_map(fs@.take(i as int))[name@],
            decreases i,
        {
            i -= 1;
            proof {
                assert(fs@.take(i as int + 1).drop_last() =~= fs@.take(i as int));
                assert(fs@.take(i as int + 1).last() == fs@[i as int]);
            }
            if str_eq(fs[i].0.as_str(), name) {
                proof {
                    assert(sections_map(fs@.take(i as int + 1)).contains_key(name@));
                    assert(sections_map(fs@.take(i as int + 1))[name@] == kv_map(
                        fs@[i as int].1@,
                    ));
                }
                return Some(&fs[i].1);
            }
        }
        proof {
            assert(fs@.take(0) =~= Seq::<(String, Vec<(String, String)>)>::empty());
        }
        None
    }

    /// Saves the collected keys under the given section name, merged over
    /// whatever the section already holds.
    fn save_current_keys_to_state(&mut self, section_name: &str)
        ensures
            final(self)@.full_state == saved(
                old(self)@.full_state,
                section_name@,
                old(self)@.current_keys,
            ),
            final(self)@.current_section == old(self)@.current_section,
            final(self)@.current_keys == old(self)@.current_keys,
    {
        let existing: Vec<(String, String)> = match self.find_section(section_name) {
            Some(v) => dup_pairs(v),
            None => Vec::new(),
        };
        let ghost existing0 = existing@;
        proof {
            if !old(self)@.full_state.contains_key(section_name@) {
                assert(kv_map(existing0) =~= Map::<Seq<char>, Seq<char>>::empty());
            }
        }
        let mut merged = existing;
        let adds = dup_pairs(&self.current_keys);
        let n = adds.len();
        let mut rest = adds;
        let mut i: usize = 0;
        while i < n
            invariant
                n == self.current_keys@.len(),
                i <= n,
                rest@ == self.current_keys@.skip(i as int),
                merged@ == existing0 + self.current_keys@.take(i as int),
            decreases n - i,
        {
            proof {
                assert(self.current_keys@.skip(i as int)[0] == self.current_keys@[i as int]);
                assert(self.current_keys@.skip(i as int).remove(0) =~= self.current_keys@.skip(
                    i as int + 1,
                ));
            }
            let p = rest.remove(0);
            merged.push(p);
            proof {
                assert(merged@ =~= existing0 + self.current_keys@.take(i as int + 1));
            }
            i += 1;
        }
        proof {
            assert(self.current_keys@.take(n as int) =~= self.current_keys@);
            lemma_kv_map_concat(existing0, self.current_keys@);
        }
        let ghost fs0 = self.full_state@;
        self.full_state.push((String::from_str(section_name), merged));
        proof {
            assert(self.full_state@.drop_last() =~= fs0);
            assert(self.full_state@.last() == (self.full_state@[fs0.len() as int]));
        }
    }

    /// Opens a section: the previous one, if any, is saved first. The keys
    /// collected so far stay collected.
    pub fn section_start(&mut self, section_name: &str)
        ensures
            final(self)@ == after_section_start(old(self)@, section_name@),
    {
        let prev: Option<String> = match &self.current_section {
            Some(s) => Some(s.clone()),
            None => None,
        };
        self.current_section = Some(String::from_str(section_name));
        match prev {
            Some(p) => {
                self.save_current_keys_to_state(p.as_str());
            },
            None => (),
        }
    }

    /// Closes the current section: its keys are saved and the collection
    /// starts afresh. Must only be called inside a section.
    pub fn section_end(&mut self)
        requires
            old(self)@.current_section is Some,
        ensures
            final(self)@ == after_section_end(old(self)@),
    {
        let name: String = match &self.current_section {
            Some(s) => s.clone(),
            None => unreached(),
        };
        self.save_current_keys_to_state(name.as_str());
        self.current_keys = Vec::new();
        proof {
            assert(kv_map(self.current_keys@) =~= Map::<Seq<char>, Seq<char>>::empty());
        }
    }

    /// Collects one key-value pair for the current section.
    pub fn keyvalue(&mut self, key: &str, val: &str)
        ensures
            final(self)@ == after_keyvalue(old(self)@, key@, val@),
    {
        let ghost ck0 = self.current_keys@;
        self.current_keys.push((String::from_str(key), String::from_str(val)));
        proof {
            assert(self.current_keys@.drop_last() =~= ck0);
        }
    }

    /// Reads one line: a section header opens a section, a key-value line
    /// collects a pair, anything else is ignored.
    pub fn line(&mut self, line_content: &str)
        ensures
            final(self)@ == after_line(old(self)@, line_content@),
    {
        let n = line_content.unicode_len();
        if n >= 1 && line_content.get_char(0) == '[' {
            let e = scan_word_run(line_content, 1);
            if e > 1 && e < n && line_content.get_char(e) == ']' && scan_space_run(
                line_content,
                e + 1,
            ) == n {
                let name = line_content.substring_char(1, e);
                self.section_start(name);
            }
        } else if n >= 1 {
            let ks = scan_space_run(line_content, 1);
            let ke = scan_word_run(line_content, ks);
            if ke > ks {
                let eq = scan_space_run(line_content, ke);
                if eq < n && line_content.get_char(eq) == '=' {
                    let vs = scan_space_run(line_content, eq + 1);
                    let key = line_content.substring_char(ks, ke);
                    let val = line_content.substring_char(vs, n);
                    self.keyvalue(key, val);
                }
            }
        }
    }

    /// Flushes the current section, if one is open.
    pub fn finish(&mut self)
        ensures
            final(self)@ == after_finish(old(self)@),
    {
        if self.current_section.is_some() {
            self.section_end();
        }
    }
}

/// The git identity commits are made with.
#[derive(Clone, Debug, PartialEq)]
pub struct GitUser {
    pub name: String,
    pub email: String,
    pub signing_key: Option<String>,
}

/// Mathematical model of a `GitUser`.
pub ghost struct GitUserModel {
    pub name: Seq<char>,
    pub email: Seq<char>,
    pub signing_key: Option<Seq<char>>,
}

impl View for GitUser {
    type V = GitUserModel;

    open spec fn view(&self) -> GitUserModel {
        GitUserModel {
            name: self.name@,
            email: self.email@,
            signing_key: self.signing_key.deep_view(),
        }
    }
}

/// What the git configuration yields: the user's identity, when one is
/// configured completely.
#[derive(Clone, Debug, PartialEq)]
pub struct GitConfig {
    pub user: Option<GitUser>,
}

/// Mathematical model of a `GitConfig`.
pub ghost struct GitConfigModel {
    pub user: Option<GitUserModel>,
}

impl View for GitConfig {
    type V = GitConfigModel;

    open spec fn view(&self) -> GitConfigModel {
        GitConfigModel {
            user: match self.user {
                Some(u) => Some(u@),
                None => None,
            },
        }
    }
}

/// What can go wrong building a configuration; reading the file is a
/// collaborator's business, so nothing here ever produces it.
#[derive(Clone, Copy, Debug, PartialEq, Eq, Structural)]
pub enum ConfigError {
    Unreadable,
}

/// The identity a parsed configuration holds: the `user` section must carry
/// `name` and `email`; `signingKey` is optional.
pub open spec fn user_of(full: Map<Seq<char>, Map<Seq<char>, Seq<char>>>) -> Option<
    GitUserModel,
> {
    if full.contains_key("user"@) {
        let u = full["user"@];
        if u.contains_key("name"@) && u.contains_key("email"@) {
            Some(
                GitUserModel {
                    name: u["name"@],
                    email: u["email"@],
                    signing_key: if u.contains_key("signingKey"@) {
                        Some(u["signingKey"@])
                    } else {
                        None
                    },
                },
            )
        } else {
            None
        }
    } else {
        None
    }
}

impl GitConfig {
    /// Extracts the user's identity from a finished parser state.
    pub fn from(parser: &GitConfigParserState) -> (r: Result<GitConfig, ConfigError>)
        ensures
            r matches Ok(c) && c@.user == user_of(parser@.full_state),
    {
        let user: Option<GitUser> = match parser.find_section("user") {
            Some(section) => {
                match (
                    kv_get(section, "name"),
                    kv_get(section, "email"),
                    kv_get(section, "signingKey"),
                ) {
                    (Some(name), Some(email), signing_key) => Some(
                        GitUser { name, email, signing_key },
                    ),
                    _ => None,
                }
            },
            None => None,
        };
        Ok(GitConfig { user })
    }

    /// Parses the lines of a git configuration and extracts the user's
    /// identity.
    pub fn new(lines: &Vec<String>) -> (r: Result<GitConfig, ConfigError>)
        ensures
            r matches Ok(c) && c@.user == user_of(
                after_finish(
                    parse_lines(initial_parser(), lines.deep_view(), lines@.len() as int),
                ).full_state,
            ),
    {
        let mut parser = GitConfigParserState::new();
        let n = lines.len();
        let mut i: usize = 0;
        while i < n
            invariant
                n == lines@.len(),
                lines.deep_view().len() == n,
                i <= n,
                parser@ == parse_lines(initial_parser(), lines.deep_view(), i as int),
            decreases n - i,
        {
            parser.line(lines[i].as_str());
            i += 1;
        }
        parser.finish();
        GitConfig::from(&parser)
    }
}

} // verus!
