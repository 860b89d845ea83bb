//! Named profiles and the table that holds them, built from a configuration
//! source and a credentials source.

use crate::ini::{lookup, parse_ini, parsed, IniDocument, IniSection, SectionView};
use crate::text::{chars_of, range_starts_with, starts_with, str_eq, string_of};
use vstd::prelude::*;
use vstd::string::*;

verus! {

/// Name of the per-user directory that holds the two sources.
pub const SOURCE_DIR: &'static str = ".aws";

/// File name of the configuration source.
pub const CONFIG_FILE: &'static str = "config";

/// File name of the credentials source.
pub const CREDENTIALS_FILE: &'static str = "credentials";

/// One named identity configuration.
#[derive(Debug, Clone)]
pub struct Profile {
    pub name: String,
    pub region: Option<String>,
    pub sso_start_url: Option<String>,
    pub sso_region: Option<String>,
    pub role_arn: Option<String>,
    pub source_profile: Option<String>,
    pub mfa_serial: Option<String>,
    pub aws_access_key_id: Option<String>,
    pub aws_secret_access_key: Option<String>,
    pub aws_session_token: Option<String>,
}

pub struct ProfileView {
    pub name: Seq<char>,
    pub region: Option<Seq<char>>,
    pub sso_start_url: Option<Seq<char>>,
    pub sso_region: Option<Seq<char>>,
    pub role_arn: Option<Seq<char>>,
    pub source_profile: Option<Seq<char>>,
    pub mfa_serial: Option<Seq<char>>,
    pub aws_access_key_id: Option<Seq<char>>,
    pub aws_secret_access_key: Option<Seq<char>>,
    pub aws_session_token: Option<Seq<char>>,
}

/// The characters of an optional string.
pub open spec fn opt_view(o: Option<String>) -> Option<Seq<char>> {
    match o {
        Some(s) => Some(s@),
        None => None,
    }
}

impl View for Profile {
    type V = ProfileView;

    open spec fn view(&self) -> ProfileView {
        ProfileView {
            name: self.name@,
            region: opt_view(self.region),
            sso_start_url: opt_view(self.sso_start_url),
            sso_region: opt_view(self.sso_region),
            role_arn: opt_view(self.role_arn),
            source_profile: opt_view(self.source_profile),
            mfa_serial: opt_view(self.mfa_serial),
            aws_access_key_id: opt_view(self.aws_access_key_id),
            aws_secret_access_key: opt_view(self.aws_secret_access_key),
            aws_session_token: opt_view(self.aws_session_token),
        }
    }
}

impl ProfileView {
    /// A profile of that name with no field set.
    pub open spec fn blank(name: Seq<char>) -> ProfileView {
        ProfileView {
            name,
            region: None,
            sso_start_url: None,
            sso_region: None,
            role_arn: None,
            source_profile: None,
            mfa_serial: None,
            aws_access_key_id: None,
            aws_secret_access_key: None,
            aws_session_token: None,
        }
    }

    pub open spec fn is_sso(self) -> bool {
        self.sso_start_url is Some || self.sso_region is Some
    }

    pub open spec fn is_role(self) -> bool {
        self.role_arn is Some
    }

    pub open spec fn is_static(self) -> bool {
        self.aws_access_key_id is Some && self.aws_secret_access_key is Some
    }

    pub open spec fn requires_mfa(self) -> bool {
        self.mfa_serial is Some
    }
}

/// What a profile holds of long-lived keys.
#[derive(Debug, Clone, Copy, PartialEq, Eq, Structural)]
pub enum KeyKind {
    NoKeys,
    StaticOnly,
    StaticWithMfa,
}

/// What a profile can do, taken together: the kinds do not exclude one
/// another.
#[derive(Debug, Clone, Copy, PartialEq, Eq, Structural)]
pub struct ProfileKinds {
    pub sso: bool,
    pub role: bool,
    pub keys: KeyKind,
}

impl ProfileKinds {
    /// The profile is of no kind.
    pub open spec fn unclassified(self) -> bool {
        !self.sso && !self.role && self.keys == KeyKind::NoKeys
    }
}

impl ProfileView {
    /// The kinds of a profile, from the fields it sets.
    pub open spec fn kinds(self) -> ProfileKinds {
        ProfileKinds {
            sso: self.is_sso(),
            role: self.is_role(),
            keys: if !self.is_static() {
                KeyKind::NoKeys
            } else if self.requires_mfa() {
                KeyKind::StaticWithMfa
            } else {
                KeyKind::StaticOnly
            },
        }
    }
}

impl Default for Profile {
    fn default() -> (p: Profile)
        ensures
            p@ == ProfileView::blank(Seq::empty()),
    {
        Profile::named(String::new())
    }
}

impl Profile {
    /// A profile of that name with no field set.
    pub fn named(name: String) -> (p: Profile)
        ensures
            p@ == ProfileView::blank(name@),
    {
        Profile {
            name,
            region: None,
            sso_start_url: None,
            sso_region: None,
            role_arn: None,
            source_profile: None,
            mfa_serial: None,
            aws_access_key_id: None,
            aws_secret_access_key: None,
            aws_session_token: None,
        }
    }

    /// The kinds of the profile.
    pub fn kinds(&self) -> (r: ProfileKinds)
        ensures
            r == self@.kinds(),
    {
        ProfileKinds {
            sso: self.is_sso(),
            role: self.is_role(),
            keys: if !self.is_static() {
                KeyKind::NoKeys
            } else if self.requires_mfa() {
                KeyKind::StaticWithMfa
            } else {
                KeyKind::StaticOnly
            },
        }
    }

    /// Signs in through single sign-on.
    pub fn is_sso(&self) -> (r: bool)
        ensures
            r == self@.is_sso(),
    {
        self.sso_start_url.is_some() || self.sso_region.is_some()
    }

    /// Assumes a role.
    pub fn is_role(&self) -> (r: bool)
        ensures
            r == self@.is_role(),
    {
        self.role_arn.is_some()
    }

    /// Holds long-lived keys.
    pub fn is_static(&self) -> (r: bool)
        ensures
            r == self@.is_static(),
    {
        self.aws_access_key_id.is_some() && self.aws_secret_access_key.is_some()
    }

    /// Names a multi-factor device.
    pub fn requires_mfa(&self) -> (r: bool)
        ensures
            r == self@.requires_mfa(),
    {
        self.mfa_serial.is_some()
    }
}

/// The two sources a profile table is built from.
#[derive(Debug, Clone, Copy, PartialEq, Eq, Structural)]
pub enum Source {
    Config,
    Credentials,
}

/// What was found where a source should be.
pub enum SourceText {
    /// There is no such source: it counts as empty.
    Absent,
    /// The source is there and could not be read.
    Unreadable,
    Present(String),
}

#[derive(Debug, Clone, Copy, PartialEq, Eq, Structural)]
pub enum ConfigError {
    /// The per-user directory of the two sources could not be determined.
    HomeDirectoryUnknown,
    /// The source is present and could not be read.
    Unreadable(Source),
}

/// The profile that a section of `source` describes: in the configuration
/// source a leading `profile ` is taken off the section's name.
pub open spec fn section_profile_name(source: Source, section: Seq<char>) -> Seq<char> {
    if source == Source::Config && starts_with(section, "profile "@) {
        section.skip("profile "@.len() as int)
    } else {
        section
    }
}

/// `new` where it is set, else `old`.
pub open spec fn or_keep(new: Option<Seq<char>>, old: Option<Seq<char>>) -> Option<Seq<char>> {
    if new is Some {
        new
    } else {
        old
    }
}

/// `p` with the fields that one section of `source` sets.
pub open spec fn with_section(
    p: ProfileView,
    source: Source,
    entries: Seq<(Seq<char>, Seq<char>)>,
) -> ProfileView {
    match source {
        Source::Config => ProfileView {
            region: or_keep(lookup(entries, "region"@), p.region),
            sso_start_url: or_keep(lookup(entries, "sso_start_url"@), p.sso_start_url),
            sso_region: or_keep(lookup(entries, "sso_region"@), p.sso_region),
            role_arn: or_keep(lookup(entries, "role_arn"@), p.role_arn),
            source_profile: or_keep(lookup(entries, "source_profile"@), p.source_profile),
            mfa_serial: or_keep(lookup(entries, "mfa_serial"@), p.mfa_serial),
            ..p
        },
        Source::Credentials => ProfileView {
            aws_access_key_id: or_keep(lookup(entries, "aws_access_key_id"@), p.aws_access_key_id),
            aws_secret_access_key: or_keep(
                lookup(entries, "aws_secret_access_key"@),
                p.aws_secret_access_key,
            ),
            aws_session_token: or_keep(lookup(entries, "aws_session_token"@), p.aws_session_token),
            ..p
        },
    }
}

/// Index of the profile named `name`, or the number of profiles.
pub open spec fn profile_position(table: Seq<ProfileView>, name: Seq<char>) -> nat
    decreases table.len(),
{
    if table.len() == 0 || table[0].name == name {
        0
    } else {
        1 + profile_position(table.drop_first(), name)
    }
}

/// The profile named `name` in `table`, if there is one.
pub open spec fn find_in(table: Seq<ProfileView>, name: Seq<char>) -> Option<ProfileView> {
    let i = profile_position(table, name);
    if i < table.len() {
        Some(table[i as int])
    } else {
        None
    }
}

/// No two profiles share a name.
pub open spec fn distinct_names(table: Seq<ProfileView>) -> bool {
    forall|i: int, j: int|
        0 <= i < j < table.len() ==> (#[trigger] table[i]).name != (#[trigger] table[j]).name
}

/// `table` after one section: the profile it describes is updated in place,
/// or added at the end.
pub open spec fn upsert(
    table: Seq<ProfileView>,
    source: Source,
    section: SectionView,
) -> Seq<ProfileView> {
    let name = section_profile_name(source, section.name);
    let i = profile_position(table, name);
    if i < table.len() {
        table.update(i as int, with_section(table[i as int], source, section.entries))
    } else {
        table.push(with_section(ProfileView::blank(name), source, section.entries))
    }
}

/// `table` after every section of `doc`, first to last.
pub open spec fn merge(table: Seq<ProfileView>, source: Source, doc: Seq<SectionView>) -> Seq<
    ProfileView,
>
    decreases doc.len(),
{
    if doc.len() == 0 {
        table
    } else {
        upsert(merge(table, source, doc.drop_last()), source, doc.last())
    }
}

/// The sections of a source; an absent source has none.
pub open spec fn source_sections(text: SourceText) -> Seq<SectionView> {
    match text {
        SourceText::Present(s) => parsed(s@),
        _ => Seq::empty(),
    }
}

/// The table that the two sources define.
pub open spec fn loaded(config: SourceText, credentials: SourceText) -> Seq<ProfileView> {
    merge(
        merge(Seq::empty(), Source::Config, source_sections(config)),
        Source::Credentials,
        source_sections(credentials),
    )
}

pub proof fn lemma_profile_position(table: Seq<ProfileView>, name: Seq<char>, k: int)
    requires
        0 <= k <= table.len(),
        forall|j: int| 0 <= j < k ==> (#[trigger] table[j]).name != name,
        k == table.len() || table[k].name == name,
    ensures
        profile_position(table, name) == k,
    decreases k,
{
    if k > 0 {
        let t = table.drop_first();
        assert forall|j: int| 0 <= j < k - 1 implies (#[trigger] t[j]).name != name by {
            assert(t[j] == table[j + 1]);
        }
        lemma_profile_position(t, name, k - 1);
    }
}

/// The position of a name lies within the table or at its end; no profile
/// before it has the name, and the profile at it has.
pub proof fn lemma_profile_position_bounds(table: Seq<ProfileView>, name: Seq<char>)
    ensures
        profile_position(table, name) <= table.len(),
        forall|j: int| 0 <= j < profile_position(table, name) ==> (#[trigger] table[j]).name != name,
        profile_position(table, name) < table.len() ==> table[profile_position(
            table,
            name,
        ) as int].name == name,
    decreases table.len(),
{
    if table.len() == 0 || table[0].name == name {
    } else {
        let t = table.drop_first();
        lemma_profile_position_bounds(t, name);
        assert forall|j: int| 0 <= j < profile_position(table, name) implies (
        #[trigger] table[j]).name != name by {
            if j > 0 {
                assert(table[j] == t[j - 1]);
            }
        }
    }
}

/// A section leaves the names of a table distinct.
pub proof fn lemma_upsert_distinct(table: Seq<ProfileView>, source: Source, section: SectionView)
    requires
        distinct_names(table),
    ensures
        distinct_names(upsert(table, source, section)),
{
    let name = section_profile_name(source, section.name);
    lemma_profile_position_bounds(table, name);
    let next = upsert(table, source, section);
    let i = profile_position(table, name);
    assert forall|a: int, b: int| 0 <= a < b < next.len() implies (#[trigger] next[a]).name != (
    #[trigger] next[b]).name by {
        if i < table.len() {
            assert(next[a].name == table[a].name);
            assert(next[b].name == table[b].name);
        } else {
            if b < table.len() {
                assert(next[a] == table[a]);
                assert(next[b] == table[b]);
            } else {
                assert(next[a] == table[a]);
                assert(next[b].name == name);
            }
        }
    }
}

/// The name of the profile that a section of `source` describes.
pub fn profile_name_of_section(source: Source, section: &str) -> (r: String)
    ensures
        r@ == section_profile_name(source, section@),
{
    let chars = chars_of(section);
    let prefix = chars_of("profile ");
    assert(chars@.subrange(0, chars@.len() as int) =~= chars@);
    if source == Source::Config && range_starts_with(&chars, 0, chars.len(), "profile ") {
        assert(chars@.skip(prefix@.len() as int) =~= chars@.subrange(
            prefix@.len() as int,
            chars@.len() as int,
        ));
        string_of(&chars, prefix.len(), chars.len())
    } else {
        string_of(&chars, 0, chars.len())
    }
}

/// A copy of the value of `key` in `section`, or `old` where it has none.
fn field_or_keep(section: &IniSection, key: &str, old: Option<String>) -> (r: Option<String>)
    ensures
        opt_view(r) == or_keep(lookup(section@.entries, key@), opt_view(old)),
{
    match section.get(key) {
        Some(v) => Some(v.clone()),
        None => old,
    }
}

/// Sets in `p` the fields that `section` of `source` holds.
pub fn apply_section(p: Profile, source: Source, section: &IniSection) -> (r: Profile)
    ensures
        r@ == with_section(p@, source, section@.entries),
{
    let mut p = p;
    match source {
        Source::Config => {
            p.region = field_or_keep(section, "region", p.region);
            p.sso_start_url = field_or_keep(section, "sso_start_url", p.sso_start_url);
            p.sso_region = field_or_keep(section, "sso_region", p.sso_region);
            p.role_arn = field_or_keep(section, "role_arn", p.role_arn);
            p.source_profile = field_or_keep(section, "source_profile", p.source_profile);
            p.mfa_serial = field_or_keep(section, "mfa_serial", p.mfa_serial);
        },
        Source::Credentials => {
            p.aws_access_key_id = field_or_keep(section, "aws_access_key_id", p.aws_access_key_id);
            p.aws_secret_access_key = field_or_keep(
                section,
                "aws_secret_access_key",
                p.aws_secret_access_key,
            );
            p.aws_session_token = field_or_keep(section, "aws_session_token", p.aws_session_token);
        },
    }
    p
}

/// The table of profiles, each under its own name.
pub struct ProfileStore {
    pub profiles: Vec<Profile>,
}

impl View for ProfileStore {
    type V = Seq<ProfileView>;

    open spec fn view(&self) -> Seq<ProfileView> {
        self.profiles@.map_values(|p: Profile| p@)
    }
}

impl ProfileStore {
    /// No two profiles of the table share a name.
    pub open spec fn wf(&self) -> bool {
        distinct_names(self@)
    }

    /// The profile named `name`, if the table has one.
    pub open spec fn find(&self, name: Seq<char>) -> Option<ProfileView> {
        find_in(self@, name)
    }

    /// A table without profiles.
    pub fn new() -> (s: ProfileStore)
        ensures
            s@ == Seq::<ProfileView>::empty(),
            s.wf(),
    {
        let s = ProfileStore { profiles: Vec::new() };
        assert(s@ =~= Seq::<ProfileView>::empty());
        s
    }

    pub fn len(&self) -> (n: usize)
        ensures
            n == self@.len(),
    {
        self.profiles.len()
    }

    pub fn is_empty(&self) -> (r: bool)
        ensures
            r == (self@.len() == 0),
    {
        self.profiles.len() == 0
    }

    /// Index of the profile named `name`, or the number of profiles.
    pub fn position(&self, name: &str) -> (i: usize)
        ensures
            i == profile_position(self@, name@),
            i <= self.profiles.len(),
    {
        let mut i: usize = 0;
        while i < self.profiles.len()
            invariant
                i <= self.profiles.len(),
                forall|j: int| 0 <= j < i ==> (#[trigger] self@[j]).name != name@,
            decreases self.profiles.len() - i,
        {
            if str_eq(self.profiles[i].name.as_str(), name) {
                proof {
                    lemma_profile_position(self@, name@, i as int);
                }
                return i;
            }
            i += 1;
        }
        proof {
            lemma_profile_position(self@, name@, i as int);
        }
        i
    }

    /// The profile named `name`.
    pub fn get(&self, name: &str) -> (r: Option<&Profile>)
        ensures
            match r {
                Some(p) => self.find(name@) == Some(p@) && p@.name == name@,
                None => self.find(name@) is None,
            },
    {
        let i = self.position(name);
        proof {
            lemma_profile_position_bounds(self@, name@);
        }
        if i < self.profiles.len() {
            Some(&self.profiles[i])
        } else {
            None
        }
    }

    /// Whether the table has a profile named `name`.
    pub fn contains_key(&self, name: &str) -> (r: bool)
        ensures
            r == self.find(name@) is Some,
    {
        self.position(name) < self.profiles.len()
    }

    /// Merges one section of `source` into the table.
    pub fn merge_section(&mut self, source: Source, section: &IniSection)
        requires
            old(self).wf(),
        ensures
            final(self).wf(),
            final(self)@ == upsert(old(self)@, source, section@),
    {
        let name = profile_name_of_section(source, section.name.as_str());
        let i = self.position(name.as_str());
        proof {
            lemma_upsert_distinct(self@, source, section@);
        }
        if i < self.profiles.len() {
            let mut slot = Profile::named(String::new());
            std::mem::swap(&mut slot, &mut self.profiles[i]);
            self.profiles[i] = apply_section(slot, source, section);
        } else {
            self.profiles.push(apply_section(Profile::named(name), source, section));
        }
        assert(self@ =~= upsert(old(self)@, source, section@));
    }

    /// Merges every section of `doc`, first to last.
    pub fn merge_document(&mut self, source: Source, doc: &IniDocument)
        requires
            old(self).wf(),
        ensures
            final(self).wf(),
            final(self)@ == merge(old(self)@, source, doc@),
    {
        let mut i: usize = 0;
        assert(doc@.take(0) =~= Seq::<SectionView>::empty());
        while i < doc.sections.len()
            invariant
                i <= doc.sections.len(),
                self.wf(),
                self@ == merge(old(self)@, source, doc@.take(i as int)),
            decreases doc.sections.len() - i,
        {
            self.merge_section(source, &doc.sections[i]);
            proof {
                let next = doc@.take(i + 1);
                assert(next.drop_last() =~= doc@.take(i as int));
                assert(next.last() == doc@[i as int]);
            }
            i += 1;
        }
        assert(doc@.take(i as int) =~= doc@);
    }
}

/// Builds the profile table from the two sources. An absent source counts
/// as empty; a source that is present and cannot be read is an error, the
/// configuration source being looked at first.
pub fn load_profiles(config: &SourceText, credentials: &SourceText) -> (r: Result<
    ProfileStore,
    ConfigError,
>)
    ensures
        match r {
            Ok(store) => {
                &&& !(config is Unreadable)
                &&& !(credentials is Unreadable)
                &&& store.wf()
                &&& store@ == loaded(*config, *credentials)
            },
            Err(e) => if config is Unreadable {
                e == ConfigError::Unreadable(Source::Config)
            } else {
                credentials is Unreadable && e == ConfigError::Unreadable(Source::Credentials)
            },
        },
{
    let mut store = ProfileStore::new();
    match config {
        SourceText::Absent => {},
        SourceText::Unreadable => {
            return Err(ConfigError::Unreadable(Source::Config));
        },
        SourceText::Present(text) => {
            let doc = parse_ini(text.as_str());
            store.merge_document(Source::Config, &doc);
        },
    }
    match credentials {
        SourceText::Absent => {},
        SourceText::Unreadable => {
            return Err(ConfigError::Unreadable(Source::Credentials));
        },
        SourceText::Present(text) => {
            let doc = parse_ini(text.as_str());
            store.merge_document(Source::Credentials, &doc);
        },
    }
    Ok(store)
}

} // verus!
