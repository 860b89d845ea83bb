//! What the merged table holds under each name: the profile of a name is
//! made of the sections that describe it, taken in order, and of nothing
//! else.

use crate::ini::SectionView;
use crate::profile::{
    find_in, lemma_profile_position, lemma_profile_position_bounds, loaded, merge,
    profile_position, section_profile_name, source_sections, upsert, with_section, ProfileView,
    Source, SourceText,
};
use vstd::prelude::*;

verus! {

/// `base`, or a profile of that name with no field set.
pub open spec fn or_blank(base: Option<ProfileView>, name: Seq<char>) -> ProfileView {
    match base {
        Some(p) => p,
        None => ProfileView::blank(name),
    }
}

/// The profile named `name` after the sections of `doc`: every section that
/// describes it adds its fields, first to last, to `base` or to a blank
/// profile; the other sections leave it alone.
pub open spec fn merged_entry(
    base: Option<ProfileView>,
    source: Source,
    doc: Seq<SectionView>,
    name: Seq<char>,
) -> Option<ProfileView>
    decreases doc.len(),
{
    if doc.len() == 0 {
        base
    } else {
        let prev = merged_entry(base, source, doc.drop_last(), name);
        if section_profile_name(source, doc.last().name) == name {
            Some(with_section(or_blank(prev, name), source, doc.last().entries))
        } else {
            prev
        }
    }
}

/// Some section of `doc` describes the profile `name`.
pub open spec fn describes(source: Source, doc: Seq<SectionView>, name: Seq<char>) -> bool {
    exists|j: int| 0 <= j < doc.len() && section_profile_name(source, (#[trigger] doc[j]).name) == name
}

/// Every field that `p` sets is set in `q`.
pub open spec fn covers(q: ProfileView, p: ProfileView) -> bool {
    &&& p.region is Some ==> q.region is Some
    &&& p.sso_start_url is Some ==> q.sso_start_url is Some
    &&& p.sso_region is Some ==> q.sso_region is Some
    &&& p.role_arn is Some ==> q.role_arn is Some
    &&& p.source_profile is Some ==> q.source_profile is Some
    &&& p.mfa_serial is Some ==> q.mfa_serial is Some
    &&& p.aws_access_key_id is Some ==> q.aws_access_key_id is Some
    &&& p.aws_secret_access_key is Some ==> q.aws_secret_access_key is Some
    &&& p.aws_session_token is Some ==> q.aws_session_token is Some
}

/// One section changes the profile it describes and no other.
pub proof fn lemma_find_upsert(
    table: Seq<ProfileView>,
    source: Source,
    section: SectionView,
    name: Seq<char>,
)
    ensures
        find_in(upsert(table, source, section), name) == if section_profile_name(
            source,
            section.name,
        ) == name {
            Some(with_section(or_blank(find_in(table, name), name), source, section.entries))
        } else {
            find_in(table, name)
        },
{
    let target = section_profile_name(source, section.name);
    let next = upsert(table, source, section);
    let i = profile_position(table, target) as int;
    let k = profile_position(table, name) as int;
    lemma_profile_position_bounds(table, target);
    lemma_profile_position_bounds(table, name);
    assert forall|j: int| 0 <= j < table.len() implies (#[trigger] next[j]).name == table[j].name by {}
    if target == name {
        lemma_profile_position(next, name, i);
    } else {
        if k < table.len() {
            lemma_profile_position(next, name, k);
        } else {
            lemma_profile_position(next, name, next.len() as int);
        }
    }
}

/// The table after a source holds, under each name, the profile that the
/// sections describing it make.
pub proof fn lemma_find_merge(
    table: Seq<ProfileView>,
    source: Source,
    doc: Seq<SectionView>,
    name: Seq<char>,
)
    ensures
        find_in(merge(table, source, doc), name) == merged_entry(
            find_in(table, name),
            source,
            doc,
            name,
        ),
    decreases doc.len(),
{
    if doc.len() > 0 {
        lemma_find_merge(table, source, doc.drop_last(), name);
        lemma_find_upsert(merge(table, source, doc.drop_last()), source, doc.last(), name);
    }
}

/// A name has a profile after a source exactly where it had one before or a
/// section describes it.
pub proof fn lemma_entry_present(
    base: Option<ProfileView>,
    source: Source,
    doc: Seq<SectionView>,
    name: Seq<char>,
)
    ensures
        merged_entry(base, source, doc, name) is Some <==> base is Some || describes(
            source,
            doc,
            name,
        ),
    decreases doc.len(),
{
    if doc.len() > 0 {
        let front = doc.drop_last();
        lemma_entry_present(base, source, front, name);
        if describes(source, front, name) {
            let j = choose|j: int|
                0 <= j < front.len() && section_profile_name(source, (#[trigger] front[j]).name)
                    == name;
            assert(doc[j] == front[j]);
        }
        if section_profile_name(source, doc.last().name) == name {
            assert(doc[doc.len() - 1] == doc.last());
        }
        if describes(source, doc, name) {
            let j = choose|j: int|
                0 <= j < doc.len() && section_profile_name(source, (#[trigger] doc[j]).name)
                    == name;
            if j < front.len() {
                assert(front[j] == doc[j]);
            }
        }
    }
}

/// A profile keeps its name through a source.
pub proof fn lemma_entry_name(
    base: Option<ProfileView>,
    source: Source,
    doc: Seq<SectionView>,
    name: Seq<char>,
)
    requires
        base is Some ==> base->0.name == name,
    ensures
        merged_entry(base, source, doc, name) is Some ==> merged_entry(
            base,
            source,
            doc,
            name,
        )->0.name == name,
    decreases doc.len(),
{
    if doc.len() > 0 {
        lemma_entry_name(base, source, doc.drop_last(), name);
    }
}

/// A source drops no field that a profile had before it.
pub proof fn lemma_base_kept(
    base: ProfileView,
    source: Source,
    doc: Seq<SectionView>,
    name: Seq<char>,
)
    ensures
        merged_entry(Some(base), source, doc, name) is Some,
        covers(merged_entry(Some(base), source, doc, name)->0, base),
    decreases doc.len(),
{
    if doc.len() > 0 {
        lemma_base_kept(base, source, doc.drop_last(), name);
    }
}

/// A source drops no field that one of its sections sets: the profile that
/// section `j` describes has every field that the section holds.
pub proof fn lemma_section_kept(
    base: Option<ProfileView>,
    source: Source,
    doc: Seq<SectionView>,
    name: Seq<char>,
    j: int,
)
    requires
        0 <= j < doc.len(),
        section_profile_name(source, doc[j].name) == name,
    ensures
        merged_entry(base, source, doc, name) is Some,
        covers(
            merged_entry(base, source, doc, name)->0,
            with_section(ProfileView::blank(name), source, doc[j].entries),
        ),
    decreases doc.len(),
{
    let front = doc.drop_last();
    if j < doc.len() - 1 {
        assert(front[j] == doc[j]);
        lemma_section_kept(base, source, front, name, j);
    }
}

/// A source leaves alone the profile that none of its sections describes.
pub proof fn lemma_untouched(
    base: Option<ProfileView>,
    source: Source,
    doc: Seq<SectionView>,
    name: Seq<char>,
)
    requires
        !describes(source, doc, name),
    ensures
        merged_entry(base, source, doc, name) == base,
    decreases doc.len(),
{
    if doc.len() > 0 {
        let front = doc.drop_last();
        assert(doc.last() == doc[doc.len() - 1]);
        assert forall|i: int| 0 <= i < front.len() implies section_profile_name(
            source,
            (#[trigger] front[i]).name,
        ) != name by {
            assert(front[i] == doc[i]);
        }
        lemma_untouched(base, source, front, name);
    }
}

/// Section `j` is the only one of `doc` that describes the profile `name`.
pub open spec fn only_section(source: Source, doc: Seq<SectionView>, name: Seq<char>, j: int) -> bool {
    &&& 0 <= j < doc.len()
    &&& forall|i: int|
        0 <= i < doc.len() ==> (section_profile_name(source, (#[trigger] doc[i]).name) == name
            <==> i == j)
}

/// In a credentials source without a section twice, every section is alone
/// in describing its profile.
pub proof fn lemma_credentials_section_alone(doc: Seq<SectionView>, j: int)
    requires
        crate::ini::well_formed(doc),
        0 <= j < doc.len(),
    ensures
        only_section(Source::Credentials, doc, doc[j].name, j),
{
    assert forall|i: int| 0 <= i < doc.len() implies (section_profile_name(
        Source::Credentials,
        (#[trigger] doc[i]).name,
    ) == doc[j].name <==> i == j) by {
        if i < j {
            assert(doc[i].name != doc[j].name);
        }
        if j < i {
            assert(doc[j].name != doc[i].name);
        }
    }
}

/// A section alone in describing a profile gives it exactly its fields, on
/// top of what the profile held before.
pub proof fn lemma_single_section(
    base: Option<ProfileView>,
    source: Source,
    doc: Seq<SectionView>,
    name: Seq<char>,
    j: int,
)
    requires
        only_section(source, doc, name, j),
    ensures
        merged_entry(base, source, doc, name) == Some(
            with_section(or_blank(base, name), source, doc[j].entries),
        ),
    decreases doc.len(),
{
    let front = doc.drop_last();
    assert(doc.last() == doc[doc.len() - 1]);
    if j < doc.len() - 1 {
        assert forall|i: int| 0 <= i < front.len() implies (section_profile_name(
            source,
            (#[trigger] front[i]).name,
        ) == name <==> i == j) by {
            assert(front[i] == doc[i]);
        }
        lemma_single_section(base, source, front, name, j);
    } else {
        assert forall|i: int| 0 <= i < front.len() implies section_profile_name(
            source,
            (#[trigger] front[i]).name,
        ) != name by {
            assert(front[i] == doc[i]);
        }
        lemma_untouched(base, source, front, name);
    }
}

/// The sections of the one source or the other.
pub open spec fn sections_from(
    source: Source,
    config: SourceText,
    credentials: SourceText,
) -> Seq<SectionView> {
    if source == Source::Config {
        source_sections(config)
    } else {
        source_sections(credentials)
    }
}

/// The profile that the two sources give a name: the sections of the
/// configuration source that describe it, then those of the credentials
/// source.
pub open spec fn loaded_entry(config: SourceText, credentials: SourceText, name: Seq<char>) -> Option<
    ProfileView,
> {
    merged_entry(
        merged_entry(None, Source::Config, source_sections(config), name),
        Source::Credentials,
        source_sections(credentials),
        name,
    )
}

/// The loaded table holds, under each name, the profile that the sections
/// describing it in the two sources make, and only those.
pub proof fn lemma_loaded_entry(config: SourceText, credentials: SourceText, name: Seq<char>)
    ensures
        find_in(loaded(config, credentials), name) == loaded_entry(config, credentials, name),
{
    let first = merge(Seq::empty(), Source::Config, source_sections(config));
    lemma_find_merge(Seq::empty(), Source::Config, source_sections(config), name);
    lemma_find_merge(first, Source::Credentials, source_sections(credentials), name);
}

/// The loaded table has an entry for a name exactly where a section of
/// either source describes it, and the entry bears that name.
pub proof fn lemma_loaded_names(config: SourceText, credentials: SourceText, name: Seq<char>)
    ensures
        find_in(loaded(config, credentials), name) is Some <==> describes(
            Source::Config,
            source_sections(config),
            name,
        ) || describes(Source::Credentials, source_sections(credentials), name),
        find_in(loaded(config, credentials), name) is Some ==> find_in(
            loaded(config, credentials),
            name,
        )->0.name == name,
{
    lemma_loaded_entry(config, credentials, name);
    let first = merged_entry(None, Source::Config, source_sections(config), name);
    lemma_entry_present(None, Source::Config, source_sections(config), name);
    lemma_entry_present(first, Source::Credentials, source_sections(credentials), name);
    lemma_entry_name(None, Source::Config, source_sections(config), name);
    lemma_entry_name(first, Source::Credentials, source_sections(credentials), name);
}

/// Loading drops no field: the entry of the profile that section `j` of
/// `source` describes has every field that the section sets.
pub proof fn lemma_loaded_fields(
    config: SourceText,
    credentials: SourceText,
    source: Source,
    name: Seq<char>,
    j: int,
)
    requires
        0 <= j < sections_from(source, config, credentials).len(),
        section_profile_name(
            source,
            sections_from(source, config, credentials)[j].name,
        ) == name,
    ensures
        find_in(loaded(config, credentials), name) is Some,
        covers(
            find_in(loaded(config, credentials), name)->0,
            with_section(
                ProfileView::blank(name),
                source,
                sections_from(source, config, credentials)[j].entries,
            ),
        ),
{
    lemma_loaded_entry(config, credentials, name);
    let first = merged_entry(None, Source::Config, source_sections(config), name);
    if source == Source::Config {
        lemma_section_kept(None, Source::Config, source_sections(config), name, j);
        lemma_base_kept(first->0, Source::Credentials, source_sections(credentials), name);
    } else {
        lemma_section_kept(first, Source::Credentials, source_sections(credentials), name, j);
    }
}

/// Where each source describes a profile in one section, the loaded entry
/// is the blank profile with the fields of the configuration section and
/// then those of the credentials section: nothing else, and nothing less.
pub proof fn lemma_loaded_from_one_section_each(
    config: SourceText,
    credentials: SourceText,
    name: Seq<char>,
    in_config: int,
    in_credentials: int,
)
    requires
        only_section(Source::Config, source_sections(config), name, in_config),
        only_section(Source::Credentials, source_sections(credentials), name, in_credentials),
    ensures
        find_in(loaded(config, credentials), name) == Some(
            with_section(
                with_section(
                    ProfileView::blank(name),
                    Source::Config,
                    source_sections(config)[in_config].entries,
                ),
                Source::Credentials,
                source_sections(credentials)[in_credentials].entries,
            ),
        ),
{
    lemma_loaded_entry(config, credentials, name);
    lemma_single_section(None, Source::Config, source_sections(config), name, in_config);
    lemma_single_section(
        merged_entry(None, Source::Config, source_sections(config), name),
        Source::Credentials,
        source_sections(credentials),
        name,
        in_credentials,
    );
}

/// A profile that one source alone describes, in one section, holds
/// exactly the fields of that section.
pub proof fn lemma_loaded_from_one_source(
    config: SourceText,
    credentials: SourceText,
    source: Source,
    name: Seq<char>,
    j: int,
)
    requires
        only_section(source, sections_from(source, config, credentials), name, j),
        source == Source::Config ==> !describes(
            Source::Credentials,
            source_sections(credentials),
            name,
        ),
        source == Source::Credentials ==> !describes(
            Source::Config,
            source_sections(config),
            name,
        ),
    ensures
        find_in(loaded(config, credentials), name) == Some(
            with_section(
                ProfileView::blank(name),
                source,
                sections_from(source, config, credentials)[j].entries,
            ),
        ),
{
    lemma_loaded_entry(config, credentials, name);
    let first = merged_entry(None, Source::Config, source_sections(config), name);
    if source == Source::Config {
        lemma_single_section(None, Source::Config, source_sections(config), name, j);
        lemma_untouched(first, Source::Credentials, source_sections(credentials), name);
    } else {
        lemma_untouched(None, Source::Config, source_sections(config), name);
        lemma_single_section(first, Source::Credentials, source_sections(credentials), name, j);
    }
}

} // verus!
