//! Mapping free-form station names to timetable columns.
//!
//! A station has one canonical column key — the header its times stand under
//! in the timetables — and any number of registered aliases: abbreviations
//! and full names. Lookup normalizes the caller's spelling (trim, lower-case)
//! and matches it against the aliases; an unmatched name is rejected.

use vstd::prelude::*;

use crate::text::normalize;
use crate::Error;

verus! {

/// The canonical identifier of a station: the column its scheduled times
/// stand under in every timetable.
#[derive(Debug)]
pub struct StationKey {
    /// The column header, letter for letter.
    pub column: String,
}

impl View for StationKey {
    type V = Seq<char>;

    open spec fn view(&self) -> Seq<char> {
        self.column@
    }
}

/// The registered surface forms of the stations: each entry pairs one alias
/// (already trimmed and lower-case) with the station's column key. Several
/// aliases may share one key; lookup takes the first match.
#[derive(Debug)]
pub struct AliasTable {
    /// The (alias, key) pairs, in lookup order.
    pub entries: Vec<(String, StationKey)>,
}

impl View for AliasTable {
    type V = Seq<(Seq<char>, Seq<char>)>;

    open spec fn view(&self) -> Seq<(Seq<char>, Seq<char>)> {
        Seq::new(self.entries@.len(), |i: int| (self.entries@[i].0@, self.entries@[i].1@))
    }
}

/// The column key the first matching alias maps the name to, if any. The
/// name is expected in normalized form.
pub open spec fn spec_resolve(entries: Seq<(Seq<char>, Seq<char>)>, name: Seq<char>) -> Option<
    Seq<char>,
>
    decreases entries.len(),
{
    if entries.len() == 0 {
        None
    } else if entries[0].0 == name {
        Some(entries[0].1)
    } else {
        spec_resolve(entries.drop_first(), name)
    }
}

/// No two entries register the same alias.
pub open spec fn aliases_unique(entries: Seq<(Seq<char>, Seq<char>)>) -> bool {
    forall|i: int, j: int| 0 <= i < j < entries.len() ==> entries[i].0 != entries[j].0
}

/// Map a caller-supplied station name to its column key.
///
/// The name is trimmed and folded to lower case, then matched against the
/// registered aliases; fails with [`Error::UnknownStation`] exactly when no
/// alias reads the same.
pub fn resolve(raw: &str, table: &AliasTable) -> (r: Result<StationKey, Error>)
    ensures
        match spec_resolve(table@, normalize(raw@)) {
            Some(col) => r matches Ok(k) && k@ == col,
            None => r == Err::<StationKey, Error>(Error::UnknownStation),
        },
{
    let n = table.entries.len();
    let mut idx: usize = 0;
    proof {
        assert(table@.skip(0) =~= table@);
    }
    while idx < n
        invariant
            0 <= idx <= n,
            n == table.entries@.len(),
            spec_resolve(table@, normalize(raw@)) == spec_resolve(
                table@.skip(idx as int),
                normalize(raw@),
            ),
        decreases n - idx,
    {
        let entry = &table.entries[idx];
        if crate::text::eq_normalized(raw, entry.0.as_str()) {
            proof {
                assert(table@.skip(idx as int)[0] == table@[idx as int]);
            }
            return Ok(StationKey { column: entry.1.column.clone() });
        }
        proof {
            assert(table@.skip(idx as int)[0] == table@[idx as int]);
            assert(table@.skip(idx as int).drop_first() =~= table@.skip(idx as int + 1));
        }
        idx = idx + 1;
    }
    proof {
        assert(table@.skip(n as int) =~= Seq::<(Seq<char>, Seq<char>)>::empty());
    }
    Err(Error::UnknownStation)
}

/// The registered aliases, in lookup order: each pair is one alias and the
/// column key it maps to.
pub open spec fn default_aliases() -> Seq<(Seq<char>, Seq<char>)> {
    seq![
        ("lambert"@, "Lambert Airport Terminal # 1"@),
        ("lambert2"@, "Lambert Airport Terminal # 2"@),
        ("hanley"@, "North Hanley Station"@),
        ("umsl north"@, "UMSL North Station"@),
        ("umsl"@, "UMSL North Station"@),
        ("umsl south"@, "UMSL South Station"@),
        ("rock road"@, "Rock Road Station"@),
        ("wellston"@, "Wellston Station"@),
        ("delmar"@, "Delmar Loop Station"@),
        ("shrewsbury"@, "ShrewsburyLansdowne I44 Station"@),
        ("sunnen"@, "Sunnen Station"@),
        ("maplewood"@, "MaplewoodManchester Station"@),
        ("brentwood"@, "Brentwood I64 Station"@),
        ("richmond"@, "Richmond Heights Station"@),
        ("richmond heights"@, "Richmond Heights Station"@),
        ("clayton"@, "Clayton Station"@),
        ("forsyth"@, "Forsyth Station"@),
        ("u city"@, "University CityBig Bend Station"@),
        ("university city"@, "University CityBig Bend Station"@),
        ("skinker"@, "Skinker Station"@),
        ("forest park"@, "Forest ParkDeBaliviere Station"@),
        ("cwe"@, "Central West End Station"@),
        ("central west end"@, "Central West End Station"@),
        ("cortex"@, "Cortex Station"@),
        ("grand"@, "Grand Station"@),
        ("union"@, "Union Station"@),
        ("civic center"@, "Civic Center Station"@),
        ("civic"@, "Civic Center Station"@),
        ("stadium"@, "Stadium Station"@),
        ("8th and pine"@, "8th & Pine Station"@),
        ("8th pine"@, "8th & Pine Station"@),
        ("convention center"@, "Convention Center Station"@),
        ("convention"@, "Convention Center Station"@),
        ("lacledes"@, "Laclede's Landing Station"@),
        ("lacledes landing"@, "Laclede's Landing Station"@),
        ("riverfront"@, "East Riverfront Station"@),
        ("east riverfront"@, "East Riverfront Station"@),
        ("fifth missouri"@, "5th & Missouri Station"@),
        ("5th missouri"@, "5th & Missouri Station"@),
        ("emerson"@, "Emerson Park Station"@),
        ("emerson park"@, "Emerson Park Station"@),
        ("jjk"@, "JJK Center Station"@),
        ("jackie joiner"@, "JJK Center Station"@),
        ("washington"@, "Washington Park Station"@),
        ("fvh"@, "Fairview Heights Station"@),
        ("fairview heights"@, "Fairview Heights Station"@),
        ("memorial hospital"@, "Memorial Hospital Station"@),
        ("swansea"@, "Swansea Station"@),
        ("belleville"@, "Belleville Station"@),
        ("college"@, "College Station"@),
        ("shiloh"@, "ShilohScott Station"@),
        ("shiloh scott"@, "ShilohScott Station"@),
    ]
}

/// Register one alias for a column.
fn push_alias(entries: &mut Vec<(String, StationKey)>, alias: &str, column: &str)
    ensures
        final(entries)@.len() == old(entries)@.len() + 1,
        forall|i: int|
            0 <= i < old(entries)@.len() ==> final(entries)@[i] == old(entries)@[i],
        final(entries)@.last().0@ == alias@,
        final(entries)@.last().1@ == column@,
{
    entries.push((String::from_str(alias), StationKey { column: String::from_str(column) }));
}

/// The station register this system ships with: every station of the line,
/// under its abbreviations and full names.
pub fn default_alias_table() -> (r: AliasTable)
    ensures
        r@ == default_aliases(),
{
    let mut entries: Vec<(String, StationKey)> = Vec::new();
    push_alias(&mut entries, "lambert", "Lambert Airport Terminal # 1");
    push_alias(&mut entries, "lambert2", "Lambert Airport Terminal # 2");
    push_alias(&mut entries, "hanley", "North Hanley Station");
    push_alias(&mut entries, "umsl north", "UMSL North Station");
    push_alias(&mut entries, "umsl", "UMSL North Station");
    push_alias(&mut entries, "umsl south", "UMSL South Station");
    push_alias(&mut entries, "rock road", "Rock Road Station");
    push_alias(&mut entries, "wellston", "Wellston Station");
    push_alias(&mut entries, "delmar", "Delmar Loop Station");
    push_alias(&mut entries, "shrewsbury", "ShrewsburyLansdowne I44 Station");
    push_alias(&mut entries, "sunnen", "Sunnen Station");
    push_alias(&mut entries, "maplewood", "MaplewoodManchester Station");
    push_alias(&mut entries, "brentwood", "Brentwood I64 Station");
    push_alias(&mut entries, "richmond", "Richmond Heights Station");
    push_alias(&mut entries, "richmond heights", "Richmond Heights Station");
    push_alias(&mut entries, "clayton", "Clayton Station");
    push_alias(&mut entries, "forsyth", "Forsyth Station");
    push_alias(&mut entries, "u city", "University CityBig Bend Station");
    push_alias(&mut entries, "university city", "University CityBig Bend Station");
    push_alias(&mut entries, "skinker", "Skinker Station");
    push_alias(&mut entries, "forest park", "Forest ParkDeBaliviere Station");
    push_alias(&mut entries, "cwe", "Central West End Station");
    push_alias(&mut entries, "central west end", "Central West End Station");
    push_alias(&mut entries, "cortex", "Cortex Station");
    push_alias(&mut entries, "grand", "Grand Station");
    push_alias(&mut entries, "union", "Union Station");
    push_alias(&mut entries, "civic center", "Civic Center Station");
    push_alias(&mut entries, "civic", "Civic Center Station");
    push_alias(&mut entries, "stadium", "Stadium Station");
    push_alias(&mut entries, "8th and pine", "8th & Pine Station");
    push_alias(&mut entries, "8th pine", "8th & Pine Station");
    push_alias(&mut entries, "convention center", "Convention Center Station");
    push_alias(&mut entries, "convention", "Convention Center Station");
    push_alias(&mut entries, "lacledes", "Laclede's Landing Station");
    push_alias(&mut entries, "lacledes landing", "Laclede's Landing Station");
    push_alias(&mut entries, "riverfront", "East Riverfront Station");
    push_alias(&mut entries, "east riverfront", "East Riverfront Station");
    push_alias(&mut entries, "fifth missouri", "5th & Missouri Station");
    push_alias(&mut entries, "5th missouri", "5th & Missouri Station");
    push_alias(&mut entries, "emerson", "Emerson Park Station");
    push_alias(&mut entries, "emerson park", "Emerson Park Station");
    push_alias(&mut entries, "jjk", "JJK Center Station");
    push_alias(&mut entries, "jackie joiner", "JJK Center Station");
    push_alias(&mut entries, "washington", "Washington Park Station");
    push_alias(&mut entries, "fvh", "Fairview Heights Station");
    push_alias(&mut entries, "fairview heights", "Fairview Heights Station");
    push_alias(&mut entries, "memorial hospital", "Memorial Hospital Station");
    push_alias(&mut entries, "swansea", "Swansea Station");
    push_alias(&mut entries, "belleville", "Belleville Station");
    push_alias(&mut entries, "college", "College Station");
    push_alias(&mut entries, "shiloh", "ShilohScott Station");
    push_alias(&mut entries, "shiloh scott", "ShilohScott Station");
    let table = AliasTable { entries };
    proof {
        assert(table@ =~= default_aliases());
    }
    table
}


/// The register this system ships with honors the alias-table invariant:
/// no alias is registered twice.
#[verifier::rlimit(100)]
pub proof fn lemma_default_aliases_unique()
    ensures
        aliases_unique(default_aliases()),
{
    reveal_strlit("lambert");
    reveal_strlit("lambert2");
    reveal_strlit("hanley");
    reveal_strlit("umsl north");
    reveal_strlit("umsl");
    reveal_strlit("umsl south");
    reveal_strlit("rock road");
    reveal_strlit("wellston");
    reveal_strlit("delmar");
    reveal_strlit("shrewsbury");
    reveal_strlit("sunnen");
    reveal_strlit("maplewood");
    reveal_strlit("brentwood");
    reveal_strlit("richmond");
    reveal_strlit("richmond heights");
    reveal_strlit("clayton");
    reveal_strlit("forsyth");
    reveal_strlit("u city");
    reveal_strlit("university city");
    reveal_strlit("skinker");
    reveal_strlit("forest park");
    reveal_strlit("cwe");
    reveal_strlit("central west end");
    reveal_strlit("cortex");
    reveal_strlit("grand");
    reveal_strlit("union");
    reveal_strlit("civic center");
    reveal_strlit("civic");
    reveal_strlit("stadium");
    reveal_strlit("8th and pine");
    reveal_strlit("8th pine");
    reveal_strlit("convention center");
    reveal_strlit("convention");
    reveal_strlit("lacledes");
    reveal_strlit("lacledes landing");
    reveal_strlit("riverfront");
    reveal_strlit("east riverfront");
    reveal_strlit("fifth missouri");
    reveal_strlit("5th missouri");
    reveal_strlit("emerson");
    reveal_strlit("emerson park");
    reveal_strlit("jjk");
    reveal_strlit("jackie joiner");
    reveal_strlit("washington");
    reveal_strlit("fvh");
    reveal_strlit("fairview heights");
    reveal_strlit("memorial hospital");
    reveal_strlit("swansea");
    reveal_strlit("belleville");
    reveal_strlit("college");
    reveal_strlit("shiloh");
    reveal_strlit("shiloh scott");
    assert(("lambert"@).len() == 7);
    assert(("lambert2"@).len() == 8);
    assert(("hanley"@).len() == 6);
    assert(("umsl north"@).len() == 10);
    assert(("umsl"@).len() == 4);
    assert(("umsl south"@).len() == 10);
    assert(("rock road"@).len() == 9);
    assert(("wellston"@).len() == 8);
    assert(("delmar"@).len() == 6);
    assert(("shrewsbury"@).len() == 10);
    assert(("sunnen"@).len() == 6);
    assert(("maplewood"@).len() == 9);
    assert(("brentwood"@).len() == 9);
    assert(("richmond"@).len() == 8);
    assert(("richmond heights"@).len() == 16);
    assert(("clayton"@).len() == 7);
    assert(("forsyth"@).len() == 7);
    assert(("u city"@).len() == 6);
    assert(("university city"@).len() == 15);
    assert(("skinker"@).len() == 7);
    assert(("forest park"@).len() == 11);
    assert(("cwe"@).len() == 3);
    assert(("central west end"@).len() == 16);
    assert(("cortex"@).len() == 6);
    assert(("grand"@).len() == 5);
    assert(("union"@).len() == 5);
    assert(("civic center"@).len() == 12);
    assert(("civic"@).len() == 5);
    assert(("stadium"@).len() == 7);
    assert(("8th and pine"@).len() == 12);
    assert(("8th pine"@).len() == 8);
    assert(("convention center"@).len() == 17);
    assert(("convention"@).len() == 10);
    assert(("lacledes"@).len() == 8);
    assert(("lacledes landing"@).len() == 16);
    assert(("riverfront"@).len() == 10);
    assert(("east riverfront"@).len() == 15);
    assert(("fifth missouri"@).len() == 14);
    assert(("5th missouri"@).len() == 12);
    assert(("emerson"@).len() == 7);
    assert(("emerson park"@).len() == 12);
    assert(("jjk"@).len() == 3);
    assert(("jackie joiner"@).len() == 13);
    assert(("washington"@).len() == 10);
    assert(("fvh"@).len() == 3);
    assert(("fairview heights"@).len() == 16);
    assert(("memorial hospital"@).len() == 17);
    assert(("swansea"@).len() == 7);
    assert(("belleville"@).len() == 10);
    assert(("college"@).len() == 7);
    assert(("shiloh"@).len() == 6);
    assert(("shiloh scott"@).len() == 12);
    assert(("lambert"@)[0] != ("clayton"@)[0]);
    assert(("lambert"@)[0] != ("forsyth"@)[0]);
    assert(("lambert"@)[0] != ("skinker"@)[0]);
    assert(("lambert"@)[0] != ("stadium"@)[0]);
    assert(("lambert"@)[0] != ("emerson"@)[0]);
    assert(("lambert"@)[0] != ("swansea"@)[0]);
    assert(("lambert"@)[0] != ("college"@)[0]);
    assert(("lambert2"@)[0] != ("wellston"@)[0]);
    assert(("lambert2"@)[0] != ("richmond"@)[0]);
    assert(("lambert2"@)[0] != ("8th pine"@)[0]);
    assert(("lambert2"@)[2] != ("lacledes"@)[2]);
    assert(("hanley"@)[0] != ("delmar"@)[0]);
    assert(("hanley"@)[0] != ("sunnen"@)[0]);
    assert(("hanley"@)[0] != ("u city"@)[0]);
    assert(("hanley"@)[0] != ("cortex"@)[0]);
    assert(("hanley"@)[0] != ("shiloh"@)[0]);
    assert(("umsl north"@)[5] != ("umsl south"@)[5]);
    assert(("umsl north"@)[0] != ("shrewsbury"@)[0]);
    assert(("umsl north"@)[0] != ("convention"@)[0]);
    assert(("umsl north"@)[0] != ("riverfront"@)[0]);
    assert(("umsl north"@)[0] != ("washington"@)[0]);
    assert(("umsl north"@)[0] != ("belleville"@)[0]);
    assert(("umsl south"@)[0] != ("shrewsbury"@)[0]);
    assert(("umsl south"@)[0] != ("convention"@)[0]);
    assert(("umsl south"@)[0] != ("riverfront"@)[0]);
    assert(("umsl south"@)[0] != ("washington"@)[0]);
    assert(("umsl south"@)[0] != ("belleville"@)[0]);
    assert(("rock road"@)[0] != ("maplewood"@)[0]);
    assert(("rock road"@)[0] != ("brentwood"@)[0]);
    assert(("wellston"@)[0] != ("richmond"@)[0]);
    assert(("wellston"@)[0] != ("8th pine"@)[0]);
    assert(("wellston"@)[0] != ("lacledes"@)[0]);
    assert(("delmar"@)[0] != ("sunnen"@)[0]);
    assert(("delmar"@)[0] != ("u city"@)[0]);
    assert(("delmar"@)[0] != ("cortex"@)[0]);
    assert(("delmar"@)[0] != ("shiloh"@)[0]);
    assert(("shrewsbury"@)[0] != ("convention"@)[0]);
    assert(("shrewsbury"@)[0] != ("riverfront"@)[0]);
    assert(("shrewsbury"@)[0] != ("washington"@)[0]);
    assert(("shrewsbury"@)[0] != ("belleville"@)[0]);
    assert(("sunnen"@)[0] != ("u city"@)[0]);
    assert(("sunnen"@)[0] != ("cortex"@)[0]);
    assert(("sunnen"@)[1] != ("shiloh"@)[1]);
    assert(("maplewood"@)[0] != ("brentwood"@)[0]);
    assert(("richmond"@)[0] != ("8th pine"@)[0]);
    assert(("richmond"@)[0] != ("lacledes"@)[0]);
    assert(("richmond heights"@)[0] != ("central west end"@)[0]);
    assert(("richmond heights"@)[0] != ("lacledes landing"@)[0]);
    assert(("richmond heights"@)[0] != ("fairview heights"@)[0]);
    assert(("clayton"@)[0] != ("forsyth"@)[0]);
    assert(("clayton"@)[0] != ("skinker"@)[0]);
    assert(("clayton"@)[0] != ("stadium"@)[0]);
    assert(("clayton"@)[0] != ("emerson"@)[0]);
    assert(("clayton"@)[0] != ("swansea"@)[0]);
    assert(("clayton"@)[1] != ("college"@)[1]);
    assert(("forsyth"@)[0] != ("skinker"@)[0]);
    assert(("forsyth"@)[0] != ("stadium"@)[0]);
    assert(("forsyth"@)[0] != ("emerson"@)[0]);
    assert(("forsyth"@)[0] != ("swansea"@)[0]);
    assert(("forsyth"@)[0] != ("college"@)[0]);
    assert(("u city"@)[0] != ("cortex"@)[0]);
    assert(("u city"@)[0] != ("shiloh"@)[0]);
    assert(("university city"@)[0] != ("east riverfront"@)[0]);
    assert(("skinker"@)[1] != ("stadium"@)[1]);
    assert(("skinker"@)[0] != ("emerson"@)[0]);
    assert(("skinker"@)[1] != ("swansea"@)[1]);
    assert(("skinker"@)[0] != ("college"@)[0]);
    assert(("cwe"@)[0] != ("jjk"@)[0]);
    assert(("cwe"@)[0] != ("fvh"@)[0]);
    assert(("central west end"@)[0] != ("lacledes landing"@)[0]);
    assert(("central west end"@)[0] != ("fairview heights"@)[0]);
    assert(("cortex"@)[0] != ("shiloh"@)[0]);
    assert(("grand"@)[0] != ("union"@)[0]);
    assert(("grand"@)[0] != ("civic"@)[0]);
    assert(("union"@)[0] != ("civic"@)[0]);
    assert(("civic center"@)[0] != ("8th and pine"@)[0]);
    assert(("civic center"@)[0] != ("5th missouri"@)[0]);
    assert(("civic center"@)[0] != ("emerson park"@)[0]);
    assert(("civic center"@)[0] != ("shiloh scott"@)[0]);
    assert(("stadium"@)[0] != ("emerson"@)[0]);
    assert(("stadium"@)[1] != ("swansea"@)[1]);
    assert(("stadium"@)[0] != ("college"@)[0]);
    assert(("8th and pine"@)[0] != ("5th missouri"@)[0]);
    assert(("8th and pine"@)[0] != ("emerson park"@)[0]);
    assert(("8th and pine"@)[0] != ("shiloh scott"@)[0]);
    assert(("8th pine"@)[0] != ("lacledes"@)[0]);
    assert(("convention center"@)[0] != ("memorial hospital"@)[0]);
    assert(("convention"@)[0] != ("riverfront"@)[0]);
    assert(("convention"@)[0] != ("washington"@)[0]);
    assert(("convention"@)[0] != ("belleville"@)[0]);
    assert(("lacledes landing"@)[0] != ("fairview heights"@)[0]);
    assert(("riverfront"@)[0] != ("washington"@)[0]);
    assert(("riverfront"@)[0] != ("belleville"@)[0]);
    assert(("5th missouri"@)[0] != ("emerson park"@)[0]);
    assert(("5th missouri"@)[0] != ("shiloh scott"@)[0]);
    assert(("emerson"@)[0] != ("swansea"@)[0]);
    assert(("emerson"@)[0] != ("college"@)[0]);
    assert(("emerson park"@)[0] != ("shiloh scott"@)[0]);
    assert(("jjk"@)[0] != ("fvh"@)[0]);
    assert(("washington"@)[0] != ("belleville"@)[0]);
    assert(("swansea"@)[0] != ("college"@)[0]);
}

/// In a table without duplicate aliases, each registered alias resolves to
/// exactly the key it was registered with.
pub proof fn lemma_registered_alias_resolves(entries: Seq<(Seq<char>, Seq<char>)>, i: int)
    requires
        aliases_unique(entries),
        0 <= i < entries.len(),
    ensures
        spec_resolve(entries, entries[i].0) == Some(entries[i].1),
    decreases entries.len(),
{
    if i > 0 {
        assert(entries[0].0 != entries[i].0);
        let rest = entries.drop_first();
        assert forall|a: int, b: int| 0 <= a < b < rest.len() implies rest[a].0 != rest[b].0 by {
            assert(rest[a] == entries[a + 1]);
            assert(rest[b] == entries[b + 1]);
        }
        lemma_registered_alias_resolves(rest, i - 1);
        assert(rest[i - 1] == entries[i]);
    }
}

/// Two aliases registered for one station resolve to that one station's
/// key: spelling a station by any of its registered names selects the same
/// column.
pub proof fn lemma_same_station_same_key(entries: Seq<(Seq<char>, Seq<char>)>, i: int, j: int)
    requires
        aliases_unique(entries),
        0 <= i < entries.len(),
        0 <= j < entries.len(),
        entries[i].1 == entries[j].1,
    ensures
        spec_resolve(entries, entries[i].0) == spec_resolve(entries, entries[j].0),
{
    lemma_registered_alias_resolves(entries, i);
    lemma_registered_alias_resolves(entries, j);
}

} // verus!
