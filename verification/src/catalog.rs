use crate::army_build::{ArmyBuild, ArmyBuildView};
use crate::army_setups_folder::{build_views, lemma_filter_next};
use crate::ca_game::{game_index, game_order, lemma_game_order, CaGame};
use crate::factions::Wh2Factions;
use crate::text::{
    ascii_lower, contains, has_substring, lemma_text_le_total, lemma_text_le_transitive,
    same_text, text_at_most, text_le, to_ascii_lowercase,
};
use vstd::prelude::*;

verus! {

/// Whether a list of builds holds one that is shown under `name`.
pub open spec fn has_name(builds: Seq<ArmyBuildView>, name: Seq<char>) -> bool {
    exists|i: int| 0 <= i < builds.len() && #[trigger] builds[i].file_stem == name
}

/// Whether no two builds of a list are shown under the same name.
pub open spec fn names_distinct(builds: Seq<ArmyBuildView>) -> bool {
    forall|i: int, j: int|
        0 <= i < j < builds.len() ==> #[trigger] builds[i].file_stem
            != #[trigger] builds[j].file_stem
}

/// The names under which the builds of a list are shown, as a set.
pub open spec fn name_set(builds: Seq<ArmyBuildView>) -> Set<Seq<char>> {
    Set::new(|name: Seq<char>| has_name(builds, name))
}

/// A list of builds after `build` was entered: it comes last, unless a
/// build is already shown under its name, in which case nothing changes.
pub open spec fn inserted(builds: Seq<ArmyBuildView>, build: ArmyBuildView) -> Seq<ArmyBuildView> {
    if has_name(builds, build.file_stem) {
        builds
    } else {
        builds.push(build)
    }
}

/// A list of builds after each build of `more` was entered in turn.
pub open spec fn merged(builds: Seq<ArmyBuildView>, more: Seq<ArmyBuildView>) -> Seq<
    ArmyBuildView,
>
    decreases more.len(),
{
    if more.len() == 0 {
        builds
    } else {
        inserted(merged(builds, more.drop_last()), more.last())
    }
}

/// Entering a build keeps the names distinct and adds its name to the set
/// of names; where the name was there already, the list stays as it is.
pub proof fn lemma_inserted(builds: Seq<ArmyBuildView>, build: ArmyBuildView)
    ensures
        names_distinct(builds) ==> names_distinct(inserted(builds, build)),
        name_set(inserted(builds, build)) == name_set(builds).insert(build.file_stem),
        has_name(builds, build.file_stem) ==> inserted(builds, build) == builds,
        has_name(inserted(builds, build), build.file_stem),
        builds.is_prefix_of(inserted(builds, build)),
{
    let after = inserted(builds, build);
    if !has_name(builds, build.file_stem) {
        assert(after[builds.len() as int].file_stem == build.file_stem);
        assert forall|name: Seq<char>| has_name(after, name) <==> (has_name(builds, name) || name
            == build.file_stem) by {
            if has_name(after, name) {
                let i = choose|i: int| 0 <= i < after.len() && after[i].file_stem == name;
                if i < builds.len() {
                    assert(builds[i].file_stem == name);
                }
            }
            if has_name(builds, name) {
                let i = choose|i: int| 0 <= i < builds.len() && builds[i].file_stem == name;
                assert(after[i].file_stem == name);
            }
        }
        if names_distinct(builds) {
            assert forall|i: int, j: int| 0 <= i < j < after.len() implies #[trigger] after[i].file_stem
                != #[trigger] after[j].file_stem by {
                if j == builds.len() {
                    assert(builds[i].file_stem == after[i].file_stem);
                } else {
                    assert(builds[i].file_stem != builds[j].file_stem);
                }
            }
        }
    }
    assert(name_set(after) =~= name_set(builds).insert(build.file_stem));
}

/// Builds that are shown under names of which no two are alike have as many
/// names as there are builds.
pub proof fn lemma_name_set_len(builds: Seq<ArmyBuildView>)
    requires
        names_distinct(builds),
    ensures
        name_set(builds).finite(),
        name_set(builds).len() == builds.len(),
    decreases builds.len(),
{
    if builds.len() == 0 {
        assert(name_set(builds) =~= Set::<Seq<char>>::empty());
    } else {
        let rest = builds.drop_last();
        let last = builds.last();
        assert forall|i: int, j: int| 0 <= i < j < rest.len() implies #[trigger] rest[i].file_stem
            != #[trigger] rest[j].file_stem by {
            assert(builds[i].file_stem != builds[j].file_stem);
        }
        lemma_name_set_len(rest);
        if has_name(rest, last.file_stem) {
            let i = choose|i: int| 0 <= i < rest.len() && rest[i].file_stem == last.file_stem;
            assert(builds[i].file_stem == builds[builds.len() - 1].file_stem);
        }
        lemma_inserted(rest, last);
        assert(inserted(rest, last) =~= builds);
        assert(!name_set(rest).contains(last.file_stem));
    }
}

/// Entering a list of builds is a union on names: the names are those of
/// both lists, the builds that were there stay in their places, the names
/// stay distinct, and under a name that is new stands the first build of
/// `more` with that name.
pub proof fn lemma_merged(builds: Seq<ArmyBuildView>, more: Seq<ArmyBuildView>)
    ensures
        names_distinct(builds) ==> names_distinct(merged(builds, more)),
        name_set(merged(builds, more)) == name_set(builds).union(name_set(more)),
        builds.is_prefix_of(merged(builds, more)),
        forall|i: int|
            builds.len() <= i < merged(builds, more).len() ==> exists|k: int|
                0 <= k < more.len() && #[trigger] more[k] == #[trigger] merged(builds, more)[i]
                    && !has_name(more.take(k), more[k].file_stem),
    decreases more.len(),
{
    let after = merged(builds, more);
    if more.len() == 0 {
        assert(name_set(more) =~= Set::empty());
        assert(name_set(after) =~= name_set(builds).union(name_set(more)));
    } else {
        let rest = more.drop_last();
        let last = more.last();
        let mid = merged(builds, rest);
        lemma_merged(builds, rest);
        lemma_inserted(mid, last);
        assert forall|name: Seq<char>| has_name(more, name) <==> (has_name(rest, name) || name
            == last.file_stem) by {
            if has_name(more, name) {
                let i = choose|i: int| 0 <= i < more.len() && more[i].file_stem == name;
                if i < rest.len() {
                    assert(rest[i].file_stem == name);
                }
            }
            if has_name(rest, name) {
                let i = choose|i: int| 0 <= i < rest.len() && rest[i].file_stem == name;
                assert(more[i].file_stem == name);
            }
            if name == last.file_stem {
                assert(more[more.len() - 1].file_stem == name);
            }
        }
        assert(name_set(after) =~= name_set(builds).union(name_set(more)));
        assert forall|i: int| builds.len() <= i < after.len() implies exists|k: int|
            0 <= k < more.len() && #[trigger] more[k] == #[trigger] after[i] && !has_name(
                more.take(k),
                more[k].file_stem,
            ) by {
            if i < mid.len() {
                let k = choose|k: int|
                    0 <= k < rest.len() && #[trigger] rest[k] == #[trigger] mid[i] && !has_name(
                        rest.take(k),
                        rest[k].file_stem,
                    );
                assert(rest.take(k) =~= more.take(k));
                assert(more[k] == after[i]);
            } else {
                let k = more.len() - 1;
                assert(!has_name(mid, last.file_stem));
                assert(name_set(mid).contains(last.file_stem) == has_name(mid, last.file_stem));
                assert(name_set(rest).contains(last.file_stem) == has_name(rest, last.file_stem));
                assert(rest =~= more.take(k));
                assert(more[k] == after[i]);
            }
        }
    }
}

/// Whether a build passes a search: its faction is the one asked for,
/// unless all are asked for; likewise its opposing faction; and its name
/// holds the words asked for, letter case aside.
pub open spec fn build_matches(
    build: ArmyBuildView,
    faction_filter: Wh2Factions,
    vs_faction_filter: Wh2Factions,
    text_query: Seq<char>,
) -> bool {
    &&& faction_filter == Wh2Factions::ALL || build.faction == faction_filter
    &&& vs_faction_filter == Wh2Factions::ALL || build.vs_faction == vs_faction_filter
    &&& has_substring(ascii_lower(build.file_stem), ascii_lower(text_query))
}

/// The builds of a list that pass a search, in their order.
pub open spec fn matching_builds(
    builds: Seq<ArmyBuildView>,
    faction_filter: Wh2Factions,
    vs_faction_filter: Wh2Factions,
    text_query: Seq<char>,
) -> Seq<ArmyBuildView> {
    builds.filter(
        |b: ArmyBuildView| build_matches(b, faction_filter, vs_faction_filter, text_query),
    )
}

/// A list that is ordered by name, after `build` was put into it behind
/// every build whose name does not stand after its own.
pub open spec fn placed_by_name(sorted: Seq<ArmyBuildView>, build: ArmyBuildView) -> Seq<
    ArmyBuildView,
>
    decreases sorted.len(),
{
    if sorted.len() == 0 {
        seq![build]
    } else if text_le(sorted.last().file_stem, build.file_stem) {
        sorted.push(build)
    } else {
        placed_by_name(sorted.drop_last(), build).push(sorted.last())
    }
}

/// A list of builds ordered by the names under which they are shown.
pub open spec fn sorted_by_name(builds: Seq<ArmyBuildView>) -> Seq<ArmyBuildView>
    decreases builds.len(),
{
    if builds.len() == 0 {
        builds
    } else {
        placed_by_name(sorted_by_name(builds.drop_last()), builds.last())
    }
}

/// Whether the names of a list of builds stand in the order of texts.
pub open spec fn is_ordered_by_name(builds: Seq<ArmyBuildView>) -> bool {
    forall|i: int, j: int|
        0 <= i <= j < builds.len() ==> text_le(
            #[trigger] builds[i].file_stem,
            #[trigger] builds[j].file_stem,
        )
}

/// What a search shows: the builds that pass it, ordered by name.
pub open spec fn display_list(
    builds: Seq<ArmyBuildView>,
    faction_filter: Wh2Factions,
    vs_faction_filter: Wh2Factions,
    text_query: Seq<char>,
) -> Seq<ArmyBuildView> {
    sorted_by_name(matching_builds(builds, faction_filter, vs_faction_filter, text_query))
}

/// Putting a build into an ordered list gives an ordered list with the
/// same builds and this one.
pub proof fn lemma_placed_by_name(sorted: Seq<ArmyBuildView>, build: ArmyBuildView)
    requires
        is_ordered_by_name(sorted),
    ensures
        is_ordered_by_name(placed_by_name(sorted, build)),
        placed_by_name(sorted, build).to_multiset() == sorted.to_multiset().insert(build),
        placed_by_name(sorted, build).len() == sorted.len() + 1,
    decreases sorted.len(),
{
    broadcast use vstd::seq_lib::group_to_multiset_ensures;

    let after = placed_by_name(sorted, build);
    if sorted.len() == 0 {
        assert(seq![build] =~= Seq::<ArmyBuildView>::empty().push(build));
        assert(sorted =~= Seq::<ArmyBuildView>::empty());
        assert forall|i: int, j: int| 0 <= i <= j < after.len() implies text_le(
            #[trigger] after[i].file_stem,
            #[trigger] after[j].file_stem,
        ) by {
            lemma_text_le_total(build.file_stem, build.file_stem);
        }
    } else if text_le(sorted.last().file_stem, build.file_stem) {
        assert forall|i: int, j: int| 0 <= i <= j < after.len() implies text_le(
            #[trigger] after[i].file_stem,
            #[trigger] after[j].file_stem,
        ) by {
            if j < sorted.len() {
                assert(text_le(sorted[i].file_stem, sorted[j].file_stem));
            } else if i < sorted.len() {
                assert(text_le(sorted[i].file_stem, sorted[sorted.len() - 1].file_stem));
                lemma_text_le_transitive(
                    sorted[i].file_stem,
                    sorted.last().file_stem,
                    build.file_stem,
                );
            } else {
                lemma_text_le_total(build.file_stem, build.file_stem);
            }
        }
    } else {
        let rest = sorted.drop_last();
        let last = sorted.last();
        assert forall|i: int, j: int| 0 <= i <= j < rest.len() implies text_le(
            #[trigger] rest[i].file_stem,
            #[trigger] rest[j].file_stem,
        ) by {
            assert(text_le(sorted[i].file_stem, sorted[j].file_stem));
        }
        lemma_placed_by_name(rest, build);
        let inner = placed_by_name(rest, build);
        lemma_text_le_total(last.file_stem, build.file_stem);
        assert forall|x: ArmyBuildView| inner.contains(x) implies text_le(
            x.file_stem,
            last.file_stem,
        ) by {
            assert(inner.to_multiset().count(x) > 0);
            if x != build {
                assert(rest.to_multiset().count(x) > 0);
                assert(rest.contains(x));
                let k = choose|k: int| 0 <= k < rest.len() && rest[k] == x;
                assert(text_le(sorted[k].file_stem, sorted[sorted.len() - 1].file_stem));
            }
        }
        assert forall|i: int, j: int| 0 <= i <= j < after.len() implies text_le(
            #[trigger] after[i].file_stem,
            #[trigger] after[j].file_stem,
        ) by {
            if j < inner.len() {
                assert(text_le(inner[i].file_stem, inner[j].file_stem));
            } else if i < inner.len() {
                assert(inner.contains(inner[i]));
            } else {
                lemma_text_le_total(last.file_stem, last.file_stem);
            }
        }
        assert(sorted =~= rest.push(last));
        assert(after.to_multiset() =~= sorted.to_multiset().insert(build));
    }
}

/// Ordering a list by name gives an ordered list of the same builds.
pub proof fn lemma_sorted_by_name(builds: Seq<ArmyBuildView>)
    ensures
        is_ordered_by_name(sorted_by_name(builds)),
        sorted_by_name(builds).to_multiset() == builds.to_multiset(),
        sorted_by_name(builds).len() == builds.len(),
    decreases builds.len(),
{
    broadcast use vstd::seq_lib::group_to_multiset_ensures;

    if builds.len() > 0 {
        let rest = builds.drop_last();
        lemma_sorted_by_name(rest);
        lemma_placed_by_name(sorted_by_name(rest), builds.last());
        assert(builds =~= rest.push(builds.last()));
    }
}

/// A copy of a list of builds.
pub fn clone_builds(builds: &Vec<ArmyBuild>) -> (r: Vec<ArmyBuild>)
    ensures
        build_views(r@) == build_views(builds@),
{
    let mut r: Vec<ArmyBuild> = Vec::new();
    let mut i: usize = 0;
    while i < builds.len()
        invariant
            i <= builds.len(),
            build_views(r@) == build_views(builds@).take(i as int),
        decreases builds.len() - i,
    {
        let ghost before = r@;
        r.push(builds[i].clone());
        assert(build_views(r@) =~= build_views(before).push(builds@[i as int]@));
        assert(build_views(r@) =~= build_views(builds@).take(i + 1));
        i += 1;
    }
    assert(build_views(builds@).take(builds@.len() as int) =~= build_views(builds@));
    r
}

/// The builds of one game: no two of them are shown under the same name,
/// and a build that is entered under a name which is taken changes nothing.
#[derive(Debug)]
pub struct Catalog {
    builds: Vec<ArmyBuild>,
}

impl View for Catalog {
    type V = Seq<ArmyBuildView>;

    /// The builds in the order in which they were entered.
    closed spec fn view(&self) -> Seq<ArmyBuildView> {
        build_views(self.builds@)
    }
}

impl Clone for Catalog {
    fn clone(&self) -> (r: Self)
        ensures
            r@ == self@,
    {
        Catalog { builds: clone_builds(&self.builds) }
    }
}

impl Catalog {
    /// Whether no two builds of the catalog are shown under the same name.
    pub open spec fn wf(&self) -> bool {
        names_distinct(self@)
    }

    /// A catalog without builds.
    pub fn new() -> (r: Self)
        ensures
            r@ == Seq::<ArmyBuildView>::empty(),
            r.wf(),
    {
        let r = Catalog { builds: Vec::new() };
        assert(r@ =~= Seq::<ArmyBuildView>::empty());
        r
    }

    /// The number of builds.
    pub fn len(&self) -> (r: usize)
        ensures
            r == self@.len(),
    {
        self.builds.len()
    }

    /// Whether the catalog holds no build.
    pub fn is_empty(&self) -> (r: bool)
        ensures
            r == (self@.len() == 0),
    {
        self.builds.len() == 0
    }

    /// The builds in the order in which they were entered.
    pub fn builds(&self) -> (r: &Vec<ArmyBuild>)
        ensures
            build_views(r@) == self@,
    {
        &self.builds
    }

    /// Whether a build is shown under `name`.
    pub fn contains_name(&self, name: &str) -> (r: bool)
        ensures
            r == has_name(self@, name@),
    {
        let mut i: usize = 0;
        while i < self.builds.len()
            invariant
                i <= self.builds.len(),
                forall|j: int| 0 <= j < i ==> (#[trigger] self@[j]).file_stem != name@,
            decreases self.builds.len() - i,
        {
            assert(self@[i as int] == self.builds@[i as int]@);
            if same_text(self.builds[i].file_stem.as_str(), name) {
                assert(self@[i as int].file_stem == name@);
                return true;
            }
            i += 1;
        }
        false
    }

    /// Whether the catalog holds the build, which is to say one of its
    /// name.
    pub fn contains(&self, build: &ArmyBuild) -> (r: bool)
        ensures
            r == has_name(self@, build@.file_stem),
    {
        self.contains_name(build.file_stem.as_str())
    }

    /// Enters a build, unless one is already shown under its name, and
    /// says whether it was entered.
    pub fn insert(&mut self, build: ArmyBuild) -> (added: bool)
        ensures
            final(self)@ == inserted(old(self)@, build@),
            added == !has_name(old(self)@, build@.file_stem),
            old(self).wf() ==> final(self).wf(),
    {
        proof {
            lemma_inserted(self@, build@);
        }
        if self.contains(&build) {
            false
        } else {
            let ghost before = self.builds@;
            self.builds.push(build);
            assert(build_views(self.builds@) =~= build_views(before).push(build@));
            true
        }
    }

    /// Enters each build of a list in turn, and says how many were
    /// entered.
    pub fn extend(&mut self, more: &Vec<ArmyBuild>) -> (added: usize)
        ensures
            final(self)@ == merged(old(self)@, build_views(more@)),
            added == final(self)@.len() - old(self)@.len(),
            old(self).wf() ==> final(self).wf(),
    {
        let ghost all = build_views(more@);
        let ghost start = self@;
        let mut added: usize = 0;
        let mut i: usize = 0;
        while i < more.len()
            invariant
                i <= more.len(),
                all == build_views(more@),
                self@ == merged(start, all.take(i as int)),
                added == self@.len() - start.len(),
                added <= i,
                start == old(self)@,
                old(self).wf() ==> self.wf(),
            decreases more.len() - i,
        {
            proof {
                assert(all.take(i + 1).drop_last() =~= all.take(i as int));
                assert(all.take(i + 1).last() == more@[i as int]@);
            }
            if self.insert(more[i].clone()) {
                added += 1;
            }
            i += 1;
        }
        assert(all.take(more@.len() as int) =~= all);
        added
    }

    /// The catalog of a list of builds: of builds with the same name, the
    /// first is kept.
    pub fn from_builds(builds: &Vec<ArmyBuild>) -> (r: Self)
        ensures
            r@ == merged(Seq::<ArmyBuildView>::empty(), build_views(builds@)),
            r.wf(),
    {
        let mut r = Catalog::new();
        r.extend(builds);
        r
    }
}

/// The builds of a game in a collection, and none where the game has no
/// catalog.
pub open spec fn builds_of_game(
    catalogs: Map<CaGame, Seq<ArmyBuildView>>,
    ca_game: CaGame,
) -> Seq<ArmyBuildView> {
    if catalogs.contains_key(ca_game) {
        catalogs[ca_game]
    } else {
        Seq::empty()
    }
}

fn game_slot(ca_game: CaGame) -> (r: usize)
    ensures
        r == game_index(ca_game),
        r < 12,
{
    match ca_game {
        CaGame::Attila => 0,
        CaGame::Empire => 1,
        CaGame::Medieval2 => 2,
        CaGame::Napoleon => 3,
        CaGame::Rome => 4,
        CaGame::Rome2 => 5,
        CaGame::RomeRemastered => 6,
        CaGame::Shogun2 => 7,
        CaGame::ThreeKingdoms => 8,
        CaGame::ThronesOfBritannia => 9,
        CaGame::Warhammer => 10,
        CaGame::Warhammer2 => 11,
    }
}

/// The catalogs of the games, for each game one or none.
#[derive(Debug)]
pub struct GameCatalogs {
    slots: Vec<Option<Catalog>>,
}

impl View for GameCatalogs {
    type V = Map<CaGame, Seq<ArmyBuildView>>;

    /// For each game that has a catalog, its builds in the order in which
    /// they were entered.
    closed spec fn view(&self) -> Map<CaGame, Seq<ArmyBuildView>> {
        Map::new(
            |g: CaGame| self.slots@[game_index(g)] is Some,
            |g: CaGame| self.slots@[game_index(g)]->0@,
        )
    }
}

impl GameCatalogs {
    /// Whether there is room for one catalog for each game.
    pub closed spec fn has_slots(&self) -> bool {
        self.slots@.len() == 12
    }

    /// Whether, within each catalog, no two builds are shown under the same
    /// name.
    pub open spec fn wf(&self) -> bool {
        &&& self.has_slots()
        &&& forall|g: CaGame| #[trigger] self@.contains_key(g) ==> names_distinct(self@[g])
    }

    /// A collection in which no game has a catalog.
    pub fn new() -> (r: Self)
        ensures
            r@ == Map::<CaGame, Seq<ArmyBuildView>>::empty(),
            r.wf(),
    {
        let mut slots: Vec<Option<Catalog>> = Vec::new();
        let mut i: usize = 0;
        while i < 12
            invariant
                i <= 12,
                slots@.len() == i,
                forall|j: int| 0 <= j < i ==> slots@[j] is None,
            decreases 12 - i,
        {
            slots.push(None);
            i += 1;
        }
        let r = GameCatalogs { slots };
        assert(r@ =~= Map::<CaGame, Seq<ArmyBuildView>>::empty());
        r
    }

    /// Whether no game has a catalog.
    pub fn is_empty(&self) -> (r: bool)
        requires
            self.has_slots(),
        ensures
            r == (forall|g: CaGame| !self@.contains_key(g)),
    {
        let mut i: usize = 0;
        while i < 12
            invariant
                i <= 12,
                self.has_slots(),
                forall|j: int| 0 <= j < i ==> self.slots@[j] is None,
            decreases 12 - i,
        {
            if self.slots[i].is_some() {
                proof {
                    lemma_game_order(CaGame::Attila);
                    let g = game_order()[i as int];
                    assert(self@.contains_key(g));
                }
                return false;
            }
            i += 1;
        }
        true
    }

    /// The catalog of a game, if it has one.
    pub fn get(&self, ca_game: CaGame) -> (r: Option<&Catalog>)
        requires
            self.has_slots(),
        ensures
            match r {
                Some(c) => self@.contains_key(ca_game) && c@ == self@[ca_game],
                None => !self@.contains_key(ca_game),
            },
    {
        self.slots[game_slot(ca_game)].as_ref()
    }

    /// Gives a game a catalog, in place of the one that it may have.
    pub fn insert(&mut self, ca_game: CaGame, catalog: Catalog)
        requires
            old(self).has_slots(),
        ensures
            final(self)@ == old(self)@.insert(ca_game, catalog@),
            final(self).has_slots(),
            old(self).wf() && catalog.wf() ==> final(self).wf(),
    {
        let at = game_slot(ca_game);
        let ghost before = self.slots@;
        self.slots.set(at, Some(catalog));
        proof {
            assert forall|g: CaGame| game_index(g) == at as int implies g == ca_game by {
                lemma_game_order(g);
                lemma_game_order(ca_game);
            }
            assert(self@ =~= old(self)@.insert(ca_game, catalog@));
        }
    }

    /// Enters builds into the catalog of a game, which it is given if it
    /// has none, and says how many were entered.
    pub fn add_builds(&mut self, ca_game: CaGame, more: &Vec<ArmyBuild>) -> (added: usize)
        requires
            old(self).has_slots(),
        ensures
            final(self)@ == old(self)@.insert(
                ca_game,
                merged(builds_of_game(old(self)@, ca_game), build_views(more@)),
            ),
            added == builds_of_game(final(self)@, ca_game).len() - builds_of_game(
                old(self)@,
                ca_game,
            ).len(),
            final(self).has_slots(),
            old(self).wf() ==> final(self).wf(),
    {
        let at = game_slot(ca_game);
        let mut catalog = match self.slots.remove(at) {
            Some(c) => c,
            None => Catalog::new(),
        };
        proof {
            if old(self).wf() && old(self)@.contains_key(ca_game) {
                assert(names_distinct(old(self)@[ca_game]));
            }
        }
        let added = catalog.extend(more);
        let ghost entered = catalog@;
        self.slots.insert(at, Some(catalog));
        proof {
            assert(self.slots@ =~= old(self).slots@.update(at as int, Some(catalog)));
            assert forall|g: CaGame| game_index(g) == at as int implies g == ca_game by {
                lemma_game_order(g);
                lemma_game_order(ca_game);
            }
            assert(self@ =~= old(self)@.insert(ca_game, entered));
        }
        added
    }

    /// The builds of a game. A game without a catalog is given an empty one.
    pub fn get_or_insert_empty(&mut self, ca_game: CaGame) -> (r: Catalog)
        requires
            old(self).has_slots(),
        ensures
            r@ == builds_of_game(old(self)@, ca_game),
            final(self)@ == old(self)@.insert(ca_game, builds_of_game(old(self)@, ca_game)),
            final(self).has_slots(),
            old(self).wf() ==> final(self).wf() && r.wf(),
    {
        let empty: Vec<ArmyBuild> = Vec::new();
        proof {
            assert(build_views(empty@) =~= Seq::<ArmyBuildView>::empty());
        }
        self.add_builds(ca_game, &empty);
        match self.get(ca_game) {
            Some(c) => c.clone(),
            None => Catalog::new(),
        }
    }
}

fn build_passes(
    build: &ArmyBuild,
    faction_filter: Wh2Factions,
    vs_faction_filter: Wh2Factions,
    lower_case_search: &str,
    Ghost(text_query): Ghost<Seq<char>>,
) -> (r: bool)
    requires
        lower_case_search@ == ascii_lower(text_query),
    ensures
        r == build_matches(build@, faction_filter, vs_faction_filter, text_query),
{
    if faction_filter != Wh2Factions::ALL && build.faction != faction_filter {
        return false;
    }
    if vs_faction_filter != Wh2Factions::ALL && build.vs_faction != vs_faction_filter {
        return false;
    }
    let lower_name = to_ascii_lowercase(build.file_stem.as_str());
    contains(lower_name.as_str(), lower_case_search)
}

fn place_by_name(sorted: &mut Vec<ArmyBuild>, build: ArmyBuild)
    ensures
        build_views(final(sorted)@) == placed_by_name(build_views(old(sorted)@), build@),
{
    let ghost before = build_views(sorted@);
    let mut at: usize = sorted.len();
    let mut found = false;
    proof {
        assert(before.take(at as int) =~= before);
        assert(placed_by_name(before, build@) =~= placed_by_name(before.take(at as int), build@)
            + before.skip(at as int));
    }
    while at > 0 && !found
        invariant
            at <= sorted.len(),
            before == build_views(sorted@),
            placed_by_name(before, build@) == placed_by_name(before.take(at as int), build@)
                + before.skip(at as int),
            found ==> at > 0 && text_le(before[at - 1].file_stem, build@.file_stem),
        decreases
                at + (if found {
                    0int
                } else {
                    1int
                }),
    {
        assert(before[at - 1] == sorted@[at - 1]@);
        if text_at_most(sorted[at - 1].file_stem.as_str(), build.file_stem.as_str()) {
            found = true;
        } else {
            proof {
                let head = before.take(at as int);
                assert(head.drop_last() =~= before.take(at - 1));
                assert(head.last() == before[at - 1]);
                assert(placed_by_name(head, build@) == placed_by_name(
                    before.take(at - 1),
                    build@,
                ).push(before[at - 1]));
                assert(placed_by_name(before.take(at - 1), build@).push(before[at - 1])
                    + before.skip(at as int) =~= placed_by_name(before.take(at - 1), build@)
                    + before.skip(at - 1));
            }
            at -= 1;
        }
    }
    proof {
        let head = before.take(at as int);
        if found {
            assert(head.last() == before[at - 1]);
            assert(placed_by_name(head, build@) == head.push(build@));
        } else {
            assert(head =~= Seq::<ArmyBuildView>::empty());
        }
        assert(placed_by_name(head, build@) =~= head.push(build@));
        assert(head.push(build@) + before.skip(at as int) =~= before.insert(at as int, build@));
    }
    let ghost old_builds = sorted@;
    sorted.insert(at, build);
    assert(build_views(sorted@) =~= build_views(old_builds).insert(at as int, build@));
}

/// What a search among a list of builds shows: those that pass it, ordered
/// by name.
pub fn filter_builds(
    builds: &Vec<ArmyBuild>,
    faction_filter: Wh2Factions,
    vs_faction_filter: Wh2Factions,
    text_query: &str,
) -> (r: Vec<ArmyBuild>)
    ensures
        build_views(r@) == display_list(
            build_views(builds@),
            faction_filter,
            vs_faction_filter,
            text_query@,
        ),
{
    let lower_case_search = to_ascii_lowercase(text_query);
    let ghost all = build_views(builds@);
    let ghost pred = |b: ArmyBuildView|
        build_matches(b, faction_filter, vs_faction_filter, text_query@);
    let mut display_builds: Vec<ArmyBuild> = Vec::new();
    let mut i: usize = 0;
    proof {
        reveal(Seq::filter);
        assert(all.take(0).filter(pred) =~= Seq::<ArmyBuildView>::empty());
        assert(build_views(display_builds@) =~= sorted_by_name(all.take(0).filter(pred)));
    }
    while i < builds.len()
        invariant
            i <= builds.len(),
            all == build_views(builds@),
            pred == |b: ArmyBuildView|
                build_matches(b, faction_filter, vs_faction_filter, text_query@),
            lower_case_search@ == ascii_lower(text_query@),
            build_views(display_builds@) == sorted_by_name(all.take(i as int).filter(pred)),
        decreases builds.len() - i,
    {
        proof {
            lemma_filter_next(all, pred, i as int);
            assert(all[i as int] == builds@[i as int]@);
        }
        if build_passes(
            &builds[i],
            faction_filter,
            vs_faction_filter,
            lower_case_search.as_str(),
            Ghost(text_query@),
        ) {
            proof {
                let kept = all.take(i as int).filter(pred);
                assert(kept.push(all[i as int]).drop_last() =~= kept);
            }
            place_by_name(&mut display_builds, builds[i].clone());
        }
        i += 1;
    }
    assert(all.take(builds@.len() as int) =~= all);
    display_builds
}

/// Looking for nothing in particular shows every build of the list, no
/// more and no less, ordered by name.
pub proof fn lemma_display_list_of_all(builds: Seq<ArmyBuildView>)
    ensures
        display_list(builds, Wh2Factions::ALL, Wh2Factions::ALL, Seq::empty()).to_multiset()
            == builds.to_multiset(),
        is_ordered_by_name(
            display_list(builds, Wh2Factions::ALL, Wh2Factions::ALL, Seq::empty()),
        ),
{
    let pred = |b: ArmyBuildView|
        build_matches(b, Wh2Factions::ALL, Wh2Factions::ALL, Seq::empty());
    assert forall|i: int| 0 <= i < builds.len() implies pred(#[trigger] builds[i]) by {
        crate::text::lemma_empty_substring(ascii_lower(builds[i].file_stem));
        assert(ascii_lower(Seq::<char>::empty()) =~= Seq::<char>::empty());
    }
    lemma_filter_keeps_all(builds, pred);
    lemma_sorted_by_name(builds);
}

/// A filter that every item passes keeps the list as it is.
pub proof fn lemma_filter_keeps_all<A>(s: Seq<A>, pred: spec_fn(A) -> bool)
    requires
        forall|i: int| 0 <= i < s.len() ==> pred(#[trigger] s[i]),
    ensures
        s.filter(pred) == s,
    decreases s.len(),
{
    reveal(Seq::filter);
    if s.len() > 0 {
        let rest = s.drop_last();
        assert forall|i: int| 0 <= i < rest.len() implies pred(#[trigger] rest[i]) by {
            assert(rest[i] == s[i]);
        }
        lemma_filter_keeps_all(rest, pred);
        assert(rest.push(s.last()) =~= s);
    }
}

/// A search shows exactly the builds of the list that pass it, each as
/// often as the list holds it, and shows them ordered by name.
pub proof fn lemma_display_list(
    builds: Seq<ArmyBuildView>,
    faction_filter: Wh2Factions,
    vs_faction_filter: Wh2Factions,
    text_query: Seq<char>,
)
    ensures
        is_ordered_by_name(display_list(builds, faction_filter, vs_faction_filter, text_query)),
        forall|b: ArmyBuildView|
            #[trigger] display_list(
                builds,
                faction_filter,
                vs_faction_filter,
                text_query,
            ).contains(b) <==> builds.contains(b) && build_matches(
                b,
                faction_filter,
                vs_faction_filter,
                text_query,
            ),
{
    broadcast use vstd::seq_lib::group_to_multiset_ensures;

    let pred = |b: ArmyBuildView|
        build_matches(b, faction_filter, vs_faction_filter, text_query);
    let kept = builds.filter(pred);
    let shown = display_list(builds, faction_filter, vs_faction_filter, text_query);
    lemma_sorted_by_name(kept);
    assert forall|b: ArmyBuildView| #[trigger] shown.contains(b) <==> builds.contains(b)
        && build_matches(b, faction_filter, vs_faction_filter, text_query) by {
        assert(shown.contains(b) <==> shown.to_multiset().count(b) > 0);
        assert(kept.contains(b) <==> kept.to_multiset().count(b) > 0);
        if kept.contains(b) {
            let k = choose|k: int| 0 <= k < kept.len() && kept[k] == b;
            builds.lemma_filter_pred(pred, k);
            builds.lemma_filter_contains_rev(pred, b);
        }
        if builds.contains(b) && pred(b) {
            let k = choose|k: int| 0 <= k < builds.len() && builds[k] == b;
            builds.lemma_filter_contains(pred, k);
        }
    }
}

/// Among builds of which no two are shown under the same name, a build
/// that does not pass a search is not shown by it, nor is any build under
/// its name.
pub proof fn lemma_display_list_excludes(
    builds: Seq<ArmyBuildView>,
    faction_filter: Wh2Factions,
    vs_faction_filter: Wh2Factions,
    text_query: Seq<char>,
    build: ArmyBuildView,
)
    requires
        names_distinct(builds),
        builds.contains(build),
        !build_matches(build, faction_filter, vs_faction_filter, text_query),
    ensures
        !has_name(
            display_list(builds, faction_filter, vs_faction_filter, text_query),
            build.file_stem,
        ),
{
    let shown = display_list(builds, faction_filter, vs_faction_filter, text_query);
    lemma_display_list(builds, faction_filter, vs_faction_filter, text_query);
    if has_name(shown, build.file_stem) {
        let i = choose|i: int| 0 <= i < shown.len() && shown[i].file_stem == build.file_stem;
        assert(shown.contains(shown[i]));
        assert(builds.contains(shown[i]));
        let a = choose|a: int| 0 <= a < builds.len() && builds[a] == shown[i];
        let b = choose|b: int| 0 <= b < builds.len() && builds[b] == build;
        if a < b {
            assert(builds[a].file_stem != builds[b].file_stem);
        } else if b < a {
            assert(builds[b].file_stem != builds[a].file_stem);
        }
    }
}

/// With no words asked for and every opposing faction, a search for a
/// faction shows each build of that faction and no build of another.
pub proof fn lemma_display_list_by_faction(
    builds: Seq<ArmyBuildView>,
    faction_filter: Wh2Factions,
    build: ArmyBuildView,
)
    requires
        builds.contains(build),
    ensures
        build.faction == faction_filter ==> display_list(
            builds,
            faction_filter,
            Wh2Factions::ALL,
            Seq::empty(),
        ).contains(build),
        faction_filter != Wh2Factions::ALL && build.faction != faction_filter ==> !display_list(
            builds,
            faction_filter,
            Wh2Factions::ALL,
            Seq::empty(),
        ).contains(build),
{
    lemma_display_list(builds, faction_filter, Wh2Factions::ALL, Seq::empty());
    crate::text::lemma_empty_substring(ascii_lower(build.file_stem));
    assert(ascii_lower(Seq::<char>::empty()) =~= Seq::<char>::empty());
}

} // verus!
