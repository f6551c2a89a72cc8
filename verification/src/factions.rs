use crate::text::{
    ascii_lower, contains, first_hit, first_hit_from, has_substring, has_substring_ignoring_case,
    lemma_ascii_lower_concat, lemma_first_hit_from, lemma_substring_parts, to_ascii_lowercase,
};
use vstd::prelude::*;
use vstd::string::StringExecFns;

verus! {

/// The factions of the second Warhammer game, with `UNKNOWN` for a name that
/// tells nothing and `ALL` as the wildcard of searches.
#[derive(Clone, Copy, Debug, PartialEq, Eq, Hash, Structural)]
pub enum Wh2Factions {
    BM,
    BRT,
    CH,
    DE,
    DW,
    EMP,
    GS,
    HE,
    LM,
    NRS,
    SKV,
    TK,
    VC,
    VP,
    WE,
    UNKNOWN,
    ALL,
}

/// The abbreviation under which a faction is written in file names and lists.
pub open spec fn abbreviation(faction: Wh2Factions) -> Seq<char> {
    match faction {
        Wh2Factions::BM => "BM"@,
        Wh2Factions::BRT => "BRT"@,
        Wh2Factions::CH => "CH"@,
        Wh2Factions::DE => "DE"@,
        Wh2Factions::DW => "DW"@,
        Wh2Factions::EMP => "EMP"@,
        Wh2Factions::GS => "GS"@,
        Wh2Factions::HE => "HE"@,
        Wh2Factions::LM => "LM"@,
        Wh2Factions::NRS => "NRS"@,
        Wh2Factions::SKV => "SKV"@,
        Wh2Factions::TK => "TK"@,
        Wh2Factions::VC => "VC"@,
        Wh2Factions::VP => "VP"@,
        Wh2Factions::WE => "WE"@,
        Wh2Factions::UNKNOWN => "UNKNOWN"@,
        Wh2Factions::ALL => "ALL"@,
    }
}

/// The full name of a faction.
pub open spec fn faction_name(faction: Wh2Factions) -> Seq<char> {
    match faction {
        Wh2Factions::BM => "Beastmen"@,
        Wh2Factions::BRT => "Bretonnia"@,
        Wh2Factions::CH => "Chaos"@,
        Wh2Factions::DE => "Dark Elves"@,
        Wh2Factions::DW => "Dwarfs"@,
        Wh2Factions::EMP => "Empire"@,
        Wh2Factions::GS => "Greenskins"@,
        Wh2Factions::HE => "High Elves"@,
        Wh2Factions::LM => "Lizardmen"@,
        Wh2Factions::NRS => "Norsca"@,
        Wh2Factions::SKV => "Skaven"@,
        Wh2Factions::TK => "Tomb Kings"@,
        Wh2Factions::VC => "Vampire Counts"@,
        Wh2Factions::VP => "Vampire Coast"@,
        Wh2Factions::WE => "Woodelves"@,
        Wh2Factions::UNKNOWN => "Unknown"@,
        Wh2Factions::ALL => "All"@,
    }
}

/// The abbreviation of a faction.
pub fn get_faction_abbreviations(faction: Wh2Factions) -> (r: &'static str)
    ensures
        r@ == abbreviation(faction),
{
    match faction {
        Wh2Factions::BM => "BM",
        Wh2Factions::BRT => "BRT",
        Wh2Factions::CH => "CH",
        Wh2Factions::DE => "DE",
        Wh2Factions::DW => "DW",
        Wh2Factions::EMP => "EMP",
        Wh2Factions::GS => "GS",
        Wh2Factions::HE => "HE",
        Wh2Factions::LM => "LM",
        Wh2Factions::NRS => "NRS",
        Wh2Factions::SKV => "SKV",
        Wh2Factions::TK => "TK",
        Wh2Factions::VC => "VC",
        Wh2Factions::VP => "VP",
        Wh2Factions::WE => "WE",
        Wh2Factions::UNKNOWN => "UNKNOWN",
        Wh2Factions::ALL => "ALL",
    }
}

/// The full name of a faction.
pub fn get_faction_names(faction: &Wh2Factions) -> (r: &'static str)
    ensures
        r@ == faction_name(*faction),
{
    match faction {
        Wh2Factions::BM => "Beastmen",
        Wh2Factions::BRT => "Bretonnia",
        Wh2Factions::CH => "Chaos",
        Wh2Factions::DE => "Dark Elves",
        Wh2Factions::DW => "Dwarfs",
        Wh2Factions::EMP => "Empire",
        Wh2Factions::GS => "Greenskins",
        Wh2Factions::HE => "High Elves",
        Wh2Factions::LM => "Lizardmen",
        Wh2Factions::NRS => "Norsca",
        Wh2Factions::SKV => "Skaven",
        Wh2Factions::TK => "Tomb Kings",
        Wh2Factions::VC => "Vampire Counts",
        Wh2Factions::VP => "Vampire Coast",
        Wh2Factions::WE => "Woodelves",
        Wh2Factions::UNKNOWN => "Unknown",
        Wh2Factions::ALL => "All",
    }
}

/// The factions that a file name can name, in the order in which they are
/// tried: the order of their declaration.
pub open spec fn faction_order() -> Seq<Wh2Factions> {
    seq![
        Wh2Factions::BM,
        Wh2Factions::BRT,
        Wh2Factions::CH,
        Wh2Factions::DE,
        Wh2Factions::DW,
        Wh2Factions::EMP,
        Wh2Factions::GS,
        Wh2Factions::HE,
        Wh2Factions::LM,
        Wh2Factions::NRS,
        Wh2Factions::SKV,
        Wh2Factions::TK,
        Wh2Factions::VC,
        Wh2Factions::VP,
        Wh2Factions::WE,
    ]
}

/// What a lower-cased file name holds when it names `faction` as its own
/// side: the abbreviation in lower case, a space and `vs`.
pub open spec fn faction_pattern(faction: Wh2Factions) -> Seq<char> {
    ascii_lower(abbreviation(faction)) + " vs"@
}

/// What a lower-cased file name holds when it names `faction` as the
/// opposing side: `vs`, a space and the abbreviation in lower case. The
/// wildcard `ALL` is written `vs aa`.
pub open spec fn vs_faction_pattern(faction: Wh2Factions) -> Seq<char> {
    if faction == Wh2Factions::ALL {
        "vs aa"@
    } else {
        "vs "@ + ascii_lower(abbreviation(faction))
    }
}

/// The patterns of the own side, in the order of `faction_order`.
pub open spec fn faction_patterns() -> Seq<Seq<char>> {
    faction_order().map_values(|f: Wh2Factions| faction_pattern(f))
}

/// The opposing sides that a file name can name, in the order in which they
/// are tried: the factions, then the wildcard.
pub open spec fn vs_faction_order() -> Seq<Wh2Factions> {
    faction_order().push(Wh2Factions::ALL)
}

/// The patterns of the opposing side, in the order of `vs_faction_order`.
pub open spec fn vs_faction_patterns() -> Seq<Seq<char>> {
    vs_faction_order().map_values(|f: Wh2Factions| vs_faction_pattern(f))
}

/// The faction that a file name gives as its own side: that of the first
/// pattern of `faction_patterns` which the lower-cased name holds, and
/// `UNKNOWN` where it holds none.
pub open spec fn classify_faction(file_name: Seq<char>) -> Wh2Factions {
    match first_hit(ascii_lower(file_name), faction_patterns()) {
        Some(k) => faction_order()[k],
        None => Wh2Factions::UNKNOWN,
    }
}

/// The faction that a file name gives as the opposing side: that of the
/// first pattern of `vs_faction_patterns` which the lower-cased name holds,
/// and `UNKNOWN` where it holds none.
pub open spec fn classify_vs_faction(file_name: Seq<char>) -> Wh2Factions {
    match first_hit(ascii_lower(file_name), vs_faction_patterns()) {
        Some(k) => vs_faction_order()[k],
        None => Wh2Factions::UNKNOWN,
    }
}

/// The place of a faction in the order in which the opposing sides are
/// tried; `UNKNOWN`, which no pattern stands for, comes after all of them.
pub open spec fn rank(faction: Wh2Factions) -> int {
    match faction {
        Wh2Factions::BM => 0,
        Wh2Factions::BRT => 1,
        Wh2Factions::CH => 2,
        Wh2Factions::DE => 3,
        Wh2Factions::DW => 4,
        Wh2Factions::EMP => 5,
        Wh2Factions::GS => 6,
        Wh2Factions::HE => 7,
        Wh2Factions::LM => 8,
        Wh2Factions::NRS => 9,
        Wh2Factions::SKV => 10,
        Wh2Factions::TK => 11,
        Wh2Factions::VC => 12,
        Wh2Factions::VP => 13,
        Wh2Factions::WE => 14,
        Wh2Factions::ALL => 15,
        Wh2Factions::UNKNOWN => 16,
    }
}

/// Whether a faction is one that a file name can name by its abbreviation.
pub open spec fn is_named_faction(faction: Wh2Factions) -> bool {
    rank(faction) < 15
}

/// How a file name writes a pairing: the abbreviation of the own side,
/// ` vs ` and the abbreviation of the opposing side.
pub open spec fn pairing_text(own: Wh2Factions, opposing: Wh2Factions) -> Seq<char> {
    abbreviation(own) + " vs "@ + abbreviation(opposing)
}

/// A faction stands in the order at the place that `rank` gives.
pub proof fn lemma_rank_is_place(faction: Wh2Factions)
    ensures
        rank(faction) < 16 ==> vs_faction_order()[rank(faction)] == faction,
        rank(faction) < 15 ==> faction_order()[rank(faction)] == faction,
        vs_faction_order().len() == 16,
        faction_order().len() == 15,
        forall|k: int| 0 <= k < 16 ==> rank(#[trigger] vs_faction_order()[k]) == k,
        forall|k: int| 0 <= k < 15 ==> rank(#[trigger] faction_order()[k]) == k,
{
    let o = faction_order();
    assert(rank(o[0]) == 0 && rank(o[1]) == 1 && rank(o[2]) == 2 && rank(o[3]) == 3);
    assert(rank(o[4]) == 4 && rank(o[5]) == 5 && rank(o[6]) == 6 && rank(o[7]) == 7);
    assert(rank(o[8]) == 8 && rank(o[9]) == 9 && rank(o[10]) == 10 && rank(o[11]) == 11);
    assert(rank(o[12]) == 12 && rank(o[13]) == 13 && rank(o[14]) == 14);
}

/// The own side is `UNKNOWN` exactly when the lower-cased name holds the
/// pattern of no faction, and otherwise the first faction in the order whose
/// pattern it holds.
pub proof fn lemma_classify_faction(file_name: Seq<char>)
    ensures
        classify_faction(file_name) == Wh2Factions::UNKNOWN <==> forall|z: Wh2Factions|
            is_named_faction(z) ==> !has_substring(
                ascii_lower(file_name),
                #[trigger] faction_pattern(z),
            ),
        classify_faction(file_name) != Wh2Factions::UNKNOWN ==> {
            &&& is_named_faction(classify_faction(file_name))
            &&& has_substring(
                ascii_lower(file_name),
                faction_pattern(classify_faction(file_name)),
            )
            &&& forall|z: Wh2Factions|
                rank(z) < rank(classify_faction(file_name)) ==> !has_substring(
                    ascii_lower(file_name),
                    #[trigger] faction_pattern(z),
                )
        },
{
    let hay = ascii_lower(file_name);
    let patterns = faction_patterns();
    lemma_first_hit_from(hay, patterns, 0);
    lemma_rank_is_place(Wh2Factions::UNKNOWN);
    assert forall|z: Wh2Factions| is_named_faction(z) implies #[trigger] faction_pattern(z)
        == patterns[rank(z)] by {
        lemma_rank_is_place(z);
    }
    match first_hit(hay, patterns) {
        Some(k) => {
            assert(patterns[k] == faction_pattern(faction_order()[k]));
            assert(rank(faction_order()[k]) == k);
        },
        None => {},
    }
}

/// The opposing side is `UNKNOWN` exactly when the lower-cased name holds
/// the pattern of no faction and not that of the wildcard, and otherwise the
/// first in the order whose pattern it holds.
pub proof fn lemma_classify_vs_faction(file_name: Seq<char>)
    ensures
        classify_vs_faction(file_name) == Wh2Factions::UNKNOWN <==> forall|z: Wh2Factions|
            rank(z) < 16 ==> !has_substring(
                ascii_lower(file_name),
                #[trigger] vs_faction_pattern(z),
            ),
        classify_vs_faction(file_name) != Wh2Factions::UNKNOWN ==> {
            &&& has_substring(
                ascii_lower(file_name),
                vs_faction_pattern(classify_vs_faction(file_name)),
            )
            &&& forall|z: Wh2Factions|
                rank(z) < rank(classify_vs_faction(file_name)) ==> !has_substring(
                    ascii_lower(file_name),
                    #[trigger] vs_faction_pattern(z),
                )
        },
{
    let hay = ascii_lower(file_name);
    let patterns = vs_faction_patterns();
    lemma_first_hit_from(hay, patterns, 0);
    lemma_rank_is_place(Wh2Factions::UNKNOWN);
    assert forall|z: Wh2Factions| rank(z) < 16 implies #[trigger] vs_faction_pattern(z)
        == patterns[rank(z)] by {
        lemma_rank_is_place(z);
    }
    match first_hit(hay, patterns) {
        Some(k) => {
            assert(patterns[k] == vs_faction_pattern(vs_faction_order()[k]));
            assert(rank(vs_faction_order()[k]) == k);
        },
        None => {},
    }
}

/// A name that holds the pairing of two factions, in any letter case, holds
/// the pattern of the first as its own side and the pattern of the second as
/// the opposing side.
pub proof fn lemma_pairing_holds_both_patterns(
    file_name: Seq<char>,
    own: Wh2Factions,
    opposing: Wh2Factions,
)
    requires
        opposing != Wh2Factions::ALL,
        has_substring_ignoring_case(file_name, pairing_text(own, opposing)),
    ensures
        has_substring(ascii_lower(file_name), faction_pattern(own)),
        has_substring(ascii_lower(file_name), vs_faction_pattern(opposing)),
{
    reveal_strlit(" vs ");
    reveal_strlit(" vs");
    reveal_strlit("vs ");
    let hay = ascii_lower(file_name);
    let a = ascii_lower(abbreviation(own));
    let b = ascii_lower(abbreviation(opposing));
    let space = seq![' '];
    lemma_ascii_lower_concat(abbreviation(own) + " vs "@, abbreviation(opposing));
    lemma_ascii_lower_concat(abbreviation(own), " vs "@);
    assert(ascii_lower(" vs "@) =~= " vs "@);
    assert(ascii_lower(pairing_text(own, opposing)) == a + " vs "@ + b);
    assert(a + " vs "@ + b =~= (a + " vs"@) + (space + b));
    lemma_substring_parts(hay, a + " vs"@, space + b);
    assert(a + " vs "@ + b =~= (a + space) + ("vs "@ + b));
    lemma_substring_parts(hay, a + space, "vs "@ + b);
}

/// A name that holds `<X> vs <Y>` for two factions, in any letter case, is
/// classified as `(X, Y)`, as long as it holds the pattern of no faction
/// that is tried before `X` on the own side, nor before `Y` on the opposing
/// side.
pub proof fn lemma_classify_pairing(file_name: Seq<char>, own: Wh2Factions, opposing: Wh2Factions)
    requires
        is_named_faction(own),
        is_named_faction(opposing),
        has_substring_ignoring_case(file_name, pairing_text(own, opposing)),
        forall|z: Wh2Factions|
            rank(z) < rank(own) ==> !has_substring(
                ascii_lower(file_name),
                #[trigger] faction_pattern(z),
            ),
        forall|z: Wh2Factions|
            rank(z) < rank(opposing) ==> !has_substring(
                ascii_lower(file_name),
                #[trigger] vs_faction_pattern(z),
            ),
    ensures
        classify_faction(file_name) == own,
        classify_vs_faction(file_name) == opposing,
{
    lemma_pairing_holds_both_patterns(file_name, own, opposing);
    lemma_classify_faction(file_name);
    lemma_classify_vs_faction(file_name);
    let got = classify_faction(file_name);
    let got_vs = classify_vs_faction(file_name);
    assert(rank(got) == rank(own));
    assert(rank(got_vs) == rank(opposing));
}

fn ordered_factions() -> (r: Vec<Wh2Factions>)
    ensures
        r@ == faction_order(),
{
    let r = vec![
        Wh2Factions::BM,
        Wh2Factions::BRT,
        Wh2Factions::CH,
        Wh2Factions::DE,
        Wh2Factions::DW,
        Wh2Factions::EMP,
        Wh2Factions::GS,
        Wh2Factions::HE,
        Wh2Factions::LM,
        Wh2Factions::NRS,
        Wh2Factions::SKV,
        Wh2Factions::TK,
        Wh2Factions::VC,
        Wh2Factions::VP,
        Wh2Factions::WE,
    ];
    assert(r@ =~= faction_order());
    r
}

fn faction_pattern_text(faction: Wh2Factions) -> (r: String)
    ensures
        r@ == faction_pattern(faction),
{
    let mut r = to_ascii_lowercase(get_faction_abbreviations(faction));
    r.append(" vs");
    r
}

fn vs_faction_pattern_text(faction: Wh2Factions) -> (r: String)
    ensures
        r@ == vs_faction_pattern(faction),
{
    if faction == Wh2Factions::ALL {
        String::from_str("vs aa")
    } else {
        let mut r = String::from_str("vs ");
        let low = to_ascii_lowercase(get_faction_abbreviations(faction));
        r.append(low.as_str());
        r
    }
}

/// The faction that a file name gives as its own side.
pub fn parse_faction(file_name: &String) -> (r: Wh2Factions)
    ensures
        r == classify_faction(file_name@),
{
    let lower_file = to_ascii_lowercase(file_name.as_str());
    let order = ordered_factions();
    let mut i: usize = 0;
    while i < order.len()
        invariant
            i <= order.len(),
            order@ == faction_order(),
            lower_file@ == ascii_lower(file_name@),
            first_hit(lower_file@, faction_patterns()) == first_hit_from(
                lower_file@,
                faction_patterns(),
                i as int,
            ),
        decreases order.len() - i,
    {
        let pattern = faction_pattern_text(order[i]);
        assert(faction_patterns()[i as int] == pattern@);
        if contains(lower_file.as_str(), pattern.as_str()) {
            return order[i];
        }
        i += 1;
    }
    Wh2Factions::UNKNOWN
}

/// The faction that a file name gives as the opposing side.
pub fn parse_vs_faction(file_name: &String) -> (r: Wh2Factions)
    ensures
        r == classify_vs_faction(file_name@),
{
    let lower_file = to_ascii_lowercase(file_name.as_str());
    let mut order = ordered_factions();
    order.push(Wh2Factions::ALL);
    let mut i: usize = 0;
    while i < order.len()
        invariant
            i <= order.len(),
            order@ == vs_faction_order(),
            lower_file@ == ascii_lower(file_name@),
            first_hit(lower_file@, vs_faction_patterns()) == first_hit_from(
                lower_file@,
                vs_faction_patterns(),
                i as int,
            ),
        decreases order.len() - i,
    {
        let pattern = vs_faction_pattern_text(order[i]);
        assert(vs_faction_patterns()[i as int] == pattern@);
        if contains(lower_file.as_str(), pattern.as_str()) {
            return order[i];
        }
        i += 1;
    }
    Wh2Factions::UNKNOWN
}

/// The factions that a search can be set to, in the order in which they are
/// offered. The opposing side is not offered `CH`.
pub open spec fn dropdown_factions(is_vs: bool) -> Seq<Wh2Factions> {
    let head = seq![Wh2Factions::ALL, Wh2Factions::BM, Wh2Factions::BRT];
    let tail = seq![
        Wh2Factions::DE,
        Wh2Factions::DW,
        Wh2Factions::EMP,
        Wh2Factions::GS,
        Wh2Factions::HE,
        Wh2Factions::LM,
        Wh2Factions::NRS,
        Wh2Factions::SKV,
        Wh2Factions::TK,
        Wh2Factions::VC,
        Wh2Factions::VP,
        Wh2Factions::WE,
        Wh2Factions::WE,
        Wh2Factions::UNKNOWN,
    ];
    if is_vs {
        head + tail
    } else {
        head.push(Wh2Factions::CH) + tail
    }
}

/// The factions that a search can be set to, in the order in which they are
/// offered.
pub fn faction_dropdown_options(is_vs: bool) -> (r: Vec<Wh2Factions>)
    ensures
        r@ == dropdown_factions(is_vs),
{
    let mut r = vec![Wh2Factions::ALL, Wh2Factions::BM, Wh2Factions::BRT];
    if !is_vs {
        r.push(Wh2Factions::CH);
    }
    let mut tail = vec![
        Wh2Factions::DE,
        Wh2Factions::DW,
        Wh2Factions::EMP,
        Wh2Factions::GS,
        Wh2Factions::HE,
        Wh2Factions::LM,
        Wh2Factions::NRS,
        Wh2Factions::SKV,
        Wh2Factions::TK,
        Wh2Factions::VC,
        Wh2Factions::VP,
        Wh2Factions::WE,
        Wh2Factions::WE,
        Wh2Factions::UNKNOWN,
    ];
    r.append(&mut tail);
    assert(r@ =~= dropdown_factions(is_vs));
    r
}

} // verus!
