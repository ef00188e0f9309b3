//! The classification engine: a description is scored against each
//! archetype by the keywords it contains, and the first archetype with the
//! greatest score gives the verdict.

use vstd::prelude::*;
use crate::archetype::{ArchetypeView, MemeArchetype};
use crate::text::{contains, lowercase_of, occurs_in, to_lowercase};

verus! {

/// What the host asks about.
pub struct MemeAnalysisRequest {
    pub meme_description: String,
}

/// The verdict on one description.
pub struct MemeAnalysisResponse {
    pub archetype: String,
    pub analysis: String,
    pub investment_suggestion: String,
}

/// A verdict as the specifications see it.
pub struct ResponseView {
    pub archetype: Seq<char>,
    pub analysis: Seq<char>,
    pub investment_suggestion: Seq<char>,
}

impl View for MemeAnalysisRequest {
    type V = Seq<char>;

    open spec fn view(&self) -> Seq<char> {
        self.meme_description@
    }
}

impl View for MemeAnalysisResponse {
    type V = ResponseView;

    open spec fn view(&self) -> ResponseView {
        ResponseView {
            archetype: self.archetype@,
            analysis: self.analysis@,
            investment_suggestion: self.investment_suggestion@,
        }
    }
}

/// The test a keyword has to pass to count for a description.
pub open spec fn found_in(description: Seq<char>) -> spec_fn(Seq<char>) -> bool {
    |keyword: Seq<char>| occurs_in(keyword, description)
}

/// How many keywords of the list occur in the description. A keyword counts
/// once, however often it occurs.
pub open spec fn keyword_hits(description: Seq<char>, keywords: Seq<Seq<char>>) -> nat {
    keywords.filter(found_in(description)).len()
}

/// The score of one archetype for a description.
pub open spec fn score(description: Seq<char>, archetype: ArchetypeView) -> nat {
    keyword_hits(description, archetype.keywords)
}

/// Entry `index` of the table wins: it has matched a keyword, every entry
/// before it has matched strictly fewer, and no entry after it has matched
/// more.
pub open spec fn wins(description: Seq<char>, table: Seq<ArchetypeView>, index: int) -> bool {
    &&& 0 <= index < table.len()
    &&& score(description, table[index]) > 0
    &&& forall|earlier: int|
        0 <= earlier < index ==> score(description, #[trigger] table[earlier]) < score(
            description,
            table[index],
        )
    &&& forall|later: int|
        index < later < table.len() ==> score(description, #[trigger] table[later]) <= score(
            description,
            table[index],
        )
}

/// No entry of the table has matched a keyword.
pub open spec fn matches_nothing(description: Seq<char>, table: Seq<ArchetypeView>) -> bool {
    forall|index: int|
        0 <= index < table.len() ==> score(description, #[trigger] table[index]) == 0
}

/// The entry that wins, if there is one.
pub open spec fn winner(description: Seq<char>, table: Seq<ArchetypeView>) -> Option<int> {
    if exists|index: int| wins(description, table, index) {
        Some(choose|index: int| wins(description, table, index))
    } else {
        None
    }
}

/// The verdict that an archetype stands for: its name, analysis and
/// suggestion, word for word.
pub open spec fn entry_verdict(archetype: ArchetypeView) -> ResponseView {
    ResponseView {
        archetype: archetype.name,
        analysis: archetype.analysis,
        investment_suggestion: archetype.suggestion,
    }
}

/// The verdict on a description that no archetype speaks for.
pub open spec fn unclassified() -> ResponseView {
    ResponseView {
        archetype: "Unclassified"@,
        analysis: "The provided description did not match a known meme archetype. This type of meme is highly unpredictable."@,
        investment_suggestion: "Speculative"@,
    }
}

/// The verdict on a description that is already in lower case.
pub open spec fn verdict(description: Seq<char>, table: Seq<ArchetypeView>) -> ResponseView {
    match winner(description, table) {
        Some(index) => entry_verdict(table[index]),
        None => unclassified(),
    }
}

/// The verdict on a description as the host wrote it: case is folded away
/// before the keywords are looked for.
pub open spec fn classification(description: Seq<char>, table: Seq<ArchetypeView>) -> ResponseView {
    verdict(lowercase_of(description), table)
}

/// Counts the keywords that occur in the description.
pub fn keyword_score(description_lower: &str, keywords: &Vec<&'static str>) -> (hits: usize)
    ensures
        hits == keyword_hits(description_lower@, keywords.deep_view()),
{
    let ghost words = keywords.deep_view();
    let ghost counts = found_in(description_lower@);
    let mut hits: usize = 0;
    let mut i: usize = 0;
    while i < keywords.len()
        invariant
            i <= keywords.len(),
            words == keywords.deep_view(),
            counts == found_in(description_lower@),
            hits <= i,
            hits == words.take(i as int).filter(counts).len(),
        decreases keywords.len() - i,
    {
        let found = contains(description_lower, keywords[i]);
        proof {
            assert(words.take(i + 1) =~= words.take(i as int).push(words[i as int]));
            words.take(i as int).lemma_filter_len_push(counts, words[i as int]);
        }
        if found {
            hits += 1;
        }
        i += 1;
    }
    assert(words.take(i as int) =~= words);
    hits
}

/// Finds the entry that wins, which is the first one with the greatest
/// score, unless every score is zero.
pub fn best_match(description_lower: &str, archetypes: &Vec<MemeArchetype>) -> (best: Option<usize>)
    ensures
        best is None <==> matches_nothing(description_lower@, archetypes.deep_view()),
        best matches Some(index) ==> wins(description_lower@, archetypes.deep_view(), index as int),
{
    let ghost table = archetypes.deep_view();
    let ghost description = description_lower@;
    let mut best: Option<usize> = None;
    let mut max_score: usize = 0;
    let mut i: usize = 0;
    while i < archetypes.len()
        invariant
            i <= archetypes.len(),
            table == archetypes.deep_view(),
            description == description_lower@,
            match best {
                Some(index) => {
                    &&& index < i
                    &&& max_score > 0
                    &&& max_score == score(description, table[index as int])
                    &&& forall|earlier: int|
                        0 <= earlier < index ==> score(description, #[trigger] table[earlier])
                            < max_score
                    &&& forall|later: int|
                        index < later < i ==> score(description, #[trigger] table[later])
                            <= max_score
                },
                None => {
                    &&& max_score == 0
                    &&& forall|index: int|
                        0 <= index < i ==> score(description, #[trigger] table[index]) == 0
                },
            },
        decreases archetypes.len() - i,
    {
        let current_score = keyword_score(description_lower, &archetypes[i].keywords);
        if current_score > max_score {
            max_score = current_score;
            best = Some(i);
        }
        i += 1;
    }
    best
}

/// Classifies a description that is already in lower case.
pub fn classify_normalized(description_lower: &str, archetypes: &Vec<MemeArchetype>) -> (response:
    MemeAnalysisResponse)
    ensures
        response@ == verdict(description_lower@, archetypes.deep_view()),
{
    broadcast use vstd::string::group_string_axioms;

    match best_match(description_lower, archetypes) {
        Some(index) => {
            proof {
                let chosen = choose|other: int|
                    wins(description_lower@, archetypes.deep_view(), other);
                lemma_winner_is_unique(
                    description_lower@,
                    archetypes.deep_view(),
                    index as int,
                    chosen,
                );
            }
            let archetype = &archetypes[index];
            MemeAnalysisResponse {
                archetype: archetype.name.to_string(),
                analysis: archetype.analysis.to_string(),
                investment_suggestion: archetype.suggestion.to_string(),
            }
        },
        None => MemeAnalysisResponse {
            archetype: "Unclassified".to_string(),
            analysis: "The provided description did not match a known meme archetype. This type of meme is highly unpredictable.".to_string(),
            investment_suggestion: "Speculative".to_string(),
        },
    }
}

/// Classifies a description: folds its case away, then looks for the
/// keywords of each archetype.
pub fn classify(description: &str, archetypes: &Vec<MemeArchetype>) -> (response:
    MemeAnalysisResponse)
    ensures
        response@ == classification(description@, archetypes.deep_view()),
{
    let description_lower = to_lowercase(description);
    classify_normalized(description_lower.as_str(), archetypes)
}

/// At most one entry of a table wins.
pub proof fn lemma_winner_is_unique(
    description: Seq<char>,
    table: Seq<ArchetypeView>,
    first: int,
    second: int,
)
    requires
        wins(description, table, first),
        wins(description, table, second),
    ensures
        first == second,
{
}

} // verus!
