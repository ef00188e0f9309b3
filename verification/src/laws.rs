//! What holds of every classification and of every run, proved from the
//! definitions that the contracts are stated in.

use vstd::prelude::*;
use crate::archetype::{archetype_table, ArchetypeView};
use crate::boundary::{published, requested_description};
use crate::classifier::{
    classification, entry_verdict, found_in, lemma_winner_is_unique, matches_nothing, score,
    unclassified, verdict, winner, wins, MemeAnalysisRequest,
};
use crate::text::{lowercase_of, occurs_in};
use crate::wire::response_bytes;

verus! {

/// A list of keywords of which one occurs in the description has at least
/// one hit.
pub proof fn lemma_keyword_found_scores(
    description: Seq<char>,
    archetype: ArchetypeView,
    keyword: int,
)
    requires
        0 <= keyword < archetype.keywords.len(),
        occurs_in(archetype.keywords[keyword], description),
    ensures
        score(description, archetype) >= 1,
{
    let counts = found_in(description);
    assert(counts(archetype.keywords[keyword]));
    archetype.keywords.lemma_filter_contains(counts, keyword);
}

/// A list of keywords of which none occurs in the description has no hit.
pub proof fn lemma_no_keyword_found_scores_zero(description: Seq<char>, archetype: ArchetypeView)
    requires
        forall|keyword: int|
            0 <= keyword < archetype.keywords.len() ==> !occurs_in(
                #[trigger] archetype.keywords[keyword],
                description,
            ),
    ensures
        score(description, archetype) == 0,
{
    let counts = found_in(description);
    assert(archetype.keywords.all(|keyword: Seq<char>| !counts(keyword)));
    archetype.keywords.lemma_all_neg_filter_empty(counts);
}

/// The entry that wins gives the verdict.
pub proof fn lemma_winner_gives_verdict(
    description: Seq<char>,
    table: Seq<ArchetypeView>,
    index: int,
)
    requires
        wins(description, table, index),
    ensures
        winner(description, table) == Some(index),
        verdict(description, table) == entry_verdict(table[index]),
{
    let chosen = choose|other: int| wins(description, table, other);
    lemma_winner_is_unique(description, table, index, chosen);
}

/// An archetype of which the description contains a keyword gives the
/// verdict, provided that every archetype before it in the table has matched
/// strictly fewer keywords and no archetype after it has matched more.
pub proof fn lemma_leading_archetype_gives_verdict(
    description: Seq<char>,
    table: Seq<ArchetypeView>,
    index: int,
    keyword: int,
)
    requires
        0 <= index < table.len(),
        0 <= keyword < table[index].keywords.len(),
        occurs_in(table[index].keywords[keyword], description),
        forall|earlier: int|
            0 <= earlier < index ==> score(description, #[trigger] table[earlier]) < score(
                description,
                table[index],
            ),
        forall|later: int|
            index < later < table.len() ==> score(description, #[trigger] table[later]) <= score(
                description,
                table[index],
            ),
    ensures
        verdict(description, table) == entry_verdict(table[index]),
{
    lemma_keyword_found_scores(description, table[index], keyword);
    lemma_winner_gives_verdict(description, table, index);
}

/// A description in which no keyword of any archetype occurs is
/// unclassified.
pub proof fn lemma_no_keyword_is_unclassified(description: Seq<char>, table: Seq<ArchetypeView>)
    requires
        forall|index: int, keyword: int|
            0 <= index < table.len() && 0 <= keyword < table[index].keywords.len()
                ==> !occurs_in(#[trigger] table[index].keywords[keyword], description),
    ensures
        matches_nothing(description, table),
        verdict(description, table) == unclassified(),
{
    assert forall|index: int| 0 <= index < table.len() implies score(
        description,
        #[trigger] table[index],
    ) == 0 by {
        lemma_no_keyword_found_scores_zero(description, table[index]);
    }
}

/// Two archetypes that have matched the same number of keywords, at least
/// one, while no other archetype has matched any: the one that stands first
/// in the table gives the verdict.
pub proof fn lemma_tie_goes_to_the_first(
    description: Seq<char>,
    table: Seq<ArchetypeView>,
    first: int,
    second: int,
)
    requires
        0 <= first < second < table.len(),
        score(description, table[first]) >= 1,
        score(description, table[first]) == score(description, table[second]),
        forall|other: int|
            0 <= other < table.len() && other != first && other != second ==> score(
                description,
                #[trigger] table[other],
            ) == 0,
    ensures
        verdict(description, table) == entry_verdict(table[first]),
{
    lemma_winner_gives_verdict(description, table, first);
}

/// Of the first `count` entries of a table either one wins or none has
/// matched a keyword.
proof fn lemma_prefix_is_decided(description: Seq<char>, table: Seq<ArchetypeView>, count: nat)
    requires
        count <= table.len(),
    ensures
        matches_nothing(description, table.take(count as int)) || exists|index: int|
            wins(description, table.take(count as int), index),
    decreases count,
{
    let prefix = table.take(count as int);
    if count > 0 {
        let shorter = table.take(count - 1);
        let last = count - 1;
        lemma_prefix_is_decided(description, table, (count - 1) as nat);
        assert forall|index: int| 0 <= index < last implies #[trigger] prefix[index]
            == shorter[index] by {}
        if matches_nothing(description, shorter) {
            if score(description, prefix[last]) > 0 {
                assert(wins(description, prefix, last));
            } else {
                assert(matches_nothing(description, prefix));
            }
        } else {
            let before = choose|index: int| wins(description, shorter, index);
            if score(description, prefix[last]) > score(description, shorter[before]) {
                assert(wins(description, prefix, last));
            } else {
                assert(wins(description, prefix, before));
            }
        }
    }
}

/// Every description is decided: either exactly one entry of the table wins,
/// or no entry has matched a keyword and the description is unclassified.
pub proof fn lemma_every_description_is_decided(description: Seq<char>, table: Seq<ArchetypeView>)
    ensures
        match winner(description, table) {
            Some(index) => wins(description, table, index),
            None => matches_nothing(description, table) && verdict(description, table)
                == unclassified(),
        },
{
    lemma_prefix_is_decided(description, table, table.len());
    assert(table.take(table.len() as int) =~= table);
}

/// Case is folded away before anything else happens: two descriptions with
/// the same lower-case form get the same verdict.
pub proof fn lemma_case_does_not_matter(
    first: Seq<char>,
    second: Seq<char>,
    table: Seq<ArchetypeView>,
)
    requires
        lowercase_of(first) == lowercase_of(second),
    ensures
        classification(first, table) == classification(second, table),
{
}

/// The labels that a suggestion is taken from.
pub open spec fn is_suggestion_label(text: Seq<char>) -> bool {
    ||| text == "Low Potential"@
    ||| text == "Medium Potential"@
    ||| text == "High Potential"@
    ||| text == "Speculative"@
}

/// Whatever the description, the suggestion that the agent gives is one of
/// the fixed labels.
pub proof fn lemma_suggestion_is_a_fixed_label(description: Seq<char>)
    ensures
        is_suggestion_label(
            classification(description, archetype_table()).investment_suggestion,
        ),
{
    let table = archetype_table();
    let folded = lowercase_of(description);
    lemma_every_description_is_decided(folded, table);
    match winner(folded, table) {
        Some(index) => {
            assert(0 <= index < 6);
            assert(is_suggestion_label(table[index].suggestion));
        },
        None => {},
    }
}

/// A run on a description of which, in lower case, no keyword of the agent's
/// table occurs publishes the unclassified response.
pub proof fn lemma_run_without_keyword_publishes_unclassified(description: Seq<char>)
    requires
        forall|index: int, keyword: int|
            0 <= index < archetype_table().len() && 0 <= keyword
                < archetype_table()[index].keywords.len() ==> !occurs_in(
                #[trigger] archetype_table()[index].keywords[keyword],
                lowercase_of(description),
            ),
    ensures
        published(description) == response_bytes(unclassified()),
{
    lemma_no_keyword_is_unclassified(lowercase_of(description), archetype_table());
}

/// A run on a description that, in lower case, contains a keyword of an
/// archetype of the agent's table publishes the response of that archetype,
/// provided that every archetype before it has matched strictly fewer
/// keywords and no archetype after it has matched more.
pub proof fn lemma_run_publishes_the_leading_archetype(
    description: Seq<char>,
    index: int,
    keyword: int,
)
    requires
        0 <= index < archetype_table().len(),
        0 <= keyword < archetype_table()[index].keywords.len(),
        occurs_in(archetype_table()[index].keywords[keyword], lowercase_of(description)),
        forall|earlier: int|
            0 <= earlier < index ==> score(
                lowercase_of(description),
                #[trigger] archetype_table()[earlier],
            ) < score(lowercase_of(description), archetype_table()[index]),
        forall|later: int|
            index < later < archetype_table().len() ==> score(
                lowercase_of(description),
                #[trigger] archetype_table()[later],
            ) <= score(lowercase_of(description), archetype_table()[index]),
    ensures
        published(description) == response_bytes(entry_verdict(archetype_table()[index])),
{
    lemma_leading_archetype_gives_verdict(
        lowercase_of(description),
        archetype_table(),
        index,
        keyword,
    );
}

/// A run is a function of its payload: two payloads that decode to the same
/// description are answered with the same bytes, whatever the output region
/// held before either run.
pub proof fn lemma_same_payload_same_output(
    first: Option<MemeAnalysisRequest>,
    second: Option<MemeAnalysisRequest>,
)
    requires
        requested_description(first) == requested_description(second),
    ensures
        published(requested_description(first)) == published(requested_description(second)),
{
}

/// A payload that did not decode is answered as a request with the empty
/// description is.
pub proof fn lemma_undecoded_payload_is_empty_description(request: MemeAnalysisRequest)
    requires
        request@ == Seq::<char>::empty(),
    ensures
        published(requested_description(None)) == published(requested_description(Some(request))),
{
}

} // verus!
