//! The archetype table: the fixed categories a description can fall into,
//! each with the keywords that speak for it and the verdict that it stands for.

use vstd::prelude::*;

verus! {

/// One category of the table.
pub struct MemeArchetype {
    pub name: &'static str,
    pub keywords: Vec<&'static str>,
    pub analysis: &'static str,
    pub suggestion: &'static str,
}

/// What an archetype is to the specifications: its texts as sequences of
/// characters, the keywords in their order.
pub struct ArchetypeView {
    pub name: Seq<char>,
    pub keywords: Seq<Seq<char>>,
    pub analysis: Seq<char>,
    pub suggestion: Seq<char>,
}

impl View for MemeArchetype {
    type V = ArchetypeView;

    open spec fn view(&self) -> ArchetypeView {
        ArchetypeView {
            name: self.name@,
            keywords: self.keywords.deep_view(),
            analysis: self.analysis@,
            suggestion: self.suggestion@,
        }
    }
}

impl DeepView for MemeArchetype {
    type V = ArchetypeView;

    open spec fn deep_view(&self) -> ArchetypeView {
        self@
    }
}

/// The table the agent classifies against. Its order decides ties.
pub open spec fn archetype_table() -> Seq<ArchetypeView> {
    seq![
        ArchetypeView {
            name: "Reaction Image/GIF"@,
            keywords: seq![
                "face"@,
                "reaction"@,
                "surprised"@,
                "happy"@,
                "sad"@,
                "angry"@,
                "confused"@,
                "thinking"@,
                "nodding"@,
                "crying"@,
            ],
            analysis: "Reaction-based memes are highly versatile and have long-term utility in online conversations. Their value is stable but rarely explosive."@,
            suggestion: "Low Potential"@,
        },
        ArchetypeView {
            name: "Viral Challenge / Dance"@,
            keywords: seq![
                "dance"@,
                "challenge"@,
                "song"@,
                "music"@,
                "tiktok"@,
                "trend"@,
                "movement"@,
            ],
            analysis: "Viral challenges have a very high but short-lived peak. They can generate massive, rapid interest but fade just as quickly. High risk, high reward."@,
            suggestion: "High Potential"@,
        },
        ArchetypeView {
            name: "Wholesome / Positive Meme"@,
            keywords: seq![
                "wholesome"@,
                "cute"@,
                "happy"@,
                "positive"@,
                "dog"@,
                "cat"@,
                "friendship"@,
                "love"@,
                "kindness"@,
            ],
            analysis: "Wholesome content has a dedicated audience and consistent engagement. It fosters a positive community but rarely achieves explosive viral status."@,
            suggestion: "Medium Potential"@,
        },
        ArchetypeView {
            name: "Cursed Image / Absurdist Humor"@,
            keywords: seq![
                "cursed"@,
                "weird"@,
                "strange"@,
                "bizarre"@,
                "surreal"@,
                "odd"@,
                "unsettling"@,
                "deep fried"@,
            ],
            analysis: "Absurdist and 'cursed' humor appeals to niche, highly-online communities. These can become cult classics with a dedicated following, but have limited mainstream appeal."@,
            suggestion: "Speculative"@,
        },
        ArchetypeView {
            name: "Exploitable Format"@,
            keywords: seq![
                "format"@,
                "template"@,
                "comic"@,
                "drake"@,
                "distracted boyfriend"@,
                "spongebob"@,
                "panel"@,
                "label"@,
            ],
            analysis: "Exploitable formats are the backbone of meme creation. A successful new format can dominate the cultural landscape for weeks or months, offering significant opportunities."@,
            suggestion: "High Potential"@,
        },
        ArchetypeView {
            name: "Niche Hobby / Fandom Meme"@,
            keywords: seq![
                "gaming"@,
                "anime"@,
                "movie"@,
                "d&d"@,
                "warhammer"@,
                "coding"@,
                "sports"@,
                "star wars"@,
            ],
            analysis: "These memes are highly relevant within their specific communities but have almost no value outside of them. Their potential is directly tied to the size and engagement of their niche."@,
            suggestion: "Speculative"@,
        },
    ]
}

/// Builds the table, entry for entry as `archetype_table` states it.
pub fn get_archetypes() -> (archetypes: Vec<MemeArchetype>)
    ensures
        archetypes.deep_view() == archetype_table(),
{
    let archetypes = vec![
        MemeArchetype {
            name: "Reaction Image/GIF",
            keywords: vec![
                "face",
                "reaction",
                "surprised",
                "happy",
                "sad",
                "angry",
                "confused",
                "thinking",
                "nodding",
                "crying",
            ],
            analysis: "Reaction-based memes are highly versatile and have long-term utility in online conversations. Their value is stable but rarely explosive.",
            suggestion: "Low Potential",
        },
        MemeArchetype {
            name: "Viral Challenge / Dance",
            keywords: vec!["dance", "challenge", "song", "music", "tiktok", "trend", "movement"],
            analysis: "Viral challenges have a very high but short-lived peak. They can generate massive, rapid interest but fade just as quickly. High risk, high reward.",
            suggestion: "High Potential",
        },
        MemeArchetype {
            name: "Wholesome / Positive Meme",
            keywords: vec![
                "wholesome",
                "cute",
                "happy",
                "positive",
                "dog",
                "cat",
                "friendship",
                "love",
                "kindness",
            ],
            analysis: "Wholesome content has a dedicated audience and consistent engagement. It fosters a positive community but rarely achieves explosive viral status.",
            suggestion: "Medium Potential",
        },
        MemeArchetype {
            name: "Cursed Image / Absurdist Humor",
            keywords: vec![
                "cursed",
                "weird",
                "strange",
                "bizarre",
                "surreal",
                "odd",
                "unsettling",
                "deep fried",
            ],
            analysis: "Absurdist and 'cursed' humor appeals to niche, highly-online communities. These can become cult classics with a dedicated following, but have limited mainstream appeal.",
            suggestion: "Speculative",
        },
        MemeArchetype {
            name: "Exploitable Format",
            keywords: vec![
                "format",
                "template",
                "comic",
                "drake",
                "distracted boyfriend",
                "spongebob",
                "panel",
                "label",
            ],
            analysis: "Exploitable formats are the backbone of meme creation. A successful new format can dominate the cultural landscape for weeks or months, offering significant opportunities.",
            suggestion: "High Potential",
        },
        MemeArchetype {
            name: "Niche Hobby / Fandom Meme",
            keywords: vec![
                "gaming",
                "anime",
                "movie",
                "d&d",
                "warhammer",
                "coding",
                "sports",
                "star wars",
            ],
            analysis: "These memes are highly relevant within their specific communities but have almost no value outside of them. Their potential is directly tied to the size and engagement of their niche.",
            suggestion: "Speculative",
        },
    ];
    proof {
        let table = archetype_table();
        assert(archetypes@[0].keywords.deep_view() =~= table[0].keywords);
        assert(archetypes@[1].keywords.deep_view() =~= table[1].keywords);
        assert(archetypes@[2].keywords.deep_view() =~= table[2].keywords);
        assert(archetypes@[3].keywords.deep_view() =~= table[3].keywords);
        assert(archetypes@[4].keywords.deep_view() =~= table[4].keywords);
        assert(archetypes@[5].keywords.deep_view() =~= table[5].keywords);
        assert(archetypes.deep_view() =~= table);
    }
    archetypes
}

} // verus!
