//! The architectures a quantized container may declare, and the resolver
//! from the container's free-text tag to one of them.

use vstd::prelude::*;
use vstd::string::StringExecFns;

verus! {

/// Whether two string slices hold the same characters.
fn same_text(a: &str, b: &str) -> (same: bool)
    ensures
        same == (a@ == b@),
{
    a.to_owned() == b.to_owned()
}

/// The closed set of architectures that a container's metadata may name.
/// Only some of them have a model implementation behind them.
#[derive(Debug, Clone, Copy, PartialEq, Eq, Structural)]
pub enum GgufArchitecture {
    Llama,
    Mpt,
    Gptneox,
    Gptj,
    Gpt2,
    Bloom,
    Falcon,
    Mamba,
    Rwkv,
    Phi2,
}

impl GgufArchitecture {
    /// The tag under which a container declares this architecture.
    pub open spec fn spec_tag(self) -> Seq<char> {
        match self {
            GgufArchitecture::Llama => "llama"@,
            GgufArchitecture::Mpt => "mpt"@,
            GgufArchitecture::Gptneox => "gptneox"@,
            GgufArchitecture::Gptj => "gptj"@,
            GgufArchitecture::Gpt2 => "gpt2"@,
            GgufArchitecture::Bloom => "bloom"@,
            GgufArchitecture::Falcon => "falcon"@,
            GgufArchitecture::Mamba => "mamba"@,
            GgufArchitecture::Rwkv => "rwkv"@,
            GgufArchitecture::Phi2 => "phi2"@,
        }
    }

    /// The architecture that a tag names, if it names one. Tags are matched
    /// exactly: no trimming, no change of case.
    pub open spec fn of_tag(tag: Seq<char>) -> Option<GgufArchitecture> {
        if tag == "llama"@ {
            Some(GgufArchitecture::Llama)
        } else if tag == "mpt"@ {
            Some(GgufArchitecture::Mpt)
        } else if tag == "gptneox"@ {
            Some(GgufArchitecture::Gptneox)
        } else if tag == "gptj"@ {
            Some(GgufArchitecture::Gptj)
        } else if tag == "gpt2"@ {
            Some(GgufArchitecture::Gpt2)
        } else if tag == "bloom"@ {
            Some(GgufArchitecture::Bloom)
        } else if tag == "falcon"@ {
            Some(GgufArchitecture::Falcon)
        } else if tag == "mamba"@ {
            Some(GgufArchitecture::Mamba)
        } else if tag == "rwkv"@ {
            Some(GgufArchitecture::Rwkv)
        } else if tag == "phi2"@ {
            Some(GgufArchitecture::Phi2)
        } else {
            None
        }
    }

    /// The text that rejects a tag outside the known set. It embeds the tag
    /// as it was given, between backticks.
    pub open spec fn unknown_message(tag: Seq<char>) -> Seq<char> {
        "Unknown GGUF architecture `"@ + tag + "`"@
    }

    /// The tag under which a container declares this architecture.
    pub fn tag(&self) -> (t: &'static str)
        ensures
            t@ == self.spec_tag(),
    {
        match self {
            GgufArchitecture::Llama => "llama",
            GgufArchitecture::Mpt => "mpt",
            GgufArchitecture::Gptneox => "gptneox",
            GgufArchitecture::Gptj => "gptj",
            GgufArchitecture::Gpt2 => "gpt2",
            GgufArchitecture::Bloom => "bloom",
            GgufArchitecture::Falcon => "falcon",
            GgufArchitecture::Mamba => "mamba",
            GgufArchitecture::Rwkv => "rwkv",
            GgufArchitecture::Phi2 => "phi2",
        }
    }

    /// Resolves a container's architecture tag. A known tag gives its
    /// architecture; any other text is rejected with a message that quotes it.
    pub fn from_str(s: &str) -> (r: Result<GgufArchitecture, String>)
        ensures
            match r {
                Ok(a) => Self::of_tag(s@) == Some(a),
                Err(e) => Self::of_tag(s@).is_none() && e@ == Self::unknown_message(s@),
            },
    {
        if same_text(s, "llama") {
            Ok(GgufArchitecture::Llama)
        } else if same_text(s, "mpt") {
            Ok(GgufArchitecture::Mpt)
        } else if same_text(s, "gptneox") {
            Ok(GgufArchitecture::Gptneox)
        } else if same_text(s, "gptj") {
            Ok(GgufArchitecture::Gptj)
        } else if same_text(s, "gpt2") {
            Ok(GgufArchitecture::Gpt2)
        } else if same_text(s, "bloom") {
            Ok(GgufArchitecture::Bloom)
        } else if same_text(s, "falcon") {
            Ok(GgufArchitecture::Falcon)
        } else if same_text(s, "mamba") {
            Ok(GgufArchitecture::Mamba)
        } else if same_text(s, "rwkv") {
            Ok(GgufArchitecture::Rwkv)
        } else if same_text(s, "phi2") {
            Ok(GgufArchitecture::Phi2)
        } else {
            let mut message = String::from_str("Unknown GGUF architecture `");
            message.append(s);
            message.append("`");
            Err(message)
        }
    }
}

impl std::str::FromStr for GgufArchitecture {
    type Err = String;
    // `str::parse` resolves a tag exactly as the inherent `from_str` does.
    fn from_str(s: &str) -> (r: Result<GgufArchitecture, String>)
        ensures
            match r {
                Ok(a) => GgufArchitecture::of_tag(s@) == Some(a),
                Err(e) => GgufArchitecture::of_tag(s@).is_none() && e@
                    == GgufArchitecture::unknown_message(s@),
            },
    {
        GgufArchitecture::from_str(s)
    }
}

/// No two architectures share a tag.
pub proof fn lemma_tags_distinct(a: GgufArchitecture, b: GgufArchitecture)
    requires
        a.spec_tag() == b.spec_tag(),
    ensures
        a == b,
{
    reveal_strlit("llama");
    reveal_strlit("mpt");
    reveal_strlit("gptneox");
    reveal_strlit("gptj");
    reveal_strlit("gpt2");
    reveal_strlit("bloom");
    reveal_strlit("falcon");
    reveal_strlit("mamba");
    reveal_strlit("rwkv");
    reveal_strlit("phi2");
    let s = a.spec_tag();
    let t = b.spec_tag();
    assert(s.len() == t.len());
    assert(s[0] == t[0]);
    assert(s[3] == t[3] || s.len() == 3);
}

/// Every architecture is found again from its own tag: resolving a known
/// tag succeeds and gives the architecture that the tag belongs to.
pub proof fn lemma_tag_resolves(a: GgufArchitecture)
    ensures
        GgufArchitecture::of_tag(a.spec_tag()) == Some(a),
{
    let found = GgufArchitecture::of_tag(a.spec_tag());
    assert(found.is_some());
    lemma_of_tag_sound(a.spec_tag());
    lemma_tags_distinct(found.unwrap(), a);
}

/// A tag names at most the architecture whose tag it is: whatever resolves
/// was written exactly as one of the known tags.
pub proof fn lemma_of_tag_sound(tag: Seq<char>)
    ensures
        GgufArchitecture::of_tag(tag) matches Some(a) ==> a.spec_tag() == tag,
{
}

/// A tag outside the known set resolves to nothing, and the text that
/// rejects it holds the tag, unchanged, right after the opening backtick.
pub proof fn lemma_unknown_message_quotes_tag(tag: Seq<char>)
    ensures
        ({
            let m = GgufArchitecture::unknown_message(tag);
            let start = "Unknown GGUF architecture `"@.len() as int;
            &&& m.len() == start + tag.len() + 1
            &&& m.subrange(start, start + tag.len()) == tag
        }),
{
    reveal_strlit("`");
    let m = GgufArchitecture::unknown_message(tag);
    let start = "Unknown GGUF architecture `"@.len() as int;
    assert(m.subrange(start, start + tag.len()) =~= tag);
}

} // verus!
