//! CAIP-19 asset identifiers.
//!
//! An asset identifier names an on-chain asset as
//! `{chain_namespace}:{chain_reference}/{asset_namespace}:{asset_reference}`,
//! the part before the slash being a CAIP-2 chain identifier. Parsing splits
//! at the first slash and the first colon of each half and validates each
//! segment's character set and length.
use vstd::prelude::*;

verus! {

/// A CAIP namespace character: lowercase alphanumeric or dash.
pub open spec fn is_namespace_char(c: char) -> bool {
    (97 <= c as u32 && c as u32 <= 122) || (48 <= c as u32 && c as u32 <= 57) || c == '-'
}

/// A CAIP-2 reference character: alphanumeric, dash or underscore.
pub open spec fn is_reference_char(c: char) -> bool {
    (97 <= c as u32 && c as u32 <= 122) || (65 <= c as u32 && c as u32 <= 90) || (48 <= c as u32
        && c as u32 <= 57) || c == '-' || c == '_'
}

/// A CAIP-19 asset reference character: alphanumeric, dash, dot or percent.
pub open spec fn is_asset_reference_char(c: char) -> bool {
    (97 <= c as u32 && c as u32 <= 122) || (65 <= c as u32 && c as u32 <= 90) || (48 <= c as u32
        && c as u32 <= 57) || c == '-' || c == '.' || c == '%'
}

/// A valid namespace segment: 3 to 8 namespace characters.
pub open spec fn spec_valid_namespace(s: Seq<char>) -> bool {
    3 <= s.len() <= 8 && forall|i: int| 0 <= i < s.len() ==> is_namespace_char(#[trigger] s[i])
}

/// A valid chain reference segment: 1 to 32 reference characters.
pub open spec fn spec_valid_reference(s: Seq<char>) -> bool {
    1 <= s.len() <= 32 && forall|i: int| 0 <= i < s.len() ==> is_reference_char(#[trigger] s[i])
}

/// A valid asset reference segment: 1 to 128 asset reference characters.
pub open spec fn spec_valid_asset_reference(s: Seq<char>) -> bool {
    1 <= s.len() <= 128 && forall|i: int|
        0 <= i < s.len() ==> is_asset_reference_char(#[trigger] s[i])
}

/// The index of the first occurrence of `c` in `s`, or -1 if absent.
pub open spec fn spec_find(s: Seq<char>, c: char) -> int
    decreases s.len(),
{
    if s.len() == 0 {
        -1
    } else if s.first() == c {
        0
    } else if spec_find(s.drop_first(), c) == -1 {
        -1
    } else {
        spec_find(s.drop_first(), c) + 1
    }
}

proof fn lemma_find_characterization(s: Seq<char>, c: char)
    ensures
        spec_find(s, c) == -1 ==> forall|i: int| 0 <= i < s.len() ==> s[i] != c,
        spec_find(s, c) != -1 ==> 0 <= spec_find(s, c) < s.len() && s[spec_find(s, c)] == c
            && forall|i: int| 0 <= i < spec_find(s, c) ==> s[i] != c,
    decreases s.len(),
{
    if s.len() > 0 && s.first() != c {
        lemma_find_characterization(s.drop_first(), c);
        let r = spec_find(s.drop_first(), c);
        if r == -1 {
            assert forall|i: int| 0 <= i < s.len() implies s[i] != c by {
                if i > 0 {
                    assert(s.drop_first()[i - 1] == s[i]);
                }
            }
        } else {
            assert(s.drop_first()[r] == s[r + 1]);
            assert forall|i: int| 0 <= i < r + 1 implies s[i] != c by {
                if i > 0 {
                    assert(s.drop_first()[i - 1] == s[i]);
                }
            }
        }
    }
}

/// Find the first occurrence of `c` in `s`, agreeing with `spec_find`.
fn find_char(s: &str, c: char) -> (r: Option<usize>)
    ensures
        match r {
            Some(i) => i == spec_find(s@, c) && i < s@.len() && s@[i as int] == c && forall|t: int|
                0 <= t < i ==> s@[t] != c,
            None => spec_find(s@, c) == -1,
        },
{
    let len = s.unicode_len();
    let mut i: usize = 0;
    while i < len
        invariant
            i <= len,
            len == s@.len(),
            forall|t: int| 0 <= t < i ==> s@[t] != c,
        decreases len - i,
    {
        if s.get_char(i) == c {
            proof {
                lemma_find_characterization(s@, c);
            }
            return Some(i);
        }
        i += 1;
    }
    proof {
        lemma_find_characterization(s@, c);
    }
    None
}

/// The CAIP-2 half of an asset identifier: everything before the first
/// slash.
pub open spec fn spec_chain_part(s: Seq<char>) -> Seq<char> {
    s.subrange(0, spec_find(s, '/'))
}

/// The asset half of an asset identifier: everything after the first slash.
pub open spec fn spec_asset_part(s: Seq<char>) -> Seq<char> {
    s.subrange(spec_find(s, '/') + 1, s.len() as int)
}

/// The segment of a half before its first colon.
pub open spec fn spec_segment_head(p: Seq<char>) -> Seq<char> {
    p.subrange(0, spec_find(p, ':'))
}

/// The segment of a half after its first colon.
pub open spec fn spec_segment_tail(p: Seq<char>) -> Seq<char> {
    p.subrange(spec_find(p, ':') + 1, p.len() as int)
}

/// A syntactically valid CAIP-19 asset identifier: a slash splitting two
/// colon-separated halves, with all four segments well-formed.
pub open spec fn spec_valid_caip19(s: Seq<char>) -> bool {
    spec_find(s, '/') >= 0 && spec_find(spec_chain_part(s), ':') >= 0 && spec_find(
        spec_asset_part(s),
        ':',
    ) >= 0 && spec_valid_namespace(spec_segment_head(spec_chain_part(s)))
        && spec_valid_reference(spec_segment_tail(spec_chain_part(s))) && spec_valid_namespace(
        spec_segment_head(spec_asset_part(s)),
    ) && spec_valid_asset_reference(spec_segment_tail(spec_asset_part(s)))
}

/// A valid asset identifier is exactly the recomposition of its four
/// segments: splitting loses nothing, so a parsed asset still names the
/// input string.
pub proof fn lemma_caip19_segments_recompose(s: Seq<char>)
    requires
        spec_valid_caip19(s),
    ensures
        spec_segment_head(spec_chain_part(s)) + seq![':'] + spec_segment_tail(spec_chain_part(s))
            + seq!['/'] + spec_segment_head(spec_asset_part(s)) + seq![':'] + spec_segment_tail(
            spec_asset_part(s),
        ) == s,
{
    let slash = spec_find(s, '/');
    lemma_find_characterization(s, '/');
    let chain = spec_chain_part(s);
    let asset = spec_asset_part(s);
    lemma_find_characterization(chain, ':');
    lemma_find_characterization(asset, ':');
    assert(s[slash] == '/');
    assert(chain[spec_find(chain, ':')] == ':');
    assert(asset[spec_find(asset, ':')] == ':');
    assert(spec_segment_head(chain) + seq![':'] + spec_segment_tail(chain) + seq!['/']
        + spec_segment_head(asset) + seq![':'] + spec_segment_tail(asset) =~= s);
}

#[derive(Clone, Copy)]
enum CharClass {
    Namespace,
    Reference,
    AssetReference,
}

spec fn spec_in_class(class: CharClass, c: char) -> bool {
    match class {
        CharClass::Namespace => is_namespace_char(c),
        CharClass::Reference => is_reference_char(c),
        CharClass::AssetReference => is_asset_reference_char(c),
    }
}

fn in_class(class: CharClass, c: char) -> (r: bool)
    ensures
        r == spec_in_class(class, c),
{
    let u = c as u32;
    let lower_alnum = (97 <= u && u <= 122) || (48 <= u && u <= 57);
    match class {
        CharClass::Namespace => lower_alnum || c == '-',
        CharClass::Reference => lower_alnum || (65 <= u && u <= 90) || c == '-' || c == '_',
        CharClass::AssetReference => lower_alnum || (65 <= u && u <= 90) || c == '-' || c == '.'
            || c == '%',
    }
}

fn all_in_class(s: &str, class: CharClass) -> (r: bool)
    ensures
        r == (forall|i: int| 0 <= i < s@.len() ==> spec_in_class(class, #[trigger] s@[i])),
{
    let len = s.unicode_len();
    let mut i: usize = 0;
    while i < len
        invariant
            i <= len,
            len == s@.len(),
            forall|t: int| 0 <= t < i ==> spec_in_class(class, #[trigger] s@[t]),
        decreases len - i,
    {
        if !in_class(class, s.get_char(i)) {
            return false;
        }
        i += 1;
    }
    true
}

/// A parsed CAIP-19 asset identifier, held as its four plain segments.
#[derive(Debug, Clone)]
pub struct Caip19Asset {
    pub chain_namespace: String,
    pub chain_reference: String,
    pub asset_namespace: String,
    pub asset_reference: String,
}

impl Caip19Asset {
    /// All four segments are well-formed.
    pub open spec fn wf(&self) -> bool {
        spec_valid_namespace(self.chain_namespace@) && spec_valid_reference(
            self.chain_reference@,
        ) && spec_valid_namespace(self.asset_namespace@) && spec_valid_asset_reference(
            self.asset_reference@,
        )
    }

    /// Parse an asset identifier into its four segments. Succeeds exactly
    /// on syntactically valid CAIP-19 strings, and the segments are exactly
    /// the split of the input.
    pub fn parse(s: &str) -> (r: Option<Caip19Asset>)
        ensures
            match r {
                Some(a) => spec_valid_caip19(s@) && a.wf() && a.chain_namespace@
                    == spec_segment_head(spec_chain_part(s@)) && a.chain_reference@
                    == spec_segment_tail(spec_chain_part(s@)) && a.asset_namespace@
                    == spec_segment_head(spec_asset_part(s@)) && a.asset_reference@
                    == spec_segment_tail(spec_asset_part(s@)),
                None => !spec_valid_caip19(s@),
            },
    {
        let len = s.unicode_len();
        let slash = match find_char(s, '/') {
            Some(i) => i,
            None => {
                return None;
            },
        };
        let chain = s.substring_char(0, slash);
        let asset = s.substring_char(slash + 1, len);
        proof {
            assert(chain@ == spec_chain_part(s@));
            assert(asset@ == spec_asset_part(s@));
        }
        let chain_len = chain.unicode_len();
        let asset_len = asset.unicode_len();
        let c1 = match find_char(chain, ':') {
            Some(i) => i,
            None => {
                return None;
            },
        };
        let c2 = match find_char(asset, ':') {
            Some(i) => i,
            None => {
                return None;
            },
        };
        let chain_namespace = chain.substring_char(0, c1);
        let chain_reference = chain.substring_char(c1 + 1, chain_len);
        let asset_namespace = asset.substring_char(0, c2);
        let asset_reference = asset.substring_char(c2 + 1, asset_len);
        if !(3 <= chain_namespace.unicode_len() && chain_namespace.unicode_len() <= 8
            && all_in_class(chain_namespace, CharClass::Namespace)) {
            return None;
        }
        if !(1 <= chain_reference.unicode_len() && chain_reference.unicode_len() <= 32
            && all_in_class(chain_reference, CharClass::Reference)) {
            return None;
        }
        if !(3 <= asset_namespace.unicode_len() && asset_namespace.unicode_len() <= 8
            && all_in_class(asset_namespace, CharClass::Namespace)) {
            return None;
        }
        if !(1 <= asset_reference.unicode_len() && asset_reference.unicode_len() <= 128
            && all_in_class(asset_reference, CharClass::AssetReference)) {
            return None;
        }
        Some(
            Caip19Asset {
                chain_namespace: String::from_str(chain_namespace),
                chain_reference: String::from_str(chain_reference),
                asset_namespace: String::from_str(asset_namespace),
                asset_reference: String::from_str(asset_reference),
            },
        )
    }
}

} // verus!
