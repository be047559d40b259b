//! The settings (GUCs) of the extension, as their own types.
use vstd::prelude::*;

verus! {

/// The value of `pg_temporal.default_disambiguation`: how a wall-clock time
/// that falls in a DST gap or fold is resolved.
#[derive(Clone, Copy, Debug, PartialEq, Eq, Structural)]
pub enum DisambiguationGuc {
    Compatible,
    Earlier,
    Later,
    Reject,
}

/// The value of `pg_temporal.alias_policy`: how time-zone aliases are resolved.
#[derive(Clone, Copy, Debug, PartialEq, Eq, Structural)]
pub enum AliasPolicyGuc {
    Iana,
    JodaTime,
}

/// The name under which each disambiguation value is set.
pub open spec fn disambiguation_name(g: DisambiguationGuc) -> Seq<char> {
    match g {
        DisambiguationGuc::Compatible => "compatible"@,
        DisambiguationGuc::Earlier => "earlier"@,
        DisambiguationGuc::Later => "later"@,
        DisambiguationGuc::Reject => "reject"@,
    }
}

impl DisambiguationGuc {
    /// The setting's text name.
    pub fn name(&self) -> (r: &'static str)
        ensures r@ == disambiguation_name(*self),
    {
        match self {
            DisambiguationGuc::Compatible => "compatible",
            DisambiguationGuc::Earlier => "earlier",
            DisambiguationGuc::Later => "later",
            DisambiguationGuc::Reject => "reject",
        }
    }
}

/// The name under which each alias policy is set.
pub open spec fn alias_policy_name(g: AliasPolicyGuc) -> Seq<char> {
    match g {
        AliasPolicyGuc::Iana => "iana"@,
        AliasPolicyGuc::JodaTime => "jodatime"@,
    }
}

impl AliasPolicyGuc {
    /// The setting's text name.
    pub fn name(&self) -> (r: &'static str)
        ensures r@ == alias_policy_name(*self),
    {
        match self {
            AliasPolicyGuc::Iana => "iana",
            AliasPolicyGuc::JodaTime => "jodatime",
        }
    }
}

/// `c` with an ASCII capital letter made lower case.
pub open spec fn ascii_lower(c: char) -> char {
    if 'A' <= c && c <= 'Z' { ((c as u32) + 32) as char } else { c }
}

/// `s` with its ASCII capital letters made lower case; setting names are
/// matched without regard to ASCII case.
pub open spec fn lower_text(s: Seq<char>) -> Seq<char> {
    s.map_values(|c: char| ascii_lower(c))
}

fn lower_char(c: char) -> (r: char)
    ensures r == ascii_lower(c),
{
    if 'A' <= c && c <= 'Z' {
        let v: u32 = (c as u32) + 32;
        proof { assert(v as u8 as char == v as char); }
        (v as u8) as char
    } else {
        c
    }
}

/// Whether `text`, with ASCII case ignored, is `name`.
fn names_match(text: &str, name: &str) -> (r: bool)
    ensures r == (lower_text(text@) == name@),
{
    let n = text.unicode_len();
    let m = name.unicode_len();
    if n != m {
        proof { assert(lower_text(text@).len() != name@.len()); }
        return false;
    }
    let mut i: usize = 0;
    while i < n
        invariant
            i <= n, n == text@.len(), m == name@.len(), n == m,
            forall|j: int| 0 <= j < i ==> #[trigger] ascii_lower(text@[j]) == name@[j],
        decreases n - i,
    {
        if lower_char(text.get_char(i)) != name.get_char(i) {
            proof { assert(lower_text(text@)[i as int] != name@[i as int]); }
            return false;
        }
        i = i + 1;
    }
    proof { assert(lower_text(text@) =~= name@); }
    true
}

/// The disambiguation a setting names, if any (ASCII case ignored).
pub open spec fn disambiguation_of_name(s: Seq<char>) -> Option<DisambiguationGuc> {
    let l = lower_text(s);
    if l == "compatible"@ { Some(DisambiguationGuc::Compatible) }
    else if l == "earlier"@ { Some(DisambiguationGuc::Earlier) }
    else if l == "later"@ { Some(DisambiguationGuc::Later) }
    else if l == "reject"@ { Some(DisambiguationGuc::Reject) }
    else { None }
}

/// The alias policy a setting names, if any (ASCII case ignored).
pub open spec fn alias_policy_of_name(s: Seq<char>) -> Option<AliasPolicyGuc> {
    let l = lower_text(s);
    if l == "iana"@ { Some(AliasPolicyGuc::Iana) }
    else if l == "jodatime"@ { Some(AliasPolicyGuc::JodaTime) }
    else { None }
}

impl DisambiguationGuc {
    /// The value a setting's text names; `None` for a value that the
    /// setting refuses.
    pub fn from_name(text: &str) -> (r: Option<DisambiguationGuc>)
        ensures r == disambiguation_of_name(text@),
    {
        if names_match(text, "compatible") { Some(DisambiguationGuc::Compatible) }
        else if names_match(text, "earlier") { Some(DisambiguationGuc::Earlier) }
        else if names_match(text, "later") { Some(DisambiguationGuc::Later) }
        else if names_match(text, "reject") { Some(DisambiguationGuc::Reject) }
        else { None }
    }
}

impl AliasPolicyGuc {
    /// The value a setting's text names; `None` for a value that the
    /// setting refuses.
    pub fn from_name(text: &str) -> (r: Option<AliasPolicyGuc>)
        ensures r == alias_policy_of_name(text@),
    {
        if names_match(text, "iana") { Some(AliasPolicyGuc::Iana) }
        else if names_match(text, "jodatime") { Some(AliasPolicyGuc::JodaTime) }
        else { None }
    }
}

/// Each disambiguation value is named by its own name, and by no other's.
pub proof fn lemma_disambiguation_name_round_trip(g: DisambiguationGuc)
    ensures disambiguation_of_name(disambiguation_name(g)) == Some(g),
{
    reveal_strlit("compatible");
    reveal_strlit("earlier");
    reveal_strlit("later");
    reveal_strlit("reject");
    let n = disambiguation_name(g);
    assert(lower_text(n) =~= n);
}

/// Each alias policy is named by its own name, and by no other's.
pub proof fn lemma_alias_policy_name_round_trip(g: AliasPolicyGuc)
    ensures alias_policy_of_name(alias_policy_name(g)) == Some(g),
{
    reveal_strlit("iana");
    reveal_strlit("jodatime");
    let n = alias_policy_name(g);
    assert(lower_text(n) =~= n);
}

} // verus!
