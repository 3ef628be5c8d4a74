use vstd::prelude::*;

verus! {

/// The hidden fields of a challenge page, as `(name, value)` pairs in the
/// order in which they occur.
pub uninterp spec fn hidden_fields_of(html: Seq<char>) -> Seq<(Seq<char>, Seq<char>)>;

/// The puzzle script of a challenge page, when its block is present.
pub uninterp spec fn puzzle_script_of(html: Seq<char>) -> Option<Seq<char>>;

/// The inner text of the decorative `cf-dn` element, when present.
pub uninterp spec fn inline_label_of(html: Seq<char>) -> Option<Seq<char>>;

/// The `action` of the challenge form, when present.
pub uninterp spec fn form_action_of(html: Seq<char>) -> Option<Seq<char>>;

/// The names of the hidden fields that a challenge page is read for.
pub open spec fn is_recognized_field(name: Seq<char>) -> bool {
    name == "r"@ || name == "jschl_vc"@ || name == "pass"@
}

/// The view of a list of string pairs.
pub open spec fn pairs_view(v: Seq<(String, String)>) -> Seq<(Seq<char>, Seq<char>)> {
    v.map_values(|p: (String, String)| (p.0@, p.1@))
}

/// Relies on regex::Regex::captures_iter: every input tag whose `name` is
/// one of the recognized fields gives one pair, in document order. The name
/// is the text that the alternation matched, and the value has at least one
/// character.
#[verifier::external_body]
pub(crate) fn parse_challenge(html: &str) -> (r: Vec<(String, String)>)
    ensures
        pairs_view(r@) == hidden_fields_of(html@),
        forall|i: int|
            0 <= i < r@.len() ==> is_recognized_field(#[trigger] r@[i].0@) && r@[i].1@.len() > 0,
{
    regex::Regex::new(r#"name="(r|jschl_vc|pass)"(?: [^<>]*)? value="(.+?)""#)
        .unwrap()
        .captures_iter(html)
        .map(|caps| (caps[1].to_owned(), caps[2].to_owned()))
        .collect()
}

/// Relies on regex::Regex::captures: the first `setTimeout` block that opens
/// with the puzzle's variable declaration, up to the line that assigns
/// `a.value`.
#[verifier::external_body]
pub(crate) fn puzzle_script(html: &str) -> (r: Option<String>)
    ensures
        r.is_some() == puzzle_script_of(html@).is_some(),
        r.is_some() ==> r.unwrap()@ == puzzle_script_of(html@).unwrap(),
{
    regex::Regex::new(
        r#"setTimeout\(function\(\)\{\s+(var s,t,o,p,b,r,e,a,k,i,n,g,f.+?\r?\n[\s\S]+?a\.value =.+?)\r?\n"#,
    )
        .unwrap()
        .captures(html)
        .map(|caps| caps[1].to_owned())
}

/// Relies on regex::Regex::captures: the text that follows the first `div`
/// whose `id` starts with `cf-dn`, up to the next tag; it holds no angle
/// bracket.
#[verifier::external_body]
pub(crate) fn inline_label(html: &str) -> (r: Option<String>)
    ensures
        r.is_some() == inline_label_of(html@).is_some(),
        r.is_some() ==> r.unwrap()@ == inline_label_of(html@).unwrap(),
{
    regex::Regex::new(r#"<div(?: [^<>]*)? id="cf-dn.*?">([^<>]*)"#)
        .unwrap()
        .captures(html)
        .map(|caps| caps[1].to_owned())
}

/// Relies on regex::Regex::captures: the quoted `action` of the first
/// `id="challenge-form"` element; it holds no double quote.
#[verifier::external_body]
pub(crate) fn form_action(html: &str) -> (r: Option<String>)
    ensures
        r.is_some() == form_action_of(html@).is_some(),
        r.is_some() ==> r.unwrap()@ == form_action_of(html@).unwrap(),
{
    regex::Regex::new(r#"id="challenge-form" action="([^"]*)""#)
        .unwrap()
        .captures(html)
        .map(|caps| caps[1].to_owned())
}

/// Reading a page twice gives the same hidden fields, in the same order.
pub proof fn lemma_parse_challenge_deterministic(
    html: Seq<char>,
    first: Seq<(String, String)>,
    second: Seq<(String, String)>,
)
    requires
        pairs_view(first) == hidden_fields_of(html),
        pairs_view(second) == hidden_fields_of(html),
    ensures
        pairs_view(first) == pairs_view(second),
        first.len() == second.len(),
        forall|i: int|
            0 <= i < first.len() ==> #[trigger] first[i].0@ == second[i].0@ && first[i].1@
                == second[i].1@,
{
    assert(pairs_view(first).len() == first.len());
    assert(pairs_view(second).len() == second.len());
    assert forall|i: int| 0 <= i < first.len() implies #[trigger] first[i].0@ == second[i].0@
        && first[i].1@ == second[i].1@ by {
        assert(pairs_view(first)[i] == (first[i].0@, first[i].1@));
        assert(pairs_view(second)[i] == (second[i].0@, second[i].1@));
    }
}

} // verus!
