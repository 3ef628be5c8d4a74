use vstd::prelude::*;
use crate::extract::{inline_label, inline_label_of, puzzle_script, puzzle_script_of};

verus! {

/// Opens the stub `document` and its `createElement`, whose element links to
/// the site's root.
pub const DOCUMENT_OPEN: &'static str = "\n    var document = {\n        createElement: function () {\n            return { firstChild: { href: \"";

pub const LINK_SCHEME: &'static str = "http://";

pub const ROOT_PATH: &'static str = "/";

/// Closes the link and opens `getElementById`, whose element holds the label.
pub const LABEL_OPEN: &'static str = "\" } }\n        },\n        getElementById: function () {\n            return {\"innerHTML\": \"";

/// Closes the stub `document`; the puzzle script follows.
pub const DOCUMENT_CLOSE: &'static str = "\"};\n        }\n    };\n    ";

/// Writes the puzzle's answer to standard output.
pub const ANSWER_OUTPUT: &'static str = "; process.stdout.write(a.value);\n";

/// The program that evaluates a puzzle: stubs of the two DOM accessors that
/// the script calls, the script itself unchanged, and the output of its
/// answer.
pub open spec fn program_text(script: Seq<char>, domain: Seq<char>, label: Seq<char>) -> Seq<char> {
    DOCUMENT_OPEN@ + LINK_SCHEME@ + domain + ROOT_PATH@ + LABEL_OPEN@ + label + DOCUMENT_CLOSE@
        + script + ANSWER_OUTPUT@
}

/// Assembles the evaluable program of a puzzle script.
pub fn build_program(script: &str, domain: &str, label: &str) -> (r: String)
    ensures
        r@ == program_text(script@, domain@, label@),
{
    let mut program = String::from_str(DOCUMENT_OPEN);
    program.append(LINK_SCHEME);
    program.append(domain);
    program.append(ROOT_PATH);
    program.append(LABEL_OPEN);
    program.append(label);
    program.append(DOCUMENT_CLOSE);
    program.append(script);
    program.append(ANSWER_OUTPUT);
    program
}

/// The program for a challenge page: `None` when the page holds no puzzle
/// script; an absent label stands as the empty text.
pub open spec fn page_program(html: Seq<char>, domain: Seq<char>) -> Option<Seq<char>> {
    match puzzle_script_of(html) {
        Some(script) => Some(
            program_text(
                script,
                domain,
                match inline_label_of(html) {
                    Some(label) => label,
                    None => Seq::empty(),
                },
            ),
        ),
        None => None,
    }
}

/// Extracts the puzzle of a challenge page and assembles its program.
pub fn parse_js(html: &str, domain: &str) -> (r: Option<String>)
    ensures
        r.is_some() == page_program(html@, domain@).is_some(),
        r.is_some() ==> r.unwrap()@ == page_program(html@, domain@).unwrap(),
{
    let script = match puzzle_script(html) {
        Some(s) => s,
        None => return None,
    };
    let label = match inline_label(html) {
        Some(l) => l,
        None => String::new(),
    };
    Some(build_program(script.as_str(), domain, label.as_str()))
}

/// In every assembled program the link of the stub element is the site's
/// root over plain HTTP, `http://<domain>/`, right after the opening of the
/// stub document; the script stands after the two stubs, unchanged.
pub proof fn lemma_program_links_domain_root(script: Seq<char>, domain: Seq<char>, label: Seq<char>)
    ensures
        ({
            let p = program_text(script, domain, label);
            let start = DOCUMENT_OPEN@.len() as int;
            let link = "http://"@ + domain + "/"@;
            &&& p.subrange(start, start + link.len()) == link
            &&& p.subrange(
                p.len() - ANSWER_OUTPUT@.len() - script.len(),
                p.len() - ANSWER_OUTPUT@.len(),
            ) == script
        }),
{
    reveal_strlit("http://");
    reveal_strlit("/");
    let p = program_text(script, domain, label);
    let start = DOCUMENT_OPEN@.len() as int;
    let link = "http://"@ + domain + "/"@;
    let before_script = DOCUMENT_OPEN@ + LINK_SCHEME@ + domain + ROOT_PATH@ + LABEL_OPEN@ + label
        + DOCUMENT_CLOSE@;
    assert(LINK_SCHEME@ == "http://"@);
    assert(ROOT_PATH@ == "/"@);
    assert(p == DOCUMENT_OPEN@ + link + (LABEL_OPEN@ + label + DOCUMENT_CLOSE@ + script
        + ANSWER_OUTPUT@));
    assert(p.subrange(start, start + link.len()) =~= link);
    assert(p == before_script + script + ANSWER_OUTPUT@);
    assert(p.subrange(
        p.len() - ANSWER_OUTPUT@.len() - script.len(),
        p.len() - ANSWER_OUTPUT@.len(),
    ) =~= script);
}

} // verus!
