//! Token extraction: scans the `input` elements of the login page for the
//! hidden anti-forgery field named `_token` and hands back its value.

use vstd::prelude::*;
use kuchiki::traits::TendrilSink;

verus! {

/// The `name` and `value` attributes of each `input` element of an HTML
/// document, in document order, as a tolerant HTML parser reads them.
pub uninterp spec fn inputs_of(html: Seq<char>) -> Seq<(Option<Seq<char>>, Option<Seq<char>>)>;

/// Relies on `kuchiki::parse_html` (a tolerant HTML parser: malformed input
/// yields a tree rather than an error) and its `select` over the `input`
/// element name: hands back the `name` and `value` attributes of every
/// `input` element in document order. The result depends on the text alone.
#[verifier::external_body]
fn html_input_attrs(html: &str) -> (r: Vec<(Option<String>, Option<String>)>)
    ensures
        r.deep_view() == inputs_of(html@),
{
    let document = kuchiki::parse_html().one(html);
    let mut out: Vec<(Option<String>, Option<String>)> = Vec::new();
    if let Ok(found) = document.select("input") {
        for elem in found {
            let attrs = elem.attributes.borrow();
            out.push((attrs.get("name").map(String::from), attrs.get("value").map(String::from)));
        }
    }
    out
}

/// The `value` attribute of the first input whose `name` attribute is exactly
/// `_token`, given the (name, value) attribute pairs of all inputs in
/// document order. Absence of such an input gives `None`; so does a matching
/// input that carries no `value` attribute.
pub open spec fn token_of(inputs: Seq<(Option<Seq<char>>, Option<Seq<char>>)>) -> Option<Seq<char>>
    decreases inputs.len(),
{
    if inputs.len() == 0 {
        None
    } else if inputs[0].0 == Some("_token"@) {
        inputs[0].1
    } else {
        token_of(inputs.subrange(1, inputs.len() as int))
    }
}

/// Dropping a prefix in which no input is named `_token` does not change
/// which token is found.
proof fn lemma_token_of_skip_unmatched(
    inputs: Seq<(Option<Seq<char>>, Option<Seq<char>>)>,
    i: int,
)
    requires
        0 <= i <= inputs.len(),
        forall|j: int| 0 <= j < i ==> inputs[j].0 != Some("_token"@),
    ensures
        token_of(inputs) == token_of(inputs.subrange(i, inputs.len() as int)),
    decreases i,
{
    if i > 0 {
        let rest = inputs.subrange(1, inputs.len() as int);
        assert(forall|j: int| 0 <= j < i - 1 ==> rest[j].0 != Some("_token"@));
        lemma_token_of_skip_unmatched(rest, i - 1);
        assert(rest.subrange(i - 1, rest.len() as int) =~= inputs.subrange(
            i,
            inputs.len() as int,
        ));
    } else {
        assert(inputs.subrange(0, inputs.len() as int) =~= inputs);
    }
}

/// Scans the document's `input` elements in document order and hands back the
/// `value` attribute of the first one named `_token`, or `None` where no such
/// input (with a value) exists. Malformed HTML is not an error: the parser is
/// tolerant.
pub fn parse_html(data: &str) -> (r: Option<String>)
    ensures
        r.deep_view() == token_of(inputs_of(data@)),
{
    let inputs = html_input_attrs(data);
    let needle: String = "_token".to_owned();
    let n: usize = inputs.len();
    let mut i: usize = 0;
    while i < n
        invariant
            needle@ == "_token"@,
            n == inputs.len(),
            i <= n,
            inputs.deep_view() == inputs_of(data@),
            forall|j: int| 0 <= j < i ==> inputs.deep_view()[j].0 != Some("_token"@),
        decreases n - i,
    {
        let hit = match &inputs[i].0 {
            Some(name) => *name == needle,
            None => false,
        };
        if hit {
            proof {
                lemma_token_of_skip_unmatched(inputs.deep_view(), i as int);
                assert(inputs.deep_view().subrange(i as int, inputs.deep_view().len() as int)[0]
                    == inputs.deep_view()[i as int]);
            }
            let r = match &inputs[i].1 {
                Some(v) => Some(v.clone()),
                None => None,
            };
            return r;
        }
        proof {
            assert(inputs.deep_view()[i as int].0 != Some("_token"@));
        }
        i = i + 1;
    }
    proof {
        lemma_token_of_skip_unmatched(inputs.deep_view(), n as int);
    }
    None
}

} // verus!
