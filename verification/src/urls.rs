//! URLs: what the `url` crate makes of a text, as texts.
use crate::text::characters;
use std::str::FromStr;
use url::Url;
use vstd::prelude::*;

verus! {

/// What a text is as a URL: its normal form, or the name of what is wrong with it.
pub uninterp spec fn url_parsed(text: Seq<char>) -> Result<Seq<char>, Seq<char>>;

/// The pairs of keys and values that a URL's query holds, in order.
pub uninterp spec fn url_query_pairs(text: Seq<char>) -> Seq<(Seq<char>, Seq<char>)>;

/// The normal form of a URL without its query.
pub uninterp spec fn url_without_query(text: Seq<char>) -> Seq<char>;

/// Whether a text is a URL.
pub open spec fn is_url(text: Seq<char>) -> bool {
    url_parsed(text) is Ok
}

/// What stands before the first colon of a text.
pub open spec fn before_colon(text: Seq<char>) -> Seq<char>
    decreases text.len(),
{
    if text.len() == 0 || text[0] == ':' {
        Seq::empty()
    } else {
        seq![text[0]] + before_colon(text.drop_first())
    }
}

/// The scheme of a URL: what its normal form has before the first colon.
pub open spec fn url_scheme(text: Seq<char>) -> Seq<char> {
    before_colon(url_parsed(text)->Ok_0)
}

/// A text begins with what stands before its first colon.
pub proof fn lemma_before_colon(text: Seq<char>)
    ensures
        before_colon(text).is_prefix_of(text),
    decreases text.len(),
{
    if text.len() > 0 && text[0] != ':' {
        lemma_before_colon(text.drop_first());
        let rest = before_colon(text.drop_first());
        assert forall|i: int| 0 <= i < before_colon(text).len() implies before_colon(text)[i]
            == text[i] by {
            if i > 0 {
                assert(rest[i - 1] == text.drop_first()[i - 1]);
            }
        }
        assert(before_colon(text) =~= text.take(before_colon(text).len() as int));
    }
}

/// The texts in a result.
pub open spec fn result_view(result: Result<String, String>) -> Result<Seq<char>, Seq<char>> {
    match result {
        Ok(text) => Ok(text@),
        Err(text) => Err(text@),
    }
}

/// The texts of some pairs.
pub open spec fn pairs_view(pairs: Seq<(String, String)>) -> Seq<(Seq<char>, Seq<char>)> {
    pairs.map_values(|pair: (String, String)| (pair.0@, pair.1@))
}

/// `<url::Url as FromStr>::from_str`: reads an absolute URL. The result is the
/// URL's serialization, or the debug form of the error, and depends on the text
/// alone.
#[verifier::external_body]
pub(crate) fn parse(text: &str) -> (parsed: Result<String, String>)
    ensures
        result_view(parsed) == url_parsed(text@),
{
    match Url::from_str(text) {
        Ok(url) => Ok(url.to_string()),
        Err(err) => Err(format!("{:?}", err)),
    }
}

/// The scheme of a URL in its normal form: what stands before the first colon, as
/// schemes hold no colon and one follows them.
pub fn scheme(url: &str) -> (scheme: String)
    ensures
        scheme@ == before_colon(url@),
{
    let chars = characters(url);
    let mut at: usize = 0;
    assert(url@.skip(0) =~= url@);
    while at < chars.len() && chars[at] != ':'
        invariant
            at <= chars@.len(),
            chars@ == url@,
            before_colon(url@) == url@.take(at as int) + before_colon(url@.skip(at as int)),
        decreases chars@.len() - at,
    {
        assert(url@.skip(at as int).drop_first() =~= url@.skip(at + 1));
        assert(url@.take(at as int) + (seq![url@[at as int]] + before_colon(url@.skip(at + 1)))
            =~= url@.take(at + 1) + before_colon(url@.skip(at + 1)));
        at = at + 1;
    }
    assert(before_colon(url@) =~= url@.subrange(0, at as int));
    url.substring_char(0, at).to_owned()
}

/// `url::Url::query_pairs`: the query's keys and values, decoded. They depend on
/// the text alone.
#[verifier::external_body]
pub(crate) fn query_pairs(text: &str) -> (pairs: Vec<(String, String)>)
    requires
        is_url(text@),
    ensures
        pairs_view(pairs@) == url_query_pairs(text@),
{
    Url::from_str(text).unwrap().query_pairs().into_owned().collect()
}

/// `url::Url::set_query` with no query: the URL's serialization without its
/// query, which depends on the text alone.
#[verifier::external_body]
pub(crate) fn without_query(text: &str) -> (rest: String)
    requires
        is_url(text@),
    ensures
        rest@ == url_without_query(text@),
{
    let mut url = Url::from_str(text).unwrap();
    url.set_query(None);
    url.to_string()
}

/// What stands before the first colon is what has a colon behind it and none in it; of a
/// text without a colon, it is all of it.
pub proof fn colons_end_what_stands_before_them(before: Seq<char>, after: Seq<char>)
    requires
        !before.contains(':'),
    ensures
        before_colon(before) == before,
        before_colon(before + seq![':'] + after) == before,
    decreases before.len(),
{
    let text = before + seq![':'] + after;
    if before.len() == 0 {
        assert(text[0] == ':');
        assert(before_colon(before) =~= before);
    } else {
        assert(before[0] != ':');
        assert(text[0] == before[0]);
        let rest = before.drop_first();
        assert(!rest.contains(':')) by {
            if rest.contains(':') {
                let i = rest.index_of(':');
                assert(before[i + 1] == ':');
            }
        }
        colons_end_what_stands_before_them(rest, after);
        assert(text.drop_first() =~= rest + seq![':'] + after);
        assert(before =~= seq![before[0]] + rest);
    }
}

/// A text is a URL where it can be read as one, and its scheme is what its normal form
/// has before the first colon.
pub proof fn schemes_come_from_the_normal_form(
    text: Seq<char>,
    scheme: Seq<char>,
    rest: Seq<char>,
)
    requires
        url_parsed(text) == Ok::<Seq<char>, Seq<char>>(scheme + seq![':'] + rest),
        !scheme.contains(':'),
    ensures
        is_url(text),
        url_scheme(text) == scheme,
{
    colons_end_what_stands_before_them(scheme, rest);
}

/// Texts of results and of pairs are looked at as they are.
pub proof fn results_and_pairs_are_kept(text: String, pairs: Seq<(String, String)>)
    ensures
        result_view(Ok(text)) == Ok::<Seq<char>, Seq<char>>(text@),
        result_view(Err(text)) == Err::<Seq<char>, Seq<char>>(text@),
        pairs_view(pairs).len() == pairs.len(),
        forall|i: int|
            0 <= i < pairs.len() ==> #[trigger] pairs_view(pairs)[i] == (pairs[i].0@, pairs[i].1@),
{
}

} // verus!
