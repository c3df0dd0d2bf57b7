//! Query strings in the `application/x-www-form-urlencoded` format.

use crate::text::joined;
use url::form_urlencoded::Serializer;
use vstd::prelude::*;

verus! {

/// What the form-urlencoded byte serializer of the `url` crate makes of the
/// UTF-8 bytes of a text: letters, digits and `*-._` stay, a space becomes
/// `+`, and every other byte becomes `%` and two hexadecimal digits.
pub uninterp spec fn urlencoded(text: Seq<char>) -> Seq<char>;

/// One name and its value as they stand in a query string.
pub open spec fn pair_of(name: Seq<char>, value: Seq<char>) -> Seq<char> {
    urlencoded(name) + seq!['='] + urlencoded(value)
}

/// The query string of a sequence of names and values: `name=value` for each
/// of them in order, with `&` between each two neighbours.
pub open spec fn query_of(pairs: Seq<(Seq<char>, Seq<char>)>) -> Seq<char> {
    joined(pairs.map_values(|pair: (Seq<char>, Seq<char>)| pair_of(pair.0, pair.1)), seq!['&'])
}

/// The views of a sequence of names and values.
pub open spec fn pair_views(pairs: Seq<(String, String)>) -> Seq<(Seq<char>, Seq<char>)> {
    pairs.map_values(|pair: (String, String)| (pair.0@, pair.1@))
}

/// Serializes names and values with `url::form_urlencoded::Serializer`,
/// started on an empty string, through `extend_pairs` and `finish`.
///
/// The serializer appends the pairs in order. Before each pair it writes `&`
/// unless the string is still empty; then it writes the encoded name, `=`,
/// and the encoded value. As no pair is written as the empty string, this is
/// the pairs joined by `&`. The contract states that, and leaves what the
/// encoding of a single name or value is to [`urlencoded`].
#[verifier::external_body]
fn serialize_pairs(pairs: &Vec<(String, String)>) -> (query: String)
    ensures
        query@ == joined(
            pair_views(pairs@).map_values(
                |pair: (Seq<char>, Seq<char>)| urlencoded(pair.0) + seq!['='] + urlencoded(pair.1),
            ),
            seq!['&'],
        ),
{
    Serializer::new(String::new()).extend_pairs(pairs.iter()).finish()
}

/// The query string of a list of names and values.
pub fn form_urlencode(pairs: &Vec<(String, String)>) -> (query: String)
    ensures
        query@ == query_of(pair_views(pairs@)),
{
    let query = serialize_pairs(pairs);
    proof {
        let views = pair_views(pairs@);
        assert(views.map_values(
            |pair: (Seq<char>, Seq<char>)| urlencoded(pair.0) + seq!['='] + urlencoded(pair.1),
        ) =~= views.map_values(|pair: (Seq<char>, Seq<char>)| pair_of(pair.0, pair.1)));
    }
    query
}

/// A query string without pairs is empty, and one pair stands alone, without
/// a separator.
pub proof fn lemma_query_of_small(name: Seq<char>, value: Seq<char>)
    ensures
        query_of(Seq::empty()) == Seq::<char>::empty(),
        query_of(seq![(name, value)]) == pair_of(name, value),
{
}

/// Adding a pair to a query string that has one already appends `&` and the
/// pair.
pub proof fn lemma_query_of_push(pairs: Seq<(Seq<char>, Seq<char>)>, name: Seq<char>, value: Seq<char>)
    requires
        pairs.len() > 0,
    ensures
        query_of(pairs.push((name, value))) == query_of(pairs) + seq!['&'] + pair_of(name, value),
{
    let encode = |pair: (Seq<char>, Seq<char>)| pair_of(pair.0, pair.1);
    let more = pairs.push((name, value));
    assert(more.map_values(encode).drop_last() =~= pairs.map_values(encode));
}

} // verus!
