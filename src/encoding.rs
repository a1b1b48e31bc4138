//! Form encoding (`application/x-www-form-urlencoded`) of ordered field sets.
use vstd::prelude::*;

verus! {

/// What `form_urlencoded::byte_serialize` makes of the UTF-8 bytes of `s`.
pub uninterp spec fn form_encoded(s: Seq<char>) -> Seq<char>;

/// The characters that form encoding leaves as they are.
pub open spec fn is_unreserved_char(c: char) -> bool {
    ('a' <= c && c <= 'z') || ('A' <= c && c <= 'Z') || ('0' <= c && c <= '9') || c == '*'
        || c == '-' || c == '.' || c == '_'
}

pub open spec fn is_unreserved(s: Seq<char>) -> bool {
    forall|i: int| 0 <= i < s.len() ==> is_unreserved_char(#[trigger] s[i])
}

/// The encoded form of one name or value: a string made only of unreserved
/// characters is copied unchanged.
pub open spec fn form_component(s: Seq<char>) -> Seq<char> {
    if is_unreserved(s) {
        s
    } else {
        form_encoded(s)
    }
}

/// One `name=value` entry.
pub open spec fn entry_of(pair: (Seq<char>, Seq<char>)) -> Seq<char> {
    form_component(pair.0) + seq!['='] + form_component(pair.1)
}

/// The encoded body of a sequence of fields, in the order given, joined by `&`.
pub open spec fn query_of(pairs: Seq<(Seq<char>, Seq<char>)>) -> Seq<char>
    decreases pairs.len(),
{
    if pairs.len() == 0 {
        seq![]
    } else if pairs.len() == 1 {
        entry_of(pairs[0])
    } else {
        query_of(pairs.drop_last()) + seq!['&'] + entry_of(pairs.last())
    }
}

/// Strict lexicographic order of character sequences: a proper prefix comes
/// first, otherwise the first differing character decides.
pub open spec fn lex_lt(a: Seq<char>, b: Seq<char>) -> bool
    decreases a.len(),
{
    if b.len() == 0 {
        false
    } else if a.len() == 0 {
        true
    } else if a[0] != b[0] {
        a[0] < b[0]
    } else {
        lex_lt(a.drop_first(), b.drop_first())
    }
}

/// The field names stand in strictly ascending lexicographic order, so that no
/// name occurs twice.
pub open spec fn keys_ascending(pairs: Seq<(Seq<char>, Seq<char>)>) -> bool {
    forall|i: int, j: int| 0 <= i < j < pairs.len() ==> lex_lt(pairs[i].0, pairs[j].0)
}

/// The field set after `name` is given `value`: an entry of that name is
/// replaced, otherwise the entry is put before the first greater name.
pub open spec fn set_field(
    pairs: Seq<(Seq<char>, Seq<char>)>,
    name: Seq<char>,
    value: Seq<char>,
) -> Seq<(Seq<char>, Seq<char>)>
    decreases pairs.len(),
{
    if pairs.len() == 0 {
        seq![(name, value)]
    } else if pairs[0].0 == name {
        seq![(name, value)] + pairs.drop_first()
    } else if lex_lt(name, pairs[0].0) {
        seq![(name, value)] + pairs
    } else {
        seq![pairs[0]] + set_field(pairs.drop_first(), name, value)
    }
}

/// Lexicographic order is asymmetric, hence irreflexive.
pub proof fn lemma_lex_lt_asymmetric(a: Seq<char>, b: Seq<char>)
    requires
        lex_lt(a, b),
    ensures
        !lex_lt(b, a),
        a != b,
    decreases a.len(),
{
    if a.len() > 0 && b.len() > 0 && a[0] == b[0] {
        lemma_lex_lt_asymmetric(a.drop_first(), b.drop_first());
        assert(a != b) by {
            if a == b {
                assert(a.drop_first() == b.drop_first());
            }
        }
    }
}

/// The decimal digit for `d < 10`.
pub open spec fn digit_char(d: nat) -> char {
    seq!['0', '1', '2', '3', '4', '5', '6', '7', '8', '9'][d as int]
}

/// The decimal notation of `n`, without sign or leading zeros.
pub open spec fn decimal_of(n: nat) -> Seq<char>
    decreases n,
{
    if n < 10 {
        seq![digit_char(n)]
    } else {
        decimal_of(n / 10).push(digit_char(n % 10))
    }
}

/// Relies on `form_urlencoded::Serializer::append_pair`: a `&` when the text
/// is not empty, then the encoded name, `=`, the encoded value; a byte among
/// `[0-9A-Za-z*-._]` is written as it is.
#[verifier::external_body]
fn append_pair(out: &mut String, name: &str, value: &str)
    ensures
        final(out)@ == old(out)@ + (if old(out)@.len() == 0 {
            Seq::<char>::empty()
        } else {
            seq!['&']
        }) + (if is_unreserved(name@) {
            name@
        } else {
            form_encoded(name@)
        }) + seq!['='] + (if is_unreserved(value@) {
            value@
        } else {
            form_encoded(value@)
        }),
{
    let mut serializer = url::form_urlencoded::Serializer::new(std::mem::take(out));
    serializer.append_pair(name, value);
    *out = serializer.finish();
}

/// Relies on the `Display` impl of `u64` through `to_string`: decimal notation.
#[verifier::external_body]
pub(crate) fn decimal(n: u64) -> (r: String)
    ensures
        r@ == decimal_of(n as nat),
{
    n.to_string()
}

/// The view of a field set: names and values as character sequences.
pub open spec fn pairs_view(pairs: Seq<(&str, String)>) -> Seq<(Seq<char>, Seq<char>)> {
    pairs.map_values(|p: (&str, String)| (p.0@, p.1@))
}

/// Appends one field.
pub(crate) fn push_field(v: &mut Vec<(&'static str, String)>, name: &'static str, value: String)
    ensures
        pairs_view(final(v)@) == pairs_view(old(v)@).push((name@, value@)),
{
    let ghost before = v@;
    v.push((name, value));
    assert(pairs_view(v@) =~= pairs_view(before).push((name@, value@)));
}

/// Encodes the fields in the order given.
pub fn encode_query(pairs: &Vec<(&str, String)>) -> (r: String)
    ensures
        r@ == query_of(pairs_view(pairs@)),
{
    let mut out = String::new();
    let mut i: usize = 0;
    while i < pairs.len()
        invariant
            0 <= i <= pairs.len(),
            out@ == query_of(pairs_view(pairs@.subrange(0, i as int))),
        decreases pairs.len() - i,
    {
        let ghost before = pairs_view(pairs@.subrange(0, i as int));
        let ghost after = pairs_view(pairs@.subrange(0, i as int + 1));
        assert(after.drop_last() =~= before);
        append_pair(&mut out, pairs[i].0, &pairs[i].1);
        assert(before.len() > 0 ==> query_of(before).len() > 0);
        i = i + 1;
    }
    assert(pairs@.subrange(0, pairs.len() as int) =~= pairs@);
    out
}

} // verus!
