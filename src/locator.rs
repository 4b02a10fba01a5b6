use vstd::prelude::*;

verus! {

/// What `urlencoding::decode` makes of a text: the decoded text, or the message of
/// the UTF-8 error that the decoded bytes raise.
pub uninterp spec fn percent_decoded(s: Seq<char>) -> Result<Seq<char>, Seq<char>>;

/// Relies on `urlencoding::decode`: its result depends on the text alone, and a text
/// without `%` comes back unchanged.
#[verifier::external_body]
pub(crate) fn decode_segment(s: &str) -> (r: Result<String, String>)
    ensures
        r is Ok ==> percent_decoded(s@) == Ok::<Seq<char>, Seq<char>>(r->Ok_0@),
        r is Err ==> percent_decoded(s@) == Err::<Seq<char>, Seq<char>>(r->Err_0@),
        !s@.contains('%') ==> r is Ok && r->Ok_0@ == s@,
{
    match urlencoding::decode(s) {
        Ok(d) => Ok(d.into_owned()),
        Err(e) => Err(e.to_string()),
    }
}

/// The internal path of a bundle entry: each segment decoded and put after a `/`,
/// in order; the message of the first segment that does not decode otherwise.
pub open spec fn decoded_path(segments: Seq<Seq<char>>) -> Result<Seq<char>, Seq<char>>
    decreases segments.len(),
{
    if segments.len() == 0 {
        Ok(Seq::empty())
    } else {
        match decoded_path(segments.drop_last()) {
            Err(m) => Err(m),
            Ok(p) => match percent_decoded(segments.last()) {
                Err(m) => Err(m),
                Ok(d) => Ok(p + seq!['/'] + d),
            },
        }
    }
}

/// The views of a list of strings.
pub open spec fn views(v: Seq<String>) -> Seq<Seq<char>> {
    v.map_values(|s: String| s@)
}

/// Builds the internal path of a bundle entry from the URL's path segments, each
/// percent-decoded on its own so that an encoded `/` stays inside its segment.
pub fn decode_path_segments(segments: &Vec<String>) -> (r: Result<String, String>)
    ensures
        match r {
            Ok(p) => decoded_path(views(segments@)) == Ok::<Seq<char>, Seq<char>>(p@),
            Err(m) => decoded_path(views(segments@)) == Err::<Seq<char>, Seq<char>>(m@),
        },
{
    let mut path = String::new();
    let mut i: usize = 0;
    while i < segments.len()
        invariant
            i <= segments.len(),
            decoded_path(views(segments@.take(i as int))) == Ok::<Seq<char>, Seq<char>>(path@),
        decreases segments.len() - i,
    {
        let ghost prefix = views(segments@.take(i as int + 1));
        let ghost before = path@;
        assert(prefix.drop_last() =~= views(segments@.take(i as int)));
        assert(prefix.last() == segments@[i as int]@);
        match decode_segment(segments[i].as_str()) {
            Ok(d) => {
                proof {
                    reveal_strlit("/");
                }
                path.append("/");
                path.append(d.as_str());
                assert("/"@ =~= seq!['/']);
                assert(path@ =~= before + seq!['/'] + d@);
                assert(decoded_path(prefix) == Ok::<Seq<char>, Seq<char>>(path@));
            },
            Err(m) => {
                assert(views(segments@).take(i as int + 1) =~= prefix);
                proof { lemma_failure_carries(views(segments@), i as int + 1); }
                return Err(m);
            },
        }
        i = i + 1;
        assert(views(segments@.take(i as int)) == prefix);
    }
    assert(segments@.take(i as int) =~= segments@);
    Ok(path)
}

/// Once a prefix of the segments fails to decode, the whole list fails with the same
/// message.
proof fn lemma_failure_carries(segments: Seq<Seq<char>>, n: int)
    requires
        0 <= n <= segments.len(),
        decoded_path(segments.take(n)) is Err,
    ensures
        decoded_path(segments) == decoded_path(segments.take(n)),
    decreases segments.len() - n,
{
    if n < segments.len() {
        let next = segments.take(n + 1);
        assert(next.drop_last() =~= segments.take(n));
        lemma_failure_carries(segments, n + 1);
    } else {
        assert(segments.take(n) =~= segments);
    }
}

} // verus!
