//! Breaking textual vertex data into its axis tokens.
//!
//! A point is written as three whitespace-separated numeric tokens,
//! `"x y z"`.  The structural half of the conversion — cutting the text at
//! every space and insisting on exactly three pieces — is verified here over
//! the byte form of the text.  Cutting the bytes at the space byte is the
//! same as cutting the text at the space character: in UTF-8 no longer
//! encoding ever contains that byte.  Reading each token as a number is
//! floating point and stays with the application; `point_from_parsed`
//! receives its outcome and settles which error, if any, the caller sees.

use crate::geometry::Point3;
use vstd::prelude::*;

verus! {

/// Why a piece of text cannot be converted to a point.
#[derive(Clone, Copy, Debug, PartialEq, Eq, Structural)]
pub enum PointParsingError {
    /// The text does not hold exactly three axis tokens.
    InvalidAxisNumber,
    /// An axis token is not a valid number.
    InvalidFloat,
}

/// The pieces of `s` between its space bytes, in order.  Every space byte
/// ends a piece, so consecutive spaces and spaces at the ends produce empty
/// pieces, and the empty text is one empty piece.
pub open spec fn split_spaces(s: Seq<u8>) -> Seq<Seq<u8>>
    decreases s.len(),
{
    if s.len() == 0 {
        seq![Seq::<u8>::empty()]
    } else if s[0] == 32 {
        seq![Seq::<u8>::empty()] + split_spaces(s.skip(1))
    } else {
        let rest = split_spaces(s.skip(1));
        seq![seq![s[0]] + rest[0]] + rest.skip(1)
    }
}

/// The views of a sequence of byte vectors.
pub open spec fn views_of(ts: Seq<Vec<u8>>) -> Seq<Seq<u8>> {
    ts.map_values(|t: Vec<u8>| t@)
}

/// Splitting never yields fewer than one piece.
pub proof fn lemma_split_spaces_nonempty(s: Seq<u8>)
    ensures
        split_spaces(s).len() >= 1,
{
}

proof fn lemma_views_push(ts: Seq<Vec<u8>>, v: Vec<u8>)
    ensures
        views_of(ts.push(v)) =~= views_of(ts).push(v@),
{
}

/// Splits `s` at each space byte and returns the three axis tokens, in
/// order, or the structural error when the count of pieces is not three.
pub fn axis_tokens(s: &[u8]) -> (r: Result<Vec<Vec<u8>>, PointParsingError>)
    ensures
        match r {
            Ok(t) => split_spaces(s@).len() == 3 && t@.len() == 3 && t@[0]@ == split_spaces(s@)[0]
                && t@[1]@ == split_spaces(s@)[1] && t@[2]@ == split_spaces(s@)[2],
            Err(e) => split_spaces(s@).len() != 3 && e == PointParsingError::InvalidAxisNumber,
        },
{
    let mut tokens: Vec<Vec<u8>> = Vec::new();
    let mut cur: Vec<u8> = Vec::new();
    let mut i: usize = 0;
    proof {
        lemma_split_spaces_nonempty(s@);
        assert(s@.skip(0) =~= s@);
        assert(Seq::<u8>::empty() + split_spaces(s@)[0] =~= split_spaces(s@)[0]);
        assert(split_spaces(s@) =~= seq![split_spaces(s@)[0]] + split_spaces(s@).skip(1));
        assert(views_of(tokens@) =~= Seq::<Seq<u8>>::empty());
    }
    while i < s.len()
        invariant
            i <= s.len(),
            split_spaces(s@) == views_of(tokens@) + seq![cur@ + split_spaces(s@.skip(i as int))[0]]
                + split_spaces(s@.skip(i as int)).skip(1),
        decreases s.len() - i,
    {
        let ghost tail = s@.skip(i as int);
        let ghost tail1 = s@.skip(i as int + 1);
        proof {
            assert(tail[0] == s@[i as int]);
            assert(tail.skip(1) =~= tail1);
            lemma_split_spaces_nonempty(tail1);
        }
        if s[i] == 32 {
            proof {
                // The current piece ends here: the head piece of the rest of
                // the split is empty, and the remaining pieces are those of
                // the text after the space.
                assert(split_spaces(tail) =~= seq![Seq::<u8>::empty()] + split_spaces(tail1));
                assert(cur@ + split_spaces(tail)[0] =~= cur@);
                assert(split_spaces(tail).skip(1) =~= split_spaces(tail1));
                lemma_views_push(tokens@, cur);
                assert(split_spaces(tail1) =~= seq![split_spaces(tail1)[0]] + split_spaces(
                    tail1,
                ).skip(1));
                assert(Seq::<u8>::empty() + split_spaces(tail1)[0] =~= split_spaces(tail1)[0]);
                assert(views_of(tokens@).push(cur@) + seq![split_spaces(tail1)[0]] + split_spaces(
                    tail1,
                ).skip(1) =~= views_of(tokens@) + seq![cur@] + split_spaces(tail1));
            }
            tokens.push(cur);
            cur = Vec::new();
        } else {
            proof {
                // The current piece grows by one byte: the head piece of the
                // rest of the split starts with exactly that byte.
                let rest = split_spaces(tail1);
                assert(split_spaces(tail) =~= seq![seq![tail[0]] + rest[0]] + rest.skip(1));
                assert(cur@ + split_spaces(tail)[0] =~= cur@.push(s@[i as int]) + rest[0]);
            }
            let c = s[i];
            cur.push(c);
        }
        i = i + 1;
    }
    proof {
        let ghost tail = s@.skip(i as int);
        assert(tail =~= Seq::<u8>::empty());
        assert(cur@ + split_spaces(tail)[0] =~= cur@);
        assert(split_spaces(tail).skip(1) =~= Seq::<Seq<u8>>::empty());
        lemma_views_push(tokens@, cur);
        assert(views_of(tokens@) + seq![cur@] + Seq::<Seq<u8>>::empty() =~= views_of(
            tokens@,
        ).push(cur@));
    }
    tokens.push(cur);
    if tokens.len() == 3 {
        Ok(tokens)
    } else {
        Err(PointParsingError::InvalidAxisNumber)
    }
}

/// Settles the numeric half of the conversion.  The application reads each
/// of the three axis tokens as a binary32 value; this function receives the
/// outcomes, as bit patterns where reading succeeded, and returns the point
/// exactly when all three tokens were numeric, and the numeric-format error
/// otherwise.
pub fn point_from_parsed(x: Option<u32>, y: Option<u32>, z: Option<u32>) -> (r: Result<
    Point3,
    PointParsingError,
>)
    ensures
        match r {
            Ok(p) => x is Some && y is Some && z is Some && p == (Point3 {
                x: x.unwrap(),
                y: y.unwrap(),
                z: z.unwrap(),
            }),
            Err(e) => (x is None || y is None || z is None) && e
                == PointParsingError::InvalidFloat,
        },
{
    match (x, y, z) {
        (Some(x), Some(y), Some(z)) => Ok(Point3 { x, y, z }),
        _ => Err(PointParsingError::InvalidFloat),
    }
}

} // verus!
