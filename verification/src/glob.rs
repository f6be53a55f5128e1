//! Topic glob matcher used by the live event and log streams.
//! `*` matches any run of bytes within one dot-separated segment
//! (including none, never a `.`), so `graph.*` matches one segment and
//! spanning more takes repeated `*` segments; `?` matches exactly one
//! byte, every other byte matches itself.

use vstd::prelude::*;
use vstd::string::StringSliceAdditionalSpecFns;

verus! {

/// Whether `pattern` matches the whole of `value`.
pub open spec fn glob(pattern: Seq<u8>, value: Seq<u8>) -> bool
    decreases pattern.len(), value.len(),
{
    if pattern.len() == 0 {
        value.len() == 0
    } else if pattern[0] == 42u8 {
        glob(pattern.drop_first(), value) || (value.len() > 0 && value[0] != 46u8 && glob(
            pattern,
            value.drop_first(),
        ))
    } else if pattern[0] == 63u8 {
        value.len() > 0 && glob(pattern.drop_first(), value.drop_first())
    } else {
        value.len() > 0 && value[0] == pattern[0] && glob(pattern.drop_first(), value.drop_first())
    }
}

/// A pattern holding neither `*` nor `?`.
pub open spec fn is_literal(pattern: Seq<u8>) -> bool {
    forall|i: int| 0 <= i < pattern.len() ==> pattern[i] != 42u8 && pattern[i] != 63u8
}

fn glob_from(p: &[u8], v: &[u8], pi: usize, vi: usize) -> (r: bool)
    requires
        pi <= p@.len(),
        vi <= v@.len(),
    ensures
        r == glob(p@.subrange(pi as int, p@.len() as int), v@.subrange(vi as int, v@.len() as int)),
    decreases p@.len() - pi, v@.len() - vi,
{
    let ghost ps = p@.subrange(pi as int, p@.len() as int);
    let ghost vs = v@.subrange(vi as int, v@.len() as int);
    if pi == p.len() {
        return vi == v.len();
    }
    assert(ps.drop_first() =~= p@.subrange(pi + 1, p@.len() as int));
    if vi < v.len() {
        assert(vs.drop_first() =~= v@.subrange(vi + 1, v@.len() as int));
    }
    let c = p[pi];
    if c == 42u8 {
        if glob_from(p, v, pi + 1, vi) {
            return true;
        }
        if vi == v.len() || v[vi] == 46u8 {
            return false;
        }
        glob_from(p, v, pi, vi + 1)
    } else if c == 63u8 {
        vi < v.len() && glob_from(p, v, pi + 1, vi + 1)
    } else {
        vi < v.len() && v[vi] == c && glob_from(p, v, pi + 1, vi + 1)
    }
}

/// Shell-style `*` / `?` match of a topic glob against a topic,
/// byte by byte over the UTF-8 encodings of both strings.
pub fn glob_match(pattern: &str, value: &str) -> (r: bool)
    ensures
        r == glob(pattern.spec_bytes(), value.spec_bytes()),
{
    let p = pattern.as_bytes();
    let v = value.as_bytes();
    assert(p@.subrange(0, p@.len() as int) =~= p@);
    assert(v@.subrange(0, v@.len() as int) =~= v@);
    glob_from(p, v, 0, 0)
}

/// The matcher under the name the log stream uses.
pub fn glob_match_pub(pattern: &str, value: &str) -> (r: bool)
    ensures
        r == glob(pattern.spec_bytes(), value.spec_bytes()),
{
    glob_match(pattern, value)
}

/// A value holding no `.`: a single topic segment.
pub open spec fn is_segment(value: Seq<u8>) -> bool {
    forall|i: int| 0 <= i < value.len() ==> value[i] != 46u8
}

/// A lone `*` matches exactly the values of one segment: it never
/// crosses a `.`.
pub proof fn lemma_star_matches_one_segment(value: Seq<u8>)
    ensures
        glob(seq![42u8], value) <==> is_segment(value),
    decreases value.len(),
{
    let star = seq![42u8];
    assert(star.len() == 1 && star[0] == 42u8);
    assert(star.drop_first() =~= Seq::<u8>::empty());
    if value.len() > 0 {
        lemma_star_matches_one_segment(value.drop_first());
        assert(!glob(star.drop_first(), value));
        if is_segment(value) {
            assert forall|i: int| 0 <= i < value.drop_first().len() implies value.drop_first()[i]
                != 46u8 by {
                assert(value.drop_first()[i] == value[i + 1]);
            }
        }
        if value[0] != 46u8 && is_segment(value.drop_first()) {
            assert forall|i: int| 0 <= i < value.len() implies value[i] != 46u8 by {
                if i > 0 {
                    assert(value[i] == value.drop_first()[i - 1]);
                }
            }
        }
    } else {
        assert(glob(star.drop_first(), value));
    }
}

/// A literal prefix followed by `*`, such as `graph.*`, matches exactly
/// the values that start with the prefix and continue with one segment.
pub proof fn lemma_prefix_star_matches_one_segment(prefix: Seq<u8>, value: Seq<u8>)
    requires
        is_literal(prefix),
    ensures
        glob(prefix + seq![42u8], value) <==> (prefix.len() <= value.len() && value.subrange(
            0,
            prefix.len() as int,
        ) == prefix && is_segment(value.subrange(prefix.len() as int, value.len() as int))),
    decreases prefix.len(),
{
    let pattern = prefix + seq![42u8];
    if prefix.len() == 0 {
        assert(pattern =~= seq![42u8]);
        assert(value.subrange(0, 0) =~= prefix);
        assert(value.subrange(0, value.len() as int) =~= value);
        lemma_star_matches_one_segment(value);
    } else {
        let rest = prefix.drop_first();
        assert(is_literal(rest));
        assert(pattern[0] == prefix[0]);
        assert(pattern.drop_first() =~= rest + seq![42u8]);
        if value.len() > 0 {
            let tail = value.drop_first();
            lemma_prefix_star_matches_one_segment(rest, tail);
            if prefix.len() <= value.len() {
                assert(tail.subrange(rest.len() as int, tail.len() as int) =~= value.subrange(
                    prefix.len() as int,
                    value.len() as int,
                ));
                if value.subrange(0, prefix.len() as int) == prefix {
                    assert(tail.subrange(0, rest.len() as int) =~= rest) by {
                        assert forall|i: int| 0 <= i < rest.len() implies tail.subrange(
                            0,
                            rest.len() as int,
                        )[i] == rest[i] by {
                            assert(value.subrange(0, prefix.len() as int)[i + 1] == prefix[i + 1]);
                        }
                    }
                    assert(value[0] == value.subrange(0, prefix.len() as int)[0]);
                }
                if value[0] == prefix[0] && tail.subrange(0, rest.len() as int) == rest {
                    assert(value.subrange(0, prefix.len() as int) =~= prefix) by {
                        assert forall|i: int| 0 <= i < prefix.len() implies value.subrange(
                            0,
                            prefix.len() as int,
                        )[i] == prefix[i] by {
                            if i > 0 {
                                assert(tail.subrange(0, rest.len() as int)[i - 1] == rest[i - 1]);
                            }
                        }
                    }
                }
            }
        }
    }
}

/// `*` followed by `rest` matches a segment followed by anything
/// `rest` matches.
proof fn lemma_star_then(rest: Seq<u8>, seg: Seq<u8>, tail: Seq<u8>)
    requires
        glob(rest, tail),
        is_segment(seg),
    ensures
        glob(seq![42u8] + rest, seg + tail),
    decreases seg.len(),
{
    let p = seq![42u8] + rest;
    assert(p[0] == 42u8);
    assert(p.drop_first() =~= rest);
    if seg.len() == 0 {
        assert(seg + tail =~= tail);
    } else {
        let v = seg + tail;
        assert(is_segment(seg.drop_first()));
        lemma_star_then(rest, seg.drop_first(), tail);
        assert(v.drop_first() =~= seg.drop_first() + tail);
        assert(v[0] == seg[0]);
    }
}

/// A `*` anywhere in a pattern stands for any one segment, however
/// long: when `before` matches `v1` and `after` matches `v2`, the
/// pattern `before * after` matches `v1`, then any run of bytes
/// without a `.`, then `v2`.
pub proof fn lemma_star_matches_any_segment(before: Seq<u8>, after: Seq<u8>, v1: Seq<u8>, seg: Seq<u8>, v2: Seq<u8>)
    requires
        glob(before, v1),
        glob(after, v2),
        is_segment(seg),
    ensures
        glob(before + seq![42u8] + after, v1 + seg + v2),
    decreases before.len(), v1.len(),
{
    let p = before + seq![42u8] + after;
    let v = v1 + seg + v2;
    if before.len() == 0 {
        assert(v1.len() == 0);
        assert(p =~= seq![42u8] + after);
        assert(v =~= seg + v2);
        lemma_star_then(after, seg, v2);
    } else {
        assert(p[0] == before[0]);
        assert(p.drop_first() =~= before.drop_first() + seq![42u8] + after);
        if before[0] == 42u8 {
            if glob(before.drop_first(), v1) {
                lemma_star_matches_any_segment(before.drop_first(), after, v1, seg, v2);
            } else {
                assert(v1.len() > 0 && v1[0] != 46u8 && glob(before, v1.drop_first()));
                lemma_star_matches_any_segment(before, after, v1.drop_first(), seg, v2);
                assert(v.drop_first() =~= v1.drop_first() + seg + v2);
                assert(v[0] == v1[0]);
            }
        } else {
            assert(v1.len() > 0);
            lemma_star_matches_any_segment(before.drop_first(), after, v1.drop_first(), seg, v2);
            assert(v.drop_first() =~= v1.drop_first() + seg + v2);
            assert(v[0] == v1[0]);
        }
    }
}

/// A `?` anywhere in a pattern stands for exactly one byte, whatever
/// it is: when `before` matches `v1` and `after` matches `v2`, the
/// pattern `before ? after` matches `v1`, any byte `b`, then `v2`.
pub proof fn lemma_question_matches_any_byte(before: Seq<u8>, after: Seq<u8>, v1: Seq<u8>, b: u8, v2: Seq<u8>)
    requires
        glob(before, v1),
        glob(after, v2),
    ensures
        glob(before + seq![63u8] + after, v1 + seq![b] + v2),
    decreases before.len(), v1.len(),
{
    let p = before + seq![63u8] + after;
    let v = v1 + seq![b] + v2;
    if before.len() == 0 {
        assert(v1.len() == 0);
        assert(p =~= seq![63u8] + after);
        assert(v =~= seq![b] + v2);
        assert(p.drop_first() =~= after);
        assert(v.drop_first() =~= v2);
    } else {
        assert(p[0] == before[0]);
        assert(p.drop_first() =~= before.drop_first() + seq![63u8] + after);
        if before[0] == 42u8 {
            if glob(before.drop_first(), v1) {
                lemma_question_matches_any_byte(before.drop_first(), after, v1, b, v2);
            } else {
                assert(v1.len() > 0 && v1[0] != 46u8 && glob(before, v1.drop_first()));
                lemma_question_matches_any_byte(before, after, v1.drop_first(), b, v2);
                assert(v.drop_first() =~= v1.drop_first() + seq![b] + v2);
                assert(v[0] == v1[0]);
            }
        } else {
            assert(v1.len() > 0);
            lemma_question_matches_any_byte(before.drop_first(), after, v1.drop_first(), b, v2);
            assert(v.drop_first() =~= v1.drop_first() + seq![b] + v2);
            assert(v[0] == v1[0]);
        }
    }
}

/// A pattern without wildcards matches exactly the value equal to it.
pub proof fn lemma_literal_matches_only_itself(pattern: Seq<u8>, value: Seq<u8>)
    requires
        is_literal(pattern),
    ensures
        glob(pattern, value) <==> pattern == value,
    decreases pattern.len(),
{
    if pattern.len() == 0 {
        if value.len() == 0 {
            assert(pattern =~= value);
        }
    } else {
        assert(is_literal(pattern.drop_first()));
        if value.len() > 0 {
            lemma_literal_matches_only_itself(pattern.drop_first(), value.drop_first());
            if pattern == value {
                assert(pattern.drop_first() =~= value.drop_first());
            }
            if value[0] == pattern[0] && pattern.drop_first() == value.drop_first() {
                assert forall|i: int| 0 <= i < pattern.len() implies pattern[i] == value[i] by {
                    if i > 0 {
                        assert(pattern[i] == pattern.drop_first()[i - 1]);
                        assert(value[i] == value.drop_first()[i - 1]);
                    }
                }
                assert(pattern =~= value);
            }
        }
    }
}

} // verus!
