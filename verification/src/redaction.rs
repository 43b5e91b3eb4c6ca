//! Secret redaction: replacing every occurrence of the configured secret in
//! command text by a fixed marker, before the text can reach any log sink.

use vstd::prelude::*;

verus! {

/// The fixed marker that stands in for the secret in redacted text: ten
/// asterisks.
pub open spec fn marker() -> Seq<char> {
    Seq::new(10, |i: int| '*')
}

/// The marker as an executable string.
pub fn redaction_marker() -> (r: String)
    ensures
        r@ == marker(),
{
    let r = String::from_str("**********");
    proof {
        reveal_strlit("**********");
        assert(r@ =~= marker());
    }
    r
}

/// `needle` occurs in `hay` starting at character position `i`.
pub open spec fn occurs_at(hay: Seq<char>, needle: Seq<char>, i: int) -> bool {
    0 <= i && i + needle.len() <= hay.len() && hay.subrange(i, i + needle.len()) == needle
}

/// `needle` occurs somewhere in `hay`.
pub open spec fn contains_seq(hay: Seq<char>, needle: Seq<char>) -> bool {
    exists|i: int| occurs_at(hay, needle, i)
}

/// Greedy left-to-right replacement of every occurrence of `pat` in `s` by
/// `m`, the way `replace` on string slices performs it. An empty `pat` leaves
/// `s` unchanged.
pub open spec fn replaced(s: Seq<char>, pat: Seq<char>, m: Seq<char>) -> Seq<char>
    decreases s.len(),
{
    if pat.len() == 0 || s.len() == 0 {
        s
    } else if s.len() >= pat.len() && s.take(pat.len() as int) == pat {
        m + replaced(s.skip(pat.len() as int), pat, m)
    } else {
        s.take(1) + replaced(s.skip(1), pat, m)
    }
}

/// A prefix of the replaced text that equals a suffix of `pat` — a pattern
/// free of the marker character — is a prefix that `s` itself begins with:
/// replacement can only have left it untouched.
proof fn lemma_replaced_prefix(s: Seq<char>, pat: Seq<char>, k: int)
    requires
        0 < pat.len(),
        forall|i: int| 0 <= i < pat.len() ==> pat[i] != '*',
        0 < k <= pat.len(),
        k <= replaced(s, pat, marker()).len(),
        replaced(s, pat, marker()).take(k) == pat.skip(pat.len() - k),
    ensures
        k <= s.len(),
        s.take(k) == pat.skip(pat.len() - k),
    decreases s.len(),
{
    let m = marker();
    let out = replaced(s, pat, m);
    let suffix = pat.skip(pat.len() - k);
    assert(forall|i: int| 0 <= i < k ==> out[i] == #[trigger] suffix[i]) by {
        assert(forall|i: int| 0 <= i < k ==> out[i] == #[trigger] out.take(k)[i]);
    }
    if s.len() == 0 {
        assert(out.len() == 0);
        assert(false);
    } else if s.len() >= pat.len() && s.take(pat.len() as int) == pat {
        assert(out[0] == m[0]);
        assert(out[0] == suffix[0]);
        assert(suffix[0] == pat[pat.len() - k]);
        assert(false);
    } else {
        let rest = replaced(s.skip(1), pat, m);
        assert(out[0] == s.take(1)[0]);
        assert(out[0] == suffix[0]);
        assert(suffix[0] == pat[pat.len() - k]);
        assert(s.take(1)[0] == s[0]);
        assert(s[0] == pat[pat.len() - k]);
        if k == 1 {
            assert(s.take(1) =~= suffix);
        } else {
            assert(k - 1 <= rest.len());
            assert(rest.take(k - 1) =~= pat.skip(pat.len() - (k - 1))) by {
                assert forall|i: int| 0 <= i < k - 1 implies #[trigger] rest.take(k - 1)[i] == pat.skip(
                    pat.len() - (k - 1),
                )[i] by {
                    assert(out[i + 1] == rest[i]);
                    assert(out[i + 1] == suffix[i + 1]);
                    assert(suffix[i + 1] == pat[pat.len() - k + i + 1]);
                }
            }
            lemma_replaced_prefix(s.skip(1), pat, k - 1);
            assert(s.take(k) =~= suffix) by {
                assert forall|i: int| 0 <= i < k implies #[trigger] s.take(k)[i] == suffix[i] by {
                    if i > 0 {
                        assert(s[i] == s.skip(1)[i - 1]);
                        assert(s.skip(1)[i - 1] == s.skip(1).take(k - 1)[i - 1]);
                        assert(pat.skip(pat.len() - (k - 1))[i - 1] == pat[pat.len() - k + i]);
                    }
                }
            }
        }
    }
}

/// After replacement, a secret that is non-empty and free of the marker
/// character occurs nowhere in the text: every occurrence was consumed and
/// no new one can straddle a marker.
pub proof fn lemma_redaction_removes_secret(s: Seq<char>, pat: Seq<char>)
    requires
        0 < pat.len(),
        forall|i: int| 0 <= i < pat.len() ==> pat[i] != '*',
    ensures
        !contains_seq(replaced(s, pat, marker()), pat),
    decreases s.len(),
{
    let m = marker();
    let out = replaced(s, pat, m);
    if contains_seq(out, pat) {
        let j = choose|j: int| occurs_at(out, pat, j);
        assert(forall|i: int| 0 <= i < pat.len() ==> out[j + i] == #[trigger] pat[i]) by {
            assert(forall|i: int|
                0 <= i < pat.len() ==> #[trigger] out.subrange(j, j + pat.len())[i] == out[j + i]);
        }
        if s.len() == 0 {
            assert(out.len() == 0);
            assert(false);
        } else if s.len() >= pat.len() && s.take(pat.len() as int) == pat {
            lemma_redaction_removes_secret(s.skip(pat.len() as int), pat);
            let rest = replaced(s.skip(pat.len() as int), pat, m);
            if j < m.len() {
                assert(out[j] == m[j]);
                assert(out[j] == pat[0]);
                assert(false);
            } else {
                assert(occurs_at(rest, pat, j - m.len())) by {
                    assert(rest.subrange(j - m.len(), j - m.len() + pat.len()) =~= pat) by {
                        assert forall|i: int| 0 <= i < pat.len() implies #[trigger] rest.subrange(
                            j - m.len(),
                            j - m.len() + pat.len(),
                        )[i] == pat[i] by {
                            assert(out[j + i] == rest[j - m.len() + i]);
                        }
                    }
                }
                assert(false);
            }
        } else {
            lemma_redaction_removes_secret(s.skip(1), pat);
            let rest = replaced(s.skip(1), pat, m);
            if j >= 1 {
                assert(occurs_at(rest, pat, j - 1)) by {
                    assert(rest.subrange(j - 1, j - 1 + pat.len()) =~= pat) by {
                        assert forall|i: int| 0 <= i < pat.len() implies #[trigger] rest.subrange(
                            j - 1,
                            j - 1 + pat.len(),
                        )[i] == pat[i] by {
                            assert(out[j + i] == rest[j - 1 + i]);
                        }
                    }
                }
                assert(false);
            } else {
                assert(out[0] == s.take(1)[0]);
                assert(s[0] == pat[0]);
                if pat.len() == 1 {
                    assert(s.take(1) =~= pat);
                    assert(false);
                } else {
                    assert(pat.len() - 1 <= rest.len());
                    assert(rest.take(pat.len() - 1) =~= pat.skip(1)) by {
                        assert forall|i: int| 0 <= i < pat.len() - 1 implies #[trigger] rest.take(
                            pat.len() - 1,
                        )[i] == pat.skip(1)[i] by {
                            assert(out[i + 1] == rest[i]);
                            assert(out[i + 1] == pat[i + 1]);
                        }
                    }
                    lemma_replaced_prefix(s.skip(1), pat, pat.len() - 1);
                    assert(s.len() >= pat.len());
                    assert(s.take(pat.len() as int) =~= pat) by {
                        assert forall|i: int| 0 <= i < pat.len() implies #[trigger] s.take(pat.len() as int)[i]
                            == pat[i] by {
                            if i > 0 {
                                assert(s[i] == s.skip(1)[i - 1]);
                                assert(s.skip(1)[i - 1] == s.skip(1).take(pat.len() - 1)[i - 1]);
                                assert(pat.skip(1)[i - 1] == pat[i]);
                            }
                        }
                    }
                    assert(false);
                }
            }
        }
    }
}

/// Wherever the secret occurred in the text, the replaced text carries the
/// marker.
pub proof fn lemma_redaction_leaves_marker(s: Seq<char>, pat: Seq<char>)
    requires
        0 < pat.len(),
        contains_seq(s, pat),
    ensures
        contains_seq(replaced(s, pat, marker()), marker()),
    decreases s.len(),
{
    let m = marker();
    let out = replaced(s, pat, m);
    let j = choose|j: int| occurs_at(s, pat, j);
    assert(forall|i: int| 0 <= i < pat.len() ==> s[j + i] == #[trigger] pat[i]) by {
        assert(forall|i: int|
            0 <= i < pat.len() ==> #[trigger] s.subrange(j, j + pat.len())[i] == s[j + i]);
    }
    if s.len() == 0 {
        assert(false);
    } else if s.len() >= pat.len() && s.take(pat.len() as int) == pat {
        assert(occurs_at(out, m, 0)) by {
            assert(out.subrange(0, m.len() as int) =~= m);
        }
    } else {
        if j == 0 {
            assert(s.len() >= pat.len());
            assert(s.take(pat.len() as int) =~= pat) by {
                assert(forall|i: int|
                    0 <= i < pat.len() ==> #[trigger] s.take(pat.len() as int)[i] == s[i]);
            }
            assert(false);
        }
        assert(occurs_at(s.skip(1), pat, j - 1)) by {
            assert(s.skip(1).subrange(j - 1, j - 1 + pat.len()) =~= pat) by {
                assert forall|i: int| 0 <= i < pat.len() implies #[trigger] s.skip(1).subrange(
                    j - 1,
                    j - 1 + pat.len(),
                )[i] == pat[i] by {
                    assert(s.skip(1)[j - 1 + i] == s[j + i]);
                }
            }
        }
        lemma_redaction_leaves_marker(s.skip(1), pat);
        let rest = replaced(s.skip(1), pat, m);
        let k = choose|k: int| occurs_at(rest, m, k);
        assert(occurs_at(out, m, k + 1)) by {
            assert(out.subrange(k + 1, k + 1 + m.len()) =~= m) by {
                assert forall|i: int| 0 <= i < m.len() implies #[trigger] out.subrange(
                    k + 1,
                    k + 1 + m.len(),
                )[i] == m[i] by {
                    assert(out[k + 1 + i] == rest[k + i]);
                    assert(rest.subrange(k, k + m.len())[i] == rest[k + i]);
                }
            }
        }
    }
}

/// Does `pat` occur in `s` at character position `i`? Lengths are passed in
/// so the linear-time counts happen once in the caller.
fn matches_at(s: &str, pat: &str, i: usize, n: usize, p: usize) -> (r: bool)
    requires
        n == s@.len(),
        p == pat@.len(),
        i + p <= n,
    ensures
        r == (s@.subrange(i as int, i + p) == pat@),
{
    let mut j: usize = 0;
    while j < p
        invariant
            n == s@.len(),
            p == pat@.len(),
            i + p <= n,
            0 <= j <= p,
            forall|k: int| 0 <= k < j ==> s@.index(i + k) == pat@.index(k),
        decreases p - j,
    {
        if s.get_char(i + j) != pat.get_char(j) {
            proof {
                assert(s@.subrange(i as int, i + p).index(j as int) == s@.index(i + j));
            }
            return false;
        }
        j += 1;
    }
    proof {
        assert(s@.subrange(i as int, i + p) =~= pat@);
    }
    true
}

/// Replaces every occurrence of `secret` in `text` by the redaction marker,
/// scanning left to right. An empty secret leaves the text unchanged.
pub fn redact(text: &str, secret: &str) -> (r: String)
    ensures
        r@ == replaced(text@, secret@, marker()),
{
    let n = text.unicode_len();
    let p = secret.unicode_len();
    if p == 0 {
        return String::from_str(text);
    }
    let marker_string = redaction_marker();
    let mut out = String::new();
    let mut i: usize = 0;
    proof {
        assert(text@.skip(0) =~= text@);
        assert(out@ + replaced(text@, secret@, marker()) =~= replaced(text@, secret@, marker()));
    }
    while i < n
        invariant
            n == text@.len(),
            p == secret@.len(),
            p > 0,
            0 <= i <= n,
            marker_string@ == marker(),
            replaced(text@, secret@, marker()) == out@ + replaced(
                text@.skip(i as int),
                secret@,
                marker(),
            ),
        decreases n - i,
    {
        let ghost tail = text@.skip(i as int);
        let ghost out_prev = out@;
        if p <= n - i && matches_at(text, secret, i, n, p) {
            out.append(marker_string.as_str());
            proof {
                assert(tail.take(p as int) =~= text@.subrange(i as int, i + p));
                assert(tail.skip(p as int) =~= text@.skip(i + p));
                assert(replaced(tail, secret@, marker()) == marker() + replaced(
                    text@.skip(i + p),
                    secret@,
                    marker(),
                ));
                assert(out_prev + (marker() + replaced(text@.skip(i + p), secret@, marker())) =~= (
                out_prev + marker()) + replaced(text@.skip(i + p), secret@, marker()));
            }
            i += p;
        } else {
            let piece = text.substring_char(i, i + 1);
            out.append(piece);
            proof {
                if p <= n - i {
                    assert(tail.take(p as int) =~= text@.subrange(i as int, i + p));
                }
                assert(tail.take(1) =~= text@.subrange(i as int, i + 1));
                assert(tail.skip(1) =~= text@.skip(i + 1));
                assert(replaced(tail, secret@, marker()) == tail.take(1) + replaced(
                    text@.skip(i + 1),
                    secret@,
                    marker(),
                ));
                assert(out_prev + (tail.take(1) + replaced(text@.skip(i + 1), secret@, marker()))
                    =~= (out_prev + tail.take(1)) + replaced(text@.skip(i + 1), secret@, marker()));
                assert(piece@ == tail.take(1));
            }
            i += 1;
        }
    }
    proof {
        assert(text@.skip(n as int) =~= Seq::<char>::empty());
        assert(replaced(text@.skip(n as int), secret@, marker()) =~= Seq::<char>::empty());
    }
    out
}

} // verus!
