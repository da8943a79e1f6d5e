//! The XML text escaper.
//!
//! Element content must not hold a literal `&`, `<`, `>`, `"` or `'`; the
//! escaper replaces each of the five with its entity in one left-to-right
//! pass, so that an ampersand written by a replacement is never re-escaped.

use vstd::prelude::*;
use vstd::string::StrSliceExecFns;
use vstd::string::StringExecFns;
use crate::text::push_char;

verus! {

pub open spec fn amp_entity() -> Seq<char> {
    seq!['&', 'a', 'm', 'p', ';']
}

pub open spec fn lt_entity() -> Seq<char> {
    seq!['&', 'l', 't', ';']
}

pub open spec fn gt_entity() -> Seq<char> {
    seq!['&', 'g', 't', ';']
}

pub open spec fn quot_entity() -> Seq<char> {
    seq!['&', 'q', 'u', 'o', 't', ';']
}

pub open spec fn apos_entity() -> Seq<char> {
    seq!['&', 'a', 'p', 'o', 's', ';']
}

/// What one character of the input becomes in the escaped output.
pub open spec fn escape_char(c: char) -> Seq<char> {
    if c == '&' {
        amp_entity()
    } else if c == '<' {
        lt_entity()
    } else if c == '>' {
        gt_entity()
    } else if c == '"' {
        quot_entity()
    } else if c == '\'' {
        apos_entity()
    } else {
        seq![c]
    }
}

/// The escaped form of a whole text: each character replaced independently,
/// in order.
pub open spec fn spec_escape(s: Seq<char>) -> Seq<char>
    decreases s.len(),
{
    if s.len() == 0 {
        Seq::empty()
    } else {
        spec_escape(s.drop_last()) + escape_char(s.last())
    }
}

/// The entity `e` stands whole at position `i` of the text.
pub open spec fn entity_at(t: Seq<char>, i: int, e: Seq<char>) -> bool {
    0 <= i && i + e.len() <= t.len() && t.subrange(i, i + e.len() as int) == e
}

/// One of the five produced entities begins at position `i`.
pub open spec fn starts_entity(t: Seq<char>, i: int) -> bool {
    ||| entity_at(t, i, amp_entity())
    ||| entity_at(t, i, lt_entity())
    ||| entity_at(t, i, gt_entity())
    ||| entity_at(t, i, quot_entity())
    ||| entity_at(t, i, apos_entity())
}

/// Escaping correctness: for any text, the escaped output holds no literal
/// `<`, `>`, `"` or `'`, and every ampersand in it begins one of the five
/// produced entities — nothing is under-escaped, and no entity written by a
/// replacement is escaped again.
pub proof fn lemma_escape_safe(s: Seq<char>)
    ensures
        forall|i: int|
            0 <= i < spec_escape(s).len() ==> #[trigger] spec_escape(s)[i] != '<' && spec_escape(
                s,
            )[i] != '>' && spec_escape(s)[i] != '"' && spec_escape(s)[i] != '\'',
        forall|i: int|
            0 <= i < spec_escape(s).len() && #[trigger] spec_escape(s)[i] == '&' ==> starts_entity(
                spec_escape(s),
                i,
            ),
    decreases s.len(),
{
    if s.len() == 0 {
    } else {
        let p = spec_escape(s.drop_last());
        let e = escape_char(s.last());
        let t = spec_escape(s);
        lemma_escape_safe(s.drop_last());
        assert(t == p + e);
        assert forall|i: int|
            0 <= i < t.len() implies #[trigger] t[i] != '<' && t[i] != '>' && t[i] != '"' && t[i]
            != '\'' by {
            if i < p.len() {
                assert(t[i] == p[i]);
            } else {
                assert(t[i] == e[i - p.len()]);
            }
        }
        assert forall|i: int| 0 <= i < t.len() && #[trigger] t[i] == '&' implies starts_entity(
            t,
            i,
        ) by {
            if i < p.len() {
                assert(p[i] == '&');
                assert(starts_entity(p, i));
                if entity_at(p, i, amp_entity()) {
                    assert(t.subrange(i, i + 5) =~= p.subrange(i, i + 5));
                } else if entity_at(p, i, lt_entity()) {
                    assert(t.subrange(i, i + 4) =~= p.subrange(i, i + 4));
                } else if entity_at(p, i, gt_entity()) {
                    assert(t.subrange(i, i + 4) =~= p.subrange(i, i + 4));
                } else if entity_at(p, i, quot_entity()) {
                    assert(t.subrange(i, i + 6) =~= p.subrange(i, i + 6));
                } else {
                    assert(t.subrange(i, i + 6) =~= p.subrange(i, i + 6));
                }
            } else {
                let j = i - p.len();
                assert(t[i] == e[j]);
                let c = s.last();
                if c == '&' {
                    assert(j == 0);
                    assert(t.subrange(i, i + 5) =~= amp_entity());
                } else if c == '<' {
                    assert(j == 0);
                    assert(t.subrange(i, i + 4) =~= lt_entity());
                } else if c == '>' {
                    assert(j == 0);
                    assert(t.subrange(i, i + 4) =~= gt_entity());
                } else if c == '"' {
                    assert(j == 0);
                    assert(t.subrange(i, i + 6) =~= quot_entity());
                } else if c == '\'' {
                    assert(j == 0);
                    assert(t.subrange(i, i + 6) =~= apos_entity());
                } else {
                    assert(e[j] == c);
                    assert(false);
                }
            }
        }
    }
}

/// Escapes text for insertion into XML element content.
pub fn escape_xml(input: &str) -> (r: String)
    ensures
        r@ == spec_escape(input@),
{
    let n = input.unicode_len();
    let mut out = String::new();
    let mut i: usize = 0;
    while i < n
        invariant
            i <= n,
            n == input@.len(),
            out@ == spec_escape(input@.take(i as int)),
        decreases n - i,
    {
        let c = input.get_char(i);
        if c == '&' {
            out.append("&amp;");
            proof {
                reveal_strlit("&amp;");
                assert("&amp;"@ =~= amp_entity());
            }
        } else if c == '<' {
            out.append("&lt;");
            proof {
                reveal_strlit("&lt;");
                assert("&lt;"@ =~= lt_entity());
            }
        } else if c == '>' {
            out.append("&gt;");
            proof {
                reveal_strlit("&gt;");
                assert("&gt;"@ =~= gt_entity());
            }
        } else if c == '"' {
            out.append("&quot;");
            proof {
                reveal_strlit("&quot;");
                assert("&quot;"@ =~= quot_entity());
            }
        } else if c == '\'' {
            out.append("&apos;");
            proof {
                reveal_strlit("&apos;");
                assert("&apos;"@ =~= apos_entity());
            }
        } else {
            push_char(&mut out, c);
            proof {
                assert(out@ =~= spec_escape(input@.take(i as int)) + escape_char(c));
            }
        }
        proof {
            let pre = input@.take(i as int);
            let post = input@.take(i as int + 1);
            assert(post.drop_last() =~= pre);
            assert(post.last() == c);
            assert(out@ == spec_escape(post));
        }
        i = i + 1;
    }
    proof {
        assert(input@.take(n as int) =~= input@);
    }
    out
}

} // verus!
