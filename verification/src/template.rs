//! Filling a C++ template that is written as a Rust format string with the named arguments
//! `{name}` and `{col_count}` (the form of the list model's constructor lambdas).

use vstd::prelude::*;
use vstd::string::*;
use crate::text::push_char;

verus! {

/// Whether `pat` occurs in `t` at position `i`.
pub open spec fn occurs_at(t: Seq<char>, i: int, pat: Seq<char>) -> bool {
    0 <= i && i + pat.len() <= t.len() && t.subrange(i, i + pat.len()) == pat
}

pub open spec fn open2() -> Seq<char> {
    seq!['{', '{']
}

pub open spec fn close2() -> Seq<char> {
    seq!['}', '}']
}

pub open spec fn name_arg() -> Seq<char> {
    seq!['{', 'n', 'a', 'm', 'e', '}']
}

pub open spec fn col_count_arg() -> Seq<char> {
    seq!['{', 'c', 'o', 'l', '_', 'c', 'o', 'u', 'n', 't', '}']
}

/// The template from position `i` on, with `{{` and `}}` written as single braces, `{name}`
/// replaced by `name` and `{col_count}` by `count`; other characters are kept.
pub open spec fn fill_from(t: Seq<char>, i: int, name: Seq<char>, count: Seq<char>) -> Seq<char>
    decreases t.len() - i,
{
    if i < 0 || i >= t.len() {
        Seq::empty()
    } else if occurs_at(t, i, open2()) {
        seq!['{'] + fill_from(t, i + 2, name, count)
    } else if occurs_at(t, i, close2()) {
        seq!['}'] + fill_from(t, i + 2, name, count)
    } else if occurs_at(t, i, name_arg()) {
        name + fill_from(t, i + 6, name, count)
    } else if occurs_at(t, i, col_count_arg()) {
        count + fill_from(t, i + 11, name, count)
    } else {
        seq![t[i]] + fill_from(t, i + 1, name, count)
    }
}

pub open spec fn fill_template(t: Seq<char>, name: Seq<char>, count: Seq<char>) -> Seq<char> {
    fill_from(t, 0, name, count)
}

/// A template without braces comes out as it went in.
pub proof fn law_fill_keeps_brace_free_text(t: Seq<char>, name: Seq<char>, count: Seq<char>)
    requires
        forall|i: int| 0 <= i < t.len() ==> #[trigger] t[i] != '{' && t[i] != '}',
    ensures
        fill_template(t, name, count) == t,
{
    lemma_fill_from_brace_free(t, 0, name, count);
    assert(t.subrange(0, t.len() as int) =~= t);
}

proof fn lemma_fill_from_brace_free(t: Seq<char>, i: int, name: Seq<char>, count: Seq<char>)
    requires
        0 <= i <= t.len(),
        forall|j: int| 0 <= j < t.len() ==> #[trigger] t[j] != '{' && t[j] != '}',
    ensures
        fill_from(t, i, name, count) == t.subrange(i, t.len() as int),
    decreases t.len() - i,
{
    if i < t.len() {
        lemma_fill_from_brace_free(t, i + 1, name, count);
        assert(!occurs_at(t, i, open2())) by {
            if occurs_at(t, i, open2()) {
                assert(t.subrange(i, i + 2)[0] == t[i]);
            }
        }
        assert(!occurs_at(t, i, close2())) by {
            if occurs_at(t, i, close2()) {
                assert(t.subrange(i, i + 2)[0] == t[i]);
            }
        }
        assert(!occurs_at(t, i, name_arg())) by {
            if occurs_at(t, i, name_arg()) {
                assert(t.subrange(i, i + 6)[0] == t[i]);
            }
        }
        assert(!occurs_at(t, i, col_count_arg())) by {
            if occurs_at(t, i, col_count_arg()) {
                assert(t.subrange(i, i + 11)[0] == t[i]);
            }
        }
        assert(t.subrange(i, t.len() as int) =~= seq![t[i]] + t.subrange(i + 1, t.len() as int));
    } else {
        assert(t.subrange(i, t.len() as int) =~= Seq::<char>::empty());
    }
}

fn chars_of(s: &str) -> (r: Vec<char>)
    ensures
        r@ == s@,
{
    let n = s.unicode_len();
    let mut r: Vec<char> = Vec::new();
    let mut i: usize = 0;
    while i < n
        invariant
            n == s@.len(),
            i <= n,
            r@ == s@.subrange(0, i as int),
        decreases n - i,
    {
        r.push(s.get_char(i));
        proof {
            assert(r@ =~= s@.subrange(0, i + 1));
        }
        i = i + 1;
    }
    proof {
        assert(s@.subrange(0, n as int) =~= s@);
    }
    r
}

fn occurs_at_exec(t: &Vec<char>, i: usize, pat: &Vec<char>) -> (r: bool)
    ensures
        r == occurs_at(t@, i as int, pat@),
{
    if i > t.len() || pat.len() > t.len() - i {
        return false;
    }
    let mut k: usize = 0;
    while k < pat.len()
        invariant
            i + pat@.len() <= t@.len(),
            k <= pat@.len(),
            t@.len() == t.len(),
            forall|m: int| 0 <= m < k ==> t@[i + m] == pat@[m],
        decreases pat@.len() - k,
    {
        if t[i + k] != pat[k] {
            proof {
                assert(t@.subrange(i as int, i + pat@.len())[k as int] != pat@[k as int]);
            }
            return false;
        }
        k = k + 1;
    }
    proof {
        assert(t@.subrange(i as int, i + pat@.len()) =~= pat@);
    }
    true
}

fn fill_step(
    t: &Vec<char>,
    i: usize,
    name: &str,
    col_count: &str,
    open_p: &Vec<char>,
    close_p: &Vec<char>,
    name_p: &Vec<char>,
    count_p: &Vec<char>,
) -> (r: (String, usize))
    requires
        i < t@.len(),
        open_p@ == open2(),
        close_p@ == close2(),
        name_p@ == name_arg(),
        count_p@ == col_count_arg(),
    ensures
        i < i + r.1 <= t@.len(),
        fill_from(t@, i as int, name@, col_count@) == r.0@ + fill_from(t@, i + r.1, name@, col_count@),
{
    let mut out = String::new();
    if occurs_at_exec(t, i, open_p) {
        push_char(&mut out, '{');
        proof {
            assert(out@ =~= seq!['{']);
        }
        (out, 2)
    } else if occurs_at_exec(t, i, close_p) {
        push_char(&mut out, '}');
        proof {
            assert(out@ =~= seq!['}']);
        }
        (out, 2)
    } else if occurs_at_exec(t, i, name_p) {
        (String::from_str(name), 6)
    } else if occurs_at_exec(t, i, count_p) {
        (String::from_str(col_count), 11)
    } else {
        push_char(&mut out, t[i]);
        proof {
            assert(out@ =~= seq![t@[i as int]]);
        }
        (out, 1)
    }
}

/// Fills the template: `{{` and `}}` become single braces, `{name}` becomes `name` and
/// `{col_count}` becomes `col_count`.
pub fn fill(template: &str, name: &str, col_count: &str) -> (r: String)
    ensures
        r@ == fill_template(template@, name@, col_count@),
{
    let t = chars_of(template);
    let open_p: Vec<char> = vec!['{', '{'];
    let close_p: Vec<char> = vec!['}', '}'];
    let name_p: Vec<char> = vec!['{', 'n', 'a', 'm', 'e', '}'];
    let count_p: Vec<char> = vec!['{', 'c', 'o', 'l', '_', 'c', 'o', 'u', 'n', 't', '}'];
    proof {
        assert(open_p@ =~= open2());
        assert(close_p@ =~= close2());
        assert(name_p@ =~= name_arg());
        assert(count_p@ =~= col_count_arg());
    }
    let mut out = String::new();
    let mut i: usize = 0;
    proof {
        assert(out@ + fill_from(t@, 0, name@, col_count@) =~= fill_from(t@, 0, name@, col_count@));
    }
    while i < t.len()
        invariant
            t@ == template@,
            open_p@ == open2(),
            close_p@ == close2(),
            name_p@ == name_arg(),
            count_p@ == col_count_arg(),
            i <= t@.len(),
            out@ + fill_from(t@, i as int, name@, col_count@) == fill_template(template@, name@, col_count@),
        decreases t@.len() - i,
    {
        let (piece, step) = fill_step(&t, i, name, col_count, &open_p, &close_p, &name_p, &count_p);
        let ghost o0 = out@;
        out.append(piece.as_str());
        proof {
            vstd::seq_lib::lemma_concat_associative(o0, piece@, fill_from(t@, i + step, name@, col_count@));
        }
        i = i + step;
    }
    proof {
        assert(out@ =~= out@ + fill_from(t@, i as int, name@, col_count@));
    }
    out
}

} // verus!
