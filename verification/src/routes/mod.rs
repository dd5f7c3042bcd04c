//! Request handlers' logic, and the text of an error chain.

pub mod admin;

use vstd::prelude::*;
use vstd::string::StringExecFns;

verus! {

/// The report of an error and its chain of causes: the error, a blank line,
/// then, from the nearest cause to the root, `Caused by:` and the cause on a
/// tab-indented line.
pub open spec fn error_chain_text(error: Seq<char>, causes: Seq<Seq<char>>) -> Seq<char> {
    error + "\n"@ + "\n"@ + framed_lines(causes, "Caused by:\n\t"@, "\n"@)
}

/// The views of a vector of strings.
pub open spec fn views(v: Seq<String>) -> Seq<Seq<char>> {
    v.map_values(|s: String| s@)
}

/// Each message between `before` and `after`, in order.
pub open spec fn framed_lines(messages: Seq<Seq<char>>, before: Seq<char>, after: Seq<char>) -> Seq<
    char,
>
    decreases messages.len(),
{
    if messages.len() == 0 {
        Seq::empty()
    } else {
        framed_lines(messages.drop_last(), before, after) + before + messages.last() + after
    }
}

/// Framing a list of messages frames each part of it in turn: the text of
/// `a + b` is the text of `a` followed by the text of `b`.
pub proof fn lemma_framed_lines_concat(
    a: Seq<Seq<char>>,
    b: Seq<Seq<char>>,
    before: Seq<char>,
    after: Seq<char>,
)
    ensures
        framed_lines(a + b, before, after) == framed_lines(a, before, after) + framed_lines(
            b,
            before,
            after,
        ),
    decreases b.len(),
{
    if b.len() == 0 {
        assert(a + b =~= a);
        assert(framed_lines(a, before, after) + Seq::<char>::empty() =~= framed_lines(a, before, after));
    } else {
        lemma_framed_lines_concat(a, b.drop_last(), before, after);
        assert((a + b).drop_last() =~= a + b.drop_last());
        assert((a + b).last() == b.last());
        assert(framed_lines(a + b, before, after) =~= framed_lines(a, before, after)
            + framed_lines(b, before, after));
    }
}

/// The views of a vector of strings are those of its strings, one for one,
/// in order.
pub proof fn lemma_views(v: Seq<String>)
    ensures
        views(v).len() == v.len(),
        forall|i: int| 0 <= i < v.len() ==> #[trigger] views(v)[i] == v[i]@,
{
}

/// Framing writes each message whole, between `before` and `after`, in
/// order: nothing for no messages, `before + m + after` for one message `m`,
/// and one more such piece for each further message.
pub proof fn lemma_framed_lines_each_message(
    messages: Seq<Seq<char>>,
    m: Seq<char>,
    before: Seq<char>,
    after: Seq<char>,
)
    ensures
        framed_lines(Seq::empty(), before, after) == Seq::<char>::empty(),
        framed_lines(seq![m], before, after) == before + m + after,
        framed_lines(messages.push(m), before, after) == framed_lines(messages, before, after)
            + before + m + after,
{
    assert(seq![m].drop_last() =~= Seq::<Seq<char>>::empty());
    assert(messages.push(m).drop_last() =~= messages);
    assert(Seq::<char>::empty() + before + m + after =~= before + m + after);
}

/// The report of an error with no cause is the error and a blank line; each
/// further cause adds `Caused by:`, a line break, a tab, the whole cause and
/// a line break at the end.
pub proof fn lemma_error_chain_each_cause(error: Seq<char>, causes: Seq<Seq<char>>, cause: Seq<char>)
    ensures
        error_chain_text(error, Seq::empty()) == error + seq!['\n', '\n'],
        error_chain_text(error, seq![cause]) == error + seq!['\n', '\n'] + seq![
            'C',
            'a',
            'u',
            's',
            'e',
            'd',
            ' ',
            'b',
            'y',
            ':',
            '\n',
            '\t',
        ] + cause + seq!['\n'],
        error_chain_text(error, causes.push(cause)) == error_chain_text(error, causes) + seq![
            'C',
            'a',
            'u',
            's',
            'e',
            'd',
            ' ',
            'b',
            'y',
            ':',
            '\n',
            '\t',
        ] + cause + seq!['\n'],
{
    reveal_strlit("\n");
    reveal_strlit("Caused by:\n\t");
    let before = "Caused by:\n\t"@;
    let after = "\n"@;
    lemma_framed_lines_each_message(causes, cause, before, after);
    lemma_framed_lines_each_message(Seq::empty(), cause, before, after);
    assert(error_chain_text(error, Seq::empty()) =~= error + seq!['\n', '\n']);
    assert(error_chain_text(error, seq![cause]) =~= error + seq!['\n', '\n'] + before + cause
        + after);
    assert(error_chain_text(error, causes.push(cause)) =~= error_chain_text(error, causes) + before
        + cause + after);
}

/// With a non-empty `after`, the framed text is empty exactly when there are
/// no messages, and it is at least as long as the messages together with
/// their frames.
pub proof fn lemma_framed_lines_empty_iff(
    messages: Seq<Seq<char>>,
    before: Seq<char>,
    after: Seq<char>,
)
    requires
        after.len() > 0,
    ensures
        (framed_lines(messages, before, after).len() == 0) <==> (messages.len() == 0),
        framed_lines(messages, before, after).len() >= messages.len() * after.len(),
    decreases messages.len(),
{
    if messages.len() > 0 {
        lemma_framed_lines_empty_iff(messages.drop_last(), before, after);
        assert(messages.len() * after.len() == (messages.len() - 1) * after.len() + after.len())
            by (nonlinear_arith);
    }
}

/// The text of the flash messages of a page, each between `before` and `after`.
pub fn frame_lines(messages: &Vec<String>, before: &str, after: &str) -> (r: String)
    ensures
        r@ == framed_lines(views(messages@), before@, after@),
{
    let mut r = String::new();
    let mut i: usize = 0;
    while i < messages.len()
        invariant
            i <= messages.len(),
            r@ == framed_lines(views(messages@.take(i as int)), before@, after@),
        decreases messages.len() - i,
    {
        r.append(before);
        r.append(messages[i].as_str());
        r.append(after);
        proof {
            let taken = views(messages@.take(i + 1));
            assert(taken.drop_last() =~= views(messages@.take(i as int)));
            assert(taken.last() == messages@[i as int]@);
            assert(r@ =~= framed_lines(taken, before@, after@));
        }
        i = i + 1;
    }
    proof {
        assert(messages@.take(messages.len() as int) =~= messages@);
    }
    r
}

/// Writes the report of an error: `error` is the text of the error itself,
/// `causes` the texts of its sources, each the source of the one before.
pub fn error_chain_fmt(error: &str, causes: &Vec<String>) -> (r: String)
    ensures
        r@ == error_chain_text(error@, views(causes@)),
{
    let mut r = String::new();
    r.append(error);
    r.append("\n");
    r.append("\n");
    let chain = frame_lines(causes, "Caused by:\n\t", "\n");
    r.append(chain.as_str());
    proof {
        assert(r@ =~= error_chain_text(error@, views(causes@)));
    }
    r
}

} // verus!
